//! Command and response envelopes, as values.

use crate::interface::{CameraInfo, CameraInfoView, ROIFormat};
use vstd::prelude::*;

verus! {

/// The operations a client can ask for. `NotImplemented` stands for every
/// command code outside `0..=8`.
#[derive(Debug, Clone, Copy, PartialEq, Eq, Structural)]
pub enum CameraCmd {
    GetInfo,
    GetStatus,
    GetRoi,
    GetCtrlVal,
    SetRoi,
    SetCtrlVal,
    StartCapture,
    StopCapture,
    Init,
    NotImplemented,
}

impl CameraCmd {
    /// The command with code `n`.
    pub open spec fn of_code(n: int) -> CameraCmd {
        if n == 0 {
            CameraCmd::GetInfo
        } else if n == 1 {
            CameraCmd::GetStatus
        } else if n == 2 {
            CameraCmd::GetRoi
        } else if n == 3 {
            CameraCmd::GetCtrlVal
        } else if n == 4 {
            CameraCmd::SetRoi
        } else if n == 5 {
            CameraCmd::SetCtrlVal
        } else if n == 6 {
            CameraCmd::StartCapture
        } else if n == 7 {
            CameraCmd::StopCapture
        } else if n == 8 {
            CameraCmd::Init
        } else {
            CameraCmd::NotImplemented
        }
    }

    /// The command with code `cmd_idx`.
    pub fn from_i32(cmd_idx: &i32) -> (cmd: CameraCmd)
        ensures
            cmd == CameraCmd::of_code(*cmd_idx as int),
    {
        match *cmd_idx {
            0 => CameraCmd::GetInfo,
            1 => CameraCmd::GetStatus,
            2 => CameraCmd::GetRoi,
            3 => CameraCmd::GetCtrlVal,
            4 => CameraCmd::SetRoi,
            5 => CameraCmd::SetCtrlVal,
            6 => CameraCmd::StartCapture,
            7 => CameraCmd::StopCapture,
            8 => CameraCmd::Init,
            _ => CameraCmd::NotImplemented,
        }
    }
}

/// The map that a list of key and value pairs stands for: a later pair
/// replaces an earlier one with the same key.
pub open spec fn pairs_map(pairs: Seq<(String, String)>) -> Map<Seq<char>, Seq<char>>
    decreases pairs.len(),
{
    if pairs.len() == 0 {
        Map::empty()
    } else {
        pairs_map(pairs.drop_last()).insert(pairs.last().0@, pairs.last().1@)
    }
}

proof fn lemma_pairs_map_found(pairs: Seq<(String, String)>, key: Seq<char>, i: int)
    requires
        0 <= i < pairs.len(),
        pairs[i].0@ == key,
        forall|j: int| i < j < pairs.len() ==> (#[trigger] pairs[j]).0@ != key,
    ensures
        pairs_map(pairs).contains_key(key),
        pairs_map(pairs)[key] == pairs[i].1@,
    decreases pairs.len(),
{
    if i < pairs.len() - 1 {
        let front = pairs.drop_last();
        assert forall|j: int| i < j < front.len() implies (#[trigger] front[j]).0@ != key by {
            assert(front[j] == pairs[j]);
        }
        lemma_pairs_map_found(front, key, i);
        assert(pairs.last().0@ != key);
    }
}

proof fn lemma_pairs_map_absent(pairs: Seq<(String, String)>, key: Seq<char>)
    requires
        forall|j: int| 0 <= j < pairs.len() ==> (#[trigger] pairs[j]).0@ != key,
    ensures
        !pairs_map(pairs).contains_key(key),
    decreases pairs.len(),
{
    if pairs.len() > 0 {
        let front = pairs.drop_last();
        assert forall|j: int| 0 <= j < front.len() implies (#[trigger] front[j]).0@ != key by {
            assert(front[j] == pairs[j]);
        }
        lemma_pairs_map_absent(front, key);
        assert(pairs.last().0@ != key);
    }
}

/// The parameters of a command: text values under text keys.
#[derive(Debug, Clone)]
pub struct ParamMap {
    entries: Vec<(String, String)>,
}

impl View for ParamMap {
    type V = Map<Seq<char>, Seq<char>>;

    closed spec fn view(&self) -> Map<Seq<char>, Seq<char>> {
        pairs_map(self.entries@)
    }
}

impl ParamMap {
    /// The map without parameters.
    pub fn new() -> (map: ParamMap)
        ensures
            map@ == Map::<Seq<char>, Seq<char>>::empty(),
    {
        ParamMap { entries: Vec::new() }
    }

    /// Puts `value` under `key`, in place of what was there.
    pub fn insert(&mut self, key: String, value: String)
        ensures
            final(self)@ == old(self)@.insert(key@, value@),
    {
        let ghost before = self.entries@;
        self.entries.push((key, value));
        assert(self.entries@.drop_last() =~= before);
    }

    /// The value under `key`.
    pub fn get(&self, key: &str) -> (value: Option<&String>)
        ensures
            match value {
                Some(v) => self@.contains_key(key@) && self@[key@] == v@,
                None => !self@.contains_key(key@),
            },
    {
        let wanted: String = key.to_owned();
        let mut i: usize = self.entries.len();
        while i > 0
            invariant
                i <= self.entries.len(),
                wanted@ == key@,
                forall|j: int| i <= j < self.entries.len() ==> (#[trigger] self.entries@[j]).0@ != key@,
            decreases i,
        {
            i = i - 1;
            if self.entries[i].0 == wanted {
                proof {
                    lemma_pairs_map_found(self.entries@, key@, i as int);
                }
                return Some(&self.entries[i].1);
            }
        }
        proof {
            lemma_pairs_map_absent(self.entries@, key@);
        }
        None
    }
}

/// A command as a client sends it.
#[derive(Debug, Clone)]
pub struct Payload {
    pub transaction_id: String,
    pub camera_idx: i32,
    pub cmd_idx: i32,
    pub data: ParamMap,
}

/// [`Payload`], with its texts and its parameters taken by their views.
pub struct PayloadView {
    pub transaction_id: Seq<char>,
    pub camera_idx: i32,
    pub cmd_idx: i32,
    pub data: Map<Seq<char>, Seq<char>>,
}

impl View for Payload {
    type V = PayloadView;

    open spec fn view(&self) -> PayloadView {
        PayloadView {
            transaction_id: self.transaction_id@,
            camera_idx: self.camera_idx,
            cmd_idx: self.cmd_idx,
            data: self.data@,
        }
    }
}

/// What a response carries as the result of its command.
#[derive(Debug, Clone, PartialEq, Eq)]
pub enum ResultPayload {
    /// The description of the device.
    Info(CameraInfo),
    /// The region of interest the device reports.
    Roi(ROIFormat),
    /// The value the device reports for a control.
    Control { ctrl_type: i32, value: i64 },
    /// One encoded frame of a running capture.
    Frame(String),
    /// Nothing to report.
    Empty,
    /// The number of devices after enumeration.
    DeviceCount(usize),
    /// The command named a device that the registry does not hold.
    NoSuchDevice,
}

/// [`ResultPayload`], with its texts and lists taken by their views.
pub enum ResultPayloadView {
    Info(CameraInfoView),
    Roi(ROIFormat),
    Control { ctrl_type: i32, value: i64 },
    Frame(Seq<char>),
    Empty,
    DeviceCount(usize),
    NoSuchDevice,
}

impl View for ResultPayload {
    type V = ResultPayloadView;

    open spec fn view(&self) -> ResultPayloadView {
        match self {
            ResultPayload::Info(info) => ResultPayloadView::Info(info@),
            ResultPayload::Roi(roi) => ResultPayloadView::Roi(*roi),
            ResultPayload::Control { ctrl_type, value } => ResultPayloadView::Control {
                ctrl_type: *ctrl_type,
                value: *value,
            },
            ResultPayload::Frame(frame) => ResultPayloadView::Frame(frame@),
            ResultPayload::Empty => ResultPayloadView::Empty,
            ResultPayload::DeviceCount(n) => ResultPayloadView::DeviceCount(*n),
            ResultPayload::NoSuchDevice => ResultPayloadView::NoSuchDevice,
        }
    }
}

/// The answer to a command.
#[derive(Debug, Clone, PartialEq, Eq)]
pub struct ResponseEnvelope {
    pub transaction_id: String,
    pub camera_idx: i32,
    pub cmd_idx: i32,
    pub data: ResultPayload,
}

/// [`ResponseEnvelope`], with its text and its result taken by their views.
pub struct ResponseEnvelopeView {
    pub transaction_id: Seq<char>,
    pub camera_idx: i32,
    pub cmd_idx: i32,
    pub data: ResultPayloadView,
}

impl View for ResponseEnvelope {
    type V = ResponseEnvelopeView;

    open spec fn view(&self) -> ResponseEnvelopeView {
        ResponseEnvelopeView {
            transaction_id: self.transaction_id@,
            camera_idx: self.camera_idx,
            cmd_idx: self.cmd_idx,
            data: self.data@,
        }
    }
}

/// The response that answers `request` with `data`: transaction identifier,
/// device index and command code are those of the request.
pub open spec fn reply(request: PayloadView, data: ResultPayloadView) -> ResponseEnvelopeView {
    ResponseEnvelopeView {
        transaction_id: request.transaction_id,
        camera_idx: request.camera_idx,
        cmd_idx: request.cmd_idx,
        data,
    }
}

impl Payload {
    /// The command with the given members.
    pub fn new(transaction_id: String, camera_idx: i32, cmd_idx: i32, data: ParamMap) -> (payload:
        Payload)
        ensures
            payload@ == (PayloadView {
                transaction_id: transaction_id@,
                camera_idx,
                cmd_idx,
                data: data@,
            }),
    {
        Payload { transaction_id, camera_idx, cmd_idx, data }
    }

    /// The response that answers this command with `data`.
    pub fn reply(&self, data: ResultPayload) -> (response: ResponseEnvelope)
        ensures
            response@ == reply(self@, data@),
    {
        ResponseEnvelope {
            transaction_id: self.transaction_id.clone(),
            camera_idx: self.camera_idx,
            cmd_idx: self.cmd_idx,
            data,
        }
    }
}

} // verus!
