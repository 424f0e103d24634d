//! The wire format: envelopes as JSON text.
//!
//! A command arrives as an object with the members `transaction_id` (a
//! string), `camera_idx` and `cmd_idx` (integers) and `data` (an object of
//! strings). A response leaves as an object of four strings; its `data` holds
//! the result, itself written as JSON.

use crate::decimal::{decimal_text, format_i64, format_u64};
use crate::envelope::{
    ParamMap, Payload, PayloadView, ResponseEnvelope, ResponseEnvelopeView, ResultPayload,
    ResultPayloadView,
};
use crate::interface::{CameraInfo, CameraInfoView, ImgType, ROIFormat};
use crate::json::{json_document, json_quoted, lemma_object_view, members_view, parse, quote, Json, JsonView};
use vstd::prelude::*;
use vstd::string::*;

verus! {

/// Why a response could not be written.
#[derive(Debug, Clone, Copy, PartialEq, Eq, Structural)]
pub enum EncodeError {
    /// A string could not be written as a JSON string literal.
    Quote,
}

/// The value of the first member named `key`.
pub open spec fn member(members: Seq<(Seq<char>, JsonView)>, key: Seq<char>) -> Option<JsonView>
    decreases members.len(),
{
    if members.len() == 0 {
        None
    } else if members[0].0 == key {
        Some(members[0].1)
    } else {
        member(members.skip(1), key)
    }
}

/// Whether every member holds a string.
pub open spec fn all_text(members: Seq<(Seq<char>, JsonView)>) -> bool {
    forall|i: int| 0 <= i < members.len() ==> (#[trigger] members[i]).1 is Text
}

/// The map from each key to the text under it; where a key comes twice the
/// later member counts.
pub open spec fn text_map(members: Seq<(Seq<char>, JsonView)>) -> Map<Seq<char>, Seq<char>>
    decreases members.len(),
{
    if members.len() == 0 {
        Map::empty()
    } else {
        text_map(members.drop_last()).insert(members.last().0, members.last().1->Text_0)
    }
}

/// Whether a number can stand for a device index or a command code.
pub open spec fn fits_i32(n: i64) -> bool {
    i32::MIN <= n <= i32::MAX
}

/// The command that a document holds; `None` where a member is missing or
/// is not of its kind.
pub open spec fn envelope_of(doc: JsonView) -> Option<PayloadView> {
    match doc {
        JsonView::Object(members) => match (
            member(members, "transaction_id"@),
            member(members, "camera_idx"@),
            member(members, "cmd_idx"@),
            member(members, "data"@),
        ) {
            (
                Some(JsonView::Text(transaction_id)),
                Some(JsonView::Number(Some(camera_idx))),
                Some(JsonView::Number(Some(cmd_idx))),
                Some(JsonView::Object(entries)),
            ) => if fits_i32(camera_idx) && fits_i32(cmd_idx) && all_text(entries) {
                Some(
                    PayloadView {
                        transaction_id,
                        camera_idx: camera_idx as i32,
                        cmd_idx: cmd_idx as i32,
                        data: text_map(entries),
                    },
                )
            } else {
                None
            },
            _ => None,
        },
        _ => None,
    }
}

/// The command that a text holds.
pub open spec fn decoded(text: Seq<char>) -> Option<PayloadView> {
    match json_document(text) {
        Some(doc) => envelope_of(doc),
        None => None,
    }
}

fn find<'a>(members: &'a Vec<(String, Json)>, key: &str) -> (found: Option<&'a Json>)
    ensures
        match found {
            Some(value) => member(members_view(members@), key@) == Some(value@),
            None => member(members_view(members@), key@) is None,
        },
{
    let wanted: String = key.to_owned();
    let ghost all = members_view(members@);
    let mut i: usize = 0;
    assert(all.skip(0) =~= all);
    while i < members.len()
        invariant
            i <= members.len(),
            wanted@ == key@,
            all == members_view(members@),
            member(all, key@) == member(all.skip(i as int), key@),
        decreases members.len() - i,
    {
        proof {
            assert(all.skip(i as int)[0] == all[i as int]);
            assert(all.skip(i as int).skip(1) =~= all.skip(i + 1));
        }
        if members[i].0 == wanted {
            return Some(&members[i].1);
        }
        i = i + 1;
    }
    None
}

fn text_entries(entries: &Vec<(String, Json)>) -> (map: Option<ParamMap>)
    ensures
        match map {
            Some(m) => all_text(members_view(entries@)) && m@ == text_map(members_view(entries@)),
            None => !all_text(members_view(entries@)),
        },
{
    let ghost all = members_view(entries@);
    let mut map: ParamMap = ParamMap::new();
    let mut i: usize = 0;
    while i < entries.len()
        invariant
            i <= entries.len(),
            all == members_view(entries@),
            all_text(all.take(i as int)),
            map@ == text_map(all.take(i as int)),
        decreases entries.len() - i,
    {
        match &entries[i].1 {
            Json::Text(value) => {
                map.insert(entries[i].0.clone(), value.clone());
                proof {
                    let next = all.take(i + 1);
                    assert(next.drop_last() =~= all.take(i as int));
                    assert(next.last() == all[i as int]);
                    assert(all[i as int].1 == JsonView::Text(value@));
                    assert forall|j: int| 0 <= j < next.len() implies (#[trigger] next[j]).1 is Text by {
                        if j < i {
                            assert(all.take(i as int)[j] == next[j]);
                        }
                    }
                }
            },
            _ => {
                proof {
                    assert(!(all[i as int].1 is Text));
                }
                return None;
            },
        }
        i = i + 1;
    }
    proof {
        assert(all.take(i as int) =~= all);
    }
    Some(map)
}

fn as_i32(value: &Json) -> (n: Option<i32>)
    ensures
        n == (match value@ {
            JsonView::Number(Some(v)) => if fits_i32(v) {
                Some(v as i32)
            } else {
                None
            },
            _ => None,
        }),
{
    match value {
        Json::Number(Some(v)) => if -2147483648 <= *v && *v <= 2147483647 {
            Some(*v as i32)
        } else {
            None
        },
        _ => None,
    }
}

/// Reads a command from a parsed document.
pub fn decode_document(doc: &Json) -> (payload: Option<Payload>)
    ensures
        match payload {
            Some(p) => envelope_of(doc@) == Some(p@),
            None => envelope_of(doc@) is None,
        },
{
    let members = match doc {
        Json::Object(members) => {
            proof {
                lemma_object_view(*members);
            }
            members
        },
        _ => {
            return None;
        },
    };
    let transaction_id: String = match find(members, "transaction_id") {
        Some(Json::Text(text)) => text.clone(),
        _ => {
            return None;
        },
    };
    let camera_idx: i32 = match find(members, "camera_idx") {
        Some(value) => match as_i32(value) {
            Some(n) => n,
            None => {
                return None;
            },
        },
        None => {
            return None;
        },
    };
    let cmd_idx: i32 = match find(members, "cmd_idx") {
        Some(value) => match as_i32(value) {
            Some(n) => n,
            None => {
                return None;
            },
        },
        None => {
            return None;
        },
    };
    let data: ParamMap = match find(members, "data") {
        Some(Json::Object(entries)) => {
            proof {
                lemma_object_view(*entries);
            }
            match text_entries(entries) {
                Some(map) => map,
                None => {
                    return None;
                },
            }
        },
        _ => {
            return None;
        },
    };
    Some(Payload { transaction_id, camera_idx, cmd_idx, data })
}

/// Reads a command from the text of a message. A text that holds none is
/// answered with `None`: such a message is dropped.
pub fn decode_envelope(text: &str) -> (payload: Option<Payload>)
    ensures
        match payload {
            Some(p) => decoded(text@) == Some(p@),
            None => decoded(text@) is None,
        },
{
    match parse(text) {
        Some(doc) => decode_document(&doc),
        None => None,
    }
}


/// The JSON text of a region of interest.
pub open spec fn roi_text(roi: ROIFormat) -> Seq<char> {
    "{\"startx\":"@ + decimal_text(roi.startx as int) + ",\"starty\":"@ + decimal_text(
        roi.starty as int,
    ) + ",\"width\":"@ + decimal_text(roi.width as int) + ",\"height\":"@ + decimal_text(
        roi.height as int,
    ) + ",\"bin\":"@ + decimal_text(roi.bin as int) + ",\"img_type\":"@ + decimal_text(
        roi.img_type as int,
    ) + "}"@
}

/// The JSON text of a control value: ordinal and value, both as strings.
pub open spec fn control_text(ctrl_type: i32, value: i64) -> Seq<char> {
    "{\"ctrl_type\":\""@ + decimal_text(ctrl_type as int) + "\",\"value\":\""@ + decimal_text(
        value as int,
    ) + "\"}"@
}

/// The JSON text of a device count, as a string.
pub open spec fn device_count_text(count: usize) -> Seq<char> {
    "{\"num_device\":\""@ + decimal_text(count as int) + "\"}"@
}

/// The names of the encodings, each in quotes, with commas between them.
pub open spec fn names_text(types: Seq<ImgType>) -> Seq<char>
    decreases types.len(),
{
    if types.len() == 0 {
        Seq::empty()
    } else if types.len() == 1 {
        "\""@ + types[0].name() + "\""@
    } else {
        names_text(types.drop_last()) + ",\""@ + types.last().name() + "\""@
    }
}

/// The numerals of the factors, with commas between them.
pub open spec fn factors_text(factors: Seq<u8>) -> Seq<char>
    decreases factors.len(),
{
    if factors.len() == 0 {
        Seq::empty()
    } else if factors.len() == 1 {
        decimal_text(factors[0] as int)
    } else {
        factors_text(factors.drop_last()) + ","@ + decimal_text(factors.last() as int)
    }
}

/// The JSON literal of a truth value.
pub open spec fn bool_text(b: bool) -> Seq<char> {
    if b {
        "true"@
    } else {
        "false"@
    }
}

/// The JSON text of a device description; `None` where the name cannot be
/// quoted.
pub open spec fn info_text(info: CameraInfoView) -> Option<Seq<char>> {
    match json_quoted(info.name) {
        Some(name) => Some(
            "{\"name\":"@ + name + ",\"idx\":"@ + decimal_text(info.idx as int)
                + ",\"max_width\":"@ + decimal_text(info.max_width as int) + ",\"max_height\":"@
                + decimal_text(info.max_height as int) + ",\"supported_img_type\":["@ + names_text(
                info.supported_img_type,
            ) + "],\"supported_bins\":["@ + factors_text(info.supported_bins)
                + "],\"is_coolable\":"@ + bool_text(info.is_coolable) + "}"@,
        ),
        None => None,
    }
}

/// The JSON text of a frame; `None` where the frame cannot be quoted.
pub open spec fn frame_text(frame: Seq<char>) -> Option<Seq<char>> {
    match json_quoted(frame) {
        Some(quoted) => Some("{\"frame\":"@ + quoted + "}"@),
        None => None,
    }
}

/// The JSON text of a result.
pub open spec fn payload_text(data: ResultPayloadView) -> Option<Seq<char>> {
    match data {
        ResultPayloadView::Info(info) => info_text(info),
        ResultPayloadView::Roi(roi) => Some(roi_text(roi)),
        ResultPayloadView::Control { ctrl_type, value } => Some(control_text(ctrl_type, value)),
        ResultPayloadView::Frame(frame) => frame_text(frame),
        ResultPayloadView::Empty => Some("{}"@),
        ResultPayloadView::DeviceCount(count) => Some(device_count_text(count)),
        ResultPayloadView::NoSuchDevice => Some("{\"error\":\"no such device\"}"@),
    }
}

/// The text of a response whose result is already written as `data`: an
/// object of four strings. `None` where a string cannot be quoted.
pub open spec fn envelope_text(
    transaction_id: Seq<char>,
    camera_idx: i32,
    cmd_idx: i32,
    data: Seq<char>,
) -> Option<Seq<char>> {
    match (json_quoted(transaction_id), json_quoted(data)) {
        (Some(id), Some(result)) => Some(
            "{\"transaction_id\":"@ + id + ",\"camera_idx\":\""@ + decimal_text(camera_idx as int)
                + "\",\"cmd_idx\":\""@ + decimal_text(cmd_idx as int) + "\",\"data\":"@ + result
                + "}"@,
        ),
        _ => None,
    }
}

/// The text of a response.
pub open spec fn response_text(response: ResponseEnvelopeView) -> Option<Seq<char>> {
    match payload_text(response.data) {
        Some(data) => envelope_text(
            response.transaction_id,
            response.camera_idx,
            response.cmd_idx,
            data,
        ),
        None => None,
    }
}

fn push_unsigned(text: &mut String, n: u64)
    ensures
        final(text)@ == old(text)@ + decimal_text(n as int),
{
    let digits: String = format_u64(n);
    text.append(digits.as_str());
}

fn push_signed(text: &mut String, n: i64)
    ensures
        final(text)@ == old(text)@ + decimal_text(n as int),
{
    let digits: String = format_i64(n);
    text.append(digits.as_str());
}

/// Writes a region of interest as JSON.
pub fn encode_roi(roi: &ROIFormat) -> (text: String)
    ensures
        text@ == roi_text(*roi),
{
    let mut s: String = String::from_str("{\"startx\":");
    push_unsigned(&mut s, roi.startx as u64);
    s.append(",\"starty\":");
    push_unsigned(&mut s, roi.starty as u64);
    s.append(",\"width\":");
    push_unsigned(&mut s, roi.width as u64);
    s.append(",\"height\":");
    push_unsigned(&mut s, roi.height as u64);
    s.append(",\"bin\":");
    push_unsigned(&mut s, roi.bin as u64);
    s.append(",\"img_type\":");
    push_unsigned(&mut s, roi.img_type as u64);
    s.append("}");
    s
}

/// Writes a control value as JSON.
pub fn encode_control(ctrl_type: i32, value: i64) -> (text: String)
    ensures
        text@ == control_text(ctrl_type, value),
{
    let mut s: String = String::from_str("{\"ctrl_type\":\"");
    push_signed(&mut s, ctrl_type as i64);
    s.append("\",\"value\":\"");
    push_signed(&mut s, value);
    s.append("\"}");
    s
}

/// Writes a device count as JSON.
pub fn encode_device_count(count: usize) -> (text: String)
    ensures
        text@ == device_count_text(count),
{
    let mut s: String = String::from_str("{\"num_device\":\"");
    push_unsigned(&mut s, count as u64);
    s.append("\"}");
    s
}

fn encode_names(types: &Vec<ImgType>) -> (text: String)
    ensures
        text@ == names_text(types@),
{
    let mut s: String = String::new();
    let mut i: usize = 0;
    while i < types.len()
        invariant
            i <= types.len(),
            s@ == names_text(types@.take(i as int)),
        decreases types.len() - i,
    {
        let ghost before = s@;
        if i == 0 {
            s.append("\"");
        } else {
            s.append(",\"");
        }
        s.append(types[i].as_str());
        s.append("\"");
        proof {
            let next = types@.take(i + 1);
            assert(next.drop_last() =~= types@.take(i as int));
            assert(next.last() == types@[i as int]);
            if i == 0 {
                assert(next[0] == types@[0]);
                assert(before =~= Seq::<char>::empty());
                assert(s@ =~= "\""@ + types@[0].name() + "\""@);
            }
        }
        i = i + 1;
    }
    proof {
        assert(types@.take(i as int) =~= types@);
    }
    s
}

fn encode_factors(factors: &Vec<u8>) -> (text: String)
    ensures
        text@ == factors_text(factors@),
{
    let mut s: String = String::new();
    let mut i: usize = 0;
    while i < factors.len()
        invariant
            i <= factors.len(),
            s@ == factors_text(factors@.take(i as int)),
        decreases factors.len() - i,
    {
        let ghost before = s@;
        if i > 0 {
            s.append(",");
        }
        push_unsigned(&mut s, factors[i] as u64);
        proof {
            let next = factors@.take(i + 1);
            assert(next.drop_last() =~= factors@.take(i as int));
            assert(next.last() == factors@[i as int]);
            if i == 0 {
                assert(next[0] == factors@[0]);
                assert(before =~= Seq::<char>::empty());
                assert(s@ =~= decimal_text(factors@[0] as int));
            }
        }
        i = i + 1;
    }
    proof {
        assert(factors@.take(i as int) =~= factors@);
    }
    s
}

/// Writes a device description as JSON.
pub fn encode_info(info: &CameraInfo) -> (text: Result<String, EncodeError>)
    ensures
        match text {
            Ok(t) => info_text(info@) == Some(t@),
            Err(_) => info_text(info@) is None,
        },
{
    let name: String = match quote(info.name.as_str()) {
        Some(name) => name,
        None => {
            return Err(EncodeError::Quote);
        },
    };
    let names: String = encode_names(&info.supported_img_type);
    let factors: String = encode_factors(&info.supported_bins);
    let mut s: String = String::from_str("{\"name\":");
    s.append(name.as_str());
    s.append(",\"idx\":");
    push_unsigned(&mut s, info.idx as u64);
    s.append(",\"max_width\":");
    push_unsigned(&mut s, info.max_width as u64);
    s.append(",\"max_height\":");
    push_unsigned(&mut s, info.max_height as u64);
    s.append(",\"supported_img_type\":[");
    s.append(names.as_str());
    s.append("],\"supported_bins\":[");
    s.append(factors.as_str());
    s.append("],\"is_coolable\":");
    if info.is_coolable {
        s.append("true");
    } else {
        s.append("false");
    }
    s.append("}");
    Ok(s)
}

/// Writes a frame as JSON.
pub fn encode_frame(frame: &str) -> (text: Result<String, EncodeError>)
    ensures
        match text {
            Ok(t) => frame_text(frame@) == Some(t@),
            Err(_) => frame_text(frame@) is None,
        },
{
    match quote(frame) {
        Some(quoted) => {
            let mut s: String = String::from_str("{\"frame\":");
            s.append(quoted.as_str());
            s.append("}");
            Ok(s)
        },
        None => Err(EncodeError::Quote),
    }
}

/// Writes a result as JSON.
pub fn encode_payload(data: &ResultPayload) -> (text: Result<String, EncodeError>)
    ensures
        match text {
            Ok(t) => payload_text(data@) == Some(t@),
            Err(_) => payload_text(data@) is None,
        },
{
    match data {
        ResultPayload::Info(info) => encode_info(info),
        ResultPayload::Roi(roi) => Ok(encode_roi(roi)),
        ResultPayload::Control { ctrl_type, value } => Ok(encode_control(*ctrl_type, *value)),
        ResultPayload::Frame(frame) => encode_frame(frame.as_str()),
        ResultPayload::Empty => Ok(String::from_str("{}")),
        ResultPayload::DeviceCount(count) => Ok(encode_device_count(*count)),
        ResultPayload::NoSuchDevice => Ok(String::from_str("{\"error\":\"no such device\"}")),
    }
}

/// Writes the response that carries `data`, a result already written as
/// JSON, under the given transaction identifier, device index and command
/// code.
pub fn gen_responce(t_id: &String, camera_idx: &i32, cmd_idx: &i32, data: String) -> (text: Result<
    String,
    EncodeError,
>)
    ensures
        match text {
            Ok(t) => envelope_text(t_id@, *camera_idx, *cmd_idx, data@) == Some(t@),
            Err(_) => envelope_text(t_id@, *camera_idx, *cmd_idx, data@) is None,
        },
{
    let id: String = match quote(t_id.as_str()) {
        Some(id) => id,
        None => {
            return Err(EncodeError::Quote);
        },
    };
    let result: String = match quote(data.as_str()) {
        Some(result) => result,
        None => {
            return Err(EncodeError::Quote);
        },
    };
    let mut s: String = String::from_str("{\"transaction_id\":");
    s.append(id.as_str());
    s.append(",\"camera_idx\":\"");
    push_signed(&mut s, *camera_idx as i64);
    s.append("\",\"cmd_idx\":\"");
    push_signed(&mut s, *cmd_idx as i64);
    s.append("\",\"data\":");
    s.append(result.as_str());
    s.append("}");
    Ok(s)
}

/// Writes a response as the text of a message.
pub fn encode_response(response: &ResponseEnvelope) -> (text: Result<String, EncodeError>)
    ensures
        match text {
            Ok(t) => response_text(response@) == Some(t@),
            Err(_) => response_text(response@) is None,
        },
{
    match encode_payload(&response.data) {
        Ok(data) => gen_responce(
            &response.transaction_id,
            &response.camera_idx,
            &response.cmd_idx,
            data,
        ),
        Err(e) => Err(e),
    }
}

} // verus!
