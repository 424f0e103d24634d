//! The command dispatcher and the capture stream.
//!
//! A command is run against one device, to which the caller holds exclusive
//! access for the whole call. What a command does to the device and what it
//! answers is stated as a relation over the device before, the device after,
//! the command and the outcome; the relation is built from those by which the
//! driver describes its own operations.

use crate::decimal::{i32_value, i64_value, parse_i32, parse_i64, parse_u32, parse_u8, u32_value, u8_value};
use crate::envelope::{
    reply, CameraCmd, ParamMap, Payload, PayloadView, ResponseEnvelope, ResponseEnvelopeView,
    ResultPayload, ResultPayloadView,
};
use crate::interface::{
    keeps_control, keeps_flag, keeps_roi, CameraInfoView, CameraInterface, ControlType, ImgType,
    ROIFormat, RoiRequest,
};
use vstd::prelude::*;

verus! {

/// Why a command could not be run. Such a command is dropped: nothing is
/// asked of the device and nothing is answered.
#[derive(Debug, Clone, Copy, PartialEq, Eq, Structural)]
pub enum DispatchError {
    /// A parameter that the command needs is not among its data.
    MissingParameter,
    /// A parameter is not a numeral, does not fit its type, or names no
    /// control.
    InvalidParameter,
}

/// How far a command has come after the dispatcher has run it.
#[derive(Debug, Clone, PartialEq, Eq)]
pub enum Progress {
    /// The command is done; this is its one response.
    Done(ResponseEnvelope),
    /// The capture runs: take steps of the stream until one closes it.
    Streaming,
    /// The devices are to be enumerated again.
    Reenumerate,
}

/// [`Progress`], with the response taken by its view.
pub enum ProgressView {
    Done(ResponseEnvelopeView),
    Streaming,
    Reenumerate,
}

impl View for Progress {
    type V = ProgressView;

    open spec fn view(&self) -> ProgressView {
        match self {
            Progress::Done(response) => ProgressView::Done(response@),
            Progress::Streaming => ProgressView::Streaming,
            Progress::Reenumerate => ProgressView::Reenumerate,
        }
    }
}

/// One step of a capture stream.
#[derive(Debug, Clone, PartialEq, Eq)]
pub enum StreamStep {
    /// The stream goes on; this response carries one frame.
    Frame(ResponseEnvelope),
    /// The stream is over; this is its last response.
    Closed(ResponseEnvelope),
}

/// [`StreamStep`], with the response taken by its view.
pub enum StreamStepView {
    Frame(ResponseEnvelopeView),
    Closed(ResponseEnvelopeView),
}

impl View for StreamStep {
    type V = StreamStepView;

    open spec fn view(&self) -> StreamStepView {
        match self {
            StreamStep::Frame(response) => StreamStepView::Frame(response@),
            StreamStep::Closed(response) => StreamStepView::Closed(response@),
        }
    }
}

/// An outcome, with the response in it taken by its view.
pub open spec fn outcome_view(outcome: Result<Progress, DispatchError>) -> Result<
    ProgressView,
    DispatchError,
> {
    match outcome {
        Ok(progress) => Ok(progress@),
        Err(e) => Err(e),
    }
}

/// The parameters of a command: texts under their keys.
pub type Params = Map<Seq<char>, Seq<char>>;

/// The text under `key`, or the error for a parameter that is not there.
pub open spec fn text_param(data: Params, key: Seq<char>) -> Result<Seq<char>, DispatchError> {
    if data.contains_key(key) {
        Ok(data[key])
    } else {
        Err(DispatchError::MissingParameter)
    }
}

/// The parameter under `key` read as a `u32`, or the error for a parameter
/// that is not there or is no numeral of that type.
pub open spec fn u32_param(data: Params, key: Seq<char>) -> Result<u32, DispatchError> {
    match text_param(data, key) {
        Ok(text) => match u32_value(text) {
            Some(v) => Ok(v),
            None => Err(DispatchError::InvalidParameter),
        },
        Err(e) => Err(e),
    }
}

/// The parameter under `key` read as a `u8`.
pub open spec fn u8_param(data: Params, key: Seq<char>) -> Result<u8, DispatchError> {
    match text_param(data, key) {
        Ok(text) => match u8_value(text) {
            Some(v) => Ok(v),
            None => Err(DispatchError::InvalidParameter),
        },
        Err(e) => Err(e),
    }
}

/// The parameter under `key` read as an `i32`.
pub open spec fn i32_param(data: Params, key: Seq<char>) -> Result<i32, DispatchError> {
    match text_param(data, key) {
        Ok(text) => match i32_value(text) {
            Some(v) => Ok(v),
            None => Err(DispatchError::InvalidParameter),
        },
        Err(e) => Err(e),
    }
}

/// The parameter under `key` read as an `i64`.
pub open spec fn i64_param(data: Params, key: Seq<char>) -> Result<i64, DispatchError> {
    match text_param(data, key) {
        Ok(text) => match i64_value(text) {
            Some(v) => Ok(v),
            None => Err(DispatchError::InvalidParameter),
        },
        Err(e) => Err(e),
    }
}

/// The region that the parameters of a command ask for. The parameters are
/// read in the order `startx`, `starty`, `width`, `height`, `bin`,
/// `img_type`; the first that fails gives the error.
pub open spec fn roi_request(data: Params) -> Result<RoiRequest, DispatchError> {
    match u32_param(data, "startx"@) {
        Ok(startx) => match u32_param(data, "starty"@) {
            Ok(starty) => match u32_param(data, "width"@) {
                Ok(width) => match u32_param(data, "height"@) {
                    Ok(height) => match u8_param(data, "bin"@) {
                        Ok(bin) => match i32_param(data, "img_type"@) {
                            Ok(img_type) => Ok(
                                RoiRequest {
                                    startx,
                                    starty,
                                    width,
                                    height,
                                    bin,
                                    img_type: ImgType::of_ordinal(img_type as int),
                                },
                            ),
                            Err(e) => Err(e),
                        },
                        Err(e) => Err(e),
                    },
                    Err(e) => Err(e),
                },
                Err(e) => Err(e),
            },
            Err(e) => Err(e),
        },
        Err(e) => Err(e),
    }
}

/// The control that the parameter `ctrl_type` names.
pub open spec fn control_param(data: Params) -> Result<ControlType, DispatchError> {
    match i32_param(data, "ctrl_type"@) {
        Ok(n) => if ControlType::is_ordinal(n as int) {
            Ok(ControlType::of_ordinal(n as int))
        } else {
            Err(DispatchError::InvalidParameter)
        },
        Err(e) => Err(e),
    }
}

/// The control and the value that the parameters `ctrl_type` and `value`
/// name, read in this order.
pub open spec fn control_write(data: Params) -> Result<(ControlType, i64), DispatchError> {
    match control_param(data) {
        Ok(ctrl_type) => match i64_param(data, "value"@) {
            Ok(value) => Ok((ctrl_type, value)),
            Err(e) => Err(e),
        },
        Err(e) => Err(e),
    }
}

/// Whether a command carries the parameters that it needs.
pub open spec fn parameters_ok(request: PayloadView) -> bool {
    match CameraCmd::of_code(request.cmd_idx as int) {
        CameraCmd::GetCtrlVal => control_param(request.data) is Ok,
        CameraCmd::SetRoi => roi_request(request.data) is Ok,
        CameraCmd::SetCtrlVal => control_write(request.data) is Ok,
        _ => true,
    }
}

/// The outcome of a command that is done and answers `request` with `data`.
pub open spec fn done(request: PayloadView, data: ResultPayloadView) -> Result<
    ProgressView,
    DispatchError,
> {
    Ok(ProgressView::Done(reply(request, data)))
}

/// The description is read and sent; the device stays as it is.
pub open spec fn get_info_effect<T: CameraInterface>(
    before: T,
    after: T,
    request: PayloadView,
    outcome: Result<ProgressView, DispatchError>,
) -> bool {
    &&& after == before
    &&& exists|info: CameraInfoView| #[trigger]
        before.reads_info(info) && outcome == done(request, ResultPayloadView::Info(info))
}

/// The region is read and sent; the device stays as it is.
pub open spec fn get_roi_effect<T: CameraInterface>(
    before: T,
    after: T,
    request: PayloadView,
    outcome: Result<ProgressView, DispatchError>,
) -> bool {
    &&& after == before
    &&& exists|roi: ROIFormat| #[trigger]
        before.reads_roi(roi) && outcome == done(request, ResultPayloadView::Roi(roi))
}

/// The region is asked for, then read back: the response holds what the
/// device reports after the write.
pub open spec fn set_roi_effect<T: CameraInterface>(
    before: T,
    after: T,
    request: PayloadView,
    outcome: Result<ProgressView, DispatchError>,
) -> bool {
    match roi_request(request.data) {
        Ok(wanted) => before.sets_roi(&after, wanted) && exists|roi: ROIFormat| #[trigger]
            after.reads_roi(roi) && outcome == done(request, ResultPayloadView::Roi(roi)),
        Err(e) => after == before && outcome == Err::<ProgressView, DispatchError>(e),
    }
}

/// The control is read on `device`, and the reading is sent with the
/// ordinal of the control.
pub open spec fn control_reply<T: CameraInterface>(
    device: T,
    ctrl_type: ControlType,
    request: PayloadView,
    outcome: Result<ProgressView, DispatchError>,
) -> bool {
    exists|value: i64| #[trigger]
        device.reads_control(ctrl_type, value) && outcome == done(
            request,
            ResultPayloadView::Control { ctrl_type: ctrl_type.ordinal() as i32, value },
        )
}

/// The control that the command names is read and sent; the device stays as
/// it is.
pub open spec fn get_control_effect<T: CameraInterface>(
    before: T,
    after: T,
    request: PayloadView,
    outcome: Result<ProgressView, DispatchError>,
) -> bool {
    &&& after == before
    &&& match control_param(request.data) {
        Ok(ctrl_type) => control_reply(before, ctrl_type, request, outcome),
        Err(e) => outcome == Err::<ProgressView, DispatchError>(e),
    }
}

/// The value is written with automatic mode off, then read back: the
/// response holds what the device reports after the write.
pub open spec fn set_control_effect<T: CameraInterface>(
    before: T,
    after: T,
    request: PayloadView,
    outcome: Result<ProgressView, DispatchError>,
) -> bool {
    match control_write(request.data) {
        Ok((ctrl_type, value)) => before.sets_control(&after, ctrl_type, value, false)
            && control_reply(after, ctrl_type, request, outcome),
        Err(e) => after == before && outcome == Err::<ProgressView, DispatchError>(e),
    }
}

/// The capture flag is set, then the capture is started.
pub open spec fn start_effect<T: CameraInterface>(
    before: T,
    after: T,
    outcome: Result<ProgressView, DispatchError>,
) -> bool {
    &&& exists|flagged: T| #[trigger] before.sets_flag(&flagged, true) && flagged.starts(&after)
    &&& outcome == Ok::<ProgressView, DispatchError>(ProgressView::Streaming)
}

/// The capture flag is cleared, then the capture is stopped.
pub open spec fn stop_effect<T: CameraInterface>(
    before: T,
    after: T,
    request: PayloadView,
    outcome: Result<ProgressView, DispatchError>,
) -> bool {
    &&& exists|flagged: T| #[trigger] before.sets_flag(&flagged, false) && flagged.stops(&after)
    &&& outcome == done(request, ResultPayloadView::Empty)
}

/// What running one command does: `after` is the device that `before` has
/// become, `outcome` is what the dispatcher hands back.
pub open spec fn command_effect<T: CameraInterface>(
    before: T,
    after: T,
    request: PayloadView,
    outcome: Result<ProgressView, DispatchError>,
) -> bool {
    match CameraCmd::of_code(request.cmd_idx as int) {
        CameraCmd::GetInfo => get_info_effect(before, after, request, outcome),
        CameraCmd::GetStatus => after == before && outcome == done(
            request,
            ResultPayloadView::Empty,
        ),
        CameraCmd::GetRoi => get_roi_effect(before, after, request, outcome),
        CameraCmd::GetCtrlVal => get_control_effect(before, after, request, outcome),
        CameraCmd::SetRoi => set_roi_effect(before, after, request, outcome),
        CameraCmd::SetCtrlVal => set_control_effect(before, after, request, outcome),
        CameraCmd::StartCapture => start_effect(before, after, outcome),
        CameraCmd::StopCapture => stop_effect(before, after, request, outcome),
        CameraCmd::Init => after == before && outcome == Ok::<ProgressView, DispatchError>(
            ProgressView::Reenumerate,
        ),
        CameraCmd::NotImplemented => after == before && outcome == done(
            request,
            ResultPayloadView::Empty,
        ),
    }
}

/// What one step of a capture stream does. The flag is read first. Where it
/// is clear the stream closes and the device is left alone. Where it is set
/// a frame is asked for: a frame goes out, or, where none came, the flag is
/// cleared and the stream closes.
pub open spec fn stream_effect<T: CameraInterface>(
    before: T,
    after: T,
    request: PayloadView,
    step: StreamStepView,
) -> bool {
    exists|flag: bool| #[trigger]
        before.reads_flag(flag) && if !flag {
            after == before && step == StreamStepView::Closed(
                reply(request, ResultPayloadView::Empty),
            )
        } else {
            exists|frame: Option<Seq<char>>| #[trigger]
                before.yields_frame(frame) && match frame {
                    Some(f) => after == before && step == StreamStepView::Frame(
                        reply(request, ResultPayloadView::Frame(f)),
                    ),
                    None => before.sets_flag(&after, false) && step == StreamStepView::Closed(
                        reply(request, ResultPayloadView::Empty),
                    ),
                }
        }
}

fn read_text<'a>(data: &'a ParamMap, key: &str) -> (r: Result<&'a String, DispatchError>)
    ensures
        match r {
            Ok(text) => text_param(data@, key@) == Ok::<Seq<char>, DispatchError>(text@),
            Err(e) => text_param(data@, key@) == Err::<Seq<char>, DispatchError>(e),
        },
{
    match data.get(key) {
        Some(text) => Ok(text),
        None => Err(DispatchError::MissingParameter),
    }
}

fn read_u32(data: &ParamMap, key: &str) -> (r: Result<u32, DispatchError>)
    ensures
        r == u32_param(data@, key@),
{
    match read_text(data, key) {
        Ok(text) => match parse_u32(text.as_str()) {
            Some(v) => Ok(v),
            None => Err(DispatchError::InvalidParameter),
        },
        Err(e) => Err(e),
    }
}

fn read_u8(data: &ParamMap, key: &str) -> (r: Result<u8, DispatchError>)
    ensures
        r == u8_param(data@, key@),
{
    match read_text(data, key) {
        Ok(text) => match parse_u8(text.as_str()) {
            Some(v) => Ok(v),
            None => Err(DispatchError::InvalidParameter),
        },
        Err(e) => Err(e),
    }
}

fn read_i32(data: &ParamMap, key: &str) -> (r: Result<i32, DispatchError>)
    ensures
        r == i32_param(data@, key@),
{
    match read_text(data, key) {
        Ok(text) => match parse_i32(text.as_str()) {
            Some(v) => Ok(v),
            None => Err(DispatchError::InvalidParameter),
        },
        Err(e) => Err(e),
    }
}

fn read_i64(data: &ParamMap, key: &str) -> (r: Result<i64, DispatchError>)
    ensures
        r == i64_param(data@, key@),
{
    match read_text(data, key) {
        Ok(text) => match parse_i64(text.as_str()) {
            Some(v) => Ok(v),
            None => Err(DispatchError::InvalidParameter),
        },
        Err(e) => Err(e),
    }
}

/// Reads the region that a command asks for.
pub fn read_roi_request(data: &ParamMap) -> (r: Result<RoiRequest, DispatchError>)
    ensures
        r == roi_request(data@),
{
    let startx: u32 = match read_u32(data, "startx") {
        Ok(v) => v,
        Err(e) => {
            return Err(e);
        },
    };
    let starty: u32 = match read_u32(data, "starty") {
        Ok(v) => v,
        Err(e) => {
            return Err(e);
        },
    };
    let width: u32 = match read_u32(data, "width") {
        Ok(v) => v,
        Err(e) => {
            return Err(e);
        },
    };
    let height: u32 = match read_u32(data, "height") {
        Ok(v) => v,
        Err(e) => {
            return Err(e);
        },
    };
    let bin: u8 = match read_u8(data, "bin") {
        Ok(v) => v,
        Err(e) => {
            return Err(e);
        },
    };
    let img_type: i32 = match read_i32(data, "img_type") {
        Ok(v) => v,
        Err(e) => {
            return Err(e);
        },
    };
    Ok(RoiRequest { startx, starty, width, height, bin, img_type: ImgType::from_i32(&img_type) })
}

/// Reads the control that a command names.
pub fn read_control(data: &ParamMap) -> (r: Result<ControlType, DispatchError>)
    ensures
        r == control_param(data@),
{
    match read_i32(data, "ctrl_type") {
        Ok(n) => match ControlType::try_from_i32(n) {
            Some(ctrl_type) => Ok(ctrl_type),
            None => Err(DispatchError::InvalidParameter),
        },
        Err(e) => Err(e),
    }
}

/// Reads the control and the value that a command writes.
pub fn read_control_write(data: &ParamMap) -> (r: Result<(ControlType, i64), DispatchError>)
    ensures
        r == control_write(data@),
{
    match read_control(data) {
        Ok(ctrl_type) => match read_i64(data, "value") {
            Ok(value) => Ok((ctrl_type, value)),
            Err(e) => Err(e),
        },
        Err(e) => Err(e),
    }
}

fn control_response<T: CameraInterface>(camera: &T, ctrl_type: ControlType, dict: &Payload) -> (progress:
    Progress)
    ensures
        control_reply(*camera, ctrl_type, dict@, Ok(progress@)),
{
    let value: i64 = camera.get_control_value(ctrl_type);
    Progress::Done(dict.reply(ResultPayload::Control { ctrl_type: ctrl_type.to_i32(), value }))
}

/// Runs one command against a device.
///
/// Parameters are read before the device is touched: a command whose
/// parameters are missing or malformed fails and leaves the device as it
/// was. A write is followed by a read, so that the response holds what the
/// device reports and not what the client asked for.
pub fn cmd_process<T: CameraInterface>(camera: &mut T, dict: &Payload) -> (outcome: Result<
    Progress,
    DispatchError,
>)
    ensures
        command_effect(*old(camera), *final(camera), dict@, outcome_view(outcome)),
{
    match CameraCmd::from_i32(&dict.cmd_idx) {
        CameraCmd::GetInfo => {
            let info = camera.get_info();
            Ok(Progress::Done(dict.reply(ResultPayload::Info(info))))
        },
        CameraCmd::GetStatus => Ok(Progress::Done(dict.reply(ResultPayload::Empty))),
        CameraCmd::GetCtrlVal => {
            match read_control(&dict.data) {
                Ok(ctrl_type) => Ok(control_response(camera, ctrl_type, dict)),
                Err(e) => Err(e),
            }
        },
        CameraCmd::GetRoi => {
            let roi = camera.get_roi();
            Ok(Progress::Done(dict.reply(ResultPayload::Roi(roi))))
        },
        CameraCmd::SetCtrlVal => {
            match read_control_write(&dict.data) {
                Ok((ctrl_type, value)) => {
                    camera.set_control_value(ctrl_type, value, false);
                    Ok(control_response(camera, ctrl_type, dict))
                },
                Err(e) => Err(e),
            }
        },
        CameraCmd::SetRoi => {
            match read_roi_request(&dict.data) {
                Ok(wanted) => {
                    camera.set_roi(
                        wanted.startx,
                        wanted.starty,
                        wanted.width,
                        wanted.height,
                        wanted.bin,
                        wanted.img_type,
                    );
                    let roi = camera.get_roi();
                    Ok(Progress::Done(dict.reply(ResultPayload::Roi(roi))))
                },
                Err(e) => Err(e),
            }
        },
        CameraCmd::StartCapture => {
            camera.set_is_capture(true);
            camera.start_capture();
            Ok(Progress::Streaming)
        },
        CameraCmd::StopCapture => {
            camera.set_is_capture(false);
            camera.stop_capture();
            Ok(Progress::Done(dict.reply(ResultPayload::Empty)))
        },
        CameraCmd::Init => Ok(Progress::Reenumerate),
        CameraCmd::NotImplemented => Ok(Progress::Done(dict.reply(ResultPayload::Empty))),
    }
}

/// Takes one step of the capture stream that `dict` started.
pub fn capture_step<T: CameraInterface>(camera: &mut T, dict: &Payload) -> (step: StreamStep)
    ensures
        stream_effect(*old(camera), *final(camera), dict@, step@),
{
    if !camera.is_capture() {
        return StreamStep::Closed(dict.reply(ResultPayload::Empty));
    }
    match camera.get_frame() {
        Some(frame) => StreamStep::Frame(dict.reply(ResultPayload::Frame(frame))),
        None => {
            camera.set_is_capture(false);
            StreamStep::Closed(dict.reply(ResultPayload::Empty))
        },
    }
}


/// A command whose parameters are in order is answered exactly once, and the
/// answer names the transaction, the device and the command of the request.
/// The two exceptions hand the answering on: a started capture to the
/// stream, an enumeration to the registry. A command with an unknown code
/// and a status query are answered with nothing to report.
pub proof fn lemma_one_reply_per_command<T: CameraInterface>(
    before: T,
    after: T,
    request: PayloadView,
    outcome: Result<ProgressView, DispatchError>,
)
    requires
        command_effect(before, after, request, outcome),
        parameters_ok(request),
    ensures
        match CameraCmd::of_code(request.cmd_idx as int) {
            CameraCmd::StartCapture => outcome == Ok::<ProgressView, DispatchError>(
                ProgressView::Streaming,
            ),
            CameraCmd::Init => outcome == Ok::<ProgressView, DispatchError>(
                ProgressView::Reenumerate,
            ),
            code => {
                &&& outcome matches Ok(ProgressView::Done(response))
                &&& response.transaction_id == request.transaction_id
                &&& response.camera_idx == request.camera_idx
                &&& response.cmd_idx == request.cmd_idx
                &&& code == CameraCmd::NotImplemented || code == CameraCmd::GetStatus
                    ==> response.data == ResultPayloadView::Empty
            },
        },
{
}

/// A command whose parameters are not in order fails, and the device is as
/// it was.
pub proof fn lemma_bad_parameters_touch_nothing<T: CameraInterface>(
    before: T,
    after: T,
    request: PayloadView,
    outcome: Result<ProgressView, DispatchError>,
)
    requires
        command_effect(before, after, request, outcome),
        !parameters_ok(request),
    ensures
        outcome is Err,
        after == before,
{
}

/// Every step of a stream gives one response, which names the transaction,
/// the device and the command of the request that started the capture. The
/// response that closes the stream has nothing to report.
pub proof fn lemma_one_reply_per_step<T: CameraInterface>(
    before: T,
    after: T,
    request: PayloadView,
    step: StreamStepView,
)
    requires
        stream_effect(before, after, request, step),
    ensures
        match step {
            StreamStepView::Frame(response) => {
                &&& response.data is Frame
                &&& response == reply(request, response.data)
            },
            StreamStepView::Closed(response) => response == reply(
                request,
                ResultPayloadView::Empty,
            ),
        },
{
}

/// On a driver that keeps its region, setting a region and then getting it
/// answers both times with the region that was asked for.
pub proof fn lemma_roi_round_trip<T: CameraInterface>(
    before: T,
    between: T,
    after: T,
    set: PayloadView,
    get: PayloadView,
    set_outcome: Result<ProgressView, DispatchError>,
    get_outcome: Result<ProgressView, DispatchError>,
)
    requires
        keeps_roi::<T>(),
        CameraCmd::of_code(set.cmd_idx as int) == CameraCmd::SetRoi,
        CameraCmd::of_code(get.cmd_idx as int) == CameraCmd::GetRoi,
        roi_request(set.data) is Ok,
        command_effect(before, between, set, set_outcome),
        command_effect(between, after, get, get_outcome),
    ensures
        set_outcome == done(set, ResultPayloadView::Roi(roi_request(set.data)->Ok_0.format())),
        get_outcome == done(get, ResultPayloadView::Roi(roi_request(set.data)->Ok_0.format())),
{
}

/// On a driver that keeps its region, of two regions set one after the other
/// the second is answered whole: each number in the answer is one that the
/// second command asked for.
pub proof fn lemma_second_region_wins<T: CameraInterface>(
    before: T,
    between: T,
    after: T,
    first: PayloadView,
    second: PayloadView,
    first_outcome: Result<ProgressView, DispatchError>,
    second_outcome: Result<ProgressView, DispatchError>,
)
    requires
        keeps_roi::<T>(),
        CameraCmd::of_code(first.cmd_idx as int) == CameraCmd::SetRoi,
        CameraCmd::of_code(second.cmd_idx as int) == CameraCmd::SetRoi,
        roi_request(second.data) is Ok,
        command_effect(before, between, first, first_outcome),
        command_effect(between, after, second, second_outcome),
    ensures
        second_outcome == done(
            second,
            ResultPayloadView::Roi(roi_request(second.data)->Ok_0.format()),
        ),
{
}

/// On a driver that keeps a control, writing the control and then reading it
/// answers both times with the value that was written.
pub proof fn lemma_control_round_trip<T: CameraInterface>(
    before: T,
    between: T,
    after: T,
    set: PayloadView,
    get: PayloadView,
    set_outcome: Result<ProgressView, DispatchError>,
    get_outcome: Result<ProgressView, DispatchError>,
)
    requires
        CameraCmd::of_code(set.cmd_idx as int) == CameraCmd::SetCtrlVal,
        CameraCmd::of_code(get.cmd_idx as int) == CameraCmd::GetCtrlVal,
        control_write(set.data) is Ok,
        control_param(get.data) == Ok::<ControlType, DispatchError>(
            control_write(set.data)->Ok_0.0,
        ),
        keeps_control::<T>(control_write(set.data)->Ok_0.0),
        command_effect(before, between, set, set_outcome),
        command_effect(between, after, get, get_outcome),
    ensures
        ({
            let (ctrl_type, value) = control_write(set.data)->Ok_0;
            let data = ResultPayloadView::Control { ctrl_type: ctrl_type.ordinal() as i32, value };
            &&& set_outcome == done(set, data)
            &&& get_outcome == done(get, data)
        }),
{
}

/// On a driver that keeps its flag, the step that follows a start of the
/// capture asks the device for a frame: a frame goes out, or the stream
/// closes because none came.
pub proof fn lemma_start_opens_stream<T: CameraInterface>(
    before: T,
    started: T,
    after: T,
    start: PayloadView,
    outcome: Result<ProgressView, DispatchError>,
    step: StreamStepView,
)
    requires
        keeps_flag::<T>(),
        CameraCmd::of_code(start.cmd_idx as int) == CameraCmd::StartCapture,
        command_effect(before, started, start, outcome),
        stream_effect(started, after, start, step),
    ensures
        outcome == Ok::<ProgressView, DispatchError>(ProgressView::Streaming),
        started.reads_flag(true),
        exists|frame: Option<Seq<char>>| #[trigger]
            started.yields_frame(frame) && match frame {
                Some(f) => after == started && step == StreamStepView::Frame(
                    reply(start, ResultPayloadView::Frame(f)),
                ),
                None => started.sets_flag(&after, false) && step == StreamStepView::Closed(
                    reply(start, ResultPayloadView::Empty),
                ),
            },
{
    let flag = choose|flag: bool| #[trigger]
        started.reads_flag(flag) && if !flag {
            after == started && step == StreamStepView::Closed(
                reply(start, ResultPayloadView::Empty),
            )
        } else {
            exists|frame: Option<Seq<char>>| #[trigger]
                started.yields_frame(frame) && match frame {
                    Some(f) => after == started && step == StreamStepView::Frame(
                        reply(start, ResultPayloadView::Frame(f)),
                    ),
                    None => started.sets_flag(&after, false) && step == StreamStepView::Closed(
                        reply(start, ResultPayloadView::Empty),
                    ),
                }
        };
    assert(flag);
}

/// On a driver that keeps its flag, the step that follows a stop of the
/// capture closes the stream: no frame is asked for, none goes out, and the
/// device is left as the stop left it.
pub proof fn lemma_stop_closes_stream<T: CameraInterface>(
    before: T,
    stopped: T,
    after: T,
    stop: PayloadView,
    stream: PayloadView,
    outcome: Result<ProgressView, DispatchError>,
    step: StreamStepView,
)
    requires
        keeps_flag::<T>(),
        CameraCmd::of_code(stop.cmd_idx as int) == CameraCmd::StopCapture,
        command_effect(before, stopped, stop, outcome),
        stream_effect(stopped, after, stream, step),
    ensures
        outcome == done(stop, ResultPayloadView::Empty),
        step == StreamStepView::Closed(reply(stream, ResultPayloadView::Empty)),
        after == stopped,
{
}

/// A step that sends a frame leaves the device as it was, so the stream goes
/// on for as long as the flag stays set and frames come.
pub proof fn lemma_frame_step_keeps_device<T: CameraInterface>(
    before: T,
    after: T,
    request: PayloadView,
    step: StreamStepView,
)
    requires
        stream_effect(before, after, request, step),
        step is Frame,
    ensures
        after == before,
        before.reads_flag(true),
{
}

} // verus!
