//! The gateway's side of the transport: which topic carries what, and what
//! becomes of a message that arrives.

use crate::codec::{decode_envelope, decoded, member};
use crate::envelope::{
    reply, Payload, PayloadView, ResponseEnvelope, ResponseEnvelopeView, ResultPayload,
    ResultPayloadView,
};
use crate::json::{json_document, JsonView};
use vstd::prelude::*;
use vstd::string::*;

verus! {

/// The topic on which commands for devices arrive.
pub const INSTR_TOPIC: &'static str = "camera/instr";

/// The topic on which requests to enumerate the devices arrive.
pub const INIT_TOPIC: &'static str = "camera/init";

/// The topic on which every response leaves.
pub const RESPONSE_TOPIC: &'static str = "camera/responce";

/// The device index in the answer to an enumeration.
pub const NO_DEVICE: i32 = -1;

/// The command code in the answer to an enumeration.
pub const INIT_CODE: i32 = 8;

/// What becomes of a message.
#[derive(Debug, Clone)]
pub enum Inbound {
    /// Nothing: the message is dropped and no response goes out.
    Dropped,
    /// The devices are enumerated again, and `init_reply` answers.
    Reenumerate(Payload),
    /// The command is run against the device at `index`.
    Dispatch { index: usize, command: Payload },
    /// The command is not run; this response goes out in its place.
    Reject(ResponseEnvelope),
}

/// [`Inbound`], with commands and responses taken by their views.
pub enum InboundView {
    Dropped,
    Reenumerate(PayloadView),
    Dispatch { index: usize, command: PayloadView },
    Reject(ResponseEnvelopeView),
}

impl View for Inbound {
    type V = InboundView;

    open spec fn view(&self) -> InboundView {
        match self {
            Inbound::Dropped => InboundView::Dropped,
            Inbound::Reenumerate(command) => InboundView::Reenumerate(command@),
            Inbound::Dispatch { index, command } => InboundView::Dispatch {
                index: *index,
                command: command@,
            },
            Inbound::Reject(response) => InboundView::Reject(response@),
        }
    }
}

/// Where a command goes. On the enumeration topic it asks for enumeration.
/// On the command topic it is run against the device it names, if the
/// registry holds that device, and is answered with a failure if not. On any
/// other topic it is dropped.
pub open spec fn routed(topic: Seq<char>, command: PayloadView, num_devices: usize) -> InboundView {
    if topic == INIT_TOPIC@ {
        InboundView::Reenumerate(command)
    } else if topic == INSTR_TOPIC@ {
        if 0 <= command.camera_idx < num_devices {
            InboundView::Dispatch { index: command.camera_idx as usize, command }
        } else {
            InboundView::Reject(reply(command, ResultPayloadView::NoSuchDevice))
        }
    } else {
        InboundView::Dropped
    }
}

/// What becomes of a message with the given text: a text that holds no
/// command is dropped, whatever the topic.
pub open spec fn received(topic: Seq<char>, text: Seq<char>, num_devices: usize) -> InboundView {
    match decoded(text) {
        Some(command) => routed(topic, command, num_devices),
        None => InboundView::Dropped,
    }
}

/// The answer to an enumeration that found `num_devices` devices.
pub open spec fn init_response(command: PayloadView, num_devices: usize) -> ResponseEnvelopeView {
    ResponseEnvelopeView {
        transaction_id: command.transaction_id,
        camera_idx: NO_DEVICE,
        cmd_idx: INIT_CODE,
        data: ResultPayloadView::DeviceCount(num_devices),
    }
}

fn same_text(a: &str, b: &str) -> (same: bool)
    ensures
        same == (a@ == b@),
{
    let a: String = a.to_owned();
    let b: String = b.to_owned();
    a == b
}

/// Decides where a decoded command goes.
pub fn route(topic: &str, command: Payload, num_devices: usize) -> (inbound: Inbound)
    ensures
        inbound@ == routed(topic@, command@, num_devices),
{
    if same_text(topic, INIT_TOPIC) {
        Inbound::Reenumerate(command)
    } else if same_text(topic, INSTR_TOPIC) {
        if 0 <= command.camera_idx && (command.camera_idx as u32 as u64) < (num_devices as u64) {
            Inbound::Dispatch { index: command.camera_idx as usize, command }
        } else {
            Inbound::Reject(command.reply(ResultPayload::NoSuchDevice))
        }
    } else {
        Inbound::Dropped
    }
}

/// Decides what becomes of a message, given the number of devices in the
/// registry.
pub fn receive(topic: &str, text: &str, num_devices: usize) -> (inbound: Inbound)
    ensures
        inbound@ == received(topic@, text@, num_devices),
{
    match decode_envelope(text) {
        Some(command) => route(topic, command, num_devices),
        None => Inbound::Dropped,
    }
}

/// Answers an enumeration.
pub fn init_reply(command: &Payload, num_devices: usize) -> (response: ResponseEnvelope)
    ensures
        response@ == init_response(command@, num_devices),
{
    ResponseEnvelope {
        transaction_id: command.transaction_id.clone(),
        camera_idx: NO_DEVICE,
        cmd_idx: INIT_CODE,
        data: ResultPayload::DeviceCount(num_devices),
    }
}


/// A command for a device that the registry holds is run against that
/// device, as it was sent.
pub proof fn lemma_known_device_is_dispatched(command: PayloadView, num_devices: usize)
    requires
        0 <= command.camera_idx < num_devices,
    ensures
        routed(INSTR_TOPIC@, command, num_devices) == (InboundView::Dispatch {
            index: command.camera_idx as usize,
            command,
        }),
{
    reveal_strlit("camera/instr");
    reveal_strlit("camera/init");
    assert(INSTR_TOPIC@.len() != INIT_TOPIC@.len());
}

/// A command for a device that the registry does not hold, be its index
/// negative or too large, is answered with a failure that names the
/// transaction, the index and the command of the request.
pub proof fn lemma_unknown_device_is_rejected(command: PayloadView, num_devices: usize)
    requires
        command.camera_idx < 0 || command.camera_idx >= num_devices,
    ensures
        routed(INSTR_TOPIC@, command, num_devices) == InboundView::Reject(
            ResponseEnvelopeView {
                transaction_id: command.transaction_id,
                camera_idx: command.camera_idx,
                cmd_idx: command.cmd_idx,
                data: ResultPayloadView::NoSuchDevice,
            },
        ),
{
    reveal_strlit("camera/instr");
    reveal_strlit("camera/init");
    assert(INSTR_TOPIC@.len() != INIT_TOPIC@.len());
}

/// A text that holds no command is dropped on every topic: it is neither
/// run nor answered.
pub proof fn lemma_malformed_is_dropped(topic: Seq<char>, text: Seq<char>, num_devices: usize)
    requires
        decoded(text) is None,
    ensures
        received(topic, text, num_devices) == InboundView::Dropped,
{
}

/// An object without the member `cmd_idx` holds no command.
pub proof fn lemma_command_code_is_needed(text: Seq<char>, members: Seq<(Seq<char>, JsonView)>)
    requires
        json_document(text) == Some(JsonView::Object(members)),
        member(members, "cmd_idx"@) is None,
    ensures
        decoded(text) is None,
{
}

} // verus!
