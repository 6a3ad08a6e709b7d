//! From a frame to a typed message: the type code of the frame tells a reply
//! from an event, and selects the decoder of the payload.

use crate::error::IpcError;
use crate::events::{decode_event, spec_decode_event, Event, EventView};
use crate::frame::{Frame, FrameView};
use crate::json::{json_document, JsonValue};
use crate::registry::{is_event_code, RequestKind, EVENT_BIT};
use crate::replies::{resolve, spec_resolve, SwayMessageReply, SwayMessageReplyView};
use crate::text::result_view;
use vstd::prelude::*;

verus! {

/// What a frame holds.
#[derive(Clone, Debug, PartialEq)]
pub enum Message {
    Reply(SwayMessageReply),
    Event(Event),
}

/// The mathematical model of [`Message`].
pub enum MessageView {
    Reply(SwayMessageReplyView),
    Event(EventView),
}

impl DeepView for Message {
    type V = MessageView;

    open spec fn deep_view(&self) -> MessageView {
        match self {
            Message::Reply(reply) => MessageView::Reply(reply.deep_view()),
            Message::Event(event) => MessageView::Event(event.deep_view()),
        }
    }
}

/// What a frame decodes to, given the document that its payload parses to.
///
/// With the top bit of the type code set the frame is an event, and one of
/// an unknown type is handed on as such. With the bit clear the frame is the
/// reply to the request that its type code names; a code that names none is
/// an unknown message type.
pub open spec fn spec_decode_message(frame: FrameView, document: Option<JsonValue>) -> Result<
    MessageView,
    IpcError,
> {
    if is_event_code(frame.type_code) {
        match spec_decode_event(frame.type_code, frame.payload, document) {
            Ok(event) => Ok(MessageView::Event(event)),
            Err(e) => Err(e),
        }
    } else {
        match RequestKind::spec_from_code(frame.type_code) {
            Some(requested) => match spec_resolve(requested, document) {
                Ok(reply) => Ok(MessageView::Reply(reply)),
                Err(e) => Err(e),
            },
            None => Err(IpcError::UnknownMessageType(frame.type_code)),
        }
    }
}

/// Decodes a frame as the reply or the event that its type code says it is.
pub fn decode_message(frame: &Frame) -> (r: Result<Message, IpcError>)
    ensures
        result_view(r) == spec_decode_message(frame@, json_document(frame.payload@)),
{
    if frame.type_code & EVENT_BIT != 0 {
        match decode_event(frame.type_code, frame.payload.as_slice()) {
            Ok(event) => Ok(Message::Event(event)),
            Err(e) => Err(e),
        }
    } else {
        match RequestKind::from_code(frame.type_code) {
            Some(requested) => match resolve(requested, frame.payload.as_slice()) {
                Ok(reply) => Ok(Message::Reply(reply)),
                Err(e) => Err(e),
            },
            None => Err(IpcError::UnknownMessageType(frame.type_code)),
        }
    }
}

} // verus!
