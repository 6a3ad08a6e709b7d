//! The turns of a connection.
//!
//! A connection carries one request at a time: after a request has gone out,
//! the next frame with the top bit clear is its reply, and no other request
//! may go out before that reply has been read. Events may come in at any
//! time, also between a request and its reply; they are told by the top bit
//! of their type code, not by their place in the stream.
//!
//! The functions here decide; reading and writing is the caller's part. The
//! caller keeps the request that is outstanding, calls `begin` before it
//! writes a request, and hands every frame that it reads to `accept`.

use crate::error::IpcError;
use crate::events::{decode_event, spec_decode_event};
use crate::frame::{Frame, FrameView};
use crate::json::{json_document, JsonValue};
use crate::message::{Message, MessageView};
use crate::registry::{is_event_code, RequestKind, EVENT_BIT};
use crate::replies::{resolve, spec_resolve};
use crate::text::result_view;
use vstd::prelude::*;

verus! {

/// Whether a request may go out: only while none is outstanding.
pub open spec fn spec_begin(outstanding: Option<RequestKind>, kind: RequestKind) -> Option<
    RequestKind,
> {
    match outstanding {
        None => Some(kind),
        Some(_) => None,
    }
}

/// Asks to send a request of `kind`. Gives the request that is outstanding
/// from now on, or `None` where one is outstanding already and nothing may be
/// sent.
pub fn begin(outstanding: Option<RequestKind>, kind: RequestKind) -> (r: Option<RequestKind>)
    ensures
        r == spec_begin(outstanding, kind),
{
    match outstanding {
        None => Some(kind),
        Some(_) => None,
    }
}

/// The request that is outstanding after a frame has come in: an event
/// leaves it as it was; a frame with the code of the outstanding request
/// answers it, well-formed or not; any other frame leaves it as it was.
pub open spec fn spec_outstanding_after(outstanding: Option<RequestKind>, type_code: u32) -> Option<
    RequestKind,
> {
    match outstanding {
        Some(kind) if !is_event_code(type_code) && type_code == kind.spec_code() => None,
        _ => outstanding,
    }
}

/// What a frame that comes in is, given the request that is outstanding and
/// the document that the payload parses to.
///
/// An event is decoded as such. A frame with the top bit clear is the reply
/// to the outstanding request where it has the code of that request. Where
/// it has the code of another request, or where no request is outstanding,
/// the stream is out of step. A code that names no request is an unknown
/// message type.
pub open spec fn spec_accept(
    outstanding: Option<RequestKind>,
    frame: FrameView,
    document: Option<JsonValue>,
) -> Result<MessageView, IpcError> {
    if is_event_code(frame.type_code) {
        match spec_decode_event(frame.type_code, frame.payload, document) {
            Ok(event) => Ok(MessageView::Event(event)),
            Err(e) => Err(e),
        }
    } else {
        match RequestKind::spec_from_code(frame.type_code) {
            None => Err(IpcError::UnknownMessageType(frame.type_code)),
            Some(answered) => {
                if outstanding == Some(answered) {
                    match spec_resolve(answered, document) {
                        Ok(reply) => Ok(MessageView::Reply(reply)),
                        Err(e) => Err(e),
                    }
                } else {
                    Err(IpcError::ProtocolDesync)
                }
            },
        }
    }
}

/// Takes a frame that came in. Gives the request that is outstanding from
/// now on, and what the frame is.
pub fn accept(outstanding: Option<RequestKind>, frame: &Frame) -> (r: (
    Option<RequestKind>,
    Result<Message, IpcError>,
))
    ensures
        r.0 == spec_outstanding_after(outstanding, frame.type_code),
        result_view(r.1) == spec_accept(outstanding, frame@, json_document(frame.payload@)),
{
    if frame.type_code & EVENT_BIT != 0 {
        let event = match decode_event(frame.type_code, frame.payload.as_slice()) {
            Ok(event) => Ok(Message::Event(event)),
            Err(e) => Err(e),
        };
        return (outstanding, event);
    }
    match RequestKind::from_code(frame.type_code) {
        None => {
            proof {
                lemma_code_names_its_kind(outstanding, frame.type_code);
            }
            (outstanding, Err(IpcError::UnknownMessageType(frame.type_code)))
        },
        Some(answered) => {
            proof {
                lemma_code_names_its_kind(outstanding, frame.type_code);
            }
            match outstanding {
                Some(kind) => {
                    if kind.code() == frame.type_code {
                        let reply = match resolve(answered, frame.payload.as_slice()) {
                            Ok(reply) => Ok(Message::Reply(reply)),
                            Err(e) => Err(e),
                        };
                        (None, reply)
                    } else {
                        (outstanding, Err(IpcError::ProtocolDesync))
                    }
                },
                None => (outstanding, Err(IpcError::ProtocolDesync)),
            }
        },
    }
}

/// A code is that of the outstanding request exactly when it names the kind
/// of that request.
proof fn lemma_code_names_its_kind(outstanding: Option<RequestKind>, code: u32)
    ensures
        outstanding matches Some(kind) ==> (code == kind.spec_code() <==> RequestKind::spec_from_code(
            code,
        ) == Some(kind)),
{
}

/// While the reply to a request is outstanding, events pass and leave it
/// outstanding; a frame with the code of the request ends the wait.
pub proof fn lemma_turns(kind: RequestKind, frame: FrameView, document: Option<JsonValue>)
    ensures
        is_event_code(frame.type_code) ==> spec_outstanding_after(Some(kind), frame.type_code)
            == Some(kind) && !(spec_accept(Some(kind), frame, document) matches Ok(
            MessageView::Reply(_),
        )),
        frame.type_code == kind.spec_code() ==> spec_outstanding_after(
            Some(kind),
            frame.type_code,
        ) is None && !(spec_accept(Some(kind), frame, document) matches Ok(MessageView::Event(_))),
        spec_accept(None, frame, document) matches Ok(m) ==> m is Event,
{
    crate::registry::lemma_event_bit(frame.type_code);
    crate::registry::lemma_request_code_round_trip(kind);
}

} // verus!
