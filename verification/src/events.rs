//! Events: the frames that come unasked after a subscription.

use crate::decode::{failed, opt, optional, req, required, FromJson};
use crate::error::{DecodeCause, IpcError, ShapeError};
use crate::json::{json_document, parse, Json, JsonValue};
use crate::registry::EventType;
use crate::text::result_view;
use crate::tree::{SwayNode, SwayNodeView};
use vstd::prelude::*;
use vstd::slice::slice_to_vec;

verus! {

/// What an event says: what changed, and the container that it is about,
/// where it is about one.
#[derive(Clone, Debug, PartialEq)]
pub struct EventBody {
    pub change: String,
    pub container: Option<SwayNode>,
}

/// The mathematical model of [`EventBody`].
pub struct EventBodyView {
    pub change: Seq<char>,
    pub container: Option<SwayNodeView>,
}

impl DeepView for EventBody {
    type V = EventBodyView;

    open spec fn deep_view(&self) -> EventBodyView {
        EventBodyView { change: self.change.deep_view(), container: self.container.deep_view() }
    }
}

impl FromJson for EventBody {
    open spec fn decoded(j: JsonValue) -> Result<EventBodyView, ShapeError> {
        let change = required::<String>(j, "change"@);
        let container = optional::<SwayNode>(j, "container"@);
        if !(j is Object) {
            Err(ShapeError::TypeMismatch)
        } else if change is Err {
            failed(change)
        } else if container is Err {
            failed(container)
        } else {
            Ok(EventBodyView { change: change.unwrap(), container: container.unwrap() })
        }
    }

    fn from_json(j: &Json) -> (r: Result<EventBody, ShapeError>) {
        if !j.is_object() {
            return Err(ShapeError::TypeMismatch);
        }
        let change = req::<String>(j, "change")?;
        let container = opt::<SwayNode>(j, "container")?;
        Ok(EventBody { change, container })
    }
}

/// An event off the stream.
#[derive(Clone, Debug, PartialEq)]
pub enum Event {
    /// An event of a type that this library knows.
    Notification { kind: EventType, body: EventBody },
    /// An event of a type that this library does not know, with its payload
    /// as it came.
    UnknownEvent { code: u32, raw_payload: Vec<u8> },
}

/// The mathematical model of [`Event`].
pub enum EventView {
    Notification { kind: EventType, body: EventBodyView },
    UnknownEvent { code: u32, raw_payload: Seq<u8> },
}

impl DeepView for Event {
    type V = EventView;

    open spec fn deep_view(&self) -> EventView {
        match self {
            Event::Notification { kind, body } => EventView::Notification {
                kind: *kind,
                body: body.deep_view(),
            },
            Event::UnknownEvent { code, raw_payload } => EventView::UnknownEvent {
                code: *code,
                raw_payload: raw_payload@,
            },
        }
    }
}

/// What a parsed payload decodes to, as the body of an event of a known
/// type.
pub open spec fn spec_decode_event_value(kind: EventType, j: JsonValue) -> Result<
    EventView,
    IpcError,
> {
    match EventBody::decoded(j) {
        Ok(body) => Ok(EventView::Notification { kind, body }),
        Err(e) => Err(IpcError::MalformedEvent { event_kind: kind, cause: DecodeCause::Shape(e) }),
    }
}

/// What the frame of an event decodes to, given the document that its
/// payload parses to. A type code that names no known event gives the
/// payload back untouched, and never fails.
pub open spec fn spec_decode_event(code: u32, payload: Seq<u8>, document: Option<JsonValue>) -> Result<
    EventView,
    IpcError,
> {
    match EventType::spec_from_code(code) {
        None => Ok(EventView::UnknownEvent { code, raw_payload: payload }),
        Some(kind) => match document {
            Some(j) => spec_decode_event_value(kind, j),
            None => Err(
                IpcError::MalformedEvent { event_kind: kind, cause: DecodeCause::InvalidJson },
            ),
        },
    }
}

/// Decodes a parsed payload as the body of an event of a known type.
pub fn decode_event_value(kind: EventType, j: &Json) -> (r: Result<Event, IpcError>)
    ensures
        result_view(r) == spec_decode_event_value(kind, j@),
{
    match EventBody::from_json(j) {
        Ok(body) => Ok(Event::Notification { kind, body }),
        Err(e) => Err(IpcError::MalformedEvent { event_kind: kind, cause: DecodeCause::Shape(e) }),
    }
}

/// Decodes the frame of an event from its type code and payload.
pub fn decode_event(raw_type_code: u32, payload: &[u8]) -> (r: Result<Event, IpcError>)
    ensures
        result_view(r) == spec_decode_event(raw_type_code, payload@, json_document(payload@)),
{
    match EventType::from_code(raw_type_code) {
        None => Ok(Event::UnknownEvent { code: raw_type_code, raw_payload: slice_to_vec(payload) }),
        Some(kind) => match parse(payload) {
            Some(j) => decode_event_value(kind, &j),
            None => Err(
                IpcError::MalformedEvent { event_kind: kind, cause: DecodeCause::InvalidJson },
            ),
        },
    }
}

/// An event of an unknown type is handed on, whatever its payload holds.
pub proof fn lemma_unknown_event_never_fails(
    code: u32,
    payload: Seq<u8>,
    document: Option<JsonValue>,
)
    requires
        EventType::spec_from_code(code) is None,
    ensures
        spec_decode_event(code, payload, document) == Ok::<EventView, IpcError>(
            EventView::UnknownEvent { code, raw_payload: payload },
        ),
{
}

} // verus!
