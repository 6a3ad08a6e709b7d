//! What can go wrong between the byte stream and a typed message.

use crate::registry::{EventType, RequestKind};
use vstd::prelude::*;
use vstd::string::*;

verus! {

/// Why a document does not have the shape of the value that was to be
/// decoded from it.
///
/// Where more than one thing is wrong with a document, the error is that of
/// the first: members are looked at in the order in which their type lists
/// them, the elements of an array from the front.
#[derive(Clone, Copy, Debug, PartialEq, Eq, Hash, Structural)]
pub enum ShapeError {
    /// A member that has to be there is missing.
    MissingField,
    /// A value is of another type than the protocol gives it: a string
    /// where a number belongs, a negative number or a fraction where an
    /// unsigned integer belongs, `null` where a value has to be, an array
    /// of another length than the one fixed.
    TypeMismatch,
    /// A name or a number outside the set that the protocol knows.
    UnknownVariant,
    /// A string without a run of hexadecimal digits that writes a 32-bit
    /// color.
    InvalidColorFormat,
    /// A string of nine characters in which a component of the color is not
    /// two hexadecimal digits.
    InvalidColorComponent,
    /// A string of another length than the nine characters of `#RRGGBBAA`.
    InvalidLength,
}

impl DeepView for ShapeError {
    type V = ShapeError;

    open spec fn deep_view(&self) -> ShapeError {
        *self
    }
}

/// Why a payload could not be decoded.
#[derive(Clone, Copy, Debug, PartialEq, Eq, Hash, Structural)]
pub enum DecodeCause {
    /// The payload is no JSON text.
    InvalidJson,
    /// The payload is JSON, but not of the shape that the message has.
    Shape(ShapeError),
}

/// The failures of this layer. None is retried here.
#[derive(Clone, Copy, Debug, PartialEq, Eq, Hash, Structural)]
pub enum IpcError {
    /// The stream failed or ended inside a frame. The connection is lost.
    TransportError,
    /// What came in is no frame of this protocol: the magic is wrong or the
    /// length is beyond the limit. The connection cannot be used further.
    ProtocolDesync,
    /// A type code outside the sets that this library knows.
    UnknownMessageType(u32),
    /// The payload of a reply does not decode as the reply to the request.
    MalformedReply { request_kind: RequestKind, cause: DecodeCause },
    /// The payload of an event does not decode as the body of the event.
    MalformedEvent { event_kind: EventType, cause: DecodeCause },
}

impl DeepView for IpcError {
    type V = IpcError;

    open spec fn deep_view(&self) -> IpcError {
        *self
    }
}

impl ShapeError {
    pub open spec fn spec_describe(self) -> Seq<char> {
        match self {
            ShapeError::MissingField => "a required member is missing"@,
            ShapeError::TypeMismatch => "a value is of the wrong type"@,
            ShapeError::UnknownVariant => "a name is not one that the protocol knows"@,
            ShapeError::InvalidColorFormat => "a color is not written in hexadecimal"@,
            ShapeError::InvalidColorComponent => "a component of a color is not hexadecimal"@,
            ShapeError::InvalidLength => "a color is not nine characters long"@,
        }
    }

    /// A sentence for a log or a message.
    pub fn describe(&self) -> (r: String)
        ensures
            r@ == self.spec_describe(),
    {
        match self {
            ShapeError::MissingField => "a required member is missing".to_owned(),
            ShapeError::TypeMismatch => "a value is of the wrong type".to_owned(),
            ShapeError::UnknownVariant => "a name is not one that the protocol knows".to_owned(),
            ShapeError::InvalidColorFormat => "a color is not written in hexadecimal".to_owned(),
            ShapeError::InvalidColorComponent => {
                "a component of a color is not hexadecimal".to_owned()
            },
            ShapeError::InvalidLength => "a color is not nine characters long".to_owned(),
        }
    }
}

impl DecodeCause {
    pub open spec fn spec_describe(self) -> Seq<char> {
        match self {
            DecodeCause::InvalidJson => "the payload is not valid JSON"@,
            DecodeCause::Shape(e) => e.spec_describe(),
        }
    }

    /// A sentence for a log or a message.
    pub fn describe(&self) -> (r: String)
        ensures
            r@ == self.spec_describe(),
    {
        match self {
            DecodeCause::InvalidJson => "the payload is not valid JSON".to_owned(),
            DecodeCause::Shape(e) => e.describe(),
        }
    }
}

impl IpcError {
    /// Whether the connection can still be used after this failure.
    pub fn is_recoverable(&self) -> (r: bool)
        ensures
            r == !(*self is TransportError || *self is ProtocolDesync),
    {
        match self {
            IpcError::TransportError => false,
            IpcError::ProtocolDesync => false,
            _ => true,
        }
    }

    pub open spec fn spec_describe(self) -> Seq<char> {
        match self {
            IpcError::TransportError => "the transport failed or ended inside a frame"@,
            IpcError::ProtocolDesync => "the stream is not in step with the protocol"@,
            IpcError::UnknownMessageType(_) => "the type code of the message is not known"@,
            IpcError::MalformedReply { request_kind: _, cause } => "malformed reply: "@
                + cause.spec_describe(),
            IpcError::MalformedEvent { event_kind: _, cause } => "malformed event: "@
                + cause.spec_describe(),
        }
    }

    /// A sentence for a log or a message.
    pub fn describe(&self) -> (r: String)
        ensures
            r@ == self.spec_describe(),
    {
        match self {
            IpcError::TransportError => "the transport failed or ended inside a frame".to_owned(),
            IpcError::ProtocolDesync => "the stream is not in step with the protocol".to_owned(),
            IpcError::UnknownMessageType(_) => {
                "the type code of the message is not known".to_owned()
            },
            IpcError::MalformedReply { request_kind: _, cause } => {
                "malformed reply: ".to_owned().concat(cause.describe().as_str())
            },
            IpcError::MalformedEvent { event_kind: _, cause } => {
                "malformed event: ".to_owned().concat(cause.describe().as_str())
            },
        }
    }
}

} // verus!
