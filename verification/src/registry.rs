//! The closed sets of message types: the requests, whose codes come back on
//! their replies, and the events, whose codes have the top bit set.

use crate::error::IpcError;
use crate::sway_message_type;
use vstd::prelude::*;

verus! {

/// The bit of a type code that tells an event from a reply.
pub const EVENT_BIT: u32 = 0x8000_0000u32;

/// Whether a type code is that of an event.
pub open spec fn is_event_code(code: u32) -> bool {
    code & EVENT_BIT != 0
}

/// What a client can ask for.
#[derive(Clone, Copy, Debug, PartialEq, Eq, Hash, Structural)]
pub enum RequestKind {
    RunCommand,
    GetWorkspaces,
    Subscribe,
    GetOutputs,
    GetTree,
    GetMarks,
    GetBarConfig,
    GetVersion,
    GetBindingModes,
    GetConfig,
    SendTick,
    Sync,
    GetBindingState,
    GetInputs,
    GetSeats,
}

impl RequestKind {
    pub open spec fn spec_code(self) -> u32 {
        match self {
            RequestKind::RunCommand => sway_message_type::RUN_COMMAND,
            RequestKind::GetWorkspaces => sway_message_type::GET_WORKSPACES,
            RequestKind::Subscribe => sway_message_type::SUBSCRIBE,
            RequestKind::GetOutputs => sway_message_type::GET_OUTPUTS,
            RequestKind::GetTree => sway_message_type::GET_TREE,
            RequestKind::GetMarks => sway_message_type::GET_MARKS,
            RequestKind::GetBarConfig => sway_message_type::GET_BAR_CONFIG,
            RequestKind::GetVersion => sway_message_type::GET_VERSION,
            RequestKind::GetBindingModes => sway_message_type::GET_BINDING_MODES,
            RequestKind::GetConfig => sway_message_type::GET_CONFIG,
            RequestKind::SendTick => sway_message_type::SEND_TICK,
            RequestKind::Sync => sway_message_type::SYNC,
            RequestKind::GetBindingState => sway_message_type::GET_BINDING_STATE,
            RequestKind::GetInputs => sway_message_type::GET_INPUTS,
            RequestKind::GetSeats => sway_message_type::GET_SEATS,
        }
    }

    pub open spec fn spec_from_code(code: u32) -> Option<RequestKind> {
        if code == sway_message_type::RUN_COMMAND {
            Some(RequestKind::RunCommand)
        } else if code == sway_message_type::GET_WORKSPACES {
            Some(RequestKind::GetWorkspaces)
        } else if code == sway_message_type::SUBSCRIBE {
            Some(RequestKind::Subscribe)
        } else if code == sway_message_type::GET_OUTPUTS {
            Some(RequestKind::GetOutputs)
        } else if code == sway_message_type::GET_TREE {
            Some(RequestKind::GetTree)
        } else if code == sway_message_type::GET_MARKS {
            Some(RequestKind::GetMarks)
        } else if code == sway_message_type::GET_BAR_CONFIG {
            Some(RequestKind::GetBarConfig)
        } else if code == sway_message_type::GET_VERSION {
            Some(RequestKind::GetVersion)
        } else if code == sway_message_type::GET_BINDING_MODES {
            Some(RequestKind::GetBindingModes)
        } else if code == sway_message_type::GET_CONFIG {
            Some(RequestKind::GetConfig)
        } else if code == sway_message_type::SEND_TICK {
            Some(RequestKind::SendTick)
        } else if code == sway_message_type::SYNC {
            Some(RequestKind::Sync)
        } else if code == sway_message_type::GET_BINDING_STATE {
            Some(RequestKind::GetBindingState)
        } else if code == sway_message_type::GET_INPUTS {
            Some(RequestKind::GetInputs)
        } else if code == sway_message_type::GET_SEATS {
            Some(RequestKind::GetSeats)
        } else {
            None
        }
    }

    /// The type code that goes out with a request of this kind and comes
    /// back on its reply.
    pub fn code(self) -> (c: u32)
        ensures
            c == self.spec_code(),
    {
        match self {
            RequestKind::RunCommand => sway_message_type::RUN_COMMAND,
            RequestKind::GetWorkspaces => sway_message_type::GET_WORKSPACES,
            RequestKind::Subscribe => sway_message_type::SUBSCRIBE,
            RequestKind::GetOutputs => sway_message_type::GET_OUTPUTS,
            RequestKind::GetTree => sway_message_type::GET_TREE,
            RequestKind::GetMarks => sway_message_type::GET_MARKS,
            RequestKind::GetBarConfig => sway_message_type::GET_BAR_CONFIG,
            RequestKind::GetVersion => sway_message_type::GET_VERSION,
            RequestKind::GetBindingModes => sway_message_type::GET_BINDING_MODES,
            RequestKind::GetConfig => sway_message_type::GET_CONFIG,
            RequestKind::SendTick => sway_message_type::SEND_TICK,
            RequestKind::Sync => sway_message_type::SYNC,
            RequestKind::GetBindingState => sway_message_type::GET_BINDING_STATE,
            RequestKind::GetInputs => sway_message_type::GET_INPUTS,
            RequestKind::GetSeats => sway_message_type::GET_SEATS,
        }
    }

    /// The kind of request that a type code names, if it names one.
    pub fn from_code(code: u32) -> (r: Option<RequestKind>)
        ensures
            r == RequestKind::spec_from_code(code),
    {
        if code == sway_message_type::RUN_COMMAND {
            Some(RequestKind::RunCommand)
        } else if code == sway_message_type::GET_WORKSPACES {
            Some(RequestKind::GetWorkspaces)
        } else if code == sway_message_type::SUBSCRIBE {
            Some(RequestKind::Subscribe)
        } else if code == sway_message_type::GET_OUTPUTS {
            Some(RequestKind::GetOutputs)
        } else if code == sway_message_type::GET_TREE {
            Some(RequestKind::GetTree)
        } else if code == sway_message_type::GET_MARKS {
            Some(RequestKind::GetMarks)
        } else if code == sway_message_type::GET_BAR_CONFIG {
            Some(RequestKind::GetBarConfig)
        } else if code == sway_message_type::GET_VERSION {
            Some(RequestKind::GetVersion)
        } else if code == sway_message_type::GET_BINDING_MODES {
            Some(RequestKind::GetBindingModes)
        } else if code == sway_message_type::GET_CONFIG {
            Some(RequestKind::GetConfig)
        } else if code == sway_message_type::SEND_TICK {
            Some(RequestKind::SendTick)
        } else if code == sway_message_type::SYNC {
            Some(RequestKind::Sync)
        } else if code == sway_message_type::GET_BINDING_STATE {
            Some(RequestKind::GetBindingState)
        } else if code == sway_message_type::GET_INPUTS {
            Some(RequestKind::GetInputs)
        } else if code == sway_message_type::GET_SEATS {
            Some(RequestKind::GetSeats)
        } else {
            None
        }
    }
}

/// What a subscriber can be told of.
///
/// The codes are not consecutive: after `Tick` they go on at
/// `BarStateUpdate`.
#[derive(Clone, Copy, Debug, PartialEq, Eq, Hash, Structural)]
pub enum EventType {
    Workspace,
    Output,
    Mode,
    Window,
    BarconfigUpdate,
    Binding,
    Shutdown,
    Tick,
    BarStateUpdate,
    Input,
}

impl EventType {
    pub open spec fn spec_code(self) -> u32 {
        match self {
            EventType::Workspace => 0x8000_0000u32,
            EventType::Output => 0x8000_0001u32,
            EventType::Mode => 0x8000_0002u32,
            EventType::Window => 0x8000_0003u32,
            EventType::BarconfigUpdate => 0x8000_0004u32,
            EventType::Binding => 0x8000_0005u32,
            EventType::Shutdown => 0x8000_0006u32,
            EventType::Tick => 0x8000_0007u32,
            EventType::BarStateUpdate => 0x8000_0014u32,
            EventType::Input => 0x8000_0015u32,
        }
    }

    pub open spec fn spec_from_code(code: u32) -> Option<EventType> {
        if code == 0x8000_0000u32 {
            Some(EventType::Workspace)
        } else if code == 0x8000_0001u32 {
            Some(EventType::Output)
        } else if code == 0x8000_0002u32 {
            Some(EventType::Mode)
        } else if code == 0x8000_0003u32 {
            Some(EventType::Window)
        } else if code == 0x8000_0004u32 {
            Some(EventType::BarconfigUpdate)
        } else if code == 0x8000_0005u32 {
            Some(EventType::Binding)
        } else if code == 0x8000_0006u32 {
            Some(EventType::Shutdown)
        } else if code == 0x8000_0007u32 {
            Some(EventType::Tick)
        } else if code == 0x8000_0014u32 {
            Some(EventType::BarStateUpdate)
        } else if code == 0x8000_0015u32 {
            Some(EventType::Input)
        } else {
            None
        }
    }

    /// The type code that frames of this event carry.
    pub fn code(self) -> (c: u32)
        ensures
            c == self.spec_code(),
    {
        match self {
            EventType::Workspace => 0x8000_0000u32,
            EventType::Output => 0x8000_0001u32,
            EventType::Mode => 0x8000_0002u32,
            EventType::Window => 0x8000_0003u32,
            EventType::BarconfigUpdate => 0x8000_0004u32,
            EventType::Binding => 0x8000_0005u32,
            EventType::Shutdown => 0x8000_0006u32,
            EventType::Tick => 0x8000_0007u32,
            EventType::BarStateUpdate => 0x8000_0014u32,
            EventType::Input => 0x8000_0015u32,
        }
    }

    /// The event that a type code names, if it names one.
    pub fn from_code(code: u32) -> (r: Option<EventType>)
        ensures
            r == EventType::spec_from_code(code),
    {
        if code == 0x8000_0000u32 {
            Some(EventType::Workspace)
        } else if code == 0x8000_0001u32 {
            Some(EventType::Output)
        } else if code == 0x8000_0002u32 {
            Some(EventType::Mode)
        } else if code == 0x8000_0003u32 {
            Some(EventType::Window)
        } else if code == 0x8000_0004u32 {
            Some(EventType::BarconfigUpdate)
        } else if code == 0x8000_0005u32 {
            Some(EventType::Binding)
        } else if code == 0x8000_0006u32 {
            Some(EventType::Shutdown)
        } else if code == 0x8000_0007u32 {
            Some(EventType::Tick)
        } else if code == 0x8000_0014u32 {
            Some(EventType::BarStateUpdate)
        } else if code == 0x8000_0015u32 {
            Some(EventType::Input)
        } else {
            None
        }
    }
}

/// What the type code of an incoming frame says the frame is.
#[derive(Clone, Copy, Debug, PartialEq, Eq, Hash, Structural)]
pub enum MessageKind {
    /// The reply to a request of this kind.
    Reply(RequestKind),
    /// An event of this type.
    Event(EventType),
}

/// The top bit of a code is set exactly when the code is at least 2^31.
pub proof fn lemma_event_bit(code: u32)
    ensures
        is_event_code(code) <==> code >= 0x8000_0000u32,
{
    assert((code & 0x8000_0000u32 != 0) <==> code >= 0x8000_0000u32) by (bit_vector);
}

/// What a type code stands for: with the top bit clear the reply to a
/// request, with the top bit set an event; a code outside both sets is
/// handed back as unknown.
pub open spec fn spec_classify(code: u32) -> Result<MessageKind, IpcError> {
    if is_event_code(code) {
        match EventType::spec_from_code(code) {
            Some(e) => Ok(MessageKind::Event(e)),
            None => Err(IpcError::UnknownMessageType(code)),
        }
    } else {
        match RequestKind::spec_from_code(code) {
            Some(k) => Ok(MessageKind::Reply(k)),
            None => Err(IpcError::UnknownMessageType(code)),
        }
    }
}

/// Tells what the frame with this type code is.
pub fn classify(type_code: u32) -> (r: Result<MessageKind, IpcError>)
    ensures
        r == spec_classify(type_code),
{
    if type_code & EVENT_BIT != 0 {
        match EventType::from_code(type_code) {
            Some(e) => Ok(MessageKind::Event(e)),
            None => Err(IpcError::UnknownMessageType(type_code)),
        }
    } else {
        match RequestKind::from_code(type_code) {
            Some(k) => Ok(MessageKind::Reply(k)),
            None => Err(IpcError::UnknownMessageType(type_code)),
        }
    }
}

/// The code of a kind of request names that kind, and is no event code.
pub proof fn lemma_request_code_round_trip(kind: RequestKind)
    ensures
        RequestKind::spec_from_code(kind.spec_code()) == Some(kind),
        !is_event_code(kind.spec_code()),
        spec_classify(kind.spec_code()) == Ok::<MessageKind, IpcError>(MessageKind::Reply(kind)),
{
    lemma_event_bit(kind.spec_code());
}

/// The code of an event type names that type, and is an event code.
pub proof fn lemma_event_code_round_trip(event: EventType)
    ensures
        EventType::spec_from_code(event.spec_code()) == Some(event),
        is_event_code(event.spec_code()),
        spec_classify(event.spec_code()) == Ok::<MessageKind, IpcError>(MessageKind::Event(event)),
{
    lemma_event_bit(event.spec_code());
}

/// A code that names a kind of request or an event type is the code of what
/// it names: no two codes share a meaning.
pub proof fn lemma_code_of_classified(code: u32)
    ensures
        spec_classify(code) matches Ok(MessageKind::Reply(k)) ==> k.spec_code() == code,
        spec_classify(code) matches Ok(MessageKind::Event(e)) ==> e.spec_code() == code,
        spec_classify(code) is Err ==> spec_classify(code) == Err::<MessageKind, IpcError>(
            IpcError::UnknownMessageType(code),
        ),
{
}

} // verus!
