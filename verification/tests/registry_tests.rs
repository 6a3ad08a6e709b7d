use swayipc_core::error::{DecodeCause, IpcError, ShapeError};
use swayipc_core::registry::{classify, EventType, MessageKind, RequestKind, EVENT_BIT};
use swayipc_core::sway_message_type;

const REQUESTS: [(RequestKind, u32); 15] = [
    (RequestKind::RunCommand, 0),
    (RequestKind::GetWorkspaces, 1),
    (RequestKind::Subscribe, 2),
    (RequestKind::GetOutputs, 3),
    (RequestKind::GetTree, 4),
    (RequestKind::GetMarks, 5),
    (RequestKind::GetBarConfig, 6),
    (RequestKind::GetVersion, 7),
    (RequestKind::GetBindingModes, 8),
    (RequestKind::GetConfig, 9),
    (RequestKind::SendTick, 10),
    (RequestKind::Sync, 11),
    (RequestKind::GetBindingState, 12),
    (RequestKind::GetInputs, 100),
    (RequestKind::GetSeats, 101),
];

const EVENTS: [(EventType, u32); 10] = [
    (EventType::Workspace, 0x8000_0000),
    (EventType::Output, 0x8000_0001),
    (EventType::Mode, 0x8000_0002),
    (EventType::Window, 0x8000_0003),
    (EventType::BarconfigUpdate, 0x8000_0004),
    (EventType::Binding, 0x8000_0005),
    (EventType::Shutdown, 0x8000_0006),
    (EventType::Tick, 0x8000_0007),
    (EventType::BarStateUpdate, 0x8000_0014),
    (EventType::Input, 0x8000_0015),
];

#[test]
fn request_codes_are_those_of_the_protocol() {
    for (kind, code) in REQUESTS {
        assert_eq!(kind.code(), code);
        assert_eq!(RequestKind::from_code(code), Some(kind));
        assert_eq!(classify(code), Ok(MessageKind::Reply(kind)));
        assert_eq!(code & EVENT_BIT, 0);
    }
}

#[test]
fn request_constants_are_those_of_the_protocol() {
    assert_eq!(sway_message_type::RUN_COMMAND, 0);
    assert_eq!(sway_message_type::GET_WORKSPACES, 1);
    assert_eq!(sway_message_type::SUBSCRIBE, 2);
    assert_eq!(sway_message_type::GET_OUTPUTS, 3);
    assert_eq!(sway_message_type::GET_TREE, 4);
    assert_eq!(sway_message_type::GET_MARKS, 5);
    assert_eq!(sway_message_type::GET_BAR_CONFIG, 6);
    assert_eq!(sway_message_type::GET_VERSION, 7);
    assert_eq!(sway_message_type::GET_BINDING_MODES, 8);
    assert_eq!(sway_message_type::GET_CONFIG, 9);
    assert_eq!(sway_message_type::SEND_TICK, 10);
    assert_eq!(sway_message_type::SYNC, 11);
    assert_eq!(sway_message_type::GET_BINDING_STATE, 12);
    assert_eq!(sway_message_type::GET_INPUTS, 100);
    assert_eq!(sway_message_type::GET_SEATS, 101);
}

#[test]
fn event_codes_are_those_of_the_protocol() {
    for (event, code) in EVENTS {
        assert_eq!(event.code(), code);
        assert_eq!(EventType::from_code(code), Some(event));
        assert_eq!(classify(code), Ok(MessageKind::Event(event)));
        assert_eq!(code & EVENT_BIT, EVENT_BIT);
    }
}

#[test]
fn workspace_event_code_classifies_as_event() {
    assert_eq!(classify(0x8000_0000), Ok(MessageKind::Event(EventType::Workspace)));
}

#[test]
fn get_tree_code_classifies_as_reply() {
    assert_eq!(classify(0x0000_0004), Ok(MessageKind::Reply(RequestKind::GetTree)));
}

#[test]
fn bar_state_update_code_is_not_next_to_tick() {
    assert_eq!(classify(0x8000_0014), Ok(MessageKind::Event(EventType::BarStateUpdate)));
    assert_eq!(classify(0x8000_0008), Err(IpcError::UnknownMessageType(0x8000_0008)));
    assert_eq!(classify(0x8000_0013), Err(IpcError::UnknownMessageType(0x8000_0013)));
    assert_eq!(classify(0x8000_0015), Ok(MessageKind::Event(EventType::Input)));
    assert_eq!(classify(0x8000_0016), Err(IpcError::UnknownMessageType(0x8000_0016)));
}

#[test]
fn codes_outside_the_sets_are_unknown() {
    for code in [13u32, 14, 99, 102, 0x7fff_ffff, 0x8000_0009, 0x8000_0064, u32::MAX] {
        assert_eq!(classify(code), Err(IpcError::UnknownMessageType(code)));
        assert_eq!(RequestKind::from_code(code), None);
        assert_eq!(EventType::from_code(code), None);
    }
}

#[test]
fn a_request_code_with_the_event_bit_is_no_event() {
    assert_eq!(classify(0x8000_0064), Err(IpcError::UnknownMessageType(0x8000_0064)));
    assert_eq!(EventType::from_code(4), None);
    assert_eq!(RequestKind::from_code(0x8000_0000), None);
}

#[test]
fn only_transport_and_desync_lose_the_connection() {
    assert!(!IpcError::TransportError.is_recoverable());
    assert!(!IpcError::ProtocolDesync.is_recoverable());
    assert!(IpcError::UnknownMessageType(13).is_recoverable());
    let reply = IpcError::MalformedReply {
        request_kind: RequestKind::GetTree,
        cause: DecodeCause::InvalidJson,
    };
    assert!(reply.is_recoverable());
    let event = IpcError::MalformedEvent {
        event_kind: EventType::Window,
        cause: DecodeCause::Shape(ShapeError::MissingField),
    };
    assert!(event.is_recoverable());
}

#[test]
fn errors_describe_themselves() {
    assert_eq!(
        IpcError::TransportError.describe(),
        "the transport failed or ended inside a frame"
    );
    assert_eq!(IpcError::ProtocolDesync.describe(), "the stream is not in step with the protocol");
    assert_eq!(
        IpcError::UnknownMessageType(13).describe(),
        "the type code of the message is not known"
    );
    let reply = IpcError::MalformedReply {
        request_kind: RequestKind::GetTree,
        cause: DecodeCause::InvalidJson,
    };
    assert_eq!(reply.describe(), "malformed reply: the payload is not valid JSON");
    let all = [
        (ShapeError::MissingField, "malformed event: a required member is missing"),
        (ShapeError::TypeMismatch, "malformed event: a value is of the wrong type"),
        (ShapeError::UnknownVariant, "malformed event: a name is not one that the protocol knows"),
        (ShapeError::InvalidColorFormat, "malformed event: a color is not written in hexadecimal"),
        (
            ShapeError::InvalidColorComponent,
            "malformed event: a component of a color is not hexadecimal",
        ),
        (ShapeError::InvalidLength, "malformed event: a color is not nine characters long"),
    ];
    for (error, text) in all {
        let event = IpcError::MalformedEvent {
            event_kind: EventType::Window,
            cause: DecodeCause::Shape(error),
        };
        assert_eq!(event.describe(), text);
    }
}
