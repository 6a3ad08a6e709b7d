use swayipc_core::error::{DecodeCause, IpcError, ShapeError};
use swayipc_core::events::{decode_event, decode_event_value, Event, EventBody};
use swayipc_core::frame::Frame;
use swayipc_core::json::parse;
use swayipc_core::message::{decode_message, Message};
use swayipc_core::registry::{EventType, RequestKind};
use swayipc_core::replies::SwayMessageReply;

fn window_text(id: u64) -> String {
    let rect = "{\"x\":0,\"y\":0,\"width\":10,\"height\":10}";
    format!(
        "{{\"id\":{id},\"name\":\"w\",\"type\":\"con\",\"border\":\"pixel\",\
         \"current_border_width\":1,\"layout\":\"tabbed\",\"orientation\":\"vertical\",\
         \"rect\":{rect},\"window_rect\":{rect},\"deco_rect\":{rect},\"geometry\":{rect},\
         \"sticky\":true,\"focused\":true,\"focus\":[],\"nodes\":[],\"floating_nodes\":[]}}"
    )
}

#[test]
fn window_event_carries_its_container() {
    let payload = format!("{{\"change\":\"focus\",\"container\":{}}}", window_text(12));
    match decode_event(0x8000_0003, payload.as_bytes()) {
        Ok(Event::Notification { kind, body }) => {
            assert_eq!(kind, EventType::Window);
            assert_eq!(body.change, "focus");
            let container = body.container.unwrap();
            assert_eq!(container.id, 12);
            assert!(container.sticky);
        }
        other => panic!("unexpected {other:?}"),
    }
}

#[test]
fn event_without_a_container() {
    for payload in ["{\"change\":\"exit\"}", "{\"change\":\"exit\",\"container\":null}"] {
        assert_eq!(
            decode_event(0x8000_0006, payload.as_bytes()),
            Ok(Event::Notification {
                kind: EventType::Shutdown,
                body: EventBody { change: "exit".to_string(), container: None },
            })
        );
    }
}

#[test]
fn every_known_event_type_decodes_the_envelope() {
    let all = [
        (0x8000_0000u32, EventType::Workspace),
        (0x8000_0001, EventType::Output),
        (0x8000_0002, EventType::Mode),
        (0x8000_0003, EventType::Window),
        (0x8000_0004, EventType::BarconfigUpdate),
        (0x8000_0005, EventType::Binding),
        (0x8000_0006, EventType::Shutdown),
        (0x8000_0007, EventType::Tick),
        (0x8000_0014, EventType::BarStateUpdate),
        (0x8000_0015, EventType::Input),
    ];
    for (code, kind) in all {
        assert_eq!(
            decode_event(code, b"{\"change\":\"init\",\"current\":{}}"),
            Ok(Event::Notification {
                kind,
                body: EventBody { change: "init".to_string(), container: None },
            })
        );
    }
}

#[test]
fn event_of_the_wrong_shape_is_malformed() {
    let wrong: [(&[u8], ShapeError); 6] = [
        (b"{}", ShapeError::MissingField),
        (b"{\"change\":1}", ShapeError::TypeMismatch),
        (b"{\"change\":\"focus\",\"container\":{}}", ShapeError::MissingField),
        (b"{\"change\":\"focus\",\"container\":7}", ShapeError::TypeMismatch),
        (b"{\"change\":\"focus\",\"container\":{\"id\":1,\"name\":\"w\",\"type\":\"x\"}}",
            ShapeError::UnknownVariant),
        (b"[\"focus\"]", ShapeError::TypeMismatch),
    ];
    for (payload, error) in wrong {
        assert_eq!(
            decode_event(0x8000_0003, payload),
            Err(IpcError::MalformedEvent {
                event_kind: EventType::Window,
                cause: DecodeCause::Shape(error),
            })
        );
    }
}

#[test]
fn event_that_is_no_json_is_malformed() {
    assert_eq!(
        decode_event(0x8000_0014, b"{\"change\""),
        Err(IpcError::MalformedEvent {
            event_kind: EventType::BarStateUpdate,
            cause: DecodeCause::InvalidJson,
        })
    );
}

#[test]
fn event_of_an_unknown_type_keeps_its_payload() {
    let payloads: [&[u8]; 3] = [b"{\"change\":\"x\"}", b"not json at all", b""];
    for payload in payloads {
        for code in [0x8000_0008u32, 0x8000_0013, 0x8000_0016, 0xffff_ffff] {
            assert_eq!(
                decode_event(code, payload),
                Ok(Event::UnknownEvent { code, raw_payload: payload.to_vec() })
            );
        }
    }
}

#[test]
fn decode_event_value_takes_a_parsed_payload() {
    let j = parse(b"{\"change\":\"new\"}").unwrap();
    assert_eq!(
        decode_event_value(EventType::Workspace, &j),
        Ok(Event::Notification {
            kind: EventType::Workspace,
            body: EventBody { change: "new".to_string(), container: None },
        })
    );
    let bad = parse(b"[]").unwrap();
    assert_eq!(
        decode_event_value(EventType::Workspace, &bad),
        Err(IpcError::MalformedEvent {
            event_kind: EventType::Workspace,
            cause: DecodeCause::Shape(ShapeError::TypeMismatch),
        })
    );
}

#[test]
fn a_frame_with_the_top_bit_clear_is_a_reply() {
    let frame = Frame { type_code: 2, payload: b"{\"success\":true}".to_vec() };
    assert_eq!(
        decode_message(&frame),
        Ok(Message::Reply(SwayMessageReply::Subscribe { success: true }))
    );
}

#[test]
fn a_frame_with_the_top_bit_set_is_an_event() {
    let frame = Frame { type_code: 0x8000_0002, payload: b"{\"change\":\"resize\"}".to_vec() };
    assert_eq!(
        decode_message(&frame),
        Ok(Message::Event(Event::Notification {
            kind: EventType::Mode,
            body: EventBody { change: "resize".to_string(), container: None },
        }))
    );
}

#[test]
fn a_subscribe_reply_is_told_from_the_events_after_it() {
    let reply = Frame { type_code: 2, payload: b"{\"success\":true}".to_vec() };
    let event = Frame { type_code: 0x8000_0000, payload: b"{\"change\":\"init\"}".to_vec() };
    assert!(matches!(decode_message(&event), Ok(Message::Event(_))));
    assert!(matches!(decode_message(&reply), Ok(Message::Reply(_))));
}

#[test]
fn a_frame_of_an_unknown_reply_type_is_an_unknown_message() {
    for code in [13u32, 99, 102, 0x7fff_ffff] {
        let frame = Frame { type_code: code, payload: b"{}".to_vec() };
        assert_eq!(decode_message(&frame), Err(IpcError::UnknownMessageType(code)));
    }
}

#[test]
fn a_frame_of_an_unknown_event_type_is_handed_on() {
    let frame = Frame { type_code: 0x8000_0064, payload: b"??".to_vec() };
    assert_eq!(
        decode_message(&frame),
        Ok(Message::Event(Event::UnknownEvent { code: 0x8000_0064, raw_payload: b"??".to_vec() }))
    );
}

#[test]
fn a_malformed_frame_names_what_it_should_have_been() {
    let reply = Frame { type_code: 4, payload: b"[]".to_vec() };
    assert_eq!(
        decode_message(&reply),
        Err(IpcError::MalformedReply {
            request_kind: RequestKind::GetTree,
            cause: DecodeCause::Shape(ShapeError::TypeMismatch),
        })
    );
    let event = Frame { type_code: 0x8000_0015, payload: b"[".to_vec() };
    assert_eq!(
        decode_message(&event),
        Err(IpcError::MalformedEvent {
            event_kind: EventType::Input,
            cause: DecodeCause::InvalidJson,
        })
    );
}
