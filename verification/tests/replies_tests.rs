use swayipc_core::bar::GetBarConfigResult;
use swayipc_core::error::{DecodeCause, IpcError, ShapeError};
use swayipc_core::json::parse;
use swayipc_core::registry::RequestKind;
use swayipc_core::replies::{
    decode_reply, resolve, resolve_value, CommandResult, SwayMessageReply, SwayVersionInfo,
};

const ALL_KINDS: [RequestKind; 15] = [
    RequestKind::RunCommand,
    RequestKind::GetWorkspaces,
    RequestKind::Subscribe,
    RequestKind::GetOutputs,
    RequestKind::GetTree,
    RequestKind::GetMarks,
    RequestKind::GetBarConfig,
    RequestKind::GetVersion,
    RequestKind::GetBindingModes,
    RequestKind::GetConfig,
    RequestKind::SendTick,
    RequestKind::Sync,
    RequestKind::GetBindingState,
    RequestKind::GetInputs,
    RequestKind::GetSeats,
];

fn malformed(kind: RequestKind, error: ShapeError) -> Result<SwayMessageReply, IpcError> {
    Err(IpcError::MalformedReply { request_kind: kind, cause: DecodeCause::Shape(error) })
}

const MISSING: ShapeError = ShapeError::MissingField;
const MISMATCH: ShapeError = ShapeError::TypeMismatch;

fn root_text() -> String {
    let rect = "{\"x\":0,\"y\":0,\"width\":10,\"height\":10}";
    format!(
        "{{\"id\":1,\"name\":\"root\",\"type\":\"root\",\"border\":\"none\",\
         \"current_border_width\":0,\"layout\":\"splith\",\"orientation\":\"none\",\
         \"rect\":{rect},\"window_rect\":{rect},\"deco_rect\":{rect},\"geometry\":{rect},\
         \"sticky\":false,\"focused\":false,\"focus\":[],\"nodes\":[],\"floating_nodes\":[]}}"
    )
}

#[test]
fn run_command_reply() {
    let payload = b"[{\"success\":true},{\"success\":false,\"parse_error\":true,\
        \"error\":\"Unknown command\"},{\"success\":false,\"error\":null}]";
    assert_eq!(
        resolve(RequestKind::RunCommand, payload),
        Ok(SwayMessageReply::RunCommand(vec![
            CommandResult { success: true, parse_error: None, error: None },
            CommandResult {
                success: false,
                parse_error: Some(true),
                error: Some("Unknown command".to_string()),
            },
            CommandResult { success: false, parse_error: None, error: None },
        ]))
    );
    assert_eq!(resolve(RequestKind::RunCommand, b"[{}]"), malformed(RequestKind::RunCommand, MISSING));
    assert_eq!(
        resolve(RequestKind::RunCommand, b"{\"success\":true}"),
        malformed(RequestKind::RunCommand, MISMATCH)
    );
}

#[test]
fn get_workspaces_reply() {
    let payload = b"[{\"num\":1,\"name\":\"1\",\"visible\":true,\"focused\":true,\
        \"urgent\":false,\"rect\":{\"x\":0,\"y\":0,\"width\":1,\"height\":1},\"output\":\"o\"}]";
    match resolve(RequestKind::GetWorkspaces, payload) {
        Ok(SwayMessageReply::GetWorkspaces(list)) => {
            assert_eq!(list.len(), 1);
            assert_eq!(list[0].num, 1);
            assert_eq!(list[0].output, "o");
        }
        other => panic!("unexpected {other:?}"),
    }
    assert_eq!(resolve(RequestKind::GetWorkspaces, b"[1]"),
        malformed(RequestKind::GetWorkspaces, MISMATCH)
    );
}

#[test]
fn success_replies() {
    assert_eq!(
        resolve(RequestKind::Subscribe, b"{\"success\":true}"),
        Ok(SwayMessageReply::Subscribe { success: true })
    );
    assert_eq!(
        resolve(RequestKind::SendTick, b"{\"success\":true}"),
        Ok(SwayMessageReply::SendTick { success: true })
    );
    assert_eq!(
        resolve(RequestKind::Sync, b"{\"success\":false}"),
        Ok(SwayMessageReply::Sync { success: false })
    );
    assert_eq!(
        resolve(RequestKind::Subscribe, b"{\"success\":1}"),
        malformed(RequestKind::Subscribe, MISMATCH)
    );
    assert_eq!(resolve(RequestKind::SendTick, b"{}"), malformed(RequestKind::SendTick, MISSING));
    assert_eq!(resolve(RequestKind::Sync, b"true"), malformed(RequestKind::Sync, MISMATCH));
}

#[test]
fn get_outputs_reply() {
    assert_eq!(resolve(RequestKind::GetOutputs, b"[]"), Ok(SwayMessageReply::GetOutputs(Vec::new())));
    assert_eq!(
        resolve(RequestKind::GetOutputs, b"[{\"name\":\"o\"}]"),
        malformed(RequestKind::GetOutputs, MISSING)
    );
}

#[test]
fn get_tree_reply() {
    match resolve(RequestKind::GetTree, root_text().as_bytes()) {
        Ok(SwayMessageReply::GetTree(root)) => {
            assert_eq!(root.id, 1);
            assert_eq!(root.name, "root");
        }
        other => panic!("unexpected {other:?}"),
    }
    assert_eq!(resolve(RequestKind::GetTree, b"[]"), malformed(RequestKind::GetTree, MISMATCH));
}

#[test]
fn get_marks_reply_holds_each_mark_once() {
    assert_eq!(
        resolve(RequestKind::GetMarks, b"[\"a\",\"b\",\"a\"]"),
        Ok(SwayMessageReply::GetMarks(vec!["a".to_string(), "b".to_string()]))
    );
    assert_eq!(resolve(RequestKind::GetMarks, b"[1]"), malformed(RequestKind::GetMarks, MISMATCH));
}

#[test]
fn get_bar_config_reply_of_identifiers() {
    assert_eq!(
        resolve(RequestKind::GetBarConfig, b"[\"bar-0\",\"bar-1\"]"),
        Ok(SwayMessageReply::GetBarConfig(GetBarConfigResult::IDs(vec![
            "bar-0".to_string(),
            "bar-1".to_string(),
        ])))
    );
}

fn bar_text() -> String {
    let names = [
        "background",
        "statusline",
        "separator",
        "focused_background",
        "focused_statusline",
        "focused_separator",
        "focused_workspace_text",
        "focused_workspace_bg",
        "focused_workspace_border",
        "active_workspace_text",
        "active_workspace_bg",
        "active_workspace_border",
        "inactive_workspace_text",
        "inactive_workspace_bg",
        "inactive_workspace_border",
        "urgent_workspace_text",
        "urgent_workspace_bg",
        "urgent_workspace_border",
        "binding_mode_text",
        "binding_mode_bg",
        "binding_mode_border",
    ];
    let colors: Vec<String> = names.iter().map(|n| format!("\"{n}\":\"#000000ff\"")).collect();
    format!(
        "{{\"id\":\"bar-0\",\"mode\":\"hide\",\"position\":\"bottom\",\
         \"status_command\":\"date\",\"font\":\"pango:Sans 9\",\"workspace_buttons\":false,\
         \"workspace_min_width\":40,\"binding_mode_indicator\":false,\"verbose\":false,\
         \"colors\":{{{}}},\"gaps\":{{\"top\":0,\"right\":0,\"bottom\":0,\"left\":0}},\
         \"bar_height\":0,\"status_padding\":1,\"status_edge_padding\":3}}",
        colors.join(",")
    )
}

#[test]
fn get_bar_config_reply_of_a_configuration() {
    match resolve(RequestKind::GetBarConfig, bar_text().as_bytes()) {
        Ok(SwayMessageReply::GetBarConfig(GetBarConfigResult::Config {
            id,
            mode,
            position,
            workspace_min_width,
            bar_height,
            ..
        })) => {
            assert_eq!(id, "bar-0");
            assert_eq!(mode, swayipc_core::bar::SwayBarMode::Hide);
            assert_eq!(position, swayipc_core::bar::SwayBarPosition::Bottom);
            assert_eq!(workspace_min_width, 40);
            assert_eq!(bar_height, None);
        }
        other => panic!("unexpected {other:?}"),
    }
}

#[test]
fn get_bar_config_reply_of_neither_shape_is_malformed() {
    assert_eq!(
        resolve(RequestKind::GetBarConfig, b"{\"id\":\"bar-0\",\"mode\":\"dock\"}"),
        malformed(RequestKind::GetBarConfig, MISSING)
    );
    assert_eq!(
        resolve(RequestKind::GetBarConfig, b"\"bar-0\""),
        malformed(RequestKind::GetBarConfig, MISMATCH)
    );
    assert_eq!(
        resolve(RequestKind::GetBarConfig, b"[0]"),
        malformed(RequestKind::GetBarConfig, MISMATCH)
    );
    assert_eq!(
        resolve(RequestKind::GetBarConfig, bar_text().replace("hide", "hidden").as_bytes()),
        malformed(RequestKind::GetBarConfig, ShapeError::UnknownVariant)
    );
    assert_eq!(
        resolve(RequestKind::GetBarConfig, bar_text().replace("#000000ff", "black").as_bytes()),
        malformed(RequestKind::GetBarConfig, ShapeError::InvalidLength)
    );
}

#[test]
fn get_version_reply() {
    let payload = b"{\"major\":1,\"minor\":9,\"patch\":0,\"human_readable\":\"1.9\",\
        \"loaded_config_file_name\":\"/etc/sway/config\",\"variant\":\"sway\"}";
    assert_eq!(
        resolve(RequestKind::GetVersion, payload),
        Ok(SwayMessageReply::GetVersion(SwayVersionInfo {
            major: 1,
            minor: 9,
            patch: 0,
            human_readable: "1.9".to_string(),
            loaded_config_file_name: "/etc/sway/config".to_string(),
        }))
    );
    assert_eq!(
        resolve(RequestKind::GetVersion, b"{\"major\":1,\"minor\":9,\"patch\":0}"),
        malformed(RequestKind::GetVersion, MISSING)
    );
}

#[test]
fn get_binding_modes_reply_keeps_repetitions() {
    assert_eq!(
        resolve(RequestKind::GetBindingModes, b"[\"default\",\"resize\",\"default\"]"),
        Ok(SwayMessageReply::GetBindingModes(vec![
            "default".to_string(),
            "resize".to_string(),
            "default".to_string(),
        ]))
    );
    assert_eq!(
        resolve(RequestKind::GetBindingModes, b"{\"name\":\"default\"}"),
        malformed(RequestKind::GetBindingModes, MISMATCH)
    );
}

#[test]
fn get_config_reply() {
    assert_eq!(
        resolve(RequestKind::GetConfig, b"{\"config\":\"set $mod Mod4\\n\"}"),
        Ok(SwayMessageReply::GetConfig { config: "set $mod Mod4\n".to_string() })
    );
    assert_eq!(
        resolve(RequestKind::GetConfig, b"{\"config\":null}"),
        malformed(RequestKind::GetConfig, MISMATCH)
    );
}

#[test]
fn get_binding_state_reply() {
    assert_eq!(
        resolve(RequestKind::GetBindingState, b"{\"name\":\"default\"}"),
        Ok(SwayMessageReply::GetBindingState { name: "default".to_string() })
    );
    assert_eq!(
        resolve(RequestKind::GetBindingState, b"{\"name\":7}"),
        malformed(RequestKind::GetBindingState, MISMATCH)
    );
}

#[test]
fn get_inputs_and_seats_replies() {
    assert_eq!(resolve(RequestKind::GetInputs, b"[]"), Ok(SwayMessageReply::GetInputs(Vec::new())));
    assert_eq!(resolve(RequestKind::GetSeats, b"[]"), Ok(SwayMessageReply::GetSeats(Vec::new())));
    assert_eq!(resolve(RequestKind::GetInputs, b"[{}]"), malformed(RequestKind::GetInputs, MISSING));
    assert_eq!(resolve(RequestKind::GetSeats, b"{}"), malformed(RequestKind::GetSeats, MISMATCH));
}

#[test]
fn what_is_no_json_is_malformed_for_every_request() {
    let texts: [&[u8]; 3] = [b"", b"{\"success\":", b"[]]"];
    for kind in ALL_KINDS {
        for payload in texts {
            assert_eq!(
                resolve(kind, payload),
                Err(IpcError::MalformedReply {
                    request_kind: kind,
                    cause: DecodeCause::InvalidJson,
                })
            );
        }
    }
}

#[test]
fn the_same_payload_resolves_by_what_was_asked() {
    let payload = b"[]";
    assert_eq!(resolve(RequestKind::RunCommand, payload), Ok(SwayMessageReply::RunCommand(Vec::new())));
    assert_eq!(resolve(RequestKind::GetMarks, payload), Ok(SwayMessageReply::GetMarks(Vec::new())));
    assert_eq!(
        resolve(RequestKind::GetBarConfig, payload),
        Ok(SwayMessageReply::GetBarConfig(GetBarConfigResult::IDs(Vec::new())))
    );
    assert_eq!(resolve(RequestKind::GetTree, payload), malformed(RequestKind::GetTree, MISMATCH));
    assert_eq!(resolve(RequestKind::Subscribe, payload), malformed(RequestKind::Subscribe, MISMATCH));
}

#[test]
fn a_reply_knows_its_request() {
    for kind in ALL_KINDS {
        let payload: &[u8] = match kind {
            RequestKind::Subscribe | RequestKind::SendTick | RequestKind::Sync => {
                b"{\"success\":true}"
            }
            RequestKind::GetConfig => b"{\"config\":\"\"}",
            RequestKind::GetBindingState => b"{\"name\":\"default\"}",
            RequestKind::GetVersion => {
                b"{\"major\":1,\"minor\":0,\"patch\":0,\"human_readable\":\"1\",\
                   \"loaded_config_file_name\":\"\"}"
            }
            RequestKind::GetTree => continue,
            _ => b"[]",
        };
        assert_eq!(resolve(kind, payload).unwrap().kind(), kind);
    }
    assert_eq!(
        resolve(RequestKind::GetTree, root_text().as_bytes()).unwrap().kind(),
        RequestKind::GetTree
    );
}

#[test]
fn resolve_value_and_decode_reply_agree_with_resolve() {
    let j = parse(b"{\"success\":true}").unwrap();
    assert_eq!(
        resolve_value(RequestKind::Subscribe, &j),
        Ok(SwayMessageReply::Subscribe { success: true })
    );
    assert_eq!(
        decode_reply(RequestKind::Subscribe, &j),
        Ok(SwayMessageReply::Subscribe { success: true })
    );
    assert_eq!(resolve_value(RequestKind::GetTree, &j), malformed(RequestKind::GetTree, MISSING));
    assert_eq!(decode_reply(RequestKind::GetTree, &j), Err(MISSING));
}
