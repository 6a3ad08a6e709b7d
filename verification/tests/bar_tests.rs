use swayipc_core::bar::{
    resolve_bar_config, BarConfigColors, BarConfigQuery, Gaps, GetBarConfigResult, SwayBarMode,
    SwayBarPosition,
};
use swayipc_core::decode::FromJson;
use swayipc_core::error::{DecodeCause, IpcError, ShapeError};
use swayipc_core::json::{parse, Json};
use swayipc_core::registry::RequestKind;
use swayipc_core::scalar::BarConfigColor;

fn bar_doc(text: &str) -> Json {
    parse(text.as_bytes()).unwrap()
}

const COLOR_NAMES: [&str; 21] = [
    "background",
    "statusline",
    "separator",
    "focused_background",
    "focused_statusline",
    "focused_separator",
    "focused_workspace_text",
    "focused_workspace_bg",
    "focused_workspace_border",
    "active_workspace_text",
    "active_workspace_bg",
    "active_workspace_border",
    "inactive_workspace_text",
    "inactive_workspace_bg",
    "inactive_workspace_border",
    "urgent_workspace_text",
    "urgent_workspace_bg",
    "urgent_workspace_border",
    "binding_mode_text",
    "binding_mode_bg",
    "binding_mode_border",
];

/// Colors in which the red of each is its place in the list.
fn colors_text() -> String {
    let members: Vec<String> = COLOR_NAMES
        .iter()
        .enumerate()
        .map(|(i, name)| format!("\"{name}\":\"#{i:02x}8040ff\""))
        .collect();
    format!("{{{}}}", members.join(","))
}

fn config_text(bar_height: &str) -> String {
    format!(
        "{{\"id\":\"bar-0\",\"mode\":\"dock\",\"position\":\"top\",\
         \"status_command\":\"i3status\",\"font\":\"monospace 10\",\"workspace_buttons\":true,\
         \"workspace_min_width\":0,\"binding_mode_indicator\":true,\"verbose\":false,\
         \"colors\":{},\"gaps\":{{\"top\":1,\"right\":2,\"bottom\":3,\"left\":4}},\
         \"bar_height\":{bar_height},\"status_padding\":1,\"status_edge_padding\":3}}",
        colors_text()
    )
}

#[test]
fn bar_position_and_mode_names() {
    assert_eq!(SwayBarPosition::from_name("bottom"), Some(SwayBarPosition::Bottom));
    assert_eq!(SwayBarPosition::from_name("top"), Some(SwayBarPosition::Top));
    assert_eq!(SwayBarPosition::from_name("left"), None);
    assert_eq!(SwayBarMode::from_name("dock"), Some(SwayBarMode::Dock));
    assert_eq!(SwayBarMode::from_name("hide"), Some(SwayBarMode::Hide));
    assert_eq!(SwayBarMode::from_name("invisible"), Some(SwayBarMode::Invisible));
    assert_eq!(SwayBarMode::from_name("overlay"), None);
}

#[test]
fn gaps_decode() {
    assert_eq!(
        Gaps::from_json(&bar_doc("{\"top\":1,\"right\":2,\"bottom\":3,\"left\":4}")),
        Ok(Gaps { top: 1, right: 2, bottom: 3, left: 4 })
    );
    assert_eq!(
        Gaps::from_json(&bar_doc("{\"top\":1,\"right\":2,\"bottom\":3}")),
        Err(ShapeError::MissingField)
    );
}

#[test]
fn bar_colors_decode_each_to_its_own_member() {
    let c: BarConfigColors = BarConfigColors::from_json(&bar_doc(&colors_text())).unwrap();
    let color = |red: u8| BarConfigColor { red, green: 0x80, blue: 0x40, alpha: 0xff };
    assert_eq!(c.background, color(0));
    assert_eq!(c.statusline, color(1));
    assert_eq!(c.separator, color(2));
    assert_eq!(c.focused_background, color(3));
    assert_eq!(c.focused_statusline, color(4));
    assert_eq!(c.focused_separator, color(5));
    assert_eq!(c.focused_workspace_text, color(6));
    assert_eq!(c.focused_workspace_bg, color(7));
    assert_eq!(c.focused_workspace_border, color(8));
    assert_eq!(c.active_workspace_text, color(9));
    assert_eq!(c.active_workspace_bg, color(10));
    assert_eq!(c.active_workspace_border, color(11));
    assert_eq!(c.inactive_workspace_text, color(12));
    assert_eq!(c.inactive_workspace_bg, color(13));
    assert_eq!(c.inactive_workspace_border, color(14));
    assert_eq!(c.urgent_workspace_text, color(15));
    assert_eq!(c.urgent_workspace_bg, color(16));
    assert_eq!(c.urgent_workspace_border, color(17));
    assert_eq!(c.binding_mode_text, color(18));
    assert_eq!(c.binding_mode_bg, color(19));
    assert_eq!(c.binding_mode_border, color(20));
}

#[test]
fn bar_colors_want_every_color_well_formed() {
    for name in COLOR_NAMES {
        let missing = colors_text().replace(&format!("\"{name}\":"), &format!("\"x_{name}\":"));
        assert_eq!(
            BarConfigColors::from_json(&bar_doc(&missing)),
            Err(ShapeError::MissingField),
            "without {name}"
        );
    }
    let short = colors_text().replace("#008040ff", "#008040");
    assert_eq!(BarConfigColors::from_json(&bar_doc(&short)), Err(ShapeError::InvalidLength));
    let bad = colors_text().replace("#148040ff", "#14804gff");
    assert_eq!(
        BarConfigColors::from_json(&bar_doc(&bad)),
        Err(ShapeError::InvalidColorComponent)
    );
    let number = colors_text().replace("\"#148040ff\"", "343425279");
    assert_eq!(BarConfigColors::from_json(&bar_doc(&number)), Err(ShapeError::TypeMismatch));
}

#[test]
fn bar_ids_reply_decodes_to_the_list() {
    assert_eq!(
        GetBarConfigResult::from_json(&bar_doc("[\"bar-0\",\"bar-1\"]")),
        Ok(GetBarConfigResult::IDs(vec!["bar-0".to_string(), "bar-1".to_string()]))
    );
    assert_eq!(
        GetBarConfigResult::from_json(&bar_doc("[]")),
        Ok(GetBarConfigResult::IDs(Vec::new()))
    );
}

#[test]
fn bar_config_reply_decodes_to_the_configuration() {
    let decoded = GetBarConfigResult::from_json(&bar_doc(&config_text("24"))).unwrap();
    match decoded {
        GetBarConfigResult::Config {
            id,
            mode,
            position,
            status_command,
            font,
            workspace_buttons,
            workspace_min_width,
            binding_mode_indicator,
            verbose,
            colors,
            gaps,
            bar_height,
            status_padding,
            status_edge_padding,
        } => {
            assert_eq!(id, "bar-0");
            assert_eq!(mode, SwayBarMode::Dock);
            assert_eq!(position, SwayBarPosition::Top);
            assert_eq!(status_command, "i3status");
            assert_eq!(font, "monospace 10");
            assert!(workspace_buttons);
            assert_eq!(workspace_min_width, 0);
            assert!(binding_mode_indicator);
            assert!(!verbose);
            assert_eq!(colors.separator.red, 2);
            assert_eq!(gaps, Gaps { top: 1, right: 2, bottom: 3, left: 4 });
            assert_eq!(bar_height.map(|h| h.get()), Some(24));
            assert_eq!(status_padding, 1);
            assert_eq!(status_edge_padding, 3);
        }
        GetBarConfigResult::IDs(_) => panic!("expected a configuration"),
    }
}

#[test]
fn bar_height_of_zero_is_no_height() {
    match GetBarConfigResult::from_json(&bar_doc(&config_text("0"))).unwrap() {
        GetBarConfigResult::Config { bar_height, .. } => assert_eq!(bar_height, None),
        GetBarConfigResult::IDs(_) => panic!("expected a configuration"),
    }
}

#[test]
fn bar_reply_of_neither_shape_fails() {
    assert_eq!(GetBarConfigResult::from_json(&bar_doc("{}")), Err(ShapeError::MissingField));
    assert_eq!(GetBarConfigResult::from_json(&bar_doc("[1,2]")), Err(ShapeError::TypeMismatch));
    assert_eq!(
        GetBarConfigResult::from_json(&bar_doc("\"bar-0\"")),
        Err(ShapeError::TypeMismatch)
    );
    assert_eq!(
        GetBarConfigResult::from_json(&bar_doc("{\"id\":\"bar-0\"}")),
        Err(ShapeError::MissingField)
    );
    assert_eq!(
        GetBarConfigResult::from_json(&bar_doc(&config_text("\"24\""))),
        Err(ShapeError::TypeMismatch)
    );
    let bad_mode = config_text("24").replace("\"mode\":\"dock\"", "\"mode\":\"float\"");
    assert_eq!(
        GetBarConfigResult::from_json(&bar_doc(&bad_mode)),
        Err(ShapeError::UnknownVariant)
    );
    let bad_color = config_text("24").replace("#008040ff", "008040ff#");
    assert_eq!(
        GetBarConfigResult::from_json(&bar_doc(&bad_color)),
        Err(ShapeError::InvalidColorComponent)
    );
}

#[test]
fn a_caller_that_knows_the_shape_asks_for_it() {
    let ids = bar_doc("[\"bar-0\"]");
    let config = bar_doc(&config_text("24"));
    assert!(GetBarConfigResult::decode_ids(&ids).is_ok());
    assert_eq!(GetBarConfigResult::decode_ids(&config), Err(ShapeError::TypeMismatch));
    assert!(GetBarConfigResult::decode_config(&config).is_ok());
    assert_eq!(GetBarConfigResult::decode_config(&ids), Err(ShapeError::TypeMismatch));
}

#[test]
fn a_payload_resolves_by_what_was_asked_of_the_bar() {
    let ids = b"[\"bar-0\",\"bar-1\"]";
    let config = config_text("24");
    assert_eq!(
        resolve_bar_config(BarConfigQuery::Identifiers, ids),
        Ok(GetBarConfigResult::IDs(vec!["bar-0".to_string(), "bar-1".to_string()]))
    );
    assert!(matches!(
        resolve_bar_config(BarConfigQuery::Configuration, config.as_bytes()),
        Ok(GetBarConfigResult::Config { .. })
    ));
    let mismatch = |cause| {
        Err(IpcError::MalformedReply { request_kind: RequestKind::GetBarConfig, cause })
    };
    assert_eq!(
        resolve_bar_config(BarConfigQuery::Configuration, ids),
        mismatch(DecodeCause::Shape(ShapeError::TypeMismatch))
    );
    assert_eq!(
        resolve_bar_config(BarConfigQuery::Identifiers, config.as_bytes()),
        mismatch(DecodeCause::Shape(ShapeError::TypeMismatch))
    );
    assert_eq!(
        resolve_bar_config(BarConfigQuery::Identifiers, b"[\"bar-0\""),
        mismatch(DecodeCause::InvalidJson)
    );
}
