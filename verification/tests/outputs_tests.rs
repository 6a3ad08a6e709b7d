use swayipc_core::decode::{list_from_json, FromJson};
use swayipc_core::error::ShapeError;
use swayipc_core::json::{parse, Json};
use swayipc_core::outputs::{Output, OutputMode, Rect, SubpixelHinting, Transform, Workspace};

fn out_doc(text: &str) -> Json {
    parse(text.as_bytes()).unwrap()
}

const OUTPUT: &str = "{\"name\":\"eDP-1\",\"make\":\"ACME\",\"model\":\"Panel\",\"serial\":\"0x01\",\
    \"active\":true,\"dpms\":true,\"power\":true,\"primary\":false,\"scale\":1.5,\
    \"subpixel_hinting\":\"rgb\",\"transform\":\"flipped-90\",\"current_workspace\":\"1\",\
    \"modes\":[{\"width\":1920,\"height\":1080,\"refresh\":60000},\
               {\"width\":1280,\"height\":720,\"refresh\":59940}],\
    \"current_mode\":{\"width\":1920,\"height\":1080,\"refresh\":60000},\
    \"rect\":{\"x\":0,\"y\":0,\"width\":1280,\"height\":720}}";

#[test]
fn rect_decodes_signed_numbers() {
    assert_eq!(
        Rect::from_json(&out_doc("{\"x\":-10,\"y\":20,\"width\":300,\"height\":400}")),
        Ok(Rect { x: -10, y: 20, width: 300, height: 400 })
    );
}

#[test]
fn rect_wants_all_four_integers() {
    assert_eq!(
        Rect::from_json(&out_doc("{\"x\":1,\"y\":2,\"width\":3}")),
        Err(ShapeError::MissingField)
    );
    assert_eq!(
        Rect::from_json(&out_doc("{\"x\":1,\"y\":2,\"width\":3,\"height\":4.5}")),
        Err(ShapeError::TypeMismatch)
    );
    assert_eq!(
        Rect::from_json(&out_doc("{\"x\":1,\"y\":2,\"width\":3,\"height\":9223372036854775808}")),
        Err(ShapeError::TypeMismatch)
    );
    assert_eq!(Rect::from_json(&out_doc("[1,2,3,4]")), Err(ShapeError::TypeMismatch));
}

#[test]
fn output_mode_wants_unsigned_numbers() {
    assert_eq!(
        OutputMode::from_json(&out_doc("{\"width\":1920,\"height\":1080,\"refresh\":60000}")),
        Ok(OutputMode { width: 1920, height: 1080, refresh: 60000 })
    );
    assert_eq!(
        OutputMode::from_json(&out_doc("{\"width\":-1,\"height\":1080,\"refresh\":60000}")),
        Err(ShapeError::TypeMismatch)
    );
}

#[test]
fn subpixel_hinting_names() {
    let all = [
        ("rgb", SubpixelHinting::Rgb),
        ("bgr", SubpixelHinting::Bgr),
        ("vrgb", SubpixelHinting::Vrgb),
        ("vbgr", SubpixelHinting::Vbgr),
        ("none", SubpixelHinting::NoHinting),
    ];
    for (name, hinting) in all {
        assert_eq!(SubpixelHinting::from_name(name), Some(hinting));
    }
    assert_eq!(SubpixelHinting::from_name("unknown"), None);
    assert_eq!(SubpixelHinting::from_json(&out_doc("null")), Err(ShapeError::TypeMismatch));
    assert_eq!(
        SubpixelHinting::from_json(&out_doc("\"unknown\"")),
        Err(ShapeError::UnknownVariant)
    );
}

#[test]
fn transform_names() {
    let all = [
        ("normal", Transform::Normal),
        ("90", Transform::Ninety),
        ("180", Transform::OneEighty),
        ("270", Transform::TwoSeventy),
        ("flipped-90", Transform::Flipped90),
        ("flipped-180", Transform::Flipped180),
        ("flipped-270", Transform::Flipped270),
    ];
    for (name, transform) in all {
        assert_eq!(Transform::from_name(name), Some(transform));
    }
    assert_eq!(Transform::from_name("flipped"), None);
    assert_eq!(Transform::from_json(&out_doc("90")), Err(ShapeError::TypeMismatch));
    assert_eq!(Transform::from_json(&out_doc("\"90\"")), Ok(Transform::Ninety));
    assert_eq!(Transform::from_json(&out_doc("\"45\"")), Err(ShapeError::UnknownVariant));
}

#[test]
fn output_decodes_with_every_member() {
    let o = Output::from_json(&out_doc(OUTPUT)).unwrap();
    assert_eq!(o.name, "eDP-1");
    assert_eq!(o.make, "ACME");
    assert_eq!(o.model, "Panel");
    assert_eq!(o.serial, "0x01");
    assert!(o.active);
    assert!(o.dpms);
    assert!(o.power);
    assert!(!o.primary);
    assert_eq!(f64::from_bits(o.scale.bits), 1.5);
    assert_eq!(o.subpixel_hinting, SubpixelHinting::Rgb);
    assert_eq!(o.transform, Transform::Flipped90);
    assert_eq!(o.current_workspace, Some("1".to_string()));
    assert_eq!(
        o.modes,
        vec![
            OutputMode { width: 1920, height: 1080, refresh: 60000 },
            OutputMode { width: 1280, height: 720, refresh: 59940 },
        ]
    );
    assert_eq!(o.current_mode, OutputMode { width: 1920, height: 1080, refresh: 60000 });
    assert_eq!(o.rect, Rect { x: 0, y: 0, width: 1280, height: 720 });
}

#[test]
fn output_scale_may_be_written_as_an_integer() {
    let text = OUTPUT.replace("\"scale\":1.5", "\"scale\":-1");
    let o = Output::from_json(&out_doc(&text)).unwrap();
    assert_eq!(f64::from_bits(o.scale.bits), -1.0);
}

#[test]
fn output_without_a_workspace() {
    let text = OUTPUT.replace("\"current_workspace\":\"1\",", "");
    assert_eq!(Output::from_json(&out_doc(&text)).unwrap().current_workspace, None);
    let text = OUTPUT.replace("\"current_workspace\":\"1\"", "\"current_workspace\":null");
    assert_eq!(Output::from_json(&out_doc(&text)).unwrap().current_workspace, None);
    let text = OUTPUT.replace("\"current_workspace\":\"1\"", "\"current_workspace\":1");
    assert_eq!(Output::from_json(&out_doc(&text)), Err(ShapeError::TypeMismatch));
}

#[test]
fn output_with_a_bad_mode_fails() {
    let text = OUTPUT.replace("\"refresh\":59940", "\"refresh\":\"59940\"");
    assert_eq!(Output::from_json(&out_doc(&text)), Err(ShapeError::TypeMismatch));
    let text = OUTPUT.replace("\"transform\":\"flipped-90\"", "\"transform\":\"flipped-45\"");
    assert_eq!(Output::from_json(&out_doc(&text)), Err(ShapeError::UnknownVariant));
    let text = OUTPUT.replace("\"scale\":1.5,", "");
    assert_eq!(Output::from_json(&out_doc(&text)), Err(ShapeError::MissingField));
}

#[test]
fn workspace_decodes() {
    let text = "{\"num\":-1,\"name\":\"mail\",\"visible\":true,\"focused\":false,\
        \"urgent\":false,\"rect\":{\"x\":0,\"y\":30,\"width\":1280,\"height\":690},\
        \"output\":\"eDP-1\"}";
    assert_eq!(
        Workspace::from_json(&out_doc(text)),
        Ok(Workspace {
            num: -1,
            name: "mail".to_string(),
            visible: true,
            focused: false,
            urgent: false,
            rect: Rect { x: 0, y: 30, width: 1280, height: 690 },
            output: "eDP-1".to_string(),
        })
    );
}

#[test]
fn workspace_wants_urgent() {
    let text = "{\"num\":1,\"name\":\"1\",\"visible\":true,\"focused\":false,\
        \"rect\":{\"x\":0,\"y\":30,\"width\":1280,\"height\":690},\"output\":\"eDP-1\"}";
    assert_eq!(Workspace::from_json(&out_doc(text)), Err(ShapeError::MissingField));
}

#[test]
fn outputs_decode_as_a_list() {
    let text = format!("[{OUTPUT},{OUTPUT}]");
    assert_eq!(list_from_json::<Output>(&out_doc(&text)).unwrap().len(), 2);
    let text = format!("[{OUTPUT},{{}}]");
    assert_eq!(list_from_json::<Output>(&out_doc(&text)), Err(ShapeError::MissingField));
}
