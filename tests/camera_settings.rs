use camera_settings::camera::{
    load_camera_control_mappings, parse_mouse_mapping_setting,
    update_camera_control_mappings_from_json_settings, warn_invalid_remaining_settings,
    CameraControlMappings,
};
use camera_settings::diagnostic::Diagnostic;
use camera_settings::mapping::{
    get_mouse_button_from_mapping_settings, get_mouse_mapping_from_mapping_settings,
    set_mouse_mapping_modifiers_from_mapping_settings, MouseMapping, MAX_MODIFIERS,
};
use camera_settings::tree::{JsonObject, JsonValue};
use camera_settings::vocabulary::{str_eq, KeyboardModifier, MouseButton, Slot};

fn text(s: &str) -> JsonValue {
    JsonValue::Str(s.to_string())
}

fn object(entries: Vec<(&str, JsonValue)>) -> JsonObject {
    let mut o = JsonObject::new();
    for (k, v) in entries {
        o.push(k.to_string(), v);
    }
    o
}

fn names(list: &[&str]) -> JsonValue {
    JsonValue::Array(list.iter().map(|s| text(s)).collect())
}

fn mapping(button: MouseButton, mods: [Option<KeyboardModifier>; 3]) -> MouseMapping {
    MouseMapping { mouse_button: button, modifiers: mods }
}

fn plain(button: MouseButton) -> MouseMapping {
    mapping(button, [None, None, None])
}

fn defaults() -> CameraControlMappings {
    CameraControlMappings {
        look: plain(MouseButton::Left),
        look_2: None,
        pan: plain(MouseButton::Right),
        pan_2: None,
        zoom: plain(MouseButton::Middle),
        zoom_2: None,
    }
}

use KeyboardModifier::{Alt, Control, Shift};

#[test]
fn modifier_names_are_looked_up_exactly() {
    assert_eq!(KeyboardModifier::from_setting_name("shift"), Some(Shift));
    assert_eq!(KeyboardModifier::from_setting_name("control"), Some(Control));
    assert_eq!(KeyboardModifier::from_setting_name("alt"), Some(Alt));
    assert_eq!(KeyboardModifier::from_setting_name("Shift"), None);
    assert_eq!(KeyboardModifier::from_setting_name(" alt"), None);
    assert_eq!(KeyboardModifier::from_setting_name("ctrl"), None);
    assert_eq!(KeyboardModifier::from_setting_name(""), None);
}

#[test]
fn modifier_setting_names_round_trip() {
    for m in [Shift, Control, Alt] {
        assert_eq!(KeyboardModifier::from_setting_name(m.setting_name()), Some(m));
    }
    assert_eq!(Shift.setting_name(), "shift");
    assert_eq!(Control.setting_name(), "control");
    assert_eq!(Alt.setting_name(), "alt");
}

#[test]
fn mouse_button_names_are_looked_up_exactly() {
    assert_eq!(MouseButton::from_setting_name("left"), Some(MouseButton::Left));
    assert_eq!(MouseButton::from_setting_name("right"), Some(MouseButton::Right));
    assert_eq!(MouseButton::from_setting_name("middle"), Some(MouseButton::Middle));
    assert_eq!(MouseButton::from_setting_name("back"), Some(MouseButton::Back));
    assert_eq!(MouseButton::from_setting_name("forward"), Some(MouseButton::Forward));
    assert_eq!(MouseButton::from_setting_name("LEFT"), None);
    assert_eq!(MouseButton::from_setting_name("bogus"), None);
    assert_eq!(MouseButton::default(), MouseButton::Left);
}

#[test]
fn string_comparison_is_exact() {
    assert!(str_eq("abc", "abc"));
    assert!(!str_eq("abc", "abd"));
    assert!(!str_eq("abc", "ab"));
    assert!(str_eq("", ""));
}

#[test]
fn slot_setting_names() {
    assert_eq!(Slot::Look.setting_name(), "cameraLookMapping");
    assert_eq!(Slot::Look2.setting_name(), "cameraLookMapping2");
    assert_eq!(Slot::Pan.setting_name(), "cameraPanMapping");
    assert_eq!(Slot::Pan2.setting_name(), "cameraPanMapping2");
    assert_eq!(Slot::Zoom.setting_name(), "cameraZoomMapping");
    assert_eq!(Slot::Zoom2.setting_name(), "cameraZoomMapping2");
}

#[test]
fn remove_takes_out_the_named_entry() {
    let mut o = object(vec![("a", text("1")), ("b", text("2")), ("c", text("3"))]);
    assert_eq!(o.remove("b"), Some(text("2")));
    assert_eq!(o.remove("b"), None);
    assert_eq!(o, object(vec![("a", text("1")), ("c", text("3"))]));
}

#[test]
fn defaults_are_left_right_middle() {
    assert_eq!(CameraControlMappings::default(), defaults());
    assert_eq!(MAX_MODIFIERS, 3);
}

#[test]
fn empty_settings_give_defaults_and_no_diagnostics() {
    let (c, d) = load_camera_control_mappings(JsonObject::new());
    assert_eq!(c, defaults());
    assert!(d.is_empty());
}

#[test]
fn look_mapping_with_two_modifiers() {
    let settings = object(vec![(
        "cameraLookMapping",
        JsonValue::Object(object(vec![
            ("mouseButton", text("right")),
            ("modifiers", names(&["shift", "alt"])),
        ])),
    )]);
    let (c, d) = load_camera_control_mappings(settings);
    let mut expected = defaults();
    expected.look = mapping(MouseButton::Right, [Some(Shift), Some(Alt), None]);
    assert_eq!(c, expected);
    assert!(d.is_empty());
}

#[test]
fn bogus_button_and_extra_key() {
    let settings = object(vec![
        (
            "cameraPanMapping",
            JsonValue::Object(object(vec![("mouseButton", text("bogus"))])),
        ),
        ("extraKey", JsonValue::Other("1".to_string())),
    ]);
    let (c, d) = load_camera_control_mappings(settings);
    assert_eq!(c, defaults());
    assert_eq!(
        d,
        vec![
            Diagnostic::InvalidMouseButtonName("bogus".to_string()),
            Diagnostic::InvalidSetting("extraKey".to_string()),
        ]
    );
}

#[test]
fn absent_slots_keep_their_defaults() {
    let settings = object(vec![(
        "cameraZoomMapping2",
        JsonValue::Object(object(vec![("mouseButton", text("back"))])),
    )]);
    let (c, d) = load_camera_control_mappings(settings);
    let mut expected = defaults();
    expected.zoom_2 = Some(plain(MouseButton::Back));
    assert_eq!(c, expected);
    assert!(d.is_empty());
}

#[test]
fn all_six_slots_are_filled() {
    let slot = |b: &str| JsonValue::Object(object(vec![("mouseButton", text(b))]));
    let settings = object(vec![
        ("cameraZoomMapping2", slot("left")),
        ("cameraZoomMapping", slot("right")),
        ("cameraPanMapping2", slot("forward")),
        ("cameraPanMapping", slot("back")),
        ("cameraLookMapping2", slot("middle")),
        ("cameraLookMapping", slot("forward")),
    ]);
    let (c, d) = load_camera_control_mappings(settings);
    assert_eq!(
        c,
        CameraControlMappings {
            look: plain(MouseButton::Forward),
            look_2: Some(plain(MouseButton::Middle)),
            pan: plain(MouseButton::Back),
            pan_2: Some(plain(MouseButton::Forward)),
            zoom: plain(MouseButton::Right),
            zoom_2: Some(plain(MouseButton::Left)),
        }
    );
    assert!(d.is_empty());
}

#[test]
fn reparsing_the_same_object_gives_the_same_result() {
    let build = || {
        object(vec![
            ("mouseButton", text("middle")),
            ("modifiers", names(&["control", "shift"])),
        ])
    };
    let mut d1 = Vec::new();
    let mut d2 = Vec::new();
    let r1 = get_mouse_mapping_from_mapping_settings(build(), Slot::Pan, &mut d1);
    let r2 = get_mouse_mapping_from_mapping_settings(build(), Slot::Pan, &mut d2);
    assert_eq!(r1, r2);
    assert_eq!(d1, d2);
    assert_eq!(r1, Some(mapping(MouseButton::Middle, [Some(Control), Some(Shift), None])));
    assert!(d1.is_empty());
}

#[test]
fn too_many_modifiers_stop_the_walk() {
    let mut m = plain(MouseButton::Left);
    let mut d = Vec::new();
    let array = match names(&["shift", "alt", "control", "shift", "bogus"]) {
        JsonValue::Array(a) => a,
        _ => unreachable!(),
    };
    set_mouse_mapping_modifiers_from_mapping_settings(array, &mut m, Slot::Look, &mut d);
    assert_eq!(m, mapping(MouseButton::Left, [Some(Shift), Some(Alt), Some(Control)]));
    assert_eq!(d, vec![Diagnostic::TooManyModifiers]);
}

#[test]
fn capacity_counts_distinct_modifiers_only() {
    let settings = object(vec![(
        "cameraLookMapping",
        JsonValue::Object(object(vec![
            ("mouseButton", text("left")),
            ("modifiers", names(&["shift", "shift", "nope", "alt", "control", "alt"])),
        ])),
    )]);
    let (c, d) = load_camera_control_mappings(settings);
    assert_eq!(c.look, mapping(MouseButton::Left, [Some(Shift), Some(Alt), Some(Control)]));
    assert_eq!(
        d,
        vec![
            Diagnostic::DuplicateModifier(Slot::Look, Shift),
            Diagnostic::InvalidModifierName("nope".to_string()),
            Diagnostic::TooManyModifiers,
        ]
    );
}

#[test]
fn exactly_three_modifiers_fit() {
    let mut m = plain(MouseButton::Right);
    let mut d = Vec::new();
    let array = match names(&["alt", "control", "shift"]) {
        JsonValue::Array(a) => a,
        _ => unreachable!(),
    };
    set_mouse_mapping_modifiers_from_mapping_settings(array, &mut m, Slot::Pan, &mut d);
    assert_eq!(m, mapping(MouseButton::Right, [Some(Alt), Some(Control), Some(Shift)]));
    assert!(d.is_empty());
}

#[test]
fn duplicate_modifier_is_reported_once_and_takes_no_slot() {
    let settings = object(vec![(
        "cameraPanMapping2",
        JsonValue::Object(object(vec![
            ("mouseButton", text("forward")),
            ("modifiers", names(&["alt", "alt", "shift"])),
        ])),
    )]);
    let (c, d) = load_camera_control_mappings(settings);
    assert_eq!(c.pan_2, Some(mapping(MouseButton::Forward, [Some(Alt), Some(Shift), None])));
    assert_eq!(d, vec![Diagnostic::DuplicateModifier(Slot::Pan2, Alt)]);
}

#[test]
fn missing_button_rejects_the_slot() {
    let settings = object(vec![(
        "cameraLookMapping",
        JsonValue::Object(object(vec![
            ("modifiers", names(&["bogus", "shift", "shift"])),
            ("typo", text("x")),
        ])),
    )]);
    let (c, d) = load_camera_control_mappings(settings);
    assert_eq!(c, defaults());
    assert_eq!(d, vec![Diagnostic::MissingMouseButton]);
}

#[test]
fn button_that_is_not_a_string() {
    let mut o = object(vec![("mouseButton", JsonValue::Other("7".to_string()))]);
    let mut d = Vec::new();
    assert_eq!(get_mouse_button_from_mapping_settings(&mut o, &mut d), None);
    assert_eq!(d, vec![Diagnostic::InvalidMouseButtonFormat]);
    assert_eq!(o, JsonObject::new());
}

#[test]
fn button_reader_reports_missing_button() {
    let mut o = object(vec![("other", text("left"))]);
    let mut d = Vec::new();
    assert_eq!(get_mouse_button_from_mapping_settings(&mut o, &mut d), None);
    assert_eq!(d, vec![Diagnostic::MissingMouseButton]);
    assert_eq!(o, object(vec![("other", text("left"))]));
}

#[test]
fn modifiers_that_are_not_an_array_keep_the_button() {
    let o = object(vec![
        ("modifiers", text("shift")),
        ("mouseButton", text("back")),
        ("extra", JsonValue::Other("null".to_string())),
    ]);
    let mut d = Vec::new();
    let r = get_mouse_mapping_from_mapping_settings(o, Slot::Zoom, &mut d);
    assert_eq!(r, Some(plain(MouseButton::Back)));
    assert_eq!(
        d,
        vec![
            Diagnostic::InvalidModifiersFormat,
            Diagnostic::InvalidProperty("extra".to_string()),
        ]
    );
}

#[test]
fn modifier_entry_that_is_not_a_string() {
    let array = vec![JsonValue::Other("5".to_string()), text("control")];
    let o = object(vec![
        ("mouseButton", text("left")),
        ("modifiers", JsonValue::Array(array)),
    ]);
    let mut d = Vec::new();
    let r = get_mouse_mapping_from_mapping_settings(o, Slot::Look, &mut d);
    assert_eq!(r, Some(mapping(MouseButton::Left, [Some(Control), None, None])));
    assert_eq!(d, vec![Diagnostic::InvalidModifierEntry(JsonValue::Other("5".to_string()))]);
}

#[test]
fn slot_value_that_is_not_an_object() {
    let mut settings = object(vec![
        ("cameraLookMapping2", text("left")),
        ("cameraZoomMapping", JsonValue::Array(Vec::new())),
    ]);
    let mut c = defaults();
    let mut d = Vec::new();
    update_camera_control_mappings_from_json_settings(&mut c, &mut settings, &mut d);
    assert_eq!(c, defaults());
    assert_eq!(
        d,
        vec![
            Diagnostic::InvalidSlotFormat(Slot::Look2),
            Diagnostic::InvalidSlotFormat(Slot::Zoom),
        ]
    );
    assert_eq!(settings, JsonObject::new());
}

#[test]
fn parse_slot_takes_out_only_its_setting() {
    let mut settings = object(vec![
        ("x", text("y")),
        (
            "cameraPanMapping",
            JsonValue::Object(object(vec![("mouseButton", text("middle"))])),
        ),
    ]);
    let mut d = Vec::new();
    let r = parse_mouse_mapping_setting(&mut settings, Slot::Pan, &mut d);
    assert_eq!(r, Some(plain(MouseButton::Middle)));
    assert!(d.is_empty());
    assert_eq!(settings, object(vec![("x", text("y"))]));
    assert_eq!(parse_mouse_mapping_setting(&mut settings, Slot::Look, &mut d), None);
    assert!(d.is_empty());
}

#[test]
fn diagnostics_come_in_slot_order_then_leftovers_in_file_order() {
    let settings = object(vec![
        ("zeta", text("1")),
        (
            "cameraZoomMapping",
            JsonValue::Object(object(vec![("mouseButton", text("up"))])),
        ),
        ("alpha", text("2")),
        (
            "cameraLookMapping",
            JsonValue::Object(object(vec![
                ("mouseButton", text("left")),
                ("modifer", text("shift")),
            ])),
        ),
    ]);
    let (c, d) = load_camera_control_mappings(settings);
    assert_eq!(c, defaults());
    assert_eq!(
        d,
        vec![
            Diagnostic::InvalidProperty("modifer".to_string()),
            Diagnostic::InvalidMouseButtonName("up".to_string()),
            Diagnostic::InvalidSetting("zeta".to_string()),
            Diagnostic::InvalidSetting("alpha".to_string()),
        ]
    );
}

#[test]
fn remaining_settings_are_each_reported() {
    let rest = object(vec![("one", text("1")), ("two", JsonValue::Object(JsonObject::new()))]);
    let mut d = vec![Diagnostic::MissingMouseButton];
    warn_invalid_remaining_settings(rest, &mut d);
    assert_eq!(
        d,
        vec![
            Diagnostic::MissingMouseButton,
            Diagnostic::InvalidSetting("one".to_string()),
            Diagnostic::InvalidSetting("two".to_string()),
        ]
    );
}
