use gerg_ui::controls::{Control, ControlType, Controls};
use gerg_ui::parser::instantiate_controls;
use gerg_ui::UiError;

fn lines(text: &str) -> Vec<String> {
    text.lines().map(|l| l.to_string()).collect()
}

fn parse_ok(text: &str) -> Controls {
    instantiate_controls(lines(text)).expect("expected the document to parse")
}

const SCREEN: &str = "\
--global_settings--
font_name: arial.ttf
font_size: 24
color: 10;20;30
--end--
--picture_box--
name: background
texture_name: bg.png
size: 1920;1080
--end--
--label--
name: title
text_string: Hello
size: 300;40
--end--
--button--
name: ok_button
texture_name_normal: ok.png
size: 100;50
offset: 5;-5
--end--
";

#[test]
fn parses_all_three_control_kinds() {
    let controls = parse_ok(SCREEN);
    assert_eq!(controls.len(), 3);
    let bg = controls.get_opt("background").expect("background missing");
    assert!(matches!(bg.control_type, ControlType::PictureBox));
    let title = controls.get_opt("title").expect("title missing");
    assert!(matches!(title.control_type, ControlType::Label));
    let ok = controls.get_opt("ok_button").expect("ok_button missing");
    assert!(matches!(ok.control_type, ControlType::Button));
}

#[test]
fn universal_defaults_are_seeded() {
    let controls = parse_ok(SCREEN);
    let bg = controls.get_opt("background").unwrap();
    assert_eq!(bg.fields.get_opt("dock_with").unwrap().as_str(), "");
    assert_eq!(bg.fields.get_opt("offset").unwrap().as_str(), "0;0");
    let ok = controls.get_opt("ok_button").unwrap();
    assert_eq!(ok.fields.get_opt("offset").unwrap().as_str(), "5;-5");
}

#[test]
fn global_settings_carry_into_labels_and_buttons() {
    let controls = parse_ok(SCREEN);
    let title = controls.get_opt("title").unwrap();
    assert_eq!(title.fields.get_opt("font_name").unwrap().as_str(), "arial.ttf");
    assert_eq!(title.fields.get_opt("font_size").unwrap().as_str(), "24");
    assert_eq!(title.fields.get_opt("color").unwrap().as_str(), "10;20;30");
    let ok = controls.get_opt("ok_button").unwrap();
    assert_eq!(ok.fields.get_opt("color").unwrap().as_str(), "10;20;30");
}

#[test]
fn button_variant_defaults_are_empty() {
    let controls = parse_ok(SCREEN);
    let ok = controls.get_opt("ok_button").unwrap();
    assert_eq!(ok.fields.get_opt("texture_name_hover").unwrap().as_str(), "");
    assert_eq!(ok.fields.get_opt("texture_name_active").unwrap().as_str(), "");
    assert_eq!(ok.fields.get_opt("texture_name_disabled").unwrap().as_str(), "");
    assert_eq!(ok.fields.get_opt("on_click_sound").unwrap().as_str(), "");
    assert_eq!(ok.fields.get_opt("draw_order").unwrap().as_str(), "0.0");
}

fn controls_structurally_equal(a: &Controls, b: &Controls, names: &[&str], keys: &[&str]) -> bool {
    if a.len() != b.len() {
        return false;
    }
    for name in names {
        let ca: &Control = match a.get_opt(name) {
            Some(c) => c,
            None => return false,
        };
        let cb: &Control = match b.get_opt(name) {
            Some(c) => c,
            None => return false,
        };
        if ca.control_type != cb.control_type || ca.name != cb.name {
            return false;
        }
        if ca.fields.len() != cb.fields.len() {
            return false;
        }
        for key in keys {
            if ca.fields.get_opt(key) != cb.fields.get_opt(key) {
                return false;
            }
        }
    }
    true
}

#[test]
fn parsing_twice_yields_equal_control_sets() {
    let first = parse_ok(SCREEN);
    let second = parse_ok(SCREEN);
    let names = ["background", "title", "ok_button"];
    let keys = [
        "dock_with",
        "offset",
        "size",
        "color",
        "font_name",
        "font_size",
        "text_string",
        "texture_name",
        "texture_name_normal",
        "texture_name_hover",
        "draw_order",
        "name",
    ];
    assert!(controls_structurally_equal(&first, &second, &names, &keys));
}

#[test]
fn end_outside_any_block_cites_its_line() {
    let result = instantiate_controls(lines("\n// comment\n--end--\n"));
    match result {
        Err(UiError::FormatError { line_number, line }) => {
            assert_eq!(line_number, 3);
            assert_eq!(line, "--end--");
        }
        other => panic!("expected a format error, got {:?}", other.is_ok()),
    }
}

#[test]
fn unknown_header_is_a_format_error() {
    let result = instantiate_controls(lines("--window--\n--end--\n"));
    match result {
        Err(UiError::FormatError { line_number, line }) => {
            assert_eq!(line_number, 1);
            assert_eq!(line, "--window--");
        }
        _ => panic!("expected a format error"),
    }
}

#[test]
fn field_outside_any_block_is_a_format_error() {
    let result = instantiate_controls(lines("size: 10;10\n"));
    match result {
        Err(UiError::FormatError { line_number, .. }) => assert_eq!(line_number, 1),
        _ => panic!("expected a format error"),
    }
}

#[test]
fn field_line_without_separator_is_a_format_error() {
    let result = instantiate_controls(lines("--picture_box--\nname background\n--end--\n"));
    match result {
        Err(UiError::FormatError { line_number, line }) => {
            assert_eq!(line_number, 2);
            assert_eq!(line, "name background");
        }
        _ => panic!("expected a format error"),
    }
}

#[test]
fn unknown_global_settings_field_is_a_format_error() {
    let result = instantiate_controls(lines("--global_settings--\nvolume: 10\n--end--\n"));
    match result {
        Err(UiError::FormatError { line_number, .. }) => assert_eq!(line_number, 2),
        _ => panic!("expected a format error"),
    }
}

#[test]
fn blank_and_comment_lines_are_ignored_inside_blocks() {
    let text = "--picture_box--\n\n  // a comment\nname: pb\nsize: 4;4\n--end--\n";
    let controls = parse_ok(text);
    assert!(controls.get_opt("pb").is_some());
}

#[test]
fn headers_match_case_insensitively() {
    let text = "--Picture_Box--\nname: pb\n--END--\n";
    let controls = parse_ok(text);
    assert!(controls.get_opt("pb").is_some());
}

#[test]
fn field_names_are_lowercased_and_last_write_wins() {
    let text = "--picture_box--\nname: pb\nSize: 1;1\nSIZE: 9;9\n--end--\n";
    let controls = parse_ok(text);
    let pb = controls.get_opt("pb").unwrap();
    assert_eq!(pb.fields.get_opt("size").unwrap().as_str(), "9;9");
}

#[test]
fn field_values_drop_trailing_comments_and_whitespace() {
    let text = "--picture_box--\nname: pb\nsize:  8;6   // sprite size\n--end--\n";
    let controls = parse_ok(text);
    let pb = controls.get_opt("pb").unwrap();
    assert_eq!(pb.fields.get_opt("size").unwrap().as_str(), "8;6");
}

#[test]
fn indented_header_is_rejected_as_unknown() {
    let result = instantiate_controls(lines("  --picture_box--\n"));
    assert!(matches!(result, Err(UiError::FormatError { line_number: 1, .. })));
}
