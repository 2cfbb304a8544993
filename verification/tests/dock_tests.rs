use gerg_ui::controls::Controls;
use gerg_ui::dock::{calculate_top_left_position, parse_anchor, parse_vec2, resolve_positions, Anchor};
use gerg_ui::parser::instantiate_controls;
use gerg_ui::UiError;

const SCREEN_W: i64 = 1920;
const SCREEN_H: i64 = 1080;

fn parse(text: &str) -> Controls {
    let lines: Vec<String> = text.lines().map(|l| l.to_string()).collect();
    instantiate_controls(lines).expect("expected the document to parse")
}

fn position_of(controls: &Controls, name: &str) -> Result<(i64, i64), UiError> {
    let control = controls.get_opt(name).expect("control missing");
    calculate_top_left_position(control, controls, SCREEN_W, SCREEN_H)
}

#[test]
fn center_middle_screen_dock_centers_the_box() {
    let controls = parse(
        "--picture_box--\nname: c\nsize: 100;50\ndock_with: screen.center_middle <-> c.center_middle\n--end--\n",
    );
    assert_eq!(position_of(&controls, "c").unwrap(), (-50, 25));
}

#[test]
fn top_right_dock_offsets_left_edge_by_ten() {
    let controls = parse(
        "--picture_box--\nname: a\nsize: 200;100\ntop_left_position: 0;0\n--end--\n\
         --picture_box--\nname: b\nsize: 40;40\ndock_with: a.top_right <-> b.top_left\noffset: 10;0\n--end--\n",
    );
    let a = position_of(&controls, "a").unwrap();
    let b = position_of(&controls, "b").unwrap();
    assert_eq!(a, (0, 0));
    // B's left edge sits exactly 10 units right of A's right edge.
    assert_eq!(b.0, a.0 + 200 + 10);
    assert_eq!(b, (210, 0));
}

#[test]
fn dock_to_unknown_control_names_it() {
    let controls = parse(
        "--picture_box--\nname: b\nsize: 10;10\ndock_with: ghost.top_left <-> b.top_left\n--end--\n",
    );
    match position_of(&controls, "b") {
        Err(UiError::UnresolvedReferenceError { name }) => assert_eq!(name, "ghost"),
        _ => panic!("expected an unresolved reference to ghost"),
    }
}

#[test]
fn screen_corner_anchors_use_half_extents() {
    let controls = parse(
        "--picture_box--\nname: tl\nsize: 10;10\ndock_with: screen.top_left <-> tl.top_left\n--end--\n\
         --picture_box--\nname: br\nsize: 10;10\ndock_with: screen.bottom_right <-> br.bottom_right\n--end--\n",
    );
    assert_eq!(position_of(&controls, "tl").unwrap(), (-960, 540));
    // bottom_right of the box backed out to its top-left: (960 - 10, -540 + 10)
    assert_eq!(position_of(&controls, "br").unwrap(), (950, -530));
}

#[test]
fn undocked_control_without_positions_centers_its_own_box() {
    let controls = parse("--picture_box--\nname: c\nsize: 80;60\n--end--\n");
    assert_eq!(position_of(&controls, "c").unwrap(), (-40, 30));
}

#[test]
fn undocked_control_uses_top_left_position_verbatim() {
    let controls = parse(
        "--picture_box--\nname: c\nsize: 80;60\ntop_left_position: 17;-9\n--end--\n",
    );
    assert_eq!(position_of(&controls, "c").unwrap(), (17, -9));
}

#[test]
fn undocked_control_derives_top_left_from_center_position() {
    let controls = parse(
        "--picture_box--\nname: c\nsize: 80;60\ncenter_position: 100;100\n--end--\n",
    );
    assert_eq!(position_of(&controls, "c").unwrap(), (60, 130));
}

#[test]
fn dock_chain_resolves_through_intermediate_controls() {
    let controls = parse(
        "--picture_box--\nname: a\nsize: 100;100\ntop_left_position: 0;0\n--end--\n\
         --picture_box--\nname: b\nsize: 50;50\ndock_with: a.bottom_left <-> b.top_left\n--end--\n\
         --picture_box--\nname: c\nsize: 20;20\ndock_with: b.bottom_left <-> c.top_left\n--end--\n",
    );
    assert_eq!(position_of(&controls, "b").unwrap(), (0, -100));
    assert_eq!(position_of(&controls, "c").unwrap(), (0, -150));
}

#[test]
fn cyclic_dock_chain_fails_instead_of_recursing() {
    let controls = parse(
        "--picture_box--\nname: a\nsize: 10;10\ndock_with: b.top_left <-> a.top_left\n--end--\n\
         --picture_box--\nname: b\nsize: 10;10\ndock_with: a.top_left <-> b.top_left\n--end--\n",
    );
    assert!(matches!(
        position_of(&controls, "a"),
        Err(UiError::CyclicDockError { .. })
    ));
}

#[test]
fn unknown_anchor_token_names_it() {
    let controls = parse(
        "--picture_box--\nname: b\nsize: 10;10\ndock_with: screen.upper_left <-> b.top_left\n--end--\n",
    );
    match position_of(&controls, "b") {
        Err(UiError::InvalidAnchorError { token }) => assert_eq!(token, "upper_left"),
        _ => panic!("expected an invalid anchor error"),
    }
}

#[test]
fn dock_expression_without_arrow_is_malformed() {
    let controls = parse(
        "--picture_box--\nname: b\nsize: 10;10\ndock_with: screen.top_left\n--end--\n",
    );
    assert!(matches!(
        position_of(&controls, "b"),
        Err(UiError::DockFormatError { .. })
    ));
}

#[test]
fn unreadable_size_is_a_numeric_error() {
    let controls = parse("--picture_box--\nname: b\nsize: wide;10\n--end--\n");
    match position_of(&controls, "b") {
        Err(UiError::NumericParseError { text }) => assert_eq!(text, "wide;10"),
        _ => panic!("expected a numeric parse error"),
    }
}

#[test]
fn missing_size_field_is_reported_as_unresolved() {
    let controls = parse("--picture_box--\nname: b\n--end--\n");
    match position_of(&controls, "b") {
        Err(UiError::UnresolvedReferenceError { name }) => assert_eq!(name, "size"),
        _ => panic!("expected an unresolved lookup of size"),
    }
}

#[test]
fn resolve_positions_places_every_control() {
    let controls = parse(
        "--picture_box--\nname: a\nsize: 100;100\ntop_left_position: 0;0\n--end--\n\
         --picture_box--\nname: b\nsize: 50;50\ndock_with: a.top_right <-> b.top_left\n--end--\n",
    );
    let placed = resolve_positions(&controls, SCREEN_W, SCREEN_H).unwrap();
    assert_eq!(placed.len(), 2);
    let a = placed.iter().find(|p| p.0 == "a").unwrap();
    let b = placed.iter().find(|p| p.0 == "b").unwrap();
    assert_eq!((a.1, a.2), (0, 0));
    assert_eq!((b.1, b.2), (100, 0));
}

#[test]
fn anchor_tokens_parse_case_insensitively() {
    assert_eq!(parse_anchor("Top_Left"), Some(Anchor::TopLeft));
    assert_eq!(parse_anchor("BOTTOM_MIDDLE"), Some(Anchor::BottomMiddle));
    assert_eq!(parse_anchor("middle"), None);
}

#[test]
fn vector_fields_parse_signed_and_trimmed() {
    assert_eq!(parse_vec2(""), Some((0, 0)));
    assert_eq!(parse_vec2(" -3 ; 12 "), Some((-3, 12)));
    assert_eq!(parse_vec2("5"), None);
    assert_eq!(parse_vec2("1;x"), None);
}
