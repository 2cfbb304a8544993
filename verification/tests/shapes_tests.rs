use gerg_ui::shapes::{
    create_circle, create_rectangle, cursor_position_overlaps_control_bounding_shapes,
    cursor_position_overlaps_control_circle, cursor_position_overlaps_control_rect, Circle, Rect,
};

#[test]
fn rectangle_is_centered_on_translation_plus_offset() {
    let rect = create_rectangle(0, 0, 10, 10, 0, 0);
    assert_eq!(
        rect,
        Rect { left: -5, right: 5, top: 5, bottom: -5 }
    );
    let moved = create_rectangle(2, -3, 10, 10, 100, 50);
    assert_eq!(
        moved,
        Rect { left: 97, right: 107, top: 52, bottom: 42 }
    );
}

#[test]
fn rect_hit_is_inclusive_on_every_edge() {
    let rect = create_rectangle(0, 0, 10, 10, 0, 0);
    for &(x, y) in &[(5, 0), (-5, 0), (0, 5), (0, -5), (5, 5), (-5, -5), (0, 0)] {
        assert!(cursor_position_overlaps_control_rect(x, y, &rect), "({}, {})", x, y);
    }
}

#[test]
fn rect_misses_one_unit_outside_each_edge() {
    let rect = create_rectangle(0, 0, 10, 10, 0, 0);
    for &(x, y) in &[(6, 0), (-6, 0), (0, 6), (0, -6)] {
        assert!(!cursor_position_overlaps_control_rect(x, y, &rect), "({}, {})", x, y);
    }
}

#[test]
fn circle_hit_is_euclidean_distance_at_most_radius() {
    let circle = create_circle(0, 0, 0, 0, 5);
    assert_eq!(circle, Circle { center_x: 0, center_y: 0, radius: 5 });
    assert!(cursor_position_overlaps_control_circle(3, 4, &circle));
    assert!(cursor_position_overlaps_control_circle(5, 0, &circle));
    assert!(!cursor_position_overlaps_control_circle(4, 4, &circle));
    assert!(!cursor_position_overlaps_control_circle(5, 1, &circle));
}

#[test]
fn both_shapes_hit_only_in_their_intersection() {
    let rect = create_rectangle(0, 0, 10, 10, 0, 0);
    let circle = create_circle(0, 0, 0, 0, 5);
    let shapes = (Some(rect), Some(circle));
    // inside both
    assert!(cursor_position_overlaps_control_bounding_shapes(3, 0, &shapes));
    // inside the rectangle, outside the circle: no hit
    assert!(cursor_position_overlaps_control_rect(4, 4, &rect));
    assert!(!cursor_position_overlaps_control_circle(4, 4, &circle));
    assert!(!cursor_position_overlaps_control_bounding_shapes(4, 4, &shapes));
}

#[test]
fn absent_shapes_object_to_nothing() {
    let circle = create_circle(0, 0, 0, 0, 5);
    let only_circle = (None, Some(circle));
    assert!(cursor_position_overlaps_control_bounding_shapes(0, 0, &only_circle));
    assert!(!cursor_position_overlaps_control_bounding_shapes(6, 0, &only_circle));
}
