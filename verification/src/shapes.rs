//! Hit-test geometry: axis-aligned rectangles and circles in the same
//! y-up, centre-origin coordinate system the resolver produces, with
//! inclusive point-containment tests.

use vstd::prelude::*;

verus! {

/// Magnitude bound on every coordinate a hit test handles; squares of
/// differences of such values stay well inside 128 bits.
pub open spec fn hit_coord_bound() -> int {
    0x2000_0000_0000_0000
}

#[derive(Clone, Copy, PartialEq, Eq, Structural, Debug)]
pub struct Rect {
    pub left: i64,
    pub right: i64,
    pub top: i64,
    pub bottom: i64,
}

#[derive(Clone, Copy, PartialEq, Eq, Structural, Debug)]
pub struct Circle {
    pub center_x: i64,
    pub center_y: i64,
    pub radius: i64,
}

/// A point lies in a rectangle when it is on or inside all four edges.
pub open spec fn rect_contains(r: Rect, x: int, y: int) -> bool {
    r.left <= x <= r.right && r.bottom <= y <= r.top
}

/// A point lies in a circle when its Euclidean distance from the centre is
/// at most the radius; a negative radius contains nothing.
pub open spec fn circle_contains(c: Circle, x: int, y: int) -> bool {
    c.radius >= 0 && (x - c.center_x) * (x - c.center_x) + (y - c.center_y) * (y - c.center_y)
        <= c.radius * c.radius
}

/// The top-left corner of a rectangle of the given extents centred at
/// `(tx + ox, ty + oy)`, halves rounded toward zero.
pub open spec fn rect_from_def(ox: int, oy: int, width: int, height: int, tx: int, ty: int) -> (
    int,
    int,
) {
    ((tx + ox) - crate::dock::half_spec(width), (ty + oy) + crate::dock::half_spec(height))
}

/// Builds the rectangle: its left/top corner comes from `rect_from_def`,
/// its right and bottom lie `width` and `height` away.
pub fn create_rectangle(ox: i64, oy: i64, width: i64, height: i64, tx: i64, ty: i64) -> (r: Rect)
    requires
        -crate::dock::coord_limit() <= ox <= crate::dock::coord_limit(),
        -crate::dock::coord_limit() <= oy <= crate::dock::coord_limit(),
        -crate::dock::coord_limit() <= width <= crate::dock::coord_limit(),
        -crate::dock::coord_limit() <= height <= crate::dock::coord_limit(),
        -crate::dock::coord_limit() <= tx <= crate::dock::coord_limit(),
        -crate::dock::coord_limit() <= ty <= crate::dock::coord_limit(),
    ensures
        r.left == rect_from_def(ox as int, oy as int, width as int, height as int, tx as int, ty as int).0,
        r.top == rect_from_def(ox as int, oy as int, width as int, height as int, tx as int, ty as int).1,
        r.right == r.left + width,
        r.bottom == r.top - height,
        -hit_coord_bound() < r.left < hit_coord_bound(),
        -hit_coord_bound() < r.right < hit_coord_bound(),
        -hit_coord_bound() < r.top < hit_coord_bound(),
        -hit_coord_bound() < r.bottom < hit_coord_bound(),
{
    let x = (tx + ox) - half(width);
    let y = (ty + oy) + half(height);
    Rect { left: x, right: x + width, top: y, bottom: y - height }
}

fn half(x: i64) -> (r: i64)
    requires
        i64::MIN < x,
    ensures
        r == crate::dock::half_spec(x as int),
{
    if x >= 0 {
        x / 2
    } else {
        -((-x) / 2)
    }
}

/// Builds a circle centred at `(tx + ox, ty + oy)` with the given radius.
pub fn create_circle(tx: i64, ty: i64, ox: i64, oy: i64, radius: i64) -> (c: Circle)
    requires
        -crate::dock::coord_limit() <= ox <= crate::dock::coord_limit(),
        -crate::dock::coord_limit() <= oy <= crate::dock::coord_limit(),
        -crate::dock::coord_limit() <= tx <= crate::dock::coord_limit(),
        -crate::dock::coord_limit() <= ty <= crate::dock::coord_limit(),
    ensures
        c.center_x == tx + ox,
        c.center_y == ty + oy,
        c.radius == radius,
        -hit_coord_bound() < c.center_x < hit_coord_bound(),
        -hit_coord_bound() < c.center_y < hit_coord_bound(),
{
    Circle { center_x: tx + ox, center_y: ty + oy, radius }
}

/// Whether a point lies in the rectangle, every edge inclusive.
pub fn cursor_position_overlaps_control_rect(x: i64, y: i64, rect: &Rect) -> (r: bool)
    ensures
        r == rect_contains(*rect, x as int, y as int),
{
    x >= rect.left && x <= rect.right && y >= rect.bottom && y <= rect.top
}

/// Whether a point lies in the circle: Euclidean distance at most the
/// radius.
pub fn cursor_position_overlaps_control_circle(x: i64, y: i64, circle: &Circle) -> (r: bool)
    requires
        -hit_coord_bound() < x < hit_coord_bound(),
        -hit_coord_bound() < y < hit_coord_bound(),
        -hit_coord_bound() < circle.center_x < hit_coord_bound(),
        -hit_coord_bound() < circle.center_y < hit_coord_bound(),
        -hit_coord_bound() < circle.radius < hit_coord_bound(),
    ensures
        r == circle_contains(*circle, x as int, y as int),
{
    if circle.radius < 0 {
        return false;
    }
    let dx: i128 = (circle.center_x as i128) - (x as i128);
    let dy: i128 = (circle.center_y as i128) - (y as i128);
    proof {
        let b = 2 * hit_coord_bound();
        assert(dx * dx < b * b && dx * dx >= 0) by (nonlinear_arith)
            requires
                -b < dx < b,
        ;
        assert(dy * dy < b * b && dy * dy >= 0) by (nonlinear_arith)
            requires
                -b < dy < b,
        ;
        assert((circle.radius as int) * (circle.radius as int) < b * b && (circle.radius as int)
            * (circle.radius as int) >= 0) by (nonlinear_arith)
            requires
                0 <= circle.radius < b,
        ;
    }
    let rr: i128 = (circle.radius as i128) * (circle.radius as i128);
    proof {
        let xi = x as int;
        let yi = y as int;
        let cx = circle.center_x as int;
        let cy = circle.center_y as int;
        assert((xi - cx) * (xi - cx) == (cx - xi) * (cx - xi)) by (nonlinear_arith);
        assert((yi - cy) * (yi - cy) == (cy - yi) * (cy - yi)) by (nonlinear_arith);
    }
    dx * dx + dy * dy <= rr
}

/// What the pair of optional shapes reports for a point: every present
/// shape must contain it; an absent shape objects to nothing.
pub open spec fn shapes_hit(shapes: (Option<Rect>, Option<Circle>), x: int, y: int) -> bool {
    (match shapes.0 {
        Some(r) => rect_contains(r, x, y),
        None => true,
    }) && (match shapes.1 {
        Some(c) => circle_contains(c, x, y),
        None => true,
    })
}

/// Whether the point hits the widget: the conjunction of all declared
/// shapes.
pub fn cursor_position_overlaps_control_bounding_shapes(
    x: i64,
    y: i64,
    shapes: &(Option<Rect>, Option<Circle>),
) -> (r: bool)
    requires
        -hit_coord_bound() < x < hit_coord_bound(),
        -hit_coord_bound() < y < hit_coord_bound(),
        shapes.1 matches Some(c) ==> -hit_coord_bound() < c.center_x < hit_coord_bound()
            && -hit_coord_bound() < c.center_y < hit_coord_bound() && -hit_coord_bound() < c.radius
            < hit_coord_bound(),
    ensures
        r == shapes_hit(*shapes, x as int, y as int),
{
    let rect_ok = match &shapes.0 {
        Some(rect) => cursor_position_overlaps_control_rect(x, y, rect),
        None => true,
    };
    let circle_ok = match &shapes.1 {
        Some(circle) => cursor_position_overlaps_control_circle(x, y, circle),
        None => true,
    };
    rect_ok && circle_ok
}

/// With only a rectangular shape declared, a point hits exactly when it
/// lies on or inside the rectangle's edges.
pub proof fn lemma_rect_only_hit(rect: Rect, x: int, y: int)
    ensures
        shapes_hit((Some(rect), None), x, y) == rect_contains(rect, x, y),
{
}

/// With both a rectangle and a circle declared, a point hits only inside
/// their intersection: a point inside the rectangle but outside the circle
/// is no hit.
pub proof fn lemma_both_shapes_hit(rect: Rect, circle: Circle, x: int, y: int)
    ensures
        shapes_hit((Some(rect), Some(circle)), x, y) == (rect_contains(rect, x, y)
            && circle_contains(circle, x, y)),
        rect_contains(rect, x, y) && !circle_contains(circle, x, y) ==> !shapes_hit(
            (Some(rect), Some(circle)),
            x,
            y,
        ),
{
}

} // verus!
