//! The anchor resolver: turns a control's dock expression into an absolute
//! top-left position, in whole pixels, in a coordinate system centred on the
//! screen's middle (x right-positive, y up-positive).
//!
//! A dock expression has the form `ref.anchor_a <-> name.anchor_b`, where
//! `ref` is the literal `screen` or another control's name and the anchors
//! come from the nine-point set.  Resolution walks the dock chain
//! recursively; a bounded recursion budget turns a cyclic chain into a
//! `CyclicDockError` instead of unbounded descent, and a final range check
//! keeps every resolved position within the pixel range the library works
//! in.

use vstd::prelude::*;

use crate::controls::{Control, ControlModel, Controls};
use crate::text::{
    coord_input_max, coord_val, lower_spec, lower_str, parse_coord, split_once, split_once_spec,
    str_eq, trim, trim_spec, valid_coord_str,
};
use crate::{ErrorModel, UiError};

verus! {

/// The nine reference points of a rectangular box.
#[derive(Clone, Copy, PartialEq, Eq, Structural, Debug)]
pub enum Anchor {
    TopLeft,
    TopMiddle,
    TopRight,
    CenterLeft,
    CenterMiddle,
    CenterRight,
    BottomLeft,
    BottomMiddle,
    BottomRight,
}

/// The anchor a lower-cased token names, if any.
pub open spec fn anchor_of(low: Seq<char>) -> Option<Anchor> {
    if low == "top_left"@ {
        Some(Anchor::TopLeft)
    } else if low == "top_middle"@ {
        Some(Anchor::TopMiddle)
    } else if low == "top_right"@ {
        Some(Anchor::TopRight)
    } else if low == "center_left"@ {
        Some(Anchor::CenterLeft)
    } else if low == "center_middle"@ {
        Some(Anchor::CenterMiddle)
    } else if low == "center_right"@ {
        Some(Anchor::CenterRight)
    } else if low == "bottom_left"@ {
        Some(Anchor::BottomLeft)
    } else if low == "bottom_middle"@ {
        Some(Anchor::BottomMiddle)
    } else if low == "bottom_right"@ {
        Some(Anchor::BottomRight)
    } else {
        None
    }
}

/// Reads an anchor token, ignoring case.
pub fn parse_anchor(token: &str) -> (r: Option<Anchor>)
    ensures
        r == anchor_of(lower_spec(token@)),
{
    let low = lower_str(token);
    if str_eq(low.as_str(), "top_left") {
        Some(Anchor::TopLeft)
    } else if str_eq(low.as_str(), "top_middle") {
        Some(Anchor::TopMiddle)
    } else if str_eq(low.as_str(), "top_right") {
        Some(Anchor::TopRight)
    } else if str_eq(low.as_str(), "center_left") {
        Some(Anchor::CenterLeft)
    } else if str_eq(low.as_str(), "center_middle") {
        Some(Anchor::CenterMiddle)
    } else if str_eq(low.as_str(), "center_right") {
        Some(Anchor::CenterRight)
    } else if str_eq(low.as_str(), "bottom_left") {
        Some(Anchor::BottomLeft)
    } else if str_eq(low.as_str(), "bottom_middle") {
        Some(Anchor::BottomMiddle)
    } else if str_eq(low.as_str(), "bottom_right") {
        Some(Anchor::BottomRight)
    } else {
        None
    }
}

/// Half of a length, rounded toward zero.
pub open spec fn half_spec(x: int) -> int {
    if x >= 0 {
        x / 2
    } else {
        -((-x) / 2)
    }
}

fn half(x: i64) -> (r: i64)
    requires
        i64::MIN < x,
    ensures
        r == half_spec(x as int),
{
    if x >= 0 {
        x / 2
    } else {
        -((-x) / 2)
    }
}

/// Magnitude bound for every resolved position.
pub open spec fn coord_limit() -> int {
    0x100_0000_0000
}

/// A vector field value `x;y`: the empty string stands for `(0, 0)`; the
/// two parts are trimmed and read as signed whole numbers.
pub open spec fn vec2_spec(s: Seq<char>) -> Option<(int, int)> {
    if s.len() == 0 {
        Some((0, 0))
    } else {
        match split_once_spec(s, ";"@) {
            None => None,
            Some(t) => {
                let second = match split_once_spec(t.1, ";"@) {
                    Some(u) => u.0,
                    None => t.1,
                };
                let a = trim_spec(t.0);
                let b = trim_spec(second);
                if valid_coord_str(a) && valid_coord_str(b) {
                    Some((coord_val(a), coord_val(b)))
                } else {
                    None
                }
            },
        }
    }
}

/// Reads a vector field value.
pub fn parse_vec2(s: &str) -> (r: Option<(i64, i64)>)
    ensures
        match r {
            Some(v) => vec2_spec(s@) == Some((v.0 as int, v.1 as int)) && -coord_input_max()
                <= v.0 <= coord_input_max() && -coord_input_max() <= v.1 <= coord_input_max(),
            None => vec2_spec(s@) == None::<(int, int)>,
        },
{
    proof {
        reveal_strlit(";");
    }
    if s.is_empty() {
        return Some((0, 0));
    }
    match split_once(s, ";") {
        None => None,
        Some((first, rest)) => {
            let second: &str = match split_once(rest, ";") {
                Some(u) => u.0,
                None => rest,
            };
            let a = trim(first);
            let b = trim(second);
            match (parse_coord(a), parse_coord(b)) {
                (Some(x), Some(y)) => Some((x, y)),
                _ => None,
            }
        },
    }
}

/// The ref name and the two anchor tokens of a dock expression, all
/// trimmed: the text before the first `<->` names the reference point
/// (`ref.anchor_a`), the text after it the dependent point
/// (`name.anchor_b`); only the part between the first and second `.` of the
/// dependent side is consulted.
pub open spec fn dock_parts(d: Seq<char>) -> Option<(Seq<char>, Seq<char>, Seq<char>)> {
    match split_once_spec(d, "<->"@) {
        None => None,
        Some(t) => {
            let to_part = t.0;
            let this_part = match split_once_spec(t.1, "<->"@) {
                Some(u) => u.0,
                None => t.1,
            };
            match split_once_spec(to_part, "."@) {
                None => None,
                Some(p) => {
                    let refn = trim_spec(p.0);
                    let atok = trim_spec(
                        match split_once_spec(p.1, "."@) {
                            Some(q) => q.0,
                            None => p.1,
                        },
                    );
                    match split_once_spec(this_part, "."@) {
                        None => None,
                        Some(w) => {
                            let btok = trim_spec(
                                match split_once_spec(w.1, "."@) {
                                    Some(q) => q.0,
                                    None => w.1,
                                },
                            );
                            Some((refn, atok, btok))
                        },
                    }
                },
            }
        },
    }
}

/// Splits a dock expression into ref name and the two anchor tokens.
pub fn split_dock(d: &str) -> (r: Option<(String, String, String)>)
    ensures
        match r {
            Some(t) => dock_parts(d@) == Some((t.0@, t.1@, t.2@)),
            None => dock_parts(d@) == None::<(Seq<char>, Seq<char>, Seq<char>)>,
        },
{
    proof {
        reveal_strlit("<->");
        reveal_strlit(".");
    }
    match split_once(d, "<->") {
        None => None,
        Some((to_part, rest)) => {
            let this_part: &str = match split_once(rest, "<->") {
                Some(u) => u.0,
                None => rest,
            };
            match split_once(to_part, ".") {
                None => None,
                Some((ref_raw, a_rest)) => {
                    let a_raw: &str = match split_once(a_rest, ".") {
                        Some(q) => q.0,
                        None => a_rest,
                    };
                    match split_once(this_part, ".") {
                        None => None,
                        Some((_own, b_rest)) => {
                            let b_raw: &str = match split_once(b_rest, ".") {
                                Some(q) => q.0,
                                None => b_rest,
                            };
                            let refn = String::from_str(trim(ref_raw));
                            let atok = String::from_str(trim(a_raw));
                            let btok = String::from_str(trim(b_raw));
                            Some((refn, atok, btok))
                        },
                    }
                },
            }
        },
    }
}

/// The named point on the screen's box, from its half-extents.
pub open spec fn anchor_on_screen(a: Anchor, w: int, h: int) -> (int, int) {
    match a {
        Anchor::TopLeft => (-half_spec(w), half_spec(h)),
        Anchor::CenterLeft => (-half_spec(w), 0),
        Anchor::BottomLeft => (-half_spec(w), -half_spec(h)),
        Anchor::TopMiddle => (0, half_spec(h)),
        Anchor::CenterMiddle => (0, 0),
        Anchor::BottomMiddle => (0, -half_spec(h)),
        Anchor::TopRight => (half_spec(w), half_spec(h)),
        Anchor::CenterRight => (half_spec(w), 0),
        Anchor::BottomRight => (half_spec(w), -half_spec(h)),
    }
}

/// The named point on a box given by its top-left corner and size.
pub open spec fn anchor_on_box(a: Anchor, tlx: int, tly: int, sx: int, sy: int) -> (int, int) {
    match a {
        Anchor::TopLeft => (tlx, tly),
        Anchor::CenterLeft => (tlx, tly - half_spec(sy)),
        Anchor::BottomLeft => (tlx, tly - sy),
        Anchor::TopMiddle => (tlx + half_spec(sx), tly),
        Anchor::CenterMiddle => (tlx + half_spec(sx), tly - half_spec(sy)),
        Anchor::BottomMiddle => (tlx + half_spec(sx), tly - sy),
        Anchor::TopRight => (tlx + sx, tly),
        Anchor::CenterRight => (tlx + sx, tly - half_spec(sy)),
        Anchor::BottomRight => (tlx + sx, tly - sy),
    }
}

/// The top-left corner of a box of size `(sx, sy)` whose named point must
/// coincide with `(px, py)`: the mirror image of `anchor_on_box`.
pub open spec fn back_out_top_left(a: Anchor, px: int, py: int, sx: int, sy: int) -> (int, int) {
    match a {
        Anchor::TopLeft => (px, py),
        Anchor::CenterLeft => (px, py + half_spec(sy)),
        Anchor::BottomLeft => (px, py + sy),
        Anchor::TopMiddle => (px - half_spec(sx), py),
        Anchor::CenterMiddle => (px - half_spec(sx), py + half_spec(sy)),
        Anchor::BottomMiddle => (px - half_spec(sx), py + sy),
        Anchor::TopRight => (px - sx, py),
        Anchor::CenterRight => (px - sx, py + half_spec(sy)),
        Anchor::BottomRight => (px - sx, py + sy),
    }
}

/// A required vector field of a control: absent keys and unreadable values
/// are definite errors.
pub open spec fn field_vec2_spec(c: ControlModel, name: Seq<char>) -> Result<
    (int, int),
    ErrorModel,
> {
    if !c.fields.contains_key(name) {
        Err(ErrorModel::Unresolved { name })
    } else {
        match vec2_spec(c.fields[name]) {
            Some(v) => Ok(v),
            None => Err(ErrorModel::Numeric { text: c.fields[name] }),
        }
    }
}

fn control_vec2_field(c: &Control, name: &str) -> (r: Result<(i64, i64), UiError>)
    requires
        c.wf(),
    ensures
        match r {
            Ok(v) => field_vec2_spec(c@, name@) == Ok::<(int, int), ErrorModel>(
                (v.0 as int, v.1 as int),
            ) && -coord_input_max() <= v.0 <= coord_input_max() && -coord_input_max() <= v.1
                <= coord_input_max(),
            Err(e) => field_vec2_spec(c@, name@) == Err::<(int, int), ErrorModel>(e@),
        },
{
    match c.fields.get_opt(name) {
        None => Err(UiError::UnresolvedReferenceError { name: String::from_str(name) }),
        Some(v) => match parse_vec2(v.as_str()) {
            Some(p) => Ok(p),
            None => Err(UiError::NumericParseError { text: v.clone() }),
        },
    }
}

/// What the whole resolution of one control yields: its absolute top-left
/// position, or the first error on the way there.  `fuel` bounds the depth
/// of the dock chain; the resolver hands it the number of controls plus
/// one, which every acyclic chain fits in.
pub open spec fn resolve_spec(
    m: Map<Seq<char>, ControlModel>,
    c: ControlModel,
    sw: int,
    sh: int,
    fuel: nat,
) -> Result<(int, int), ErrorModel>
    decreases fuel, 1int,
{
    match field_vec2_spec(c, "size"@) {
        Err(e) => Err(e),
        Ok(size) => {
            if !c.fields.contains_key("dock_with"@) {
                Err(ErrorModel::Unresolved { name: "dock_with"@ })
            } else {
                let dock = c.fields["dock_with"@];
                if dock.len() == 0 {
                    resolve_undocked_spec(c, size.0, size.1)
                } else {
                    match dock_parts(dock) {
                        None => Err(ErrorModel::DockFormat { text: dock }),
                        Some(parts) => {
                            match dock_point_spec(m, parts.0, parts.1, sw, sh, fuel) {
                                Err(e) => Err(e),
                                Ok(p1) => {
                                    match anchor_of(lower_spec(parts.2)) {
                                        None => Err(ErrorModel::InvalidAnchor { token: parts.2 }),
                                        Some(b) => {
                                            let p2 = back_out_top_left(
                                                b,
                                                p1.0,
                                                p1.1,
                                                size.0,
                                                size.1,
                                            );
                                            match field_vec2_spec(c, "offset"@) {
                                                Err(e) => Err(e),
                                                Ok(off) => {
                                                    let rx = p2.0 + off.0;
                                                    let ry = p2.1 + off.1;
                                                    if -coord_limit() <= rx <= coord_limit()
                                                        && -coord_limit() <= ry <= coord_limit() {
                                                        Ok((rx, ry))
                                                    } else {
                                                        Err(
                                                            ErrorModel::CoordinateRange {
                                                                name: c.name,
                                                            },
                                                        )
                                                    }
                                                },
                                            }
                                        },
                                    }
                                },
                            }
                        },
                    }
                }
            }
        },
    }
}

/// The position of a control that docks to nothing: its explicit top-left,
/// or its explicit centre, or — with neither given — its own box centred on
/// the origin.
pub open spec fn resolve_undocked_spec(c: ControlModel, sx: int, sy: int) -> Result<
    (int, int),
    ErrorModel,
> {
    if !c.fields.contains_key("top_left_position"@) {
        Err(ErrorModel::Unresolved { name: "top_left_position"@ })
    } else {
        let tlp = c.fields["top_left_position"@];
        if tlp.len() > 0 {
            match vec2_spec(tlp) {
                Some(v) => Ok(v),
                None => Err(ErrorModel::Numeric { text: tlp }),
            }
        } else {
            if !c.fields.contains_key("center_position"@) {
                Err(ErrorModel::Unresolved { name: "center_position"@ })
            } else {
                let cp = c.fields["center_position"@];
                if cp.len() > 0 {
                    match vec2_spec(cp) {
                        Some(v) => Ok((v.0 - half_spec(sx), v.1 + half_spec(sy))),
                        None => Err(ErrorModel::Numeric { text: cp }),
                    }
                } else {
                    Ok((-half_spec(sx), half_spec(sy)))
                }
            }
        }
    }
}

/// The reference point `P1` of a dock expression: a point on the screen's
/// box when the ref name is the literal `screen` (ignoring case), else a
/// point on the referenced control's box, that control resolved
/// recursively.  A ref name outside the table is an
/// `UnresolvedReferenceError` naming it; an exhausted recursion budget is a
/// `CyclicDockError` naming it.
pub open spec fn dock_point_spec(
    m: Map<Seq<char>, ControlModel>,
    refn: Seq<char>,
    atok: Seq<char>,
    sw: int,
    sh: int,
    fuel: nat,
) -> Result<(int, int), ErrorModel>
    decreases fuel, 0int,
{
    if lower_spec(refn) == "screen"@ {
        match anchor_of(lower_spec(atok)) {
            None => Err(ErrorModel::InvalidAnchor { token: atok }),
            Some(a) => Ok(anchor_on_screen(a, sw, sh)),
        }
    } else if !m.contains_key(refn) {
        Err(ErrorModel::Unresolved { name: refn })
    } else {
        let parent = m[refn];
        match field_vec2_spec(parent, "size"@) {
            Err(e) => Err(e),
            Ok(psize) => {
                if fuel == 0 {
                    Err(ErrorModel::Cyclic { name: refn })
                } else {
                    match resolve_spec(m, parent, sw, sh, (fuel - 1) as nat) {
                        Err(e) => Err(e),
                        Ok(ptl) => {
                            match anchor_of(lower_spec(atok)) {
                                None => Err(ErrorModel::InvalidAnchor { token: atok }),
                                Some(a) => Ok(
                                    anchor_on_box(a, ptl.0, ptl.1, psize.0, psize.1),
                                ),
                            }
                        },
                    }
                }
            },
        }
    }
}

/// Every successful resolution stays within the pixel range.
pub proof fn lemma_resolve_ok_bounds(
    m: Map<Seq<char>, ControlModel>,
    c: ControlModel,
    sw: int,
    sh: int,
    fuel: nat,
)
    ensures
        match resolve_spec(m, c, sw, sh, fuel) {
            Ok(p) => -coord_limit() <= p.0 <= coord_limit() && -coord_limit() <= p.1
                <= coord_limit(),
            Err(_) => true,
        },
{
    lemma_vec2_bounds(c);
    if c.fields.contains_key("top_left_position"@) {
        lemma_vec2_spec_bounds(c.fields["top_left_position"@]);
    }
    if c.fields.contains_key("center_position"@) {
        lemma_vec2_spec_bounds(c.fields["center_position"@]);
    }
}

proof fn lemma_vec2_bounds(c: ControlModel)
    ensures
        forall|name: Seq<char>|
            match #[trigger] field_vec2_spec(c, name) {
                Ok(v) => -coord_input_max() <= v.0 <= coord_input_max() && -coord_input_max()
                    <= v.1 <= coord_input_max(),
                Err(_) => true,
            },
{
    assert forall|name: Seq<char>|
        match #[trigger] field_vec2_spec(c, name) {
            Ok(v) => -coord_input_max() <= v.0 <= coord_input_max() && -coord_input_max() <= v.1
                <= coord_input_max(),
            Err(_) => true,
        } by {
        if c.fields.contains_key(name) {
            lemma_vec2_spec_bounds(c.fields[name]);
        }
    }
}

proof fn lemma_vec2_spec_bounds(s: Seq<char>)
    ensures
        match vec2_spec(s) {
            Some(v) => -coord_input_max() <= v.0 <= coord_input_max() && -coord_input_max() <= v.1
                <= coord_input_max(),
            None => true,
        },
{
    if s.len() != 0 {
        match split_once_spec(s, ";"@) {
            None => {},
            Some(t) => {
                let second = match split_once_spec(t.1, ";"@) {
                    Some(u) => u.0,
                    None => t.1,
                };
                let a = trim_spec(t.0);
                let b = trim_spec(second);
                if valid_coord_str(a) && valid_coord_str(b) {
                    crate::text::lemma_coord_val_bounds(a);
                    crate::text::lemma_coord_val_bounds(b);
                }
            },
        }
    }
}

/// Docking a control's centre to the screen's centre with offset `0;0`
/// puts its top-left corner at exactly `(-sx/2, sy/2)` for its size
/// `(sx, sy)`, whatever the control, the table and the screen are.
pub proof fn lemma_center_middle_dock(
    m: Map<Seq<char>, ControlModel>,
    c: ControlModel,
    sw: int,
    sh: int,
    fuel: nat,
    sx: int,
    sy: int,
    refn: Seq<char>,
    atok: Seq<char>,
    btok: Seq<char>,
)
    requires
        c.fields.contains_key("size"@),
        vec2_spec(c.fields["size"@]) == Some((sx, sy)),
        c.fields.contains_key("dock_with"@),
        c.fields["dock_with"@].len() > 0,
        dock_parts(c.fields["dock_with"@]) == Some((refn, atok, btok)),
        lower_spec(refn) == "screen"@,
        lower_spec(atok) == "center_middle"@,
        lower_spec(btok) == "center_middle"@,
        c.fields.contains_key("offset"@),
        vec2_spec(c.fields["offset"@]) == Some((0int, 0int)),
    ensures
        resolve_spec(m, c, sw, sh, fuel) == Ok::<(int, int), ErrorModel>(
            (-half_spec(sx), half_spec(sy)),
        ),
{
    reveal_strlit("top_left");
    reveal_strlit("top_middle");
    reveal_strlit("top_right");
    reveal_strlit("center_left");
    reveal_strlit("center_middle");
    assert("top_left"@.len() == 8);
    assert("top_middle"@.len() == 10);
    assert("top_right"@.len() == 9);
    assert("center_left"@.len() == 11);
    assert("center_middle"@.len() == 13);
    lemma_vec2_spec_bounds(c.fields["size"@]);
    assert(anchor_of(lower_spec(atok)) == Some(Anchor::CenterMiddle));
}

/// Docking `B`'s top-left to `A`'s top-right with `B` offset `(10, 0)`
/// places `B`'s left edge exactly 10 units right of `A`'s right edge, and
/// keeps their top edges level: with `A` resolved to `(ax, ay)` and sized
/// `(asx, asy)`, `B`'s top-left is `(ax + asx + 10, ay)`.
pub proof fn lemma_top_right_dock(
    m: Map<Seq<char>, ControlModel>,
    b: ControlModel,
    sw: int,
    sh: int,
    fuel: nat,
    refn: Seq<char>,
    atok: Seq<char>,
    btok: Seq<char>,
    ax: int,
    ay: int,
    asx: int,
    asy: int,
)
    requires
        b.fields.contains_key("size"@),
        vec2_spec(b.fields["size"@]) matches Some(_),
        b.fields.contains_key("dock_with"@),
        b.fields["dock_with"@].len() > 0,
        dock_parts(b.fields["dock_with"@]) == Some((refn, atok, btok)),
        lower_spec(atok) == "top_right"@,
        lower_spec(btok) == "top_left"@,
        lower_spec(refn) != "screen"@,
        m.contains_key(refn),
        field_vec2_spec(m[refn], "size"@) == Ok::<(int, int), ErrorModel>((asx, asy)),
        fuel >= 1,
        resolve_spec(m, m[refn], sw, sh, (fuel - 1) as nat) == Ok::<(int, int), ErrorModel>(
            (ax, ay),
        ),
        b.fields.contains_key("offset"@),
        vec2_spec(b.fields["offset"@]) == Some((10int, 0int)),
        -coord_limit() <= ax + asx + 10 <= coord_limit(),
        -coord_limit() <= ay <= coord_limit(),
    ensures
        resolve_spec(m, b, sw, sh, fuel) == Ok::<(int, int), ErrorModel>((ax + asx + 10, ay)),
{
    reveal_strlit("top_left");
    reveal_strlit("top_middle");
    reveal_strlit("top_right");
    assert("top_left"@.len() == 8);
    assert("top_middle"@.len() == 10);
    assert("top_right"@.len() == 9);
    assert(anchor_of(lower_spec(atok)) == Some(Anchor::TopRight));
    assert(anchor_of(lower_spec(btok)) == Some(Anchor::TopLeft));
}

/// Resolves the absolute top-left position of `control`, walking its dock
/// chain with a recursion budget of `fuel`.
pub fn resolve_control(
    controls: &Controls,
    control: &Control,
    screen_w: i64,
    screen_h: i64,
    fuel: usize,
) -> (r: Result<(i64, i64), UiError>)
    requires
        controls.wf(),
        control.wf(),
        0 <= screen_w <= coord_input_max(),
        0 <= screen_h <= coord_input_max(),
    ensures
        match r {
            Ok(p) => resolve_spec(controls@, control@, screen_w as int, screen_h as int, fuel as nat)
                == Ok::<(int, int), ErrorModel>((p.0 as int, p.1 as int)) && -coord_limit() <= p.0
                <= coord_limit() && -coord_limit() <= p.1 <= coord_limit(),
            Err(e) => resolve_spec(
                controls@,
                control@,
                screen_w as int,
                screen_h as int,
                fuel as nat,
            ) == Err::<(int, int), ErrorModel>(e@),
        },
    decreases fuel, 1int,
{
    let (sx, sy) = match control_vec2_field(control, "size") {
        Ok(v) => v,
        Err(e) => {
            return Err(e);
        },
    };
    let dock: &String = match control.fields.get_opt("dock_with") {
        Some(v) => v,
        None => {
            return Err(
                UiError::UnresolvedReferenceError { name: String::from_str("dock_with") },
            );
        },
    };
    if dock.as_str().is_empty() {
        let tlp: &String = match control.fields.get_opt("top_left_position") {
            Some(v) => v,
            None => {
                return Err(
                    UiError::UnresolvedReferenceError {
                        name: String::from_str("top_left_position"),
                    },
                );
            },
        };
        if !tlp.as_str().is_empty() {
            match parse_vec2(tlp.as_str()) {
                Some(v) => {
                    return Ok(v);
                },
                None => {
                    return Err(UiError::NumericParseError { text: tlp.clone() });
                },
            }
        }
        let cp: &String = match control.fields.get_opt("center_position") {
            Some(v) => v,
            None => {
                return Err(
                    UiError::UnresolvedReferenceError {
                        name: String::from_str("center_position"),
                    },
                );
            },
        };
        if !cp.as_str().is_empty() {
            match parse_vec2(cp.as_str()) {
                Some(v) => {
                    return Ok((v.0 - half(sx), v.1 + half(sy)));
                },
                None => {
                    return Err(UiError::NumericParseError { text: cp.clone() });
                },
            }
        }
        return Ok((-half(sx), half(sy)));
    }
    let (refn, atok, btok) = match split_dock(dock.as_str()) {
        Some(t) => t,
        None => {
            return Err(UiError::DockFormatError { text: dock.clone() });
        },
    };
    let p1 = match dock_point(controls, refn, atok, screen_w, screen_h, fuel) {
        Ok(p) => p,
        Err(e) => {
            return Err(e);
        },
    };
    let b = match parse_anchor(btok.as_str()) {
        Some(a) => a,
        None => {
            return Err(UiError::InvalidAnchorError { token: btok });
        },
    };
    let p2: (i64, i64) = match b {
        Anchor::TopLeft => (p1.0, p1.1),
        Anchor::CenterLeft => (p1.0, p1.1 + half(sy)),
        Anchor::BottomLeft => (p1.0, p1.1 + sy),
        Anchor::TopMiddle => (p1.0 - half(sx), p1.1),
        Anchor::CenterMiddle => (p1.0 - half(sx), p1.1 + half(sy)),
        Anchor::BottomMiddle => (p1.0 - half(sx), p1.1 + sy),
        Anchor::TopRight => (p1.0 - sx, p1.1),
        Anchor::CenterRight => (p1.0 - sx, p1.1 + half(sy)),
        Anchor::BottomRight => (p1.0 - sx, p1.1 + sy),
    };
    let (offx, offy) = match control_vec2_field(control, "offset") {
        Ok(v) => v,
        Err(e) => {
            return Err(e);
        },
    };
    let rx = p2.0 + offx;
    let ry = p2.1 + offy;
    if -0x100_0000_0000i64 <= rx && rx <= 0x100_0000_0000i64 && -0x100_0000_0000i64 <= ry && ry
        <= 0x100_0000_0000i64 {
        Ok((rx, ry))
    } else {
        Err(UiError::CoordinateRangeError { name: control.name.clone() })
    }
}

/// The reference point of a dock expression, as `dock_point_spec` states.
fn dock_point(
    controls: &Controls,
    refn: String,
    atok: String,
    screen_w: i64,
    screen_h: i64,
    fuel: usize,
) -> (r: Result<(i64, i64), UiError>)
    requires
        controls.wf(),
        0 <= screen_w <= coord_input_max(),
        0 <= screen_h <= coord_input_max(),
    ensures
        match r {
            Ok(p) => dock_point_spec(
                controls@,
                refn@,
                atok@,
                screen_w as int,
                screen_h as int,
                fuel as nat,
            ) == Ok::<(int, int), ErrorModel>((p.0 as int, p.1 as int)) && -2 * coord_limit()
                <= p.0 <= 2 * coord_limit() && -2 * coord_limit() <= p.1 <= 2 * coord_limit(),
            Err(e) => dock_point_spec(
                controls@,
                refn@,
                atok@,
                screen_w as int,
                screen_h as int,
                fuel as nat,
            ) == Err::<(int, int), ErrorModel>(e@),
        },
    decreases fuel, 0int,
{
    let low_ref = lower_str(refn.as_str());
    if str_eq(low_ref.as_str(), "screen") {
        let a = match parse_anchor(atok.as_str()) {
            Some(a) => a,
            None => {
                return Err(UiError::InvalidAnchorError { token: atok });
            },
        };
        let p: (i64, i64) = match a {
            Anchor::TopLeft => (-half(screen_w), half(screen_h)),
            Anchor::CenterLeft => (-half(screen_w), 0),
            Anchor::BottomLeft => (-half(screen_w), -half(screen_h)),
            Anchor::TopMiddle => (0, half(screen_h)),
            Anchor::CenterMiddle => (0, 0),
            Anchor::BottomMiddle => (0, -half(screen_h)),
            Anchor::TopRight => (half(screen_w), half(screen_h)),
            Anchor::CenterRight => (half(screen_w), 0),
            Anchor::BottomRight => (half(screen_w), -half(screen_h)),
        };
        return Ok(p);
    }
    let parent: &Control = match controls.get_opt(refn.as_str()) {
        Some(c) => c,
        None => {
            return Err(UiError::UnresolvedReferenceError { name: refn });
        },
    };
    let (psx, psy) = match control_vec2_field(parent, "size") {
        Ok(v) => v,
        Err(e) => {
            return Err(e);
        },
    };
    if fuel == 0 {
        return Err(UiError::CyclicDockError { name: refn });
    }
    let ptl = match resolve_control(controls, parent, screen_w, screen_h, fuel - 1) {
        Ok(p) => p,
        Err(e) => {
            return Err(e);
        },
    };
    let a = match parse_anchor(atok.as_str()) {
        Some(a) => a,
        None => {
            return Err(UiError::InvalidAnchorError { token: atok });
        },
    };
    let p: (i64, i64) = match a {
        Anchor::TopLeft => (ptl.0, ptl.1),
        Anchor::CenterLeft => (ptl.0, ptl.1 - half(psy)),
        Anchor::BottomLeft => (ptl.0, ptl.1 - psy),
        Anchor::TopMiddle => (ptl.0 + half(psx), ptl.1),
        Anchor::CenterMiddle => (ptl.0 + half(psx), ptl.1 - half(psy)),
        Anchor::BottomMiddle => (ptl.0 + half(psx), ptl.1 - psy),
        Anchor::TopRight => (ptl.0 + psx, ptl.1),
        Anchor::CenterRight => (ptl.0 + psx, ptl.1 - half(psy)),
        Anchor::BottomRight => (ptl.0 + psx, ptl.1 - psy),
    };
    Ok(p)
}

/// Resolves the absolute top-left position of `control` against the whole
/// table, with a recursion budget every acyclic dock chain fits in.
/// Succeeds exactly when the spec-level resolution does: each error case —
/// an unreadable numeric field, a dock reference outside the table, an
/// anchor token outside the nine-point set, a malformed dock expression, a
/// cyclic chain, a position out of range — is pinned by `resolve_spec`.
pub fn calculate_top_left_position(
    control: &Control,
    controls: &Controls,
    screen_w: i64,
    screen_h: i64,
) -> (r: Result<(i64, i64), UiError>)
    requires
        controls.wf(),
        control.wf(),
        controls.spec_len() < usize::MAX,
        0 <= screen_w <= coord_input_max(),
        0 <= screen_h <= coord_input_max(),
    ensures
        match r {
            Ok(p) => resolve_spec(
                controls@,
                control@,
                screen_w as int,
                screen_h as int,
                (controls.spec_len() + 1) as nat,
            ) == Ok::<(int, int), ErrorModel>((p.0 as int, p.1 as int)),
            Err(e) => resolve_spec(
                controls@,
                control@,
                screen_w as int,
                screen_h as int,
                (controls.spec_len() + 1) as nat,
            ) == Err::<(int, int), ErrorModel>(e@),
        },
{
    let n = controls.len();
    resolve_control(controls, control, screen_w, screen_h, n + 1)
}

/// Resolves every control in the table, returning each control's name with
/// its absolute top-left position, or the first error any control's
/// resolution raises.  This is the placement pass a host runs before
/// spawning anything.
pub fn resolve_positions(controls: &Controls, screen_w: i64, screen_h: i64) -> (r: Result<
    Vec<(String, i64, i64)>,
    UiError,
>)
    requires
        controls.wf(),
        controls.spec_len() < usize::MAX,
        0 <= screen_w <= coord_input_max(),
        0 <= screen_h <= coord_input_max(),
    ensures
        match r {
            Ok(v) => v@.len() == controls.spec_len() && forall|i: int|
                0 <= i < v@.len() ==> controls@.contains_key((#[trigger] v@[i]).0@) && resolve_spec(
                    controls@,
                    controls@[v@[i].0@],
                    screen_w as int,
                    screen_h as int,
                    (controls.spec_len() + 1) as nat,
                ) == Ok::<(int, int), ErrorModel>((v@[i].1 as int, v@[i].2 as int)),
            Err(e) => exists|k: Seq<char>|
                controls@.contains_key(k) && resolve_spec(
                    controls@,
                    controls@[k],
                    screen_w as int,
                    screen_h as int,
                    (controls.spec_len() + 1) as nat,
                ) == Err::<(int, int), ErrorModel>(e@),
        },
{
    let n = controls.len();
    let mut out: Vec<(String, i64, i64)> = Vec::new();
    let mut i: usize = 0;
    while i < n
        invariant
            controls.wf(),
            controls.spec_len() < usize::MAX,
            0 <= screen_w <= coord_input_max(),
            0 <= screen_h <= coord_input_max(),
            n == controls.spec_len(),
            0 <= i <= n,
            out@.len() == i,
            forall|k: int|
                0 <= k < i ==> controls@.contains_key((#[trigger] out@[k]).0@) && resolve_spec(
                    controls@,
                    controls@[out@[k].0@],
                    screen_w as int,
                    screen_h as int,
                    (controls.spec_len() + 1) as nat,
                ) == Ok::<(int, int), ErrorModel>((out@[k].1 as int, out@[k].2 as int)),
        decreases n - i,
    {
        let c = controls.get_at(i);
        match calculate_top_left_position(c, controls, screen_w, screen_h) {
            Ok(p) => {
                out.push((c.name.clone(), p.0, p.1));
            },
            Err(e) => {
                return Err(e);
            },
        }
        i = i + 1;
    }
    Ok(out)
}

} // verus!
