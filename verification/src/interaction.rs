//! The pointer-driven widget state machine.  Each tick a button runs three
//! passes in a fixed order: the hover pass (pointer over the hit shape turns
//! `Normal` into `Hover`, pointer gone turns `Hover` back into `Normal`),
//! the click pass (a fresh press over a hovered button turns it `Active`,
//! starts a cooldown and asks for the click sound), and the cooldown pass
//! (elapsed time wears the cooldown down; when it runs out the button drops
//! back to `Normal` and the cooldown disappears, wherever the pointer is).
//! `Disabled` is never produced here and never left here.

use vstd::prelude::*;

use crate::shapes::{
    create_circle, create_rectangle, Circle, Rect, shapes_hit,
    cursor_position_overlaps_control_bounding_shapes,
};

verus! {

/// How long a click locks a button, in milliseconds.
pub open spec fn click_cooldown_ms() -> u32 {
    500
}

/// A button's visual state.
#[derive(Clone, Copy, PartialEq, Eq, Structural, Debug)]
pub enum ButtonState {
    Normal,
    Hover,
    Active,
    Disabled,
}

/// The time left before a clicked button returns to `Normal`.
#[derive(Clone, Copy, PartialEq, Eq, Structural, Debug)]
pub struct Cooldown {
    pub remaining_time_in_ms: u32,
}

/// Marks an entity as part of a named control group.
pub struct GergControl {
    pub group_name: String,
}

/// A spawned picture box.
pub struct GergPictureBox {
    pub name: String,
}

/// A spawned label.
pub struct GergLabel {
    pub name: String,
}

/// Marks a button whose click was just accepted.
pub struct ButtonClicked;

/// Marks a control to be torn down.
pub struct DestroyControl;

/// A spawned button: its visual variants by name, its click sound, and its
/// optional custom hit shapes.  All-zero shape tuples mean "not declared",
/// as the layout language writes them.
pub struct GergButton {
    pub name: String,
    pub button_state: ButtonState,
    pub texture_name_normal: String,
    pub texture_name_hover: String,
    pub texture_name_active: String,
    pub texture_name_disabled: String,
    pub on_click_sound: String,
    pub bounding_box: (i64, i64, i64, i64),
    pub bounding_circle: (i64, i64, i64),
}

/// A button together with its per-frame geometry and cooldown.
pub struct WidgetRuntime {
    pub button: GergButton,
    pub cooldown: Option<Cooldown>,
    pub sprite_w: i64,
    pub sprite_h: i64,
    pub pos_x: i64,
    pub pos_y: i64,
}

/// What one tick asks the host to do.
#[derive(Clone, Copy, PartialEq, Eq, Structural, Debug)]
pub struct TickEffects {
    pub clicked: bool,
    pub play_sound: bool,
}

/// The texture shown in a state: an unconfigured variant falls back to the
/// `normal` one.
pub open spec fn texture_for_state_spec(b: GergButton, st: ButtonState) -> Seq<char> {
    match st {
        ButtonState::Normal => b.texture_name_normal@,
        ButtonState::Hover => if b.texture_name_hover@.len() == 0 {
            b.texture_name_normal@
        } else {
            b.texture_name_hover@
        },
        ButtonState::Active => if b.texture_name_active@.len() == 0 {
            b.texture_name_normal@
        } else {
            b.texture_name_active@
        },
        ButtonState::Disabled => if b.texture_name_disabled@.len() == 0 {
            b.texture_name_normal@
        } else {
            b.texture_name_disabled@
        },
    }
}

/// The texture to show a button in a state, unconfigured variants falling
/// back to the `normal` variant.
pub fn texture_for_state<'a>(b: &'a GergButton, st: ButtonState) -> (r: &'a String)
    ensures
        r@ == texture_for_state_spec(*b, st),
{
    match st {
        ButtonState::Normal => &b.texture_name_normal,
        ButtonState::Hover => if b.texture_name_hover.as_str().is_empty() {
            &b.texture_name_normal
        } else {
            &b.texture_name_hover
        },
        ButtonState::Active => if b.texture_name_active.as_str().is_empty() {
            &b.texture_name_normal
        } else {
            &b.texture_name_active
        },
        ButtonState::Disabled => if b.texture_name_disabled.as_str().is_empty() {
            &b.texture_name_normal
        } else {
            &b.texture_name_disabled
        },
    }
}

/// The hit shapes a widget presents: its declared box and circle, or — with
/// neither declared — a rectangle matching its sprite, centred on its
/// position.
pub open spec fn widget_shapes_spec(w: WidgetRuntime) -> (Option<Rect>, Option<Circle>) {
    let bb = w.button.bounding_box;
    let bc = w.button.bounding_circle;
    let box_unset = bb.0 == 0 && bb.1 == 0 && bb.2 == 0 && bb.3 == 0;
    let circle_unset = bc.0 == 0 && bc.1 == 0 && bc.2 == 0;
    let circle = Circle {
        center_x: (w.pos_x + bc.0) as i64,
        center_y: (w.pos_y + bc.1) as i64,
        radius: bc.2,
    };
    if box_unset {
        if circle_unset {
            (
                Some(
                    spec_rect(
                        0,
                        0,
                        w.sprite_w as int,
                        w.sprite_h as int,
                        w.pos_x as int,
                        w.pos_y as int,
                    ),
                ),
                None,
            )
        } else {
            (None, Some(circle))
        }
    } else {
        let rect = spec_rect(
            bb.0 as int,
            bb.1 as int,
            bb.2 as int,
            bb.3 as int,
            w.pos_x as int,
            w.pos_y as int,
        );
        if circle_unset {
            (Some(rect), None)
        } else {
            (Some(rect), Some(circle))
        }
    }
}

/// The rectangle `create_rectangle` builds, stated arithmetically.
pub open spec fn spec_rect(ox: int, oy: int, width: int, height: int, tx: int, ty: int) -> Rect {
    let left = (tx + ox) - crate::dock::half_spec(width);
    let top = (ty + oy) + crate::dock::half_spec(height);
    Rect {
        left: left as i64,
        right: (left + width) as i64,
        top: top as i64,
        bottom: (top - height) as i64,
    }
}

/// Geometry small enough for every hit test and shape construction.
pub open spec fn widget_in_range(w: WidgetRuntime) -> bool {
    let l = crate::dock::coord_limit();
    &&& -l <= w.pos_x <= l
    &&& -l <= w.pos_y <= l
    &&& -l <= w.sprite_w <= l
    &&& -l <= w.sprite_h <= l
    &&& -l <= w.button.bounding_box.0 <= l
    &&& -l <= w.button.bounding_box.1 <= l
    &&& -l <= w.button.bounding_box.2 <= l
    &&& -l <= w.button.bounding_box.3 <= l
    &&& -l <= w.button.bounding_circle.0 <= l
    &&& -l <= w.button.bounding_circle.1 <= l
    &&& -l <= w.button.bounding_circle.2 <= l
}

/// The declared (or default) hit shapes of a widget.
pub fn get_control_bounding_shapes(w: &WidgetRuntime) -> (r: (Option<Rect>, Option<Circle>))
    requires
        widget_in_range(*w),
    ensures
        r == widget_shapes_spec(*w),
{
    let bb = w.button.bounding_box;
    let bc = w.button.bounding_circle;
    let box_unset = bb.0 == 0 && bb.1 == 0 && bb.2 == 0 && bb.3 == 0;
    let circle_unset = bc.0 == 0 && bc.1 == 0 && bc.2 == 0;
    if box_unset {
        if circle_unset {
            let rect = create_rectangle(0, 0, w.sprite_w, w.sprite_h, w.pos_x, w.pos_y);
            (Some(rect), None)
        } else {
            let circle = create_circle(w.pos_x, w.pos_y, bc.0, bc.1, bc.2);
            (None, Some(circle))
        }
    } else {
        let rect = create_rectangle(bb.0, bb.1, bb.2, bb.3, w.pos_x, w.pos_y);
        if circle_unset {
            (Some(rect), None)
        } else {
            let circle = create_circle(w.pos_x, w.pos_y, bc.0, bc.1, bc.2);
            (Some(rect), Some(circle))
        }
    }
}

/// The hover pass: overlap promotes `Normal` to `Hover`; its end demotes
/// `Hover` to `Normal`; every other state stands.
pub open spec fn hover_next(st: ButtonState, overlaps: bool) -> ButtonState {
    if overlaps {
        if st == ButtonState::Normal {
            ButtonState::Hover
        } else {
            st
        }
    } else {
        if st == ButtonState::Hover {
            ButtonState::Normal
        } else {
            st
        }
    }
}

/// The click pass, run only on a tick with a fresh press: an overlapped
/// `Hover` becomes `Active` and the click counts; everything else stands.
pub open spec fn click_next(st: ButtonState, overlaps: bool, just_pressed: bool) -> (
    ButtonState,
    bool,
) {
    if just_pressed && overlaps && st == ButtonState::Hover {
        (ButtonState::Active, true)
    } else {
        (st, false)
    }
}

/// The cooldown pass: elapsed time wears the cooldown down; reaching zero
/// forces `Normal` and removes it, wherever the pointer is.  A tick with no
/// elapsed time leaves it untouched.
pub open spec fn cooldown_next(st: ButtonState, cd: Option<Cooldown>, elapsed_ms: u32) -> (
    ButtonState,
    Option<Cooldown>,
) {
    if elapsed_ms == 0 {
        (st, cd)
    } else {
        match cd {
            None => (st, None),
            Some(c) => {
                if c.remaining_time_in_ms <= elapsed_ms {
                    (ButtonState::Normal, None)
                } else {
                    (
                        st,
                        Some(
                            Cooldown {
                                remaining_time_in_ms: (c.remaining_time_in_ms - elapsed_ms) as u32,
                            },
                        ),
                    )
                }
            },
        }
    }
}

/// One whole tick of a widget: hover pass, then click pass, then cooldown
/// pass, in that order.
pub open spec fn spec_tick(
    w: WidgetRuntime,
    cursor_x: int,
    cursor_y: int,
    just_pressed: bool,
    elapsed_ms: u32,
) -> (WidgetRuntime, TickEffects) {
    let overlaps = shapes_hit(widget_shapes_spec(w), cursor_x, cursor_y);
    let s1 = hover_next(w.button.button_state, overlaps);
    let (s2, clicked) = click_next(s1, overlaps, just_pressed);
    let cd1 = if clicked {
        Some(Cooldown { remaining_time_in_ms: click_cooldown_ms() })
    } else {
        w.cooldown
    };
    let (s3, cd2) = cooldown_next(s2, cd1, elapsed_ms);
    let play = clicked && w.button.on_click_sound@.len() > 0;
    (
        WidgetRuntime {
            button: GergButton { button_state: s3, ..w.button },
            cooldown: cd2,
            ..w
        },
        TickEffects { clicked, play_sound: play },
    )
}

/// Advances a widget by one tick of pointer input and elapsed time, in the
/// fixed pass order: hover, click, cooldown.  Reports whether a click was
/// accepted and whether the configured click sound should play; the new
/// state and cooldown are exactly what `spec_tick` states.
pub fn widget_tick(
    w: &mut WidgetRuntime,
    cursor_x: i64,
    cursor_y: i64,
    just_pressed: bool,
    elapsed_ms: u32,
) -> (r: TickEffects)
    requires
        widget_in_range(*old(w)),
        -crate::dock::coord_limit() <= cursor_x <= crate::dock::coord_limit(),
        -crate::dock::coord_limit() <= cursor_y <= crate::dock::coord_limit(),
    ensures
        (*final(w), r) == spec_tick(
            *old(w),
            cursor_x as int,
            cursor_y as int,
            just_pressed,
            elapsed_ms,
        ),
        final(w).button.name == old(w).button.name,
        final(w).pos_x == old(w).pos_x && final(w).pos_y == old(w).pos_y,
{
    let shapes = get_control_bounding_shapes(w);
    let overlaps = cursor_position_overlaps_control_bounding_shapes(cursor_x, cursor_y, &shapes);

    let s0 = w.button.button_state;
    let s1 = if overlaps {
        if s0 == ButtonState::Normal {
            ButtonState::Hover
        } else {
            s0
        }
    } else {
        if s0 == ButtonState::Hover {
            ButtonState::Normal
        } else {
            s0
        }
    };

    let mut clicked = false;
    let mut s2 = s1;
    if just_pressed && overlaps && s1 == ButtonState::Hover {
        s2 = ButtonState::Active;
        clicked = true;
    }
    let cd1: Option<Cooldown> = if clicked {
        Some(Cooldown { remaining_time_in_ms: 500 })
    } else {
        w.cooldown
    };

    let mut s3 = s2;
    let mut cd2 = cd1;
    if elapsed_ms > 0 {
        match cd1 {
            None => {},
            Some(c) => {
                if c.remaining_time_in_ms <= elapsed_ms {
                    s3 = ButtonState::Normal;
                    cd2 = None;
                } else {
                    cd2 = Some(
                        Cooldown { remaining_time_in_ms: c.remaining_time_in_ms - elapsed_ms },
                    );
                }
            },
        }
    }

    let play = clicked && !w.button.on_click_sound.as_str().is_empty();
    w.button.button_state = s3;
    w.cooldown = cd2;
    TickEffects { clicked, play_sound: play }
}

/// Recentres a window cursor position: window coordinates have their
/// origin in a corner, the library's coordinate system has it in the
/// middle of the screen.
pub fn cursor_to_centered(cursor_x: i64, cursor_y: i64, screen_w: i64, screen_h: i64) -> (r: (
    i64,
    i64,
))
    requires
        0 <= screen_w <= crate::text::coord_input_max(),
        0 <= screen_h <= crate::text::coord_input_max(),
        -crate::dock::coord_limit() <= cursor_x <= crate::dock::coord_limit(),
        -crate::dock::coord_limit() <= cursor_y <= crate::dock::coord_limit(),
    ensures
        r.0 == cursor_x - crate::dock::half_spec(screen_w as int),
        r.1 == cursor_y - crate::dock::half_spec(screen_h as int),
{
    (cursor_x - screen_w / 2, cursor_y - screen_h / 2)
}

/// A `Disabled` button is inert: no pointer input and no elapsed time
/// changes its state, starts a cooldown, or plays a sound (given that no
/// cooldown is attached, as none can be while it is disabled).
pub proof fn lemma_disabled_inert(
    w: WidgetRuntime,
    cursor_x: int,
    cursor_y: int,
    just_pressed: bool,
    elapsed_ms: u32,
)
    requires
        w.button.button_state == ButtonState::Disabled,
        (w.cooldown == None::<Cooldown>),
    ensures
        spec_tick(w, cursor_x, cursor_y, just_pressed, elapsed_ms).0 == w,
        !spec_tick(w, cursor_x, cursor_y, just_pressed, elapsed_ms).1.clicked,
        !spec_tick(w, cursor_x, cursor_y, just_pressed, elapsed_ms).1.play_sound,
{
    let t = spec_tick(w, cursor_x, cursor_y, just_pressed, elapsed_ms);
    assert(t.0.button == w.button);
}

/// An attached cooldown that the tick's elapsed time uses up forces the
/// state back to `Normal` and removes the cooldown, whatever the pointer
/// does — leaving the hit area does not cancel it, staying in it does not
/// prolong it.
pub proof fn lemma_cooldown_expiry(
    w: WidgetRuntime,
    cursor_x: int,
    cursor_y: int,
    just_pressed: bool,
    elapsed_ms: u32,
)
    requires
        (w.cooldown matches Some(c) && c.remaining_time_in_ms <= elapsed_ms),
        elapsed_ms > 0,
        w.button.button_state != ButtonState::Hover,
        w.button.button_state != ButtonState::Normal,
    ensures
        spec_tick(w, cursor_x, cursor_y, just_pressed, elapsed_ms).0.button.button_state
            == ButtonState::Normal,
        (spec_tick(w, cursor_x, cursor_y, just_pressed, elapsed_ms).0.cooldown matches None),
{
}

} // verus!
