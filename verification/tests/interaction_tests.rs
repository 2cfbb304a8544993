use gerg_ui::interaction::{
    cursor_to_centered, get_control_bounding_shapes, texture_for_state, widget_tick, ButtonState,
    Cooldown, GergButton, WidgetRuntime,
};

fn button(sound: &str) -> GergButton {
    GergButton {
        name: "ok".to_string(),
        button_state: ButtonState::Normal,
        texture_name_normal: "normal.png".to_string(),
        texture_name_hover: "hover.png".to_string(),
        texture_name_active: "active.png".to_string(),
        texture_name_disabled: String::new(),
        on_click_sound: sound.to_string(),
        bounding_box: (0, 0, 0, 0),
        bounding_circle: (0, 0, 0),
    }
}

fn widget(sound: &str) -> WidgetRuntime {
    WidgetRuntime {
        button: button(sound),
        cooldown: None,
        sprite_w: 100,
        sprite_h: 50,
        pos_x: 0,
        pos_y: 0,
    }
}

#[test]
fn click_scenario_runs_hover_active_cooldown_normal() {
    let mut w = widget("click.ogg");

    // Tick 1: the pointer enters the hit area.
    let fx1 = widget_tick(&mut w, 0, 0, false, 16);
    assert_eq!(w.button.button_state, ButtonState::Hover);
    assert!(!fx1.clicked && !fx1.play_sound);
    assert_eq!(w.cooldown, None);

    // Tick 2: press inside the area in the same instant.
    let fx2 = widget_tick(&mut w, 0, 0, true, 0);
    assert_eq!(w.button.button_state, ButtonState::Active);
    assert!(fx2.clicked);
    assert!(fx2.play_sound);
    assert_eq!(w.cooldown, Some(Cooldown { remaining_time_in_ms: 500 }));

    // Tick 3: the pointer leaves; leaving does not cancel the cooldown.
    let fx3 = widget_tick(&mut w, 1000, 1000, false, 100);
    assert_eq!(w.button.button_state, ButtonState::Active);
    assert!(!fx3.clicked && !fx3.play_sound);
    assert_eq!(w.cooldown, Some(Cooldown { remaining_time_in_ms: 400 }));

    // Tick 4: the remaining 400 ms elapse; the button returns to Normal
    // regardless of the pointer position, and the cooldown is gone.
    let fx4 = widget_tick(&mut w, 1000, 1000, false, 400);
    assert_eq!(w.button.button_state, ButtonState::Normal);
    assert!(!fx4.clicked && !fx4.play_sound);
    assert_eq!(w.cooldown, None);
}

#[test]
fn pointer_leaving_demotes_hover_to_normal() {
    let mut w = widget("");
    widget_tick(&mut w, 0, 0, false, 16);
    assert_eq!(w.button.button_state, ButtonState::Hover);
    widget_tick(&mut w, 1000, 1000, false, 16);
    assert_eq!(w.button.button_state, ButtonState::Normal);
}

#[test]
fn click_without_prior_hover_still_fires_after_same_tick_hover_pass() {
    // The hover pass runs before the click pass within one tick, so a press
    // on a tick where the pointer is already inside promotes Normal to
    // Hover and then Hover to Active.
    let mut w = widget("");
    let fx = widget_tick(&mut w, 0, 0, true, 16);
    assert_eq!(w.button.button_state, ButtonState::Active);
    assert!(fx.clicked);
    assert!(!fx.play_sound);
}

#[test]
fn click_outside_the_hit_area_does_nothing() {
    let mut w = widget("click.ogg");
    let fx = widget_tick(&mut w, 1000, 1000, true, 16);
    assert_eq!(w.button.button_state, ButtonState::Normal);
    assert!(!fx.clicked && !fx.play_sound);
}

#[test]
fn active_button_ignores_further_clicks_during_cooldown() {
    let mut w = widget("click.ogg");
    widget_tick(&mut w, 0, 0, false, 16);
    widget_tick(&mut w, 0, 0, true, 16);
    assert_eq!(w.button.button_state, ButtonState::Active);
    let cd = w.cooldown;
    let fx = widget_tick(&mut w, 0, 0, true, 0);
    assert_eq!(w.button.button_state, ButtonState::Active);
    assert!(!fx.clicked && !fx.play_sound);
    assert_eq!(w.cooldown, cd);
}

#[test]
fn disabled_button_is_inert() {
    let mut w = widget("click.ogg");
    w.button.button_state = ButtonState::Disabled;
    let fx = widget_tick(&mut w, 0, 0, true, 16);
    assert_eq!(w.button.button_state, ButtonState::Disabled);
    assert!(!fx.clicked && !fx.play_sound);
    assert_eq!(w.cooldown, None);
}

#[test]
fn no_sound_is_requested_when_none_is_configured() {
    let mut w = widget("");
    widget_tick(&mut w, 0, 0, false, 16);
    let fx = widget_tick(&mut w, 0, 0, true, 16);
    assert!(fx.clicked);
    assert!(!fx.play_sound);
}

#[test]
fn custom_bounding_circle_narrows_the_hit_area() {
    let mut w = widget("");
    // A circle of radius 10 at the widget's position, beside the default
    // 100x50 sprite box: both must contain the pointer.
    w.button.bounding_box = (0, 0, 100, 50);
    w.button.bounding_circle = (0, 0, 10);
    let shapes = get_control_bounding_shapes(&w);
    assert!(shapes.0.is_some() && shapes.1.is_some());
    // (40, 0) is inside the box but outside the circle: no hover.
    widget_tick(&mut w, 40, 0, false, 16);
    assert_eq!(w.button.button_state, ButtonState::Normal);
    widget_tick(&mut w, 5, 0, false, 16);
    assert_eq!(w.button.button_state, ButtonState::Hover);
}

#[test]
fn unconfigured_texture_variants_fall_back_to_normal() {
    let b = button("");
    assert_eq!(texture_for_state(&b, ButtonState::Hover).as_str(), "hover.png");
    assert_eq!(texture_for_state(&b, ButtonState::Disabled).as_str(), "normal.png");
    let mut bare = button("");
    bare.texture_name_hover = String::new();
    assert_eq!(texture_for_state(&bare, ButtonState::Hover).as_str(), "normal.png");
}

#[test]
fn cursor_recentering_shifts_by_half_the_screen() {
    assert_eq!(cursor_to_centered(960, 540, 1920, 1080), (0, 0));
    assert_eq!(cursor_to_centered(0, 0, 1920, 1080), (-960, -540));
    assert_eq!(cursor_to_centered(1920, 1080, 1920, 1080), (960, 540));
}
