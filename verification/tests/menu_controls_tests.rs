use chess3d::controls::{respond_to_keys, steer, Keys, Steer};
use chess3d::menu::{button_response, ButtonInteraction, ButtonKind, ButtonShade, GameState, MenuRequest};

fn no_keys() -> Keys {
    Keys {
        a: false,
        d: false,
        w: false,
        s: false,
        f: false,
        j: false,
        h: false,
        l: false,
        t: false,
        i: false,
        g: false,
        k: false,
        arrow_left: false,
        arrow_right: false,
        arrow_up: false,
        arrow_down: false,
        equal: false,
        minus: false,
        backspace_just_pressed: false,
        escape_just_pressed: false,
    }
}

#[test]
fn negative_key_wins() {
    assert_eq!(steer(true, true), Steer::Negative);
    assert_eq!(steer(true, false), Steer::Negative);
    assert_eq!(steer(false, true), Steer::Positive);
    assert_eq!(steer(false, false), Steer::Still);
}

#[test]
fn idle_keyboard_moves_nothing() {
    let r = respond_to_keys(&no_keys());
    assert_eq!(r.camera.yaw, Steer::Still);
    assert_eq!(r.camera.pitch, Steer::Still);
    assert_eq!(r.camera.pan_x, Steer::Still);
    assert_eq!(r.camera.pan_z, Steer::Still);
    assert_eq!(r.camera.zoom, Steer::Still);
    assert_eq!(r.switch_to, None);
    assert!(!r.let_go);
}

#[test]
fn keys_map_to_axes() {
    let mut keys = no_keys();
    keys.arrow_right = true;
    keys.arrow_up = true;
    keys.j = true;
    keys.k = true;
    keys.minus = true;
    let r = respond_to_keys(&keys);
    assert_eq!(r.camera.yaw, Steer::Positive);
    assert_eq!(r.camera.pitch, Steer::Negative);
    assert_eq!(r.camera.pan_x, Steer::Negative);
    assert_eq!(r.camera.pan_z, Steer::Positive);
    assert_eq!(r.camera.zoom, Steer::Positive);

    let mut keys = no_keys();
    keys.a = true;
    keys.d = true;
    keys.equal = true;
    keys.s = true;
    let r = respond_to_keys(&keys);
    assert_eq!(r.camera.yaw, Steer::Negative);
    assert_eq!(r.camera.pitch, Steer::Positive);
    assert_eq!(r.camera.zoom, Steer::Negative);
}

#[test]
fn backspace_and_escape() {
    let mut keys = no_keys();
    keys.backspace_just_pressed = true;
    assert_eq!(respond_to_keys(&keys).switch_to, Some(GameState::Menu));
    let mut keys = no_keys();
    keys.escape_just_pressed = true;
    let r = respond_to_keys(&keys);
    assert!(r.let_go);
    assert_eq!(r.switch_to, None);
}

#[test]
fn buttons_answer_the_pointer() {
    let play = button_response(ButtonInteraction::Pressed, ButtonKind::Play);
    assert_eq!(play.request, Some(MenuRequest::Switch(GameState::Game)));
    assert_eq!(play.shade, ButtonShade::Pressed);
    let quit = button_response(ButtonInteraction::Pressed, ButtonKind::Quit);
    assert_eq!(quit.request, Some(MenuRequest::Exit));
    for kind in [ButtonKind::Play, ButtonKind::Quit] {
        let hovered = button_response(ButtonInteraction::Hovered, kind);
        assert_eq!(hovered.request, None);
        assert_eq!(hovered.shade, ButtonShade::Hovered);
        let idle = button_response(ButtonInteraction::Idle, kind);
        assert_eq!(idle.request, None);
        assert_eq!(idle.shade, ButtonShade::Idle);
    }
}
