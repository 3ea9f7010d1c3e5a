use vstd::prelude::*;

use crate::menu::GameState;

verus! {

/// The keys the board screen listens to: which are held down, and whether
/// Backspace and Escape went down in this frame.
#[derive(Clone, Copy, Debug, PartialEq, Eq, Structural)]
pub struct Keys {
    pub a: bool,
    pub d: bool,
    pub w: bool,
    pub s: bool,
    pub f: bool,
    pub j: bool,
    pub h: bool,
    pub l: bool,
    pub t: bool,
    pub i: bool,
    pub g: bool,
    pub k: bool,
    pub arrow_left: bool,
    pub arrow_right: bool,
    pub arrow_up: bool,
    pub arrow_down: bool,
    pub equal: bool,
    pub minus: bool,
    pub backspace_just_pressed: bool,
    pub escape_just_pressed: bool,
}

/// A direction along one axis of camera motion.
#[derive(Clone, Copy, Debug, PartialEq, Eq, Structural)]
pub enum Steer {
    Negative,
    Positive,
    Still,
}

/// Which way the camera rig moves this frame along each of its axes: turn
/// about the vertical axis, tilt, slide sideways, slide forward and back,
/// and zoom.
#[derive(Clone, Copy, Debug, PartialEq, Eq, Structural)]
pub struct CameraMotion {
    pub yaw: Steer,
    pub pitch: Steer,
    pub pan_x: Steer,
    pub pan_z: Steer,
    pub zoom: Steer,
}

/// What the board screen does with the keys of one frame.
#[derive(Clone, Copy, Debug, PartialEq, Eq, Structural)]
pub struct KeyResponse {
    pub camera: CameraMotion,
    pub switch_to: Option<GameState>,
    pub let_go: bool,
}

/// The negative key wins when both are held.
pub open spec fn spec_steer(negative: bool, positive: bool) -> Steer {
    if negative {
        Steer::Negative
    } else if positive {
        Steer::Positive
    } else {
        Steer::Still
    }
}

/// The direction for a pair of opposing keys.
pub fn steer(negative: bool, positive: bool) -> (s: Steer)
    ensures
        s == spec_steer(negative, positive),
{
    if negative {
        Steer::Negative
    } else if positive {
        Steer::Positive
    } else {
        Steer::Still
    }
}

/// A or Left turns one way and D or Right the other; W or Up tilts one way
/// and S or Down the other; F or J and H or L slide sideways; T or I and G
/// or K slide forward and back; Equal zooms in and Minus out. Backspace goes
/// back to the menu, and Escape lets go of the selected piece.
pub open spec fn spec_respond_to_keys(keys: Keys) -> KeyResponse {
    KeyResponse {
        camera: CameraMotion {
            yaw: spec_steer(keys.a || keys.arrow_left, keys.d || keys.arrow_right),
            pitch: spec_steer(keys.w || keys.arrow_up, keys.s || keys.arrow_down),
            pan_x: spec_steer(keys.f || keys.j, keys.h || keys.l),
            pan_z: spec_steer(keys.t || keys.i, keys.g || keys.k),
            zoom: spec_steer(keys.equal, keys.minus),
        },
        switch_to: if keys.backspace_just_pressed {
            Some(GameState::Menu)
        } else {
            None
        },
        let_go: keys.escape_just_pressed,
    }
}

/// The response of the board screen to `keys`.
pub fn respond_to_keys(keys: &Keys) -> (r: KeyResponse)
    ensures
        r == spec_respond_to_keys(*keys),
{
    let camera = CameraMotion {
        yaw: steer(keys.a || keys.arrow_left, keys.d || keys.arrow_right),
        pitch: steer(keys.w || keys.arrow_up, keys.s || keys.arrow_down),
        pan_x: steer(keys.f || keys.j, keys.h || keys.l),
        pan_z: steer(keys.t || keys.i, keys.g || keys.k),
        zoom: steer(keys.equal, keys.minus),
    };
    let switch_to = if keys.backspace_just_pressed {
        Some(GameState::Menu)
    } else {
        None
    };
    KeyResponse { camera, switch_to, let_go: keys.escape_just_pressed }
}

/// A pair of opposing keys: the negative key alone, or both keys, steer
/// negatively; the positive key alone steers positively; neither leaves the
/// axis still.
pub proof fn law_steer(negative: bool, positive: bool)
    ensures
        negative ==> spec_steer(negative, positive) == Steer::Negative,
        !negative && positive ==> spec_steer(negative, positive) == Steer::Positive,
        !negative && !positive ==> spec_steer(negative, positive) == Steer::Still,
{
}

/// A and Left turn the rig negatively; D and Right turn it positively when
/// neither A nor Left is held; with none of them held it does not turn.
pub proof fn law_yaw_keys(keys: Keys)
    ensures
        (keys.a || keys.arrow_left) ==> spec_respond_to_keys(keys).camera.yaw == Steer::Negative,
        !(keys.a || keys.arrow_left) && (keys.d || keys.arrow_right) ==> spec_respond_to_keys(keys).camera.yaw
            == Steer::Positive,
        !(keys.a || keys.arrow_left || keys.d || keys.arrow_right) ==> spec_respond_to_keys(keys).camera.yaw
            == Steer::Still,
{
}

/// W and Up tilt the rig negatively; S and Down tilt it positively when
/// neither W nor Up is held; with none of them held it does not tilt.
pub proof fn law_pitch_keys(keys: Keys)
    ensures
        (keys.w || keys.arrow_up) ==> spec_respond_to_keys(keys).camera.pitch == Steer::Negative,
        !(keys.w || keys.arrow_up) && (keys.s || keys.arrow_down) ==> spec_respond_to_keys(keys).camera.pitch
            == Steer::Positive,
        !(keys.w || keys.arrow_up || keys.s || keys.arrow_down) ==> spec_respond_to_keys(keys).camera.pitch
            == Steer::Still,
{
}

/// F and J slide the rig negatively sideways, H and L positively when
/// neither F nor J is held; T and I slide it negatively forward, G and K
/// positively when neither T nor I is held; with none of an axis's keys
/// held it does not slide along that axis.
pub proof fn law_pan_keys(keys: Keys)
    ensures
        (keys.f || keys.j) ==> spec_respond_to_keys(keys).camera.pan_x == Steer::Negative,
        !(keys.f || keys.j) && (keys.h || keys.l) ==> spec_respond_to_keys(keys).camera.pan_x == Steer::Positive,
        !(keys.f || keys.j || keys.h || keys.l) ==> spec_respond_to_keys(keys).camera.pan_x == Steer::Still,
        (keys.t || keys.i) ==> spec_respond_to_keys(keys).camera.pan_z == Steer::Negative,
        !(keys.t || keys.i) && (keys.g || keys.k) ==> spec_respond_to_keys(keys).camera.pan_z == Steer::Positive,
        !(keys.t || keys.i || keys.g || keys.k) ==> spec_respond_to_keys(keys).camera.pan_z == Steer::Still,
{
}

/// Equal zooms negatively and Minus positively when Equal is not held;
/// with neither held the camera does not zoom.
pub proof fn law_zoom_keys(keys: Keys)
    ensures
        keys.equal ==> spec_respond_to_keys(keys).camera.zoom == Steer::Negative,
        !keys.equal && keys.minus ==> spec_respond_to_keys(keys).camera.zoom == Steer::Positive,
        !keys.equal && !keys.minus ==> spec_respond_to_keys(keys).camera.zoom == Steer::Still,
{
}

/// Backspace, and only Backspace, goes back to the menu; Escape, and only
/// Escape, lets go of the selected piece.
pub proof fn law_backspace_and_escape(keys: Keys)
    ensures
        keys.backspace_just_pressed ==> spec_respond_to_keys(keys).switch_to == Some(GameState::Menu),
        !keys.backspace_just_pressed ==> spec_respond_to_keys(keys).switch_to is None,
        spec_respond_to_keys(keys).let_go == keys.escape_just_pressed,
{
}

} // verus!
