//! Camera and controller behaviour, including the pitch clamp.

use daedalus::camera::{
    deg_to_rad, CameraController, FirstPersonCamera, Key, KeyState, MouseScrollDelta,
    FX_PITCH_LIMIT,
};
use daedalus::fixed::FX_ONE;
use daedalus::mat::mat4_identity;
use daedalus::vec3::Vec3Fx;

fn camera() -> FirstPersonCamera {
    FirstPersonCamera::new(
        Vec3Fx { x: 0, y: 0, z: 3 * FX_ONE },
        -90 * FX_ONE,
        0,
        45 * FX_ONE,
        FX_ONE,
        1000 * FX_ONE,
        6554,
    )
}

#[test]
fn new_converts_degrees() {
    let c = camera();
    assert_eq!(c.yaw_radians, deg_to_rad(-90 * FX_ONE));
    assert_eq!(c.pitch_radians, 0);
    assert_eq!(c.fov_radians, deg_to_rad(45 * FX_ONE));
    assert_eq!(c.z_near, 6554);
    assert_eq!(c.z_far, 1000 * FX_ONE);
}

#[test]
fn set_aspect_ration_changes_only_aspect() {
    let mut c = camera();
    let before = c;
    c.set_aspect_ration(2 * FX_ONE);
    assert_eq!(c.aspect_ratio, 2 * FX_ONE);
    assert_eq!(c.position, before.position);
    assert_eq!(c.yaw_radians, before.yaw_radians);
    assert_eq!(c.pitch_radians, before.pitch_radians);
    assert_eq!(c.fov_radians, before.fov_radians);
}

#[test]
fn keyboard_sets_and_clears_accumulators() {
    let mut ctl = CameraController::new(4 * FX_ONE, 15 * FX_ONE);
    ctl.handle_keyboard_event(Key::W, KeyState::Pressed);
    assert_eq!(ctl.amount_forward, FX_ONE);
    ctl.handle_keyboard_event(Key::W, KeyState::Released);
    assert_eq!(ctl.amount_forward, 0);
    ctl.handle_keyboard_event(Key::Up, KeyState::Pressed);
    assert_eq!(ctl.amount_forward, FX_ONE);
    ctl.handle_keyboard_event(Key::LShift, KeyState::Pressed);
    assert_eq!(ctl.amount_down, FX_ONE);
    ctl.handle_keyboard_event(Key::Other, KeyState::Pressed);
    assert_eq!(ctl.amount_forward, FX_ONE);
    assert_eq!(ctl.amount_down, FX_ONE);
}

#[test]
fn scroll_lines_count_half_and_flip_sign() {
    let mut ctl = CameraController::new(4 * FX_ONE, 15 * FX_ONE);
    ctl.handle_scroll_event(&MouseScrollDelta::LineDelta(3 * FX_ONE));
    assert_eq!(ctl.scroll, -(3 * FX_ONE) / 2);
    ctl.handle_scroll_event(&MouseScrollDelta::PixelDelta(2 * FX_ONE));
    assert_eq!(ctl.scroll, -2 * FX_ONE);
}

#[test]
fn update_moves_forward_exactly() {
    // a camera looking straight down +x: yaw 0, pitch 0
    let mut cam = FirstPersonCamera::new(
        Vec3Fx { x: 0, y: 0, z: 0 },
        0,
        0,
        45 * FX_ONE,
        FX_ONE,
        1000 * FX_ONE,
        6554,
    );
    let mut ctl = CameraController::new(2 * FX_ONE, FX_ONE);
    ctl.handle_keyboard_event(Key::W, KeyState::Pressed);
    ctl.update(&mut cam, FX_ONE);
    // forward == (1, 0, 0); speed 2 for one second
    assert_eq!(cam.position, Vec3Fx { x: 2 * FX_ONE, y: 0, z: 0 });
}

#[test]
fn update_resets_one_shot_accumulators() {
    let mut cam = camera();
    let mut ctl = CameraController::new(4 * FX_ONE, 15 * FX_ONE);
    ctl.handle_mouse_event(50 * FX_ONE, -30 * FX_ONE);
    ctl.handle_scroll_event(&MouseScrollDelta::PixelDelta(FX_ONE));
    ctl.update(&mut cam, FX_ONE / 60);
    assert_eq!(ctl.rotate_horizontal, 0);
    assert_eq!(ctl.rotate_vertical, 0);
    assert_eq!(ctl.scroll, 0);
    // the held-key accumulators stay until released
    ctl.handle_keyboard_event(Key::D, KeyState::Pressed);
    ctl.update(&mut cam, FX_ONE / 60);
    assert_eq!(ctl.amount_right, FX_ONE);
}

/// Pitch never leaves [-89 deg, 89 deg] in radians, whatever input the
/// controller saw.
#[test]
fn pitch_stays_clamped_under_any_input() {
    let mut cam = camera();
    let mut ctl = CameraController::new(4 * FX_ONE, 100 * FX_ONE);
    for step in 0..1000i64 {
        let wild = (step % 7 - 3) * 5000 * FX_ONE;
        ctl.handle_mouse_event(wild, -wild * 3);
        ctl.handle_scroll_event(&MouseScrollDelta::LineDelta(wild));
        ctl.handle_keyboard_event(Key::Space, KeyState::Pressed);
        ctl.update(&mut cam, FX_ONE / 30 + step);
        assert!(cam.pitch_radians >= -FX_PITCH_LIMIT);
        assert!(cam.pitch_radians <= FX_PITCH_LIMIT);
    }
}

#[test]
fn projection_matrix_degenerate_fov_is_identity() {
    let cam = FirstPersonCamera::new(
        Vec3Fx { x: 0, y: 0, z: 0 },
        0,
        0,
        0, // zero field of view
        FX_ONE,
        1000 * FX_ONE,
        6554,
    );
    assert_eq!(cam.projection_matrix(), mat4_identity());
}

#[test]
fn view_matrix_last_row_is_affine() {
    let cam = camera();
    let v = cam.view_matrix();
    assert_eq!(v.m03, 0);
    assert_eq!(v.m13, 0);
    assert_eq!(v.m23, 0);
    assert_eq!(v.m33, FX_ONE);
}
