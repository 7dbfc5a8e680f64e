//! First-person camera and its input-driven controller.
//!
//! The controller accumulates keyboard, mouse and scroll input between
//! frames; `update` applies the accumulated deltas to the camera in a fixed
//! order (translate, zoom, vertical, rotate, clamp), resets the one-shot
//! accumulators, and clamps the pitch into `[-FX_PITCH_LIMIT,
//! FX_PITCH_LIMIT]` — the clamp holds after every update, whatever the
//! input history.

use vstd::prelude::*;
use crate::fixed::{
    fx_add, fx_clamp, fx_mul, fx_neg, fx_sub, spec_fx_add, spec_fx_mul, spec_fx_neg, spec_fx_sub,
    FX_DEG_TO_RAD, FX_ONE,
};
use crate::trig::{fx_cos, fx_sin, spec_fx_cos, spec_fx_sin};
use crate::mat::{
    mat4_look_at_rh, mat4_perspective_rh, spec_look_at_rh, spec_perspective_rh, Mat4Fx,
};
use crate::vec3::{
    spec_v3, spec_v3_add, spec_v3_normalize, spec_v3_scale, v3_add, v3_normalize, v3_scale, Vec3Fx,
};

verus! {

/// Pitch bound: just under 89 degrees, in Q47.16 radians.
pub const FX_PITCH_LIMIT: i64 = 101799;

/// An angle given in degrees, converted to radians.
pub open spec fn spec_deg_to_rad(d: int) -> int {
    spec_fx_mul(d, FX_DEG_TO_RAD as int)
}

pub fn deg_to_rad(d: i64) -> (r: i64)
    ensures
        r as int == spec_deg_to_rad(d as int),
{
    fx_mul(d, FX_DEG_TO_RAD)
}

/// A perspective camera at `position`, aimed by yaw and pitch.
#[derive(Debug, Clone, Copy)]
pub struct FirstPersonCamera {
    pub fov_radians: i64,
    pub aspect_ratio: i64,
    pub z_far: i64,
    pub z_near: i64,
    pub position: Vec3Fx,
    /// Horizontal rotation.
    pub yaw_radians: i64,
    /// Vertical rotation.
    pub pitch_radians: i64,
}

/// The unit view direction of a camera: yaw and pitch spherical angles with
/// up = +Y.
pub open spec fn spec_view_direction(cam: FirstPersonCamera) -> Vec3Fx {
    let sp = spec_fx_sin(cam.pitch_radians as int);
    let cp = spec_fx_cos(cam.pitch_radians as int);
    let sy = spec_fx_sin(cam.yaw_radians as int);
    let cy = spec_fx_cos(cam.yaw_radians as int);
    spec_v3_normalize(spec_v3(spec_fx_mul(cp, cy), sp, spec_fx_mul(cp, sy)))
}

pub open spec fn spec_view_matrix(cam: FirstPersonCamera) -> Mat4Fx {
    spec_look_at_rh(
        cam.position,
        spec_v3_add(cam.position, spec_view_direction(cam)),
        Vec3Fx { x: 0, y: FX_ONE, z: 0 },
    )
}

impl FirstPersonCamera {
    /// A camera from angles in degrees, as the scene constructor supplies
    /// them.
    pub fn new(
        position: Vec3Fx,
        yaw_degrees: i64,
        pitch_degrees: i64,
        fov_degrees: i64,
        aspect_ratio: i64,
        z_far: i64,
        z_near: i64,
    ) -> (r: Self)
        ensures
            r.position == position,
            r.yaw_radians as int == spec_deg_to_rad(yaw_degrees as int),
            r.pitch_radians as int == spec_deg_to_rad(pitch_degrees as int),
            r.fov_radians as int == spec_deg_to_rad(fov_degrees as int),
            r.aspect_ratio == aspect_ratio,
            r.z_far == z_far,
            r.z_near == z_near,
    {
        FirstPersonCamera {
            fov_radians: deg_to_rad(fov_degrees),
            aspect_ratio,
            z_far,
            z_near,
            position,
            yaw_radians: deg_to_rad(yaw_degrees),
            pitch_radians: deg_to_rad(pitch_degrees),
        }
    }

    /// Replace the aspect ratio, leaving every other field unchanged.
    pub fn set_aspect_ration(&mut self, aspect_ratio: i64)
        ensures
            *final(self) == (FirstPersonCamera { aspect_ratio, ..*old(self) }),
    {
        self.aspect_ratio = aspect_ratio;
    }

    /// Right-handed look-at view matrix toward the camera's view direction.
    pub fn view_matrix(&self) -> (r: Mat4Fx)
        ensures
            r == spec_view_matrix(*self),
    {
        let sp: i64 = fx_sin(self.pitch_radians);
        let cp: i64 = fx_cos(self.pitch_radians);
        let sy: i64 = fx_sin(self.yaw_radians);
        let cy: i64 = fx_cos(self.yaw_radians);
        let dir: Vec3Fx = v3_normalize(Vec3Fx { x: fx_mul(cp, cy), y: sp, z: fx_mul(cp, sy) });
        mat4_look_at_rh(
            self.position,
            v3_add(self.position, dir),
            Vec3Fx { x: 0, y: FX_ONE, z: 0 },
        )
    }

    /// Right-handed perspective projection from the camera's lens
    /// parameters.
    pub fn projection_matrix(&self) -> (r: Mat4Fx)
        ensures
            r == spec_perspective_rh(
                self.fov_radians as int,
                self.aspect_ratio as int,
                self.z_near as int,
                self.z_far as int,
            ),
    {
        mat4_perspective_rh(self.fov_radians, self.aspect_ratio, self.z_near, self.z_far)
    }
}

/// The keys the controller reacts to; anything else is `Other`.
#[derive(Debug, Clone, Copy, PartialEq, Eq, Structural)]
pub enum Key {
    W,
    A,
    S,
    D,
    Up,
    Down,
    Left,
    Right,
    Space,
    LShift,
    Other,
}

#[derive(Debug, Clone, Copy, PartialEq, Eq, Structural)]
pub enum KeyState {
    Pressed,
    Released,
}

/// A scroll event: whole lines from a wheel, or pixels from a trackpad.
#[derive(Debug, Clone, Copy, PartialEq, Eq, Structural)]
pub enum MouseScrollDelta {
    LineDelta(i64),
    PixelDelta(i64),
}

/// Input accumulators between frames, plus the fixed speed and sensitivity
/// scalars.
#[derive(Debug, Clone, Copy)]
pub struct CameraController {
    pub amount_left: i64,
    pub amount_right: i64,
    pub amount_forward: i64,
    pub amount_backward: i64,
    pub amount_up: i64,
    pub amount_down: i64,
    pub rotate_horizontal: i64,
    pub rotate_vertical: i64,
    pub scroll: i64,
    pub speed: i64,
    pub sensitivity: i64,
}

/// The controller after a key changes state: the matching directional
/// accumulator becomes `amount` (1 when pressed, 0 when released).
pub open spec fn spec_handle_key(c: CameraController, key: Key, amount: i64) -> CameraController {
    match key {
        Key::W | Key::Up => CameraController { amount_forward: amount, ..c },
        Key::S | Key::Down => CameraController { amount_backward: amount, ..c },
        Key::A | Key::Left => CameraController { amount_left: amount, ..c },
        Key::D | Key::Right => CameraController { amount_right: amount, ..c },
        Key::Space => CameraController { amount_up: amount, ..c },
        Key::LShift => CameraController { amount_down: amount, ..c },
        Key::Other => c,
    }
}

/// The scroll accumulator value an event leaves behind: lines count half,
/// pixels count as they are, and the sign is flipped.
pub open spec fn spec_scroll_amount(delta: MouseScrollDelta) -> int {
    match delta {
        MouseScrollDelta::LineDelta(s) => spec_fx_neg(spec_fx_mul(s as int, (FX_ONE / 2) as int)),
        MouseScrollDelta::PixelDelta(y) => spec_fx_neg(y as int),
    }
}

impl CameraController {
    pub fn new(speed: i64, sensitivity: i64) -> (r: Self)
        ensures
            r == (CameraController {
                amount_left: 0i64,
                amount_right: 0i64,
                amount_forward: 0i64,
                amount_backward: 0i64,
                amount_up: 0i64,
                amount_down: 0i64,
                rotate_horizontal: 0i64,
                rotate_vertical: 0i64,
                scroll: 0i64,
                speed,
                sensitivity,
            }),
    {
        CameraController {
            amount_left: 0,
            amount_right: 0,
            amount_forward: 0,
            amount_backward: 0,
            amount_up: 0,
            amount_down: 0,
            rotate_horizontal: 0,
            rotate_vertical: 0,
            scroll: 0,
            speed,
            sensitivity,
        }
    }

    /// Record a key press or release in the directional accumulators.
    pub fn handle_keyboard_event(&mut self, key: Key, state: KeyState)
        ensures
            *final(self) == spec_handle_key(
                *old(self),
                key,
                if state is Pressed { FX_ONE } else { 0i64 },
            ),
    {
        let amount: i64 = if state == KeyState::Pressed {
            FX_ONE
        } else {
            0
        };
        match key {
            Key::W | Key::Up => {
                self.amount_forward = amount;
            },
            Key::S | Key::Down => {
                self.amount_backward = amount;
            },
            Key::A | Key::Left => {
                self.amount_left = amount;
            },
            Key::D | Key::Right => {
                self.amount_right = amount;
            },
            Key::Space => {
                self.amount_up = amount;
            },
            Key::LShift => {
                self.amount_down = amount;
            },
            Key::Other => {},
        }
    }

    /// Record raw mouse motion in the rotation accumulators.
    pub fn handle_mouse_event(&mut self, mouse_dx: i64, mouse_dy: i64)
        ensures
            *final(self) == (CameraController {
                rotate_horizontal: mouse_dx,
                rotate_vertical: mouse_dy,
                ..*old(self)
            }),
    {
        self.rotate_horizontal = mouse_dx;
        self.rotate_vertical = mouse_dy;
    }

    /// Record a scroll event in the scroll accumulator.
    pub fn handle_scroll_event(&mut self, delta: &MouseScrollDelta)
        ensures
            *final(self) == (CameraController {
                scroll: spec_scroll_amount(*delta) as i64,
                ..*old(self)
            }),
    {
        self.scroll = match *delta {
            MouseScrollDelta::LineDelta(s) => fx_neg(fx_mul(s, FX_ONE / 2)),
            MouseScrollDelta::PixelDelta(y) => fx_neg(y),
        };
    }
}

/// The camera after one controller update: translated along the yaw plane,
/// zoomed along the view direction, moved vertically, rotated by the
/// accumulated mouse deltas, and finally pitch-clamped. The step order is
/// part of the contract.
pub open spec fn spec_updated_camera(
    c: CameraController,
    cam: FirstPersonCamera,
    dt: int,
) -> FirstPersonCamera {
    let sy = spec_fx_sin(cam.yaw_radians as int);
    let cy = spec_fx_cos(cam.yaw_radians as int);
    let forward = spec_v3_normalize(spec_v3(cy, 0, sy));
    let right = spec_v3_normalize(spec_v3(spec_fx_neg(sy), 0, cy));
    let pos1 = spec_v3_add(
        cam.position,
        spec_v3_scale(
            forward,
            spec_fx_mul(
                spec_fx_mul(
                    spec_fx_sub(c.amount_forward as int, c.amount_backward as int),
                    c.speed as int,
                ),
                dt,
            ),
        ),
    );
    let pos2 = spec_v3_add(
        pos1,
        spec_v3_scale(
            right,
            spec_fx_mul(
                spec_fx_mul(
                    spec_fx_sub(c.amount_right as int, c.amount_left as int),
                    c.speed as int,
                ),
                dt,
            ),
        ),
    );
    let sp = spec_fx_sin(cam.pitch_radians as int);
    let cp = spec_fx_cos(cam.pitch_radians as int);
    let scrollward = spec_v3_normalize(spec_v3(spec_fx_mul(cp, cy), sp, spec_fx_mul(cp, sy)));
    let pos3 = spec_v3_add(
        pos2,
        spec_v3_scale(
            scrollward,
            spec_fx_mul(
                spec_fx_mul(spec_fx_mul(c.scroll as int, c.speed as int), c.sensitivity as int),
                dt,
            ),
        ),
    );
    let pos4 = Vec3Fx {
        y: spec_fx_add(
            pos3.y as int,
            spec_fx_mul(
                spec_fx_mul(
                    spec_fx_sub(c.amount_up as int, c.amount_down as int),
                    c.speed as int,
                ),
                dt,
            ),
        ) as i64,
        ..pos3
    };
    let yaw1 = spec_fx_add(
        cam.yaw_radians as int,
        spec_fx_mul(
            spec_fx_mul(spec_deg_to_rad(c.rotate_horizontal as int), c.sensitivity as int),
            dt,
        ),
    );
    let pitch1 = spec_fx_add(
        cam.pitch_radians as int,
        spec_fx_mul(
            spec_fx_mul(
                spec_fx_neg(spec_deg_to_rad(c.rotate_vertical as int)),
                c.sensitivity as int,
            ),
            dt,
        ),
    );
    let pitch2 = if pitch1 < -FX_PITCH_LIMIT as int {
        -FX_PITCH_LIMIT as int
    } else if pitch1 > FX_PITCH_LIMIT as int {
        FX_PITCH_LIMIT as int
    } else {
        pitch1
    };
    FirstPersonCamera {
        position: pos4,
        yaw_radians: yaw1 as i64,
        pitch_radians: pitch2 as i64,
        ..cam
    }
}

/// The controller after one update: the one-shot accumulators (scroll and
/// both rotations) are reset so that input not re-sent every frame does not
/// keep acting.
pub open spec fn spec_reset_controller(c: CameraController) -> CameraController {
    CameraController { rotate_horizontal: 0i64, rotate_vertical: 0i64, scroll: 0i64, ..c }
}

impl CameraController {
    /// Apply the accumulated input to the camera. After every update, the
    /// pitch lies within `[-FX_PITCH_LIMIT, FX_PITCH_LIMIT]`, regardless of
    /// the previous camera state or of the input seen so far.
    pub fn update(&mut self, camera: &mut FirstPersonCamera, delta_time: i64)
        ensures
            *final(camera) == spec_updated_camera(*old(self), *old(camera), delta_time as int),
            *final(self) == spec_reset_controller(*old(self)),
            -FX_PITCH_LIMIT <= final(camera).pitch_radians <= FX_PITCH_LIMIT,
    {
        // Move forward/backward and left/right in the yaw plane.
        let sy: i64 = fx_sin(camera.yaw_radians);
        let cy: i64 = fx_cos(camera.yaw_radians);
        let forward: Vec3Fx = v3_normalize(Vec3Fx { x: cy, y: 0, z: sy });
        let right: Vec3Fx = v3_normalize(Vec3Fx { x: fx_neg(sy), y: 0, z: cy });
        camera.position = v3_add(
            camera.position,
            v3_scale(
                forward,
                fx_mul(fx_mul(fx_sub(self.amount_forward, self.amount_backward), self.speed),
                    delta_time),
            ),
        );
        camera.position = v3_add(
            camera.position,
            v3_scale(
                right,
                fx_mul(fx_mul(fx_sub(self.amount_right, self.amount_left), self.speed),
                    delta_time),
            ),
        );

        // Move in/out along the view direction ("zoom"), then drop the
        // scroll accumulator.
        let sp: i64 = fx_sin(camera.pitch_radians);
        let cp: i64 = fx_cos(camera.pitch_radians);
        let scrollward: Vec3Fx = v3_normalize(
            Vec3Fx { x: fx_mul(cp, cy), y: sp, z: fx_mul(cp, sy) },
        );
        camera.position = v3_add(
            camera.position,
            v3_scale(
                scrollward,
                fx_mul(fx_mul(fx_mul(self.scroll, self.speed), self.sensitivity), delta_time),
            ),
        );
        self.scroll = 0;

        // Move up/down along the world y axis.
        camera.position.y = fx_add(
            camera.position.y,
            fx_mul(fx_mul(fx_sub(self.amount_up, self.amount_down), self.speed), delta_time),
        );

        // Rotate, then drop the rotation accumulators.
        camera.yaw_radians = fx_add(
            camera.yaw_radians,
            fx_mul(fx_mul(deg_to_rad(self.rotate_horizontal), self.sensitivity), delta_time),
        );
        camera.pitch_radians = fx_add(
            camera.pitch_radians,
            fx_mul(fx_mul(fx_neg(deg_to_rad(self.rotate_vertical)), self.sensitivity),
                delta_time),
        );
        self.rotate_horizontal = 0;
        self.rotate_vertical = 0;

        // Keep the camera's angle from going too high or low.
        camera.pitch_radians = fx_clamp(camera.pitch_radians, -FX_PITCH_LIMIT, FX_PITCH_LIMIT);
    }
}

} // verus!
