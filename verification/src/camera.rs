//! The camera: position and orientation in exact fixed point, with movement
//! along the planar forward and right axes, mouse-driven orientation whose
//! pitch stays strictly inside the poles, and a wrapping yaw.
//!
//! Positions are in micro-units, angles in microradians, and direction
//! components scaled by `FX_UNIT`. The floating-point view-projection matrix
//! is assembled by the rendering host from these fields.

use vstd::prelude::*;
use crate::fixed::{
    clamp_i, cos_fx, cos_fx_spec, div_unit, reduce_turn, sin_fx, sin_fx_spec, FULL_TURN_URAD,
    FX_UNIT,
};

verus! {

/// The pitch clamp, strictly inside a quarter turn (1570796 microradians), so
/// the orientation never reaches the poles.
pub const PITCH_LIMIT_URAD: i64 = 1570000;

/// Orientation change per mouse count: 0.002 radians in microradians.
pub const MOUSE_SENSITIVITY_URAD: i64 = 2000;

/// The near clip plane, 0.01 units in micro-units.
pub const ZNEAR_MICRO: i64 = 10000;

/// The far clip plane, 1000 units in micro-units.
pub const ZFAR_MICRO: i64 = 1000000000;

/// The world bound on each eye coordinate, in micro-units.
pub const EYE_LIMIT_MICRO: i64 = 0x1000_0000_0000;

/// The largest movement delta a single step may apply, in micro-units.
pub const MAX_MOVE_MICRO: i64 = 0x100_0000_0000;

/// The camera state: eye position in micro-units, orientation in
/// microradians, and the projection parameters. The up axis is the positive
/// y axis.
#[derive(Clone, Copy, PartialEq, Eq, Structural, Debug)]
pub struct Camera {
    pub eye_x: i64,
    pub eye_y: i64,
    pub eye_z: i64,
    pub pitch: i64,
    pub yaw: i64,
    pub aspect_num: u32,
    pub aspect_den: u32,
    /// The vertical field of view, in millidegrees.
    pub fovy_mdeg: u32,
    pub znear: i64,
    pub zfar: i64,
}

/// The camera after a mouse drag: yaw advances with the horizontal motion
/// and wraps around a full turn; pitch retreats with the vertical motion and
/// is clamped strictly inside the poles.
pub open spec fn camera_after_mouse(cam: Camera, dx: int, dy: int) -> Camera {
    Camera {
        yaw: ((cam.yaw + dx * MOUSE_SENSITIVITY_URAD) % (FULL_TURN_URAD as int)) as i64,
        pitch: clamp_i(
            cam.pitch - dy * MOUSE_SENSITIVITY_URAD,
            -PITCH_LIMIT_URAD as int,
            PITCH_LIMIT_URAD as int,
        ) as i64,
        ..cam
    }
}

/// The camera after a reported aspect change; a report with a zero dimension
/// is ignored and the camera keeps its last valid aspect.
pub open spec fn camera_with_aspect(cam: Camera, num: u32, den: u32) -> Camera {
    if num >= 1 && den >= 1 {
        Camera { aspect_num: num, aspect_den: den, ..cam }
    } else {
        cam
    }
}

/// The camera after a movement step: the eye translates by `forward` along
/// the planar forward axis, by `right` along the planar right axis, and by
/// `up` along the up axis, each coordinate clamped into the world bound.
pub open spec fn camera_after_move(cam: Camera, forward: int, right: int, up: int) -> Camera {
    let c = cos_fx_spec(cam.yaw as int);
    let s = sin_fx_spec(cam.yaw as int);
    let u = FX_UNIT as int;
    Camera {
        eye_x: clamp_i(
            cam.eye_x + (c * forward) / u + (-(s * right)) / u,
            -EYE_LIMIT_MICRO as int,
            EYE_LIMIT_MICRO as int,
        ) as i64,
        eye_y: clamp_i(cam.eye_y + up, -EYE_LIMIT_MICRO as int, EYE_LIMIT_MICRO as int) as i64,
        eye_z: clamp_i(
            cam.eye_z + (s * forward) / u + (c * right) / u,
            -EYE_LIMIT_MICRO as int,
            EYE_LIMIT_MICRO as int,
        ) as i64,
        ..cam
    }
}

impl Camera {
    /// The camera invariant: pitch strictly inside the poles, yaw reduced to
    /// one turn, a positive aspect ratio, the eye inside the world bound, and
    /// positive, ordered clip planes.
    pub open spec fn wf(&self) -> bool {
        &&& -PITCH_LIMIT_URAD <= self.pitch <= PITCH_LIMIT_URAD
        &&& 0 <= self.yaw < FULL_TURN_URAD
        &&& self.aspect_num >= 1
        &&& self.aspect_den >= 1
        &&& -EYE_LIMIT_MICRO <= self.eye_x <= EYE_LIMIT_MICRO
        &&& -EYE_LIMIT_MICRO <= self.eye_y <= EYE_LIMIT_MICRO
        &&& -EYE_LIMIT_MICRO <= self.eye_z <= EYE_LIMIT_MICRO
        &&& self.znear == ZNEAR_MICRO
        &&& self.zfar == ZFAR_MICRO
    }

    /// A camera at the given pose. The pitch is clamped and the yaw reduced
    /// so the invariant holds from the start.
    pub fn new(
        eye_x: i64,
        eye_y: i64,
        eye_z: i64,
        pitch: i64,
        yaw: i64,
        aspect_num: u32,
        aspect_den: u32,
        fovy_mdeg: u32,
    ) -> (cam: Camera)
        requires
            -EYE_LIMIT_MICRO <= eye_x <= EYE_LIMIT_MICRO,
            -EYE_LIMIT_MICRO <= eye_y <= EYE_LIMIT_MICRO,
            -EYE_LIMIT_MICRO <= eye_z <= EYE_LIMIT_MICRO,
            aspect_num >= 1,
            aspect_den >= 1,
        ensures
            cam.wf(),
            cam.eye_x == eye_x && cam.eye_y == eye_y && cam.eye_z == eye_z,
            cam.pitch == clamp_i(pitch as int, -PITCH_LIMIT_URAD as int, PITCH_LIMIT_URAD as int),
            cam.yaw == (yaw as int) % (FULL_TURN_URAD as int),
            cam.aspect_num == aspect_num && cam.aspect_den == aspect_den,
            cam.fovy_mdeg == fovy_mdeg,
    {
        let pitch = if pitch < -PITCH_LIMIT_URAD {
            -PITCH_LIMIT_URAD
        } else if pitch > PITCH_LIMIT_URAD {
            PITCH_LIMIT_URAD
        } else {
            pitch
        };
        let yaw = reduce_turn(yaw);
        Camera {
            eye_x,
            eye_y,
            eye_z,
            pitch,
            yaw,
            aspect_num,
            aspect_den,
            fovy_mdeg,
            znear: ZNEAR_MICRO,
            zfar: ZFAR_MICRO,
        }
    }

    /// The view direction by spherical-to-Cartesian conversion, each
    /// component scaled by `FX_UNIT`:
    /// `(cos(yaw)cos(pitch), sin(pitch), sin(yaw)cos(pitch))`.
    pub fn get_direction(&self) -> (d: (i64, i64, i64))
        ensures
            d.0 == cos_fx_spec(self.yaw as int) * cos_fx_spec(self.pitch as int) / (
            FX_UNIT as int),
            d.1 == sin_fx_spec(self.pitch as int),
            d.2 == sin_fx_spec(self.yaw as int) * cos_fx_spec(self.pitch as int) / (
            FX_UNIT as int),
            -FX_UNIT <= d.0 <= FX_UNIT && -FX_UNIT <= d.1 <= FX_UNIT && -FX_UNIT <= d.2 <= FX_UNIT,
    {
        let cy = cos_fx(self.yaw);
        let sy = sin_fx(self.yaw);
        let cp = cos_fx(self.pitch);
        let sp = sin_fx(self.pitch);
        proof {
            lemma_fx_product_quotient_bounded(cy as int, cp as int);
            lemma_fx_product_quotient_bounded(sy as int, cp as int);
        }
        let dx = div_unit(cy * cp);
        let dz = div_unit(sy * cp);
        (dx, sp, dz)
    }

    /// The planar forward axis, pitch ignored, each component scaled by
    /// `FX_UNIT`: `(cos(yaw), 0, sin(yaw))`.
    pub fn get_forward(&self) -> (d: (i64, i64, i64))
        ensures
            d.0 == cos_fx_spec(self.yaw as int),
            d.1 == 0,
            d.2 == sin_fx_spec(self.yaw as int),
    {
        (cos_fx(self.yaw), 0, sin_fx(self.yaw))
    }

    /// Folds a mouse drag into the orientation. Pitch stays strictly inside
    /// the poles whatever the motion; yaw wraps freely.
    pub fn apply_mouse(&mut self, movement_x: i32, movement_y: i32)
        requires
            old(self).wf(),
        ensures
            *final(self) == camera_after_mouse(
                *old(self),
                movement_x as int,
                movement_y as int,
            ),
            final(self).wf(),
    {
        let yaw_step = (movement_x as i64) * MOUSE_SENSITIVITY_URAD;
        let pitch_step = (movement_y as i64) * MOUSE_SENSITIVITY_URAD;
        self.yaw = reduce_turn(self.yaw + yaw_step);
        let pitch = self.pitch - pitch_step;
        self.pitch = if pitch < -PITCH_LIMIT_URAD {
            -PITCH_LIMIT_URAD
        } else if pitch > PITCH_LIMIT_URAD {
            PITCH_LIMIT_URAD
        } else {
            pitch
        };
    }

    /// Replaces the aspect ratio; a report with a zero dimension is ignored.
    pub fn set_aspect(&mut self, num: u32, den: u32)
        ensures
            *final(self) == camera_with_aspect(*old(self), num, den),
            old(self).wf() ==> final(self).wf(),
    {
        if num >= 1 && den >= 1 {
            self.aspect_num = num;
            self.aspect_den = den;
        }
    }

    /// Translates the eye along the planar forward axis, the planar right
    /// axis (their cross with the up axis), and the up axis, by the given
    /// micro-unit deltas. Each coordinate is clamped into the world bound.
    pub fn do_move(&mut self, forward: i64, right: i64, up: i64)
        requires
            old(self).wf(),
            -MAX_MOVE_MICRO <= forward <= MAX_MOVE_MICRO,
            -MAX_MOVE_MICRO <= right <= MAX_MOVE_MICRO,
            -MAX_MOVE_MICRO <= up <= MAX_MOVE_MICRO,
        ensures
            *final(self) == camera_after_move(*old(self), forward as int, right as int, up as int),
            final(self).wf(),
    {
        let c = cos_fx(self.yaw);
        let s = sin_fx(self.yaw);
        proof {
            lemma_fx_move_term_bounded(c as int, forward as int);
            lemma_fx_move_term_bounded(s as int, right as int);
            lemma_fx_move_term_bounded(s as int, forward as int);
            lemma_fx_move_term_bounded(c as int, right as int);
        }
        let dx = div_unit(c * forward) + div_unit(-(s * right));
        let dz = div_unit(s * forward) + div_unit(c * right);
        self.eye_x = clamp_eye(self.eye_x + dx);
        self.eye_y = clamp_eye(self.eye_y + up);
        self.eye_z = clamp_eye(self.eye_z + dz);
    }
}

proof fn lemma_fx_product_quotient_bounded(a: int, b: int)
    requires
        -FX_UNIT <= a <= FX_UNIT,
        -FX_UNIT <= b <= FX_UNIT,
    ensures
        -(FX_UNIT as int) * FX_UNIT <= a * b <= (FX_UNIT as int) * FX_UNIT,
        -FX_UNIT <= a * b / (FX_UNIT as int) <= FX_UNIT,
{
    let u = FX_UNIT as int;
    assert(-(u * u) <= a * b <= u * u) by (nonlinear_arith)
        requires
            -u <= a <= u,
            -u <= b <= u,
    ;
    vstd::arithmetic::div_mod::lemma_div_is_ordered(-(u * u), a * b, u);
    vstd::arithmetic::div_mod::lemma_div_is_ordered(a * b, u * u, u);
    vstd::arithmetic::div_mod::lemma_div_multiples_vanish(-u, u);
    vstd::arithmetic::div_mod::lemma_div_multiples_vanish(u, u);
}

proof fn lemma_fx_move_term_bounded(factor: int, delta: int)
    requires
        -FX_UNIT <= factor <= FX_UNIT,
        -MAX_MOVE_MICRO <= delta <= MAX_MOVE_MICRO,
    ensures
        -(FX_UNIT as int) * MAX_MOVE_MICRO <= factor * delta <= (FX_UNIT as int) * MAX_MOVE_MICRO,
        -MAX_MOVE_MICRO <= factor * delta / (FX_UNIT as int) <= MAX_MOVE_MICRO,
        -MAX_MOVE_MICRO <= (-(factor * delta)) / (FX_UNIT as int) <= MAX_MOVE_MICRO,
{
    let u = FX_UNIT as int;
    let m = MAX_MOVE_MICRO as int;
    assert(-(u * m) <= factor * delta <= u * m) by (nonlinear_arith)
        requires
            -u <= factor <= u,
            -m <= delta <= m,
    ;
    vstd::arithmetic::div_mod::lemma_div_is_ordered(-(u * m), factor * delta, u);
    vstd::arithmetic::div_mod::lemma_div_is_ordered(factor * delta, u * m, u);
    vstd::arithmetic::div_mod::lemma_div_is_ordered(-(u * m), -(factor * delta), u);
    vstd::arithmetic::div_mod::lemma_div_is_ordered(-(factor * delta), u * m, u);
    vstd::arithmetic::div_mod::lemma_div_multiples_vanish(-m, u);
    vstd::arithmetic::div_mod::lemma_div_multiples_vanish(m, u);
}

fn clamp_eye(v: i64) -> (r: i64)
    ensures
        r == clamp_i(v as int, -EYE_LIMIT_MICRO as int, EYE_LIMIT_MICRO as int),
{
    if v < -EYE_LIMIT_MICRO {
        -EYE_LIMIT_MICRO
    } else if v > EYE_LIMIT_MICRO {
        EYE_LIMIT_MICRO
    } else {
        v
    }
}

/// Pitch stays strictly inside the open interval between the poles in every
/// well-formed camera state, and every camera operation preserves
/// well-formedness: after any sequence of movement and mouse updates,
/// `-pi/2 < pitch < pi/2`.
pub proof fn lemma_pitch_strictly_inside_poles(cam: Camera)
    requires
        cam.wf(),
    ensures
        -crate::fixed::QUARTER_TURN_URAD < cam.pitch < crate::fixed::QUARTER_TURN_URAD,
{
}

} // verus!
