//! The per-frame camera update: translate the position from the held
//! directional keys and the elapsed time, and turn the yaw by a fixed step
//! when a rotation intent is active.

use vstd::prelude::*;

use crate::input::InputSnapshot;
use crate::transform::{Transform, Vec3Micro, TAU_MICRORADIANS};

verus! {

/// Micro-units (or micro-radians, or microseconds) per whole unit.
pub const MICRO_SCALE: u64 = 1_000_000;

/// The largest elapsed time, in microseconds, that one frame may report.
/// The bound only keeps the fixed-point products inside `u64`; it is over a
/// hundred days, far beyond any real frame.
pub const MAX_DT_MICROSECONDS: u64 = 9_000_000_000_000;

/// The reciprocal square root of 2, scaled by `MICRO_SCALE` and rounded to
/// the nearest integer: the per-axis speed when two axes are active.
pub const INV_SQRT_2_MICRO: u64 = 707_107;

/// The reciprocal square root of 3, scaled by `MICRO_SCALE` and rounded to
/// the nearest integer: the per-axis speed when all three axes are active.
pub const INV_SQRT_3_MICRO: u64 = 577_350;

/// The fixed yaw step per frame, in micro-radians (0.001 radians).  It is
/// deliberately not scaled by the elapsed time: rotation advances per frame,
/// not per second.
pub const YAW_STEP_MICRORADIANS: i64 = 1_000;

/// The signed unit contribution of the held keys along the x axis.
pub open spec fn dir_x(i: InputSnapshot) -> int {
    indicator(i.wants_right()) - indicator(i.wants_left())
}

/// The signed unit contribution of the held keys along the y axis.
pub open spec fn dir_y(i: InputSnapshot) -> int {
    indicator(i.wants_up()) - indicator(i.wants_down())
}

/// The signed unit contribution of the held keys along the z axis.
pub open spec fn dir_z(i: InputSnapshot) -> int {
    indicator(i.wants_forward()) - indicator(i.wants_back())
}

/// 1 for a true condition, 0 for a false one.
pub open spec fn indicator(b: bool) -> int {
    if b {
        1
    } else {
        0
    }
}

/// How many axes the accumulated direction is active on.
pub open spec fn active_axes(i: InputSnapshot) -> int {
    indicator(dir_x(i) != 0) + indicator(dir_y(i) != 0) + indicator(dir_z(i) != 0)
}

/// The per-axis speed for a direction active on `axes` axes, scaled by
/// `MICRO_SCALE`: normalising the accumulated direction divides each unit
/// contribution by the square root of the number of active axes.
pub open spec fn inv_sqrt_micro(axes: int) -> int {
    if axes == 2 {
        INV_SQRT_2_MICRO as int
    } else if axes == 3 {
        INV_SQRT_3_MICRO as int
    } else {
        MICRO_SCALE as int
    }
}

/// How far, in micro-units, a frame of `dt` microseconds carries the
/// position along each active axis.  The division truncates.
pub open spec fn axis_step(dt: u64, axes: int) -> int {
    (dt * inv_sqrt_micro(axes)) / (MICRO_SCALE as int)
}

/// One coordinate after a frame: the old coordinate plus its signed unit
/// contribution times the per-axis step.
pub open spec fn moved_coord(p: int, c: int, dt: u64, axes: int) -> int {
    p + c * axis_step(dt, axes)
}

/// The yaw step that the held keys select, in micro-radians.  When both
/// intents are active the positive one wins, because it is applied second.
pub open spec fn yaw_step(i: InputSnapshot) -> int {
    if i.wants_yaw_pos() {
        YAW_STEP_MICRORADIANS as int
    } else if i.wants_yaw_neg() {
        -(YAW_STEP_MICRORADIANS as int)
    } else {
        0
    }
}

/// Wraps a yaw that drifted at most one step outside `[0, TAU)` back into
/// the range.
pub open spec fn wrap_turn(y: int) -> int {
    if y < 0 {
        y + TAU_MICRORADIANS
    } else if y >= TAU_MICRORADIANS {
        y - TAU_MICRORADIANS
    } else {
        y
    }
}

/// The yaw after one frame.  The elapsed time is a parameter only to record
/// that it plays no part: the step is per frame.
pub open spec fn frame_yaw(i: InputSnapshot, dt: u64, y: int) -> int {
    wrap_turn(y + yaw_step(i))
}

/// The accumulated unit direction of the held keys, one signed unit
/// contribution per axis.
#[derive(Clone, Copy, Debug, PartialEq, Eq, Structural)]
pub struct Direction {
    pub x: i64,
    pub y: i64,
    pub z: i64,
}

/// Accumulates the signed unit contributions of the held keys, axis by
/// axis.  Opposite intents on the same axis cancel to zero.
pub fn direction_for(input: &InputSnapshot) -> (d: Direction)
    ensures
        d.x == dir_x(*input),
        d.y == dir_y(*input),
        d.z == dir_z(*input),
        -1 <= d.x <= 1,
        -1 <= d.y <= 1,
        -1 <= d.z <= 1,
{
    let mut x: i64 = 0;
    let mut y: i64 = 0;
    let mut z: i64 = 0;
    if input.arrow_left || input.key_a {
        x = x - 1;
    }
    if input.arrow_right || input.key_d {
        x = x + 1;
    }
    if input.arrow_up || input.key_w {
        y = y + 1;
    }
    if input.arrow_down || input.key_s {
        y = y - 1;
    }
    if input.arrow_down || input.key_z {
        z = z + 1;
    }
    if input.arrow_down || input.key_q {
        z = z - 1;
    }
    Direction { x, y, z }
}

/// The yaw step, in micro-radians, that the held keys select this frame.
pub fn yaw_step_for(input: &InputSnapshot) -> (step: i64)
    ensures
        step == yaw_step(*input),
{
    let mut step: i64 = 0;
    if input.arrow_down || input.bracket_left {
        step = -YAW_STEP_MICRORADIANS;
    }
    if input.arrow_down || input.bracket_right {
        step = YAW_STEP_MICRORADIANS;
    }
    step
}

/// The per-axis displacement of one frame, in micro-units, for a direction
/// active on `axes` axes.
fn scaled_axis_step(dt_microseconds: u64, axes: u64) -> (step: u64)
    requires
        dt_microseconds <= MAX_DT_MICROSECONDS,
    ensures
        step == axis_step(dt_microseconds, axes as int),
        step <= dt_microseconds,
{
    let inv: u64 = if axes == 2 {
        INV_SQRT_2_MICRO
    } else if axes == 3 {
        INV_SQRT_3_MICRO
    } else {
        MICRO_SCALE
    };
    assert(dt_microseconds * inv <= MAX_DT_MICROSECONDS * MICRO_SCALE) by (nonlinear_arith)
        requires
            dt_microseconds <= MAX_DT_MICROSECONDS,
            inv <= MICRO_SCALE,
    ;
    let step = (dt_microseconds * inv) / MICRO_SCALE;
    proof {
        vstd::arithmetic::mul::lemma_mul_inequality(
            inv as int,
            MICRO_SCALE as int,
            dt_microseconds as int,
        );
        vstd::arithmetic::mul::lemma_mul_is_commutative(dt_microseconds as int, inv as int);
        vstd::arithmetic::mul::lemma_mul_is_commutative(dt_microseconds as int, MICRO_SCALE as int);
        vstd::arithmetic::div_mod::lemma_div_is_ordered(
            dt_microseconds * inv,
            dt_microseconds * (MICRO_SCALE as int),
            MICRO_SCALE as int,
        );
        vstd::arithmetic::div_mod::lemma_div_multiples_vanish(
            dt_microseconds as int,
            MICRO_SCALE as int,
        );
    }
    step
}

/// One frame of the camera controller.
///
/// Reads the snapshot of held keys and the elapsed time, and updates the
/// transform in place: the position moves by exactly `axis_step` micro-units
/// along each active axis (one world unit per second overall, the direction
/// being normalised), and the yaw turns by a fixed step per frame whenever a
/// rotation intent is active.  Nothing else changes, and no state outlives
/// the call.
pub fn move_camera(input: &InputSnapshot, dt_microseconds: u64, t: &mut Transform)
    requires
        dt_microseconds <= MAX_DT_MICROSECONDS,
        old(t).wf(),
        i64::MIN + dt_microseconds <= old(t).position.x,
        old(t).position.x + dt_microseconds <= i64::MAX,
        i64::MIN + dt_microseconds <= old(t).position.y,
        old(t).position.y + dt_microseconds <= i64::MAX,
        i64::MIN + dt_microseconds <= old(t).position.z,
        old(t).position.z + dt_microseconds <= i64::MAX,
    ensures
        final(t).wf(),
        final(t).position.x == moved_coord(
            old(t).position.x as int,
            dir_x(*input),
            dt_microseconds,
            active_axes(*input),
        ),
        final(t).position.y == moved_coord(
            old(t).position.y as int,
            dir_y(*input),
            dt_microseconds,
            active_axes(*input),
        ),
        final(t).position.z == moved_coord(
            old(t).position.z as int,
            dir_z(*input),
            dt_microseconds,
            active_axes(*input),
        ),
        final(t).yaw_microradians == frame_yaw(
            *input,
            dt_microseconds,
            old(t).yaw_microradians as int,
        ),
{
    let d = direction_for(input);
    let mut axes: u64 = 0;
    if d.x != 0 {
        axes = axes + 1;
    }
    if d.y != 0 {
        axes = axes + 1;
    }
    if d.z != 0 {
        axes = axes + 1;
    }
    let step = scaled_axis_step(dt_microseconds, axes);
    let s = step as i64;

    let mut px = t.position.x;
    let mut py = t.position.y;
    let mut pz = t.position.z;
    if d.x == 1 {
        px = px + s;
    } else if d.x == -1 {
        px = px - s;
    }
    if d.y == 1 {
        py = py + s;
    } else if d.y == -1 {
        py = py - s;
    }
    if d.z == 1 {
        pz = pz + s;
    } else if d.z == -1 {
        pz = pz - s;
    }

    let yaw_delta = yaw_step_for(input);
    let turned = t.yaw_microradians + yaw_delta;
    let yaw = if turned < 0 {
        turned + TAU_MICRORADIANS
    } else if turned >= TAU_MICRORADIANS {
        turned - TAU_MICRORADIANS
    } else {
        turned
    };

    *t = Transform { position: Vec3Micro { x: px, y: py, z: pz }, yaw_microradians: yaw };
}

} // verus!
