//! The controller's laws: properties of every frame, stated over the same
//! spec functions that `move_camera`'s contract uses and proved once and for
//! all.

use vstd::prelude::*;

use crate::controller::{
    active_axes, axis_step, dir_x, dir_y, dir_z, frame_yaw, indicator, moved_coord, yaw_step,
    MAX_DT_MICROSECONDS, MICRO_SCALE, YAW_STEP_MICRORADIANS,
};
use crate::input::InputSnapshot;
use crate::transform::TAU_MICRORADIANS;

verus! {

/// How many of the ten directional keys the snapshot holds down.  The two
/// bracket keys are rotation triggers, not directional keys.
pub open spec fn directional_keys_held(i: InputSnapshot) -> int {
    indicator(i.arrow_left) + indicator(i.arrow_right) + indicator(i.arrow_up) + indicator(
        i.arrow_down,
    ) + indicator(i.key_a) + indicator(i.key_d) + indicator(i.key_w) + indicator(i.key_s)
        + indicator(i.key_z) + indicator(i.key_q)
}

/// With no key held, a frame changes nothing: every coordinate and the yaw
/// come out exactly as they went in, for every elapsed time.
pub proof fn lemma_idle_frame_changes_nothing(
    i: InputSnapshot,
    dt: u64,
    px: int,
    py: int,
    pz: int,
    yaw: int,
)
    requires
        i.no_key_held(),
        0 <= yaw < TAU_MICRORADIANS,
    ensures
        moved_coord(px, dir_x(i), dt, active_axes(i)) == px,
        moved_coord(py, dir_y(i), dt, active_axes(i)) == py,
        moved_coord(pz, dir_z(i), dt, active_axes(i)) == pz,
        frame_yaw(i, dt, yaw) == yaw,
{
    assert(dir_x(i) == 0 && dir_y(i) == 0 && dir_z(i) == 0);
    vstd::arithmetic::mul::lemma_mul_basics(axis_step(dt, active_axes(i)));
}

/// With exactly one directional key held, the direction is a single unit
/// vector, normalisation leaves it as it is, and the position moves by
/// exactly `dt` micro-units along that one axis — one world unit per second.
pub proof fn lemma_single_key_full_speed(i: InputSnapshot, dt: u64, px: int, py: int, pz: int)
    requires
        directional_keys_held(i) == 1,
        dt <= MAX_DT_MICROSECONDS,
    ensures
        active_axes(i) == 1,
        axis_step(dt, active_axes(i)) == dt,
        moved_coord(px, dir_x(i), dt, active_axes(i)) == px + dir_x(i) * dt,
        moved_coord(py, dir_y(i), dt, active_axes(i)) == py + dir_y(i) * dt,
        moved_coord(pz, dir_z(i), dt, active_axes(i)) == pz + dir_z(i) * dt,
{
    vstd::arithmetic::div_mod::lemma_div_multiples_vanish(dt as int, MICRO_SCALE as int);
    vstd::arithmetic::mul::lemma_mul_is_commutative(dt as int, MICRO_SCALE as int);
}

/// Opposite intents on one axis cancel: their contributions sum to zero on
/// that axis.
pub proof fn lemma_opposite_keys_cancel(i: InputSnapshot)
    ensures
        i.wants_left() && i.wants_right() ==> dir_x(i) == 0,
        i.wants_up() && i.wants_down() ==> dir_y(i) == 0,
        i.wants_forward() && i.wants_back() ==> dir_z(i) == 0,
{
}

/// When every axis's two intents agree — both held or both released — the
/// accumulated direction is zero and the position does not move at all.
pub proof fn lemma_balanced_input_no_movement(
    i: InputSnapshot,
    dt: u64,
    px: int,
    py: int,
    pz: int,
)
    requires
        i.wants_left() == i.wants_right(),
        i.wants_up() == i.wants_down(),
        i.wants_forward() == i.wants_back(),
    ensures
        active_axes(i) == 0,
        moved_coord(px, dir_x(i), dt, active_axes(i)) == px,
        moved_coord(py, dir_y(i), dt, active_axes(i)) == py,
        moved_coord(pz, dir_z(i), dt, active_axes(i)) == pz,
{
    assert(dir_x(i) == 0 && dir_y(i) == 0 && dir_z(i) == 0);
    vstd::arithmetic::mul::lemma_mul_basics(axis_step(dt, active_axes(i)));
}

/// The yaw step is a fixed 0.001 radians (1000 micro-radians) per frame:
/// the elapsed time plays no part in it, so rotation speed depends on the
/// frame rate, unlike the position update.
pub proof fn lemma_yaw_step_is_per_frame(i: InputSnapshot, dt_a: u64, dt_b: u64, yaw: int)
    ensures
        frame_yaw(i, dt_a, yaw) == frame_yaw(i, dt_b, yaw),
        i.wants_yaw_pos() ==> yaw_step(i) == YAW_STEP_MICRORADIANS,
        !i.wants_yaw_pos() && i.wants_yaw_neg() ==> yaw_step(i) == -YAW_STEP_MICRORADIANS,
        !i.wants_yaw_pos() && !i.wants_yaw_neg() ==> yaw_step(i) == 0,
{
}

/// The key-mapping defect, exactly as coded: the arrow-down key alone also
/// raises both z-axis intents (which cancel, so z never moves through it)
/// and both yaw intents (the positive one wins, since it is applied last).
pub proof fn lemma_arrow_down_gates_z_and_yaw(i: InputSnapshot)
    requires
        i.arrow_down,
    ensures
        i.wants_down(),
        i.wants_forward(),
        i.wants_back(),
        i.wants_yaw_neg(),
        i.wants_yaw_pos(),
        dir_z(i) == 0,
        yaw_step(i) == YAW_STEP_MICRORADIANS,
{
}

/// The other side of the defect: the key mapping is a disjunction, not a
/// conjunction, so the z-axis keys work without the arrow-down key.
pub proof fn lemma_z_keys_need_no_arrow_down(i: InputSnapshot)
    requires
        !i.arrow_down,
    ensures
        dir_z(i) == indicator(i.key_z) - indicator(i.key_q),
        yaw_step(i) == (if i.bracket_right {
            YAW_STEP_MICRORADIANS as int
        } else if i.bracket_left {
            -YAW_STEP_MICRORADIANS as int
        } else {
            0int
        }),
{
}

} // verus!
