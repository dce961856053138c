use camera_controller::controller::{move_camera, MAX_DT_MICROSECONDS};
use camera_controller::input::InputSnapshot;
use camera_controller::scene::initial_camera;
use camera_controller::transform::{Transform, Vec3Micro, TAU_MICRORADIANS};

fn no_keys() -> InputSnapshot {
    InputSnapshot::released()
}

#[test]
fn idle_input_leaves_transform_unchanged() {
    let mut t = initial_camera();
    let before = t;
    move_camera(&no_keys(), 123_456, &mut t);
    assert_eq!(t, before);
}

#[test]
fn idle_input_unchanged_for_zero_dt() {
    let mut t = initial_camera();
    let before = t;
    move_camera(&no_keys(), 0, &mut t);
    assert_eq!(t, before);
}

#[test]
fn single_key_w_moves_up_by_dt() {
    let mut t = initial_camera();
    let mut i = no_keys();
    i.key_w = true;
    move_camera(&i, 250_000, &mut t);
    assert_eq!(t.position, Vec3Micro { x: -2_500_000, y: 3_250_000, z: 5_000_000 });
    assert_eq!(t.yaw_microradians, 0);
}

#[test]
fn single_key_arrow_up_moves_up_by_dt() {
    let mut t = initial_camera();
    let mut i = no_keys();
    i.arrow_up = true;
    move_camera(&i, 250_000, &mut t);
    assert_eq!(t.position.y, 3_250_000);
}

#[test]
fn single_key_arrow_left_moves_negative_x() {
    let mut t = initial_camera();
    let mut i = no_keys();
    i.arrow_left = true;
    move_camera(&i, 40_000, &mut t);
    assert_eq!(t.position, Vec3Micro { x: -2_540_000, y: 3_000_000, z: 5_000_000 });
}

#[test]
fn single_key_d_moves_positive_x() {
    let mut t = initial_camera();
    let mut i = no_keys();
    i.key_d = true;
    move_camera(&i, 40_000, &mut t);
    assert_eq!(t.position.x, -2_460_000);
}

#[test]
fn single_key_s_moves_negative_y() {
    let mut t = initial_camera();
    let mut i = no_keys();
    i.key_s = true;
    move_camera(&i, 1_000_000, &mut t);
    assert_eq!(t.position.y, 2_000_000);
    assert_eq!(t.yaw_microradians, 0);
}

#[test]
fn single_key_z_moves_positive_z_without_arrow_down() {
    let mut t = initial_camera();
    let mut i = no_keys();
    i.key_z = true;
    move_camera(&i, 500_000, &mut t);
    assert_eq!(t.position, Vec3Micro { x: -2_500_000, y: 3_000_000, z: 5_500_000 });
    assert_eq!(t.yaw_microradians, 0);
}

#[test]
fn single_key_q_moves_negative_z_without_arrow_down() {
    let mut t = initial_camera();
    let mut i = no_keys();
    i.key_q = true;
    move_camera(&i, 500_000, &mut t);
    assert_eq!(t.position.z, 4_500_000);
    assert_eq!(t.yaw_microradians, 0);
}

#[test]
fn single_key_at_largest_dt_moves_exactly_dt() {
    let mut t = Transform { position: Vec3Micro { x: 0, y: 0, z: 0 }, yaw_microradians: 0 };
    let mut i = no_keys();
    i.key_d = true;
    move_camera(&i, MAX_DT_MICROSECONDS, &mut t);
    assert_eq!(t.position.x, 9_000_000_000_000);
}

#[test]
fn opposite_keys_cancel_to_no_movement() {
    let mut t = initial_camera();
    let before = t;
    let mut i = no_keys();
    i.arrow_left = true;
    i.arrow_right = true;
    move_camera(&i, 777_777, &mut t);
    assert_eq!(t, before);
}

#[test]
fn opposite_keys_cancel_across_mappings() {
    let mut t = initial_camera();
    let before = t;
    let mut i = no_keys();
    i.key_a = true;
    i.arrow_right = true;
    move_camera(&i, 777_777, &mut t);
    assert_eq!(t, before);
}

#[test]
fn two_axes_move_at_inverse_sqrt_two() {
    let mut t = initial_camera();
    let mut i = no_keys();
    i.key_w = true;
    i.key_d = true;
    move_camera(&i, 1_000_000, &mut t);
    assert_eq!(t.position, Vec3Micro { x: -2_500_000 + 707_107, y: 3_707_107, z: 5_000_000 });
}

#[test]
fn two_axes_step_truncates() {
    let mut t = Transform { position: Vec3Micro { x: 0, y: 0, z: 0 }, yaw_microradians: 0 };
    let mut i = no_keys();
    i.key_w = true;
    i.key_d = true;
    // 999 * 707_107 / 1_000_000 truncates to 706.
    move_camera(&i, 999, &mut t);
    assert_eq!(t.position, Vec3Micro { x: 706, y: 706, z: 0 });
}

#[test]
fn three_axes_move_at_inverse_sqrt_three() {
    let mut t = Transform { position: Vec3Micro { x: 0, y: 0, z: 0 }, yaw_microradians: 0 };
    let mut i = no_keys();
    i.key_w = true;
    i.key_d = true;
    i.key_z = true;
    move_camera(&i, 1_000_000, &mut t);
    assert_eq!(t.position, Vec3Micro { x: 577_350, y: 577_350, z: 577_350 });
}

#[test]
fn yaw_step_is_fixed_regardless_of_dt() {
    let mut i = no_keys();
    i.bracket_right = true;

    let mut t_small = initial_camera();
    move_camera(&i, 1, &mut t_small);
    let mut t_large = initial_camera();
    move_camera(&i, 5_000_000, &mut t_large);

    assert_eq!(t_small.yaw_microradians, 1_000);
    assert_eq!(t_large.yaw_microradians, 1_000);
    // The rotation keys do not move the position.
    assert_eq!(t_small.position, initial_camera().position);
    assert_eq!(t_large.position, initial_camera().position);
}

#[test]
fn yaw_step_applies_even_for_zero_dt() {
    let mut t = initial_camera();
    let mut i = no_keys();
    i.bracket_right = true;
    move_camera(&i, 0, &mut t);
    assert_eq!(t.yaw_microradians, 1_000);
}

#[test]
fn negative_yaw_wraps_below_zero() {
    let mut t = initial_camera();
    let mut i = no_keys();
    i.bracket_left = true;
    move_camera(&i, 16_000, &mut t);
    assert_eq!(t.yaw_microradians, TAU_MICRORADIANS - 1_000);
}

#[test]
fn positive_yaw_wraps_at_full_turn() {
    let mut t = Transform {
        position: Vec3Micro { x: 0, y: 0, z: 0 },
        yaw_microradians: TAU_MICRORADIANS - 185,
    };
    let mut i = no_keys();
    i.bracket_right = true;
    move_camera(&i, 16_000, &mut t);
    assert_eq!(t.yaw_microradians, 815);
}

#[test]
fn both_brackets_yaw_positive() {
    let mut t = initial_camera();
    let mut i = no_keys();
    i.bracket_left = true;
    i.bracket_right = true;
    move_camera(&i, 16_000, &mut t);
    assert_eq!(t.yaw_microradians, 1_000);
}

#[test]
fn arrow_down_alone_drives_y_z_and_yaw_as_mapped() {
    // The documented key-mapping defect: arrow-down also raises both z
    // intents (which cancel) and both yaw intents (the positive one wins).
    let mut t = initial_camera();
    let mut i = no_keys();
    i.arrow_down = true;
    move_camera(&i, 1_000_000, &mut t);
    assert_eq!(t.position, Vec3Micro { x: -2_500_000, y: 2_000_000, z: 5_000_000 });
    assert_eq!(t.yaw_microradians, 1_000);
}

#[test]
fn arrow_down_with_bracket_left_still_yaws_positive() {
    let mut t = initial_camera();
    let mut i = no_keys();
    i.arrow_down = true;
    i.bracket_left = true;
    move_camera(&i, 0, &mut t);
    assert_eq!(t.yaw_microradians, 1_000);
}

#[test]
fn arrow_down_and_z_key_cancel_on_z() {
    // key_z asks for positive z, but arrow-down raises the negative-z
    // intent as well, so the axis still cancels.
    let mut t = initial_camera();
    let mut i = no_keys();
    i.arrow_down = true;
    i.key_z = true;
    move_camera(&i, 1_000_000, &mut t);
    assert_eq!(t.position.z, 5_000_000);
    assert_eq!(t.position.y, 2_000_000);
}

#[test]
fn held_key_with_zero_dt_does_not_move() {
    let mut t = initial_camera();
    let before = t.position;
    let mut i = no_keys();
    i.key_w = true;
    move_camera(&i, 0, &mut t);
    assert_eq!(t.position, before);
}
