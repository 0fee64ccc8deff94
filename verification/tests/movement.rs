use voxel_physics::input::{Key, PlayerMovement, PressedKeys, HALF_PI, PI_FIX, QUARTER_PI};

fn movement_with(keys: PressedKeys) -> PlayerMovement {
    PlayerMovement { flying: false, did_touch_ground: false, pressed_keys: keys }
}

fn keys() -> PressedKeys {
    PressedKeys::none()
}

#[test]
fn idle_gives_no_forward_intent() {
    let m = movement_with(keys());
    let (f, h) = m.calculate_movement(0);
    assert_eq!(f, 0);
    assert_eq!(h, -HALF_PI);
}

#[test]
fn forward_key_gives_forward_heading() {
    let mut k = keys();
    k.forward = true;
    let (f, h) = movement_with(k).calculate_movement(0);
    assert_eq!(f, 1);
    assert_eq!(h, -HALF_PI);
}

#[test]
fn backward_key_turns_half_a_turn() {
    let mut k = keys();
    k.backward = true;
    let (f, h) = movement_with(k).calculate_movement(0);
    assert_eq!(f, 1);
    assert_eq!(h, -HALF_PI + PI_FIX);
}

#[test]
fn both_forward_and_backward_backward_wins() {
    let mut k = keys();
    k.forward = true;
    k.backward = true;
    let (f, h) = movement_with(k).calculate_movement(0);
    assert_eq!(f, 1);
    assert_eq!(h, -HALF_PI + PI_FIX);
}

#[test]
fn strafe_left_alone_turns_a_quarter() {
    let mut k = keys();
    k.left = true;
    let (f, h) = movement_with(k).calculate_movement(0);
    assert_eq!(f, 1);
    assert_eq!(h, -HALF_PI + HALF_PI);
}

#[test]
fn strafe_right_alone_turns_a_quarter_the_other_way() {
    let mut k = keys();
    k.right = true;
    let (f, h) = movement_with(k).calculate_movement(0);
    assert_eq!(f, 1);
    assert_eq!(h, -HALF_PI - HALF_PI);
}

#[test]
fn strafe_while_forward_turns_an_eighth() {
    let mut k = keys();
    k.forward = true;
    k.left = true;
    let (f, h) = movement_with(k).calculate_movement(0);
    assert_eq!(f, 1);
    assert_eq!(h, -HALF_PI + QUARTER_PI);
}

#[test]
fn strafe_while_backward_flips_the_offset_sign() {
    // Backward subtracts the strafe offset, keeping strafe-left
    // visually left whatever the facing direction.
    let mut k = keys();
    k.backward = true;
    k.left = true;
    let (f, h) = movement_with(k).calculate_movement(0);
    assert_eq!(f, 1);
    assert_eq!(h, -HALF_PI + PI_FIX - QUARTER_PI);
}

#[test]
fn both_strafe_keys_right_wins() {
    let mut k = keys();
    k.left = true;
    k.right = true;
    let (f, h) = movement_with(k).calculate_movement(0);
    assert_eq!(f, 1);
    assert_eq!(h, -HALF_PI - HALF_PI);
}

#[test]
fn heading_follows_yaw() {
    let mut k = keys();
    k.forward = true;
    let (_, h) = movement_with(k).calculate_movement(777_000);
    assert_eq!(h, 777_000 - HALF_PI);
}

#[test]
fn translator_is_reproducible() {
    let mut k = keys();
    k.forward = true;
    k.right = true;
    let m = movement_with(k);
    assert_eq!(m.calculate_movement(12345), m.calculate_movement(12345));
}

#[test]
fn key_query_reads_the_snapshot() {
    let mut k = keys();
    k.sprint = true;
    k.jump = true;
    let m = movement_with(k);
    assert!(m.is_key_pressed(Key::Sprint));
    assert!(m.is_key_pressed(Key::Jump));
    assert!(!m.is_key_pressed(Key::Forward));
    assert!(!m.is_key_pressed(Key::Descend));
}
