//! The pressed-key snapshot and the input-to-intent translator: a pure
//! function from keys and yaw to a binary forward intent and a heading.
//!
//! Angles are fixed-point radians (1/120000 of a radian per sub-unit).  The
//! right angle is the constant `HALF_PI`, with `PI_FIX` exactly twice and
//! `QUARTER_PI` exactly half of it, so the translator's offsets combine
//! without rounding.

use vstd::prelude::*;

verus! {

/// A quarter turn, in fixed-point radians.
pub const HALF_PI: i64 = 188496;

/// A half turn: exactly `2 * HALF_PI`.
pub const PI_FIX: i64 = 376992;

/// An eighth of a turn: exactly `HALF_PI / 2`.
pub const QUARTER_PI: i64 = 94248;

/// Magnitude bound on yaw values the translator accepts.
pub const YAW_LIMIT: i64 = 1_000_000_000_000_000;

/// The keys this core reads.
#[derive(Clone, Copy, PartialEq, Eq, Structural, Debug)]
pub enum Key {
    Forward,
    Backward,
    Left,
    Right,
    Sprint,
    Jump,
    Descend,
}

/// The pressed-key snapshot, written by the input layer.
#[derive(Clone, Copy, PartialEq, Eq, Structural, Debug)]
pub struct PressedKeys {
    pub forward: bool,
    pub backward: bool,
    pub left: bool,
    pub right: bool,
    pub sprint: bool,
    pub jump: bool,
    pub descend: bool,
}

impl PressedKeys {
    /// No key pressed.
    pub fn none() -> (r: PressedKeys)
        ensures
            r == (PressedKeys {
                forward: false,
                backward: false,
                left: false,
                right: false,
                sprint: false,
                jump: false,
                descend: false,
            }),
    {
        PressedKeys {
            forward: false,
            backward: false,
            left: false,
            right: false,
            sprint: false,
            jump: false,
            descend: false,
        }
    }
}

/// Per-entity movement intent: the flight flag, the one-shot touched-ground
/// latch (set by the resolver, cleared by the presentation layer), and the
/// key snapshot.
#[derive(Clone, Copy, PartialEq, Eq, Structural, Debug)]
pub struct PlayerMovement {
    pub flying: bool,
    pub did_touch_ground: bool,
    pub pressed_keys: PressedKeys,
}

pub open spec fn spec_key_pressed(k: PressedKeys, key: Key) -> bool {
    match key {
        Key::Forward => k.forward,
        Key::Backward => k.backward,
        Key::Left => k.left,
        Key::Right => k.right,
        Key::Sprint => k.sprint,
        Key::Jump => k.jump,
        Key::Descend => k.descend,
    }
}

/// The heading offset the strafe keys contribute: a quarter turn, halved
/// when a forward or backward key already gives motion; the right key wins
/// over the left, as the last assignment does.
pub open spec fn spec_change(k: PressedKeys, f0: int) -> int {
    let c = if k.left { (HALF_PI as int) / (f0 + 1) } else { 0 };
    if k.right {
        -((HALF_PI as int) / (f0 + 1))
    } else {
        c
    }
}

/// The translator: from keys and yaw to `(forward, heading)`.  Forward is 1
/// when any motion key is held.  Backward turns the heading by a half turn
/// and flips the sign of the strafe offset, keeping strafe-left visually
/// left.
pub open spec fn spec_movement(k: PressedKeys, yaw: int) -> (int, int) {
    let f0: int = if k.forward || k.backward { 1 } else { 0 };
    let h0 = yaw - (HALF_PI as int) + (if k.backward { PI_FIX as int } else { 0 });
    let ch = spec_change(k, f0);
    let f1: int = if k.left || k.right { 1 } else { f0 };
    let h1 = if k.backward { h0 - ch } else { h0 + ch };
    (f1, h1)
}

impl PlayerMovement {
    /// Not flying, latch clear, no key pressed.
    pub fn new() -> (r: PlayerMovement)
        ensures
            r == (PlayerMovement {
                flying: false,
                did_touch_ground: false,
                pressed_keys: PressedKeys {
                    forward: false,
                    backward: false,
                    left: false,
                    right: false,
                    sprint: false,
                    jump: false,
                    descend: false,
                },
            }),
    {
        PlayerMovement { flying: false, did_touch_ground: false, pressed_keys: PressedKeys::none() }
    }

    /// Whether `key` is held in this snapshot.
    pub fn is_key_pressed(&self, key: Key) -> (r: bool)
        ensures
            r == spec_key_pressed(self.pressed_keys, key),
    {
        match key {
            Key::Forward => self.pressed_keys.forward,
            Key::Backward => self.pressed_keys.backward,
            Key::Left => self.pressed_keys.left,
            Key::Right => self.pressed_keys.right,
            Key::Sprint => self.pressed_keys.sprint,
            Key::Jump => self.pressed_keys.jump,
            Key::Descend => self.pressed_keys.descend,
        }
    }

    /// The translator, exactly `spec_movement` of the snapshot and yaw.
    pub fn calculate_movement(&self, player_yaw: i64) -> (r: (i64, i64))
        requires
            -YAW_LIMIT <= player_yaw <= YAW_LIMIT,
        ensures
            r.0 as int == spec_movement(self.pressed_keys, player_yaw as int).0,
            r.1 as int == spec_movement(self.pressed_keys, player_yaw as int).1,
            r.0 == 0 || r.0 == 1,
    {
        let mut forward: i64 = 0;
        let mut yaw: i64 = player_yaw - HALF_PI;
        if self.is_key_pressed(Key::Forward) || self.is_key_pressed(Key::Backward) {
            forward = 1;
            if self.is_key_pressed(Key::Backward) {
                yaw = yaw + PI_FIX;
            }
        }
        let mut change: i64 = 0;
        if self.is_key_pressed(Key::Left) {
            change = if forward == 1 { QUARTER_PI } else { HALF_PI };
        }
        if self.is_key_pressed(Key::Right) {
            change = if forward == 1 { -QUARTER_PI } else { -HALF_PI };
        }
        if self.is_key_pressed(Key::Left) || self.is_key_pressed(Key::Right) {
            forward = 1;
        }
        if self.is_key_pressed(Key::Backward) {
            yaw = yaw - change;
        } else {
            yaw = yaw + change;
        }
        proof {
            assert((HALF_PI as int) / 1 == 188496);
            assert((HALF_PI as int) / 2 == 94248);
        }
        (forward, yaw)
    }
}

} // verus!
