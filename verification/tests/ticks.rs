use voxel_physics::fixed::{SCALE, TERMINAL_VEL};
use voxel_physics::geom::{Aabb, Vec3};
use voxel_physics::player::{create_local, MovementHandler, Trig};
use voxel_physics::world::{Block, ChunkPos, PlacedBlock, World};

const EAST: Trig = Trig { cos: SCALE, sin: 0 };

fn world_with(blocks: Vec<PlacedBlock>) -> World {
    World { blocks, loaded_chunks: vec![ChunkPos { x: 0, z: 0 }, ChunkPos { x: 0, z: -1 }] }
}

fn cube() -> Block {
    Block {
        boxes: vec![Aabb {
            min: Vec3 { x: 0, y: 0, z: 0 },
            max: Vec3 { x: SCALE, y: SCALE, z: SCALE },
        }],
    }
}

fn slab(height: i64) -> Block {
    Block {
        boxes: vec![Aabb {
            min: Vec3 { x: 0, y: 0, z: 0 },
            max: Vec3 { x: SCALE, y: height, z: SCALE },
        }],
    }
}

fn placed(x: i32, y: i32, z: i32, b: Block) -> PlacedBlock {
    PlacedBlock { x, y, z, block: b }
}

#[test]
fn end_to_end_free_fall_tick() {
    // Entity at (0, 10, 0), at rest, not flying, chunk loaded, no blocks
    // in range, delta of one tick unit: the tick leaves vertical velocity
    // at -0.01 and the height lower by 0.01, still airborne.
    let w = world_with(vec![]);
    let mut e = create_local();
    e.position.position.y = 10 * SCALE;
    e.position.last_position.y = 10 * SCALE;
    let h = MovementHandler::new();
    h.update(&w, &mut e, SCALE, EAST);
    assert_eq!(e.velocity.velocity.y, -1200);
    assert_eq!(e.position.position.y, 10 * SCALE - 1200);
    assert_eq!(e.gravity.unwrap().on_ground, false);
    assert!(e.position.moved);
    assert_eq!(e.position.position.x, 0);
    assert_eq!(e.position.position.z, 0);
}

#[test]
fn terminal_velocity_is_reached_and_held() {
    let w = world_with(vec![]);
    let mut e = create_local();
    e.position.position.y = 3000 * SCALE;
    e.position.last_position.y = 3000 * SCALE;
    let h = MovementHandler::new();
    for _ in 0..40 {
        h.update(&w, &mut e, SCALE, EAST);
        assert!(e.velocity.velocity.y >= -TERMINAL_VEL);
    }
    assert_eq!(e.velocity.velocity.y, -TERMINAL_VEL);
    h.update(&w, &mut e, SCALE, EAST);
    assert_eq!(e.velocity.velocity.y, -TERMINAL_VEL);
}

#[test]
fn jump_sets_the_jump_impulse() {
    let w = world_with(vec![]);
    let mut e = create_local();
    e.gravity = Some(voxel_physics::player::Gravity { on_ground: true });
    e.movement.pressed_keys.jump = true;
    let h = MovementHandler::new();
    h.update(&w, &mut e, SCALE, EAST);
    // The impulse is applied and integrated within the same tick.
    assert_eq!(e.velocity.velocity.y, 18000);
    assert_eq!(e.position.position.y, 18000);
}

#[test]
fn grounded_without_jump_rests() {
    let w = world_with(vec![]);
    let mut e = create_local();
    e.gravity = Some(voxel_physics::player::Gravity { on_ground: true });
    e.velocity.velocity.y = 7777;
    let h = MovementHandler::new();
    h.update(&w, &mut e, SCALE, EAST);
    assert_eq!(e.velocity.velocity.y, 0);
    assert_eq!(e.position.position.y, 0);
}

#[test]
fn walking_speed_is_exact() {
    let w = world_with(vec![]);
    let mut e = create_local();
    e.movement.flying = true;
    e.movement.pressed_keys.forward = true;
    let h = MovementHandler::new();
    h.update(&w, &mut e, SCALE, EAST);
    // Flying walk speed: 4.317/60 * 2.5 units per tick unit.
    assert_eq!(e.position.position.x, 21585);
    assert_eq!(e.position.position.z, 0);
    assert_eq!(e.position.position.y, 0);
}

#[test]
fn sprint_speed_is_exact() {
    let w = world_with(vec![]);
    let mut e = create_local();
    e.movement.flying = true;
    e.movement.pressed_keys.forward = true;
    e.movement.pressed_keys.sprint = true;
    let h = MovementHandler::new();
    h.update(&w, &mut e, SCALE, EAST);
    assert_eq!(e.position.position.x, 28060);
}

#[test]
fn grounded_walk_speed_is_exact() {
    let w = world_with(vec![]);
    let mut e = create_local();
    e.gravity = Some(voxel_physics::player::Gravity { on_ground: true });
    e.movement.pressed_keys.forward = true;
    let h = MovementHandler::new();
    h.update(&w, &mut e, SCALE, EAST);
    assert_eq!(e.position.position.x, 8634);
}

#[test]
fn flying_vertical_keys_move_directly() {
    let w = world_with(vec![]);
    let mut e = create_local();
    e.movement.flying = true;
    e.movement.pressed_keys.jump = true;
    let h = MovementHandler::new();
    h.update(&w, &mut e, SCALE, EAST);
    assert_eq!(e.position.position.y, 21585);
    assert_eq!(e.velocity.velocity.y, 0);

    let mut d = create_local();
    d.movement.flying = true;
    d.movement.pressed_keys.descend = true;
    d.position.position.y = 10 * SCALE;
    d.position.last_position.y = 10 * SCALE;
    h.update(&w, &mut d, SCALE, EAST);
    assert_eq!(d.position.position.y, 10 * SCALE - 21585);
}

#[test]
fn ground_latch_sets_on_fresh_contact_only() {
    // A full cube under the entity's feet: the entity starts exactly on
    // its top face, airborne; one tick of gravity sinks it into the
    // floor, the resolver pushes it back out to the epsilon gap, and the
    // fresh contact sets the one-shot latch.
    let w = world_with(vec![placed(0, 0, 0, cube()), placed(-1, 0, 0, cube()),
        placed(0, 0, -1, cube()), placed(-1, 0, -1, cube())]);
    let mut e = create_local();
    e.position.position.y = SCALE;
    e.position.last_position.y = SCALE;
    let h = MovementHandler::new();
    h.update(&w, &mut e, SCALE, EAST);
    assert_eq!(e.gravity.unwrap().on_ground, true);
    assert_eq!(e.movement.did_touch_ground, true);
    assert_eq!(e.velocity.velocity.y, 0);
    assert_eq!(e.position.position.y, SCALE + 12);

    // Already on the ground: the latch is not set again.
    e.movement.did_touch_ground = false;
    h.update(&w, &mut e, SCALE, EAST);
    assert_eq!(e.gravity.unwrap().on_ground, true);
    assert_eq!(e.movement.did_touch_ground, false);
}

#[test]
fn ground_latch_stays_clear_while_airborne() {
    let w = world_with(vec![]);
    let mut e = create_local();
    e.position.position.y = 100 * SCALE;
    e.position.last_position.y = 100 * SCALE;
    let h = MovementHandler::new();
    h.update(&w, &mut e, SCALE, EAST);
    assert_eq!(e.gravity.unwrap().on_ground, false);
    assert_eq!(e.movement.did_touch_ground, false);
}

#[test]
fn flight_and_gravity_are_exclusive_after_sync() {
    let w = world_with(vec![]);
    let h = MovementHandler::new();

    // Flying with the ground-contact state present: the state is removed.
    let mut e = create_local();
    e.movement.flying = true;
    h.update(&w, &mut e, SCALE, EAST);
    assert!(e.gravity.is_none());
    assert!(e.movement.flying);

    // Not flying with the state absent: the state is added.
    let mut d = create_local();
    d.gravity = None;
    h.update(&w, &mut d, SCALE, EAST);
    assert!(d.gravity.is_some());
    assert!(!d.movement.flying);
}

#[test]
fn frozen_chunk_keeps_the_position() {
    // No loaded chunks: motion is skipped entirely, even with input and a
    // nonzero delta, and the resolver finds nothing to clamp against.
    let w = World { blocks: vec![], loaded_chunks: vec![] };
    let mut e = create_local();
    e.position.position = Vec3 { x: 5000, y: 777, z: -3000 };
    e.position.last_position = Vec3 { x: 5000, y: 777, z: -3000 };
    e.movement.pressed_keys.forward = true;
    e.movement.pressed_keys.jump = true;
    let h = MovementHandler::new();
    h.update(&w, &mut e, 10 * SCALE, EAST);
    assert_eq!(e.position.position, Vec3 { x: 5000, y: 777, z: -3000 });
    assert_eq!(e.velocity.velocity.y, 0);
    assert!(!e.position.moved);
}

#[test]
fn sliding_along_a_wall() {
    // A wall one block east: moving diagonally (+x and +z), the x motion
    // is clamped to the epsilon gap while the z motion completes.
    let w = world_with(vec![placed(1, 0, 0, cube()), placed(1, 0, -1, cube()),
        placed(1, 1, 0, cube()), placed(1, 1, -1, cube())]);
    let mut e = create_local();
    e.movement.flying = true;
    e.movement.pressed_keys.forward = true;
    e.position.position.x = 80000;
    e.position.last_position.x = 80000;
    let h = MovementHandler::new();
    // Heading trig for a diagonal: cosine 1, sine -1 (scaled).
    h.update(&w, &mut e, SCALE, Trig { cos: SCALE, sin: -SCALE });
    // Tentative x would be 80000 + 21585; the wall face is at 120000.
    assert_eq!(e.position.position.x, 120000 - 12 - 36000);
    assert_ne!(e.position.position.x, 80000 + 21585);
    // The z motion tracks the tentative value.
    assert_eq!(e.position.position.z, 21585);
    assert_eq!(e.position.position.y, 0);
}

#[test]
fn step_up_climbs_a_low_obstruction() {
    // A slab 2/16 of a unit tall, one block east: a grounded entity
    // walking into it ends the tick raised by exactly 2/16 with the
    // tentative horizontal motion restored.
    let w = world_with(vec![placed(1, 0, 0, slab(15000)), placed(1, 0, -1, slab(15000))]);
    let mut e = create_local();
    e.gravity = Some(voxel_physics::player::Gravity { on_ground: true });
    e.movement.pressed_keys.forward = true;
    e.position.position.x = 80000;
    e.position.last_position.x = 80000;
    let h = MovementHandler::new();
    h.update(&w, &mut e, SCALE, EAST);
    assert_eq!(e.position.position.x, 80000 + 8634);
    assert_eq!(e.position.position.y, 15000);
    assert_eq!(e.position.position.z, 0);
    assert_eq!(e.gravity.unwrap().on_ground, true);
}

#[test]
fn step_up_gives_up_on_a_tall_obstruction() {
    // A full cube is taller than the 8/16 the climb scans: the entity
    // stays blocked at the epsilon gap with its height unchanged.
    let w = world_with(vec![placed(1, 0, 0, cube()), placed(1, 0, -1, cube())]);
    let mut e = create_local();
    e.gravity = Some(voxel_physics::player::Gravity { on_ground: true });
    e.movement.pressed_keys.forward = true;
    e.position.position.x = 80000;
    e.position.last_position.x = 80000;
    let h = MovementHandler::new();
    h.update(&w, &mut e, SCALE, EAST);
    assert_eq!(e.position.position.x, 120000 - 12 - 36000);
    assert_eq!(e.position.position.y, 0);
}

#[test]
fn noclip_accepts_the_tentative_position() {
    // Under no-clip the resolver is skipped: the entity passes into the
    // wall that blocks it in the sliding scenario.
    let w = world_with(vec![placed(1, 0, 0, cube()), placed(1, 0, -1, cube())]);
    let mut e = create_local();
    e.gamemode.noclip = true;
    e.movement.flying = true;
    e.movement.pressed_keys.forward = true;
    e.position.position.x = 110000;
    e.position.last_position.x = 110000;
    let h = MovementHandler::new();
    h.update(&w, &mut e, SCALE, EAST);
    assert_eq!(e.position.position.x, 110000 + 21585);
}

#[test]
fn ceiling_hit_zeroes_vertical_velocity() {
    // A cube overhead: a jump into it is clamped and the vertical
    // velocity is zeroed by the vertical hit.
    let w = world_with(vec![placed(0, 2, 0, cube()), placed(-1, 2, 0, cube()),
        placed(0, 2, -1, cube()), placed(-1, 2, -1, cube())]);
    let mut e = create_local();
    e.gravity = Some(voxel_physics::player::Gravity { on_ground: true });
    e.movement.pressed_keys.jump = true;
    e.position.position.y = 30000;
    e.position.last_position.y = 30000;
    let h = MovementHandler::new();
    h.update(&w, &mut e, SCALE, EAST);
    // Tentative top: 30000 + 18000 + 216000 = 264000, into the ceiling at
    // 240000; the box is pulled back to 240000 - 12 - 216000.
    assert_eq!(e.position.position.y, 240000 - 12 - 216000);
    assert_eq!(e.velocity.velocity.y, 0);
}

#[test]
fn moved_flag_reflects_a_real_move() {
    let w = world_with(vec![]);
    let h = MovementHandler::new();
    let mut e = create_local();
    e.movement.flying = true;
    h.update(&w, &mut e, SCALE, EAST);
    assert!(!e.position.moved);
    e.movement.pressed_keys.forward = true;
    h.update(&w, &mut e, SCALE, EAST);
    assert!(e.position.moved);
}
