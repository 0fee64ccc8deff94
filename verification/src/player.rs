//! Per-entity kinematic state and the per-tick movement pipeline: mode
//! sync, integration of intent and gravity, and per-axis collision
//! resolution with sliding, step-up climbing and ground detection.
//!
//! The caller supplies the cosine and sine of the heading that
//! `calculate_movement` returns, in fixed-point sub-units of 1; every
//! contract is exact in terms of those two inputs.

use vstd::prelude::*;
use crate::fixed::SCALE;
use crate::fixed::FOOT_HALF;
use crate::fixed::PLAYER_HEIGHT;
use crate::fixed::GROUND_DEPTH;
use crate::fixed::STEP_UNIT;
use crate::fixed::JUMP_VEL;
use crate::fixed::GRAVITY_ACCEL;
use crate::fixed::TERMINAL_VEL;
use crate::fixed::WALK_SPEED;
use crate::fixed::SPRINT_SPEED;
use crate::fixed::fmul;
use crate::fixed::fmul_exec;
use crate::fixed::lemma_trunc_div_bound;
use crate::fixed::lemma_fmul_signs;
use crate::geom::Aabb;
use crate::geom::Vec3;
use crate::geom::GBox;
use crate::geom::GVec;
use crate::geom::gbox_translate;
use crate::geom::gbox_within;
use crate::geom::gvec_within;
use crate::geom::gbox_ordered;
use crate::input::Key;
use crate::input::PressedKeys;
use crate::input::PlayerMovement;
use crate::input::spec_movement;
use crate::input::YAW_LIMIT;
use crate::world::World;
use crate::world::wf_world;
use crate::world::spec_chunk_loaded;
use crate::world::chunk_of;
use crate::world::chunk_coord;
use crate::collide::check_collisions;
use crate::collide::spec_check_collisions;
use crate::collide::CHECK_LIMIT;
use crate::collide::LOCAL_LIMIT;

verus! {

/// Walking speed while flying: exactly `WALK_SPEED * 5 / 2`.
pub const FLY_WALK_SPEED: i64 = 21585;

/// Sprinting speed while flying: exactly `SPRINT_SPEED * 5 / 2`.
pub const FLY_SPRINT_SPEED: i64 = 28060;

/// Positions handed to `update` stay within this magnitude.
pub const POS_LIMIT: i64 = 1_000_000_000_000;

/// Vertical velocities handed to `update` stay within this magnitude.
pub const VEL_LIMIT: i64 = 100_000_000;

/// Largest delta-time `update` accepts: one hundred tick units.
pub const DELTA_MAX: i64 = 12_000_000;

/// Read-only game-mode classification: the two predicates this core reads.
#[derive(Clone, Copy, PartialEq, Eq, Structural, Debug)]
pub struct GameMode {
    pub always_fly: bool,
    pub noclip: bool,
}

/// Ground-contact state; present on an entity exactly when it is subject
/// to gravity.
#[derive(Clone, Copy, PartialEq, Eq, Structural, Debug)]
pub struct Gravity {
    pub on_ground: bool,
}

impl Gravity {
    /// Airborne ground-contact state.
    pub fn new() -> (r: Gravity)
        ensures
            r == (Gravity { on_ground: false }),
    {
        Gravity { on_ground: false }
    }
}

/// Current and previous-tick position, and whether the last tick moved
/// the entity.
#[derive(Clone, Copy, PartialEq, Eq, Structural, Debug)]
pub struct Position {
    pub position: Vec3,
    pub last_position: Vec3,
    pub moved: bool,
}

/// Velocity; only the vertical component is integrated.
#[derive(Clone, Copy, PartialEq, Eq, Structural, Debug)]
pub struct Velocity {
    pub velocity: Vec3,
}

/// Orientation in fixed-point radians.
#[derive(Clone, Copy, PartialEq, Eq, Structural, Debug)]
pub struct Rotation {
    pub yaw: i64,
    pub pitch: i64,
}

/// The cosine and sine of the heading, in fixed-point sub-units of 1,
/// supplied by the caller for the heading `calculate_movement` returns.
#[derive(Clone, Copy, PartialEq, Eq, Structural, Debug)]
pub struct Trig {
    pub cos: i64,
    pub sin: i64,
}

/// Everything the per-tick pipeline reads and writes for one entity.
pub struct Entity {
    pub position: Position,
    pub rotation: Rotation,
    pub velocity: Velocity,
    pub gravity: Option<Gravity>,
    pub movement: PlayerMovement,
    pub gamemode: GameMode,
    pub bounds: Aabb,
}

/// The mathematical value of an `Entity`.
pub struct EModel {
    pub pos: GVec,
    pub last: GVec,
    pub moved: bool,
    pub vel: GVec,
    pub yaw: int,
    pub pitch: int,
    pub gravity: Option<Gravity>,
    pub movement: PlayerMovement,
    pub gamemode: GameMode,
    pub bounds: GBox,
}

impl View for Entity {
    type V = EModel;

    open spec fn view(&self) -> EModel {
        EModel {
            pos: self.position.position@,
            last: self.position.last_position@,
            moved: self.position.moved,
            vel: self.velocity.velocity@,
            yaw: self.rotation.yaw as int,
            pitch: self.rotation.pitch as int,
            gravity: self.gravity,
            movement: self.movement,
            gamemode: self.gamemode,
            bounds: self.bounds@,
        }
    }
}

/// Whether the ground-contact state is present.
pub open spec fn has_gravity(g: Option<Gravity>) -> bool {
    match g {
        Option::Some(_) => true,
        Option::None => false,
    }
}

/// Whether the entity is on the ground; absent state counts as airborne.
pub open spec fn spec_on_ground(g: Option<Gravity>) -> bool {
    match g {
        Option::Some(gr) => gr.on_ground,
        Option::None => false,
    }
}

/// The speed the integrator uses: walk or sprint, times 5/2 while flying.
pub open spec fn spec_speed(k: PressedKeys, flying: bool) -> int {
    let base: int = if k.sprint {
        SPRINT_SPEED as int
    } else {
        WALK_SPEED as int
    };
    if flying {
        base * 5 / 2
    } else {
        base
    }
}

/// Mode sync: the ground-contact state is removed when flying and added
/// when not, then the flight flag absorbs the game mode's always-fly.
pub open spec fn spec_mode_sync(m: EModel) -> EModel {
    let g = if m.movement.flying && has_gravity(m.gravity) {
        Option::None
    } else if !m.movement.flying && !has_gravity(m.gravity) {
        Option::Some(Gravity { on_ground: false })
    } else {
        m.gravity
    };
    let fly = m.movement.flying || m.gamemode.always_fly;
    EModel {
        pos: m.pos,
        last: m.last,
        moved: m.moved,
        vel: m.vel,
        yaw: m.yaw,
        pitch: m.pitch,
        gravity: g,
        movement: PlayerMovement {
            flying: fly,
            did_touch_ground: m.movement.did_touch_ground,
            pressed_keys: m.movement.pressed_keys,
        },
        gamemode: m.gamemode,
        bounds: m.bounds,
    }
}

/// Integration with the containing chunk loaded: flying moves vertically by
/// key, a grounded entity jumps or rests, an airborne one accelerates
/// downward to the terminal speed; the horizontal step follows the heading
/// trig, the vertical one the vertical velocity (only when not flying).
pub open spec fn spec_integrate_loaded(m: EModel, delta: int, tc: int, ts: int) -> EModel {
    let k = m.movement.pressed_keys;
    let f = spec_movement(k, m.yaw).0;
    let speed = spec_speed(k, m.movement.flying);
    let y1 = if m.movement.flying {
        let up: int = if k.jump {
            fmul(speed, delta)
        } else {
            0
        };
        let down: int = if k.descend {
            fmul(speed, delta)
        } else {
            0
        };
        m.pos.y + up - down
    } else {
        m.pos.y
    };
    let vy1 = if m.movement.flying {
        m.vel.y
    } else if spec_on_ground(m.gravity) {
        if k.jump {
            JUMP_VEL as int
        } else {
            0
        }
    } else {
        let v = m.vel.y - fmul(GRAVITY_ACCEL as int, delta);
        if v < -(TERMINAL_VEL as int) {
            -(TERMINAL_VEL as int)
        } else {
            v
        }
    };
    let dx: int = if f == 1 {
        fmul(fmul(tc, delta), speed)
    } else {
        0
    };
    let dz: int = if f == 1 {
        fmul(fmul(ts, delta), speed)
    } else {
        0
    };
    let y2 = if m.movement.flying {
        y1
    } else {
        y1 + fmul(vy1, delta)
    };
    EModel {
        pos: GVec { x: m.pos.x + dx, y: y2, z: m.pos.z - dz },
        last: m.last,
        moved: m.moved,
        vel: GVec { x: m.vel.x, y: vy1, z: m.vel.z },
        yaw: m.yaw,
        pitch: m.pitch,
        gravity: m.gravity,
        movement: m.movement,
        gamemode: m.gamemode,
        bounds: m.bounds,
    }
}

/// The first vertical offset (in step units, 1..8) at which the raised
/// footprint probes clear, when one does.
pub open spec fn spec_step_up(w: World, pos: GVec, last: GVec, local: GBox, off: int) -> Option<
    int,
>
    decreases 9 - off,
{
    if off >= 9 {
        Option::None
    } else {
        let mini = gbox_translate(local, GVec { x: 0, y: off * (STEP_UNIT as int), z: 0 });
        if !spec_check_collisions(w, pos, last, mini).hit {
            Option::Some(off)
        } else {
            spec_step_up(w, pos, last, local, off + 1)
        }
    }
}

/// The footprint of the thin on-ground probe box.
pub open spec fn ground_probe_box() -> GBox {
    GBox {
        min: GVec { x: -(FOOT_HALF as int), y: -(GROUND_DEPTH as int), z: -(FOOT_HALF as int) },
        max: GVec { x: FOOT_HALF as int, y: 0, z: FOOT_HALF as int },
    }
}

/// The horizontal half of the resolution: clamp X, then Z, each committed
/// as the new previous value; attempt the step-up climb when a horizontal
/// probe hit and the entity is grounded.  The result carries the possibly
/// restored horizontal position and the step-adjusted vertical target.
pub open spec fn spec_resolve_xz(m: EModel, w: World) -> EModel {
    let target = m.pos;
    let p0 = GVec { x: target.x, y: m.last.y, z: m.last.z };
    let s1 = spec_check_collisions(w, p0, m.last, m.bounds);
    let x1 = s1.bounds.min.x + (FOOT_HALF as int);
    let last1 = GVec { x: x1, y: m.last.y, z: m.last.z };
    let p1 = GVec { x: x1, y: m.last.y, z: target.z };
    let s2 = spec_check_collisions(w, p1, last1, m.bounds);
    let z1 = s2.bounds.min.z + (FOOT_HALF as int);
    let last2 = GVec { x: x1, y: m.last.y, z: z1 };
    let grounded = spec_on_ground(m.gravity);
    let climb = if (s1.hit || s2.hit) && grounded {
        spec_step_up(w, GVec { x: target.x, y: m.last.y, z: target.z }, last2, m.bounds, 1)
    } else {
        Option::None
    };
    let stepped = (s1.hit || s2.hit) && grounded && climb is Some;
    let x2 = if stepped {
        target.x
    } else {
        x1
    };
    let z2 = if stepped {
        target.z
    } else {
        z1
    };
    let ty = if stepped {
        target.y + climb->0 * (STEP_UNIT as int)
    } else {
        target.y
    };
    EModel {
        pos: GVec { x: x2, y: ty, z: z2 },
        last: last2,
        moved: m.moved,
        vel: m.vel,
        yaw: m.yaw,
        pitch: m.pitch,
        gravity: m.gravity,
        movement: m.movement,
        gamemode: m.gamemode,
        bounds: m.bounds,
    }
}

/// The vertical half of the resolution: clamp Y to the step-adjusted
/// target, zeroing the vertical velocity on a vertical hit; then probe the
/// thin ground box and latch a fresh ground contact.
pub open spec fn spec_resolve_y(m: EModel, w: World) -> EModel {
    let s3 = spec_check_collisions(w, m.pos, m.last, m.bounds);
    let y1 = s3.bounds.min.y;
    let p3 = GVec { x: m.pos.x, y: y1, z: m.pos.z };
    let last3 = GVec { x: m.last.x, y: y1, z: m.last.z };
    let vy = if s3.hit {
        0
    } else {
        m.vel.y
    };
    let probe = match m.gravity {
        Option::Some(gr) => {
            let s4 = spec_check_collisions(w, p3, last3, ground_probe_box());
            (Option::Some(Gravity { on_ground: s4.hit }),
            m.movement.did_touch_ground || (!gr.on_ground && s4.hit))
        },
        Option::None => (m.gravity, m.movement.did_touch_ground),
    };
    EModel {
        pos: p3,
        last: last3,
        moved: m.moved,
        vel: GVec { x: m.vel.x, y: vy, z: m.vel.z },
        yaw: m.yaw,
        pitch: m.pitch,
        gravity: probe.0,
        movement: PlayerMovement {
            flying: m.movement.flying,
            did_touch_ground: probe.1,
            pressed_keys: m.movement.pressed_keys,
        },
        gamemode: m.gamemode,
        bounds: m.bounds,
    }
}

/// Per-axis collision resolution: the horizontal half, then the vertical
/// half and the ground probe.
pub open spec fn spec_resolve(m: EModel, w: World) -> EModel {
    spec_resolve_y(spec_resolve_xz(m, w), w)
}

/// One whole tick: mode sync; integration when the containing chunk is
/// loaded; collision resolution unless the game mode has no-clip; and the
/// `moved` flag against the previous position captured at tick start.
pub open spec fn spec_tick(m: EModel, w: World, delta: int, tc: int, ts: int) -> EModel {
    let snapshot = m.last;
    let m1 = spec_mode_sync(m);
    let m2 = if spec_chunk_loaded(w, chunk_of(m1.pos.x), chunk_of(m1.pos.z)) {
        spec_integrate_loaded(m1, delta, tc, ts)
    } else {
        m1
    };
    let m3 = if !m1.gamemode.noclip {
        spec_resolve(m2, w)
    } else {
        m2
    };
    EModel {
        pos: m3.pos,
        last: m3.last,
        moved: m3.pos != snapshot,
        vel: m3.vel,
        yaw: m3.yaw,
        pitch: m3.pitch,
        gravity: m3.gravity,
        movement: m3.movement,
        gamemode: m3.gamemode,
        bounds: m3.bounds,
    }
}

/// A freshly created local player: at the origin, at rest, not flying,
/// airborne, survival-like game mode, with the standard footprint (0.6 by
/// 1.8 units, centered under the feet).
pub fn create_local() -> (r: Entity)
    ensures
        r@.pos == (GVec { x: 0, y: 0, z: 0 }),
        r@.last == (GVec { x: 0, y: 0, z: 0 }),
        r@.moved == false,
        r@.vel == (GVec { x: 0, y: 0, z: 0 }),
        r@.yaw == 0,
        r@.pitch == 0,
        r@.gravity == Option::Some(Gravity { on_ground: false }),
        r@.movement == (PlayerMovement {
            flying: false,
            did_touch_ground: false,
            pressed_keys: crate::input::PressedKeys {
                forward: false,
                backward: false,
                left: false,
                right: false,
                sprint: false,
                jump: false,
                descend: false,
            },
        }),
        r@.gamemode == (GameMode { always_fly: false, noclip: false }),
        r@.bounds == (GBox {
            min: GVec { x: -(FOOT_HALF as int), y: 0, z: -(FOOT_HALF as int) },
            max: GVec { x: FOOT_HALF as int, y: PLAYER_HEIGHT as int, z: FOOT_HALF as int },
        }),
{
    Entity {
        position: Position {
            position: Vec3 { x: 0, y: 0, z: 0 },
            last_position: Vec3 { x: 0, y: 0, z: 0 },
            moved: false,
        },
        rotation: Rotation { yaw: 0, pitch: 0 },
        velocity: Velocity { velocity: Vec3 { x: 0, y: 0, z: 0 } },
        gravity: Some(Gravity::new()),
        movement: PlayerMovement::new(),
        gamemode: GameMode { always_fly: false, noclip: false },
        bounds: Aabb {
            min: Vec3 { x: -FOOT_HALF, y: 0, z: -FOOT_HALF },
            max: Vec3 { x: FOOT_HALF, y: PLAYER_HEIGHT, z: FOOT_HALF },
        },
    }
}

/// What `update` asks of the entity it advances.
pub open spec fn entity_fits(m: EModel) -> bool {
    &&& gvec_within(m.pos, POS_LIMIT as int)
    &&& gvec_within(m.last, POS_LIMIT as int)
    &&& -(VEL_LIMIT as int) <= m.vel.y <= VEL_LIMIT as int
    &&& -(YAW_LIMIT as int) <= m.yaw <= YAW_LIMIT as int
    &&& gbox_within(m.bounds, (LOCAL_LIMIT - 60_000) as int)
    &&& gbox_ordered(m.bounds)
}

/// Mode sync: toggle the ground-contact state against the flight flag,
/// then absorb the game mode's always-fly.
fn mode_sync_exec(e: &mut Entity)
    ensures
        final(e)@ == spec_mode_sync(old(e)@),
{
    if e.movement.flying && e.gravity.is_some() {
        e.gravity = None;
    } else if !e.movement.flying && e.gravity.is_none() {
        e.gravity = Some(Gravity::new());
    }
    e.movement.flying = e.movement.flying || e.gamemode.always_fly;
}

/// Integration with the containing chunk loaded.
#[verifier::rlimit(60)]
fn integrate_exec(e: &mut Entity, delta: i64, trig: Trig)
    requires
        entity_fits(old(e)@),
        0 <= delta <= DELTA_MAX,
        -SCALE <= trig.cos <= SCALE,
        -SCALE <= trig.sin <= SCALE,
    ensures
        final(e)@ == spec_integrate_loaded(old(e)@, delta as int, trig.cos as int, trig.sin as int),
        gvec_within(final(e)@.pos, 1_700_000_000_000int),
        gvec_within(final(e)@.last, POS_LIMIT as int),
        -(VEL_LIMIT as int) <= final(e)@.vel.y <= VEL_LIMIT as int,
{
    let fw = e.movement.calculate_movement(e.rotation.yaw);
    let forward = fw.0;
    let sprint = e.movement.is_key_pressed(Key::Sprint);
    let mut speed: i64 = if sprint {
        SPRINT_SPEED
    } else {
        WALK_SPEED
    };
    let grounded = match &e.gravity {
        Some(g) => g.on_ground,
        None => false,
    };
    if e.movement.flying {
        speed = if sprint {
            FLY_SPRINT_SPEED
        } else {
            FLY_WALK_SPEED
        };
        proof {
            assert((SPRINT_SPEED as int) * 5 / 2 == FLY_SPRINT_SPEED as int);
            assert((WALK_SPEED as int) * 5 / 2 == FLY_WALK_SPEED as int);
        }
        if e.movement.is_key_pressed(Key::Jump) {
            let dy = fmul_exec(speed, delta);
            e.position.position.y = e.position.position.y + dy;
        }
        if e.movement.is_key_pressed(Key::Descend) {
            let dy = fmul_exec(speed, delta);
            e.position.position.y = e.position.position.y - dy;
        }
    } else if grounded {
        if e.movement.is_key_pressed(Key::Jump) {
            e.velocity.velocity.y = JUMP_VEL;
        } else {
            e.velocity.velocity.y = 0;
        }
    } else {
        let g = fmul_exec(GRAVITY_ACCEL, delta);
        proof {
            lemma_fmul_signs(GRAVITY_ACCEL as int, delta as int);
            lemma_trunc_div_bound(
                (GRAVITY_ACCEL as int) * (delta as int),
                SCALE as int,
                14_400_000_000_000int,
            );
            assert(14_400_000_000_000int / 120000int == 120_000_000int);
        }
        let mut vy = e.velocity.velocity.y - g;
        if vy < -TERMINAL_VEL {
            vy = -TERMINAL_VEL;
        }
        e.velocity.velocity.y = vy;
    }
    if forward == 1 {
        proof {
            assert(-1_440_000_000_000int <= (trig.cos as int) * (delta as int)
                <= 1_440_000_000_000int) by (nonlinear_arith)
                requires
                    -120000 <= trig.cos as int <= 120000,
                    0 <= delta as int <= 12_000_000,
            ;
            assert(-1_440_000_000_000int <= (trig.sin as int) * (delta as int)
                <= 1_440_000_000_000int) by (nonlinear_arith)
                requires
                    -120000 <= trig.sin as int <= 120000,
                    0 <= delta as int <= 12_000_000,
            ;
            lemma_trunc_div_bound(
                (trig.cos as int) * (delta as int),
                SCALE as int,
                1_440_000_000_000int,
            );
            lemma_trunc_div_bound(
                (trig.sin as int) * (delta as int),
                SCALE as int,
                1_440_000_000_000int,
            );
            assert(1_440_000_000_000int / 120000int == 12_000_000int);
        }
        let mc = fmul_exec(trig.cos, delta);
        let dx = fmul_exec(mc, speed);
        e.position.position.x = e.position.position.x + dx;
        let ms = fmul_exec(trig.sin, delta);
        let dz = fmul_exec(ms, speed);
        e.position.position.z = e.position.position.z - dz;
    }
    if !e.movement.flying {
        let dy = fmul_exec(e.velocity.velocity.y, delta);
        e.position.position.y = e.position.position.y + dy;
    }
}

/// What the resolver asks of the entity state it clips: the integrated
/// position, the committed previous position, and a footprint that leaves
/// room for the step-up probes.
pub open spec fn resolve_fits(m: EModel) -> bool {
    &&& gvec_within(m.pos, 1_700_000_000_000int)
    &&& gvec_within(m.last, 1_700_000_000_000int)
    &&& gbox_within(m.bounds, (LOCAL_LIMIT - 60_000) as int)
    &&& gbox_ordered(m.bounds)
}

/// The step-up scan: probe the footprint raised by 1..8 step units at the
/// restored horizontal motion, and report the first clear offset.
fn step_up_scan(w: &World, pos: Vec3, last: Vec3, local: Aabb) -> (r: Option<i64>)
    requires
        wf_world(*w),
        gvec_within(pos@, (CHECK_LIMIT - 100_000) as int),
        gvec_within(last@, (CHECK_LIMIT - 100_000) as int),
        gbox_within(local@, (LOCAL_LIMIT - 60_000) as int),
        gbox_ordered(local@),
    ensures
        match r {
            Option::Some(o) => 1 <= o < 9 && spec_step_up(*w, pos@, last@, local@, 1)
                == Option::Some(o as int),
            Option::None => spec_step_up(*w, pos@, last@, local@, 1) == Option::<int>::None,
        },
{
    let mut climb: Option<i64> = None;
    let mut off: i64 = 1;
    while climb.is_none() && off < 9
        invariant
            wf_world(*w),
            1 <= off <= 9,
            gvec_within(pos@, (CHECK_LIMIT - 100_000) as int),
            gvec_within(last@, (CHECK_LIMIT - 100_000) as int),
            gbox_within(local@, (LOCAL_LIMIT - 60_000) as int),
            gbox_ordered(local@),
            match climb {
                Option::Some(o) => 1 <= o < 9 && spec_step_up(*w, pos@, last@, local@, 1)
                    == Option::Some(o as int),
                Option::None => spec_step_up(*w, pos@, last@, local@, 1) == spec_step_up(
                    *w,
                    pos@,
                    last@,
                    local@,
                    off as int,
                ),
            },
        decreases 9 - off + (if climb.is_none() { 1int } else { 0int }),
    {
        let mini = local.add_v(Vec3 { x: 0, y: off * STEP_UNIT, z: 0 });
        let sp = check_collisions(w, pos, last, mini);
        if !sp.hit {
            climb = Some(off);
        } else {
            off = off + 1;
        }
    }
    climb
}

/// The horizontal half of the resolution, exactly `spec_resolve_xz`.
#[verifier::rlimit(100)]
fn resolve_xz_exec(w: &World, e: &mut Entity)
    requires
        wf_world(*w),
        resolve_fits(old(e)@),
    ensures
        final(e)@ == spec_resolve_xz(old(e)@, *w),
        gvec_within(final(e)@.pos, 1_710_000_000_000int),
        gvec_within(final(e)@.last, 1_710_000_000_000int),
        final(e)@.bounds == old(e)@.bounds,
{
    let target = e.position.position;
    e.position.position.y = e.position.last_position.y;
    e.position.position.z = e.position.last_position.z;

    // X axis.
    let s1 = check_collisions(w, e.position.position, e.position.last_position, e.bounds);
    e.position.position.x = s1.bounds.min.x + FOOT_HALF;
    e.position.last_position.x = e.position.position.x;

    // Z axis, from the already clamped X.
    e.position.position.z = target.z;
    let s2 = check_collisions(w, e.position.position, e.position.last_position, e.bounds);
    e.position.position.z = s2.bounds.min.z + FOOT_HALF;
    e.position.last_position.z = e.position.position.z;

    // Step-up: when a horizontal probe hit and the entity is
    // grounded, look for the first vertical offset (up to half a
    // block, in sixteenths) at which the restored horizontal
    // motion clears, and climb there.
    let grounded = match &e.gravity {
        Some(g) => g.on_ground,
        None => false,
    };
    let mut target_y = target.y;
    if (s1.hit || s2.hit) && grounded {
        let mut ox = e.position.position.x;
        let mut oz = e.position.position.z;
        e.position.position.x = target.x;
        e.position.position.z = target.z;
        let climb = step_up_scan(w, e.position.position, e.position.last_position, e.bounds);
        match climb {
            Some(o) => {
                target_y = target_y + o * STEP_UNIT;
                ox = target.x;
                oz = target.z;
            },
            None => {},
        }
        e.position.position.x = ox;
        e.position.position.z = oz;
    }
    e.position.position.y = target_y;
}

/// The vertical half of the resolution, exactly `spec_resolve_y`.
#[verifier::rlimit(100)]
fn resolve_y_exec(w: &World, e: &mut Entity)
    requires
        wf_world(*w),
        gvec_within(old(e)@.pos, 1_710_000_000_000int),
        gvec_within(old(e)@.last, 1_710_000_000_000int),
        gbox_within(old(e)@.bounds, (LOCAL_LIMIT - 60_000) as int),
        gbox_ordered(old(e)@.bounds),
    ensures
        final(e)@ == spec_resolve_y(old(e)@, *w),
{
    // Y axis, to the possibly step-adjusted target.
    let s3 = check_collisions(w, e.position.position, e.position.last_position, e.bounds);
    e.position.position.y = s3.bounds.min.y;
    e.position.last_position.y = e.position.position.y;
    if s3.hit {
        e.velocity.velocity.y = 0;
    }

    // Ground probe: a thin box just beneath the footprint.
    if e.gravity.is_some() {
        let prev = match &e.gravity {
            Some(g) => g.on_ground,
            None => false,
        };
        let gb = Aabb {
            min: Vec3 { x: -FOOT_HALF, y: -GROUND_DEPTH, z: -FOOT_HALF },
            max: Vec3 { x: FOOT_HALF, y: 0, z: FOOT_HALF },
        };
        let s4 = check_collisions(w, e.position.position, e.position.last_position, gb);
        e.gravity = Some(Gravity { on_ground: s4.hit });
        if !prev && s4.hit {
            e.movement.did_touch_ground = true;
        }
    }
}

/// The per-tick movement system.
pub struct MovementHandler {}

impl MovementHandler {
    pub fn new() -> (r: MovementHandler) {
        MovementHandler {}
    }

    /// Advance one entity by one tick: exactly `spec_tick` of its state,
    /// the world, the delta, and the caller-supplied heading trig.
    #[verifier::rlimit(60)]
    pub fn update(&self, w: &World, e: &mut Entity, delta: i64, trig: Trig)
        requires
            wf_world(*w),
            entity_fits(old(e)@),
            0 <= delta <= DELTA_MAX,
            -SCALE <= trig.cos <= SCALE,
            -SCALE <= trig.sin <= SCALE,
        ensures
            final(e)@ == spec_tick(old(e)@, *w, delta as int, trig.cos as int, trig.sin as int),
    {
        let ghost m0 = e@;
        let prev_position = e.position.last_position;

        mode_sync_exec(e);
        let ghost m1 = spec_mode_sync(m0);

        let cx = chunk_coord(e.position.position.x);
        let cz = chunk_coord(e.position.position.z);
        let loaded = w.is_chunk_loaded(cx as i32, cz as i32);
        if loaded {
            integrate_exec(e, delta, trig);
        }
        let ghost m2 = if spec_chunk_loaded(*w, chunk_of(m1.pos.x), chunk_of(m1.pos.z)) {
            spec_integrate_loaded(m1, delta as int, trig.cos as int, trig.sin as int)
        } else {
            m1
        };
        proof {
            assert(e@ == m2);
        }

        if !e.gamemode.noclip {
            resolve_xz_exec(w, e);
            resolve_y_exec(w, e);
        }
        let ghost m3 = if !m1.gamemode.noclip {
            spec_resolve(m2, *w)
        } else {
            m2
        };
        proof {
            assert(e@.pos == m3.pos);
            assert(e@.last == m3.last);
            assert(e@.vel == m3.vel);
            assert(e@.gravity == m3.gravity);
            assert(e@.movement == m3.movement);
        }

        e.position.moved = e.position.position.x != prev_position.x || e.position.position.y
            != prev_position.y || e.position.position.z != prev_position.z;
        proof {
            assert(e@ == spec_tick(m0, *w, delta as int, trig.cos as int, trig.sin as int));
        }
    }
}

/// Terminal velocity: an airborne, non-flying integration step never sets
/// the vertical velocity below the terminal fall speed; at the terminal
/// speed it stays there; and while at or above it, it never rises.
pub proof fn lemma_terminal_velocity(m: EModel, delta: int, tc: int, ts: int)
    requires
        !m.movement.flying,
        !spec_on_ground(m.gravity),
        0 <= delta,
    ensures
        spec_integrate_loaded(m, delta, tc, ts).vel.y >= -(TERMINAL_VEL as int),
        m.vel.y == -(TERMINAL_VEL as int) ==> spec_integrate_loaded(m, delta, tc, ts).vel.y == -(
        TERMINAL_VEL as int),
        m.vel.y >= -(TERMINAL_VEL as int) ==> spec_integrate_loaded(m, delta, tc, ts).vel.y
            <= m.vel.y,
{
    lemma_fmul_signs(GRAVITY_ACCEL as int, delta);
}

/// Ground latch: when the ground-contact state is present, the one-shot
/// latch after resolution is its old value, or set exactly by an
/// on-ground transition from false to true; the resolver never sets it
/// otherwise, and never clears it.
pub proof fn lemma_ground_latch(m: EModel, w: World)
    ensures
        has_gravity(m.gravity) ==> spec_resolve(m, w).movement.did_touch_ground == (
        m.movement.did_touch_ground || (!spec_on_ground(m.gravity) && spec_on_ground(
            spec_resolve(m, w).gravity,
        ))),
        !has_gravity(m.gravity) ==> spec_resolve(m, w).movement.did_touch_ground
            == m.movement.did_touch_ground,
{
    let mx = spec_resolve_xz(m, w);
    assert(mx.gravity == m.gravity);
    assert(mx.movement == m.movement);
}

/// Flight/gravity duality: after the mode-sync step exactly one of
/// {ground-contact state present, flying} holds.  The one input left out:
/// a game mode that always flies meeting an entity not yet flying, where
/// the sync adds the state first and raises the flag after, so both hold
/// until the next tick's sync removes the state again.
pub proof fn lemma_flight_gravity_duality(m: EModel)
    requires
        m.gamemode.always_fly ==> m.movement.flying,
    ensures
        has_gravity(spec_mode_sync(m).gravity) <==> !spec_mode_sync(m).movement.flying,
{
}

/// Frozen chunk: over an unloaded chunk, in a world with no geometry, a
/// tick leaves the position of an entity with the standard footprint
/// corner exactly where it was, whatever the delta and the input.
pub proof fn lemma_frozen_chunk(m: EModel, w: World, delta: int, tc: int, ts: int)
    requires
        w.blocks@.len() == 0,
        !spec_chunk_loaded(w, chunk_of(m.pos.x), chunk_of(m.pos.z)),
        m.bounds.min.x == -(FOOT_HALF as int),
        m.bounds.min.y == 0,
        m.bounds.min.z == -(FOOT_HALF as int),
    ensures
        spec_tick(m, w, delta, tc, ts).pos == m.pos,
{
    let m1 = spec_mode_sync(m);
    assert(m1.pos == m.pos && m1.last == m.last && m1.bounds == m.bounds);
    if !m1.gamemode.noclip {
        let target = m1.pos;
        let p0 = GVec { x: target.x, y: m1.last.y, z: m1.last.z };
        crate::collide::lemma_check_collisions_empty(w, p0, m1.last, m1.bounds);
        let s1 = spec_check_collisions(w, p0, m1.last, m1.bounds);
        assert(s1.bounds.min.x == target.x + m1.bounds.min.x);
        assert(!s1.hit);
        let x1 = s1.bounds.min.x + (FOOT_HALF as int);
        assert(x1 == target.x);
        let last1 = GVec { x: x1, y: m1.last.y, z: m1.last.z };
        let p1 = GVec { x: x1, y: m1.last.y, z: target.z };
        crate::collide::lemma_check_collisions_empty(w, p1, last1, m1.bounds);
        let s2 = spec_check_collisions(w, p1, last1, m1.bounds);
        assert(!s2.hit);
        let z1 = s2.bounds.min.z + (FOOT_HALF as int);
        assert(z1 == target.z);
        let mx = spec_resolve_xz(m1, w);
        assert(mx.pos == m.pos);
        crate::collide::lemma_check_collisions_empty(w, mx.pos, mx.last, mx.bounds);
        let s3 = spec_check_collisions(w, mx.pos, mx.last, mx.bounds);
        assert(s3.bounds.min.y == mx.pos.y);
        assert(spec_resolve_y(mx, w).pos == m.pos);
    }
}

} // verus!
