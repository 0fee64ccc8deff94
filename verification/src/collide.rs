//! The collision probe: translate the entity's footprint to a tentative
//! position, scan every block in the integer block range covering the box
//! plus one block of padding on each axis, and resolve the box out of every
//! overlapping block box along the direction of travel.  A hit does not end
//! the scan: later overlaps are resolved against the progressively clamped
//! box, so several simultaneous obstructions all apply.

use vstd::prelude::*;
use crate::fixed::SCALE;
use crate::fixed::trunc_div;
use crate::fixed::lemma_trunc_div_close;
use crate::geom::Aabb;
use crate::geom::Vec3;
use crate::geom::GBox;
use crate::geom::GVec;
use crate::geom::gbox_translate;
use crate::geom::gvec_sub;
use crate::geom::gbox_within;
use crate::geom::gvec_within;
use crate::geom::gbox_ordered;
use crate::geom::spec_collides;
use crate::geom::spec_move_out_of;
use crate::world::World;
use crate::world::wf_world;
use crate::world::boxes_in;
use crate::world::views_of;
use crate::world::block_box_ok;
use crate::world::find_block;
use crate::world::placed_at;
use crate::world::lemma_boxes_in_first_match;
use crate::world::lemma_boxes_in_no_match;
use crate::world::lemma_boxes_in_ok;

verus! {

/// Positions handed to `check_collisions` stay within this magnitude.
pub const CHECK_LIMIT: i64 = 4_000_000_000_000;

/// Footprint corners stay within this magnitude (eight world units).
pub const LOCAL_LIMIT: i64 = 960_000;

/// Footprint extents stay within this magnitude per axis.
pub const EXT_LIMIT: i64 = 2_000_000;

/// Block coordinates of the probe range stay within this magnitude.
pub const RANGE_LIMIT: i64 = 4_200_000_000_000;

/// The probe's running state: the progressively clamped box, and whether
/// any overlap was seen.
#[derive(Clone, Copy, PartialEq, Eq, Structural, Debug)]
pub struct Sweep {
    pub bounds: Aabb,
    pub hit: bool,
}

/// The mathematical value of a `Sweep`.
pub struct GSweep {
    pub bounds: GBox,
    pub hit: bool,
}

impl View for Sweep {
    type V = GSweep;

    open spec fn view(&self) -> GSweep {
        GSweep { bounds: self.bounds@, hit: self.hit }
    }
}

/// Resolve `st` against each box of `bs` (translated by `off`) in order.
pub open spec fn sweep_boxes(bs: Seq<GBox>, off: GVec, st: GSweep, dir: GVec) -> GSweep
    decreases bs.len(),
{
    if bs.len() == 0 {
        st
    } else {
        let o = gbox_translate(bs[0], off);
        let st1 = if spec_collides(o, st.bounds) {
            GSweep { bounds: spec_move_out_of(st.bounds, o, dir), hit: true }
        } else {
            st
        };
        sweep_boxes(bs.drop_first(), off, st1, dir)
    }
}

/// Resolve `st` against every box the block at `(x, y, z)` exposes.
pub open spec fn sweep_block(w: World, x: int, y: int, z: int, st: GSweep, dir: GVec) -> GSweep {
    sweep_boxes(
        boxes_in(w.blocks@, x, y, z),
        GVec { x: x * (SCALE as int), y: y * (SCALE as int), z: z * (SCALE as int) },
        st,
        dir,
    )
}

/// Resolve `st` against the blocks `(x, y, z)` for `x` in `[x, x1)`.
pub open spec fn sweep_row(w: World, y: int, z: int, x: int, x1: int, st: GSweep, dir: GVec) -> GSweep
    decreases x1 - x,
{
    if x >= x1 {
        st
    } else {
        sweep_row(w, y, z, x + 1, x1, sweep_block(w, x, y, z, st, dir), dir)
    }
}

/// Resolve `st` against the rows at `z` in `[z, z1)`.
pub open spec fn sweep_layer(
    w: World,
    y: int,
    z: int,
    z1: int,
    x0: int,
    x1: int,
    st: GSweep,
    dir: GVec,
) -> GSweep
    decreases z1 - z,
{
    if z >= z1 {
        st
    } else {
        sweep_layer(w, y, z + 1, z1, x0, x1, sweep_row(w, y, z, x0, x1, st, dir), dir)
    }
}

/// Resolve `st` against the layers at `y` in `[y, y1)`.
pub open spec fn sweep_region(
    w: World,
    y: int,
    y1: int,
    z0: int,
    z1: int,
    x0: int,
    x1: int,
    st: GSweep,
    dir: GVec,
) -> GSweep
    decreases y1 - y,
{
    if y >= y1 {
        st
    } else {
        sweep_region(w, y + 1, y1, z0, z1, x0, x1, sweep_layer(w, y, z0, z1, x0, x1, st, dir), dir)
    }
}

/// One whole probe: the footprint at the probed position, swept against
/// the padded block range, with the direction of travel taken from
/// current minus previous position and fixed for the whole probe.
pub open spec fn spec_check_collisions(w: World, pos: GVec, last: GVec, local: GBox) -> GSweep {
    let start = gbox_translate(local, pos);
    let dir = gvec_sub(pos, last);
    let s = SCALE as int;
    sweep_region(
        w,
        trunc_div(start.min.y - s, s),
        trunc_div(start.max.y + s, s),
        trunc_div(start.min.z - s, s),
        trunc_div(start.max.z + s, s),
        trunc_div(start.min.x - s, s),
        trunc_div(start.max.x + s, s),
        GSweep { bounds: start, hit: false },
        dir,
    )
}

/// The sweep's invariant, relative to the box it started from: the extent
/// of every axis is kept exactly, and the box stays within five world units
/// plus one extent of where it started.
pub open spec fn sweep_ok(b: GBox, start: GBox) -> bool {
    let s = SCALE as int;
    &&& b.max.x - b.min.x == start.max.x - start.min.x
    &&& b.max.y - b.min.y == start.max.y - start.min.y
    &&& b.max.z - b.min.z == start.max.z - start.min.z
    &&& start.min.x - 5 * s - (start.max.x - start.min.x) <= b.min.x
    &&& b.max.x <= start.max.x + 5 * s + (start.max.x - start.min.x)
    &&& start.min.y - 5 * s - (start.max.y - start.min.y) <= b.min.y
    &&& b.max.y <= start.max.y + 5 * s + (start.max.y - start.min.y)
    &&& start.min.z - 5 * s - (start.max.z - start.min.z) <= b.min.z
    &&& b.max.z <= start.max.z + 5 * s + (start.max.z - start.min.z)
}

/// The start box of a probe is well formed for the sweep.
pub open spec fn start_ok(start: GBox) -> bool {
    &&& gbox_within(start, (CHECK_LIMIT + LOCAL_LIMIT) as int)
    &&& gbox_ordered(start)
    &&& start.max.x - start.min.x <= EXT_LIMIT as int
    &&& start.max.y - start.min.y <= EXT_LIMIT as int
    &&& start.max.z - start.min.z <= EXT_LIMIT as int
}

/// A block coordinate triple that lies in the padded range of `start`.
pub open spec fn block_coord_ok(x: int, y: int, z: int, start: GBox) -> bool {
    let s = SCALE as int;
    &&& -(RANGE_LIMIT as int) <= x <= RANGE_LIMIT as int
    &&& -(RANGE_LIMIT as int) <= y <= RANGE_LIMIT as int
    &&& -(RANGE_LIMIT as int) <= z <= RANGE_LIMIT as int
    &&& x * s > start.min.x - 2 * s
    &&& x * s < start.max.x + 2 * s
    &&& y * s > start.min.y - 2 * s
    &&& y * s < start.max.y + 2 * s
    &&& z * s > start.min.z - 2 * s
    &&& z * s < start.max.z + 2 * s
}

/// One resolution step keeps the sweep invariant, as long as the obstacle
/// lies in the padded range of the start box.
proof fn lemma_resolve_sweep_ok(cur: GBox, o: GBox, dir: GVec, start: GBox)
    requires
        sweep_ok(cur, start),
        gbox_ordered(start),
        gbox_ordered(o),
        o.min.x > start.min.x - 3 * (SCALE as int),
        o.max.x < start.max.x + 4 * (SCALE as int),
        o.min.y > start.min.y - 3 * (SCALE as int),
        o.max.y < start.max.y + 4 * (SCALE as int),
        o.min.z > start.min.z - 3 * (SCALE as int),
        o.max.z < start.max.z + 4 * (SCALE as int),
    ensures
        sweep_ok(spec_move_out_of(cur, o, dir), start),
{
    let r = spec_move_out_of(cur, o, dir);
    let rx = crate::geom::resolve_axis(cur.min.x, cur.max.x, o.min.x, o.max.x, dir.x);
    let ry = crate::geom::resolve_axis(cur.min.y, cur.max.y, o.min.y, o.max.y, dir.y);
    let rz = crate::geom::resolve_axis(cur.min.z, cur.max.z, o.min.z, o.max.z, dir.z);
    assert(r.min.x == rx.0 && r.max.x == rx.1);
    assert(r.min.y == ry.0 && r.max.y == ry.1);
    assert(r.min.z == rz.0 && r.max.z == rz.1);
    assert(rx.1 - rx.0 == cur.max.x - cur.min.x);
    assert(ry.1 - ry.0 == cur.max.y - cur.min.y);
    assert(rz.1 - rz.0 == cur.max.z - cur.min.z);
}

/// Resolve `st` against every box of the block at `(x, y, z)`.
fn sweep_block_exec(
    w: &World,
    x: i64,
    y: i64,
    z: i64,
    st: Sweep,
    dir: Vec3,
    Ghost(start): Ghost<GBox>,
) -> (r: Sweep)
    requires
        wf_world(*w),
        start_ok(start),
        block_coord_ok(x as int, y as int, z as int, start),
        sweep_ok(st.bounds@, start),
    ensures
        r@ == sweep_block(*w, x as int, y as int, z as int, st@, dir@),
        sweep_ok(r.bounds@, start),
        r.hit == st.hit || r.hit,
{
    proof {
        lemma_boxes_in_ok(*w, x as int, y as int, z as int);
    }
    let found = find_block(w, x, y, z);
    match found {
        None => {
            proof {
                lemma_boxes_in_no_match(w.blocks@, x as int, y as int, z as int);
                assert(boxes_in(w.blocks@, x as int, y as int, z as int) =~= Seq::<GBox>::empty());
            }
            st
        },
        Some(i) => {
            proof {
                lemma_boxes_in_first_match(w.blocks@, x as int, y as int, z as int, i as int);
            }
            let off = Vec3 { x: x * SCALE, y: y * SCALE, z: z * SCALE };
            let ghost bs = boxes_in(w.blocks@, x as int, y as int, z as int);
            proof {
                assert(bs.skip(0) =~= bs);
            }
            let n: usize = w.blocks[i].block.boxes.len();
            let mut cur = st;
            let mut k: usize = 0;
            while k < n
                invariant
                    wf_world(*w),
                    start_ok(start),
                    block_coord_ok(x as int, y as int, z as int, start),
                    0 <= i < w.blocks@.len(),
                    n == w.blocks@[i as int].block.boxes@.len(),
                    bs == boxes_in(w.blocks@, x as int, y as int, z as int),
                    bs == views_of(w.blocks@[i as int].block.boxes@),
                    forall|q: int| 0 <= q < bs.len() ==> block_box_ok(#[trigger] bs[q]),
                    off@ == (GVec {
                        x: (x as int) * (SCALE as int),
                        y: (y as int) * (SCALE as int),
                        z: (z as int) * (SCALE as int),
                    }),
                    0 <= k <= n,
                    n == bs.len(),
                    sweep_ok(cur.bounds@, start),
                    cur.hit == st.hit || cur.hit,
                    sweep_boxes(bs.skip(k as int), off@, cur@, dir@) == sweep_boxes(
                        bs,
                        off@,
                        st@,
                        dir@,
                    ),
                decreases n - k,
            {
                let bb = w.blocks[i].block.boxes[k];
                proof {
                    assert(bs[k as int] == bb@);
                    assert(bs.skip(k as int).len() > 0);
                    assert(bs.skip(k as int)[0] == bs[k as int]);
                    assert(bs.skip(k as int).drop_first() =~= bs.skip(k as int + 1));
                    assert(block_box_ok(bb@));
                }
                let bbw = bb.add_v(off);
                if bbw.collides(&cur.bounds) {
                    proof {
                        lemma_resolve_sweep_ok(cur.bounds@, bbw@, dir@, start);
                    }
                    let nb = cur.bounds.move_out_of(bbw, dir);
                    cur = Sweep { bounds: nb, hit: true };
                }
                k = k + 1;
            }
            proof {
                assert(bs.skip(n as int) =~= Seq::<GBox>::empty());
            }
            cur
        },
    }
}

/// Resolve `st` against the blocks `(x, y, z)` for `x` in `[x0, x1)`.
fn sweep_row_exec(
    w: &World,
    y: i64,
    z: i64,
    x0: i64,
    x1: i64,
    st: Sweep,
    dir: Vec3,
    Ghost(start): Ghost<GBox>,
) -> (r: Sweep)
    requires
        wf_world(*w),
        start_ok(start),
        -RANGE_LIMIT <= x0 <= RANGE_LIMIT,
        -RANGE_LIMIT <= x1 <= RANGE_LIMIT,
        -RANGE_LIMIT <= y <= RANGE_LIMIT,
        -RANGE_LIMIT <= z <= RANGE_LIMIT,
        (x0 as int) * (SCALE as int) > start.min.x - 2 * (SCALE as int),
        (x1 as int) * (SCALE as int) < start.max.x + 2 * (SCALE as int),
        (y as int) * (SCALE as int) > start.min.y - 2 * (SCALE as int),
        (y as int) * (SCALE as int) < start.max.y + 2 * (SCALE as int),
        (z as int) * (SCALE as int) > start.min.z - 2 * (SCALE as int),
        (z as int) * (SCALE as int) < start.max.z + 2 * (SCALE as int),
        sweep_ok(st.bounds@, start),
    ensures
        r@ == sweep_row(*w, y as int, z as int, x0 as int, x1 as int, st@, dir@),
        sweep_ok(r.bounds@, start),
{
    let mut cur = st;
    let mut x: i64 = x0;
    while x < x1
        invariant
            wf_world(*w),
            start_ok(start),
            -RANGE_LIMIT <= x0 <= RANGE_LIMIT,
            -RANGE_LIMIT <= x1 <= RANGE_LIMIT,
            -RANGE_LIMIT <= y <= RANGE_LIMIT,
            -RANGE_LIMIT <= z <= RANGE_LIMIT,
            (x0 as int) * (SCALE as int) > start.min.x - 2 * (SCALE as int),
            (x1 as int) * (SCALE as int) < start.max.x + 2 * (SCALE as int),
            (y as int) * (SCALE as int) > start.min.y - 2 * (SCALE as int),
            (y as int) * (SCALE as int) < start.max.y + 2 * (SCALE as int),
            (z as int) * (SCALE as int) > start.min.z - 2 * (SCALE as int),
            (z as int) * (SCALE as int) < start.max.z + 2 * (SCALE as int),
            x0 <= x,
            x <= x1 || x == x0,
            sweep_ok(cur.bounds@, start),
            sweep_row(*w, y as int, z as int, x as int, x1 as int, cur@, dir@) == sweep_row(
                *w,
                y as int,
                z as int,
                x0 as int,
                x1 as int,
                st@,
                dir@,
            ),
        decreases x1 - x,
    {
        cur = sweep_block_exec(w, x, y, z, cur, dir, Ghost(start));
        x = x + 1;
    }
    cur
}

/// Resolve `st` against the rows at `z` in `[z0, z1)`.
fn sweep_layer_exec(
    w: &World,
    y: i64,
    z0: i64,
    z1: i64,
    x0: i64,
    x1: i64,
    st: Sweep,
    dir: Vec3,
    Ghost(start): Ghost<GBox>,
) -> (r: Sweep)
    requires
        wf_world(*w),
        start_ok(start),
        -RANGE_LIMIT <= x0 <= RANGE_LIMIT,
        -RANGE_LIMIT <= x1 <= RANGE_LIMIT,
        -RANGE_LIMIT <= y <= RANGE_LIMIT,
        -RANGE_LIMIT <= z0 <= RANGE_LIMIT,
        -RANGE_LIMIT <= z1 <= RANGE_LIMIT,
        (x0 as int) * (SCALE as int) > start.min.x - 2 * (SCALE as int),
        (x1 as int) * (SCALE as int) < start.max.x + 2 * (SCALE as int),
        (y as int) * (SCALE as int) > start.min.y - 2 * (SCALE as int),
        (y as int) * (SCALE as int) < start.max.y + 2 * (SCALE as int),
        (z0 as int) * (SCALE as int) > start.min.z - 2 * (SCALE as int),
        (z1 as int) * (SCALE as int) < start.max.z + 2 * (SCALE as int),
        sweep_ok(st.bounds@, start),
    ensures
        r@ == sweep_layer(*w, y as int, z0 as int, z1 as int, x0 as int, x1 as int, st@, dir@),
        sweep_ok(r.bounds@, start),
{
    let mut cur = st;
    let mut z: i64 = z0;
    while z < z1
        invariant
            wf_world(*w),
            start_ok(start),
            -RANGE_LIMIT <= x0 <= RANGE_LIMIT,
            -RANGE_LIMIT <= x1 <= RANGE_LIMIT,
            -RANGE_LIMIT <= y <= RANGE_LIMIT,
            -RANGE_LIMIT <= z0 <= RANGE_LIMIT,
            -RANGE_LIMIT <= z1 <= RANGE_LIMIT,
            (x0 as int) * (SCALE as int) > start.min.x - 2 * (SCALE as int),
            (x1 as int) * (SCALE as int) < start.max.x + 2 * (SCALE as int),
            (y as int) * (SCALE as int) > start.min.y - 2 * (SCALE as int),
            (y as int) * (SCALE as int) < start.max.y + 2 * (SCALE as int),
            (z0 as int) * (SCALE as int) > start.min.z - 2 * (SCALE as int),
            (z1 as int) * (SCALE as int) < start.max.z + 2 * (SCALE as int),
            z0 <= z,
            z <= z1 || z == z0,
            sweep_ok(cur.bounds@, start),
            sweep_layer(*w, y as int, z as int, z1 as int, x0 as int, x1 as int, cur@, dir@)
                == sweep_layer(
                *w,
                y as int,
                z0 as int,
                z1 as int,
                x0 as int,
                x1 as int,
                st@,
                dir@,
            ),
        decreases z1 - z,
    {
        cur = sweep_row_exec(w, y, z, x0, x1, cur, dir, Ghost(start));
        z = z + 1;
    }
    cur
}

/// Resolve `st` against the layers at `y` in `[y0, y1)`.
fn sweep_region_exec(
    w: &World,
    y0: i64,
    y1: i64,
    z0: i64,
    z1: i64,
    x0: i64,
    x1: i64,
    st: Sweep,
    dir: Vec3,
    Ghost(start): Ghost<GBox>,
) -> (r: Sweep)
    requires
        wf_world(*w),
        start_ok(start),
        -RANGE_LIMIT <= x0 <= RANGE_LIMIT,
        -RANGE_LIMIT <= x1 <= RANGE_LIMIT,
        -RANGE_LIMIT <= y0 <= RANGE_LIMIT,
        -RANGE_LIMIT <= y1 <= RANGE_LIMIT,
        -RANGE_LIMIT <= z0 <= RANGE_LIMIT,
        -RANGE_LIMIT <= z1 <= RANGE_LIMIT,
        (x0 as int) * (SCALE as int) > start.min.x - 2 * (SCALE as int),
        (x1 as int) * (SCALE as int) < start.max.x + 2 * (SCALE as int),
        (y0 as int) * (SCALE as int) > start.min.y - 2 * (SCALE as int),
        (y1 as int) * (SCALE as int) < start.max.y + 2 * (SCALE as int),
        (z0 as int) * (SCALE as int) > start.min.z - 2 * (SCALE as int),
        (z1 as int) * (SCALE as int) < start.max.z + 2 * (SCALE as int),
        sweep_ok(st.bounds@, start),
    ensures
        r@ == sweep_region(
            *w,
            y0 as int,
            y1 as int,
            z0 as int,
            z1 as int,
            x0 as int,
            x1 as int,
            st@,
            dir@,
        ),
        sweep_ok(r.bounds@, start),
{
    let mut cur = st;
    let mut y: i64 = y0;
    while y < y1
        invariant
            wf_world(*w),
            start_ok(start),
            -RANGE_LIMIT <= x0 <= RANGE_LIMIT,
            -RANGE_LIMIT <= x1 <= RANGE_LIMIT,
            -RANGE_LIMIT <= y0 <= RANGE_LIMIT,
            -RANGE_LIMIT <= y1 <= RANGE_LIMIT,
            -RANGE_LIMIT <= z0 <= RANGE_LIMIT,
            -RANGE_LIMIT <= z1 <= RANGE_LIMIT,
            (x0 as int) * (SCALE as int) > start.min.x - 2 * (SCALE as int),
            (x1 as int) * (SCALE as int) < start.max.x + 2 * (SCALE as int),
            (y0 as int) * (SCALE as int) > start.min.y - 2 * (SCALE as int),
            (y1 as int) * (SCALE as int) < start.max.y + 2 * (SCALE as int),
            (z0 as int) * (SCALE as int) > start.min.z - 2 * (SCALE as int),
            (z1 as int) * (SCALE as int) < start.max.z + 2 * (SCALE as int),
            y0 <= y,
            y <= y1 || y == y0,
            sweep_ok(cur.bounds@, start),
            sweep_region(
                *w,
                y as int,
                y1 as int,
                z0 as int,
                z1 as int,
                x0 as int,
                x1 as int,
                cur@,
                dir@,
            ) == sweep_region(
                *w,
                y0 as int,
                y1 as int,
                z0 as int,
                z1 as int,
                x0 as int,
                x1 as int,
                st@,
                dir@,
            ),
        decreases y1 - y,
    {
        cur = sweep_layer_exec(w, y, z0, z1, x0, x1, cur, dir, Ghost(start));
        y = y + 1;
    }
    cur
}

/// Probe the world with `local` translated to `pos`, sweeping along the
/// travel direction `pos - last_pos`.  The result is the clamped box and
/// whether anything was hit, exactly `spec_check_collisions`; the clamped
/// box keeps the footprint's extents and stays within five world units
/// plus one extent of where it started.
pub fn check_collisions(w: &World, pos: Vec3, last_pos: Vec3, local: Aabb) -> (r: Sweep)
    requires
        wf_world(*w),
        gvec_within(pos@, CHECK_LIMIT as int),
        gvec_within(last_pos@, CHECK_LIMIT as int),
        gbox_within(local@, LOCAL_LIMIT as int),
        gbox_ordered(local@),
    ensures
        r@ == spec_check_collisions(*w, pos@, last_pos@, local@),
        sweep_ok(r.bounds@, gbox_translate(local@, pos@)),
{
    let start = local.add_v(pos);
    let dir = Vec3 { x: pos.x - last_pos.x, y: pos.y - last_pos.y, z: pos.z - last_pos.z };
    let min_x = crate::fixed::trunc_div_scale(start.min.x - SCALE);
    let max_x = crate::fixed::trunc_div_scale(start.max.x + SCALE);
    let min_y = crate::fixed::trunc_div_scale(start.min.y - SCALE);
    let max_y = crate::fixed::trunc_div_scale(start.max.y + SCALE);
    let min_z = crate::fixed::trunc_div_scale(start.min.z - SCALE);
    let max_z = crate::fixed::trunc_div_scale(start.max.z + SCALE);
    proof {
        let s = SCALE as int;
        lemma_trunc_div_close(start.min.x as int - s, s);
        lemma_trunc_div_close(start.max.x as int + s, s);
        lemma_trunc_div_close(start.min.y as int - s, s);
        lemma_trunc_div_close(start.max.y as int + s, s);
        lemma_trunc_div_close(start.min.z as int - s, s);
        lemma_trunc_div_close(start.max.z as int + s, s);
    }
    let st0 = Sweep { bounds: start, hit: false };
    let r = sweep_region_exec(w, min_y, max_y, min_z, max_z, min_x, max_x, st0, dir, Ghost(start@));
    r
}

/// In a world with no placed blocks a row sweep changes nothing.
proof fn lemma_sweep_row_empty(w: World, y: int, z: int, x: int, x1: int, st: GSweep, dir: GVec)
    requires
        w.blocks@.len() == 0,
    ensures
        sweep_row(w, y, z, x, x1, st, dir) == st,
    decreases x1 - x,
{
    if x < x1 {
        assert(boxes_in(w.blocks@, x, y, z).len() == 0);
        assert(sweep_block(w, x, y, z, st, dir) == st);
        lemma_sweep_row_empty(w, y, z, x + 1, x1, st, dir);
    }
}

/// In a world with no placed blocks a layer sweep changes nothing.
proof fn lemma_sweep_layer_empty(
    w: World,
    y: int,
    z: int,
    z1: int,
    x0: int,
    x1: int,
    st: GSweep,
    dir: GVec,
)
    requires
        w.blocks@.len() == 0,
    ensures
        sweep_layer(w, y, z, z1, x0, x1, st, dir) == st,
    decreases z1 - z,
{
    if z < z1 {
        lemma_sweep_row_empty(w, y, z, x0, x1, st, dir);
        lemma_sweep_layer_empty(w, y, z + 1, z1, x0, x1, st, dir);
    }
}

/// In a world with no placed blocks a region sweep changes nothing.
proof fn lemma_sweep_region_empty(
    w: World,
    y: int,
    y1: int,
    z0: int,
    z1: int,
    x0: int,
    x1: int,
    st: GSweep,
    dir: GVec,
)
    requires
        w.blocks@.len() == 0,
    ensures
        sweep_region(w, y, y1, z0, z1, x0, x1, st, dir) == st,
    decreases y1 - y,
{
    if y < y1 {
        lemma_sweep_layer_empty(w, y, z0, z1, x0, x1, st, dir);
        lemma_sweep_region_empty(w, y + 1, y1, z0, z1, x0, x1, st, dir);
    }
}

/// In a world with no placed blocks a probe reports no hit and returns the
/// footprint where it was probed.
pub proof fn lemma_check_collisions_empty(w: World, pos: GVec, last: GVec, local: GBox)
    requires
        w.blocks@.len() == 0,
    ensures
        spec_check_collisions(w, pos, last, local) == (GSweep {
            bounds: gbox_translate(local, pos),
            hit: false,
        }),
{
    let start = gbox_translate(local, pos);
    let dir = gvec_sub(pos, last);
    let s = SCALE as int;
    lemma_sweep_region_empty(
        w,
        trunc_div(start.min.y - s, s),
        trunc_div(start.max.y + s, s),
        trunc_div(start.min.z - s, s),
        trunc_div(start.max.z + s, s),
        trunc_div(start.min.x - s, s),
        trunc_div(start.max.x + s, s),
        GSweep { bounds: start, hit: false },
        dir,
    );
}

} // verus!
