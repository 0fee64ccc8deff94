//! The world as the physics core consumes it: a block lookup at integer
//! block coordinates, where each block exposes zero or more block-local
//! collision boxes, and a chunk-loaded predicate at chunk coordinates
//! (block coordinates divided by 16).

use vstd::prelude::*;
use crate::fixed::SCALE;
use crate::fixed::trunc_div;
use crate::geom::Aabb;
use crate::geom::GBox;

verus! {

/// A block type: the collision boxes it exposes, in block-local
/// coordinates (about 0..1 of a world unit on each axis).
pub struct Block {
    pub boxes: Vec<Aabb>,
}

/// A block placed at integer block coordinates.
pub struct PlacedBlock {
    pub x: i32,
    pub y: i32,
    pub z: i32,
    pub block: Block,
}

/// A chunk column position: block coordinates divided by 16.
#[derive(Clone, Copy, PartialEq, Eq, Structural, Debug)]
pub struct ChunkPos {
    pub x: i32,
    pub z: i32,
}

/// The world geometry the resolver probes: placed blocks (positions not in
/// the list expose no collision boxes) and the set of loaded chunks.
pub struct World {
    pub blocks: Vec<PlacedBlock>,
    pub loaded_chunks: Vec<ChunkPos>,
}

/// `p` sits at block coordinates `(x, y, z)`.
pub open spec fn placed_at(p: PlacedBlock, x: int, y: int, z: int) -> bool {
    p.x == x && p.y == y && p.z == z
}

/// The mathematical values of a list of boxes.
pub open spec fn views_of(s: Seq<Aabb>) -> Seq<GBox> {
    s.map_values(|b: Aabb| b@)
}

/// The collision boxes of the first block of `s` placed at `(x, y, z)`,
/// or the empty sequence when none is.
pub open spec fn boxes_in(s: Seq<PlacedBlock>, x: int, y: int, z: int) -> Seq<GBox>
    decreases s.len(),
{
    if s.len() == 0 {
        Seq::empty()
    } else if placed_at(s[0], x, y, z) {
        views_of(s[0].block.boxes@)
    } else {
        boxes_in(s.drop_first(), x, y, z)
    }
}

/// Every collision box a block of `w` exposes is block-local: ordered, and
/// within one world unit of the unit cell on each axis.
pub open spec fn block_box_ok(b: GBox) -> bool {
    &&& -(SCALE as int) <= b.min.x <= b.max.x <= 2 * (SCALE as int)
    &&& -(SCALE as int) <= b.min.y <= b.max.y <= 2 * (SCALE as int)
    &&& -(SCALE as int) <= b.min.z <= b.max.z <= 2 * (SCALE as int)
}

pub open spec fn wf_world(w: World) -> bool {
    forall|i: int, k: int|
        0 <= i < w.blocks@.len() && 0 <= k < w.blocks@[i].block.boxes@.len()
            ==> block_box_ok(#[trigger] w.blocks@[i].block.boxes@[k]@)
}

/// The chunk column `(cx, cz)` is loaded.
pub open spec fn spec_chunk_loaded(w: World, cx: int, cz: int) -> bool {
    exists|i: int|
        0 <= i < w.loaded_chunks@.len() && (#[trigger] w.loaded_chunks@[i]).x == cx
            && w.loaded_chunks@[i].z == cz
}

/// The chunk coordinate containing fixed-point world coordinate `p`:
/// truncate to a whole block, then floor-divide by 16, the arithmetic
/// shift of a signed block coordinate.
pub open spec fn chunk_of(p: int) -> int {
    let b = trunc_div(p, SCALE as int);
    if b >= 0 {
        b / 16
    } else {
        -((-b + 15) / 16)
    }
}

/// The chunk coordinate containing fixed-point world coordinate `p`.
pub fn chunk_coord(p: i64) -> (r: i64)
    requires
        -2_000_000_000_000 <= p <= 2_000_000_000_000,
    ensures
        r as int == chunk_of(p as int),
        -17_000_000 <= r <= 17_000_000,
{
    proof {
        crate::fixed::lemma_trunc_div_bound(p as int, SCALE as int, 2_000_000_000_000int);
        assert(2_000_000_000_000int / 120000int == 16_666_666int);
    }
    let b: i64 = crate::fixed::trunc_div_scale(p);
    if b >= 0 {
        let q: u64 = (b as u64) / 16;
        proof {
            vstd::arithmetic::div_mod::lemma_div_nonincreasing(b as int, 16);
            vstd::arithmetic::div_mod::lemma_div_pos_is_pos(b as int, 16);
        }
        q as i64
    } else {
        let n: u64 = ((-b) as u64) + 15;
        let q: u64 = n / 16;
        proof {
            vstd::arithmetic::div_mod::lemma_div_nonincreasing(n as int, 16);
            vstd::arithmetic::div_mod::lemma_div_pos_is_pos(n as int, 16);
        }
        -(q as i64)
    }
}

impl World {
    /// A world with no geometry and no loaded chunks.
    pub fn new() -> (r: World)
        ensures
            r.blocks@.len() == 0,
            r.loaded_chunks@.len() == 0,
    {
        World { blocks: Vec::new(), loaded_chunks: Vec::new() }
    }

    /// Whether the chunk column `(cx, cz)` is loaded.
    pub fn is_chunk_loaded(&self, cx: i32, cz: i32) -> (r: bool)
        ensures
            r == spec_chunk_loaded(*self, cx as int, cz as int),
    {
        let n: usize = self.loaded_chunks.len();
        let mut i: usize = 0;
        while i < n
            invariant
                n == self.loaded_chunks@.len(),
                0 <= i <= n,
                forall|j: int|
                    0 <= j < i
                        ==> !((#[trigger] self.loaded_chunks@[j]).x == cx
                            && self.loaded_chunks@[j].z == cz),
            decreases n - i,
        {
            let c = self.loaded_chunks[i];
            if c.x == cx && c.z == cz {
                return true;
            }
            i = i + 1;
        }
        false
    }
}

/// The index of the first block placed at `(x, y, z)`, when one is.
pub fn find_block(w: &World, x: i64, y: i64, z: i64) -> (r: Option<usize>)
    ensures
        match r {
            Some(i) => {
                &&& 0 <= i < w.blocks@.len()
                &&& placed_at(w.blocks@[i as int], x as int, y as int, z as int)
                &&& forall|j: int|
                    0 <= j < i ==> !placed_at(#[trigger] w.blocks@[j], x as int, y as int, z as int)
            },
            None => forall|j: int|
                0 <= j < w.blocks@.len()
                    ==> !placed_at(#[trigger] w.blocks@[j], x as int, y as int, z as int),
        },
{
    let n: usize = w.blocks.len();
    let mut i: usize = 0;
    while i < n
        invariant
            n == w.blocks@.len(),
            0 <= i <= n,
            forall|j: int| 0 <= j < i ==> !placed_at(#[trigger] w.blocks@[j], x as int, y as int, z as int),
        decreases n - i,
    {
        let p = &w.blocks[i];
        if (p.x as i64) == x && (p.y as i64) == y && (p.z as i64) == z {
            return Some(i);
        }
        i = i + 1;
    }
    None
}

/// `boxes_in` is the boxes of the first placed match.
pub proof fn lemma_boxes_in_first_match(s: Seq<PlacedBlock>, x: int, y: int, z: int, i: int)
    requires
        0 <= i < s.len(),
        placed_at(s[i], x, y, z),
        forall|j: int| 0 <= j < i ==> !placed_at(#[trigger] s[j], x, y, z),
    ensures
        boxes_in(s, x, y, z) == views_of(s[i].block.boxes@),
    decreases i,
{
    if i > 0 {
        assert(!placed_at(s[0], x, y, z));
        let t = s.drop_first();
        assert(t[i - 1] == s[i]);
        assert(forall|j: int| 0 <= j < i - 1 ==> t[j] == s[j + 1] && !placed_at(#[trigger] t[j], x, y, z));
        lemma_boxes_in_first_match(t, x, y, z, i - 1);
    }
}

/// With no placed match, `boxes_in` is empty.
pub proof fn lemma_boxes_in_no_match(s: Seq<PlacedBlock>, x: int, y: int, z: int)
    requires
        forall|j: int| 0 <= j < s.len() ==> !placed_at(#[trigger] s[j], x, y, z),
    ensures
        boxes_in(s, x, y, z).len() == 0,
    decreases s.len(),
{
    if s.len() > 0 {
        let t = s.drop_first();
        assert(forall|j: int| 0 <= j < t.len() ==> t[j] == s[j + 1] && !placed_at(#[trigger] t[j], x, y, z));
        lemma_boxes_in_no_match(t, x, y, z);
    }
}

/// In a well-formed world every box `boxes_in` yields is block-local.
pub proof fn lemma_boxes_in_ok(w: World, x: int, y: int, z: int)
    requires
        wf_world(w),
    ensures
        forall|k: int|
            0 <= k < boxes_in(w.blocks@, x, y, z).len()
                ==> block_box_ok(#[trigger] boxes_in(w.blocks@, x, y, z)[k]),
{
    if exists|j: int| 0 <= j < w.blocks@.len() && placed_at(#[trigger] w.blocks@[j], x, y, z) {
        let jw = choose|j: int| 0 <= j < w.blocks@.len() && placed_at(#[trigger] w.blocks@[j], x, y, z);
        let jf = first_match(w.blocks@, x, y, z, jw);
        lemma_boxes_in_first_match(w.blocks@, x, y, z, jf);
        assert(forall|k: int|
            0 <= k < w.blocks@[jf].block.boxes@.len()
                ==> block_box_ok(#[trigger] w.blocks@[jf].block.boxes@[k]@));
        assert(forall|k: int|
            0 <= k < boxes_in(w.blocks@, x, y, z).len()
                ==> boxes_in(w.blocks@, x, y, z)[k] == w.blocks@[jf].block.boxes@[k]@);
    } else {
        lemma_boxes_in_no_match(w.blocks@, x, y, z);
    }
}

/// The least index at or before `j` whose block sits at `(x, y, z)`.
proof fn first_match(s: Seq<PlacedBlock>, x: int, y: int, z: int, j: int) -> (r: int)
    requires
        0 <= j < s.len(),
        placed_at(s[j], x, y, z),
    ensures
        0 <= r < s.len(),
        placed_at(s[r], x, y, z),
        forall|q: int| 0 <= q < r ==> !placed_at(#[trigger] s[q], x, y, z),
    decreases j,
{
    if exists|q: int| 0 <= q < j && placed_at(#[trigger] s[q], x, y, z) {
        let q0 = choose|q: int| 0 <= q < j && placed_at(#[trigger] s[q], x, y, z);
        first_match(s, x, y, z, q0)
    } else {
        j
    }
}

} // verus!
