//! Axis-aligned boxes in fixed-point space: the overlap test and the
//! directional "move out of" resolution that the collision sweep applies.

use vstd::prelude::*;
use crate::fixed::EPS;

verus! {

/// A point or displacement, in fixed-point sub-units.
#[derive(Clone, Copy, PartialEq, Eq, Structural, Debug)]
pub struct Vec3 {
    pub x: i64,
    pub y: i64,
    pub z: i64,
}

/// An axis-aligned box with corners `min` and `max`.
#[derive(Clone, Copy, PartialEq, Eq, Structural, Debug)]
pub struct Aabb {
    pub min: Vec3,
    pub max: Vec3,
}

/// The mathematical value of a `Vec3`: a point of unbounded integers.
pub struct GVec {
    pub x: int,
    pub y: int,
    pub z: int,
}

/// The mathematical value of an `Aabb`.
pub struct GBox {
    pub min: GVec,
    pub max: GVec,
}

impl View for Vec3 {
    type V = GVec;

    open spec fn view(&self) -> GVec {
        GVec { x: self.x as int, y: self.y as int, z: self.z as int }
    }
}

impl View for Aabb {
    type V = GBox;

    open spec fn view(&self) -> GBox {
        GBox { min: self.min@, max: self.max@ }
    }
}

pub open spec fn gvec_add(a: GVec, b: GVec) -> GVec {
    GVec { x: a.x + b.x, y: a.y + b.y, z: a.z + b.z }
}

pub open spec fn gvec_sub(a: GVec, b: GVec) -> GVec {
    GVec { x: a.x - b.x, y: a.y - b.y, z: a.z - b.z }
}

pub open spec fn gbox_translate(b: GBox, v: GVec) -> GBox {
    GBox { min: gvec_add(b.min, v), max: gvec_add(b.max, v) }
}

/// Both corners of `b` have all coordinates of magnitude at most `m`.
pub open spec fn gbox_within(b: GBox, m: int) -> bool {
    &&& -m <= b.min.x <= m
    &&& -m <= b.min.y <= m
    &&& -m <= b.min.z <= m
    &&& -m <= b.max.x <= m
    &&& -m <= b.max.y <= m
    &&& -m <= b.max.z <= m
}

/// All coordinates of `v` have magnitude at most `m`.
pub open spec fn gvec_within(v: GVec, m: int) -> bool {
    &&& -m <= v.x <= m
    &&& -m <= v.y <= m
    &&& -m <= v.z <= m
}

/// `min` does not exceed `max` on any axis.
pub open spec fn gbox_ordered(b: GBox) -> bool {
    b.min.x <= b.max.x && b.min.y <= b.max.y && b.min.z <= b.max.z
}

/// `a` and `t` share volume.  Touching faces (one box's `max` equal to the
/// other's `min` on some axis) do not count as overlap.
pub open spec fn spec_collides(a: GBox, t: GBox) -> bool {
    !(t.min.x >= a.max.x || t.max.x <= a.min.x || t.min.y >= a.max.y || t.max.y <= a.min.y
        || t.min.z >= a.max.z || t.max.z <= a.min.z)
}

/// One axis of the resolution: clamp `(mn, mx)` out of `(omn, omx)` on the
/// side given by the sign of `d`, keeping the extent `mx - mn`.
pub open spec fn resolve_axis(mn: int, mx: int, omn: int, omx: int, d: int) -> (int, int) {
    if d == 0 {
        (mn, mx)
    } else if d > 0 {
        let nmx = omn - EPS;
        (mn + (nmx - mx), nmx)
    } else {
        let nmn = omx + EPS;
        (nmn, mx + (nmn - mn))
    }
}

/// Move `a` out of `o`, on each axis where `dir` is nonzero, toward the side
/// `dir` came from, leaving an `EPS` gap.
pub open spec fn spec_move_out_of(a: GBox, o: GBox, dir: GVec) -> GBox {
    let rx = resolve_axis(a.min.x, a.max.x, o.min.x, o.max.x, dir.x);
    let ry = resolve_axis(a.min.y, a.max.y, o.min.y, o.max.y, dir.y);
    let rz = resolve_axis(a.min.z, a.max.z, o.min.z, o.max.z, dir.z);
    GBox {
        min: GVec { x: rx.0, y: ry.0, z: rz.0 },
        max: GVec { x: rx.1, y: ry.1, z: rz.1 },
    }
}

impl Aabb {
    /// The box translated by `v`.
    pub fn add_v(self, v: Vec3) -> (r: Aabb)
        requires
            gbox_within(self@, 0x1000_0000_0000_0000),
            gvec_within(v@, 0x1000_0000_0000_0000),
        ensures
            r@ == gbox_translate(self@, v@),
    {
        Aabb {
            min: Vec3 { x: self.min.x + v.x, y: self.min.y + v.y, z: self.min.z + v.z },
            max: Vec3 { x: self.max.x + v.x, y: self.max.y + v.y, z: self.max.z + v.z },
        }
    }

    /// True when the two boxes share volume; touching faces do not overlap.
    pub fn collides(&self, t: &Aabb) -> (r: bool)
        ensures
            r == spec_collides(self@, t@),
    {
        !(t.min.x >= self.max.x || t.max.x <= self.min.x || t.min.y >= self.max.y
            || t.max.y <= self.min.y || t.min.z >= self.max.z || t.max.z <= self.min.z)
    }

    /// Clamp this box out of `other` on every axis where `dir` is nonzero,
    /// toward the side `dir` came from, leaving an `EPS` gap and keeping the
    /// box's extent on each axis.
    pub fn move_out_of(self, other: Aabb, dir: Vec3) -> (r: Aabb)
        requires
            gbox_within(self@, 0x2000_0000_0000_0000),
            gbox_within(other@, 0x2000_0000_0000_0000),
        ensures
            r@ == spec_move_out_of(self@, other@, dir@),
    {
        let mut m = self;
        if dir.x != 0 {
            if dir.x > 0 {
                let ox = m.max.x;
                m.max.x = other.min.x - EPS;
                m.min.x = m.min.x + (m.max.x - ox);
            } else {
                let ox = m.min.x;
                m.min.x = other.max.x + EPS;
                m.max.x = m.max.x + (m.min.x - ox);
            }
        }
        if dir.y != 0 {
            if dir.y > 0 {
                let oy = m.max.y;
                m.max.y = other.min.y - EPS;
                m.min.y = m.min.y + (m.max.y - oy);
            } else {
                let oy = m.min.y;
                m.min.y = other.max.y + EPS;
                m.max.y = m.max.y + (m.min.y - oy);
            }
        }
        if dir.z != 0 {
            if dir.z > 0 {
                let oz = m.max.z;
                m.max.z = other.min.z - EPS;
                m.min.z = m.min.z + (m.max.z - oz);
            } else {
                let oz = m.min.z;
                m.min.z = other.max.z + EPS;
                m.max.z = m.max.z + (m.min.z - oz);
            }
        }
        m
    }
}

/// Overlap is symmetric: `A` overlaps `B` exactly when `B` overlaps `A`.
pub proof fn lemma_collides_symmetric(a: GBox, b: GBox)
    ensures
        spec_collides(a, b) == spec_collides(b, a),
{
}

/// Boxes that share a face do not overlap: if one box's `max` equals the
/// other's `min` on some axis, the overlap test is false whatever the other
/// axes do.
pub proof fn lemma_touching_faces_do_not_collide(a: GBox, b: GBox)
    requires
        a.max.x == b.min.x || b.max.x == a.min.x || a.max.y == b.min.y || b.max.y == a.min.y
            || a.max.z == b.min.z || b.max.z == a.min.z,
    ensures
        !spec_collides(a, b),
{
}

/// Resolving a box that already sits at the epsilon gap returns it
/// unchanged: on each axis where `dir` is nonzero the box already ends
/// exactly `EPS` short of `o` on the side `dir` came from.
pub proof fn lemma_resolve_at_gap_unchanged(a: GBox, o: GBox, dir: GVec)
    requires
        dir.x > 0 ==> a.max.x == o.min.x - EPS,
        dir.x < 0 ==> a.min.x == o.max.x + EPS,
        dir.y > 0 ==> a.max.y == o.min.y - EPS,
        dir.y < 0 ==> a.min.y == o.max.y + EPS,
        dir.z > 0 ==> a.max.z == o.min.z - EPS,
        dir.z < 0 ==> a.min.z == o.max.z + EPS,
    ensures
        spec_move_out_of(a, o, dir) == a,
{
}

/// Resolving twice against the same box in the same direction is the same
/// as resolving once.
pub proof fn lemma_resolve_idempotent(a: GBox, o: GBox, dir: GVec)
    ensures
        spec_move_out_of(spec_move_out_of(a, o, dir), o, dir) == spec_move_out_of(a, o, dir),
{
}

/// Resolution never changes a box's extent on any axis, only its position.
pub proof fn lemma_resolve_preserves_size(a: GBox, o: GBox, dir: GVec)
    ensures
        spec_move_out_of(a, o, dir).max.x - spec_move_out_of(a, o, dir).min.x == a.max.x - a.min.x,
        spec_move_out_of(a, o, dir).max.y - spec_move_out_of(a, o, dir).min.y == a.max.y - a.min.y,
        spec_move_out_of(a, o, dir).max.z - spec_move_out_of(a, o, dir).min.z == a.max.z - a.min.z,
{
}

} // verus!
