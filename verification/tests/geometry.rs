use voxel_physics::geom::{Aabb, Vec3};

fn boxed(x0: i64, y0: i64, z0: i64, x1: i64, y1: i64, z1: i64) -> Aabb {
    Aabb { min: Vec3 { x: x0, y: y0, z: z0 }, max: Vec3 { x: x1, y: y1, z: z1 } }
}

#[test]
fn overlap_symmetry_on_overlapping_boxes() {
    let a = boxed(0, 0, 0, 120000, 120000, 120000);
    let b = boxed(60000, 60000, 60000, 180000, 180000, 180000);
    assert!(a.collides(&b));
    assert!(b.collides(&a));
    assert_eq!(a.collides(&b), b.collides(&a));
}

#[test]
fn overlap_symmetry_on_separated_boxes() {
    let a = boxed(0, 0, 0, 120000, 120000, 120000);
    let b = boxed(500000, 0, 0, 620000, 120000, 120000);
    assert!(!a.collides(&b));
    assert!(!b.collides(&a));
    assert_eq!(a.collides(&b), b.collides(&a));
}

#[test]
fn touching_faces_do_not_overlap() {
    // A's max.x equals B's min.x; every other axis overlaps fully.
    let a = boxed(0, 0, 0, 120000, 120000, 120000);
    let b = boxed(120000, 0, 0, 240000, 120000, 120000);
    assert!(!a.collides(&b));
    assert!(!b.collides(&a));
}

#[test]
fn resolve_along_positive_x_leaves_epsilon_gap() {
    // Moving in +x into a block: max.x is pulled back to the obstacle's
    // min.x minus the epsilon (12 sub-units = 1e-4 world units).
    let a = boxed(60000, 0, 0, 132000, 216000, 72000);
    let o = boxed(120000, 0, 0, 240000, 120000, 120000);
    let r = a.move_out_of(o, Vec3 { x: 5000, y: 0, z: 0 });
    assert_eq!(r.max.x, 120000 - 12);
    assert_eq!(r.min.x, 120000 - 12 - 72000);
    // Untouched axes keep their corners.
    assert_eq!(r.min.y, 0);
    assert_eq!(r.max.y, 216000);
    assert_eq!(r.min.z, 0);
    assert_eq!(r.max.z, 72000);
}

#[test]
fn resolve_along_negative_x_leaves_epsilon_gap() {
    let a = boxed(110000, 0, 0, 182000, 216000, 72000);
    let o = boxed(0, 0, 0, 120000, 120000, 120000);
    let r = a.move_out_of(o, Vec3 { x: -5000, y: 0, z: 0 });
    assert_eq!(r.min.x, 120000 + 12);
    assert_eq!(r.max.x, 120000 + 12 + 72000);
}

#[test]
fn resolve_at_epsilon_gap_is_unchanged() {
    // A box already exactly at the epsilon gap is returned unchanged.
    let a = boxed(120000 - 12 - 72000, 0, 0, 120000 - 12, 216000, 72000);
    let o = boxed(120000, 0, 0, 240000, 120000, 120000);
    let r = a.move_out_of(o, Vec3 { x: 5000, y: 0, z: 0 });
    assert_eq!(r, a);
}

#[test]
fn resolve_twice_equals_resolve_once() {
    let a = boxed(60000, 10000, -30000, 132000, 226000, 42000);
    let o = boxed(120000, 0, 0, 240000, 120000, 120000);
    let d = Vec3 { x: 7, y: -3, z: 2 };
    let r1 = a.move_out_of(o, d);
    let r2 = r1.move_out_of(o, d);
    assert_eq!(r2, r1);
}

#[test]
fn resolve_preserves_extent_on_every_axis() {
    let a = boxed(60000, 10000, -30000, 132000, 226000, 42000);
    let o = boxed(120000, 0, 0, 240000, 120000, 120000);
    let d = Vec3 { x: 7, y: -3, z: 2 };
    let r = a.move_out_of(o, d);
    assert_eq!(r.max.x - r.min.x, a.max.x - a.min.x);
    assert_eq!(r.max.y - r.min.y, a.max.y - a.min.y);
    assert_eq!(r.max.z - r.min.z, a.max.z - a.min.z);
}

#[test]
fn translate_moves_both_corners() {
    let a = boxed(-36000, 0, -36000, 36000, 216000, 36000);
    let r = a.add_v(Vec3 { x: 120000, y: 240000, z: -120000 });
    assert_eq!(r.min, Vec3 { x: 84000, y: 240000, z: -156000 });
    assert_eq!(r.max, Vec3 { x: 156000, y: 456000, z: -84000 });
}
