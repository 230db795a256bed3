use vstd::prelude::*;

verus! {

/// A 3-vector with integer coordinates.
///
/// Used both for lattice positions (corner and edge-midpoint coordinates
/// of the voxel grid) and for the unnormalized face normals derived from
/// them.  The host scales lattice coordinates into world space.
#[derive(Clone, Copy, PartialEq, Eq, Structural, Debug)]
pub struct Vec3i {
    pub x: i64,
    pub y: i64,
    pub z: i64,
}

/// A 2-vector with integer coordinates, used for texture coordinates.
#[derive(Clone, Copy, PartialEq, Eq, Structural, Debug)]
pub struct Vec2i {
    pub u: i64,
    pub v: i64,
}

/// The cross product of `(v1 - v0)` and `(v2 - v0)`, componentwise over
/// unbounded integers and then truncated to `i64`.  For the lattice
/// triangles this crate emits, the differences are at most two lattice
/// units, so no truncation ever happens there.
pub open spec fn spec_tri_normal(v0: Vec3i, v1: Vec3i, v2: Vec3i) -> Vec3i {
    let ax = v1.x - v0.x;
    let ay = v1.y - v0.y;
    let az = v1.z - v0.z;
    let bx = v2.x - v0.x;
    let by = v2.y - v0.y;
    let bz = v2.z - v0.z;
    Vec3i {
        x: (ay * bz - az * by) as i64,
        y: (az * bx - ax * bz) as i64,
        z: (ax * by - ay * bx) as i64,
    }
}

/// Flat face normal of the triangle `(v0, v1, v2)`: the cross product of
/// `(v1 - v0)` and `(v2 - v0)`, unnormalized.  The bound on the inputs
/// rules out overflow; the result is then the exact integer cross product.
pub fn tri_normal(v0: Vec3i, v1: Vec3i, v2: Vec3i) -> (r: Vec3i)
    requires
        -0x4000_0000 < v1.x - v0.x < 0x4000_0000,
        -0x4000_0000 < v1.y - v0.y < 0x4000_0000,
        -0x4000_0000 < v1.z - v0.z < 0x4000_0000,
        -0x4000_0000 < v2.x - v0.x < 0x4000_0000,
        -0x4000_0000 < v2.y - v0.y < 0x4000_0000,
        -0x4000_0000 < v2.z - v0.z < 0x4000_0000,
    ensures
        r == spec_tri_normal(v0, v1, v2),
        r.x == (v1.y - v0.y) * (v2.z - v0.z) - (v1.z - v0.z) * (v2.y - v0.y),
        r.y == (v1.z - v0.z) * (v2.x - v0.x) - (v1.x - v0.x) * (v2.z - v0.z),
        r.z == (v1.x - v0.x) * (v2.y - v0.y) - (v1.y - v0.y) * (v2.x - v0.x),
{
    let ax: i64 = v1.x - v0.x;
    let ay: i64 = v1.y - v0.y;
    let az: i64 = v1.z - v0.z;
    let bx: i64 = v2.x - v0.x;
    let by: i64 = v2.y - v0.y;
    let bz: i64 = v2.z - v0.z;
    assert(-0x1000_0000_0000_0000 < ay * bz < 0x1000_0000_0000_0000
        && -0x1000_0000_0000_0000 < az * by < 0x1000_0000_0000_0000
        && -0x1000_0000_0000_0000 < az * bx < 0x1000_0000_0000_0000
        && -0x1000_0000_0000_0000 < ax * bz < 0x1000_0000_0000_0000
        && -0x1000_0000_0000_0000 < ax * by < 0x1000_0000_0000_0000
        && -0x1000_0000_0000_0000 < ay * bx < 0x1000_0000_0000_0000) by (nonlinear_arith)
        requires
            -0x4000_0000 < ax < 0x4000_0000,
            -0x4000_0000 < ay < 0x4000_0000,
            -0x4000_0000 < az < 0x4000_0000,
            -0x4000_0000 < bx < 0x4000_0000,
            -0x4000_0000 < by < 0x4000_0000,
            -0x4000_0000 < bz < 0x4000_0000,
    ;
    Vec3i { x: ay * bz - az * by, y: az * bx - ax * bz, z: ax * by - ay * bx }
}

/// The crossing point emitted for an active cell edge, as unbounded
/// integer math truncated to `i64`: the arithmetic midpoint of the two
/// corner lattice positions.  Corner lattice coordinates are even, so the
/// division is exact.
pub open spec fn spec_interp_vertex(p1: Vec3i, p2: Vec3i) -> Vec3i {
    Vec3i {
        x: (((p1.x + p2.x) / 2) as i64),
        y: (((p1.y + p2.y) / 2) as i64),
        z: (((p1.z + p2.z) / 2) as i64),
    }
}

/// Interpolates the surface crossing on the cell edge between corner
/// lattice positions `p1` and `p2`.  The isovalue threshold of zero is
/// applied to a fixed pair of reference values on either side of the
/// surface, so the parameter is always one half and the crossing point is
/// always the geometric midpoint of the edge, whatever the corners'
/// sampled occupancy magnitudes were.
pub fn interp_vertex(p1: Vec3i, p2: Vec3i) -> (r: Vec3i)
    requires
        -0x4000_0000_0000 < p1.x + p2.x < 0x4000_0000_0000,
        -0x4000_0000_0000 < p1.y + p2.y < 0x4000_0000_0000,
        -0x4000_0000_0000 < p1.z + p2.z < 0x4000_0000_0000,
        (p1.x + p2.x) % 2 == 0,
        (p1.y + p2.y) % 2 == 0,
        (p1.z + p2.z) % 2 == 0,
    ensures
        r == spec_interp_vertex(p1, p2),
        2 * r.x == p1.x + p2.x,
        2 * r.y == p1.y + p2.y,
        2 * r.z == p1.z + p2.z,
{
    let r = Vec3i { x: (p1.x + p2.x) / 2, y: (p1.y + p2.y) / 2, z: (p1.z + p2.z) / 2 };
    assert(2 * ((p1.x + p2.x) / 2) == p1.x + p2.x && 2 * ((p1.y + p2.y) / 2) == p1.y + p2.y
        && 2 * ((p1.z + p2.z) / 2) == p1.z + p2.z) by (nonlinear_arith)
        requires
            (p1.x + p2.x) % 2 == 0,
            (p1.y + p2.y) % 2 == 0,
            (p1.z + p2.z) % 2 == 0,
    ;
    r
}

} // verus!
