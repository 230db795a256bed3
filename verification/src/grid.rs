use vstd::prelude::*;

use crate::geom::Vec3i;

verus! {

/// The source mesh could not yield a usable containment structure, or the
/// requested grid shape is malformed.  The object is left without a grid
/// and must not be polygonized.
#[derive(Clone, Copy, PartialEq, Eq, Structural, Debug)]
pub struct GeometryError;

/// Axis-aligned box, `min`/`max` corners.  Coordinates are in tenths of
/// the host's fixed-point unit, so the ten-percent expansion applied by
/// [`expand_bounds`] is exact.
#[derive(Clone, Copy, PartialEq, Eq, Structural, Debug)]
pub struct Bounds {
    pub min: Vec3i,
    pub max: Vec3i,
}

/// Cells per axis may not exceed this, so that a grid's flat data array
/// and the polygonizer's sequential `u32` triangle indices cannot
/// overflow.
pub const MAX_RESOLUTION: usize = 512;

/// A grid shape is usable when every axis has at least two corners (a
/// cell needs both ends of each axis) and stays within [`MAX_RESOLUTION`].
pub open spec fn resolution_ok(res: [usize; 3]) -> bool {
    &&& 2 <= res[0] <= MAX_RESOLUTION
    &&& 2 <= res[1] <= MAX_RESOLUTION
    &&& 2 <= res[2] <= MAX_RESOLUTION
}

/// Position of corner `(x, y, z)` in the flat data array.
pub open spec fn flat_index(res: [usize; 3], x: int, y: int, z: int) -> int {
    z * (res[1] * res[0]) + y * (res[0] as int) + x
}

/// A dense scalar occupancy field over an axis-aligned bounding box.
/// A corner with a strictly positive value counts as inside the surface.
pub struct VoxelGrid {
    /// Corners per axis.
    pub resolution: [usize; 3],
    /// One scalar per corner, addressed by [`flat_index`].
    pub data: Vec<i64>,
    /// The box the grid samples, in tenths of the host unit.
    pub bounds: Bounds,
}

impl VoxelGrid {
    /// The grid's shape is usable and the data array covers every corner.
    pub open spec fn wf(self) -> bool {
        &&& resolution_ok(self.resolution)
        &&& self.data@.len() == self.resolution[0] * self.resolution[1] * self.resolution[2]
    }

    /// The stored occupancy value of corner `(x, y, z)`.
    pub fn get(&self, x: usize, y: usize, z: usize) -> (v: i64)
        requires
            self.wf(),
            x < self.resolution[0],
            y < self.resolution[1],
            z < self.resolution[2],
        ensures
            v == self.data@[flat_index(self.resolution, x as int, y as int, z as int)],
    {
        proof {
            lemma_flat_index_bound(
                self.resolution[0] as int,
                self.resolution[1] as int,
                self.resolution[2] as int,
                x as int,
                y as int,
                z as int,
            );
        }
        self.data[z * (self.resolution[1] * self.resolution[0]) + y * self.resolution[0] + x]
    }
}

/// `mn` and `mx` bound the first `n` vertices of `s` on every axis.
pub open spec fn covers_to(s: Seq<Vec3i>, n: int, mn: Vec3i, mx: Vec3i) -> bool {
    forall|i: int|
        0 <= i < n ==> {
            let v = #[trigger] s[i];
            mn.x <= v.x <= mx.x && mn.y <= v.y <= mx.y && mn.z <= v.z <= mx.z
        }
}

/// `mn` and `mx` bound every vertex of `s` on every axis.
pub open spec fn covers(s: Seq<Vec3i>, mn: Vec3i, mx: Vec3i) -> bool {
    covers_to(s, s.len() as int, mn, mx)
}

/// Every coordinate of `mn` and `mx` is attained by one of the first `n`
/// vertices of `s`.
pub open spec fn attained_to(s: Seq<Vec3i>, n: int, mn: Vec3i, mx: Vec3i) -> bool {
    &&& exists|i: int| 0 <= i < n && (#[trigger] s[i]).x == mn.x
    &&& exists|i: int| 0 <= i < n && (#[trigger] s[i]).y == mn.y
    &&& exists|i: int| 0 <= i < n && (#[trigger] s[i]).z == mn.z
    &&& exists|i: int| 0 <= i < n && (#[trigger] s[i]).x == mx.x
    &&& exists|i: int| 0 <= i < n && (#[trigger] s[i]).y == mx.y
    &&& exists|i: int| 0 <= i < n && (#[trigger] s[i]).z == mx.z
}

/// Every coordinate of `mn` and `mx` is attained by some vertex of `s`:
/// together with [`covers`] this pins the tight bounding box.
pub open spec fn attained(s: Seq<Vec3i>, mn: Vec3i, mx: Vec3i) -> bool {
    attained_to(s, s.len() as int, mn, mx)
}

/// The tight bounding box of a vertex list: componentwise minimum and
/// maximum over all vertices.  An empty list has no box and is rejected,
/// as a mesh without vertices cannot be voxelized.
pub fn tight_bounds(vertices: &Vec<Vec3i>) -> (r: Result<(Vec3i, Vec3i), GeometryError>)
    ensures
        r is Ok <==> vertices@.len() > 0,
        r matches Ok(b) ==> covers(vertices@, b.0, b.1) && attained(vertices@, b.0, b.1),
{
    if vertices.len() == 0 {
        return Err(GeometryError);
    }
    let first = vertices[0];
    let mut mn = first;
    let mut mx = first;
    let mut i: usize = 1;
    while i < vertices.len()
        invariant
            1 <= i <= vertices@.len(),
            covers_to(vertices@, i as int, mn, mx),
            attained_to(vertices@, i as int, mn, mx),
        decreases vertices@.len() - i,
    {
        let v = vertices[i];
        if v.x < mn.x {
            mn.x = v.x;
        }
        if v.y < mn.y {
            mn.y = v.y;
        }
        if v.z < mn.z {
            mn.z = v.z;
        }
        if v.x > mx.x {
            mx.x = v.x;
        }
        if v.y > mx.y {
            mx.y = v.y;
        }
        if v.z > mx.z {
            mx.z = v.z;
        }
        i += 1;
    }
    Ok((mn, mx))
}

/// Largest coordinate magnitude accepted by [`expand_bounds`], so that the
/// ten-percent expansion cannot overflow.
pub const MAX_BOUND_COORD: i64 = 0x100_0000_0000_0000;

/// Expands a tight bounding box by ten percent: every scalar of both
/// corners is multiplied by 1.1.  The inputs are in host units; the result
/// is in tenths of a host unit, so the multiplication is exact.  Note the
/// rule multiplies each scalar rather than padding outward, so a box not
/// centered at the origin also shifts; this reproduces the sampling
/// contract the rest of the pipeline is built on.
pub fn expand_bounds(mn: Vec3i, mx: Vec3i) -> (r: Bounds)
    requires
        -MAX_BOUND_COORD < mn.x < MAX_BOUND_COORD,
        -MAX_BOUND_COORD < mn.y < MAX_BOUND_COORD,
        -MAX_BOUND_COORD < mn.z < MAX_BOUND_COORD,
        -MAX_BOUND_COORD < mx.x < MAX_BOUND_COORD,
        -MAX_BOUND_COORD < mx.y < MAX_BOUND_COORD,
        -MAX_BOUND_COORD < mx.z < MAX_BOUND_COORD,
    ensures
        r.min.x == 11 * mn.x && r.min.y == 11 * mn.y && r.min.z == 11 * mn.z,
        r.max.x == 11 * mx.x && r.max.y == 11 * mx.y && r.max.z == 11 * mx.z,
{
    Bounds {
        min: Vec3i { x: 11 * mn.x, y: 11 * mn.y, z: 11 * mn.z },
        max: Vec3i { x: 11 * mx.x, y: 11 * mx.y, z: 11 * mx.z },
    }
}

/// Position, in the ray-cast result list, of the sample for corner
/// `(x, y, z)`; only corners one short of the last plane on each axis are
/// sampled.
pub open spec fn sample_index(res: [usize; 3], x: int, y: int, z: int) -> int {
    z * ((res[1] - 1) * (res[0] - 1)) + y * (res[0] - 1) + x
}

/// All six rays cast from sample `s` (along `+x, +y, +z, -x, -y, -z`)
/// reported a hit.
pub open spec fn all_six(hits: Seq<bool>, s: int) -> bool {
    &&& hits[6 * s]
    &&& hits[6 * s + 1]
    &&& hits[6 * s + 2]
    &&& hits[6 * s + 3]
    &&& hits[6 * s + 4]
    &&& hits[6 * s + 5]
}

/// The occupancy value stored for corner `(x, y, z)`: one when the corner
/// was sampled and all six of its rays hit the source mesh, zero
/// otherwise.  Corners on the last plane of any axis are never sampled and
/// stay at zero.
pub open spec fn corner_occupancy(res: [usize; 3], hits: Seq<bool>, x: int, y: int, z: int) -> int {
    if x < res[0] - 1 && y < res[1] - 1 && z < res[2] - 1 {
        if all_six(hits, sample_index(res, x, y, z)) {
            1
        } else {
            0
        }
    } else {
        0
    }
}

/// Corner `(x, y, z)` comes before `(cx, cy, cz)` in the fill order
/// (`z` outermost, then `y`, then `x`).
pub open spec fn lex_before(x: int, y: int, z: int, cx: int, cy: int, cz: int) -> bool {
    ||| z < cz
    ||| (z == cz && y < cy)
    ||| (z == cz && y == cy && x < cx)
}

impl VoxelGrid {
    /// Builds the grid from the six-ray containment test results.  The
    /// host casts, for every sampled corner in fill order, six length-
    /// capped rays along the positive and negative axis directions against
    /// the source mesh, and hands the hit flags over as one flat list; a
    /// corner is occupied exactly when all six of its rays hit.  A
    /// malformed resolution or a hit list of the wrong length yields
    /// `GeometryError` and no grid.
    pub fn from_hits(resolution: [usize; 3], bounds: Bounds, hits: &Vec<bool>) -> (r: Result<
        VoxelGrid,
        GeometryError,
    >)
        ensures
            r is Ok <==> (resolution_ok(resolution) && hits@.len() == 6 * ((resolution[0] - 1) * (
            resolution[1] - 1) * (resolution[2] - 1))),
            r matches Ok(g) ==> {
                &&& g.wf()
                &&& g.resolution == resolution
                &&& g.bounds == bounds
                &&& forall|x: int, y: int, z: int|
                    0 <= x < resolution[0] && 0 <= y < resolution[1] && 0 <= z < resolution[2]
                        ==> g.data@[#[trigger] flat_index(resolution, x, y, z)]
                        == corner_occupancy(resolution, hits@, x, y, z)
            },
    {
        let rx = resolution[0];
        let ry = resolution[1];
        let rz = resolution[2];
        if rx < 2 || rx > MAX_RESOLUTION || ry < 2 || ry > MAX_RESOLUTION || rz < 2 || rz
            > MAX_RESOLUTION {
            return Err(GeometryError);
        }
        let sx = rx - 1;
        let sy = ry - 1;
        let sz = rz - 1;
        proof {
            lemma_flat_index_bound(sx as int, sy as int, sz as int, 0, 0, 0);
            lemma_flat_index_bound(rx as int, ry as int, rz as int, 0, 0, 0);
        }
        if hits.len() != 6 * (sx * sy * sz) {
            return Err(GeometryError);
        }
        let mut data: Vec<i64> = Vec::new();
        let mut z: usize = 0;
        while z < rz
            invariant
                rx == resolution[0] && ry == resolution[1] && rz == resolution[2],
                sx == rx - 1 && sy == ry - 1 && sz == rz - 1,
                resolution_ok(resolution),
                hits@.len() == 6 * (sx * sy * sz),
                z <= rz,
                data@.len() == z * (ry * rx),
                filled_to(resolution, hits@, data@, 0, 0, z as int),
            decreases rz - z,
        {
            let mut y: usize = 0;
            while y < ry
                invariant
                    rx == resolution[0] && ry == resolution[1] && rz == resolution[2],
                    sx == rx - 1 && sy == ry - 1 && sz == rz - 1,
                    resolution_ok(resolution),
                    hits@.len() == 6 * (sx * sy * sz),
                    z < rz,
                    y <= ry,
                    data@.len() == z * (ry * rx) + y * rx,
                    filled_to(resolution, hits@, data@, 0, y as int, z as int),
                decreases ry - y,
            {
                let mut x: usize = 0;
                while x < rx
                    invariant
                        rx == resolution[0] && ry == resolution[1] && rz == resolution[2],
                        sx == rx - 1 && sy == ry - 1 && sz == rz - 1,
                        resolution_ok(resolution),
                        hits@.len() == 6 * (sx * sy * sz),
                        z < rz,
                        y < ry,
                        x <= rx,
                        data@.len() == z * (ry * rx) + y * rx + x,
                        filled_to(resolution, hits@, data@, x as int, y as int, z as int),
                    decreases rx - x,
                {
                    let occ: i64 = if x < sx && y < sy && z < sz {
                        proof {
                            lemma_flat_index_bound(
                                sx as int,
                                sy as int,
                                sz as int,
                                x as int,
                                y as int,
                                z as int,
                            );
                        }
                        let s = z * (sy * sx) + y * sx + x;
                        if hits[6 * s] && hits[6 * s + 1] && hits[6 * s + 2] && hits[6 * s + 3]
                            && hits[6 * s + 4] && hits[6 * s + 5] {
                            1
                        } else {
                            0
                        }
                    } else {
                        0
                    };
                    data.push(occ);
                    x += 1;
                }
                proof {
                    assert((y + 1) * rx == y * rx + rx) by (nonlinear_arith);
                }
                y += 1;
            }
            proof {
                assert((z + 1) * (ry * rx) == z * (ry * rx) + ry * rx) by (nonlinear_arith);
            }
            z += 1;
        }
        proof {
            lemma_flat_index_bound(rx as int, ry as int, rz as int, 0, 0, 0);
        }
        Ok(VoxelGrid { resolution, data, bounds })
    }
}

/// Every corner before position `(cx, cy, cz)` in fill order has been
/// written with its occupancy value.
pub open spec fn filled_to(
    res: [usize; 3],
    hits: Seq<bool>,
    data: Seq<i64>,
    cx: int,
    cy: int,
    cz: int,
) -> bool {
    forall|x: int, y: int, z: int|
        0 <= x < res[0] && 0 <= y < res[1] && 0 <= z < res[2] && lex_before(x, y, z, cx, cy, cz)
            ==> 0 <= #[trigger] flat_index(res, x, y, z) < data.len() && data[flat_index(
            res,
            x,
            y,
            z,
        )] == corner_occupancy(res, hits, x, y, z)
}

/// For corners inside the grid shape, the flat index is inside the data
/// array, and the partial products stay small.
pub proof fn lemma_flat_index_bound(a: int, b: int, c: int, x: int, y: int, z: int)
    by (nonlinear_arith)
    requires
        0 <= x < a,
        0 <= y < b,
        0 <= z < c,
        a <= 512,
        b <= 512,
        c <= 512,
    ensures
        0 <= z * (b * a) + y * a + x < c * (b * a),
        c * (b * a) == a * b * c,
        c * (b * a) <= 0x8000000,
        b * a <= 0x40000,
        0 <= z * (b * a) <= 0x8000000,
        0 <= y * a <= 0x40000,
{
}

} // verus!
