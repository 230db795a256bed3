use vstd::prelude::*;

use crate::geom::{interp_vertex, spec_interp_vertex, Vec3i};
use crate::grid::{flat_index, VoxelGrid, MAX_RESOLUTION};

verus! {

/// Offset of cube corner `i` from the cell origin.  The order fixes the
/// bit significance of the cube index: bit `i` stands for corner `i`.
pub open spec fn corner_offset(i: int) -> (int, int, int) {
    if i == 0 {
        (0, 0, 1)
    } else if i == 1 {
        (1, 0, 1)
    } else if i == 2 {
        (1, 0, 0)
    } else if i == 3 {
        (0, 0, 0)
    } else if i == 4 {
        (0, 1, 1)
    } else if i == 5 {
        (1, 1, 1)
    } else if i == 6 {
        (1, 1, 0)
    } else {
        (0, 1, 0)
    }
}

/// The pair of cube corners joined by edge `e`.
pub open spec fn edge_corners(e: int) -> (int, int) {
    if e == 0 {
        (0, 1)
    } else if e == 1 {
        (1, 2)
    } else if e == 2 {
        (2, 3)
    } else if e == 3 {
        (3, 0)
    } else if e == 4 {
        (4, 5)
    } else if e == 5 {
        (5, 6)
    } else if e == 6 {
        (6, 7)
    } else if e == 7 {
        (7, 4)
    } else if e == 8 {
        (0, 4)
    } else if e == 9 {
        (1, 5)
    } else if e == 10 {
        (2, 6)
    } else {
        (3, 7)
    }
}

/// The sampled occupancy of corner `i` of the cell at `(cx, cy, cz)`.
pub open spec fn corner_value(g: VoxelGrid, cx: int, cy: int, cz: int, i: int) -> int {
    g.data@[flat_index(
        g.resolution,
        cx + corner_offset(i).0,
        cy + corner_offset(i).1,
        cz + corner_offset(i).2,
    )] as int
}

/// The cell's configuration: bit `i` is set exactly when corner `i`'s
/// occupancy is strictly positive.
pub open spec fn cube_index_spec(g: VoxelGrid, cx: int, cy: int, cz: int) -> int {
    (if corner_value(g, cx, cy, cz, 0) > 0 {
        1int
    } else {
        0
    }) + (if corner_value(g, cx, cy, cz, 1) > 0 {
        2int
    } else {
        0
    }) + (if corner_value(g, cx, cy, cz, 2) > 0 {
        4int
    } else {
        0
    }) + (if corner_value(g, cx, cy, cz, 3) > 0 {
        8int
    } else {
        0
    }) + (if corner_value(g, cx, cy, cz, 4) > 0 {
        16int
    } else {
        0
    }) + (if corner_value(g, cx, cy, cz, 5) > 0 {
        32int
    } else {
        0
    }) + (if corner_value(g, cx, cy, cz, 6) > 0 {
        64int
    } else {
        0
    }) + (if corner_value(g, cx, cy, cz, 7) > 0 {
        128int
    } else {
        0
    })
}

/// Lattice position of corner `i` of the cell at `(cx, cy, cz)`: twice
/// the corner's grid coordinates, so every corner coordinate is even and
/// edge midpoints land on integers.
pub open spec fn corner_lattice(cx: int, cy: int, cz: int, i: int) -> Vec3i {
    Vec3i {
        x: ((2 * (cx + corner_offset(i).0)) as i64),
        y: ((2 * (cy + corner_offset(i).1)) as i64),
        z: ((2 * (cz + corner_offset(i).2)) as i64),
    }
}

/// The vertex emitted for edge `e` of the cell at `(cx, cy, cz)`: the
/// exact midpoint of the edge's two corner lattice positions.
pub open spec fn edge_midpoint(cx: int, cy: int, cz: int, e: int) -> Vec3i {
    spec_interp_vertex(
        corner_lattice(cx, cy, cz, edge_corners(e).0),
        corner_lattice(cx, cy, cz, edge_corners(e).1),
    )
}

/// The emitted edge vertex is the arithmetic midpoint of the two corner
/// lattice positions: twice each of its coordinates equals the sum of the
/// corners' coordinates, whatever the corners' occupancy values.  Its
/// coordinates stay within twice the grid extent.
pub proof fn lemma_fixed_midpoint(cx: int, cy: int, cz: int, e: int)
    requires
        0 <= cx < MAX_RESOLUTION,
        0 <= cy < MAX_RESOLUTION,
        0 <= cz < MAX_RESOLUTION,
        0 <= e < 12,
    ensures
        ({
            let pa = corner_lattice(cx, cy, cz, edge_corners(e).0);
            let pb = corner_lattice(cx, cy, cz, edge_corners(e).1);
            let m = edge_midpoint(cx, cy, cz, e);
            &&& 2 * m.x == pa.x + pb.x
            &&& 2 * m.y == pa.y + pb.y
            &&& 2 * m.z == pa.z + pb.z
            &&& 0 <= m.x <= 2 * MAX_RESOLUTION
            &&& 0 <= m.y <= 2 * MAX_RESOLUTION
            &&& 0 <= m.z <= 2 * MAX_RESOLUTION
        }),
{
}

/// Two different edges of one cell have different midpoints, so a
/// triangle built over three different edge indices never repeats a
/// vertex.
pub proof fn lemma_distinct_edge_midpoints(cx: int, cy: int, cz: int, e1: int, e2: int)
    requires
        0 <= cx < MAX_RESOLUTION,
        0 <= cy < MAX_RESOLUTION,
        0 <= cz < MAX_RESOLUTION,
        0 <= e1 < 12,
        0 <= e2 < 12,
        e1 != e2,
    ensures
        edge_midpoint(cx, cy, cz, e1) != edge_midpoint(cx, cy, cz, e2),
{
    lemma_fixed_midpoint(cx, cy, cz, e1);
    lemma_fixed_midpoint(cx, cy, cz, e2);
}

/// Computes the cell's configuration from its eight corner occupancies.
pub fn cube_index(g: &VoxelGrid, cx: usize, cy: usize, cz: usize) -> (ci: u8)
    requires
        g.wf(),
        cx + 1 < g.resolution[0],
        cy + 1 < g.resolution[1],
        cz + 1 < g.resolution[2],
    ensures
        ci as int == cube_index_spec(*g, cx as int, cy as int, cz as int),
{
    let mut ci: u8 = 0;
    if g.get(cx, cy, cz + 1) > 0 {
        ci += 1;
    }
    if g.get(cx + 1, cy, cz + 1) > 0 {
        ci += 2;
    }
    if g.get(cx + 1, cy, cz) > 0 {
        ci += 4;
    }
    if g.get(cx, cy, cz) > 0 {
        ci += 8;
    }
    if g.get(cx, cy + 1, cz + 1) > 0 {
        ci += 16;
    }
    if g.get(cx + 1, cy + 1, cz + 1) > 0 {
        ci += 32;
    }
    if g.get(cx + 1, cy + 1, cz) > 0 {
        ci += 64;
    }
    if g.get(cx, cy + 1, cz) > 0 {
        ci += 128;
    }
    ci
}

/// Lattice position of corner `i` of the cell at `(cx, cy, cz)`.
pub fn corner_position(cx: usize, cy: usize, cz: usize, i: usize) -> (p: Vec3i)
    requires
        cx < MAX_RESOLUTION,
        cy < MAX_RESOLUTION,
        cz < MAX_RESOLUTION,
        i < 8,
    ensures
        p == corner_lattice(cx as int, cy as int, cz as int, i as int),
        p.x % 2 == 0 && p.y % 2 == 0 && p.z % 2 == 0,
        0 <= p.x <= 2 * MAX_RESOLUTION && 0 <= p.y <= 2 * MAX_RESOLUTION && 0 <= p.z <= 2
            * MAX_RESOLUTION,
{
    let (ox, oy, oz): (usize, usize, usize) = if i == 0 {
        (0, 0, 1)
    } else if i == 1 {
        (1, 0, 1)
    } else if i == 2 {
        (1, 0, 0)
    } else if i == 3 {
        (0, 0, 0)
    } else if i == 4 {
        (0, 1, 1)
    } else if i == 5 {
        (1, 1, 1)
    } else if i == 6 {
        (1, 1, 0)
    } else {
        (0, 1, 0)
    };
    Vec3i {
        x: 2 * ((cx + ox) as i64),
        y: 2 * ((cy + oy) as i64),
        z: 2 * ((cz + oz) as i64),
    }
}

/// The vertex emitted for edge `e` of the cell at `(cx, cy, cz)`.
pub fn edge_vertex(cx: usize, cy: usize, cz: usize, e: usize) -> (p: Vec3i)
    requires
        cx < MAX_RESOLUTION,
        cy < MAX_RESOLUTION,
        cz < MAX_RESOLUTION,
        e < 12,
    ensures
        p == edge_midpoint(cx as int, cy as int, cz as int, e as int),
{
    let (a, b): (usize, usize) = if e == 0 {
        (0, 1)
    } else if e == 1 {
        (1, 2)
    } else if e == 2 {
        (2, 3)
    } else if e == 3 {
        (3, 0)
    } else if e == 4 {
        (4, 5)
    } else if e == 5 {
        (5, 6)
    } else if e == 6 {
        (6, 7)
    } else if e == 7 {
        (7, 4)
    } else if e == 8 {
        (0, 4)
    } else if e == 9 {
        (1, 5)
    } else if e == 10 {
        (2, 6)
    } else {
        (3, 7)
    };
    let pa = corner_position(cx, cy, cz, a);
    let pb = corner_position(cx, cy, cz, b);
    interp_vertex(pa, pb)
}

} // verus!
