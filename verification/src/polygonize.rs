use vstd::arithmetic::div_mod::lemma_fundamental_div_mod_converse;
use vstd::prelude::*;

use crate::geom::{spec_tri_normal, tri_normal, Vec2i, Vec3i};
use crate::grid::{resolution_ok, VoxelGrid, MAX_RESOLUTION};
use crate::tables::{
    active_len, bit_set, edge_in_prefix, edge_in_row, row_of, row_wf, Tables,
};
use crate::cube::{
    corner_lattice, corner_value, cube_index, cube_index_spec, edge_corners, edge_midpoint,
    edge_vertex, lemma_distinct_edge_midpoints, lemma_fixed_midpoint,
};

verus! {

/// The four parallel output buffers of one polygonization pass: vertex
/// positions (lattice coordinates), triangle indices (three consecutive
/// entries per triangle), per-vertex normals (the unnormalized integer
/// face normal, repeated for all three vertices of a triangle), and
/// per-vertex texture coordinates.
pub struct MeshBuffers {
    pub positions: Vec<Vec3i>,
    pub indices: Vec<u32>,
    pub normals: Vec<Vec3i>,
    pub uvs: Vec<Vec2i>,
}

impl MeshBuffers {
    /// Empty buffers: what a pass starts from and what a uniform grid
    /// produces.
    pub fn new() -> (m: MeshBuffers)
        ensures
            m.positions@.len() == 0,
            m.indices@.len() == 0,
            m.normals@.len() == 0,
            m.uvs@.len() == 0,
    {
        MeshBuffers {
            positions: Vec::new(),
            indices: Vec::new(),
            normals: Vec::new(),
            uvs: Vec::new(),
        }
    }
}

/// The triangulation row selected by the configuration of the cell at
/// `(cx, cy, cz)`.
pub open spec fn cell_row(g: VoxelGrid, tab: Tables, cx: int, cy: int, cz: int) -> Seq<i8> {
    row_of(tab.tri@, cube_index_spec(g, cx, cy, cz))
}

/// The vertices the cell at `(cx, cy, cz)` contributes: one edge midpoint
/// per row entry before the sentinel, in row order.
pub open spec fn cell_positions(g: VoxelGrid, tab: Tables, cx: int, cy: int, cz: int) -> Seq<
    Vec3i,
> {
    let row = cell_row(g, tab, cx, cy, cz);
    Seq::new(
        active_len(row) as nat,
        |k: int| edge_midpoint(cx, cy, cz, row[k] as int),
    )
}

/// Number of cells the polygonizer visits: one fewer than the corner
/// count on every axis.
pub open spec fn cell_count(res: [usize; 3]) -> int {
    ((res[0] - 1) * (res[1] - 1)) * (res[2] - 1)
}

/// Coordinates of the `c`-th cell in visiting order: `x` varies fastest,
/// then `y`, then `z`.
pub open spec fn cell_coords(res: [usize; 3], c: int) -> (int, int, int) {
    let a = res[0] - 1;
    let b = res[1] - 1;
    (c % a, (c / a) % b, c / (a * b))
}

/// All vertices contributed by the first `c` cells in visiting order.
pub open spec fn positions_upto(g: VoxelGrid, tab: Tables, c: int) -> Seq<Vec3i>
    decreases c,
{
    if c <= 0 {
        Seq::empty()
    } else {
        let (cx, cy, cz) = cell_coords(g.resolution, c - 1);
        positions_upto(g, tab, c - 1) + cell_positions(g, tab, cx, cy, cz)
    }
}

/// The full vertex stream of one polygonization pass over the grid.
pub open spec fn all_positions(g: VoxelGrid, tab: Tables) -> Seq<Vec3i> {
    positions_upto(g, tab, cell_count(g.resolution))
}

/// Triangle `t` of the buffers is flat-shaded and carries the fixed
/// texture triple: all three of its normals equal the cross product of
/// `(v1 - v0)` and `(v2 - v0)`, and its texture coordinates are
/// `(0,0), (1,0), (0,1)`.
pub open spec fn flat_triple(m: MeshBuffers, t: int) -> bool {
    &&& m.normals@[3 * t] == spec_tri_normal(
        m.positions@[3 * t],
        m.positions@[3 * t + 1],
        m.positions@[3 * t + 2],
    )
    &&& m.normals@[3 * t + 1] == m.normals@[3 * t]
    &&& m.normals@[3 * t + 2] == m.normals@[3 * t]
    &&& m.uvs@[3 * t] == (Vec2i { u: 0, v: 0 })
    &&& m.uvs@[3 * t + 1] == (Vec2i { u: 1, v: 0 })
    &&& m.uvs@[3 * t + 2] == (Vec2i { u: 0, v: 1 })
}

/// The buffers hold the output of polygonizing the first `c` cells: the
/// vertex stream of those cells, sequential indices, one normal and one
/// texture coordinate per vertex, whole triangles only, and every
/// triangle flat-shaded.
pub open spec fn partial_build(g: VoxelGrid, tab: Tables, m: MeshBuffers, c: int) -> bool {
    &&& m.positions@ == positions_upto(g, tab, c)
    &&& m.indices@ == Seq::new(m.positions@.len(), |i: int| i as u32)
    &&& m.normals@.len() == m.positions@.len()
    &&& m.uvs@.len() == m.positions@.len()
    &&& m.positions@.len() % 3 == 0
    &&& forall|t: int| 0 <= t && 3 * t < m.positions@.len() ==> #[trigger] flat_triple(m, t)
}

/// The buffers are exactly the output of one polygonization pass over the
/// whole grid.
pub open spec fn polygonized(g: VoxelGrid, tab: Tables, m: MeshBuffers) -> bool {
    partial_build(g, tab, m, cell_count(g.resolution))
}

/// A cell's visiting position, from its coordinates; and back.
proof fn lemma_cell_index(res: [usize; 3], xi: int, yi: int, zi: int)
    requires
        resolution_ok(res),
        0 <= xi < res[0] - 1,
        0 <= yi < res[1] - 1,
        0 <= zi < res[2] - 1,
    ensures
        ({
            let a = res[0] - 1;
            let b = res[1] - 1;
            let c = zi * (b * a) + yi * a + xi;
            &&& 0 <= c < cell_count(res)
            &&& cell_coords(res, c) == (xi, yi, zi)
        }),
{
    let a = res[0] - 1;
    let b = res[1] - 1;
    let cd = res[2] - 1;
    let c = zi * (b * a) + yi * a + xi;
    assert(c == (zi * b + yi) * a + xi && 0 <= yi * a + xi < a * b && c == zi * (a * b) + (yi * a
        + xi) && (zi + 1) * (a * b) <= cd * (a * b) && cd * (a * b) == (a * b) * cd && c < (a * b)
        * cd && zi * (a * b) >= 0) by (nonlinear_arith)
        requires
            0 <= xi < a,
            0 <= yi < b,
            0 <= zi < cd,
            c == zi * (b * a) + yi * a + xi,
    ;
    lemma_fundamental_div_mod_converse(c, a, zi * b + yi, xi);
    lemma_fundamental_div_mod_converse(zi * b + yi, b, zi, yi);
    lemma_fundamental_div_mod_converse(c, a * b, zi, yi * a + xi);
    assert(cell_count(res) == (a * b) * cd);
}

/// Each cell contributes at most fifteen vertices, always whole
/// triangles.
proof fn lemma_upto_len(g: VoxelGrid, tab: Tables, c: int)
    requires
        tab.wf(),
        0 <= c,
    ensures
        0 <= positions_upto(g, tab, c).len() <= 15 * c,
        positions_upto(g, tab, c).len() % 3 == 0,
    decreases c,
{
    if c > 0 {
        lemma_upto_len(g, tab, c - 1);
        let (cx, cy, cz) = cell_coords(g.resolution, c - 1);
        let ci = cube_index_spec(g, cx, cy, cz);
        assert(0 <= ci < 256);
        let row = cell_row(g, tab, cx, cy, cz);
        assert(row_wf(row));
        crate::tables::lemma_active_len_props(row);
    }
}

/// The whole pass stays well under the index type's range.
proof fn lemma_count_bound(res: [usize; 3])
    requires
        resolution_ok(res),
    ensures
        0 <= cell_count(res),
        15 * cell_count(res) < 0x8000_0000,
{
    assert(0 <= ((res[0] - 1) * (res[1] - 1)) * (res[2] - 1) && 15 * (((res[0] - 1) * (res[1] - 1))
        * (res[2] - 1)) < 0x8000_0000) by (nonlinear_arith)
        requires
            1 <= res[0] - 1 < 512 && 1 <= res[1] - 1 < 512 && 1 <= res[2] - 1 < 512,
    ;
}

/// Cube-index symmetry: a cell with every corner strictly inside gets
/// configuration `0xFF`, one with every corner outside gets `0x00`, and
/// either way the cell contributes no triangles.
pub proof fn lemma_uniform_cell(g: VoxelGrid, tab: Tables, cx: int, cy: int, cz: int)
    requires
        tab.wf(),
    ensures
        (forall|i: int| 0 <= i < 8 ==> #[trigger] corner_value(g, cx, cy, cz, i) > 0)
            ==> cube_index_spec(g, cx, cy, cz) == 0xFF,
        (forall|i: int| 0 <= i < 8 ==> #[trigger] corner_value(g, cx, cy, cz, i) <= 0)
            ==> cube_index_spec(g, cx, cy, cz) == 0x00,
        cube_index_spec(g, cx, cy, cz) == 0xFF ==> cell_positions(g, tab, cx, cy, cz).len() == 0,
        cube_index_spec(g, cx, cy, cz) == 0x00 ==> cell_positions(g, tab, cx, cy, cz).len() == 0,
{
    if forall|i: int| 0 <= i < 8 ==> #[trigger] corner_value(g, cx, cy, cz, i) > 0 {
        assert(corner_value(g, cx, cy, cz, 0) > 0 && corner_value(g, cx, cy, cz, 1) > 0
            && corner_value(g, cx, cy, cz, 2) > 0 && corner_value(g, cx, cy, cz, 3) > 0
            && corner_value(g, cx, cy, cz, 4) > 0 && corner_value(g, cx, cy, cz, 5) > 0
            && corner_value(g, cx, cy, cz, 6) > 0 && corner_value(g, cx, cy, cz, 7) > 0);
    }
    if forall|i: int| 0 <= i < 8 ==> #[trigger] corner_value(g, cx, cy, cz, i) <= 0 {
        assert(corner_value(g, cx, cy, cz, 0) <= 0 && corner_value(g, cx, cy, cz, 1) <= 0
            && corner_value(g, cx, cy, cz, 2) <= 0 && corner_value(g, cx, cy, cz, 3) <= 0
            && corner_value(g, cx, cy, cz, 4) <= 0 && corner_value(g, cx, cy, cz, 5) <= 0
            && corner_value(g, cx, cy, cz, 6) <= 0 && corner_value(g, cx, cy, cz, 7) <= 0);
    }
}

/// Buffer parity: after a pass the three per-vertex buffers have one
/// entry per vertex, whole triangles only, and the index buffer counts
/// the vertices off in order, so every index is in range.
pub proof fn lemma_buffer_parity(g: VoxelGrid, tab: Tables, m: MeshBuffers)
    requires
        g.wf(),
        tab.wf(),
        polygonized(g, tab, m),
    ensures
        m.positions@.len() == m.normals@.len(),
        m.positions@.len() == m.uvs@.len(),
        m.positions@.len() % 3 == 0,
        m.indices@.len() == m.positions@.len(),
        m.indices@.len() % 3 == 0,
        forall|i: int|
            0 <= i < m.indices@.len() ==> (#[trigger] m.indices@[i]) as int == i && (
            m.indices@[i] as int) < m.positions@.len(),
{
    lemma_count_bound(g.resolution);
    lemma_upto_len(g, tab, cell_count(g.resolution));
}

/// Flat-normal correctness: every emitted triangle carries, on all three
/// of its vertices, the integer cross product of `(v1 - v0)` and
/// `(v2 - v0)` as its normal, together with the fixed texture triple.
pub proof fn lemma_flat_normals(g: VoxelGrid, tab: Tables, m: MeshBuffers, t: int)
    requires
        polygonized(g, tab, m),
        0 <= t,
        3 * t < m.positions@.len(),
    ensures
        flat_triple(m, t),
        m.normals@[3 * t] == spec_tri_normal(
            m.positions@[3 * t],
            m.positions@[3 * t + 1],
            m.positions@[3 * t + 2],
        ),
{
    assert(3 * t + 2 < m.positions@.len()) by (nonlinear_arith)
        requires
            0 <= t,
            3 * t < m.positions@.len(),
            m.positions@.len() % 3 == 0,
    ;
    assert(flat_triple(m, t));
}

/// Fixed-midpoint interpolation: every vertex a cell emits sits exactly
/// at the arithmetic midpoint of an active edge's two corner lattice
/// positions, whatever the corners' occupancy magnitudes, and that edge's
/// bit is set in the edge table.
pub proof fn lemma_cell_vertex_midpoint(
    g: VoxelGrid,
    tab: Tables,
    cx: int,
    cy: int,
    cz: int,
    k: int,
)
    requires
        tab.wf(),
        0 <= cx < MAX_RESOLUTION,
        0 <= cy < MAX_RESOLUTION,
        0 <= cz < MAX_RESOLUTION,
        0 <= k < cell_positions(g, tab, cx, cy, cz).len(),
    ensures
        ({
            let row = cell_row(g, tab, cx, cy, cz);
            let e = row[k] as int;
            let pa = corner_lattice(cx, cy, cz, edge_corners(e).0);
            let pb = corner_lattice(cx, cy, cz, edge_corners(e).1);
            let v = cell_positions(g, tab, cx, cy, cz)[k];
            &&& 0 <= e < 12
            &&& edge_in_row(row, e)
            &&& bit_set(tab.edge@[cube_index_spec(g, cx, cy, cz)], e as u16)
            &&& v == edge_midpoint(cx, cy, cz, e)
            &&& 2 * v.x == pa.x + pb.x
            &&& 2 * v.y == pa.y + pb.y
            &&& 2 * v.z == pa.z + pb.z
        }),
{
    let ci = cube_index_spec(g, cx, cy, cz);
    assert(0 <= ci < 256);
    let row = cell_row(g, tab, cx, cy, cz);
    assert(row_wf(row));
    crate::tables::lemma_active_len_props(row);
    let e = row[k] as int;
    assert(k < active_len(row));
    assert(0 <= row[k] < 12);
    assert(edge_in_prefix(row, active_len(row), e));
    lemma_fixed_midpoint(cx, cy, cz, e);
}

/// No emitted triangle repeats a vertex: a triangulation row references
/// three different edges per triangle, and different edges of one cell
/// have different midpoints.
pub proof fn lemma_cell_triangle_distinct(
    g: VoxelGrid,
    tab: Tables,
    cx: int,
    cy: int,
    cz: int,
    t: int,
)
    requires
        tab.wf(),
        0 <= cx < MAX_RESOLUTION,
        0 <= cy < MAX_RESOLUTION,
        0 <= cz < MAX_RESOLUTION,
        0 <= t,
        3 * t + 2 < cell_positions(g, tab, cx, cy, cz).len(),
    ensures
        ({
            let p = cell_positions(g, tab, cx, cy, cz);
            p[3 * t] != p[3 * t + 1] && p[3 * t + 1] != p[3 * t + 2] && p[3 * t] != p[3 * t + 2]
        }),
{
    let ci = cube_index_spec(g, cx, cy, cz);
    assert(0 <= ci < 256);
    let row = cell_row(g, tab, cx, cy, cz);
    assert(row_wf(row));
    crate::tables::lemma_active_len_props(row);
    assert(crate::tables::triple_distinct(row, t));
    assert(0 <= row[3 * t] < 12 && 0 <= row[3 * t + 1] < 12 && 0 <= row[3 * t + 2] < 12);
    lemma_distinct_edge_midpoints(cx, cy, cz, row[3 * t] as int, row[3 * t + 1] as int);
    lemma_distinct_edge_midpoints(cx, cy, cz, row[3 * t + 1] as int, row[3 * t + 2] as int);
    lemma_distinct_edge_midpoints(cx, cy, cz, row[3 * t] as int, row[3 * t + 2] as int);
}

/// The coordinates of any visited cell lie inside the cell ranges.
proof fn lemma_cell_coords_in_range(res: [usize; 3], c: int)
    requires
        resolution_ok(res),
        0 <= c < cell_count(res),
    ensures
        ({
            let (cx, cy, cz) = cell_coords(res, c);
            &&& 0 <= cx < res[0] - 1
            &&& 0 <= cy < res[1] - 1
            &&& 0 <= cz < res[2] - 1
        }),
{
    let a = res[0] - 1;
    let b = res[1] - 1;
    let cd = res[2] - 1;
    vstd::arithmetic::div_mod::lemma_fundamental_div_mod(c, a);
    vstd::arithmetic::div_mod::lemma_mod_bound(c, a);
    vstd::arithmetic::div_mod::lemma_mod_bound(c / a, b);
    vstd::arithmetic::div_mod::lemma_fundamental_div_mod(c, a * b);
    assert(a * b > 0 && c < (a * b) * cd) by (nonlinear_arith)
        requires
            a >= 1 && b >= 1 && cd >= 1 && c < cell_count(res) && cell_count(res) == ((res[0] - 1)
                * (res[1] - 1)) * (res[2] - 1) && a == res[0] - 1 && b == res[1] - 1 && cd == res[2]
                - 1,
    ;
    vstd::arithmetic::div_mod::lemma_mod_bound(c, a * b);
    assert(c / a >= 0) by (nonlinear_arith)
        requires
            c >= 0,
            a >= 1,
            c == a * (c / a) + c % a,
            0 <= c % a < a,
    ;
    assert(c / (a * b) < cd) by (nonlinear_arith)
        requires
            c == (a * b) * (c / (a * b)) + c % (a * b),
            0 <= c % (a * b) < a * b,
            c < (a * b) * cd,
            a * b > 0,
    ;
    assert(c / (a * b) >= 0) by (nonlinear_arith)
        requires
            c >= 0,
            a * b > 0,
            c == (a * b) * (c / (a * b)) + c % (a * b),
            0 <= c % (a * b) < a * b,
    ;
}

/// The three vertices of triangle `t` of the stream are three different
/// points.
spec fn distinct_triple_at(p: Seq<Vec3i>, t: int) -> bool {
    &&& p[3 * t] != p[3 * t + 1]
    &&& p[3 * t + 1] != p[3 * t + 2]
    &&& p[3 * t] != p[3 * t + 2]
}

/// No triangle among the first `c` cells' output repeats a vertex.
proof fn lemma_upto_triangles_distinct(g: VoxelGrid, tab: Tables, c: int)
    requires
        g.wf(),
        tab.wf(),
        0 <= c <= cell_count(g.resolution),
    ensures
        forall|t: int|
            0 <= t && 3 * t + 2 < positions_upto(g, tab, c).len() ==> #[trigger] distinct_triple_at(
                positions_upto(g, tab, c),
                t,
            ),
    decreases c,
{
    if c > 0 {
        lemma_upto_triangles_distinct(g, tab, c - 1);
        lemma_upto_len(g, tab, c - 1);
        lemma_cell_coords_in_range(g.resolution, c - 1);
        let (cx, cy, cz) = cell_coords(g.resolution, c - 1);
        let prev = positions_upto(g, tab, c - 1);
        let cell = cell_positions(g, tab, cx, cy, cz);
        let p = positions_upto(g, tab, c);
        assert(p == prev + cell);
        let pt = prev.len() as int / 3;
        vstd::arithmetic::div_mod::lemma_fundamental_div_mod(prev.len() as int, 3);
        assert(3 * pt == prev.len());
        assert forall|t: int| 0 <= t && 3 * t + 2 < p.len() implies distinct_triple_at(p, t) by {
            if 3 * t + 2 < prev.len() {
                assert(p[3 * t] == prev[3 * t] && p[3 * t + 1] == prev[3 * t + 1] && p[3 * t + 2]
                    == prev[3 * t + 2]);
                assert(distinct_triple_at(prev, t));
            } else {
                assert(3 * t >= prev.len()) by (nonlinear_arith)
                    requires
                        !(3 * t + 2 < prev.len()),
                        prev.len() % 3 == 0,
                        3 * pt == prev.len(),
                        0 <= t,
                ;
                let j = t - pt;
                assert(3 * j == 3 * t - prev.len());
                assert(p[3 * t] == cell[3 * j] && p[3 * t + 1] == cell[3 * j + 1] && p[3 * t + 2]
                    == cell[3 * j + 2]);
                lemma_cell_triangle_distinct(g, tab, cx, cy, cz, j);
            }
        }
    }
}

/// End-to-end surface quality: no triangle of a finished pass repeats a
/// vertex, whatever grid was polygonized.
pub proof fn lemma_no_repeated_vertex(g: VoxelGrid, tab: Tables, m: MeshBuffers, t: int)
    requires
        g.wf(),
        tab.wf(),
        polygonized(g, tab, m),
        0 <= t,
        3 * t < m.positions@.len(),
    ensures
        m.positions@[3 * t] != m.positions@[3 * t + 1],
        m.positions@[3 * t + 1] != m.positions@[3 * t + 2],
        m.positions@[3 * t] != m.positions@[3 * t + 2],
{
    lemma_count_bound(g.resolution);
    lemma_upto_triangles_distinct(g, tab, cell_count(g.resolution));
    assert(3 * t + 2 < m.positions@.len()) by (nonlinear_arith)
        requires
            0 <= t,
            3 * t < m.positions@.len(),
            m.positions@.len() % 3 == 0,
    ;
    assert(distinct_triple_at(m.positions@, t));
}

/// Idempotence: the pass is a function of the grid and the tables alone,
/// so two passes over an unchanged grid fill the buffers with identical
/// content, whatever they held before.
pub proof fn lemma_polygonize_deterministic(
    g: VoxelGrid,
    tab: Tables,
    m1: MeshBuffers,
    m2: MeshBuffers,
)
    requires
        polygonized(g, tab, m1),
        polygonized(g, tab, m2),
    ensures
        m1.positions@ == m2.positions@,
        m1.indices@ == m2.indices@,
        m1.normals@ == m2.normals@,
        m1.uvs@ == m2.uvs@,
{
    assert(m1.indices@ =~= m2.indices@);
    let len = m1.positions@.len() as int;
    assert forall|i: int| 0 <= i < len implies m1.normals@[i] == m2.normals@[i]
        && m1.uvs@[i] == m2.uvs@[i] by {
        vstd::arithmetic::div_mod::lemma_fundamental_div_mod(i, 3);
        let t = i / 3;
        assert(0 <= i % 3 < 3);
        assert(0 <= t && 3 * t < len) by (nonlinear_arith)
            requires
                0 <= i < len,
                t == i / 3,
                i == 3 * t + i % 3,
                0 <= i % 3 < 3,
        ;
        assert(flat_triple(m1, t));
        assert(flat_triple(m2, t));
        assert(i == 3 * t || i == 3 * t + 1 || i == 3 * t + 2);
    }
    assert(m1.normals@ =~= m2.normals@);
    assert(m1.uvs@ =~= m2.uvs@);
}

/// Walks every cell of the grid, classifies it against the case table,
/// and rebuilds the four output buffers from scratch (clear, then
/// extend): for each cell, the midpoints of its active edges are fetched
/// through the edge table, and the triangulation row emits up to five
/// flat-shaded triangles.  The result depends on the grid and the tables
/// alone, never on the buffers' previous content.
pub fn polygonize(grid: &VoxelGrid, tables: &Tables, mesh: &mut MeshBuffers)
    requires
        grid.wf(),
        tables.wf(),
    ensures
        polygonized(*grid, *tables, *final(mesh)),
{
    mesh.positions.clear();
    mesh.indices.clear();
    mesh.normals.clear();
    mesh.uvs.clear();
    proof {
        assert(mesh.positions@ =~= positions_upto(*grid, *tables, 0));
        assert(mesh.indices@ =~= Seq::new(mesh.positions@.len(), |i: int| i as u32));
    }
    let a = grid.resolution[0] - 1;
    let b = grid.resolution[1] - 1;
    let cd = grid.resolution[2] - 1;
    proof {
        lemma_count_bound(grid.resolution);
    }
    let mut vert_counter: u32 = 0;
    let mut zi: usize = 0;
    while zi < cd
        invariant
            grid.wf(),
            tables.wf(),
            a == grid.resolution[0] - 1,
            b == grid.resolution[1] - 1,
            cd == grid.resolution[2] - 1,
            zi <= cd,
            partial_build(*grid, *tables, *mesh, zi * (b * a)),
            vert_counter == mesh.positions@.len(),
        decreases cd - zi,
    {
        let mut yi: usize = 0;
        while yi < b
            invariant
                grid.wf(),
                tables.wf(),
                a == grid.resolution[0] - 1,
                b == grid.resolution[1] - 1,
                cd == grid.resolution[2] - 1,
                zi < cd,
                yi <= b,
                partial_build(*grid, *tables, *mesh, zi * (b * a) + yi * a),
                vert_counter == mesh.positions@.len(),
            decreases b - yi,
        {
            let mut xi: usize = 0;
            while xi < a
                invariant
                    grid.wf(),
                    tables.wf(),
                    a == grid.resolution[0] - 1,
                    b == grid.resolution[1] - 1,
                    cd == grid.resolution[2] - 1,
                    zi < cd,
                    yi < b,
                    xi <= a,
                    partial_build(*grid, *tables, *mesh, zi * (b * a) + yi * a + xi),
                    vert_counter == mesh.positions@.len(),
                decreases a - xi,
            {
                let ghost cidx: int = zi * (b * a) + yi * a + xi;
                proof {
                    lemma_cell_index(grid.resolution, xi as int, yi as int, zi as int);
                    lemma_upto_len(*grid, *tables, cidx);
                    lemma_count_bound(grid.resolution);
                }
                emit_cell(grid, tables, mesh, xi, yi, zi, &mut vert_counter, Ghost(cidx));
                xi += 1;
            }
            proof {
                assert((yi + 1) * a == yi * a + a) by (nonlinear_arith);
            }
            yi += 1;
        }
        proof {
            assert((zi + 1) * (b * a) == zi * (b * a) + b * a) by (nonlinear_arith);
        }
        zi += 1;
    }
    proof {
        assert(cd * (b * a) == cell_count(grid.resolution)) by (nonlinear_arith)
            requires
                a == grid.resolution[0] - 1,
                b == grid.resolution[1] - 1,
                cd == grid.resolution[2] - 1,
                cell_count(grid.resolution) == ((grid.resolution[0] - 1) * (grid.resolution[1] - 1))
                    * (grid.resolution[2] - 1),
        ;
    }
}

/// Classifies one cell and appends its triangles to the buffers.
fn emit_cell(
    grid: &VoxelGrid,
    tables: &Tables,
    mesh: &mut MeshBuffers,
    xi: usize,
    yi: usize,
    zi: usize,
    vert_counter: &mut u32,
    Ghost(cidx): Ghost<int>,
)
    requires
        grid.wf(),
        tables.wf(),
        xi < grid.resolution[0] - 1,
        yi < grid.resolution[1] - 1,
        zi < grid.resolution[2] - 1,
        partial_build(*grid, *tables, *old(mesh), cidx),
        *old(vert_counter) == old(mesh).positions@.len(),
        0 <= cidx < cell_count(grid.resolution),
        cell_coords(grid.resolution, cidx) == (xi as int, yi as int, zi as int),
        15 * cell_count(grid.resolution) < 0x8000_0000,
    ensures
        partial_build(*grid, *tables, *final(mesh), cidx + 1),
        *final(vert_counter) == final(mesh).positions@.len(),
{
    let ghost g = *grid;
    let ghost tab = *tables;
    let ghost cx = xi as int;
    let ghost cy = yi as int;
    let ghost cz = zi as int;
    let ci = cube_index(grid, xi, yi, zi);
    let ghost row = cell_row(g, tab, cx, cy, cz);
    proof {
        assert(0 <= cube_index_spec(g, cx, cy, cz) < 256);
        assert(row_wf(row));
        crate::tables::lemma_active_len_props(row);
        lemma_upto_len(g, tab, cidx);
    }
    if ci == 0 || ci == 255 {
        proof {
            assert(active_len(row) == 0);
            assert(cell_positions(g, tab, cx, cy, cz) =~= Seq::<Vec3i>::empty());
            assert(positions_upto(g, tab, cidx + 1) =~= positions_upto(g, tab, cidx));
        }
        return ;
    }
    let mask = tables.edge_mask(ci as usize);
    let mut vertlist: Vec<Vec3i> = Vec::new();
    let mut e: usize = 0;
    while e < 12
        invariant
            grid.wf(),
            xi < grid.resolution[0] - 1,
            yi < grid.resolution[1] - 1,
            zi < grid.resolution[2] - 1,
            cx == xi as int && cy == yi as int && cz == zi as int,
            e <= 12,
            vertlist@.len() == e,
            forall|f: int|
                0 <= f < e && bit_set(mask, f as u16) ==> vertlist@[f] == edge_midpoint(
                    cx,
                    cy,
                    cz,
                    f,
                ),
        decreases 12 - e,
    {
        if mask & (1u16 << (e as u16)) != 0 {
            let p = edge_vertex(xi, yi, zi, e);
            vertlist.push(p);
        } else {
            vertlist.push(Vec3i { x: 0, y: 0, z: 0 });
        }
        e += 1;
    }
    let n = tables.active_count(ci as usize);
    let ghost base_len = mesh.positions@.len() as int;
    let ghost tri_base = base_len / 3;
    proof {
        assert(row == row_of(tab.tri@, ci as int));
        assert(n == active_len(row));
        assert(3 * tri_base == base_len);
    }
    let mut k: usize = 0;
    while k < n
        invariant
            grid.wf(),
            tables.wf(),
            g == *grid,
            tab == *tables,
            xi < grid.resolution[0] - 1,
            yi < grid.resolution[1] - 1,
            zi < grid.resolution[2] - 1,
            cx == xi as int && cy == yi as int && cz == zi as int,
            ci as int == cube_index_spec(g, cx, cy, cz),
            row == cell_row(g, tab, cx, cy, cz),
            row_wf(row),
            mask == tables.edge@[ci as int],
            n == active_len(row),
            n <= 15,
            n % 3 == 0,
            k <= n,
            k % 3 == 0,
            vertlist@.len() == 12,
            forall|f: int|
                0 <= f < 12 && bit_set(mask, f as u16) ==> vertlist@[f] == edge_midpoint(
                    cx,
                    cy,
                    cz,
                    f,
                ),
            0 <= cidx < cell_count(grid.resolution),
            15 * cell_count(grid.resolution) < 0x8000_0000,
            base_len == positions_upto(g, tab, cidx).len(),
            base_len <= 15 * cidx,
            base_len % 3 == 0,
            3 * tri_base == base_len,
            mesh.positions@.len() == base_len + k,
            mesh.positions@ == positions_upto(g, tab, cidx) + Seq::new(
                k as nat,
                |j: int| edge_midpoint(cx, cy, cz, row[j] as int),
            ),
            mesh.indices@ == Seq::new(mesh.positions@.len(), |i: int| i as u32),
            mesh.normals@.len() == mesh.positions@.len(),
            mesh.uvs@.len() == mesh.positions@.len(),
            forall|t: int|
                0 <= t && 3 * t < mesh.positions@.len() ==> #[trigger] flat_triple(*mesh, t),
            *vert_counter == mesh.positions@.len(),
        decreases n - k,
    {
        let e0 = tables.tri_entry(ci as usize, k);
        let e1 = tables.tri_entry(ci as usize, k + 1);
        let e2 = tables.tri_entry(ci as usize, k + 2);
        proof {
            assert(k + 3 <= n) by (nonlinear_arith)
                requires
                    k < n,
                    k % 3 == 0,
                    n % 3 == 0,
            ;
            assert(0 <= row[k as int] < 12 && 0 <= row[k as int + 1] < 12 && 0 <= row[k as int + 2]
                < 12);
            assert(edge_in_prefix(row, active_len(row), e0 as int));
            assert(edge_in_prefix(row, active_len(row), e1 as int));
            assert(edge_in_prefix(row, active_len(row), e2 as int));
            assert(bit_set(mask, e0 as u16) && bit_set(mask, e1 as u16) && bit_set(
                mask,
                e2 as u16,
            ));
            lemma_fixed_midpoint(cx, cy, cz, e0 as int);
            lemma_fixed_midpoint(cx, cy, cz, e1 as int);
            lemma_fixed_midpoint(cx, cy, cz, e2 as int);
        }
        let v0 = vertlist[e0 as usize];
        let v1 = vertlist[e1 as usize];
        let v2 = vertlist[e2 as usize];
        let nrm = tri_normal(v0, v1, v2);
        let ghost len0 = mesh.positions@.len() as int;
        let ghost t0 = len0 / 3;
        proof {
            assert(len0 == 3 * (tri_base + (k as int) / 3)) by (nonlinear_arith)
                requires
                    len0 == 3 * tri_base + k,
                    k % 3 == 0,
                    k >= 0,
            ;
            assert(t0 == tri_base + (k as int) / 3) by (nonlinear_arith)
                requires
                    len0 == 3 * (tri_base + (k as int) / 3),
                    t0 == len0 / 3,
            ;
        }
        let ghost prev = *mesh;
        mesh.positions.push(v0);
        mesh.positions.push(v1);
        mesh.positions.push(v2);
        let c0 = *vert_counter;
        mesh.indices.push(c0);
        mesh.indices.push(c0 + 1);
        mesh.indices.push(c0 + 2);
        mesh.normals.push(nrm);
        mesh.normals.push(nrm);
        mesh.normals.push(nrm);
        mesh.uvs.push(Vec2i { u: 0, v: 0 });
        mesh.uvs.push(Vec2i { u: 1, v: 0 });
        mesh.uvs.push(Vec2i { u: 0, v: 1 });
        *vert_counter = c0 + 3;
        proof {
            assert(mesh.positions@ =~= positions_upto(g, tab, cidx) + Seq::new(
                (k + 3) as nat,
                |j: int| edge_midpoint(cx, cy, cz, row[j] as int),
            ));
            assert(mesh.indices@ =~= Seq::new(mesh.positions@.len(), |i: int| i as u32));
            assert forall|t: int| 0 <= t && 3 * t < mesh.positions@.len() implies #[trigger]
            flat_triple(*mesh, t) by {
                if t < t0 {
                    assert(3 * t + 2 < len0) by (nonlinear_arith)
                        requires
                            t < t0,
                            3 * t0 == len0,
                    ;
                    assert(flat_triple(prev, t));
                    assert(mesh.positions@[3 * t] == prev.positions@[3 * t]);
                    assert(mesh.positions@[3 * t + 1] == prev.positions@[3 * t + 1]);
                    assert(mesh.positions@[3 * t + 2] == prev.positions@[3 * t + 2]);
                    assert(mesh.normals@[3 * t] == prev.normals@[3 * t]);
                    assert(mesh.normals@[3 * t + 1] == prev.normals@[3 * t + 1]);
                    assert(mesh.normals@[3 * t + 2] == prev.normals@[3 * t + 2]);
                    assert(mesh.uvs@[3 * t] == prev.uvs@[3 * t]);
                    assert(mesh.uvs@[3 * t + 1] == prev.uvs@[3 * t + 1]);
                    assert(mesh.uvs@[3 * t + 2] == prev.uvs@[3 * t + 2]);
                    assert(flat_triple(*mesh, t));
                } else {
                    assert(t == t0) by (nonlinear_arith)
                        requires
                            3 * t < len0 + 3,
                            3 * t0 == len0,
                            t >= t0,
                    ;
                    assert(mesh.positions@[3 * t] == v0);
                    assert(mesh.positions@[3 * t + 1] == v1);
                    assert(mesh.positions@[3 * t + 2] == v2);
                    assert(flat_triple(*mesh, t));
                }
            }
        }
        k += 3;
    }
    proof {
        assert(mesh.positions@ =~= positions_upto(g, tab, cidx) + cell_positions(g, tab, cx, cy, cz));
        assert(positions_upto(g, tab, cidx + 1) == positions_upto(g, tab, cidx) + cell_positions(
            g,
            tab,
            cx,
            cy,
            cz,
        ));
    }
}

} // verus!
