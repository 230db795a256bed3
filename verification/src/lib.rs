//! Surface extraction from a dense voxel occupancy grid.
//!
//! The crate builds an axis-aligned occupancy grid from a triangle mesh
//! (the host supplies the per-corner ray-cast results) and turns such a
//! grid back into a triangle mesh by case-table-driven marching cubes.
//!
//! All geometry inside the crate lives on an integer lattice: grid corner
//! `(x, y, z)` sits at lattice point `(2x, 2y, 2z)`, so the midpoint of any
//! cell edge has integer coordinates too.  The host maps a lattice
//! coordinate `k` on an axis to world space as `min + k * step / 2`, where
//! `step = (max - min) / resolution` over the grid bounds.  Bounds
//! themselves are kept in tenths of the host's fixed-point unit, which
//! makes the ten-percent expansion of the tight bounding box exact.

mod cube;
mod geom;
mod grid;
mod lut;
mod polygonize;
mod system;
mod tables;

pub use cube::{corner_position, cube_index, cube_index_spec, edge_midpoint, edge_vertex};
pub use geom::{interp_vertex, tri_normal, Vec2i, Vec3i};
pub use grid::{
    expand_bounds, flat_index, resolution_ok, tight_bounds, Bounds, GeometryError, VoxelGrid,
    MAX_BOUND_COORD, MAX_RESOLUTION,
};
pub use lut::classic_tri_table;
pub use polygonize::{all_positions, cell_count, cell_positions, cell_row, flat_triple, lemma_buffer_parity, lemma_cell_vertex_midpoint, lemma_flat_normals, lemma_no_repeated_vertex, lemma_polygonize_deterministic, lemma_uniform_cell, polygonize, polygonized, MeshBuffers};
pub use system::{marching_cubes_system, validate_collider_mesh, Chunk, DegenerateMeshError, MarchingCubesCpuPlugin};
pub use tables::{checked_tables, tri_data_wf, Tables};
