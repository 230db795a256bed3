use vstd::prelude::*;

use crate::geom::Vec3i;
use crate::grid::VoxelGrid;
use crate::polygonize::{polygonize, polygonized, MeshBuffers};
use crate::tables::Tables;

verus! {

/// A polygonization pass produced no triangles for an object (uniform
/// occupancy everywhere), so no collision shape can be rebuilt from its
/// mesh.  The buffers are still valid, just empty.
#[derive(Clone, Copy, PartialEq, Eq, Structural, Debug)]
pub struct DegenerateMeshError;

/// Identity and addressing unit for one voxelized object: the grid-space
/// coordinate its grid is attached to.
#[derive(Clone, Copy, PartialEq, Eq, Structural, Debug)]
pub struct Chunk {
    pub position: Vec3i,
}

impl Chunk {
    /// A chunk at the given grid-space coordinate.
    pub fn new(position: Vec3i) -> (c: Chunk)
        ensures
            c.position == position,
    {
        Chunk { position }
    }
}

/// Decides whether a collision shape can be rebuilt from freshly
/// polygonized buffers: a mesh with no triangles is degenerate and must
/// be reported rather than handed to the physics system.
pub fn validate_collider_mesh(m: &MeshBuffers) -> (r: Result<(), DegenerateMeshError>)
    ensures
        r is Ok <==> m.indices@.len() > 0,
{
    if m.indices.len() > 0 {
        Ok(())
    } else {
        Err(DegenerateMeshError)
    }
}

/// One polygonization pass over every voxelized object: each object's
/// buffers are rebuilt from its own grid alone, so objects are processed
/// independently and one degenerate result cannot disturb another
/// object's output.  The previous meshes are replaced wholesale.
pub fn marching_cubes_system(
    grids: &Vec<VoxelGrid>,
    tables: &Tables,
    meshes: &mut Vec<MeshBuffers>,
)
    requires
        tables.wf(),
        forall|i: int| 0 <= i < grids@.len() ==> (#[trigger] grids@[i]).wf(),
    ensures
        final(meshes)@.len() == grids@.len(),
        forall|i: int|
            0 <= i < grids@.len() ==> polygonized(grids@[i], *tables, #[trigger] final(meshes)@[i]),
{
    meshes.clear();
    let mut i: usize = 0;
    while i < grids.len()
        invariant
            tables.wf(),
            forall|j: int| 0 <= j < grids@.len() ==> (#[trigger] grids@[j]).wf(),
            i <= grids@.len(),
            meshes@.len() == i,
            forall|j: int|
                0 <= j < i ==> polygonized(grids@[j], *tables, #[trigger] meshes@[j]),
        decreases grids@.len() - i,
    {
        let mut m = MeshBuffers::new();
        polygonize(&grids[i], tables, &mut m);
        meshes.push(m);
        i += 1;
    }
}

/// The polygonization subsystem as the host engine registers it.  The
/// host forwards at most one discrete trigger per tick; a tick without a
/// trigger leaves every mesh untouched.
pub struct MarchingCubesCpuPlugin;

impl MarchingCubesCpuPlugin {
    /// Runs one tick: on a trigger, every object is repolygonized;
    /// otherwise nothing changes.
    pub fn run(
        &self,
        triggered: bool,
        grids: &Vec<VoxelGrid>,
        tables: &Tables,
        meshes: &mut Vec<MeshBuffers>,
    )
        requires
            tables.wf(),
            forall|i: int| 0 <= i < grids@.len() ==> (#[trigger] grids@[i]).wf(),
        ensures
            !triggered ==> *final(meshes) == *old(meshes),
            triggered ==> final(meshes)@.len() == grids@.len(),
            triggered ==> forall|i: int|
                0 <= i < grids@.len() ==> polygonized(grids@[i], *tables, #[trigger] final(meshes)@[i]),
    {
        if !triggered {
            return ;
        }
        marching_cubes_system(grids, tables, meshes);
    }
}

} // verus!
