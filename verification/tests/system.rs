use marching_cubes::{
    checked_tables, classic_tri_table, marching_cubes_system, polygonize, validate_collider_mesh,
    Bounds, Chunk, MarchingCubesCpuPlugin, MeshBuffers, Vec3i, VoxelGrid,
};

fn v(x: i64, y: i64, z: i64) -> Vec3i {
    Vec3i { x, y, z }
}

fn grid_with_data(data: Vec<i64>) -> VoxelGrid {
    VoxelGrid {
        resolution: [2, 2, 2],
        data,
        bounds: Bounds { min: v(-11, -11, -11), max: v(11, 11, 11) },
    }
}

#[test]
fn chunk_keeps_its_coordinate() {
    let c = Chunk::new(v(3, -1, 4));
    assert_eq!(c.position, v(3, -1, 4));
}

#[test]
fn a_degenerate_object_does_not_disturb_the_others() {
    let empty = grid_with_data(vec![0; 8]);
    let mut one = vec![0i64; 8];
    one[0] = 1;
    let occupied = grid_with_data(one.clone());
    let grids = vec![empty, occupied];
    let t = checked_tables(classic_tri_table()).unwrap();
    let mut meshes: Vec<MeshBuffers> = Vec::new();
    marching_cubes_system(&grids, &t, &mut meshes);
    assert_eq!(meshes.len(), 2);
    assert!(validate_collider_mesh(&meshes[0]).is_err());
    assert!(validate_collider_mesh(&meshes[1]).is_ok());
    // the occupied object's output equals a lone polygonization pass
    let mut alone = MeshBuffers::new();
    polygonize(&grid_with_data(one), &t, &mut alone);
    assert_eq!(meshes[1].positions, alone.positions);
    assert_eq!(meshes[1].indices, alone.indices);
    assert_eq!(meshes[1].normals, alone.normals);
    assert_eq!(meshes[1].uvs, alone.uvs);
}

#[test]
fn the_pass_runs_only_on_a_trigger() {
    let mut one = vec![0i64; 8];
    one[0] = 1;
    let grids = vec![grid_with_data(one)];
    let t = checked_tables(classic_tri_table()).unwrap();
    let plugin = MarchingCubesCpuPlugin;
    let mut meshes: Vec<MeshBuffers> = Vec::new();
    plugin.run(false, &grids, &t, &mut meshes);
    assert!(meshes.is_empty());
    plugin.run(true, &grids, &t, &mut meshes);
    assert_eq!(meshes.len(), 1);
    assert_eq!(meshes[0].positions.len(), 3);
}
