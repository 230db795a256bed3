use std::collections::HashMap;

use marching_cubes::{
    checked_tables, classic_tri_table, polygonize, validate_collider_mesh, Bounds, MeshBuffers,
    VoxelGrid, Vec3i,
};

fn v(x: i64, y: i64, z: i64) -> Vec3i {
    Vec3i { x, y, z }
}

/// Voxelizes a sphere of radius 2 into a 32x32x32 grid, as the host
/// would after expanding the sphere's tight box [-2,2]^3 by ten percent,
/// and polygonizes it.
fn sphere_mesh() -> (VoxelGrid, MeshBuffers) {
    let res = [32usize, 32, 32];
    // host unit scaled by 10: tight box is [-20,20]^3, expanded bounds
    // in tenths are [-220,220]^3, i.e. [-2.2,2.2]^3 in host units
    let bounds = Bounds { min: v(-220, -220, -220), max: v(220, 220, 220) };
    let mut data = vec![0i64; 32 * 32 * 32];
    let min = -2.2f64;
    let step = 4.4f64 / 32.0;
    for z in 0..31 {
        for y in 0..31 {
            for x in 0..31 {
                let wx = min + x as f64 * step;
                let wy = min + y as f64 * step;
                let wz = min + z as f64 * step;
                if wx * wx + wy * wy + wz * wz < 4.0 {
                    data[z * 32 * 32 + y * 32 + x] = 1;
                }
            }
        }
    }
    let grid = VoxelGrid { resolution: res, data, bounds };
    let t = checked_tables(classic_tri_table()).unwrap();
    let mut mesh = MeshBuffers::new();
    polygonize(&grid, &t, &mut mesh);
    (grid, mesh)
}

#[test]
fn sphere_yields_a_nonempty_well_formed_surface() {
    let (_, mesh) = sphere_mesh();
    assert!(mesh.positions.len() >= 3);
    assert_eq!(mesh.positions.len() % 3, 0);
    assert_eq!(mesh.normals.len(), mesh.positions.len());
    assert_eq!(mesh.uvs.len(), mesh.positions.len());
    assert_eq!(mesh.indices.len(), mesh.positions.len());
    assert!(validate_collider_mesh(&mesh).is_ok());
}

#[test]
fn sphere_triangles_have_no_repeated_vertices() {
    let (_, mesh) = sphere_mesh();
    for t in 0..mesh.positions.len() / 3 {
        let a = mesh.positions[3 * t];
        let b = mesh.positions[3 * t + 1];
        let c = mesh.positions[3 * t + 2];
        assert!(a != b && b != c && a != c, "triangle {} repeats a vertex", t);
    }
}

#[test]
fn sphere_stays_inside_the_expanded_bounds() {
    // lattice coordinates run from 0 to twice the last corner index;
    // every emitted vertex must stay inside that box
    let (grid, mesh) = sphere_mesh();
    let hi = 2 * (grid.resolution[0] as i64 - 1);
    for p in mesh.positions.iter() {
        assert!(0 <= p.x && p.x <= hi);
        assert!(0 <= p.y && p.y <= hi);
        assert!(0 <= p.z && p.z <= hi);
    }
}

#[test]
fn sphere_surface_is_watertight() {
    // every directed triangle edge is matched by its reverse exactly once
    let (_, mesh) = sphere_mesh();
    let mut edges: HashMap<((i64, i64, i64), (i64, i64, i64)), i64> = HashMap::new();
    for t in 0..mesh.positions.len() / 3 {
        let tri = [
            mesh.positions[3 * t],
            mesh.positions[3 * t + 1],
            mesh.positions[3 * t + 2],
        ];
        for i in 0..3 {
            let a = tri[i];
            let b = tri[(i + 1) % 3];
            let ka = (a.x, a.y, a.z);
            let kb = (b.x, b.y, b.z);
            *edges.entry((ka, kb)).or_insert(0) += 1;
            *edges.entry((kb, ka)).or_insert(0) -= 1;
        }
    }
    let unmatched: i64 = edges.values().map(|c| c.abs()).sum();
    assert_eq!(unmatched, 0, "boundary or inconsistently oriented edges found");
}
