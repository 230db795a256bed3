use marching_cubes::{
    checked_tables, classic_tri_table, polygonize, validate_collider_mesh, Bounds, MeshBuffers,
    Tables, Vec2i, Vec3i, VoxelGrid,
};

fn v(x: i64, y: i64, z: i64) -> Vec3i {
    Vec3i { x, y, z }
}

fn tables() -> Tables {
    checked_tables(classic_tri_table()).unwrap()
}

fn grid_with_data(res: [usize; 3], data: Vec<i64>) -> VoxelGrid {
    VoxelGrid {
        resolution: res,
        data,
        bounds: Bounds { min: v(-11, -11, -11), max: v(11, 11, 11) },
    }
}

#[test]
fn empty_grid_emits_nothing_and_is_degenerate() {
    let grid = grid_with_data([2, 2, 2], vec![0; 8]);
    let t = tables();
    let mut mesh = MeshBuffers::new();
    polygonize(&grid, &t, &mut mesh);
    assert!(mesh.positions.is_empty());
    assert!(mesh.indices.is_empty());
    assert!(mesh.normals.is_empty());
    assert!(mesh.uvs.is_empty());
    assert!(validate_collider_mesh(&mesh).is_err());
}

#[test]
fn full_grid_emits_nothing() {
    // every corner strictly inside: the only cell is configuration 0xFF
    let grid = grid_with_data([2, 2, 2], vec![1; 8]);
    let t = tables();
    let mut mesh = MeshBuffers::new();
    polygonize(&grid, &t, &mut mesh);
    assert!(mesh.positions.is_empty());
}

#[test]
fn single_corner_emits_one_exact_triangle() {
    // corner (0,0,0) is cube corner 3, so the configuration is 8 and the
    // row is the single triangle over edges 3, 11, 2
    let mut data = vec![0i64; 8];
    data[0] = 1;
    let grid = grid_with_data([2, 2, 2], data);
    let t = tables();
    let mut mesh = MeshBuffers::new();
    polygonize(&grid, &t, &mut mesh);
    assert_eq!(mesh.positions, vec![v(0, 0, 1), v(0, 1, 0), v(1, 0, 0)]);
    assert_eq!(mesh.indices, vec![0u32, 1, 2]);
    // flat normal: the cross product of (v1 - v0) and (v2 - v0),
    // duplicated across the triangle
    assert_eq!(mesh.normals, vec![v(-1, -1, -1); 3]);
    assert_eq!(
        mesh.uvs,
        vec![Vec2i { u: 0, v: 0 }, Vec2i { u: 1, v: 0 }, Vec2i { u: 0, v: 1 }]
    );
    assert!(validate_collider_mesh(&mesh).is_ok());
}

#[test]
fn emitted_vertices_sit_on_edge_midpoints() {
    // every vertex coordinate is in half-cell lattice units; a vertex on
    // an axis-aligned cell edge has exactly one odd coordinate
    let mut data = vec![0i64; 27];
    data[0] = 1;
    data[1] = 1;
    data[3] = 1;
    let grid = grid_with_data([3, 3, 3], data);
    let t = tables();
    let mut mesh = MeshBuffers::new();
    polygonize(&grid, &t, &mut mesh);
    assert!(!mesh.positions.is_empty());
    for p in mesh.positions.iter() {
        let odd = (p.x % 2 != 0) as u32 + (p.y % 2 != 0) as u32 + (p.z % 2 != 0) as u32;
        assert_eq!(odd, 1, "vertex {:?} is not an edge midpoint", p);
    }
}

#[test]
fn buffers_stay_parallel() {
    let mut data = vec![0i64; 27];
    data[0] = 1;
    data[13] = 1;
    data[4] = 1;
    let grid = grid_with_data([3, 3, 3], data);
    let t = tables();
    let mut mesh = MeshBuffers::new();
    polygonize(&grid, &t, &mut mesh);
    let n = mesh.positions.len();
    assert_eq!(mesh.normals.len(), n);
    assert_eq!(mesh.uvs.len(), n);
    assert_eq!(mesh.indices.len(), n);
    assert_eq!(n % 3, 0);
    for (i, ix) in mesh.indices.iter().enumerate() {
        assert_eq!(*ix as usize, i);
        assert!((*ix as usize) < n);
    }
}

#[test]
fn normals_are_cross_products() {
    let mut data = vec![0i64; 27];
    data[0] = 1;
    data[1] = 1;
    data[9] = 1;
    let grid = grid_with_data([3, 3, 3], data);
    let t = tables();
    let mut mesh = MeshBuffers::new();
    polygonize(&grid, &t, &mut mesh);
    assert!(!mesh.positions.is_empty());
    for tri in 0..mesh.positions.len() / 3 {
        let v0 = mesh.positions[3 * tri];
        let v1 = mesh.positions[3 * tri + 1];
        let v2 = mesh.positions[3 * tri + 2];
        let ax = v1.x - v0.x;
        let ay = v1.y - v0.y;
        let az = v1.z - v0.z;
        let bx = v2.x - v0.x;
        let by = v2.y - v0.y;
        let bz = v2.z - v0.z;
        let cross = v(ay * bz - az * by, az * bx - ax * bz, ax * by - ay * bx);
        assert_eq!(mesh.normals[3 * tri], cross);
        assert_eq!(mesh.normals[3 * tri + 1], cross);
        assert_eq!(mesh.normals[3 * tri + 2], cross);
        assert!(cross != v(0, 0, 0), "degenerate triangle normal");
        // within floating tolerance, the normalized float normal agrees
        let flen = ((cross.x * cross.x + cross.y * cross.y + cross.z * cross.z) as f64).sqrt();
        let fx = cross.x as f64 / flen;
        let fy = cross.y as f64 / flen;
        let fz = cross.z as f64 / flen;
        let norm = (fx * fx + fy * fy + fz * fz).sqrt();
        assert!((norm - 1.0).abs() < 1e-5);
    }
}

#[test]
fn repolygonizing_an_unchanged_grid_reproduces_the_buffers() {
    let mut data = vec![0i64; 27];
    data[0] = 1;
    data[14] = 1;
    data[22] = 1;
    let grid = grid_with_data([3, 3, 3], data);
    let t = tables();
    let mut first = MeshBuffers::new();
    polygonize(&grid, &t, &mut first);
    let mut second = MeshBuffers::new();
    // start the second pass from dirty buffers: the result may not depend
    // on the previous content
    second.positions.push(v(7, 7, 7));
    second.indices.push(99);
    polygonize(&grid, &t, &mut second);
    assert_eq!(first.positions, second.positions);
    assert_eq!(first.indices, second.indices);
    assert_eq!(first.normals, second.normals);
    assert_eq!(first.uvs, second.uvs);
}
