use marching_cubes::{expand_bounds, tight_bounds, Bounds, VoxelGrid, Vec3i};

fn v(x: i64, y: i64, z: i64) -> Vec3i {
    Vec3i { x, y, z }
}

#[test]
fn tight_bounds_of_empty_mesh_fails() {
    let vertices: Vec<Vec3i> = Vec::new();
    assert!(tight_bounds(&vertices).is_err());
}

#[test]
fn tight_bounds_finds_componentwise_extremes() {
    let vertices = vec![v(3, -2, 5), v(-7, 4, 0), v(1, 1, 9)];
    let (mn, mx) = tight_bounds(&vertices).unwrap();
    assert_eq!(mn, v(-7, -2, 0));
    assert_eq!(mx, v(3, 4, 9));
}

#[test]
fn bounds_expand_by_ten_percent_exactly() {
    // A tight box of [-1,-1,-1]..[1,1,1] host units expands to exactly
    // [-1.1,-1.1,-1.1]..[1.1,1.1,1.1], stored in tenths.
    let b = expand_bounds(v(-1, -1, -1), v(1, 1, 1));
    assert_eq!(b.min, v(-11, -11, -11));
    assert_eq!(b.max, v(11, 11, 11));
}

#[test]
fn bounds_expansion_multiplies_scalars_not_extents() {
    // A box not centered at the origin shifts: both corners are scaled.
    let b = expand_bounds(v(10, 0, 0), v(30, 10, 10));
    assert_eq!(b.min, v(110, 0, 0));
    assert_eq!(b.max, v(330, 110, 110));
}

fn some_bounds() -> Bounds {
    Bounds { min: v(-11, -11, -11), max: v(11, 11, 11) }
}

#[test]
fn malformed_resolutions_are_rejected() {
    let hits: Vec<bool> = vec![true; 6];
    assert!(VoxelGrid::from_hits([1, 4, 4], some_bounds(), &hits).is_err());
    assert!(VoxelGrid::from_hits([4, 0, 4], some_bounds(), &hits).is_err());
    assert!(VoxelGrid::from_hits([4, 4, 1000], some_bounds(), &hits).is_err());
}

#[test]
fn wrong_hit_count_is_rejected() {
    let hits: Vec<bool> = vec![true; 5];
    assert!(VoxelGrid::from_hits([2, 2, 2], some_bounds(), &hits).is_err());
}

#[test]
fn corner_is_occupied_only_when_all_six_rays_hit() {
    // a 2x2x2 grid samples exactly one corner: six flags
    let grid = VoxelGrid::from_hits([2, 2, 2], some_bounds(), &vec![true; 6]).unwrap();
    assert_eq!(grid.get(0, 0, 0), 1);
    let mut five = vec![true; 6];
    five[4] = false;
    let grid2 = VoxelGrid::from_hits([2, 2, 2], some_bounds(), &five).unwrap();
    assert_eq!(grid2.get(0, 0, 0), 0);
}

#[test]
fn last_plane_stays_outside() {
    // every sampled corner occupied; the final plane on each axis is not
    // sampled and stays at zero
    let grid = VoxelGrid::from_hits([3, 3, 3], some_bounds(), &vec![true; 6 * 8]).unwrap();
    for x in 0..3 {
        for y in 0..3 {
            for z in 0..3 {
                let expect = if x < 2 && y < 2 && z < 2 { 1 } else { 0 };
                assert_eq!(grid.get(x, y, z), expect);
            }
        }
    }
}

#[test]
fn data_is_stored_in_x_fastest_order() {
    let mut hits = vec![false; 6 * 8];
    // occupy only sampled corner (1, 0, 0) of a 3x3x3 grid
    for d in 0..6 {
        hits[6 * 1 + d] = true;
    }
    let grid = VoxelGrid::from_hits([3, 3, 3], some_bounds(), &hits).unwrap();
    assert_eq!(grid.get(1, 0, 0), 1);
    assert_eq!(grid.get(0, 0, 0), 0);
    assert_eq!(grid.get(0, 1, 0), 0);
    assert_eq!(grid.data[1], 1);
}
