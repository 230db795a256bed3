use marching_cubes::{checked_tables, classic_tri_table, Tables};

fn tables() -> Tables {
    checked_tables(classic_tri_table()).unwrap()
}

#[test]
fn classic_table_is_well_formed() {
    assert!(checked_tables(classic_tri_table()).is_some());
}

#[test]
fn empty_and_full_configurations_have_no_triangles() {
    let t = tables();
    assert_eq!(t.active_count(0), 0);
    assert_eq!(t.active_count(255), 0);
    assert_eq!(t.tri_entry(0, 0), -1);
    assert_eq!(t.tri_entry(255, 0), -1);
}

#[test]
fn known_rows_match() {
    let t = tables();
    // one corner inside
    let expected1: [i8; 16] = [0, 8, 3, -1, -1, -1, -1, -1, -1, -1, -1, -1, -1, -1, -1, -1];
    for k in 0..16 {
        assert_eq!(t.tri_entry(1, k), expected1[k]);
    }
    assert_eq!(t.active_count(1), 3);
    // two adjacent corners inside
    let expected3: [i8; 16] = [1, 8, 3, 9, 8, 1, -1, -1, -1, -1, -1, -1, -1, -1, -1, -1];
    for k in 0..16 {
        assert_eq!(t.tri_entry(3, k), expected3[k]);
    }
    assert_eq!(t.active_count(3), 6);
}

#[test]
fn derived_edge_table_matches_classic_edge_table() {
    // The classic 256-entry edge-activation table, written down
    // independently of the triangulation rows the crate carries.
    let classic: Vec<u16> = vec![
        0x0, 0x109, 0x203, 0x30a, 0x406, 0x50f, 0x605, 0x70c, 0x80c, 0x905, 0xa0f, 0xb06, 0xc0a,
        0xd03, 0xe09, 0xf00, 0x190, 0x99, 0x393, 0x29a, 0x596, 0x49f, 0x795, 0x69c, 0x99c, 0x895,
        0xb9f, 0xa96, 0xd9a, 0xc93, 0xf99, 0xe90, 0x230, 0x339, 0x33, 0x13a, 0x636, 0x73f, 0x435,
        0x53c, 0xa3c, 0xb35, 0x83f, 0x936, 0xe3a, 0xf33, 0xc39, 0xd30, 0x3a0, 0x2a9, 0x1a3, 0xaa,
        0x7a6, 0x6af, 0x5a5, 0x4ac, 0xbac, 0xaa5, 0x9af, 0x8a6, 0xfaa, 0xea3, 0xda9, 0xca0, 0x460,
        0x569, 0x663, 0x76a, 0x66, 0x16f, 0x265, 0x36c, 0xc6c, 0xd65, 0xe6f, 0xf66, 0x86a, 0x963,
        0xa69, 0xb60, 0x5f0, 0x4f9, 0x7f3, 0x6fa, 0x1f6, 0xff, 0x3f5, 0x2fc, 0xdfc, 0xcf5, 0xfff,
        0xef6, 0x9fa, 0x8f3, 0xbf9, 0xaf0, 0x650, 0x759, 0x453, 0x55a, 0x256, 0x35f, 0x55, 0x15c,
        0xe5c, 0xf55, 0xc5f, 0xd56, 0xa5a, 0xb53, 0x859, 0x950, 0x7c0, 0x6c9, 0x5c3, 0x4ca, 0x3c6,
        0x2cf, 0x1c5, 0xcc, 0xfcc, 0xec5, 0xdcf, 0xcc6, 0xbca, 0xac3, 0x9c9, 0x8c0, 0x8c0, 0x9c9,
        0xac3, 0xbca, 0xcc6, 0xdcf, 0xec5, 0xfcc, 0xcc, 0x1c5, 0x2cf, 0x3c6, 0x4ca, 0x5c3, 0x6c9,
        0x7c0, 0x950, 0x859, 0xb53, 0xa5a, 0xd56, 0xc5f, 0xf55, 0xe5c, 0x15c, 0x55, 0x35f, 0x256,
        0x55a, 0x453, 0x759, 0x650, 0xaf0, 0xbf9, 0x8f3, 0x9fa, 0xef6, 0xfff, 0xcf5, 0xdfc, 0x2fc,
        0x3f5, 0xff, 0x1f6, 0x6fa, 0x7f3, 0x4f9, 0x5f0, 0xb60, 0xa69, 0x963, 0x86a, 0xf66, 0xe6f,
        0xd65, 0xc6c, 0x36c, 0x265, 0x16f, 0x66, 0x76a, 0x663, 0x569, 0x460, 0xca0, 0xda9, 0xea3,
        0xfaa, 0x8a6, 0x9af, 0xaa5, 0xbac, 0x4ac, 0x5a5, 0x6af, 0x7a6, 0xaa, 0x1a3, 0x2a9, 0x3a0,
        0xd30, 0xc39, 0xf33, 0xe3a, 0x936, 0x83f, 0xb35, 0xa3c, 0x53c, 0x435, 0x73f, 0x636, 0x13a,
        0x33, 0x339, 0x230, 0xe90, 0xf99, 0xc93, 0xd9a, 0xa96, 0xb9f, 0x895, 0x99c, 0x69c, 0x795,
        0x49f, 0x596, 0x29a, 0x393, 0x99, 0x190, 0xf00, 0xe09, 0xd03, 0xc0a, 0xb06, 0xa0f, 0x905,
        0x80c, 0x70c, 0x605, 0x50f, 0x406, 0x30a, 0x203, 0x109, 0x0,
    ];
    assert_eq!(classic.len(), 256);
    let t = tables();
    for ci in 0..256 {
        assert_eq!(t.edge_mask(ci), classic[ci], "configuration {}", ci);
    }
}

#[test]
fn edge_table_is_complement_symmetric() {
    let t = tables();
    for ci in 0..256 {
        assert_eq!(t.edge_mask(ci), t.edge_mask(255 - ci));
    }
}

#[test]
fn every_referenced_edge_has_its_bit_set() {
    // Table consistency, checked over the concrete data.
    let t = tables();
    for ci in 0..256 {
        let mask = t.edge_mask(ci);
        let n = t.active_count(ci);
        assert_eq!(n % 3, 0);
        for k in 0..n {
            let e = t.tri_entry(ci, k);
            assert!(0 <= e && e < 12);
            assert!(mask & (1u16 << (e as u16)) != 0);
        }
        assert_eq!(t.tri_entry(ci, 15), -1);
    }
}

#[test]
fn malformed_tables_are_rejected() {
    assert!(checked_tables(vec![0i8; 10]).is_none());
    // a row whose final entry is not the sentinel
    let mut bad = vec![-1i8; 4096];
    bad[15] = 0;
    assert!(checked_tables(bad).is_none());
    // an entry that is not a cube edge
    let mut bad2 = classic_tri_table();
    bad2[16] = 12;
    assert!(checked_tables(bad2).is_none());
    // a triangulated row for the all-empty configuration
    let mut bad3 = classic_tri_table();
    bad3[0] = 0;
    bad3[1] = 8;
    bad3[2] = 3;
    assert!(checked_tables(bad3).is_none());
    // a triangle that touches the same edge twice
    let mut bad4 = classic_tri_table();
    bad4[17] = 0;
    assert!(checked_tables(bad4).is_none());
}
