use sdf_visualizer::{corner_offset_of, edge_corners, edge_mask, tri_table_row};

#[test]
fn edge_mask_matches_the_classic_edge_table() {
    let expected: [(u8, u16); 22] = [
        (0, 0x000),
        (1, 0x109),
        (2, 0x203),
        (3, 0x30a),
        (4, 0x406),
        (5, 0x50f),
        (6, 0x605),
        (7, 0x70c),
        (8, 0x80c),
        (9, 0x905),
        (10, 0xa0f),
        (11, 0xb06),
        (12, 0xc0a),
        (13, 0xd03),
        (14, 0xe09),
        (15, 0xf00),
        (16, 0x190),
        (32, 0x230),
        (64, 0x460),
        (128, 0x8c0),
        (254, 0x109),
        (255, 0x000),
    ];
    for (code, mask) in expected {
        assert_eq!(edge_mask(code), mask, "code {code}");
    }
}

#[test]
fn edge_mask_of_complement_is_the_same() {
    for code in 0..=255u8 {
        assert_eq!(edge_mask(!code), edge_mask(code));
    }
}

#[test]
fn edge_mask_holds_exactly_the_edges_with_differing_corners() {
    for code in 0..=255u8 {
        let m = edge_mask(code);
        assert_eq!(m >> 12, 0);
        for e in 0..12 {
            let (s, t) = edge_corners(e);
            let differ = ((code >> s) & 1) != ((code >> t) & 1);
            assert_eq!((m >> e) & 1 == 1, differ);
        }
    }
}

#[test]
fn every_edge_joins_neighbouring_corners() {
    for e in 0..12 {
        let (s, t) = edge_corners(e);
        let a = corner_offset_of(s);
        let b = corner_offset_of(t);
        let dist = a.0.abs_diff(b.0) + a.1.abs_diff(b.1) + a.2.abs_diff(b.2);
        assert_eq!(dist, 1, "edge {e}");
    }
    assert_eq!(edge_corners(0), (0, 1));
    assert_eq!(edge_corners(3), (3, 0));
    assert_eq!(edge_corners(7), (7, 4));
    assert_eq!(edge_corners(11), (3, 7));
    assert_eq!(corner_offset_of(6), (1, 1, 1));
}

#[test]
fn triangulation_rows_are_well_formed() {
    for code in 0..=255u8 {
        let row = tri_table_row(code);
        let mask = edge_mask(code);
        let len = row.iter().position(|&x| x == -1).expect("every row ends with -1");
        assert_eq!(len % 3, 0, "row {code}");
        assert!(len <= 15);
        for &entry in &row[..len] {
            assert!((0..12).contains(&entry), "row {code}");
            assert_eq!((mask >> entry) & 1, 1, "row {code} names an edge that does not cross");
        }
        // every crossing edge is used by some triangle
        for e in 0..12i8 {
            if (mask >> e) & 1 == 1 {
                assert!(row[..len].contains(&e), "row {code} leaves edge {e} out");
            }
        }
    }
}

#[test]
fn triangulation_rows_of_simple_cases() {
    assert_eq!(tri_table_row(0)[0], -1);
    assert_eq!(tri_table_row(255)[0], -1);
    assert_eq!(&tri_table_row(1)[..4], &[0, 8, 3, -1]);
    assert_eq!(&tri_table_row(3)[..7], &[1, 8, 3, 9, 8, 1, -1]);
    assert_eq!(&tri_table_row(15)[..7], &[9, 8, 10, 10, 8, 11, -1]);
    assert_eq!(&tri_table_row(254)[..4], &[0, 3, 8, -1]);
}
