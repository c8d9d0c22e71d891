use sdf_visualizer::VoxelGrid;

#[test]
fn new_grid_is_empty() {
    let g = VoxelGrid::new(3, 4, 5);
    assert_eq!((g.x_len(), g.y_len(), g.z_len()), (3, 4, 5));
    for z in 0..5 {
        for y in 0..4 {
            for x in 0..3 {
                assert!(!g.get_voxel(x, y, z));
            }
        }
    }
}

#[test]
fn index_is_row_major_x_fastest() {
    let g = VoxelGrid::new(3, 4, 5);
    assert_eq!(g.index(0, 0, 0), 0);
    assert_eq!(g.index(1, 0, 0), 1);
    assert_eq!(g.index(0, 1, 0), 3);
    assert_eq!(g.index(0, 0, 1), 12);
    assert_eq!(g.index(2, 3, 4), 59);
}

#[test]
fn set_then_get_reads_back_and_leaves_others() {
    let mut g = VoxelGrid::new(3, 3, 3);
    g.set_voxel(1, 2, 0, true);
    g.set_voxel(2, 2, 2, true);
    for z in 0..3 {
        for y in 0..3 {
            for x in 0..3 {
                let expected = (x, y, z) == (1, 2, 0) || (x, y, z) == (2, 2, 2);
                assert_eq!(g.get_voxel(x, y, z), expected);
            }
        }
    }
    g.set_voxel(1, 2, 0, false);
    assert!(!g.get_voxel(1, 2, 0));
    assert!(g.get_voxel(2, 2, 2));
    // setting a voxel to the value it holds changes nothing
    g.set_voxel(2, 2, 2, true);
    assert!(g.get_voxel(2, 2, 2));
}

#[test]
fn voxels_in_one_byte_are_independent() {
    // 2 x 2 x 2 = 8 voxels share one byte of storage
    let mut g = VoxelGrid::new(2, 2, 2);
    for i in 0..8 {
        let (x, y, z) = (i % 2, (i / 2) % 2, i / 4);
        g.set_voxel(x, y, z, i % 3 == 0);
    }
    for i in 0..8 {
        let (x, y, z) = (i % 2, (i / 2) % 2, i / 4);
        assert_eq!(g.get_voxel(x, y, z), i % 3 == 0);
    }
}

#[test]
fn populate_sets_every_voxel_in_linear_order() {
    let mut g = VoxelGrid::new(4, 3, 2);
    let values: Vec<bool> = (0..24).map(|i| i % 5 == 1 || i == 23).collect();
    g.populate_from_values(&values);
    for z in 0..2 {
        for y in 0..3 {
            for x in 0..4 {
                let i = x + 4 * y + 12 * z;
                assert_eq!(g.get_voxel(x, y, z), values[i]);
            }
        }
    }
    let cleared = vec![false; 24];
    g.populate_from_values(&cleared);
    assert!(!g.get_voxel(3, 2, 1));
}

#[test]
fn cube_index_has_one_bit_per_corner() {
    let mut g = VoxelGrid::new(3, 3, 3);
    assert_eq!(g.cube_index(0, 0, 0), 0);
    g.set_voxel(0, 0, 0, true);
    assert_eq!(g.cube_index(0, 0, 0), 0b0000_0001);
    g.set_voxel(1, 1, 0, true);
    assert_eq!(g.cube_index(0, 0, 0), 0b0000_0101);
    g.set_voxel(0, 1, 1, true);
    assert_eq!(g.cube_index(0, 0, 0), 0b1000_0101);
    // the same voxel (1, 1, 0) is corner 0 of the cube at (1, 1, 0)
    assert_eq!(g.cube_index(1, 1, 0), 0b0000_0001);
    let all: Vec<bool> = vec![true; 27];
    g.populate_from_values(&all);
    assert_eq!(g.cube_index(1, 0, 1), 0xff);
}
