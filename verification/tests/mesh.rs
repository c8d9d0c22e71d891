use std::collections::HashMap;

use sdf_visualizer::{GridEdge, VoxelGrid};

fn edge(start: (usize, usize, usize), end: (usize, usize, usize)) -> GridEdge {
    GridEdge { start, end }
}

fn ball_grid(n: usize, radius_sq: f64) -> VoxelGrid {
    let mut g = VoxelGrid::new(n, n, n);
    let c = (n as f64 - 1.0) / 2.0;
    let mut values = Vec::new();
    for z in 0..n {
        for y in 0..n {
            for x in 0..n {
                let d = (x as f64 - c).powi(2) + (y as f64 - c).powi(2) + (z as f64 - c).powi(2);
                values.push(d < radius_sq);
            }
        }
    }
    g.populate_from_values(&values);
    g
}

#[test]
fn single_set_voxel_gives_one_triangle() {
    let mut g = VoxelGrid::new(2, 2, 2);
    g.set_voxel(0, 0, 0, true);
    let m = g.mesh_topology();
    assert_eq!(
        m.vertices,
        vec![
            edge((0, 0, 0), (1, 0, 0)),
            edge((0, 1, 0), (0, 0, 0)),
            edge((0, 0, 0), (0, 0, 1)),
        ]
    );
    assert_eq!(m.indices, vec![0, 2, 1]);
}

#[test]
fn neighbouring_cubes_share_vertices() {
    let mut g = VoxelGrid::new(3, 2, 2);
    g.set_voxel(1, 0, 0, true);
    let m = g.mesh_topology();
    assert_eq!(
        m.vertices,
        vec![
            edge((0, 0, 0), (1, 0, 0)),
            edge((1, 0, 0), (1, 1, 0)),
            edge((1, 0, 0), (1, 0, 1)),
            edge((1, 0, 0), (2, 0, 0)),
        ]
    );
    assert_eq!(m.indices, vec![0, 1, 2, 3, 2, 1]);
}

#[test]
fn uniform_grids_have_empty_meshes() {
    let mut g = VoxelGrid::new(4, 3, 5);
    let m = g.mesh_topology();
    assert!(m.vertices.is_empty() && m.indices.is_empty());
    g.populate_from_values(&vec![true; 60]);
    let m = g.mesh_topology();
    assert!(m.vertices.is_empty() && m.indices.is_empty());
}

#[test]
fn flat_grid_has_no_cubes() {
    let mut g = VoxelGrid::new(5, 1, 5);
    g.set_voxel(2, 0, 2, true);
    let m = g.mesh_topology();
    assert!(m.vertices.is_empty() && m.indices.is_empty());
}

#[test]
fn ball_mesh_is_closed_and_consistently_oriented() {
    let g = ball_grid(7, 5.0);
    let m = g.mesh_topology();
    assert!(!m.indices.is_empty());
    assert_eq!(m.indices.len() % 3, 0);
    let mut directed: HashMap<(u32, u32), usize> = HashMap::new();
    for tri in m.indices.chunks(3) {
        for k in 0..3 {
            let a = tri[k];
            let b = tri[(k + 1) % 3];
            assert!((a as usize) < m.vertices.len());
            *directed.entry((a, b)).or_insert(0) += 1;
        }
    }
    for (&(a, b), &count) in &directed {
        assert_eq!(count, 1, "directed edge {a}->{b} used twice");
        assert_eq!(directed.get(&(b, a)), Some(&1), "edge {a}-{b} is a border");
    }
}

#[test]
fn every_vertex_lies_on_a_crossing_edge_once() {
    let g = ball_grid(6, 3.5);
    let m = g.mesh_topology();
    let mut seen = std::collections::HashSet::new();
    for v in &m.vertices {
        let (s, e) = (v.start, v.end);
        let d = s.0.abs_diff(e.0) + s.1.abs_diff(e.1) + s.2.abs_diff(e.2);
        assert_eq!(d, 1);
        assert_ne!(g.get_voxel(s.0, s.1, s.2), g.get_voxel(e.0, e.1, e.2));
        let key = if s < e { (s, e) } else { (e, s) };
        assert!(seen.insert(key), "two vertices on one edge");
    }
    // and every crossing grid edge carries a vertex
    let n = 6;
    let mut crossing = 0;
    for z in 0..n {
        for y in 0..n {
            for x in 0..n {
                let here = g.get_voxel(x, y, z);
                if x + 1 < n && here != g.get_voxel(x + 1, y, z) {
                    crossing += 1;
                }
                if y + 1 < n && here != g.get_voxel(x, y + 1, z) {
                    crossing += 1;
                }
                if z + 1 < n && here != g.get_voxel(x, y, z + 1) {
                    crossing += 1;
                }
            }
        }
    }
    assert_eq!(crossing, m.vertices.len());
}

#[test]
fn complement_grid_has_the_same_vertices() {
    let g = ball_grid(6, 4.0);
    let mut values = Vec::new();
    for z in 0..6 {
        for y in 0..6 {
            for x in 0..6 {
                values.push(!g.get_voxel(x, y, z));
            }
        }
    }
    let mut h = VoxelGrid::new(6, 6, 6);
    h.populate_from_values(&values);
    assert_eq!(g.mesh_topology().vertices, h.mesh_topology().vertices);
}

#[test]
fn every_vertex_is_used_by_a_triangle() {
    for (n, r) in [(5, 2.0), (6, 3.5), (7, 5.0), (8, 9.0)] {
        let g = ball_grid(n, r);
        let m = g.mesh_topology();
        let mut used = vec![false; m.vertices.len()];
        for &i in &m.indices {
            used[i as usize] = true;
        }
        assert!(used.iter().all(|&u| u), "an unused vertex for n = {n}");
    }
    // an irregular pattern of voxels gives cubes of many corner codes
    let mut g = VoxelGrid::new(5, 5, 5);
    let values: Vec<bool> = (0..125).map(|i: usize| (i * 7 + i / 5 + i / 25) % 3 == 0).collect();
    g.populate_from_values(&values);
    let m = g.mesh_topology();
    let mut used = vec![false; m.vertices.len()];
    for &i in &m.indices {
        used[i as usize] = true;
    }
    assert!(!used.is_empty() && used.iter().all(|&u| u));
}
