//! Marching-cubes meshing of signed-distance fields and scalar volumes.
//!
//! A [`VoxelGrid`] holds one bit per grid point (set where the sampled
//! field reaches the isovalue). [`VoxelGrid::mesh_topology`] turns the grid
//! into a triangle mesh whose vertices are the grid edges that join a set
//! point to an unset one, each shared by every cube around it, and whose
//! triangles come from the classic triangulation table. Placing each vertex
//! along its edge is left to the caller, who knows the sampled values.

mod bits;
pub mod cube;
pub mod mesh;
pub mod scalar_field;
pub mod tri_table;
pub mod voxel_grid;

pub use cube::{corner_offset_of, edge_corners, edge_mask};
pub use mesh::{GridEdge, MeshTopology};
pub use scalar_field::{central_difference_points, sample_count, ScalarField};
pub use tri_table::tri_table_row;
pub use voxel_grid::VoxelGrid;
