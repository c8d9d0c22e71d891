# sdf_visualizer

Marching-cubes meshing of signed-distance fields and scalar volumes, with a
small interactive viewer.

- `src/` is the verified library. A `VoxelGrid` stores one bit per grid
  point; `VoxelGrid::mesh_topology` builds the triangle mesh of the set
  points: one vertex per grid edge that joins a set point to an unset one,
  shared by every cube around that edge, and for each cube the triangles of
  its row of the classic triangulation table. The contracts describe the
  result exactly (which edges become vertices, in which order, and which
  index triples come out), and proof functions state the properties that
  make it a mesh: no edge appears twice, every crossing edge appears, every
  index names a vertex, and the table itself is well formed.
- `tests/` runs the library on concrete grids.
- `app/` is the viewer: it samples a field on the grid, hands the library
  the thresholded points, places each vertex along its edge by linear
  interpolation, computes normals, and draws the mesh with wgpu and egui.
