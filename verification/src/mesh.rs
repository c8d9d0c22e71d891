//! Marching cubes over a voxel grid: every grid edge that joins a set voxel
//! to an unset one carries one mesh vertex, shared by all the cubes around
//! the edge, and every cube contributes the triangles that the
//! triangulation table lists for its corner code.
use vstd::prelude::*;
use std::collections::HashMap;
use crate::bits::byte_bit;
use crate::cube::{
    corner_offset,
    corner_offset_of,
    corner_set,
    cube_code,
    code_edge_crosses,
    edge_corners,
    edge_end,
    edge_mask,
    edge_mask_spec,
    edge_start,
    lemma_cube_code_bits,
    lemma_edge_mask_bits,
    lemma_u16_zero_bit,
    mask_bit,
};
use crate::tri_table::{
    corner_x,
    corner_y,
    corner_z,
    mid_x,
    mid_y,
    mid_z,
    row_entries_oriented,
    set_corner_bits,
    triangle_faces_set_bits,
    triple_product,
    edge_crosses_bits,
    end_corner_bits,
    lemma_tri_rows_checked,
    row_entries_checked,
    row_entries_cover,
    start_corner_bits,
    tri_row,
    tri_table_row,
};
use crate::voxel_grid::{
    VoxelGrid,
    linear_index,
    lemma_linear_index_bounds,
    lemma_linear_index_injective,
};

verus! {

broadcast use vstd::std_specs::hash::group_hash_axioms;

/// The grid edge on which a mesh vertex lies: the grid point where the edge
/// starts and the one where it ends, in the order of the first cube edge
/// that met it.
#[derive(Clone, Copy, Debug, PartialEq, Eq)]
pub struct GridEdge {
    pub start: (usize, usize, usize),
    pub end: (usize, usize, usize),
}

/// The combinatorial part of a marching-cubes mesh: one vertex per crossed
/// grid edge, and three vertex indices per triangle.
pub struct MeshTopology {
    pub vertices: Vec<GridEdge>,
    pub indices: Vec<u32>,
}

/// Number of cubes of the grid: one per point that is not on the far face
/// of any axis.
pub open spec fn cube_count(g: VoxelGrid) -> int {
    (g.x_dim() - 1) * (g.y_dim() - 1) * (g.z_dim() - 1)
}

/// Lowest corner of cube `c`, cubes being numbered with x fastest, then y,
/// then z.
pub open spec fn cube_origin(g: VoxelGrid, c: int) -> (int, int, int) {
    let a = g.x_dim() - 1;
    let b = g.y_dim() - 1;
    (c % a, (c / a) % b, (c / a) / b)
}

/// Grid point of corner `v` of cube `c`.
pub open spec fn cube_corner(g: VoxelGrid, c: int, v: int) -> (int, int, int) {
    let o = cube_origin(g, c);
    (o.0 + corner_offset(v).0, o.1 + corner_offset(v).1, o.2 + corner_offset(v).2)
}

/// Corner code of cube `c`.
pub open spec fn cube_code_of(g: VoxelGrid, c: int) -> u8 {
    let o = cube_origin(g, c);
    cube_code(g, o.0, o.1, o.2)
}

/// Whether edge `e` of cube `c` joins a set voxel to an unset one.
pub open spec fn edge_crosses(g: VoxelGrid, c: int, e: int) -> bool {
    let o = cube_origin(g, c);
    corner_set(g, o.0, o.1, o.2, edge_start(e)) != corner_set(g, o.0, o.1, o.2, edge_end(e))
}

/// A grid point given by integer coordinates, as `usize` coordinates.
pub open spec fn to_point(p: (int, int, int)) -> (usize, usize, usize) {
    (p.0 as usize, p.1 as usize, p.2 as usize)
}

/// Edge `e` of cube `c`, from its start corner to its end corner.
pub open spec fn cube_edge(g: VoxelGrid, c: int, e: int) -> GridEdge {
    GridEdge {
        start: to_point(cube_corner(g, c, edge_start(e))),
        end: to_point(cube_corner(g, c, edge_end(e))),
    }
}

/// The crossing edges among edges `0..n` of cube `c`, in edge order.
pub open spec fn cube_crossings(g: VoxelGrid, c: int, n: int) -> Seq<GridEdge>
    decreases n,
{
    if n <= 0 {
        seq![]
    } else if edge_crosses(g, c, n - 1) {
        cube_crossings(g, c, n - 1).push(cube_edge(g, c, n - 1))
    } else {
        cube_crossings(g, c, n - 1)
    }
}

/// The crossing edges of cubes `0..c`, cube by cube, each in edge order.
pub open spec fn crossings_upto(g: VoxelGrid, c: int) -> Seq<GridEdge>
    decreases c,
{
    if c <= 0 {
        seq![]
    } else {
        crossings_upto(g, c - 1) + cube_crossings(g, c - 1, 12)
    }
}

/// Whether two grid edges join the same two points, in either order.
pub open spec fn same_edge(a: GridEdge, b: GridEdge) -> bool {
    (a.start == b.start && a.end == b.end) || (a.start == b.end && a.end == b.start)
}

/// Whether `s` holds an edge that joins the same points as `x`.
pub open spec fn has_edge(s: Seq<GridEdge>, x: GridEdge) -> bool {
    exists|p: int| 0 <= p < s.len() && #[trigger] same_edge(s[p], x)
}

/// `s` with every edge dropped that joins the same points as an earlier one.
pub open spec fn first_occurrences(s: Seq<GridEdge>) -> Seq<GridEdge>
    decreases s.len(),
{
    if s.len() == 0 {
        seq![]
    } else {
        let prefix = first_occurrences(s.drop_last());
        if has_edge(prefix, s.last()) {
            prefix
        } else {
            prefix.push(s.last())
        }
    }
}

/// No two entries of `v` join the same points.
pub open spec fn distinct_edges(v: Seq<GridEdge>) -> bool {
    forall|p: int, q: int| 0 <= p < q < v.len() ==> !same_edge(#[trigger] v[p], #[trigger] v[q])
}

/// Position in `v` of the entry that joins the same points as `x`.
pub open spec fn vertex_index(v: Seq<GridEdge>, x: GridEdge) -> int {
    choose|p: int| 0 <= p < v.len() && #[trigger] same_edge(v[p], x)
}

/// Whether entry `t` of a triangulation row names an edge that the cube's
/// edge mask holds.
pub open spec fn tri_entry_ok(row: [i8; 16], t: int, mask: u16) -> bool {
    0 <= row[t] < 12 && mask_bit(mask, row[t] as int)
}

/// Whether a triangle starts at entry `t` of a triangulation row.
pub open spec fn tri_continues(row: [i8; 16], t: int, mask: u16) -> bool {
    &&& 0 <= t
    &&& t + 2 < 16
    &&& tri_entry_ok(row, t, mask)
    &&& tri_entry_ok(row, t + 1, mask)
    &&& tri_entry_ok(row, t + 2, mask)
}

/// Whether a triangulation row, read as the classic algorithm reads it
/// (three entries at a time from entry `t` until an entry is `-1`), names
/// only edges that the mask holds, and has that `-1` within its sixteen
/// entries.
pub open spec fn row_well_formed(row: [i8; 16], mask: u16, t: int) -> bool
    decreases 16 - t,
{
    if t < 0 || t >= 16 {
        false
    } else if row[t] == -1 {
        true
    } else {
        tri_continues(row, t, mask) && row_well_formed(row, mask, t + 3)
    }
}

proof fn lemma_edge_crosses_bits(code: u8, e: i8)
    ensures
        edge_crosses_bits(code, e) == (0 <= e < 12 && mask_bit(edge_mask_spec(code), e as int)),
{
    lemma_edge_mask_bits(code);
    if 0 <= e < 12 {
        let s = start_corner_bits(e);
        let t = end_corner_bits(e);
        assert(s == edge_start(e as int) as u8);
        assert(t == edge_end(e as int) as u8);
        assert((((code >> s) & 1u8) != ((code >> t) & 1u8)) == (((code >> s) & 1u8 == 1u8) != ((
        code >> t) & 1u8 == 1u8))) by (bit_vector);
    }
}

/// Every row of the triangulation table is well formed for the edge mask of
/// its corner code: read three entries at a time until one is `-1`, it
/// names only edges that the surface crosses, and it holds that `-1`.
pub proof fn lemma_tri_table_well_formed(code: u8)
    ensures
        row_well_formed(tri_row(code), edge_mask_spec(code), 0),
{
    lemma_tri_rows_checked(code);
    let row = tri_row(code);
    reveal(row_entries_checked);
    lemma_edge_crosses_bits(code, row[0]);
    lemma_edge_crosses_bits(code, row[1]);
    lemma_edge_crosses_bits(code, row[2]);
    lemma_edge_crosses_bits(code, row[3]);
    lemma_edge_crosses_bits(code, row[4]);
    lemma_edge_crosses_bits(code, row[5]);
    lemma_edge_crosses_bits(code, row[6]);
    lemma_edge_crosses_bits(code, row[7]);
    lemma_edge_crosses_bits(code, row[8]);
    lemma_edge_crosses_bits(code, row[9]);
    lemma_edge_crosses_bits(code, row[10]);
    lemma_edge_crosses_bits(code, row[11]);
    lemma_edge_crosses_bits(code, row[12]);
    lemma_edge_crosses_bits(code, row[13]);
    lemma_edge_crosses_bits(code, row[14]);
    reveal_with_fuel(row_well_formed, 7);
}

proof fn lemma_row_well_formed_at(row: [i8; 16], mask: u16, s: int, t: int)
    requires
        0 <= s <= t,
        (t - s) % 3 == 0,
        row_well_formed(row, mask, s),
        forall|r: int| s <= r < t && (r - s) % 3 == 0 ==> #[trigger] tri_continues(row, r, mask),
    ensures
        row_well_formed(row, mask, t),
    decreases t - s,
{
    if s < t {
        assert(tri_continues(row, s, mask));
        assert forall|r: int| s + 3 <= r < t && (r - (s + 3)) % 3 == 0 implies #[trigger] tri_continues(
            row,
            r,
            mask,
        ) by {
            assert((r - s) % 3 == 0);
        }
        lemma_row_well_formed_at(row, mask, s + 3, t);
    }
}

/// The triangles of a cube are those of its row up to the row's first
/// `-1`: reading the row three entries at a time, a triangle starts at
/// entry `t` exactly when that entry is not `-1`, as long as one started at
/// every earlier step.
pub proof fn lemma_tri_continues_until_terminator(code: u8, t: int)
    requires
        0 <= t < 16,
        t % 3 == 0,
        forall|r: int|
            0 <= r < t && r % 3 == 0 ==> #[trigger] tri_continues(tri_row(code), r, edge_mask_spec(code)),
    ensures
        tri_continues(tri_row(code), t, edge_mask_spec(code)) == (tri_row(code)[t] != -1),
{
    lemma_tri_table_well_formed(code);
    lemma_row_well_formed_at(tri_row(code), edge_mask_spec(code), 0, t);
}

/// Whether one of the triangles that `row` holds from entry `t` on, read
/// three entries at a time while they name edges of the mask, names edge
/// `e`.
pub open spec fn row_names_edge(row: [i8; 16], mask: u16, t: int, e: int) -> bool
    decreases 16 - t,
{
    if tri_continues(row, t, mask) {
        row[t] == e || row[t + 1] == e || row[t + 2] == e || row_names_edge(row, mask, t + 3, e)
    } else {
        false
    }
}

/// Every edge that a cube's surface crosses is named by one of the
/// triangles of the cube's row of the triangulation table.
pub proof fn lemma_tri_table_covers(code: u8)
    ensures
        forall|e: int|
            0 <= e < 12 && mask_bit(edge_mask_spec(code), e) ==> #[trigger] row_names_edge(
                tri_row(code),
                edge_mask_spec(code),
                0,
                e,
            ),
{
    lemma_tri_rows_checked(code);
    let row = tri_row(code);
    reveal(row_entries_checked);
    reveal(row_entries_cover);
    lemma_edge_crosses_bits(code, row[0]);
    lemma_edge_crosses_bits(code, row[1]);
    lemma_edge_crosses_bits(code, row[2]);
    lemma_edge_crosses_bits(code, row[3]);
    lemma_edge_crosses_bits(code, row[4]);
    lemma_edge_crosses_bits(code, row[5]);
    lemma_edge_crosses_bits(code, row[6]);
    lemma_edge_crosses_bits(code, row[7]);
    lemma_edge_crosses_bits(code, row[8]);
    lemma_edge_crosses_bits(code, row[9]);
    lemma_edge_crosses_bits(code, row[10]);
    lemma_edge_crosses_bits(code, row[11]);
    lemma_edge_crosses_bits(code, row[12]);
    lemma_edge_crosses_bits(code, row[13]);
    lemma_edge_crosses_bits(code, row[14]);
    lemma_edge_crosses_bits(code, 0i8);
    lemma_edge_crosses_bits(code, 1i8);
    lemma_edge_crosses_bits(code, 2i8);
    lemma_edge_crosses_bits(code, 3i8);
    lemma_edge_crosses_bits(code, 4i8);
    lemma_edge_crosses_bits(code, 5i8);
    lemma_edge_crosses_bits(code, 6i8);
    lemma_edge_crosses_bits(code, 7i8);
    lemma_edge_crosses_bits(code, 8i8);
    lemma_edge_crosses_bits(code, 9i8);
    lemma_edge_crosses_bits(code, 10i8);
    lemma_edge_crosses_bits(code, 11i8);
    reveal_with_fuel(row_names_edge, 6);
    assert forall|e: int|
        0 <= e < 12 && mask_bit(edge_mask_spec(code), e) implies #[trigger] row_names_edge(
        row,
        edge_mask_spec(code),
        0,
        e,
    ) by {
        assert(e == 0 || e == 1 || e == 2 || e == 3 || e == 4 || e == 5 || e == 6 || e == 7 || e == 8 || e == 9 || e == 10 || e == 11);
    }
}

/// Every triangle of the triangulation table faces the set corners of its
/// code: reading a row three entries at a time, each triangle met (taken
/// in table order) has its right-handed normal pointing the way of the sum
/// of the vectors from its three edges' midpoints to their set corners. A
/// triangle wound the other way, or taken from the complementary code's
/// row, points away.
pub proof fn lemma_tri_table_oriented(code: u8, t: int)
    requires
        0 <= t < 16,
        t % 3 == 0,
        forall|r: int|
            0 <= r < t && r % 3 == 0 ==> #[trigger] tri_continues(tri_row(code), r, edge_mask_spec(code)),
        tri_continues(tri_row(code), t, edge_mask_spec(code)),
    ensures
        triangle_faces_set_bits(code, tri_row(code)[t], tri_row(code)[t + 1], tri_row(code)[t + 2]),
{
    let row = tri_row(code);
    let mask = edge_mask_spec(code);
    lemma_tri_rows_checked(code);
    reveal(row_entries_oriented);
    if t >= 3 {
        assert(tri_continues(row, 0, mask));
    }
    if t >= 6 {
        assert(tri_continues(row, 3, mask));
    }
    if t >= 9 {
        assert(tri_continues(row, 6, mask));
    }
    if t >= 12 {
        assert(tri_continues(row, 9, mask));
    }
    assert(t == 0 || t == 3 || t == 6 || t == 9 || t == 12 || t == 15);
}

/// The vertex indices, in `v`, of the triangles of cube `c` from entry `t`
/// of its triangulation row on.
pub open spec fn cube_triangle_indices(g: VoxelGrid, c: int, v: Seq<GridEdge>, t: int) -> Seq<
    u32,
>
    decreases 16 - t,
{
    let code = cube_code_of(g, c);
    let row = tri_row(code);
    if tri_continues(row, t, edge_mask_spec(code)) {
        seq![
            vertex_index(v, cube_edge(g, c, row[t] as int)) as u32,
            vertex_index(v, cube_edge(g, c, row[t + 1] as int)) as u32,
            vertex_index(v, cube_edge(g, c, row[t + 2] as int)) as u32,
        ] + cube_triangle_indices(g, c, v, t + 3)
    } else {
        seq![]
    }
}

/// The vertex indices, in `v`, of the triangles of cubes `0..c`.
pub open spec fn triangle_indices_upto(g: VoxelGrid, c: int, v: Seq<GridEdge>) -> Seq<u32>
    decreases c,
{
    if c <= 0 {
        seq![]
    } else {
        triangle_indices_upto(g, c - 1, v) + cube_triangle_indices(g, c - 1, v, 0)
    }
}

/// The vertices of the mesh of `g`: each crossing grid edge once, in the
/// order in which the cubes first meet it.
pub open spec fn mesh_vertices(g: VoxelGrid) -> Seq<GridEdge> {
    first_occurrences(crossings_upto(g, cube_count(g)))
}

/// The index list of the mesh of `g`.
pub open spec fn mesh_indices(g: VoxelGrid) -> Seq<u32> {
    triangle_indices_upto(g, cube_count(g), mesh_vertices(g))
}

/// The axis along which a grid edge runs: 0 for x, 1 for y, 2 for z.
pub open spec fn edge_axis(x: GridEdge) -> int {
    if x.start.0 != x.end.0 {
        0
    } else if x.start.1 != x.end.1 {
        1
    } else {
        2
    }
}

/// The smaller of two coordinates.
pub open spec fn min_usize(a: usize, b: usize) -> usize {
    if a <= b {
        a
    } else {
        b
    }
}

/// The lower of the two grid points that a grid edge joins.
pub open spec fn edge_lower(x: GridEdge) -> (usize, usize, usize) {
    (min_usize(x.start.0, x.end.0), min_usize(x.start.1, x.end.1), min_usize(x.start.2, x.end.2))
}

/// Linear position of the lower point of a grid edge.
pub open spec fn edge_key(g: VoxelGrid, x: GridEdge) -> int {
    let l = edge_lower(x);
    linear_index(l.0 as int, l.1 as int, l.2 as int, g.x_dim(), g.y_dim())
}

/// Whether a grid point lies inside the grid.
pub open spec fn point_in_grid(g: VoxelGrid, p: (usize, usize, usize)) -> bool {
    g.in_bounds(p.0 as int, p.1 as int, p.2 as int)
}

/// Whether two grid points are neighbours along one axis.
pub open spec fn unit_apart(p: (usize, usize, usize), q: (usize, usize, usize)) -> bool {
    ||| (p.0 + 1 == q.0 || q.0 + 1 == p.0) && p.1 == q.1 && p.2 == q.2
    ||| p.0 == q.0 && (p.1 + 1 == q.1 || q.1 + 1 == p.1) && p.2 == q.2
    ||| p.0 == q.0 && p.1 == q.1 && (p.2 + 1 == q.2 || q.2 + 1 == p.2)
}

/// Whether `x` joins two neighbouring points of the grid.
pub open spec fn is_grid_edge(g: VoxelGrid, x: GridEdge) -> bool {
    point_in_grid(g, x.start) && point_in_grid(g, x.end) && unit_apart(x.start, x.end)
}

/// Two grid edges join the same points exactly when they run along the
/// same axis from the same lower point.
proof fn lemma_same_edge_by_key(g: VoxelGrid, a: GridEdge, b: GridEdge)
    requires
        g.wf(),
        is_grid_edge(g, a),
        is_grid_edge(g, b),
    ensures
        same_edge(a, b) <==> (edge_axis(a) == edge_axis(b) && edge_key(g, a) == edge_key(g, b)),
{
    g.lemma_wf();
    let la = edge_lower(a);
    let lb = edge_lower(b);
    if edge_key(g, a) == edge_key(g, b) {
        lemma_linear_index_injective(
            la.0 as int,
            la.1 as int,
            la.2 as int,
            lb.0 as int,
            lb.1 as int,
            lb.2 as int,
            g.x_dim(),
            g.y_dim(),
        );
    }
}

/// Cube `c` lies inside the grid.
proof fn lemma_cube_origin_bounds(g: VoxelGrid, c: int)
    requires
        g.wf(),
        0 <= c < cube_count(g),
    ensures
        0 <= cube_origin(g, c).0 < g.x_dim() - 1,
        0 <= cube_origin(g, c).1 < g.y_dim() - 1,
        0 <= cube_origin(g, c).2 < g.z_dim() - 1,
{
    g.lemma_wf();
    let a = g.x_dim() - 1;
    let b = g.y_dim() - 1;
    let d = g.z_dim() - 1;
    assert(a > 0 && b > 0 && d > 0) by (nonlinear_arith)
        requires
            a >= 0,
            b >= 0,
            d >= 0,
            0 <= c < a * b * d,
    ;
    let t = c / a;
    vstd::arithmetic::div_mod::lemma_fundamental_div_mod(c, a);
    vstd::arithmetic::div_mod::lemma_mod_bound(c, a);
    vstd::arithmetic::div_mod::lemma_fundamental_div_mod(t, b);
    vstd::arithmetic::div_mod::lemma_mod_bound(t, b);
    assert(0 <= t < b * d) by (nonlinear_arith)
        requires
            c == a * t + c % a,
            0 <= c % a < a,
            0 <= c < a * b * d,
            a > 0,
    ;
    assert(0 <= t / b < d) by (nonlinear_arith)
        requires
            t == b * (t / b) + t % b,
            0 <= t % b < b,
            0 <= t < b * d,
            b > 0,
    ;
}

/// Every edge of every cube joins two neighbouring grid points.
proof fn lemma_cube_edge_in_grid(g: VoxelGrid, c: int, e: int)
    requires
        g.wf(),
        0 <= c < cube_count(g),
        0 <= e < 12,
    ensures
        is_grid_edge(g, cube_edge(g, c, e)),
        cube_edge(g, c, e).start.0 == cube_corner(g, c, edge_start(e)).0,
        cube_edge(g, c, e).start.1 == cube_corner(g, c, edge_start(e)).1,
        cube_edge(g, c, e).start.2 == cube_corner(g, c, edge_start(e)).2,
        cube_edge(g, c, e).end.0 == cube_corner(g, c, edge_end(e)).0,
        cube_edge(g, c, e).end.1 == cube_corner(g, c, edge_end(e)).1,
        cube_edge(g, c, e).end.2 == cube_corner(g, c, edge_end(e)).2,
{
    g.lemma_wf();
    lemma_cube_origin_bounds(g, c);
    let s = cube_corner(g, c, edge_start(e));
    let t = cube_corner(g, c, edge_end(e));
    assert(0 <= s.0 < g.x_dim() && 0 <= s.1 < g.y_dim() && 0 <= s.2 < g.z_dim());
    assert(0 <= t.0 < g.x_dim() && 0 <= t.1 < g.y_dim() && 0 <= t.2 < g.z_dim());
    if e == 0 || e == 2 || e == 4 || e == 6 {
        assert(s.1 == t.1 && s.2 == t.2 && (s.0 + 1 == t.0 || t.0 + 1 == s.0));
    } else if e == 1 || e == 3 || e == 5 || e == 7 {
        assert(s.0 == t.0 && s.2 == t.2 && (s.1 + 1 == t.1 || t.1 + 1 == s.1));
    } else {
        assert(s.0 == t.0 && s.1 == t.1 && s.2 + 1 == t.2);
    }
}

/// `first_occurrences` of a sequence extended by one edge.
proof fn lemma_first_occurrences_push(s: Seq<GridEdge>, x: GridEdge)
    ensures
        first_occurrences(s.push(x)) == (if has_edge(first_occurrences(s), x) {
            first_occurrences(s)
        } else {
            first_occurrences(s).push(x)
        }),
{
    assert(s.push(x).drop_last() =~= s);
}

/// Keeping only first occurrences leaves no two entries on the same edge.
proof fn lemma_first_occurrences_distinct(s: Seq<GridEdge>)
    ensures
        distinct_edges(first_occurrences(s)),
    decreases s.len(),
{
    if s.len() > 0 {
        lemma_first_occurrences_distinct(s.drop_last());
    }
}

/// Every edge of `s` has an entry in `first_occurrences(s)` that joins the
/// same points.
proof fn lemma_first_occurrences_cover(s: Seq<GridEdge>)
    ensures
        forall|i: int| 0 <= i < s.len() ==> has_edge(first_occurrences(s), #[trigger] s[i]),
    decreases s.len(),
{
    if s.len() > 0 {
        let s0 = s.drop_last();
        lemma_first_occurrences_cover(s0);
        let f0 = first_occurrences(s0);
        let f = first_occurrences(s);
        assert forall|i: int| 0 <= i < s.len() implies has_edge(f, #[trigger] s[i]) by {
            if i < s.len() - 1 {
                assert(s[i] == s0[i]);
                assert(has_edge(f0, s0[i]));
                let p = choose|p: int| 0 <= p < f0.len() && #[trigger] same_edge(f0[p], s0[i]);
                assert(f[p] == f0[p]);
            } else {
                if !has_edge(f0, s.last()) {
                    assert(same_edge(f[f0.len() as int], s[i]));
                }
            }
        }
    }
}

/// Every entry of `first_occurrences(s)` is an entry of `s`.
proof fn lemma_first_occurrences_from(s: Seq<GridEdge>)
    ensures
        forall|p: int|
            0 <= p < first_occurrences(s).len() ==> exists|i: int|
                0 <= i < s.len() && s[i] == #[trigger] first_occurrences(s)[p],
    decreases s.len(),
{
    if s.len() > 0 {
        let s0 = s.drop_last();
        lemma_first_occurrences_from(s0);
        let f0 = first_occurrences(s0);
        let f = first_occurrences(s);
        assert forall|p: int| 0 <= p < f.len() implies exists|i: int|
            0 <= i < s.len() && s[i] == #[trigger] f[p] by {
            if p < f0.len() {
                assert(f[p] == f0[p]);
                let i = choose|i: int| 0 <= i < s0.len() && #[trigger] s0[i] == f0[p];
                assert(s[i] == s0[i]);
            } else {
                assert(s[s.len() - 1] == f[p]);
            }
        }
    }
}

/// In a sequence of distinct edges, the entry on a given edge is unique.
proof fn lemma_vertex_index_unique(v: Seq<GridEdge>, p: int, x: GridEdge)
    requires
        distinct_edges(v),
        0 <= p < v.len(),
        same_edge(v[p], x),
    ensures
        vertex_index(v, x) == p,
{
    let q = vertex_index(v, x);
    assert(0 <= q < v.len() && same_edge(v[q], x));
    if q < p {
        assert(!same_edge(v[q], v[p]));
    } else if p < q {
        assert(!same_edge(v[p], v[q]));
    }
}

/// A crossing edge `e < n` of cube `c` is among its first `n` crossings.
proof fn lemma_cube_crossings_contain(g: VoxelGrid, c: int, n: int, e: int)
    requires
        0 <= e < n <= 12,
        edge_crosses(g, c, e),
    ensures
        exists|i: int|
            0 <= i < cube_crossings(g, c, n).len() && cube_crossings(g, c, n)[i] == cube_edge(
                g,
                c,
                e,
            ),
    decreases n,
{
    if e < n - 1 {
        lemma_cube_crossings_contain(g, c, n - 1, e);
        let prev = cube_crossings(g, c, n - 1);
        let i = choose|i: int| 0 <= i < prev.len() && #[trigger] prev[i] == cube_edge(g, c, e);
        assert(cube_crossings(g, c, n)[i] == prev[i]);
    } else {
        let prev = cube_crossings(g, c, n - 1);
        assert(cube_crossings(g, c, n)[prev.len() as int] == cube_edge(g, c, e));
    }
}

/// A crossing edge of a cube before `c` is among the crossings of cubes
/// `0..c`.
proof fn lemma_crossings_upto_contain(g: VoxelGrid, c: int, c2: int, e: int)
    requires
        0 <= c2 < c,
        0 <= e < 12,
        edge_crosses(g, c2, e),
    ensures
        exists|i: int|
            0 <= i < crossings_upto(g, c).len() && crossings_upto(g, c)[i] == cube_edge(g, c2, e),
    decreases c,
{
    let prev = crossings_upto(g, c - 1);
    let here = cube_crossings(g, c - 1, 12);
    assert(crossings_upto(g, c) == prev + here);
    if c2 < c - 1 {
        lemma_crossings_upto_contain(g, c - 1, c2, e);
        let i = choose|i: int| 0 <= i < prev.len() && #[trigger] prev[i] == cube_edge(g, c2, e);
        assert((prev + here)[i] == prev[i]);
    } else {
        lemma_cube_crossings_contain(g, c2, 12, e);
        let i = choose|i: int| 0 <= i < here.len() && #[trigger] here[i] == cube_edge(g, c2, e);
        assert((prev + here)[prev.len() + i] == here[i]);
    }
}

/// A cube none of whose edges cross adds no crossings.
proof fn lemma_cube_crossings_none(g: VoxelGrid, c: int, n: int)
    requires
        0 <= n <= 12,
        forall|e: int| 0 <= e < n ==> !edge_crosses(g, c, e),
    ensures
        cube_crossings(g, c, n) == Seq::<GridEdge>::empty(),
    decreases n,
{
    if n > 0 {
        lemma_cube_crossings_none(g, c, n - 1);
    }
}

/// An edge that the mask of a cube holds crosses.
proof fn lemma_mask_bit_crosses(g: VoxelGrid, c: int, e: int)
    requires
        0 <= e < 12,
    ensures
        mask_bit(edge_mask_spec(cube_code_of(g, c)), e) == edge_crosses(g, c, e),
{
    let o = cube_origin(g, c);
    lemma_edge_mask_bits(cube_code_of(g, c));
    lemma_cube_code_bits(g, o.0, o.1, o.2);
    assert(0 <= edge_start(e) < 8 && 0 <= edge_end(e) < 8);
    assert(code_edge_crosses(cube_code_of(g, c), e) == edge_crosses(g, c, e));
}

proof fn lemma_vertex_index_stable(g: VoxelGrid, c: int, v: Seq<GridEdge>, w: Seq<GridEdge>, e: int)
    requires
        distinct_edges(v),
        distinct_edges(w),
        v.len() <= w.len(),
        forall|p: int| 0 <= p < v.len() ==> w[p] == v[p],
        forall|e: int| 0 <= e < 12 && edge_crosses(g, c, e) ==> has_edge(v, cube_edge(g, c, e)),
        0 <= e < 12,
        mask_bit(edge_mask_spec(cube_code_of(g, c)), e),
    ensures
        vertex_index(v, cube_edge(g, c, e)) == vertex_index(w, cube_edge(g, c, e)),
{
    lemma_mask_bit_crosses(g, c, e);
    let x = cube_edge(g, c, e);
    assert(has_edge(v, x));
    let p = choose|p: int| 0 <= p < v.len() && #[trigger] same_edge(v[p], x);
    lemma_vertex_index_unique(v, p, x);
    assert(w[p] == v[p]);
    lemma_vertex_index_unique(w, p, x);
}

/// The triangle indices of a cube do not change when the vertex list grows,
/// as long as the cube's crossing edges were already in it.
proof fn lemma_cube_triangle_indices_stable(
    g: VoxelGrid,
    c: int,
    v: Seq<GridEdge>,
    w: Seq<GridEdge>,
    t: int,
)
    requires
        distinct_edges(w),
        v.len() <= w.len(),
        forall|p: int| 0 <= p < v.len() ==> w[p] == v[p],
        forall|e: int| 0 <= e < 12 && edge_crosses(g, c, e) ==> has_edge(v, cube_edge(g, c, e)),
    ensures
        cube_triangle_indices(g, c, v, t) == cube_triangle_indices(g, c, w, t),
    decreases 16 - t,
{
    let code = cube_code_of(g, c);
    let row = tri_row(code);
    if tri_continues(row, t, edge_mask_spec(code)) {
        lemma_cube_triangle_indices_stable(g, c, v, w, t + 3);
        assert(distinct_edges(v)) by {
            assert forall|p: int, q: int| 0 <= p < q < v.len() implies !same_edge(
                #[trigger] v[p],
                #[trigger] v[q],
            ) by {
                assert(w[p] == v[p] && w[q] == v[q]);
            }
        }
        lemma_vertex_index_stable(g, c, v, w, row[t] as int);
        lemma_vertex_index_stable(g, c, v, w, row[t + 1] as int);
        lemma_vertex_index_stable(g, c, v, w, row[t + 2] as int);
        assert(tri_entry_ok(row, t + 0, edge_mask_spec(code)));
    }
}

/// The triangle indices of cubes `0..c` do not change when the vertex list
/// grows, as long as their crossing edges were already in it.
proof fn lemma_triangle_indices_stable(g: VoxelGrid, c: int, v: Seq<GridEdge>, w: Seq<GridEdge>)
    requires
        distinct_edges(w),
        v.len() <= w.len(),
        forall|p: int| 0 <= p < v.len() ==> w[p] == v[p],
        forall|c2: int, e: int|
            0 <= c2 < c && 0 <= e < 12 && edge_crosses(g, c2, e) ==> has_edge(
                v,
                cube_edge(g, c2, e),
            ),
    ensures
        triangle_indices_upto(g, c, v) == triangle_indices_upto(g, c, w),
    decreases c,
{
    if c > 0 {
        lemma_triangle_indices_stable(g, c - 1, v, w);
        lemma_cube_triangle_indices_stable(g, c - 1, v, w, 0);
    }
}

/// The edge cache of one axis.
pub open spec fn axis_cache(
    cx: Map<usize, u32>,
    cy: Map<usize, u32>,
    cz: Map<usize, u32>,
    a: int,
) -> Map<usize, u32> {
    if a == 0 {
        cx
    } else if a == 1 {
        cy
    } else {
        cz
    }
}

/// The edge caches map the key of every vertex's edge, in the cache of its
/// axis, to the vertex's position, and hold no other key.
pub open spec fn caches_match(
    g: VoxelGrid,
    cx: Map<usize, u32>,
    cy: Map<usize, u32>,
    cz: Map<usize, u32>,
    v: Seq<GridEdge>,
) -> bool {
    &&& forall|p: int|
        0 <= p < v.len() ==> {
            &&& axis_cache(cx, cy, cz, edge_axis(#[trigger] v[p])).contains_key(
                edge_key(g, v[p]) as usize,
            )
            &&& axis_cache(cx, cy, cz, edge_axis(v[p]))[edge_key(g, v[p]) as usize] == p as u32
        }
    &&& forall|a: int, key: usize|
        0 <= a < 3 && #[trigger] axis_cache(cx, cy, cz, a).contains_key(key) ==> exists|p: int|
            0 <= p < v.len() && edge_axis(#[trigger] v[p]) == a && edge_key(g, v[p]) == key
}

fn min_of(a: usize, b: usize) -> (r: usize)
    ensures
        r == min_usize(a, b),
{
    if a <= b {
        a
    } else {
        b
    }
}

fn cache_get(
    cx: &HashMap<usize, u32>,
    cy: &HashMap<usize, u32>,
    cz: &HashMap<usize, u32>,
    axis: usize,
    key: usize,
) -> (r: Option<u32>)
    requires
        axis < 3,
    ensures
        match r {
            Some(val) => axis_cache(cx@, cy@, cz@, axis as int).contains_key(key) && axis_cache(
                cx@,
                cy@,
                cz@,
                axis as int,
            )[key] == val,
            None => !axis_cache(cx@, cy@, cz@, axis as int).contains_key(key),
        },
{
    let found = if axis == 0 {
        cx.get(&key)
    } else if axis == 1 {
        cy.get(&key)
    } else {
        cz.get(&key)
    };
    match found {
        Some(val) => Some(*val),
        None => None,
    }
}

fn cache_insert(
    cx: &mut HashMap<usize, u32>,
    cy: &mut HashMap<usize, u32>,
    cz: &mut HashMap<usize, u32>,
    axis: usize,
    key: usize,
    val: u32,
)
    requires
        axis < 3,
    ensures
        forall|a: int|
            0 <= a < 3 ==> #[trigger] axis_cache(final(cx)@, final(cy)@, final(cz)@, a) == if a
                == axis {
                axis_cache(old(cx)@, old(cy)@, old(cz)@, a).insert(key, val)
            } else {
                axis_cache(old(cx)@, old(cy)@, old(cz)@, a)
            },
{
    if axis == 0 {
        cx.insert(key, val);
    } else if axis == 1 {
        cy.insert(key, val);
    } else {
        cz.insert(key, val);
    }
}

fn axis_of(edge: &GridEdge) -> (r: usize)
    ensures
        r == edge_axis(*edge),
        r < 3,
{
    if edge.start.0 != edge.end.0 {
        0
    } else if edge.start.1 != edge.end.1 {
        1
    } else {
        2
    }
}

impl VoxelGrid {
    /// Linear position of the lower grid point of `edge`.
    fn grid_edge_key(&self, edge: &GridEdge) -> (r: usize)
        requires
            self.wf(),
            is_grid_edge(*self, *edge),
        ensures
            r == edge_key(*self, *edge),
    {
        let lx = min_of(edge.start.0, edge.end.0);
        let ly = min_of(edge.start.1, edge.end.1);
        let lz = min_of(edge.start.2, edge.end.2);
        self.index(lx, ly, lz)
    }

    /// Edge `e` of the cube with lowest corner `(i, j, k)`.
    fn cube_edge_exec(&self, i: usize, j: usize, k: usize, e: usize, c: Ghost<int>) -> (r:
        GridEdge)
        requires
            self.wf(),
            0 <= c@ < cube_count(*self),
            cube_origin(*self, c@) == (i as int, j as int, k as int),
            e < 12,
        ensures
            r == cube_edge(*self, c@, e as int),
            is_grid_edge(*self, r),
    {
        proof {
            lemma_cube_origin_bounds(*self, c@);
            lemma_cube_edge_in_grid(*self, c@, e as int);
            self.lemma_wf();
        }
        let (s, t) = edge_corners(e);
        let os = corner_offset_of(s);
        let ot = corner_offset_of(t);
        GridEdge { start: (i + os.0, j + os.1, k + os.2), end: (i + ot.0, j + ot.1, k + ot.2) }
    }

    /// The marching-cubes mesh of the grid: one vertex per grid edge that
    /// joins a set voxel to an unset one, listed in the order in which the
    /// cubes (x fastest, then y, then z) and their edges first meet it, and
    /// for every cube the triangles of its row of the triangulation table,
    /// each as the indices of the vertices on its three edges.
    pub fn mesh_topology(&self) -> (m: MeshTopology)
        requires
            self.wf(),
        ensures
            m.vertices@ == mesh_vertices(*self),
            m.indices@ == mesh_indices(*self),
    {
        proof {
            self.lemma_wf();
        }
        let a = self.x_len() - 1;
        let b = self.y_len() - 1;
        let d = self.z_len() - 1;
        assert(a * b * d <= self.voxel_count()) by (nonlinear_arith)
            requires
                a + 1 == self.x_dim(),
                b + 1 == self.y_dim(),
                d + 1 == self.z_dim(),
                a >= 0,
                b >= 0,
                d >= 0,
                self.voxel_count() == self.x_dim() * self.y_dim() * self.z_dim(),
        ;
        assert(a * b <= a * b * d || d == 0) by (nonlinear_arith)
            requires
                a >= 0,
                b >= 0,
                d >= 0,
        ;
        let count: usize = if d == 0 {
            0
        } else {
            a * b * d
        };
        assert(count == cube_count(*self)) by (nonlinear_arith)
            requires
                count == if d == 0 {
                    0
                } else {
                    a * b * d
                },
                cube_count(*self) == a * b * d,
        ;
        let mut vertices: Vec<GridEdge> = Vec::new();
        let mut indices: Vec<u32> = Vec::new();
        let mut cache_x: HashMap<usize, u32> = HashMap::new();
        let mut cache_y: HashMap<usize, u32> = HashMap::new();
        let mut cache_z: HashMap<usize, u32> = HashMap::new();
        let mut c: usize = 0;
        while c < count
            invariant
                self.wf(),
                a + 1 == self.x_dim(),
                b + 1 == self.y_dim(),
                d + 1 == self.z_dim(),
                count == cube_count(*self),
                c <= count,
                vertices@ == first_occurrences(crossings_upto(*self, c as int)),
                indices@ == triangle_indices_upto(*self, c as int, vertices@),
                distinct_edges(vertices@),
                forall|p: int| 0 <= p < vertices@.len() ==> is_grid_edge(*self, #[trigger] vertices@[p]),
                caches_match(*self, cache_x@, cache_y@, cache_z@, vertices@),
                forall|c2: int, e: int|
                    0 <= c2 < c && 0 <= e < 12 && edge_crosses(*self, c2, e) ==> has_edge(
                        vertices@,
                        #[trigger] cube_edge(*self, c2, e),
                    ),
            decreases count - c,
        {
            assert(a > 0 && b > 0) by (nonlinear_arith)
                requires
                    c < count,
                    count == a * b * d,
                    a >= 0,
                    b >= 0,
                    d >= 0,
            ;
            let i = c % a;
            let t = c / a;
            let j = t % b;
            let k = t / b;
            let ghost cg = c as int;
            proof {
                lemma_cube_origin_bounds(*self, cg);
                assert(cube_origin(*self, cg) == (i as int, j as int, k as int));
            }
            let code = self.cube_index(i, j, k);
            let edges = edge_mask(code);
            let ghost v_before = vertices@;
            let ghost base = indices@;
            proof {
                assert(code == cube_code_of(*self, cg));
                assert(crossings_upto(*self, cg + 1) == crossings_upto(*self, cg) + cube_crossings(
                    *self,
                    cg,
                    12,
                ));
                assert(triangle_indices_upto(*self, cg + 1, vertices@) == triangle_indices_upto(
                    *self,
                    cg,
                    vertices@,
                ) + cube_triangle_indices(*self, cg, vertices@, 0));
            }
            if edges != 0 {
                // one vertex slot per cube edge
                let mut active: Vec<u32> = vec![0u32, 0, 0, 0, 0, 0, 0, 0, 0, 0, 0, 0];
                let mut e: usize = 0;
                while e < 12
                    invariant
                        self.wf(),
                        0 <= cg < cube_count(*self),
                        cube_origin(*self, cg) == (i as int, j as int, k as int),
                        edges == edge_mask_spec(cube_code_of(*self, cg)),
                        e <= 12,
                        active@.len() == 12,
                        vertices@ == first_occurrences(
                            crossings_upto(*self, cg) + cube_crossings(*self, cg, e as int),
                        ),
                        v_before.len() <= vertices@.len(),
                        forall|p: int| 0 <= p < v_before.len() ==> vertices@[p] == v_before[p],
                        distinct_edges(vertices@),
                        forall|p: int|
                            0 <= p < vertices@.len() ==> is_grid_edge(*self, #[trigger] vertices@[p]),
                        caches_match(*self, cache_x@, cache_y@, cache_z@, vertices@),
                        forall|c2: int, e2: int|
                            0 <= c2 < cg && 0 <= e2 < 12 && edge_crosses(*self, c2, e2)
                                ==> has_edge(v_before, #[trigger] cube_edge(*self, c2, e2)),
                        forall|e2: int|
                            0 <= e2 < e && edge_crosses(*self, cg, e2) ==> {
                                &&& has_edge(vertices@, #[trigger] cube_edge(*self, cg, e2))
                                &&& active@[e2] == vertex_index(vertices@, cube_edge(*self, cg, e2))
                                    as u32
                            },
                    decreases 12 - e,
                {
                    let ghost v_prev = vertices@;
                    proof {
                        lemma_mask_bit_crosses(*self, cg, e as int);
                        assert(cube_crossings(*self, cg, e + 1) == if edge_crosses(*self, cg, e as int) {
                            cube_crossings(*self, cg, e as int).push(cube_edge(*self, cg, e as int))
                        } else {
                            cube_crossings(*self, cg, e as int)
                        });
                    }
                    if (edges >> (e as u16)) & 1u16 == 1u16 {
                        let edge = self.cube_edge_exec(i, j, k, e, Ghost(cg));
                        let axis = axis_of(&edge);
                        let key = self.grid_edge_key(&edge);
                        let ghost before = crossings_upto(*self, cg) + cube_crossings(
                            *self,
                            cg,
                            e as int,
                        );
                        proof {
                            assert(crossings_upto(*self, cg) + cube_crossings(*self, cg, e + 1)
                                =~= before.push(edge));
                            lemma_first_occurrences_push(before, edge);
                        }
                        match cache_get(&cache_x, &cache_y, &cache_z, axis, key) {
                            Some(idx) => {
                                proof {
                                    let p = choose|p: int|
                                        0 <= p < vertices@.len() && edge_axis(#[trigger] vertices@[p])
                                            == axis && edge_key(*self, vertices@[p]) == key;
                                    lemma_same_edge_by_key(*self, vertices@[p], edge);
                                    assert(has_edge(vertices@, edge));
                                    lemma_vertex_index_unique(vertices@, p, edge);
                                }
                                active.set(e, idx);
                            },
                            None => {
                                proof {
                                    if has_edge(vertices@, edge) {
                                        let p = choose|p: int|
                                            0 <= p < vertices@.len() && #[trigger] same_edge(
                                                vertices@[p],
                                                edge,
                                            );
                                        lemma_same_edge_by_key(*self, vertices@[p], edge);
                                        assert(false);
                                    }
                                }
                                let new_idx = vertices.len() as u32;
                                cache_insert(
                                    &mut cache_x,
                                    &mut cache_y,
                                    &mut cache_z,
                                    axis,
                                    key,
                                    new_idx,
                                );
                                vertices.push(edge);
                                active.set(e, new_idx);
                                proof {
                                    let n = v_prev.len() as int;
                                    assert(vertices@[n] == edge);
                                    assert(same_edge(vertices@[n], edge));
                                    lemma_vertex_index_unique(vertices@, n, edge);
                                    assert forall|p: int, q: int|
                                        0 <= p < q < vertices@.len() implies !same_edge(
                                        #[trigger] vertices@[p],
                                        #[trigger] vertices@[q],
                                    ) by {
                                        if q == n {
                                            assert(vertices@[p] == v_prev[p]);
                                            if same_edge(vertices@[p], vertices@[q]) {
                                                assert(same_edge(v_prev[p], edge));
                                            }
                                        } else {
                                            assert(vertices@[p] == v_prev[p]);
                                            assert(vertices@[q] == v_prev[q]);
                                        }
                                    }
                                    assert forall|p: int| 0 <= p < vertices@.len() implies {
                                        &&& axis_cache(cache_x@, cache_y@, cache_z@, edge_axis(
                                            #[trigger] vertices@[p],
                                        )).contains_key(edge_key(*self, vertices@[p]) as usize)
                                        &&& axis_cache(cache_x@, cache_y@, cache_z@, edge_axis(
                                            vertices@[p],
                                        ))[edge_key(*self, vertices@[p]) as usize] == p as u32
                                    } by {
                                        if p < n {
                                            assert(vertices@[p] == v_prev[p]);
                                            if edge_axis(v_prev[p]) == axis && edge_key(
                                                *self,
                                                v_prev[p],
                                            ) == key {
                                                lemma_same_edge_by_key(*self, v_prev[p], edge);
                                                assert(same_edge(v_prev[p], edge));
                                            }
                                        }
                                    }
                                    assert forall|a2: int, key2: usize|
                                        0 <= a2 < 3 && #[trigger] axis_cache(
                                            cache_x@,
                                            cache_y@,
                                            cache_z@,
                                            a2,
                                        ).contains_key(key2) implies exists|p: int|
                                        0 <= p < vertices@.len() && edge_axis(
                                            #[trigger] vertices@[p],
                                        ) == a2 && edge_key(*self, vertices@[p]) == key2 by {
                                        if a2 == axis && key2 == key {
                                            assert(edge_axis(vertices@[n]) == a2);
                                        } else {
                                            let p = choose|p: int|
                                                0 <= p < v_prev.len() && edge_axis(
                                                    #[trigger] v_prev[p],
                                                ) == a2 && edge_key(*self, v_prev[p]) == key2;
                                            assert(vertices@[p] == v_prev[p]);
                                        }
                                    }
                                    assert forall|e2: int|
                                        0 <= e2 < e && edge_crosses(*self, cg, e2) implies {
                                        &&& has_edge(vertices@, #[trigger] cube_edge(*self, cg, e2))
                                        &&& active@[e2] == vertex_index(
                                            vertices@,
                                            cube_edge(*self, cg, e2),
                                        ) as u32
                                    } by {
                                        let x = cube_edge(*self, cg, e2);
                                        let p = choose|p: int|
                                            0 <= p < v_prev.len() && #[trigger] same_edge(
                                                v_prev[p],
                                                x,
                                            );
                                        assert(distinct_edges(v_prev));
                                        lemma_vertex_index_unique(v_prev, p, x);
                                        assert(vertices@[p] == v_prev[p]);
                                        lemma_vertex_index_unique(vertices@, p, x);
                                    }
                                }
                            },
                        }
                    } else {
                        assert(cube_crossings(*self, cg, e + 1) == cube_crossings(
                            *self,
                            cg,
                            e as int,
                        ));
                    }
                    e = e + 1;
                }
                let ghost verts = vertices@;
                proof {
                    assert(crossings_upto(*self, cg) + cube_crossings(*self, cg, 12)
                        == crossings_upto(*self, cg + 1));
                    lemma_triangle_indices_stable(*self, cg, v_before, verts);
                }
                let row = tri_table_row(code);
                let mut t: usize = 0;
                proof {
                    lemma_tri_continues_until_terminator(code, 0);
                }
                while row[t] != -1i8
                    invariant
                        self.wf(),
                        0 <= cg < cube_count(*self),
                        code == cube_code_of(*self, cg),
                        edges == edge_mask_spec(code),
                        row == tri_row(code),
                        vertices@ == verts,
                        active@.len() == 12,
                        forall|e2: int|
                            0 <= e2 < 12 && edge_crosses(*self, cg, e2) ==> active@[e2]
                                == vertex_index(verts, #[trigger] cube_edge(*self, cg, e2)) as u32,
                        t < 16,
                        t % 3 == 0,
                        forall|r: int|
                            0 <= r < t && r % 3 == 0 ==> #[trigger] tri_continues(row, r, edges),
                        indices@ + cube_triangle_indices(*self, cg, verts, t as int) == base
                            + cube_triangle_indices(*self, cg, verts, 0),
                    decreases 16 - t,
                {
                    let ghost before = indices@;
                    proof {
                        lemma_tri_continues_until_terminator(code, t as int);
                        lemma_mask_bit_crosses(*self, cg, row[t as int] as int);
                        lemma_mask_bit_crosses(*self, cg, row[t + 1] as int);
                        lemma_mask_bit_crosses(*self, cg, row[t + 2] as int);
                    }
                    indices.push(active[row[t] as usize]);
                    indices.push(active[row[t + 1] as usize]);
                    indices.push(active[row[t + 2] as usize]);
                    proof {
                        let rest = cube_triangle_indices(*self, cg, verts, t + 3);
                        let tri = seq![
                            vertex_index(verts, cube_edge(*self, cg, row[t as int] as int)) as u32,
                            vertex_index(verts, cube_edge(*self, cg, row[t + 1] as int)) as u32,
                            vertex_index(verts, cube_edge(*self, cg, row[t + 2] as int)) as u32,
                        ];
                        assert(cube_triangle_indices(*self, cg, verts, t as int) == tri + rest);
                        assert(indices@ == before + tri);
                        assert(before + (tri + rest) =~= (before + tri) + rest);
                    }
                    t = t + 3;
                }
                proof {
                    lemma_tri_continues_until_terminator(code, t as int);
                    assert(cube_triangle_indices(*self, cg, verts, t as int) == Seq::<u32>::empty());
                    assert(indices@ =~= base + cube_triangle_indices(*self, cg, verts, 0));
                    assert forall|c2: int, e2: int|
                        0 <= c2 < cg + 1 && 0 <= e2 < 12 && edge_crosses(*self, c2, e2) implies has_edge(
                        vertices@,
                        #[trigger] cube_edge(*self, c2, e2),
                    ) by {
                        if c2 < cg {
                            let x = cube_edge(*self, c2, e2);
                            let p = choose|p: int|
                                0 <= p < v_before.len() && #[trigger] same_edge(v_before[p], x);
                            assert(vertices@[p] == v_before[p]);
                        }
                    }
                }
            } else {
                proof {
                    assert forall|e2: int| 0 <= e2 < 12 implies !edge_crosses(*self, cg, e2) by {
                        lemma_mask_bit_crosses(*self, cg, e2);
                        lemma_u16_zero_bit(e2 as u16);
                    }
                    lemma_cube_crossings_none(*self, cg, 12);
                    assert(crossings_upto(*self, cg) + cube_crossings(*self, cg, 12)
                        =~= crossings_upto(*self, cg));
                    let code0 = cube_code_of(*self, cg);
                    let r0 = tri_row(code0)[0] as int;
                    if 0 <= r0 < 12 {
                        lemma_mask_bit_crosses(*self, cg, r0);
                    }
                    assert(!tri_continues(tri_row(code0), 0, edge_mask_spec(code0)));
                    assert(indices@ =~= triangle_indices_upto(*self, cg + 1, vertices@));
                }
            }
            c = c + 1;
        }
        MeshTopology { vertices, indices }
    }
}

proof fn lemma_cube_crossings_elements(g: VoxelGrid, c: int, n: int)
    requires
        0 <= n <= 12,
    ensures
        forall|i: int|
            #![trigger cube_crossings(g, c, n)[i]]
            0 <= i < cube_crossings(g, c, n).len() ==> exists|e: int|
                0 <= e < n && #[trigger] edge_crosses(g, c, e) && cube_crossings(g, c, n)[i]
                    == cube_edge(g, c, e),
    decreases n,
{
    if n > 0 {
        lemma_cube_crossings_elements(g, c, n - 1);
        let prev = cube_crossings(g, c, n - 1);
        assert forall|i: int|
            #![trigger cube_crossings(g, c, n)[i]]
            0 <= i < cube_crossings(g, c, n).len() implies exists|e: int|
            0 <= e < n && #[trigger] edge_crosses(g, c, e) && cube_crossings(g, c, n)[i]
                == cube_edge(g, c, e) by {
            if i < prev.len() {
                assert(cube_crossings(g, c, n)[i] == prev[i]);
                let e = choose|e: int|
                    0 <= e < n - 1 && #[trigger] edge_crosses(g, c, e) && prev[i] == cube_edge(
                        g,
                        c,
                        e,
                    );
            } else {
                assert(cube_crossings(g, c, n)[i] == cube_edge(g, c, n - 1));
            }
        }
    }
}

/// Whether `x` is a crossing edge of one of the cubes `0..c`.
pub open spec fn crossing_edge_of_cubes(g: VoxelGrid, c: int, x: GridEdge) -> bool {
    exists|c2: int, e: int|
        0 <= c2 < c && 0 <= e < 12 && #[trigger] edge_crosses(g, c2, e) && x == cube_edge(g, c2, e)
}

proof fn lemma_crossings_upto_elements(g: VoxelGrid, c: int)
    requires
        0 <= c,
    ensures
        forall|i: int|
            0 <= i < crossings_upto(g, c).len() ==> crossing_edge_of_cubes(
                g,
                c,
                #[trigger] crossings_upto(g, c)[i],
            ),
    decreases c,
{
    if c > 0 {
        lemma_crossings_upto_elements(g, c - 1);
        lemma_cube_crossings_elements(g, c - 1, 12);
        let prev = crossings_upto(g, c - 1);
        let here = cube_crossings(g, c - 1, 12);
        assert forall|i: int| 0 <= i < crossings_upto(g, c).len() implies crossing_edge_of_cubes(
            g,
            c,
            #[trigger] crossings_upto(g, c)[i],
        ) by {
            if i < prev.len() {
                assert(crossings_upto(g, c)[i] == prev[i]);
                assert(crossing_edge_of_cubes(g, c - 1, prev[i]));
                let (c2, e) = choose|c2: int, e: int|
                    0 <= c2 < c - 1 && 0 <= e < 12 && #[trigger] edge_crosses(g, c2, e) && prev[i]
                        == cube_edge(g, c2, e);
                assert(edge_crosses(g, c2, e));
            } else {
                let k = i - prev.len();
                assert(crossings_upto(g, c)[i] == here[k]);
                assert(0 <= k < here.len());
                let e = choose|e: int|
                    0 <= e < 12 && #[trigger] edge_crosses(g, c - 1, e) && here[k] == cube_edge(
                        g,
                        c - 1,
                        e,
                    );
                assert(edge_crosses(g, c - 1, e));
            }
        }
    }
}

/// No two vertices of the mesh lie on the same grid edge: cubes that share
/// an edge share its vertex.
pub proof fn lemma_mesh_vertices_distinct(g: VoxelGrid)
    ensures
        distinct_edges(mesh_vertices(g)),
{
    lemma_first_occurrences_distinct(crossings_upto(g, cube_count(g)));
}

/// Every vertex of the mesh lies on an edge of a cube of the grid, and the
/// edge joins a set voxel to an unset one.
pub proof fn lemma_mesh_vertices_cross(g: VoxelGrid)
    requires
        g.wf(),
    ensures
        forall|p: int|
            0 <= p < mesh_vertices(g).len() ==> crossing_edge_of_cubes(
                g,
                cube_count(g),
                #[trigger] mesh_vertices(g)[p],
            ),
{
    let s = crossings_upto(g, cube_count(g));
    g.lemma_wf();
    assert(cube_count(g) >= 0) by (nonlinear_arith)
        requires
            g.x_dim() >= 1,
            g.y_dim() >= 1,
            g.z_dim() >= 1,
    ;
    lemma_first_occurrences_from(s);
    lemma_crossings_upto_elements(g, cube_count(g));
    assert forall|p: int| 0 <= p < mesh_vertices(g).len() implies crossing_edge_of_cubes(
        g,
        cube_count(g),
        #[trigger] mesh_vertices(g)[p],
    ) by {
        let i = choose|i: int| 0 <= i < s.len() && s[i] == #[trigger] first_occurrences(s)[p];
        assert(crossing_edge_of_cubes(g, cube_count(g), s[i]));
    }
}

/// Every edge of every cube that joins a set voxel to an unset one carries
/// a vertex of the mesh.
pub proof fn lemma_mesh_covers_crossings(g: VoxelGrid, c: int, e: int)
    requires
        0 <= c < cube_count(g),
        0 <= e < 12,
        edge_crosses(g, c, e),
    ensures
        has_edge(mesh_vertices(g), cube_edge(g, c, e)),
{
    let s = crossings_upto(g, cube_count(g));
    lemma_crossings_upto_contain(g, cube_count(g), c, e);
    lemma_first_occurrences_cover(s);
    let i = choose|i: int| 0 <= i < s.len() && s[i] == cube_edge(g, c, e);
    assert(has_edge(first_occurrences(s), s[i]));
}

proof fn lemma_cube_triangle_indices_shape(g: VoxelGrid, c: int, v: Seq<GridEdge>, t: int)
    requires
        0 <= c < cube_count(g),
        0 <= t,
        forall|e: int| 0 <= e < 12 && edge_crosses(g, c, e) ==> has_edge(v, cube_edge(g, c, e)),
        v.len() <= u32::MAX + 1,
    ensures
        cube_triangle_indices(g, c, v, t).len() % 3 == 0,
        forall|i: int|
            0 <= i < cube_triangle_indices(g, c, v, t).len() ==> #[trigger] cube_triangle_indices(
                g,
                c,
                v,
                t,
            )[i] < v.len(),
    decreases 16 - t,
{
    let code = cube_code_of(g, c);
    let row = tri_row(code);
    if tri_continues(row, t, edge_mask_spec(code)) {
        lemma_cube_triangle_indices_shape(g, c, v, t + 3);
        lemma_vertex_index_in_range(g, c, v, row[t] as int);
        lemma_vertex_index_in_range(g, c, v, row[t + 1] as int);
        lemma_vertex_index_in_range(g, c, v, row[t + 2] as int);
        let rest = cube_triangle_indices(g, c, v, t + 3);
        let tri = seq![
            vertex_index(v, cube_edge(g, c, row[t] as int)) as u32,
            vertex_index(v, cube_edge(g, c, row[t + 1] as int)) as u32,
            vertex_index(v, cube_edge(g, c, row[t + 2] as int)) as u32,
        ];
        assert(cube_triangle_indices(g, c, v, t) == tri + rest);
        assert forall|i: int| 0 <= i < (tri + rest).len() implies #[trigger] (tri + rest)[i]
            < v.len() by {
            if i >= 3 {
                assert((tri + rest)[i] == rest[i - 3]);
            }
        }
    }
}

proof fn lemma_vertex_index_in_range(g: VoxelGrid, c: int, v: Seq<GridEdge>, e: int)
    requires
        0 <= e < 12,
        mask_bit(edge_mask_spec(cube_code_of(g, c)), e),
        forall|e: int| 0 <= e < 12 && edge_crosses(g, c, e) ==> has_edge(v, cube_edge(g, c, e)),
        v.len() <= u32::MAX + 1,
    ensures
        0 <= vertex_index(v, cube_edge(g, c, e)) < v.len(),
        (vertex_index(v, cube_edge(g, c, e)) as u32) as int == vertex_index(v, cube_edge(g, c, e)),
{
    lemma_mask_bit_crosses(g, c, e);
    assert(has_edge(v, cube_edge(g, c, e)));
}

proof fn lemma_triangle_indices_shape(g: VoxelGrid, c: int, v: Seq<GridEdge>)
    requires
        0 <= c <= cube_count(g),
        forall|c2: int, e: int|
            0 <= c2 < c && 0 <= e < 12 && edge_crosses(g, c2, e) ==> has_edge(
                v,
                cube_edge(g, c2, e),
            ),
        v.len() <= u32::MAX + 1,
    ensures
        triangle_indices_upto(g, c, v).len() % 3 == 0,
        forall|i: int|
            0 <= i < triangle_indices_upto(g, c, v).len() ==> #[trigger] triangle_indices_upto(
                g,
                c,
                v,
            )[i] < v.len(),
    decreases c,
{
    if c > 0 {
        lemma_triangle_indices_shape(g, c - 1, v);
        lemma_cube_triangle_indices_shape(g, c - 1, v, 0);
        let a = triangle_indices_upto(g, c - 1, v);
        let b = cube_triangle_indices(g, c - 1, v, 0);
        assert forall|i: int| 0 <= i < (a + b).len() implies #[trigger] (a + b)[i] < v.len() by {
            if i >= a.len() {
                assert((a + b)[i] == b[i - a.len()]);
            } else {
                assert((a + b)[i] == a[i]);
            }
        }
    }
}

/// The index list of the mesh is a list of triangles, and every index names
/// a vertex of the mesh (when the vertices are few enough to be numbered by
/// `u32`).
pub proof fn lemma_mesh_indices_valid(g: VoxelGrid)
    requires
        g.wf(),
        mesh_vertices(g).len() <= u32::MAX + 1,
    ensures
        mesh_indices(g).len() % 3 == 0,
        forall|i: int|
            0 <= i < mesh_indices(g).len() ==> #[trigger] mesh_indices(g)[i] < mesh_vertices(
                g,
            ).len(),
{
    g.lemma_wf();
    assert(cube_count(g) >= 0) by (nonlinear_arith)
        requires
            g.x_dim() >= 1,
            g.y_dim() >= 1,
            g.z_dim() >= 1,
    ;
    assert forall|c2: int, e: int|
        0 <= c2 < cube_count(g) && 0 <= e < 12 && edge_crosses(g, c2, e) implies has_edge(
        mesh_vertices(g),
        cube_edge(g, c2, e),
    ) by {
        lemma_mesh_covers_crossings(g, c2, e);
    }
    lemma_triangle_indices_shape(g, cube_count(g), mesh_vertices(g));
}

proof fn lemma_cube_triangles_name_edge(g: VoxelGrid, c: int, v: Seq<GridEdge>, t: int, e: int)
    requires
        row_names_edge(tri_row(cube_code_of(g, c)), edge_mask_spec(cube_code_of(g, c)), t, e),
    ensures
        cube_triangle_indices(g, c, v, t).contains(vertex_index(v, cube_edge(g, c, e)) as u32),
    decreases 16 - t,
{
    let code = cube_code_of(g, c);
    let row = tri_row(code);
    let x = vertex_index(v, cube_edge(g, c, e)) as u32;
    let tri = seq![
        vertex_index(v, cube_edge(g, c, row[t] as int)) as u32,
        vertex_index(v, cube_edge(g, c, row[t + 1] as int)) as u32,
        vertex_index(v, cube_edge(g, c, row[t + 2] as int)) as u32,
    ];
    let rest = cube_triangle_indices(g, c, v, t + 3);
    assert(cube_triangle_indices(g, c, v, t) == tri + rest);
    if row[t] == e {
        assert((tri + rest)[0] == x);
    } else if row[t + 1] == e {
        assert((tri + rest)[1] == x);
    } else if row[t + 2] == e {
        assert((tri + rest)[2] == x);
    } else {
        lemma_cube_triangles_name_edge(g, c, v, t + 3, e);
        let i = choose|i: int| 0 <= i < rest.len() && rest[i] == x;
        assert((tri + rest)[3 + i] == x);
    }
}

proof fn lemma_triangle_indices_upto_contains(g: VoxelGrid, n: int, v: Seq<GridEdge>, c: int, x: u32)
    requires
        0 <= c < n,
        cube_triangle_indices(g, c, v, 0).contains(x),
    ensures
        triangle_indices_upto(g, n, v).contains(x),
    decreases n,
{
    let before = triangle_indices_upto(g, n - 1, v);
    let last = cube_triangle_indices(g, n - 1, v, 0);
    assert(triangle_indices_upto(g, n, v) == before + last);
    if c == n - 1 {
        let i = choose|i: int| 0 <= i < last.len() && last[i] == x;
        assert((before + last)[before.len() + i] == x);
    } else {
        lemma_triangle_indices_upto_contains(g, n - 1, v, c, x);
        let i = choose|i: int| 0 <= i < before.len() && before[i] == x;
        assert((before + last)[i] == x);
    }
}

/// Every vertex of the mesh is a corner of some triangle: no vertex is left
/// unused (when the vertices are few enough to be numbered by `u32`).
pub proof fn lemma_mesh_vertices_used(g: VoxelGrid)
    requires
        g.wf(),
        mesh_vertices(g).len() <= u32::MAX + 1,
    ensures
        forall|p: int| 0 <= p < mesh_vertices(g).len() ==> #[trigger] mesh_indices(g).contains(
            p as u32,
        ),
{
    let v = mesh_vertices(g);
    lemma_mesh_vertices_cross(g);
    lemma_mesh_vertices_distinct(g);
    assert forall|p: int| 0 <= p < v.len() implies #[trigger] mesh_indices(g).contains(p as u32) by {
        let x = v[p];
        assert(crossing_edge_of_cubes(g, cube_count(g), x));
        let (c, e) = choose|c2: int, e: int|
            0 <= c2 < cube_count(g) && 0 <= e < 12 && #[trigger] edge_crosses(g, c2, e) && x
                == cube_edge(g, c2, e);
        lemma_mask_bit_crosses(g, c, e);
        lemma_tri_table_covers(cube_code_of(g, c));
        lemma_cube_triangles_name_edge(g, c, v, 0, e);
        assert(same_edge(v[p], cube_edge(g, c, e)));
        lemma_vertex_index_unique(v, p, cube_edge(g, c, e));
        lemma_triangle_indices_upto_contains(g, cube_count(g), v, c, p as u32);
    }
}

/// Twice the midpoint of a grid edge.
pub open spec fn doubled_midpoint(x: GridEdge) -> (int, int, int) {
    (x.start.0 + x.end.0, x.start.1 + x.end.1, x.start.2 + x.end.2)
}

/// The end of a grid edge whose voxel is set (its end point when its start
/// point is not set).
pub open spec fn set_end(g: VoxelGrid, x: GridEdge) -> (int, int, int) {
    if g.voxel(x.start.0 as int, x.start.1 as int, x.start.2 as int) {
        (x.start.0 as int, x.start.1 as int, x.start.2 as int)
    } else {
        (x.end.0 as int, x.end.1 as int, x.end.2 as int)
    }
}

/// Twice the vector from the midpoint of a grid edge to its set end.
pub open spec fn toward_set(g: VoxelGrid, x: GridEdge) -> (int, int, int) {
    let p = set_end(g, x);
    let m = doubled_midpoint(x);
    (2 * p.0 - m.0, 2 * p.1 - m.1, 2 * p.2 - m.2)
}

/// Whether the triangle with vertices on grid edges `a`, `b`, `c`, taken in
/// that order, faces the set voxels: its right-handed normal points the way
/// of the sum of the vectors from each edge's midpoint to its set end.
pub open spec fn triangle_faces_set(g: VoxelGrid, a: GridEdge, b: GridEdge, c: GridEdge) -> bool {
    let ma = doubled_midpoint(a);
    let mb = doubled_midpoint(b);
    let mc = doubled_midpoint(c);
    let da = toward_set(g, a);
    let db = toward_set(g, b);
    let dc = toward_set(g, c);
    triple_product(
        mb.0 - ma.0,
        mb.1 - ma.1,
        mb.2 - ma.2,
        mc.0 - ma.0,
        mc.1 - ma.1,
        mc.2 - ma.2,
        da.0 + db.0 + dc.0,
        da.1 + db.1 + dc.1,
        da.2 + db.2 + dc.2,
    ) > 0
}

/// Whether triangle `k` of the index list `s` (entries `3k`, `3k + 1` and
/// `3k + 2`, naming vertices of `v`) faces the set voxels.
pub open spec fn triangle_at_faces_set(g: VoxelGrid, v: Seq<GridEdge>, s: Seq<u32>, k: int) -> bool {
    triangle_faces_set(g, v[s[3 * k] as int], v[s[3 * k + 1] as int], v[s[3 * k + 2] as int])
}

/// Whether every triangle of the index list `s` faces the set voxels.
pub open spec fn triangles_face_set(g: VoxelGrid, v: Seq<GridEdge>, s: Seq<u32>) -> bool {
    forall|k: int| 0 <= k && 3 * k + 2 < s.len() ==> #[trigger] triangle_at_faces_set(g, v, s, k)
}

proof fn lemma_unit_corner(v: int)
    requires
        0 <= v < 8,
    ensures
        corner_offset(v).0 == corner_x(v as u8),
        corner_offset(v).1 == corner_y(v as u8),
        corner_offset(v).2 == corner_z(v as u8),
{
    reveal(corner_x);
    reveal(corner_y);
    reveal(corner_z);
}

/// Edge `e` of cube `c`, seen from the grid: its doubled midpoint is the
/// doubled origin plus the doubled midpoint of edge `e` of the unit cube,
/// and when it crosses, exactly one of its ends is set and the vector to
/// that end is the one to the set corner of the cube's code.
proof fn lemma_cube_edge_geometry(g: VoxelGrid, c: int, e: int)
    requires
        g.wf(),
        0 <= c < cube_count(g),
        0 <= e < 12,
    ensures
        doubled_midpoint(cube_edge(g, c, e)) == (
            2 * cube_origin(g, c).0 + mid_x(e as i8),
            2 * cube_origin(g, c).1 + mid_y(e as i8),
            2 * cube_origin(g, c).2 + mid_z(e as i8),
        ),
        edge_crosses(g, c, e) ==> g.voxel(
            cube_edge(g, c, e).start.0 as int,
            cube_edge(g, c, e).start.1 as int,
            cube_edge(g, c, e).start.2 as int,
        ) != g.voxel(
            cube_edge(g, c, e).end.0 as int,
            cube_edge(g, c, e).end.1 as int,
            cube_edge(g, c, e).end.2 as int,
        ),
        toward_set(g, cube_edge(g, c, e)) == (
            2 * corner_x(set_corner_bits(cube_code_of(g, c), e as i8)) - mid_x(e as i8),
            2 * corner_y(set_corner_bits(cube_code_of(g, c), e as i8)) - mid_y(e as i8),
            2 * corner_z(set_corner_bits(cube_code_of(g, c), e as i8)) - mid_z(e as i8),
        ),
{
    reveal(mid_x);
    reveal(mid_y);
    reveal(mid_z);
    reveal(set_corner_bits);
    let o = cube_origin(g, c);
    let code = cube_code_of(g, c);
    let x = cube_edge(g, c, e);
    lemma_cube_edge_in_grid(g, c, e);
    lemma_cube_code_bits(g, o.0, o.1, o.2);
    let s = edge_start(e);
    let t = edge_end(e);
    assert(0 <= s < 8 && 0 <= t < 8);
    assert(start_corner_bits(e as i8) == s as u8);
    assert(end_corner_bits(e as i8) == t as u8);
    lemma_unit_corner(s);
    lemma_unit_corner(t);
    assert(g.voxel(x.start.0 as int, x.start.1 as int, x.start.2 as int) == corner_set(g, o.0, o.1, o.2, s));
    assert(g.voxel(x.end.0 as int, x.end.1 as int, x.end.2 as int) == corner_set(g, o.0, o.1, o.2, t));
    assert(byte_bit(code, s as u8) == corner_set(g, o.0, o.1, o.2, s));
    assert(set_corner_bits(code, e as i8) == if corner_set(g, o.0, o.1, o.2, s) {
        s as u8
    } else {
        t as u8
    });
}

/// Whether the two ends of a grid edge differ in the grid.
pub open spec fn ends_differ(g: VoxelGrid, x: GridEdge) -> bool {
    g.voxel(x.start.0 as int, x.start.1 as int, x.start.2 as int) != g.voxel(
        x.end.0 as int,
        x.end.1 as int,
        x.end.2 as int,
    )
}

proof fn lemma_faces_set_same_edges(
    g: VoxelGrid,
    a: GridEdge,
    b: GridEdge,
    c: GridEdge,
    a2: GridEdge,
    b2: GridEdge,
    c2: GridEdge,
)
    requires
        same_edge(a, a2),
        same_edge(b, b2),
        same_edge(c, c2),
        ends_differ(g, a),
        ends_differ(g, b),
        ends_differ(g, c),
    ensures
        triangle_faces_set(g, a, b, c) == triangle_faces_set(g, a2, b2, c2),
{
    assert(doubled_midpoint(a) == doubled_midpoint(a2));
    assert(doubled_midpoint(b) == doubled_midpoint(b2));
    assert(doubled_midpoint(c) == doubled_midpoint(c2));
    assert(toward_set(g, a) == toward_set(g, a2));
    assert(toward_set(g, b) == toward_set(g, b2));
    assert(toward_set(g, c) == toward_set(g, c2));
}

proof fn lemma_triangle_faces_set_local(
    g: VoxelGrid,
    a: GridEdge,
    b: GridEdge,
    c: GridEdge,
    o: (int, int, int),
    la: (int, int, int),
    lb: (int, int, int),
    lc: (int, int, int),
    da: (int, int, int),
    db: (int, int, int),
    dc: (int, int, int),
)
    requires
        doubled_midpoint(a) == (2 * o.0 + la.0, 2 * o.1 + la.1, 2 * o.2 + la.2),
        doubled_midpoint(b) == (2 * o.0 + lb.0, 2 * o.1 + lb.1, 2 * o.2 + lb.2),
        doubled_midpoint(c) == (2 * o.0 + lc.0, 2 * o.1 + lc.1, 2 * o.2 + lc.2),
        toward_set(g, a) == da,
        toward_set(g, b) == db,
        toward_set(g, c) == dc,
    ensures
        triangle_faces_set(g, a, b, c) == (triple_product(
            lb.0 - la.0,
            lb.1 - la.1,
            lb.2 - la.2,
            lc.0 - la.0,
            lc.1 - la.1,
            lc.2 - la.2,
            da.0 + db.0 + dc.0,
            da.1 + db.1 + dc.1,
            da.2 + db.2 + dc.2,
        ) > 0),
{
}

proof fn lemma_cube_triangle_faces_set(g: VoxelGrid, c: int, ea: int, eb: int, ec: int)
    requires
        g.wf(),
        0 <= c < cube_count(g),
        0 <= ea < 12,
        0 <= eb < 12,
        0 <= ec < 12,
        triangle_faces_set_bits(cube_code_of(g, c), ea as i8, eb as i8, ec as i8),
    ensures
        triangle_faces_set(g, cube_edge(g, c, ea), cube_edge(g, c, eb), cube_edge(g, c, ec)),
{
    let code = cube_code_of(g, c);
    lemma_cube_edge_geometry(g, c, ea);
    lemma_cube_edge_geometry(g, c, eb);
    lemma_cube_edge_geometry(g, c, ec);
    let (a8, b8, c8) = (ea as i8, eb as i8, ec as i8);
    let la = (mid_x(a8), mid_y(a8), mid_z(a8));
    let lb = (mid_x(b8), mid_y(b8), mid_z(b8));
    let lc = (mid_x(c8), mid_y(c8), mid_z(c8));
    let da = (
        2 * corner_x(set_corner_bits(code, a8)) - mid_x(a8),
        2 * corner_y(set_corner_bits(code, a8)) - mid_y(a8),
        2 * corner_z(set_corner_bits(code, a8)) - mid_z(a8),
    );
    let db = (
        2 * corner_x(set_corner_bits(code, b8)) - mid_x(b8),
        2 * corner_y(set_corner_bits(code, b8)) - mid_y(b8),
        2 * corner_z(set_corner_bits(code, b8)) - mid_z(b8),
    );
    let dc = (
        2 * corner_x(set_corner_bits(code, c8)) - mid_x(c8),
        2 * corner_y(set_corner_bits(code, c8)) - mid_y(c8),
        2 * corner_z(set_corner_bits(code, c8)) - mid_z(c8),
    );
    lemma_triangle_faces_set_local(
        g,
        cube_edge(g, c, ea),
        cube_edge(g, c, eb),
        cube_edge(g, c, ec),
        cube_origin(g, c),
        la,
        lb,
        lc,
        da,
        db,
        dc,
    );
    reveal(triangle_faces_set_bits);
}

proof fn lemma_triangles_face_set_concat(g: VoxelGrid, v: Seq<GridEdge>, s1: Seq<u32>, s2: Seq<u32>)
    requires
        s1.len() % 3 == 0,
        triangles_face_set(g, v, s1),
        triangles_face_set(g, v, s2),
    ensures
        triangles_face_set(g, v, s1 + s2),
{
    let s = s1 + s2;
    let q = s1.len() / 3;
    assert(s1.len() == 3 * q);
    assert forall|k: int| 0 <= k && 3 * k + 2 < s.len() implies #[trigger] triangle_at_faces_set(
        g,
        v,
        s,
        k,
    ) by {
        if k < q {
            assert(triangle_at_faces_set(g, v, s1, k));
            assert(s[3 * k] == s1[3 * k] && s[3 * k + 1] == s1[3 * k + 1] && s[3 * k + 2] == s1[3 * k + 2]);
        } else {
            let k2 = k - q;
            assert(triangle_at_faces_set(g, v, s2, k2));
            assert(s[3 * k] == s2[3 * k2] && s[3 * k + 1] == s2[3 * k2 + 1] && s[3 * k + 2] == s2[3 * k2 + 2]);
        }
    }
}

proof fn lemma_cube_triangles_face_set(g: VoxelGrid, c: int, t: int)
    requires
        g.wf(),
        0 <= c < cube_count(g),
        0 <= t < 16,
        t % 3 == 0,
        forall|r: int|
            0 <= r < t && r % 3 == 0 ==> #[trigger] tri_continues(
                tri_row(cube_code_of(g, c)),
                r,
                edge_mask_spec(cube_code_of(g, c)),
            ),
        mesh_vertices(g).len() <= u32::MAX + 1,
    ensures
        triangles_face_set(g, mesh_vertices(g), cube_triangle_indices(g, c, mesh_vertices(g), t)),
    decreases 16 - t,
{
    let v = mesh_vertices(g);
    let code = cube_code_of(g, c);
    let row = tri_row(code);
    let mask = edge_mask_spec(code);
    if tri_continues(row, t, mask) {
        assert forall|r: int| 0 <= r < t + 3 && r % 3 == 0 implies #[trigger] tri_continues(
            row,
            r,
            mask,
        ) by {
            if r < t {
                assert(tri_continues(row, r, mask));
            }
        }
        if t + 3 < 16 {
            lemma_cube_triangles_face_set(g, c, t + 3);
        }
        lemma_tri_table_oriented(code, t);
        let ea = row[t] as int;
        let eb = row[t + 1] as int;
        let ec = row[t + 2] as int;
        assert forall|e: int| 0 <= e < 12 && edge_crosses(g, c, e) implies has_edge(
            v,
            cube_edge(g, c, e),
        ) by {
            lemma_mesh_covers_crossings(g, c, e);
        }
        lemma_vertex_index_in_range(g, c, v, ea);
        lemma_vertex_index_in_range(g, c, v, eb);
        lemma_vertex_index_in_range(g, c, v, ec);
        lemma_mask_bit_crosses(g, c, ea);
        lemma_mask_bit_crosses(g, c, eb);
        lemma_mask_bit_crosses(g, c, ec);
        lemma_cube_edge_geometry(g, c, ea);
        lemma_cube_edge_geometry(g, c, eb);
        lemma_cube_edge_geometry(g, c, ec);
        let xa = cube_edge(g, c, ea);
        let xb = cube_edge(g, c, eb);
        let xc = cube_edge(g, c, ec);
        let ia = vertex_index(v, xa);
        let ib = vertex_index(v, xb);
        let ic = vertex_index(v, xc);
        assert(same_edge(v[ia], xa));
        assert(same_edge(v[ib], xb));
        assert(same_edge(v[ic], xc));
        assert(ea as i8 == row[t] && eb as i8 == row[t + 1] && ec as i8 == row[t + 2]);
        lemma_cube_triangle_faces_set(g, c, ea, eb, ec);
        assert(same_edge(xa, v[ia]) && same_edge(xb, v[ib]) && same_edge(xc, v[ic]));
        lemma_faces_set_same_edges(g, xa, xb, xc, v[ia], v[ib], v[ic]);
        let tri = seq![ia as u32, ib as u32, ic as u32];
        let rest = cube_triangle_indices(g, c, v, t + 3);
        assert(cube_triangle_indices(g, c, v, t) == tri + rest);
        assert(triangle_at_faces_set(g, v, tri, 0));
        assert(triangles_face_set(g, v, tri));
        if t + 3 >= 16 {
            assert(!tri_continues(row, t + 3, mask));
            assert(rest.len() == 0);
        }
        lemma_triangles_face_set_concat(g, v, tri, rest);
    }
}

proof fn lemma_triangles_upto_face_set(g: VoxelGrid, n: int)
    requires
        g.wf(),
        0 <= n <= cube_count(g),
        mesh_vertices(g).len() <= u32::MAX + 1,
    ensures
        triangles_face_set(g, mesh_vertices(g), triangle_indices_upto(g, n, mesh_vertices(g))),
    decreases n,
{
    let v = mesh_vertices(g);
    if n > 0 {
        lemma_triangles_upto_face_set(g, n - 1);
        lemma_cube_triangles_face_set(g, n - 1, 0);
        assert forall|c2: int, e: int|
            0 <= c2 < n - 1 && 0 <= e < 12 && edge_crosses(g, c2, e) implies has_edge(
            v,
            cube_edge(g, c2, e),
        ) by {
            lemma_mesh_covers_crossings(g, c2, e);
        }
        lemma_triangle_indices_shape(g, n - 1, v);
        lemma_triangles_face_set_concat(
            g,
            v,
            triangle_indices_upto(g, n - 1, v),
            cube_triangle_indices(g, n - 1, v, 0),
        );
    }
}

/// Every triangle of the mesh faces the set voxels: taking its vertices in
/// index order, its right-handed normal points the way of the sum of the
/// vectors from the midpoints of its three grid edges to their set ends
/// (when the vertices are few enough to be numbered by `u32`). So all the
/// triangles are wound the same way about the set region.
pub proof fn lemma_mesh_triangles_face_set(g: VoxelGrid)
    requires
        g.wf(),
        mesh_vertices(g).len() <= u32::MAX + 1,
    ensures
        forall|k: int|
            0 <= k && 3 * k + 2 < mesh_indices(g).len() ==> #[trigger] triangle_at_faces_set(
                g,
                mesh_vertices(g),
                mesh_indices(g),
                k,
            ),
{
    g.lemma_wf();
    assert(cube_count(g) >= 0) by (nonlinear_arith)
        requires
            g.x_dim() >= 1,
            g.y_dim() >= 1,
            g.z_dim() >= 1,
    ;
    lemma_triangles_upto_face_set(g, cube_count(g));
}

/// The corners of every cube are grid points.
proof fn lemma_cube_corner_in_grid(g: VoxelGrid, c: int, v: int)
    requires
        g.wf(),
        0 <= c < cube_count(g),
        0 <= v < 8,
    ensures
        g.in_bounds(cube_corner(g, c, v).0, cube_corner(g, c, v).1, cube_corner(g, c, v).2),
        0 <= linear_index(
            cube_corner(g, c, v).0,
            cube_corner(g, c, v).1,
            cube_corner(g, c, v).2,
            g.x_dim(),
            g.y_dim(),
        ) < g.voxel_count(),
{
    g.lemma_wf();
    lemma_cube_origin_bounds(g, c);
    let p = cube_corner(g, c, v);
    lemma_linear_index_bounds(p.0, p.1, p.2, g.x_dim(), g.y_dim(), g.z_dim());
}

proof fn lemma_complement_crossings(g: VoxelGrid, h: VoxelGrid, c: int, n: int)
    requires
        g.wf(),
        h.x_dim() == g.x_dim(),
        h.y_dim() == g.y_dim(),
        h.z_dim() == g.z_dim(),
        forall|i: int| 0 <= i < g.voxel_count() ==> #[trigger] h.voxels()[i] == !g.voxels()[i],
        0 <= c < cube_count(g),
        0 <= n <= 12,
    ensures
        cube_crossings(h, c, n) == cube_crossings(g, c, n),
    decreases n,
{
    if n > 0 {
        lemma_complement_crossings(g, h, c, n - 1);
        let e = n - 1;
        assert(0 <= edge_start(e) < 8 && 0 <= edge_end(e) < 8);
        lemma_cube_corner_in_grid(g, c, edge_start(e));
        lemma_cube_corner_in_grid(g, c, edge_end(e));
        assert(edge_crosses(h, c, e) == edge_crosses(g, c, e));
        assert(cube_edge(h, c, e) == cube_edge(g, c, e));
    }
}

proof fn lemma_complement_crossings_upto(g: VoxelGrid, h: VoxelGrid, c: int)
    requires
        g.wf(),
        h.x_dim() == g.x_dim(),
        h.y_dim() == g.y_dim(),
        h.z_dim() == g.z_dim(),
        forall|i: int| 0 <= i < g.voxel_count() ==> #[trigger] h.voxels()[i] == !g.voxels()[i],
        0 <= c <= cube_count(g),
    ensures
        crossings_upto(h, c) == crossings_upto(g, c),
    decreases c,
{
    if c > 0 {
        lemma_complement_crossings_upto(g, h, c - 1);
        lemma_complement_crossings(g, h, c - 1, 12);
    }
}

/// Swapping set and unset voxels moves no vertex: a grid and its complement
/// have the same vertex list.
pub proof fn lemma_complement_same_vertices(g: VoxelGrid, h: VoxelGrid)
    requires
        g.wf(),
        h.x_dim() == g.x_dim(),
        h.y_dim() == g.y_dim(),
        h.z_dim() == g.z_dim(),
        forall|i: int| 0 <= i < g.voxel_count() ==> #[trigger] h.voxels()[i] == !g.voxels()[i],
    ensures
        mesh_vertices(h) == mesh_vertices(g),
{
    g.lemma_wf();
    assert(cube_count(g) >= 0) by (nonlinear_arith)
        requires
            g.x_dim() >= 1,
            g.y_dim() >= 1,
            g.z_dim() >= 1,
    ;
    lemma_complement_crossings_upto(g, h, cube_count(g));
}

proof fn lemma_uniform_no_crossing(g: VoxelGrid, b: bool, c: int, e: int)
    requires
        g.wf(),
        forall|i: int| 0 <= i < g.voxel_count() ==> #[trigger] g.voxels()[i] == b,
        0 <= c < cube_count(g),
        0 <= e < 12,
    ensures
        !edge_crosses(g, c, e),
{
    assert(0 <= edge_start(e) < 8 && 0 <= edge_end(e) < 8);
    lemma_cube_corner_in_grid(g, c, edge_start(e));
    lemma_cube_corner_in_grid(g, c, edge_end(e));
}

proof fn lemma_uniform_empty_upto(g: VoxelGrid, b: bool, c: int, v: Seq<GridEdge>)
    requires
        g.wf(),
        forall|i: int| 0 <= i < g.voxel_count() ==> #[trigger] g.voxels()[i] == b,
        0 <= c <= cube_count(g),
    ensures
        crossings_upto(g, c).len() == 0,
        triangle_indices_upto(g, c, v).len() == 0,
    decreases c,
{
    if c > 0 {
        lemma_uniform_empty_upto(g, b, c - 1, v);
        assert forall|e: int| 0 <= e < 12 implies !#[trigger] edge_crosses(g, c - 1, e) by {
            lemma_uniform_no_crossing(g, b, c - 1, e);
        }
        lemma_cube_crossings_none(g, c - 1, 12);
        let code = cube_code_of(g, c - 1);
        let r0 = tri_row(code)[0] as int;
        if 0 <= r0 < 12 {
            lemma_mask_bit_crosses(g, c - 1, r0);
        }
        assert(!tri_continues(tri_row(code), 0, edge_mask_spec(code)));
    }
}

/// A grid whose voxels are all set, or all unset, has an empty mesh.
pub proof fn lemma_uniform_grid_empty_mesh(g: VoxelGrid, b: bool)
    requires
        g.wf(),
        forall|i: int| 0 <= i < g.voxel_count() ==> #[trigger] g.voxels()[i] == b,
    ensures
        mesh_vertices(g).len() == 0,
        mesh_indices(g).len() == 0,
{
    g.lemma_wf();
    assert(cube_count(g) >= 0) by (nonlinear_arith)
        requires
            g.x_dim() >= 1,
            g.y_dim() >= 1,
            g.z_dim() >= 1,
    ;
    lemma_uniform_empty_upto(g, b, cube_count(g), mesh_vertices(g));
    assert(crossings_upto(g, cube_count(g)) =~= Seq::<GridEdge>::empty());
}

} // verus!
