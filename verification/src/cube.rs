//! The geometry of one grid cube: its eight corners, its twelve edges, the
//! eight-bit code of which corners are set, and the twelve-bit mask of which
//! edges join a set corner to an unset one.
//!
//! Corner `v` of the cube at `(i, j, k)` sits at `(i, j, k)` plus
//! `corner_offset(v)`; edge `e` joins corners `edge_start(e)` and
//! `edge_end(e)`:
//!
//! ```text
//!     +-----e7-----+
//!    /|v8         /|v7
//!   e12          e11
//!  /  e8        /  e6
//! +-----e3-----+   |
//! |v4 |        |v3 |
//! |   +-----e5-|---+
//! e4 / v5      e2 / v6
//! | e9         | e10      y
//! |/           |/         ^ z
//! +-----e1-----+          |/
//!  v1           v2        + -> x
//! ```
//! (the figure numbers corners and edges from one; the code from zero).
use vstd::prelude::*;
use crate::bits::{byte_bit, lemma_set_bit, lemma_zero_byte};
use crate::voxel_grid::VoxelGrid;

verus! {

/// Offset of corner `v` from the cube's origin.
pub open spec fn corner_offset(v: int) -> (int, int, int) {
    if v == 0 {
        (0, 0, 0)
    } else if v == 1 {
        (1, 0, 0)
    } else if v == 2 {
        (1, 1, 0)
    } else if v == 3 {
        (0, 1, 0)
    } else if v == 4 {
        (0, 0, 1)
    } else if v == 5 {
        (1, 0, 1)
    } else if v == 6 {
        (1, 1, 1)
    } else {
        (0, 1, 1)
    }
}

/// The corner at which edge `e` starts.
pub open spec fn edge_start(e: int) -> int {
    if e < 8 {
        e
    } else {
        e - 8
    }
}

/// The corner at which edge `e` ends.
pub open spec fn edge_end(e: int) -> int {
    if e == 3 {
        0
    } else if e == 7 {
        4
    } else if e < 8 {
        e + 1
    } else {
        e - 4
    }
}

/// Corner offset of corner `v`.
pub fn corner_offset_of(v: usize) -> (r: (usize, usize, usize))
    requires
        v < 8,
    ensures
        r.0 as int == corner_offset(v as int).0,
        r.1 as int == corner_offset(v as int).1,
        r.2 as int == corner_offset(v as int).2,
{
    if v == 0 {
        (0, 0, 0)
    } else if v == 1 {
        (1, 0, 0)
    } else if v == 2 {
        (1, 1, 0)
    } else if v == 3 {
        (0, 1, 0)
    } else if v == 4 {
        (0, 0, 1)
    } else if v == 5 {
        (1, 0, 1)
    } else if v == 6 {
        (1, 1, 1)
    } else {
        (0, 1, 1)
    }
}

/// The two corners that edge `e` joins, in the order start, end.
pub fn edge_corners(e: usize) -> (r: (usize, usize))
    requires
        e < 12,
    ensures
        r.0 as int == edge_start(e as int),
        r.1 as int == edge_end(e as int),
        r.0 < 8,
        r.1 < 8,
{
    if e < 8 {
        if e == 3 {
            (3, 0)
        } else if e == 7 {
            (7, 4)
        } else {
            (e, e + 1)
        }
    } else {
        (e - 8, e - 4)
    }
}

/// Bit `k` of a sixteen-bit mask.
pub open spec fn mask_bit(m: u16, k: int) -> bool {
    (m >> (k as u16)) & 1u16 == 1u16
}

/// Whether edge `e` of a cube with corner code `code` joins a set corner to
/// an unset one.
pub open spec fn code_edge_crosses(code: u8, e: int) -> bool {
    byte_bit(code, edge_start(e) as u8) != byte_bit(code, edge_end(e) as u8)
}

/// The mask of the crossing edges among edges `0..n`.
pub open spec fn edge_mask_upto(code: u8, n: int) -> u16
    decreases n,
{
    if n <= 0 {
        0u16
    } else {
        edge_mask_upto(code, n - 1) | (if code_edge_crosses(code, n - 1) {
            1u16 << ((n - 1) as u16)
        } else {
            0u16
        })
    }
}

/// The mask of the crossing edges of a cube with corner code `code`: bit
/// `e` is set exactly when edge `e` crosses.
pub open spec fn edge_mask_spec(code: u8) -> u16 {
    edge_mask_upto(code, 12)
}

proof fn lemma_u16_or_bit(m: u16, k: u16, j: u16)
    requires
        k < 16,
        j < 16,
    ensures
        ((m | (1u16 << k)) >> j) & 1u16 == 1u16 <==> (j == k || (m >> j) & 1u16 == 1u16),
        (m | 0u16) == m,
{
    assert(k < 16 && j < 16 ==> ((((m | (1u16 << k)) >> j) & 1u16 == 1u16) <==> (j == k || (m
        >> j) & 1u16 == 1u16))) by (bit_vector);
    assert((m | 0u16) == m) by (bit_vector);
}

/// No bit of the zero mask is set.
pub proof fn lemma_u16_zero_bit(j: u16)
    ensures
        !((0u16 >> j) & 1u16 == 1u16),
{
    assert(!((0u16 >> j) & 1u16 == 1u16)) by (bit_vector);
}

/// Bit `j` of the partial mask is set exactly when `j < n` and edge `j`
/// crosses.
proof fn lemma_edge_mask_upto_bits(code: u8, n: int, j: int)
    requires
        0 <= n <= 12,
        0 <= j < 16,
    ensures
        mask_bit(edge_mask_upto(code, n), j) == (j < n && code_edge_crosses(code, j)),
    decreases n,
{
    if n <= 0 {
        lemma_u16_zero_bit(j as u16);
    } else {
        lemma_edge_mask_upto_bits(code, n - 1, j);
        let prev = edge_mask_upto(code, n - 1);
        lemma_u16_or_bit(prev, (n - 1) as u16, j as u16);
    }
}

/// The mask of a cube has exactly its crossing edges set, and no bit above
/// the twelfth.
pub proof fn lemma_edge_mask_bits(code: u8)
    ensures
        forall|e: int|
            0 <= e < 12 ==> #[trigger] mask_bit(edge_mask_spec(code), e) == code_edge_crosses(
                code,
                e,
            ),
        forall|e: int| 12 <= e < 16 ==> !#[trigger] mask_bit(edge_mask_spec(code), e),
{
    assert forall|e: int| 0 <= e < 16 implies #[trigger] mask_bit(edge_mask_spec(code), e) == (e
        < 12 && code_edge_crosses(code, e)) by {
        lemma_edge_mask_upto_bits(code, 12, e);
    }
}

/// The edge mask of a cube, as the lookup table of the classic algorithm
/// lists it: edge `e` is in the mask exactly when its two corners differ.
pub fn edge_mask(code: u8) -> (m: u16)
    ensures
        m == edge_mask_spec(code),
{
    let mut m: u16 = 0;
    let mut e: usize = 0;
    while e < 12
        invariant
            e <= 12,
            m == edge_mask_upto(code, e as int),
        decreases 12 - e,
    {
        let (s, t) = edge_corners(e);
        let s_set = (code >> (s as u8)) & 1u8 == 1u8;
        let t_set = (code >> (t as u8)) & 1u8 == 1u8;
        if s_set != t_set {
            m = m | (1u16 << (e as u16));
        } else {
            proof {
                lemma_u16_or_bit(m, 0, 0);
            }
        }
        e = e + 1;
    }
    m
}

/// Swapping which corners are set leaves the set of crossing edges alone:
/// a cube and its complement have the same edge mask.
pub proof fn lemma_edge_mask_complement(code: u8)
    ensures
        edge_mask_spec(!code) == edge_mask_spec(code),
{
    lemma_edge_mask_complement_upto(code, 12);
}

proof fn lemma_edge_mask_complement_upto(code: u8, n: int)
    requires
        0 <= n <= 12,
    ensures
        edge_mask_upto(!code, n) == edge_mask_upto(code, n),
    decreases n,
{
    if n > 0 {
        lemma_edge_mask_complement_upto(code, n - 1);
        let s = edge_start(n - 1) as u8;
        let t = edge_end(n - 1) as u8;
        assert(s < 8 && t < 8);
        assert(s < 8 ==> (((!code) >> s) & 1u8 == 1u8) == !((code >> s) & 1u8 == 1u8))
            by (bit_vector);
        assert(t < 8 ==> (((!code) >> t) & 1u8 == 1u8) == !((code >> t) & 1u8 == 1u8))
            by (bit_vector);
    }
}

/// Whether corner `v` of the cube with origin `(x, y, z)` is set.
pub open spec fn corner_set(g: VoxelGrid, x: int, y: int, z: int, v: int) -> bool {
    g.voxel(x + corner_offset(v).0, y + corner_offset(v).1, z + corner_offset(v).2)
}

/// The code of corners `0..n` of the cube with origin `(x, y, z)`: bit `v`
/// is set when corner `v` is set.
pub open spec fn cube_code_upto(g: VoxelGrid, x: int, y: int, z: int, n: int) -> u8
    decreases n,
{
    if n <= 0 {
        0u8
    } else {
        cube_code_upto(g, x, y, z, n - 1) | (if corner_set(g, x, y, z, n - 1) {
            1u8 << ((n - 1) as u8)
        } else {
            0u8
        })
    }
}

/// The eight-bit corner code of the cube with origin `(x, y, z)`.
pub open spec fn cube_code(g: VoxelGrid, x: int, y: int, z: int) -> u8 {
    cube_code_upto(g, x, y, z, 8)
}

proof fn lemma_cube_code_upto_bits(g: VoxelGrid, x: int, y: int, z: int, n: int, v: int)
    requires
        0 <= n <= 8,
        0 <= v < 8,
    ensures
        byte_bit(cube_code_upto(g, x, y, z, n), v as u8) == (v < n && corner_set(g, x, y, z, v)),
    decreases n,
{
    if n <= 0 {
        lemma_zero_byte(v as u8);
    } else {
        lemma_cube_code_upto_bits(g, x, y, z, n - 1, v);
        let prev = cube_code_upto(g, x, y, z, n - 1);
        if corner_set(g, x, y, z, n - 1) {
            lemma_set_bit(prev, (n - 1) as u8, v as u8);
        } else {
            assert((prev | 0u8) == prev) by (bit_vector);
        }
    }
}

/// Bit `v` of a cube's code is set exactly when corner `v` is set.
pub proof fn lemma_cube_code_bits(g: VoxelGrid, x: int, y: int, z: int)
    ensures
        forall|v: int|
            0 <= v < 8 ==> #[trigger] byte_bit(cube_code(g, x, y, z), v as u8) == corner_set(
                g,
                x,
                y,
                z,
                v,
            ),
{
    assert forall|v: int| 0 <= v < 8 implies #[trigger] byte_bit(cube_code(g, x, y, z), v as u8)
        == corner_set(g, x, y, z, v) by {
        lemma_cube_code_upto_bits(g, x, y, z, 8, v);
    }
}

impl VoxelGrid {
    /// The corner code of the cube whose lowest corner is `(x, y, z)`: bit
    /// `v` is set when corner `v` of the cube is set.
    pub fn cube_index(&self, x: usize, y: usize, z: usize) -> (r: u8)
        requires
            self.wf(),
            x + 1 < self.x_dim(),
            y + 1 < self.y_dim(),
            z + 1 < self.z_dim(),
        ensures
            r == cube_code(*self, x as int, y as int, z as int),
    {
        proof {
            self.lemma_wf();
        }
        let v: [bool; 8] = [
            self.get_voxel(x, y, z),
            self.get_voxel(x + 1, y, z),
            self.get_voxel(x + 1, y + 1, z),
            self.get_voxel(x, y + 1, z),
            self.get_voxel(x, y, z + 1),
            self.get_voxel(x + 1, y, z + 1),
            self.get_voxel(x + 1, y + 1, z + 1),
            self.get_voxel(x, y + 1, z + 1),
        ];
        let mut idx: u8 = 0;
        let mut i: usize = 0;
        while i < 8
            invariant
                i <= 8,
                forall|w: int| 0 <= w < 8 ==> v@[w] == corner_set(*self, x as int, y as int, z as int, w),
                idx == cube_code_upto(*self, x as int, y as int, z as int, i as int),
            decreases 8 - i,
        {
            if v[i] {
                idx = idx | (1u8 << (i as u8));
            } else {
                assert((idx | 0u8) == idx) by (bit_vector);
            }
            i = i + 1;
        }
        idx
    }
}

} // verus!
