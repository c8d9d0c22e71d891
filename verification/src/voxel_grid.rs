use vstd::prelude::*;
use crate::bits::{byte_bit, packed_bit, lemma_mask_test, lemma_set_bit, lemma_clear_bit, lemma_zero_byte, lemma_index_split};

verus! {

/// Position of the grid point `(x, y, z)` in a row-major layout where `x`
/// varies fastest, then `y`, then `z`.
pub open spec fn linear_index(x: int, y: int, z: int, x_len: int, y_len: int) -> int {
    x + y * x_len + z * x_len * y_len
}

/// Every in-bounds grid point has a linear position below the number of
/// points, and the partial products of the position do too.
pub proof fn lemma_linear_index_bounds(x: int, y: int, z: int, x_len: int, y_len: int, z_len: int)
    requires
        0 <= x < x_len,
        0 <= y < y_len,
        0 <= z < z_len,
    ensures
        0 <= y * x_len <= linear_index(x, y, z, x_len, y_len),
        0 <= z * x_len <= z * x_len * y_len <= linear_index(x, y, z, x_len, y_len),
        linear_index(x, y, z, x_len, y_len) < x_len * y_len * z_len,
{
    assert(0 <= y * x_len) by (nonlinear_arith)
        requires
            0 <= y,
            0 < x_len,
    ;
    assert(0 <= z * x_len <= z * x_len * y_len) by (nonlinear_arith)
        requires
            0 <= z,
            0 < x_len,
            1 <= y_len,
    ;
    assert(y * x_len <= (y_len - 1) * x_len) by (nonlinear_arith)
        requires
            0 <= y < y_len,
            0 < x_len,
    ;
    assert(z * x_len * y_len <= (z_len - 1) * x_len * y_len) by (nonlinear_arith)
        requires
            0 <= z < z_len,
            0 < x_len,
            0 < y_len,
    ;
    assert(x_len * y_len * z_len == x_len + (y_len - 1) * x_len + (z_len - 1) * x_len * y_len)
        by (nonlinear_arith);
}

/// Two in-bounds grid points with the same linear position are the same point.
pub proof fn lemma_linear_index_injective(
    x1: int,
    y1: int,
    z1: int,
    x2: int,
    y2: int,
    z2: int,
    x_len: int,
    y_len: int,
)
    requires
        0 <= x1 < x_len,
        0 <= y1 < y_len,
        0 <= z1,
        0 <= x2 < x_len,
        0 <= y2 < y_len,
        0 <= z2,
        linear_index(x1, y1, z1, x_len, y_len) == linear_index(x2, y2, z2, x_len, y_len),
    ensures
        x1 == x2,
        y1 == y2,
        z1 == z2,
{
    let r1 = y1 + z1 * y_len;
    let r2 = y2 + z2 * y_len;
    assert(linear_index(x1, y1, z1, x_len, y_len) == r1 * x_len + x1) by (nonlinear_arith)
        requires
            r1 == y1 + z1 * y_len,
    ;
    assert(linear_index(x2, y2, z2, x_len, y_len) == r2 * x_len + x2) by (nonlinear_arith)
        requires
            r2 == y2 + z2 * y_len,
    ;
    let l = linear_index(x1, y1, z1, x_len, y_len);
    vstd::arithmetic::div_mod::lemma_fundamental_div_mod_converse(l, x_len, r1, x1);
    vstd::arithmetic::div_mod::lemma_fundamental_div_mod_converse(l, x_len, r2, x2);
    vstd::arithmetic::div_mod::lemma_fundamental_div_mod_converse(r1, y_len, z1, y1);
    vstd::arithmetic::div_mod::lemma_fundamental_div_mod_converse(r1, y_len, z2, y2);
}

/// A box of voxels, one bit each, packed eight to a byte in row-major order.
pub struct VoxelGrid {
    x_len: usize,
    y_len: usize,
    z_len: usize,
    grid: Vec<u8>,
}

impl VoxelGrid {
    /// Number of grid points along x.
    pub closed spec fn x_dim(&self) -> int {
        self.x_len as int
    }

    /// Number of grid points along y.
    pub closed spec fn y_dim(&self) -> int {
        self.y_len as int
    }

    /// Number of grid points along z.
    pub closed spec fn z_dim(&self) -> int {
        self.z_len as int
    }

    /// Number of grid points.
    pub open spec fn voxel_count(&self) -> int {
        self.x_dim() * self.y_dim() * self.z_dim()
    }

    /// The state of every voxel, by linear position.
    pub closed spec fn voxels(&self) -> Seq<bool> {
        Seq::new(self.voxel_count() as nat, |i: int| packed_bit(self.grid@, i))
    }

    /// The state of the voxel at `(x, y, z)`.
    pub open spec fn voxel(&self, x: int, y: int, z: int) -> bool {
        self.voxels()[linear_index(x, y, z, self.x_dim(), self.y_dim())]
    }

    /// Whether `(x, y, z)` lies inside the grid.
    pub open spec fn in_bounds(&self, x: int, y: int, z: int) -> bool {
        0 <= x < self.x_dim() && 0 <= y < self.y_dim() && 0 <= z < self.z_dim()
    }

    /// Every axis has at least one point, the point count fits in `usize`
    /// and the packed storage holds exactly one bit per point, rounded up
    /// to whole bytes.
    pub closed spec fn wf(&self) -> bool {
        &&& self.x_len >= 1
        &&& self.y_len >= 1
        &&& self.z_len >= 1
        &&& self.x_len * self.y_len * self.z_len <= usize::MAX
        &&& self.grid@.len() == (self.x_len * self.y_len * self.z_len + 7) / 8
    }

    /// What well-formedness gives: every axis has a point, each fits in
    /// `usize`, and there is one stored state per point.
    pub proof fn lemma_wf(&self)
        requires
            self.wf(),
        ensures
            self.x_dim() >= 1,
            self.y_dim() >= 1,
            self.z_dim() >= 1,
            self.x_dim() <= usize::MAX,
            self.y_dim() <= usize::MAX,
            self.z_dim() <= usize::MAX,
            self.voxel_count() <= usize::MAX,
            self.voxels().len() == self.voxel_count(),
    {
        assert(self.voxel_count() >= 1) by (nonlinear_arith)
            requires
                self.x_dim() >= 1,
                self.y_dim() >= 1,
                self.z_dim() >= 1,
        ;
    }

    /// An empty grid (every voxel unset) with the given number of points
    /// along each axis.
    pub fn new(x_len: usize, y_len: usize, z_len: usize) -> (g: VoxelGrid)
        requires
            x_len >= 1,
            y_len >= 1,
            z_len >= 1,
            x_len * y_len * z_len <= usize::MAX,
        ensures
            g.wf(),
            g.x_dim() == x_len,
            g.y_dim() == y_len,
            g.z_dim() == z_len,
            forall|i: int| 0 <= i < g.voxel_count() ==> !#[trigger] g.voxels()[i],
    {
        assert(x_len * y_len <= x_len * y_len * z_len) by (nonlinear_arith)
            requires
                z_len >= 1,
                x_len >= 1,
                y_len >= 1,
        ;
        let count = x_len * y_len * z_len;
        let grid_len = count / 8 + if count % 8 == 0 { 0 } else { 1 };
        assert(grid_len == (count + 7) / 8);
        let mut grid: Vec<u8> = Vec::new();
        let mut b: usize = 0;
        while b < grid_len
            invariant
                b <= grid_len,
                grid@.len() == b,
                forall|k: int| 0 <= k < b ==> grid@[k] == 0u8,
            decreases grid_len - b,
        {
            grid.push(0u8);
            b = b + 1;
        }
        let g = VoxelGrid { x_len, y_len, z_len, grid };
        assert forall|i: int| 0 <= i < g.voxel_count() implies !#[trigger] g.voxels()[i] by {
            lemma_zero_byte((i % 8) as u8);
        }
        g
    }

    /// Number of grid points along x.
    pub fn x_len(&self) -> (r: usize)
        ensures
            r == self.x_dim(),
    {
        self.x_len
    }

    /// Number of grid points along y.
    pub fn y_len(&self) -> (r: usize)
        ensures
            r == self.y_dim(),
    {
        self.y_len
    }

    /// Number of grid points along z.
    pub fn z_len(&self) -> (r: usize)
        ensures
            r == self.z_dim(),
    {
        self.z_len
    }

    /// Linear position of `(x, y, z)` in the packed storage.
    pub fn index(&self, x: usize, y: usize, z: usize) -> (r: usize)
        requires
            self.wf(),
            self.in_bounds(x as int, y as int, z as int),
        ensures
            r == linear_index(x as int, y as int, z as int, self.x_dim(), self.y_dim()),
            r < self.voxel_count(),
    {
        proof {
            lemma_linear_index_bounds(
                x as int,
                y as int,
                z as int,
                self.x_len as int,
                self.y_len as int,
                self.z_len as int,
            );
        }
        x + y * self.x_len + z * self.x_len * self.y_len
    }

    /// Reads the voxel at `(x, y, z)`.
    pub fn get_voxel(&self, x: usize, y: usize, z: usize) -> (r: bool)
        requires
            self.wf(),
            self.in_bounds(x as int, y as int, z as int),
        ensures
            r == self.voxel(x as int, y as int, z as int),
    {
        let idx = self.index(x, y, z);
        let byte_idx = idx >> 3usize;
        let bit = (idx & 7usize) as u8;
        proof {
            lemma_index_split(idx);
            lemma_mask_test(self.grid@[(idx / 8) as int], bit);
        }
        let bit_mask = 1u8 << bit;
        (self.grid[byte_idx] & bit_mask) != 0u8
    }

    /// Stores `value` in the voxel at `(x, y, z)`; every other voxel keeps
    /// its state.
    pub fn set_voxel(&mut self, x: usize, y: usize, z: usize, value: bool)
        requires
            old(self).wf(),
            old(self).in_bounds(x as int, y as int, z as int),
        ensures
            final(self).wf(),
            final(self).x_dim() == old(self).x_dim(),
            final(self).y_dim() == old(self).y_dim(),
            final(self).z_dim() == old(self).z_dim(),
            final(self).voxels() == old(self).voxels().update(
                linear_index(x as int, y as int, z as int, old(self).x_dim(), old(self).y_dim()),
                value,
            ),
    {
        let idx = self.index(x, y, z);
        self.set_bit(idx, value);
    }

    /// Stores `value` at linear position `idx`.
    fn set_bit(&mut self, idx: usize, value: bool)
        requires
            old(self).wf(),
            idx < old(self).voxel_count(),
        ensures
            final(self).wf(),
            final(self).x_len == old(self).x_len,
            final(self).y_len == old(self).y_len,
            final(self).z_len == old(self).z_len,
            final(self).voxels() == old(self).voxels().update(idx as int, value),
    {
        let byte_idx = idx >> 3usize;
        let bit = (idx & 7usize) as u8;
        proof {
            lemma_index_split(idx);
        }
        let bit_mask = 1u8 << bit;
        let old_byte = self.grid[byte_idx];
        let new_byte = if value {
            old_byte | bit_mask
        } else {
            old_byte & !bit_mask
        };
        let ghost old_grid = self.grid@;
        self.grid.set(byte_idx, new_byte);
        proof {
            assert forall|i: int| 0 <= i < self.voxel_count() implies #[trigger] self.voxels()[i]
                == old(self).voxels().update(idx as int, value)[i] by {
                if i / 8 == idx / 8 {
                    if value {
                        lemma_set_bit(old_byte, bit, (i % 8) as u8);
                    } else {
                        lemma_clear_bit(old_byte, bit, (i % 8) as u8);
                    }
                } else {
                    assert(self.grid@[i / 8] == old_grid[i / 8]);
                }
            }
            assert(self.voxels() =~= old(self).voxels().update(idx as int, value));
        }
    }

    /// Sets every voxel from `values`, given in linear (row-major, x fastest)
    /// order.
    pub fn populate_from_values(&mut self, values: &Vec<bool>)
        requires
            old(self).wf(),
            values@.len() == old(self).voxel_count(),
        ensures
            final(self).wf(),
            final(self).x_dim() == old(self).x_dim(),
            final(self).y_dim() == old(self).y_dim(),
            final(self).z_dim() == old(self).z_dim(),
            final(self).voxels() == values@,
    {
        let count = values.len();
        let mut idx: usize = 0;
        while idx < count
            invariant
                self.wf(),
                self.x_len == old(self).x_len,
                self.y_len == old(self).y_len,
                self.z_len == old(self).z_len,
                count == values@.len(),
                count == self.voxel_count(),
                idx <= count,
                forall|i: int| 0 <= i < idx ==> #[trigger] self.voxels()[i] == values@[i],
            decreases count - idx,
        {
            self.set_bit(idx, values[idx]);
            idx = idx + 1;
        }
        assert(self.voxels() =~= values@);
    }
}

/// A store followed by a read: after `set_voxel(x, y, z, value)` the voxel
/// at `(x, y, z)` reads `value`, and every other voxel of the grid reads
/// what it read before.
pub proof fn lemma_read_after_store(
    before: VoxelGrid,
    after: VoxelGrid,
    x: int,
    y: int,
    z: int,
    value: bool,
    px: int,
    py: int,
    pz: int,
)
    requires
        before.wf(),
        after.wf(),
        after.x_dim() == before.x_dim(),
        after.y_dim() == before.y_dim(),
        after.z_dim() == before.z_dim(),
        before.in_bounds(x, y, z),
        before.in_bounds(px, py, pz),
        after.voxels() == before.voxels().update(
            linear_index(x, y, z, before.x_dim(), before.y_dim()),
            value,
        ),
    ensures
        after.voxel(x, y, z) == value,
        (px, py, pz) != (x, y, z) ==> after.voxel(px, py, pz) == before.voxel(px, py, pz),
{
    before.lemma_wf();
    lemma_linear_index_bounds(x, y, z, before.x_dim(), before.y_dim(), before.z_dim());
    lemma_linear_index_bounds(px, py, pz, before.x_dim(), before.y_dim(), before.z_dim());
    if (px, py, pz) != (x, y, z) {
        if linear_index(px, py, pz, before.x_dim(), before.y_dim()) == linear_index(
            x,
            y,
            z,
            before.x_dim(),
            before.y_dim(),
        ) {
            lemma_linear_index_injective(px, py, pz, x, y, z, before.x_dim(), before.y_dim());
        }
    }
}

} // verus!
