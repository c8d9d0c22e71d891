//! A box of samples of a scalar volume, addressed by grid point.
use vstd::prelude::*;
use crate::voxel_grid::linear_index;

verus! {

/// Samples of a volume on a grid of `x_len * y_len * z_len` points, stored
/// in row-major order (x fastest, then y, then z).
pub struct ScalarField<T> {
    pub x_len: usize,
    pub y_len: usize,
    pub z_len: usize,
    pub data: Vec<T>,
}

/// Number of samples of a `x_len * y_len * z_len` field, or `None` when it
/// does not fit in `usize`.
pub fn sample_count(x_len: usize, y_len: usize, z_len: usize) -> (r: Option<usize>)
    ensures
        match r {
            Some(n) => n == x_len * y_len * z_len,
            None => x_len * y_len * z_len > usize::MAX,
        },
{
    match x_len.checked_mul(y_len) {
        Some(xy) => match xy.checked_mul(z_len) {
            Some(n) => Some(n),
            None => None,
        },
        None => {
            assert(x_len * y_len * z_len > usize::MAX || z_len == 0) by (nonlinear_arith)
                requires
                    x_len * y_len > usize::MAX,
                    z_len >= 0,
            ;
            if z_len == 0 {
                Some(0)
            } else {
                None
            }
        },
    }
}

impl<T> ScalarField<T> {
    /// Linear position of `(x, y, z)` in the sample storage.
    pub open spec fn position_spec(&self, x: int, y: int, z: int) -> int {
        linear_index(x, y, z, self.x_len as int, self.y_len as int)
    }

    /// Position of `(x, y, z)` in `data`, or `None` when it falls past the
    /// end of the samples. No axis is checked on its own: a point just past
    /// the end of a row reads the start of the next one.
    pub fn position(&self, x: usize, y: usize, z: usize) -> (r: Option<usize>)
        ensures
            match r {
                Some(p) => p == self.position_spec(x as int, y as int, z as int) && p
                    < self.data@.len(),
                None => self.position_spec(x as int, y as int, z as int) >= self.data@.len(),
            },
    {
        let len = self.data.len();
        let yx = match y.checked_mul(self.x_len) {
            Some(v) => v,
            None => {
                return None;
            },
        };
        let zx = match z.checked_mul(self.x_len) {
            Some(v) => v,
            None => {
                assert(z * self.x_len * self.y_len >= z * self.x_len || self.y_len == 0)
                    by (nonlinear_arith)
                    requires
                        z >= 0,
                        self.x_len >= 0,
                        self.y_len >= 0,
                ;
                if self.y_len == 0 {
                    let p = match x.checked_add(yx) {
                        Some(v) => v,
                        None => {
                            return None;
                        },
                    };
                    proof {
                        assert(z * self.x_len * self.y_len == 0) by (nonlinear_arith)
                            requires
                                self.y_len == 0,
                        ;
                    }
                    if p < len {
                        return Some(p);
                    } else {
                        return None;
                    }
                }
                return None;
            },
        };
        let zxy = match zx.checked_mul(self.y_len) {
            Some(v) => v,
            None => {
                return None;
            },
        };
        let p = match x.checked_add(yx) {
            Some(v) => v,
            None => {
                return None;
            },
        };
        let p = match p.checked_add(zxy) {
            Some(v) => v,
            None => {
                return None;
            },
        };
        if p < len {
            Some(p)
        } else {
            None
        }
    }

    /// The sample at `(x, y, z)`, or `None` when the point falls past the
    /// end of the samples.
    pub fn value_at(&self, x: usize, y: usize, z: usize) -> (r: Option<&T>)
        ensures
            match r {
                Some(v) => {
                    &&& 0 <= self.position_spec(x as int, y as int, z as int) < self.data@.len()
                    &&& *v == self.data@[self.position_spec(x as int, y as int, z as int)]
                },
                None => self.position_spec(x as int, y as int, z as int) >= self.data@.len(),
            },
    {
        match self.position(x, y, z) {
            Some(p) => Some(&self.data[p]),
            None => None,
        }
    }
}

impl ScalarField<u8> {
    /// The field of `x_len * y_len * z_len` byte samples stored at the start
    /// of `bytes`, in row-major order (x fastest, then y, then z). `None`
    /// when the sample count does not fit in `usize` or `bytes` is shorter
    /// than it; bytes past the last sample are ignored.
    pub fn from_bytes_with_size(bytes: &[u8], x_len: usize, y_len: usize, z_len: usize) -> (r:
        Option<ScalarField<u8>>)
        ensures
            r is Some <==> x_len * y_len * z_len <= bytes@.len(),
            r matches Some(f) ==> {
                &&& f.x_len == x_len
                &&& f.y_len == y_len
                &&& f.z_len == z_len
                &&& f.data@ == bytes@.subrange(0, x_len * y_len * z_len)
            },
    {
        let available = bytes.len();
        let n = match sample_count(x_len, y_len, z_len) {
            Some(n) => n,
            None => {
                return None;
            },
        };
        if n > available {
            return None;
        }
        let mut data: Vec<u8> = Vec::new();
        let mut p: usize = 0;
        while p < n
            invariant
                n <= bytes@.len(),
                p <= n,
                data@ == bytes@.subrange(0, p as int),
            decreases n - p,
        {
            data.push(bytes[p]);
            p = p + 1;
            assert(data@ =~= bytes@.subrange(0, p as int));
        }
        Some(ScalarField { x_len, y_len, z_len, data })
    }
}

/// One more than `v`, or `v` itself at the top of the range.
pub open spec fn saturating_inc(v: usize) -> usize {
    if v == usize::MAX {
        v
    } else {
        (v + 1) as usize
    }
}

/// One less than `v`, or `v` itself at zero.
pub open spec fn saturating_dec(v: usize) -> usize {
    if v == 0 {
        v
    } else {
        (v - 1) as usize
    }
}

/// The six points of a central difference around `(x, y, z)`: the next and
/// the previous point along x, along y and along z, each coordinate held at
/// the ends of the `usize` range.
pub fn central_difference_points(x: usize, y: usize, z: usize) -> (r: [(usize, usize, usize); 6])
    ensures
        r[0] == (saturating_inc(x), y, z),
        r[1] == (saturating_dec(x), y, z),
        r[2] == (x, saturating_inc(y), z),
        r[3] == (x, saturating_dec(y), z),
        r[4] == (x, y, saturating_inc(z)),
        r[5] == (x, y, saturating_dec(z)),
{
    let xp = if x == usize::MAX { x } else { x + 1 };
    let xm = if x == 0 { x } else { x - 1 };
    let yp = if y == usize::MAX { y } else { y + 1 };
    let ym = if y == 0 { y } else { y - 1 };
    let zp = if z == usize::MAX { z } else { z + 1 };
    let zm = if z == 0 { z } else { z - 1 };
    [(xp, y, z), (xm, y, z), (x, yp, z), (x, ym, z), (x, y, zp), (x, y, zm)]
}

} // verus!
