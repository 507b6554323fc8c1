//! Layout of a camera's rays: one ray per pixel, row by row.
//!
//! The camera keeps its rays in a single buffer; the ray of pixel `(x, y)`
//! is at position `width * y + x`.
use vstd::prelude::*;

verus! {

/// Size of the image a camera renders, in pixels.
#[derive(Clone, Copy, Debug, PartialEq, Eq, Structural)]
pub struct Resolution {
    pub x: usize,
    pub y: usize,
}

impl Resolution {
    /// A camera renders at least one pixel in each direction, and all its
    /// rays can be counted.
    pub open spec fn valid(&self) -> bool {
        &&& self.x != 0
        &&& self.y != 0
        &&& self.x * self.y <= usize::MAX
    }

    /// The resolution `x` by `y`; `None` where a dimension is zero or the
    /// number of pixels does not fit a `usize`.
    pub fn new(x: usize, y: usize) -> (r: Option<Self>)
        ensures
            match r {
                Some(res) => res == (Resolution { x, y }) && res.valid(),
                None => !(Resolution { x, y }).valid(),
            },
    {
        if x == 0 || y == 0 {
            return None;
        }
        match x.checked_mul(y) {
            Some(_) => Some(Resolution { x, y }),
            None => None,
        }
    }

    /// Number of rays of a camera of this resolution.
    pub fn ray_count(&self) -> (r: usize)
        requires
            self.valid(),
        ensures
            r == self.x * self.y,
    {
        self.x * self.y
    }

    /// Position of the ray of pixel `(x, y)` in the ray buffer.
    pub fn pixel_index(&self, x: usize, y: usize) -> (r: usize)
        requires
            self.valid(),
            x < self.x,
            y < self.y,
        ensures
            r == self.x * y + x,
            r < self.x * self.y,
    {
        proof {
            lemma_index_in_range(self.x as int, self.y as int, x as int, y as int);
        }
        self.x * y + x
    }

    /// The pixel whose ray is at position `px` of the ray buffer.
    pub fn pixel_of(&self, px: usize) -> (r: (usize, usize))
        requires
            self.valid(),
            px < self.x * self.y,
        ensures
            r == (px % self.x, px / self.x),
            r.0 < self.x,
            r.1 < self.y,
    {
        proof {
            lemma_row_in_range(self.x as int, self.y as int, px as int);
        }
        (px % self.x, px / self.x)
    }
}

proof fn lemma_index_in_range(w: int, h: int, x: int, y: int)
    by (nonlinear_arith)
    requires
        0 <= x < w,
        0 <= y < h,
    ensures
        w * y + x < w * h,
        0 <= w * y,
{
    assert(w * y + x < w * y + w);
    assert(w * y + w == w * (y + 1));
    assert(w * (y + 1) <= w * h);
}

proof fn lemma_row_in_range(w: int, h: int, px: int)
    by (nonlinear_arith)
    requires
        0 < w,
        0 <= px < w * h,
    ensures
        px / w < h,
        px % w < w,
{
}

/// Law: the pixel of the ray at a pixel's position is that pixel, and every
/// position of the buffer is the position of its pixel.
pub proof fn lemma_pixel_index_round_trip(res: Resolution, x: int, y: int, px: int)
    requires
        res.valid(),
        0 <= x < res.x,
        0 <= y < res.y,
        0 <= px < res.x * res.y,
    ensures
        (res.x * y + x) % (res.x as int) == x,
        (res.x * y + x) / (res.x as int) == y,
        res.x * (px / (res.x as int)) + px % (res.x as int) == px,
{
    let w = res.x as int;
    assert((w * y + x) % w == x && (w * y + x) / w == y) by (nonlinear_arith)
        requires
            0 <= x < w,
            0 <= y,
    {
        vstd::arithmetic::div_mod::lemma_fundamental_div_mod_converse(w * y + x, w, y, x);
    }
    assert(w * (px / w) + px % w == px) by (nonlinear_arith)
        requires
            0 < w,
    {
        vstd::arithmetic::div_mod::lemma_fundamental_div_mod(px, w);
    }
}

} // verus!
