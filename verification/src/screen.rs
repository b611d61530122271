//! Screen geometry: the pixel grid a render fills, in raster order.

use vstd::prelude::*;

verus! {

/// The pixel grid of a render target.
///
/// Pixels are addressed by a column `x` in `0..width` and a row `y` in
/// `0..height`; rows are emitted top to bottom, each row left to right
/// (raster order), so the pixel at `(x, y)` lands at offset
/// `y * width + x` of the output.
#[derive(Debug, Clone, Copy, PartialEq, Eq, Structural)]
pub struct Screen {
    width: u64,
    height: u64,
}

impl Screen {
    pub closed spec fn spec_width(&self) -> u64 {
        self.width
    }

    pub closed spec fn spec_height(&self) -> u64 {
        self.height
    }

    pub fn new(width: u64, height: u64) -> (r: Self)
        ensures
            r.spec_width() == width,
            r.spec_height() == height,
    {
        Self { width, height }
    }

    pub fn width(&self) -> (r: u64)
        ensures
            r == self.spec_width(),
    {
        self.width
    }

    pub fn height(&self) -> (r: u64)
        ensures
            r == self.spec_height(),
    {
        self.height
    }

    /// Number of pixels the render produces.
    pub fn pixel_count(&self) -> (r: u64)
        requires
            self.spec_width() * self.spec_height() <= u64::MAX,
        ensures
            r == self.spec_width() * self.spec_height(),
    {
        self.width * self.height
    }

    /// Offset of the pixel at column `x`, row `y` in the raster-ordered
    /// output: row by row from the top, left to right within a row.
    pub fn pixel_index(&self, x: u64, y: u64) -> (r: u64)
        requires
            x < self.spec_width(),
            y < self.spec_height(),
            self.spec_width() * self.spec_height() <= u64::MAX,
        ensures
            r == y * self.spec_width() + x,
            r < self.spec_width() * self.spec_height(),
    {
        proof {
            lemma_raster_index_in_range(self.width as int, self.height as int, x as int, y as int);
        }
        y * self.width + x
    }
}

impl Screen {
    /// Every pixel coordinate of the grid, in raster order: the pair
    /// `(x, y)` stands at offset `y * width + x`, so a renderer that
    /// walks this sequence fills the output exactly in the order the
    /// image is assembled in.
    pub fn raster_coordinates(&self) -> (r: Vec<(u64, u64)>)
        requires
            self.spec_width() * self.spec_height() <= usize::MAX,
        ensures
            r@.len() == self.spec_width() * self.spec_height(),
            forall|x: int, y: int|
                0 <= x < self.spec_width() && 0 <= y < self.spec_height()
                    ==> #[trigger] r@[y * self.spec_width() + x] == (x as u64, y as u64),
    {
        let w = self.width;
        let h = self.height;
        let mut coords: Vec<(u64, u64)> = Vec::new();
        let mut y: u64 = 0;
        while y < h
            invariant
                y <= h,
                w == self.spec_width(),
                h == self.spec_height(),
                w * h <= usize::MAX,
                coords@.len() == y * w,
                forall|xx: int, yy: int|
                    0 <= xx < w && 0 <= yy < y
                        ==> #[trigger] coords@[yy * w + xx] == (xx as u64, yy as u64),
            decreases h - y,
        {
            proof {
                assert((y + 1) * w <= h * w && h * w == w * h) by (nonlinear_arith)
                    requires y < h, 0 <= w, 0 <= y,
                ;
            }
            let mut x: u64 = 0;
            while x < w
                invariant
                    x <= w,
                    y < h,
                    w == self.spec_width(),
                    h == self.spec_height(),
                    w * h <= usize::MAX,
                    (y + 1) * w <= w * h,
                    coords@.len() == y * w + x,
                    forall|xx: int, yy: int|
                        0 <= xx < w && 0 <= yy < y
                            ==> #[trigger] coords@[yy * w + xx] == (xx as u64, yy as u64),
                    forall|xx: int|
                        0 <= xx < x ==> #[trigger] coords@[y * w + xx] == (xx as u64, y as u64),
                decreases w - x,
            {
                proof {
                    assert(y * w + x < (y + 1) * w) by (nonlinear_arith)
                        requires 0 <= x < w, 0 <= y,
                    ;
                }
                coords.push((x, y));
                proof {
                    assert forall|xx: int, yy: int|
                        0 <= xx < w && 0 <= yy < y
                            implies #[trigger] coords@[yy * w + xx] == (xx as u64, yy as u64) by {
                        assert(yy * w + xx < y * w) by (nonlinear_arith)
                            requires 0 <= xx < w, 0 <= yy < y,
                        ;
                    }
                }
                x = x + 1;
            }
            proof {
                assert(y * w + w == (y + 1) * w) by (nonlinear_arith);
                assert forall|xx: int, yy: int|
                    0 <= xx < w && 0 <= yy < y + 1
                        implies #[trigger] coords@[yy * w + xx] == (xx as u64, yy as u64) by {
                    assert(yy * w + xx < (yy + 1) * w && (yy + 1) * w <= (y + 1) * w)
                        by (nonlinear_arith)
                        requires 0 <= xx < w, 0 <= yy <= y,
                    ;
                    if yy == y {
                        assert(coords@[y * w + xx] == (xx as u64, y as u64));
                    }
                }
            }
            y = y + 1;
        }
        proof {
            assert(h * w == w * h) by (nonlinear_arith);
        }
        coords
    }
}

/// The raster offset of an in-bounds pixel is in bounds: for `x < w` and
/// `y < h`, `y * w + x < w * h`.
pub proof fn lemma_raster_index_in_range(w: int, h: int, x: int, y: int)
    requires
        0 <= x < w,
        0 <= y < h,
    ensures
        y * w + x < w * h,
{
    assert(y * w + x < (y + 1) * w) by (nonlinear_arith)
        requires 0 <= x < w,
    ;
    assert((y + 1) * w <= h * w) by (nonlinear_arith)
        requires y < h, w > 0,
    ;
    assert(h * w == w * h) by (nonlinear_arith);
}

} // verus!
