//! Pixel dimensions of a frame and its row-major pixel order.

use vstd::prelude::*;
use vstd::arithmetic::div_mod::{
    lemma_fundamental_div_mod, lemma_fundamental_div_mod_converse, lemma_multiply_divide_lt,
};
use vstd::arithmetic::mul::lemma_mul_is_commutative;

verus! {

/// Column of the pixel at position `index` of a row-major frame `width` pixels wide.
pub open spec fn column_of(width: nat, index: nat) -> nat
    recommends
        width > 0,
{
    index % width
}

/// Row of the pixel at position `index` of a row-major frame `width` pixels wide.
pub open spec fn row_of(width: nat, index: nat) -> nat
    recommends
        width > 0,
{
    index / width
}

/// Walking a `width` by `height` frame row by row visits each pixel exactly once: the pixel
/// `(x, y)` comes at position `y * width + x`, which lies in the walk, and at no other.
pub proof fn lemma_row_major_visits_each_pixel_once(
    width: nat,
    height: nat,
    x: nat,
    y: nat,
    index: nat,
)
    requires
        x < width,
        y < height,
    ensures
        y * width + x < width * height,
        column_of(width, y * width + x) == x,
        row_of(width, y * width + x) == y,
        column_of(width, index) == x && row_of(width, index) == y ==> index == y * width + x,
{
    assert(y * width + x < width * height) by (nonlinear_arith)
        requires
            x < width,
            y < height,
    ;
    lemma_fundamental_div_mod_converse((y * width + x) as int, width as int, y as int, x as int);
    if column_of(width, index) == x && row_of(width, index) == y {
        lemma_fundamental_div_mod(index as int, width as int);
        lemma_mul_is_commutative(width as int, y as int);
    }
}

/// Width and height of a frame in pixels. A frame is at least one pixel high.
pub struct Image {
    width: u32,
    height: u32,
}

impl Image {
    #[verifier::type_invariant]
    spec fn inv(&self) -> bool {
        self.height >= 1
    }

    /// Width in pixels.
    pub closed spec fn spec_width(&self) -> nat {
        self.width as nat
    }

    /// Height in pixels.
    pub closed spec fn spec_height(&self) -> nat {
        self.height as nat
    }

    /// A frame `width` pixels wide and `height` pixels high; a height of zero becomes one.
    pub fn new(width: u32, height: u32) -> (r: Image)
        ensures
            r.spec_width() == width,
            r.spec_height() == if height < 1 { 1 } else { height },
    {
        let height: u32 = if height < 1 { 1 } else { height };
        Image { width, height }
    }

    pub fn width(&self) -> (r: u32)
        ensures
            r == self.spec_width(),
    {
        self.width
    }

    pub fn height(&self) -> (r: u32)
        ensures
            r == self.spec_height(),
            r >= 1,
    {
        proof {
            use_type_invariant(self);
        }
        self.height
    }

    /// Number of pixels in the frame.
    pub fn pixel_count(&self) -> (r: u64)
        ensures
            r == self.spec_width() * self.spec_height(),
    {
        let w: u64 = self.width as u64;
        let h: u64 = self.height as u64;
        assert(w * h <= u32::MAX * u32::MAX) by (nonlinear_arith)
            requires
                w <= u32::MAX,
                h <= u32::MAX,
        ;
        w * h
    }

    /// Coordinates `(x, y)` of the pixel at position `index` when the frame is walked row
    /// by row, left to right within a row.
    pub fn pixel_at(&self, index: u64) -> (r: (u32, u32))
        requires
            index < self.spec_width() * self.spec_height(),
        ensures
            r.0 == column_of(self.spec_width(), index as nat),
            r.1 == row_of(self.spec_width(), index as nat),
            r.0 < self.spec_width(),
            r.1 < self.spec_height(),
    {
        let w: u64 = self.width as u64;
        let h: u64 = self.height as u64;
        assert(w > 0) by (nonlinear_arith)
            requires
                index < w * h,
                h >= 0,
        ;
        proof {
            lemma_multiply_divide_lt(index as int, w as int, h as int);
        }
        let x: u64 = index % w;
        let y: u64 = index / w;
        (x as u32, y as u32)
    }
}

} // verus!
