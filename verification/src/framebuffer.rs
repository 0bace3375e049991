//! A render target: a rectangle of RGBA texels at a fixed resolution.
//! The G-buffer textures, the intermediate composites and the final surface
//! are all values of this type.

use vstd::prelude::*;
use crate::color::{Color, transparent_black};

verus! {

/// The largest width or height a render target may have.
pub const MAX_TARGET_EXTENT: u32 = 4096;

/// A sequence of `n` texels, all cleared to transparent black.
pub open spec fn cleared_seq(n: int) -> Seq<Color> {
    Seq::new(n as nat, |i: int| transparent_black())
}

/// A render target: `width * height` texels in row-major order.
pub struct Framebuffer {
    width: u32,
    height: u32,
    pixels: Vec<Color>,
}

impl Framebuffer {
    /// The texels, in row-major order.
    pub closed spec fn view(&self) -> Seq<Color> {
        self.pixels@
    }

    pub closed spec fn width_spec(&self) -> u32 {
        self.width
    }

    pub closed spec fn height_spec(&self) -> u32 {
        self.height
    }

    /// Well-formed: nonempty, bounded extents, and exactly one texel per cell.
    pub open spec fn wf(&self) -> bool {
        &&& 1 <= self.width_spec() <= MAX_TARGET_EXTENT
        &&& 1 <= self.height_spec() <= MAX_TARGET_EXTENT
        &&& self.view().len() == self.width_spec() * self.height_spec()
    }

    /// A fresh render target, cleared to transparent black.
    pub fn new(width: u32, height: u32) -> (fb: Framebuffer)
        requires
            1 <= width <= MAX_TARGET_EXTENT,
            1 <= height <= MAX_TARGET_EXTENT,
        ensures
            fb.wf(),
            fb.width_spec() == width,
            fb.height_spec() == height,
            fb@ =~= cleared_seq(width as int * height as int),
    {
        proof {
            lemma_row_major_index(width as int, height as int, 0, 0);
        }
        let n: usize = (width as usize) * (height as usize);
        let mut pixels: Vec<Color> = Vec::new();
        let mut i: usize = 0;
        while i < n
            invariant
                i <= n,
                pixels@.len() == i,
                forall|j: int| 0 <= j < i ==> pixels@[j] == transparent_black(),
            decreases n - i,
        {
            pixels.push(Color::transparent());
            i = i + 1;
        }
        Framebuffer { width, height, pixels }
    }

    pub fn width(&self) -> (w: u32)
        ensures
            w == self.width_spec(),
    {
        self.width
    }

    pub fn height(&self) -> (h: u32)
        ensures
            h == self.height_spec(),
    {
        self.height
    }

    /// The texel at column `x` of row `y`.
    pub fn get_pixel(&self, x: u32, y: u32) -> (c: Color)
        requires
            self.wf(),
            x < self.width_spec(),
            y < self.height_spec(),
        ensures
            c == self@[y as int * self.width_spec() as int + x as int],
    {
        proof {
            lemma_row_major_index(
                self.width_spec() as int,
                self.height_spec() as int,
                x as int,
                y as int,
            );
        }
        let idx: usize = (y as usize) * (self.width as usize) + (x as usize);
        self.pixels[idx]
    }

    /// The texel at row-major index `i`.
    pub fn get_index(&self, i: usize) -> (c: Color)
        requires
            self.wf(),
            i < self@.len(),
        ensures
            c == self@[i as int],
    {
        self.pixels[i]
    }

    /// The number of texels.
    pub fn len(&self) -> (n: usize)
        ensures
            n == self@.len(),
    {
        self.pixels.len()
    }

    /// Replace the whole contents with `pixels`, which must cover the target.
    pub fn set_pixels(&mut self, pixels: Vec<Color>)
        requires
            pixels@.len() == old(self)@.len(),
        ensures
            final(self)@ == pixels@,
            final(self).width_spec() == old(self).width_spec(),
            final(self).height_spec() == old(self).height_spec(),
            old(self).wf() ==> final(self).wf(),
    {
        self.pixels = pixels;
    }
}

/// The clip-space coordinate of the center of texel `p` on an axis of
/// `extent` texels: texel centers map into the fixed-point range
/// `-FP_ONE .. FP_ONE`.
pub open spec fn clip_coord_spec(p: int, extent: int) -> int {
    (2 * p + 1) * crate::FP_ONE / extent - crate::FP_ONE
}

/// A quotient of a bounded nonnegative dividend by a positive divisor is
/// bounded by the factor.
pub proof fn lemma_div_bound(a: int, b: int, c: int)
    by (nonlinear_arith)
    requires
        0 <= a,
        0 < c,
        a < b * c,
    ensures
        0 <= a / c < b,
{
}

/// Multiplying both sides of a strict inequality by a positive factor
/// preserves it.
pub proof fn lemma_mul_lt(a: int, b: int, c: int)
    by (nonlinear_arith)
    requires
        0 <= a < b,
        0 < c,
    ensures
        a * c < b * c,
{
}

/// The clip-space coordinate of the center of texel `p`.
pub fn clip_coord(p: u32, extent: u32) -> (c: i64)
    requires
        p < extent,
        extent <= MAX_TARGET_EXTENT,
    ensures
        c == clip_coord_spec(p as int, extent as int),
        -crate::FP_ONE <= c < crate::FP_ONE,
{
    proof {
        lemma_mul_lt(2 * p + 1, 2 * extent as int, crate::FP_ONE as int);
        lemma_div_bound(
            (2 * p + 1) * crate::FP_ONE as int,
            2 * crate::FP_ONE as int,
            extent as int,
        );
    }
    (2 * p as i64 + 1) * crate::FP_ONE / extent as i64 - crate::FP_ONE
}

/// Inside a `width * height` rectangle, the row-major index of a cell is
/// within bounds.
pub proof fn lemma_row_major_index(w: int, h: int, x: int, y: int)
    by (nonlinear_arith)
    requires
        0 < w <= MAX_TARGET_EXTENT,
        0 < h <= MAX_TARGET_EXTENT,
        0 <= x < w,
        0 <= y < h,
    ensures
        0 <= y * w + x < w * h,
        w * h <= MAX_TARGET_EXTENT * MAX_TARGET_EXTENT,
{
}

} // verus!
