use vstd::prelude::*;
use vstd::arithmetic::div_mod::{lemma_fundamental_div_mod, lemma_multiply_divide_lt};

verus! {

/// One sample of an image: red, green, blue and alpha, eight bits each.
/// Images without an alpha channel carry their alpha samples along untouched.
#[derive(Debug, Clone, Copy, PartialEq, Eq, Structural)]
pub struct Pixel {
    pub r: u8,
    pub g: u8,
    pub b: u8,
    pub a: u8,
}

/// A dense raster in row-major order: the pixel at column `x` and row `y`
/// is `pixels[y * width + x]`.
#[derive(Debug, Clone)]
pub struct RasterImage {
    pub width: usize,
    pub height: usize,
    pub has_alpha: bool,
    pub pixels: Vec<Pixel>,
}

/// The mathematical content of a raster image.
pub struct Raster {
    pub width: int,
    pub height: int,
    pub has_alpha: bool,
    pub pixels: Seq<Pixel>,
}

impl Raster {
    /// The pixel at column `x`, row `y`.
    pub open spec fn at(self, x: int, y: int) -> Pixel {
        cell(self.pixels, self.width, x, y)
    }
}

impl View for RasterImage {
    type V = Raster;

    open spec fn view(&self) -> Raster {
        Raster {
            width: self.width as int,
            height: self.height as int,
            has_alpha: self.has_alpha,
            pixels: self.pixels@,
        }
    }
}

/// Why a pipeline run was refused.
#[derive(Debug, Clone, Copy, PartialEq, Eq, Structural)]
pub enum PixelError {
    /// The source has a zero dimension, or its pixel count is not `width * height`.
    InvalidImage,
    /// A parameter lies outside its documented range.
    InvalidParams,
}

/// Colour sample `c` of a pixel: 0 red, 1 green, 2 blue, anything else alpha.
pub open spec fn chan(p: Pixel, c: int) -> int {
    if c == 0 {
        p.r as int
    } else if c == 1 {
        p.g as int
    } else if c == 2 {
        p.b as int
    } else {
        p.a as int
    }
}

/// The pixel at column `x`, row `y` of a row-major grid `w` cells wide.
pub open spec fn cell(px: Seq<Pixel>, w: int, x: int, y: int) -> Pixel {
    px[y * w + x]
}

/// The colour of a pixel with alpha left out.
pub open spec fn rgb(p: Pixel) -> (u8, u8, u8) {
    (p.r, p.g, p.b)
}

/// The set of colours, alpha ignored, that occur in a sequence of pixels.
pub open spec fn colours(px: Seq<Pixel>) -> Set<(u8, u8, u8)> {
    Set::new(|c: (u8, u8, u8)| exists|i: int| 0 <= i < px.len() && rgb(#[trigger] px[i]) == c)
}

impl RasterImage {
    /// Both dimensions are positive and there is exactly one pixel per cell.
    pub open spec fn wf(&self) -> bool {
        &&& self.width >= 1
        &&& self.height >= 1
        &&& self.pixels@.len() == self.width * self.height
    }

    /// The pixel at column `x`, row `y`.
    pub open spec fn at(&self, x: int, y: int) -> Pixel {
        cell(self.pixels@, self.width as int, x, y)
    }

    /// Tells whether the image is well formed.
    pub fn is_valid(&self) -> (r: bool)
        ensures
            r == self.wf(),
    {
        proof {
            lemma_wide_product(self.width as int, self.height as int);
        }
        self.width >= 1 && self.height >= 1 && (self.width as u128) * (self.height as u128)
            == self.pixels.len() as u128
    }
}

/// The product of two `usize` values fits in a `u128`.
pub proof fn lemma_wide_product(a: int, b: int)
    requires
        0 <= a <= usize::MAX,
        0 <= b <= usize::MAX,
    ensures
        0 <= a * b <= u128::MAX,
{
    assert(0 <= a * b <= 0xFFFF_FFFF_FFFF_FFFFint * 0xFFFF_FFFF_FFFF_FFFFint) by (nonlinear_arith)
        requires
            0 <= a <= 0xFFFF_FFFF_FFFF_FFFFint,
            0 <= b <= 0xFFFF_FFFF_FFFF_FFFFint,
    ;
}

/// A cell inside a `w` by `h` grid has its row-major index inside the grid.
pub proof fn lemma_cell_index(x: int, y: int, w: int, h: int)
    requires
        0 <= x < w,
        0 <= y < h,
    ensures
        0 <= y * w + x < w * h,
        y * w + x + 1 <= w * h,
{
    assert(0 <= y * w) by (nonlinear_arith)
        requires
            0 <= y,
            0 <= w,
    ;
    assert(y * w + w <= w * h) by (nonlinear_arith)
        requires
            y + 1 <= h,
            0 <= w,
    ;
}

/// A grid known cell by cell is the sequence that lists those cells in
/// row-major order.
pub proof fn lemma_grid_flat(s: Seq<Pixel>, w: int, h: int, f: spec_fn(int, int) -> Pixel)
    requires
        w >= 1,
        h >= 0,
        s.len() == w * h,
        forall|x: int, y: int| 0 <= x < w && 0 <= y < h ==> #[trigger] cell(s, w, x, y) == f(x, y),
    ensures
        s == Seq::new((w * h) as nat, |i: int| f(i % w, i / w)),
{
    assert forall|i: int| 0 <= i < w * h implies s[i] == f(i % w, i / w) by {
        lemma_fundamental_div_mod(i, w);
        lemma_multiply_divide_lt(i, w, h);
        let x = i % w;
        let y = i / w;
        assert(0 <= y) by (nonlinear_arith)
            requires
                i == w * y + x,
                0 <= i,
                x < w,
                w >= 1,
        ;
        assert(y * w + x == i) by (nonlinear_arith)
            requires
                i == w * y + x,
        ;
        assert(cell(s, w, x, y) == f(x, y));
    }
    assert(s =~= Seq::new((w * h) as nat, |i: int| f(i % w, i / w)));
}

} // verus!
