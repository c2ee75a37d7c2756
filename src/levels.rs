use vstd::prelude::*;
use vstd::arithmetic::div_mod::lemma_fundamental_div_mod;
use crate::raster::{Pixel, Raster, RasterImage};

verus! {

/// A linear levels remap: the black and white points as percentages of the
/// sample range.
#[derive(Debug, Clone, Copy, PartialEq, Eq, Structural)]
pub struct Levels {
    pub black: u8,
    pub white: u8,
}

impl Levels {
    /// Both points lie in `0 ..= 100`.
    pub open spec fn wf(self) -> bool {
        self.black <= 100 && self.white <= 100
    }
}

/// `x` clamped into the sample range.
pub open spec fn clamp255(x: int) -> int {
    if x < 0 {
        0
    } else if x > 255 {
        255
    } else {
        x
    }
}

/// Sample `v` remapped so that `black` percent of the range goes to 0 and
/// `white` percent goes to 255: `(v - black) / (white - black) * 255` with the
/// points scaled to `0 ..= 255`, rounded half up and clamped. Equal points
/// send everything at or above them to 255 and the rest to 0.
pub open spec fn level_value(v: int, black: int, white: int) -> int {
    let num = 100 * v - 255 * black;
    let den = white - black;
    if den == 0 {
        if num >= 0 {
            255
        } else {
            0
        }
    } else {
        let n = if den > 0 {
            num
        } else {
            -num
        };
        let d = if den > 0 {
            den
        } else {
            -den
        };
        clamp255((2 * n + d) / (2 * d))
    }
}

/// A pixel with its colour channels remapped and its alpha kept.
pub open spec fn level_pixel(p: Pixel, black: int, white: int) -> Pixel {
    Pixel {
        r: level_value(p.r as int, black, white) as u8,
        g: level_value(p.g as int, black, white) as u8,
        b: level_value(p.b as int, black, white) as u8,
        a: p.a,
    }
}

/// `img` with every pixel remapped through the levels curve `l`.
pub open spec fn levels_image(img: Raster, l: Levels) -> Raster {
    Raster {
        width: img.width,
        height: img.height,
        has_alpha: img.has_alpha,
        pixels: img.pixels.map_values(|p: Pixel| level_pixel(p, l.black as int, l.white as int)),
    }
}

/// `a * d <= x` gives `a <= x / d`.
pub(crate) proof fn lemma_div_at_least(x: int, d: int, a: int)
    requires
        d > 0,
        a * d <= x,
    ensures
        a <= x / d,
{
    lemma_fundamental_div_mod(x, d);
    assert(a <= x / d) by (nonlinear_arith)
        requires
            d > 0,
            a * d <= x,
            x == d * (x / d) + x % d,
            x % d < d,
    ;
}

/// A negative numerator over a positive denominator rounds to a negative value.
pub(crate) proof fn lemma_div_negative(x: int, d: int)
    requires
        d > 0,
        x < 0,
    ensures
        x / d < 0,
{
    lemma_fundamental_div_mod(x, d);
    assert(x / d < 0) by (nonlinear_arith)
        requires
            d > 0,
            x < 0,
            x == d * (x / d) + x % d,
            0 <= x % d,
    ;
}

/// Rounding half up keeps the order of two fractions.
proof fn lemma_round_monotone(n1: int, d1: int, n2: int, d2: int)
    requires
        d1 > 0,
        d2 > 0,
        n1 * d2 >= n2 * d1,
    ensures
        (2 * n1 + d1) / (2 * d1) >= (2 * n2 + d2) / (2 * d2),
{
    let q2 = (2 * n2 + d2) / (2 * d2);
    lemma_fundamental_div_mod(2 * n2 + d2, 2 * d2);
    assert(q2 * (2 * d1) <= 2 * n1 + d1) by (nonlinear_arith)
        requires
            d1 > 0,
            d2 > 0,
            n1 * d2 >= n2 * d1,
            2 * n2 + d2 == (2 * d2) * q2 + (2 * n2 + d2) % (2 * d2),
            0 <= (2 * n2 + d2) % (2 * d2),
    ;
    lemma_div_at_least(2 * n1 + d1, 2 * d1, q2);
}

/// A fraction of at least 255 rounds to at least 255.
proof fn lemma_round_saturates(n: int, d: int)
    requires
        d > 0,
        n >= 255 * d,
    ensures
        (2 * n + d) / (2 * d) >= 255,
{
    lemma_div_at_least(2 * n + d, 2 * d, 255);
}

/// Raising the black point, with the white point fixed and not below it,
/// never raises an output sample.
pub proof fn lemma_levels_monotone(v: u8, black1: u8, black2: u8, white: u8)
    requires
        black1 <= black2 <= white <= 100,
    ensures
        level_value(v as int, black2 as int, white as int) <= level_value(
            v as int,
            black1 as int,
            white as int,
        ),
{
    let a = 100 * (v as int);
    let w = white as int;
    let b1 = black1 as int;
    let b2 = black2 as int;
    if b1 == b2 {
        return;
    }
    let n1 = a - 255 * b1;
    let d1 = w - b1;
    if a >= 255 * w {
        assert(n1 >= 255 * d1);
        lemma_round_saturates(n1, d1);
        if b2 < w {
            lemma_round_saturates(a - 255 * b2, w - b2);
        }
    } else if b2 == w {
        assert(level_value(v as int, b2, w) == 0);
    } else {
        let n2 = a - 255 * b2;
        let d2 = w - b2;
        assert(n1 * d2 - n2 * d1 == (b2 - b1) * (255 * w - a)) by (nonlinear_arith)
            requires
                n1 == a - 255 * b1,
                n2 == a - 255 * b2,
                d1 == w - b1,
                d2 == w - b2,
        ;
        assert((b2 - b1) * (255 * w - a) >= 0) by (nonlinear_arith)
            requires
                b2 > b1,
                255 * w > a,
        ;
        lemma_round_monotone(n1, d1, n2, d2);
    }
}

/// Remaps one sample through a levels curve.
pub fn level_sample(v: u8, black: u8, white: u8) -> (r: u8)
    requires
        black <= 100,
        white <= 100,
    ensures
        r == level_value(v as int, black as int, white as int),
{
    let num: i64 = 100 * (v as i64) - 255 * (black as i64);
    let den: i64 = (white as i64) - (black as i64);
    if den == 0 {
        if num >= 0 {
            255
        } else {
            0
        }
    } else {
        let n: i64 = if den > 0 {
            num
        } else {
            -num
        };
        let d: i64 = if den > 0 {
            den
        } else {
            -den
        };
        let t: i64 = 2 * n + d;
        if t < 0 {
            proof {
                lemma_div_negative(t as int, 2 * d);
            }
            0
        } else {
            let q: u64 = (t as u64) / (2 * d as u64);
            if q > 255 {
                255
            } else {
                q as u8
            }
        }
    }
}

/// Applies an optional levels remap to the colour channels of every pixel.
/// With no remap the image comes back exactly as it went in.
pub fn apply_levels(img: RasterImage, levels: Option<Levels>) -> (r: RasterImage)
    requires
        levels matches Some(l) ==> l.wf(),
    ensures
        levels is None ==> r == img,
        levels matches Some(l) ==> r@ == levels_image(img@, l),
        r.width == img.width,
        r.height == img.height,
        r.has_alpha == img.has_alpha,
        r.pixels@.len() == img.pixels@.len(),
        levels matches Some(l) ==> forall|i: int|
            0 <= i < img.pixels@.len() ==> #[trigger] r.pixels@[i] == level_pixel(
                img.pixels@[i],
                l.black as int,
                l.white as int,
            ),
{
    match levels {
        None => img,
        Some(l) => {
            let mut out: Vec<Pixel> = Vec::new();
            let mut i: usize = 0;
            while i < img.pixels.len()
                invariant
                    l.wf(),
                    i <= img.pixels@.len(),
                    out@.len() == i,
                    forall|j: int|
                        0 <= j < i ==> #[trigger] out@[j] == level_pixel(
                            img.pixels@[j],
                            l.black as int,
                            l.white as int,
                        ),
                decreases img.pixels@.len() - i,
            {
                let p = img.pixels[i];
                out.push(
                    Pixel {
                        r: level_sample(p.r, l.black, l.white),
                        g: level_sample(p.g, l.black, l.white),
                        b: level_sample(p.b, l.black, l.white),
                        a: p.a,
                    },
                );
                i = i + 1;
            }
            proof {
                assert(out@ =~= levels_image(img@, l).pixels);
            }
            RasterImage { width: img.width, height: img.height, has_alpha: img.has_alpha, pixels: out }
        },
    }
}

} // verus!
