use vstd::prelude::*;
use vstd::arithmetic::div_mod::lemma_mod_add_multiples_vanish;
use crate::levels::{clamp255, lemma_div_negative};
use crate::raster::{Pixel, Raster, RasterImage};

verus! {

/// A brightness, saturation and hue adjustment. Each value is a percentage in
/// `0 ..= 200` with 100 leaving its component as it is; the hue turns by
/// `(hue - 100) * 3.6` degrees.
#[derive(Debug, Clone, Copy, PartialEq, Eq, Structural)]
pub struct Modulate {
    pub brightness: u8,
    pub saturation: u8,
    pub hue: u8,
}

impl Modulate {
    /// Every percentage lies in `0 ..= 200`.
    pub open spec fn wf(self) -> bool {
        self.brightness <= 200 && self.saturation <= 200 && self.hue <= 200
    }
}

/// The largest of three samples.
pub open spec fn max3(r: int, g: int, b: int) -> int {
    if r >= g && r >= b {
        r
    } else if g >= b {
        g
    } else {
        b
    }
}

/// The smallest of three samples.
pub open spec fn min3(r: int, g: int, b: int) -> int {
    if r <= g && r <= b {
        r
    } else if g <= b {
        g
    } else {
        b
    }
}

/// Absolute value.
pub open spec fn abs(x: int) -> int {
    if x < 0 {
        -x
    } else {
        x
    }
}

/// Hue of a colour with chroma `c > 0`, in sixths of a turn scaled by `c`:
/// the hue is `hue_num / c` sectors, in `0 .. 6`.
pub open spec fn hue_num(r: int, g: int, b: int, c: int) -> int {
    if r >= g && r >= b {
        if g >= b {
            g - b
        } else {
            g - b + 6 * c
        }
    } else if g >= b {
        b - r + 2 * c
    } else {
        r - g + 4 * c
    }
}

/// The chroma, second and zero components of a colour in hue sector `s`,
/// placed in red, green, blue order.
pub open spec fn sector_rgb(s: int, c: int, x: int) -> (int, int, int) {
    if s == 0 {
        (c, x, 0)
    } else if s == 1 {
        (x, c, 0)
    } else if s == 2 {
        (0, c, x)
    } else if s == 3 {
        (0, x, c)
    } else if s == 4 {
        (x, 0, c)
    } else {
        (c, 0, x)
    }
}

/// The sample nearest to `n / q`, halves rounded up, clamped to the range.
pub open spec fn round_clamp(n: int, q: int) -> int {
    clamp255((2 * n + q) / (2 * q))
}

/// The hue after turning by `(hue - 100) / 100` of a turn, in sectors scaled
/// by `50 c`, in `0 .. 300 c`.
pub open spec fn turned_hue(r: int, g: int, b: int, c: int, hue: int) -> int {
    (50 * hue_num(r, g, b, c) + 3 * (hue - 100) * c) % (300 * c)
}

/// The weight `1 - |H mod 2 - 1|` of the second component, scaled by `hd`,
/// for hue `hn / hd` sectors.
pub open spec fn second_weight(hn: int, hd: int) -> int {
    hd - abs(hn % (2 * hd) - hd)
}

/// The channels rebuilt from hue `hn / hd` sectors, lightness `lp / 51000`,
/// saturation `sn / sd` and lightness span `dp / 51000`: chroma
/// `dp sn / (200 sd)`, second component chroma times the second weight, and
/// offset `lp / 200 - chroma / 2`, all over the common denominator `q`.
pub open spec fn rebuild(hn: int, hd: int, lp: int, sd: int, sn: int, dp: int) -> (int, int, int) {
    let q = 400 * sd * hd;
    let cn = 2 * dp * sn * hd;
    let xn = 2 * dp * sn * second_weight(hn, hd);
    let mn = 2 * lp * sd * hd - dp * sn * hd;
    let parts = sector_rgb(hn / hd, cn, xn);
    (round_clamp(parts.0 + mn, q), round_clamp(parts.1 + mn, q), round_clamp(parts.2 + mn, q))
}

/// A colour taken to hue, saturation and lightness, adjusted, and taken back.
///
/// Lightness is `(max + min) / 510` and is scaled by `brightness / 100`;
/// saturation is `chroma / (255 - |max + min - 255|)` and is scaled by
/// `saturation / 100`; both are capped at 1. The hue turns by
/// `(hue - 100) / 100` of a full turn. The colour is rebuilt from the new
/// chroma `(1 - |2L - 1|) S`, its second component `chroma (1 - |H mod 2 - 1|)`
/// and the offset `L - chroma / 2`, all exact, and each channel is rounded once.
/// Every quantity is kept as a numerator over a known denominator:
/// `lp / 51000` for lightness and `sn / sd` for saturation.
pub open spec fn modulate_rgb(r: int, g: int, b: int, bri: int, sat: int, hue: int) -> (
    int,
    int,
    int,
) {
    let hi = max3(r, g, b);
    let lo = min3(r, g, b);
    let c = hi - lo;
    let l2 = hi + lo;
    let lp = if l2 * bri > 51000 {
        51000
    } else {
        l2 * bri
    };
    if c == 0 {
        let v = round_clamp(lp, 200);
        (v, v, v)
    } else {
        let sd = 100 * (255 - abs(l2 - 255));
        let sn = if c * sat > sd {
            sd
        } else {
            c * sat
        };
        let dp = 51000 - abs(2 * lp - 51000);
        rebuild(turned_hue(r, g, b, c, hue), 50 * c, lp, sd, sn, dp)
    }
}

/// A pixel with its colour modulated and its alpha kept.
pub open spec fn modulated_pixel(p: Pixel, m: Modulate) -> Pixel {
    let t = modulate_rgb(
        p.r as int,
        p.g as int,
        p.b as int,
        m.brightness as int,
        m.saturation as int,
        m.hue as int,
    );
    Pixel { r: t.0 as u8, g: t.1 as u8, b: t.2 as u8, a: p.a }
}

/// `img` with every pixel modulated by `m`.
pub open spec fn modulate_image(img: Raster, m: Modulate) -> Raster {
    Raster {
        width: img.width,
        height: img.height,
        has_alpha: img.has_alpha,
        pixels: img.pixels.map_values(|p: Pixel| modulated_pixel(p, m)),
    }
}

/// `round_clamp` of a numerator and a positive denominator.
fn round_channel(n: i64, q: i64) -> (r: u8)
    requires
        q > 0,
        -0x1000_0000_0000_0000 <= n <= 0x1000_0000_0000_0000,
        q <= 0x1000_0000_0000_0000,
    ensures
        r == round_clamp(n as int, q as int),
{
    let t: i64 = 2 * n + q;
    if t < 0 {
        proof {
            lemma_div_negative(t as int, 2 * q);
        }
        0
    } else {
        let v: u64 = (t as u64) / (2 * q as u64);
        if v > 255 {
            255
        } else {
            v as u8
        }
    }
}

/// The turned hue of a colour with chroma `c > 0`.
fn turn_hue(r: i64, g: i64, b: i64, c: i64, hue: i64) -> (hn: i64)
    requires
        0 <= r <= 255,
        0 <= g <= 255,
        0 <= b <= 255,
        c == max3(r as int, g as int, b as int) - min3(r as int, g as int, b as int),
        c > 0,
        0 <= hue <= 200,
    ensures
        hn == turned_hue(r as int, g as int, b as int, c as int, hue as int),
        0 <= hn < 300 * c,
{
    let hnum: i64 = if r >= g && r >= b {
        if g >= b {
            g - b
        } else {
            g - b + 6 * c
        }
    } else if g >= b {
        b - r + 2 * c
    } else {
        r - g + 4 * c
    };
    proof {
        assert(0 <= 3 * hue * c <= 153000) by (nonlinear_arith)
            requires
                0 <= c <= 255,
                0 <= hue <= 200,
        ;
    }
    let turned: i64 = 50 * hnum + 3 * hue * c;
    proof {
        let shift = 50 * hnum + 3 * (hue - 100) * c;
        assert(turned == 300 * c + shift) by (nonlinear_arith)
            requires
                turned == 50 * hnum + 3 * hue * c,
                shift == 50 * hnum + 3 * (hue - 100) * c,
        ;
        lemma_mod_add_multiples_vanish(shift, 300 * c);
    }
    ((turned as u64) % ((300 * c) as u64)) as i64
}

/// The channels rebuilt from their hue, lightness and saturation parts.
fn rebuild_channels(hn: i64, hd: i64, lp: i64, sd: i64, sn: i64, dp: i64) -> (r: (u8, u8, u8))
    requires
        50 <= hd <= 12750,
        0 <= hn < 6 * hd,
        0 <= lp <= 51000,
        100 <= sd <= 25500,
        0 <= sn <= sd,
        0 <= dp <= 51000,
    ensures
        r.0 == rebuild(hn as int, hd as int, lp as int, sd as int, sn as int, dp as int).0,
        r.1 == rebuild(hn as int, hd as int, lp as int, sd as int, sn as int, dp as int).1,
        r.2 == rebuild(hn as int, hd as int, lp as int, sd as int, sn as int, dp as int).2,
{
    let sector: i64 = ((hn as u64) / (hd as u64)) as i64;
    let f: i64 = ((hn as u64) % ((2 * hd) as u64)) as i64;
    let xf: i64 = hd - if f >= hd {
        f - hd
    } else {
        hd - f
    };
    proof {
        assert(0 < 400 * sd * hd <= 10200000 * 12750) by (nonlinear_arith)
            requires
                100 <= sd <= 25500,
                50 <= hd <= 12750,
        ;
        assert(0 <= 2 * dp * sn <= 102000 * 25500) by (nonlinear_arith)
            requires
                0 <= dp <= 51000,
                0 <= sn <= 25500,
        ;
        assert(0 <= 2 * dp * sn * hd <= 102000 * 25500 * 12750) by (nonlinear_arith)
            requires
                0 <= 2 * dp * sn <= 102000 * 25500,
                0 <= hd <= 12750,
        ;
        assert(0 <= 2 * dp * sn * xf <= 102000 * 25500 * 12750) by (nonlinear_arith)
            requires
                0 <= 2 * dp * sn <= 102000 * 25500,
                0 <= xf <= 12750,
        ;
        assert(0 <= 2 * lp * sd <= 102000 * 25500) by (nonlinear_arith)
            requires
                0 <= lp <= 51000,
                0 <= sd <= 25500,
        ;
        assert(0 <= 2 * lp * sd * hd <= 102000 * 25500 * 12750) by (nonlinear_arith)
            requires
                0 <= 2 * lp * sd <= 102000 * 25500,
                0 <= hd <= 12750,
        ;
        assert(0 <= dp * sn <= 51000 * 25500) by (nonlinear_arith)
            requires
                0 <= dp <= 51000,
                0 <= sn <= 25500,
        ;
        assert(0 <= dp * sn * hd <= 51000 * 25500 * 12750) by (nonlinear_arith)
            requires
                0 <= dp * sn <= 51000 * 25500,
                0 <= hd <= 12750,
        ;
    }
    let q: i64 = 400 * sd * hd;
    let cn: i64 = 2 * dp * sn * hd;
    let xn: i64 = 2 * dp * sn * xf;
    let mn: i64 = 2 * lp * sd * hd - dp * sn * hd;
    let (pr, pg, pb): (i64, i64, i64) = if sector == 0 {
        (cn, xn, 0)
    } else if sector == 1 {
        (xn, cn, 0)
    } else if sector == 2 {
        (0, cn, xn)
    } else if sector == 3 {
        (0, xn, cn)
    } else if sector == 4 {
        (xn, 0, cn)
    } else {
        (cn, 0, xn)
    };
    (round_channel(pr + mn, q), round_channel(pg + mn, q), round_channel(pb + mn, q))
}

/// Modulates the colour of one pixel; alpha passes through.
pub fn modulate_pixel(p: Pixel, m: Modulate) -> (out: Pixel)
    requires
        m.wf(),
    ensures
        out == modulated_pixel(p, m),
{
    let r: i64 = p.r as i64;
    let g: i64 = p.g as i64;
    let b: i64 = p.b as i64;
    let bri: i64 = m.brightness as i64;
    let sat: i64 = m.saturation as i64;
    let hue: i64 = m.hue as i64;
    let hi: i64 = if r >= g && r >= b {
        r
    } else if g >= b {
        g
    } else {
        b
    };
    let lo: i64 = if r <= g && r <= b {
        r
    } else if g <= b {
        g
    } else {
        b
    };
    let c: i64 = hi - lo;
    let l2: i64 = hi + lo;
    proof {
        assert(0 <= l2 * bri <= 102000) by (nonlinear_arith)
            requires
                0 <= l2 <= 510,
                0 <= bri <= 200,
        ;
        assert(0 <= c * sat <= 51000) by (nonlinear_arith)
            requires
                0 <= c <= 255,
                0 <= sat <= 200,
        ;
    }
    let lp: i64 = if l2 * bri > 51000 {
        51000
    } else {
        l2 * bri
    };
    if c == 0 {
        let v = round_channel(lp, 200);
        return Pixel { r: v, g: v, b: v, a: p.a };
    }
    let sd: i64 = 100 * (255 - if l2 >= 255 {
        l2 - 255
    } else {
        255 - l2
    });
    let sn: i64 = if c * sat > sd {
        sd
    } else {
        c * sat
    };
    let dp: i64 = 51000 - if 2 * lp >= 51000 {
        2 * lp - 51000
    } else {
        51000 - 2 * lp
    };
    let hn = turn_hue(r, g, b, c, hue);
    let (vr, vg, vb) = rebuild_channels(hn, 50 * c, lp, sd, sn, dp);
    Pixel { r: vr, g: vg, b: vb, a: p.a }
}

/// Applies an optional modulation to every pixel. With no modulation the
/// image comes back exactly as it went in.
pub fn apply_modulate(img: RasterImage, modulate: Option<Modulate>) -> (r: RasterImage)
    requires
        modulate matches Some(m) ==> m.wf(),
    ensures
        modulate is None ==> r == img,
        modulate matches Some(m) ==> r@ == modulate_image(img@, m),
        r.width == img.width,
        r.height == img.height,
        r.has_alpha == img.has_alpha,
        r.pixels@.len() == img.pixels@.len(),
        modulate matches Some(m) ==> forall|i: int|
            0 <= i < img.pixels@.len() ==> #[trigger] r.pixels@[i] == modulated_pixel(
                img.pixels@[i],
                m,
            ),
{
    match modulate {
        None => img,
        Some(m) => {
            let mut out: Vec<Pixel> = Vec::new();
            let mut i: usize = 0;
            while i < img.pixels.len()
                invariant
                    m.wf(),
                    i <= img.pixels@.len(),
                    out@.len() == i,
                    forall|j: int|
                        0 <= j < i ==> #[trigger] out@[j] == modulated_pixel(img.pixels@[j], m),
                decreases img.pixels@.len() - i,
            {
                out.push(modulate_pixel(img.pixels[i], m));
                i = i + 1;
            }
            proof {
                assert(out@ =~= modulate_image(img@, m).pixels);
            }
            RasterImage { width: img.width, height: img.height, has_alpha: img.has_alpha, pixels: out }
        },
    }
}

} // verus!
