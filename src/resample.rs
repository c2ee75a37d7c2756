use vstd::prelude::*;
use vstd::arithmetic::div_mod::{
    lemma_fundamental_div_mod,
    lemma_hoist_over_denominator,
    lemma_multiply_divide_lt,
};
use crate::raster::{
    Pixel,
    Raster,
    RasterImage,
    cell,
    chan,
    lemma_cell_index,
    lemma_grid_flat,
    lemma_wide_product,
};

verus! {

/// One side of an image shrunk by `pixelize` percent: the exact length rounded
/// half up, and never less than one.
pub open spec fn shrunk_dim(src: int, pixelize: int) -> int {
    let t = (src * (100 - pixelize) + 50) / 100;
    if t < 1 {
        1
    } else {
        t
    }
}

/// First source index covered by output index `o` when `src` cells are
/// spread over `dst`.
pub open spec fn span_lo(o: int, src: int, dst: int) -> int {
    o * src / dst
}

/// One past the last source index covered by output index `o`.
pub open spec fn span_hi(o: int, src: int, dst: int) -> int {
    ((o + 1) * src + dst - 1) / dst
}

/// Sum of channel `c` over columns `x0 .. x1` of row `y`.
pub open spec fn row_sum(px: Seq<Pixel>, w: int, y: int, x0: int, x1: int, c: int) -> int
    decreases x1 - x0,
{
    if x1 <= x0 {
        0
    } else {
        row_sum(px, w, y, x0, x1 - 1, c) + chan(cell(px, w, x1 - 1, y), c)
    }
}

/// Sum of channel `c` over the box of columns `x0 .. x1` and rows `y0 .. y1`.
pub open spec fn box_sum(px: Seq<Pixel>, w: int, x0: int, x1: int, y0: int, y1: int, c: int) -> int
    decreases y1 - y0,
{
    if y1 <= y0 {
        0
    } else {
        box_sum(px, w, x0, x1, y0, y1 - 1, c) + row_sum(px, w, y1 - 1, x0, x1, c)
    }
}

/// Mean of channel `c` over a non-empty box, rounded half up.
pub open spec fn box_mean(px: Seq<Pixel>, w: int, x0: int, x1: int, y0: int, y1: int, c: int) -> int {
    let n = (x1 - x0) * (y1 - y0);
    (box_sum(px, w, x0, x1, y0, y1, c) + n / 2) / n
}

/// The pixel whose every channel is the box's mean.
pub open spec fn box_pixel(px: Seq<Pixel>, w: int, x0: int, x1: int, y0: int, y1: int) -> Pixel {
    Pixel {
        r: box_mean(px, w, x0, x1, y0, y1, 0) as u8,
        g: box_mean(px, w, x0, x1, y0, y1, 1) as u8,
        b: box_mean(px, w, x0, x1, y0, y1, 2) as u8,
        a: box_mean(px, w, x0, x1, y0, y1, 3) as u8,
    }
}

/// Output pixel `(ox, oy)` of an area resample of `img` to `tw` by `th`:
/// the mean of the source pixels whose footprint it covers.
pub open spec fn area_pixel(img: Raster, tw: int, th: int, ox: int, oy: int) -> Pixel {
    box_pixel(
        img.pixels,
        img.width,
        span_lo(ox, img.width, tw),
        span_hi(ox, img.width, tw),
        span_lo(oy, img.height, th),
        span_hi(oy, img.height, th),
    )
}

/// `img` resampled to `tw` by `th` with a box filter.
pub open spec fn area_resample(img: Raster, tw: int, th: int) -> Raster {
    Raster {
        width: tw,
        height: th,
        has_alpha: img.has_alpha,
        pixels: Seq::new((tw * th) as nat, |i: int| area_pixel(img, tw, th, i % tw, i / tw)),
    }
}

/// Source index whose centre lies nearest to the centre of output index `o`.
pub open spec fn nearest_src(o: int, src: int, dst: int) -> int {
    (2 * o + 1) * src / (2 * dst)
}

/// Output pixel `(ox, oy)` of a nearest-neighbour resample of `img` to `tw` by `th`.
pub open spec fn nearest_pixel(img: Raster, tw: int, th: int, ox: int, oy: int) -> Pixel {
    img.at(nearest_src(ox, img.width, tw), nearest_src(oy, img.height, th))
}

/// `img` resampled to `tw` by `th` by nearest neighbour.
pub open spec fn nearest_resample(img: Raster, tw: int, th: int) -> Raster {
    Raster {
        width: tw,
        height: th,
        has_alpha: img.has_alpha,
        pixels: Seq::new((tw * th) as nat, |i: int| nearest_pixel(img, tw, th, i % tw, i / tw)),
    }
}

proof fn lemma_span(o: int, src: int, dst: int)
    requires
        0 <= o < dst,
        1 <= src,
    ensures
        0 <= span_lo(o, src, dst) < span_hi(o, src, dst) <= src,
{
    let a = o * src;
    let b = (o + 1) * src + dst - 1;
    let lo = a / dst;
    let hi = b / dst;
    lemma_fundamental_div_mod(a, dst);
    lemma_fundamental_div_mod(b, dst);
    assert(0 <= a && a + src == (o + 1) * src && (o + 1) * src <= dst * src) by (nonlinear_arith)
        requires
            0 <= o < dst,
            1 <= src,
            a == o * src,
    ;
    assert(0 <= a % dst < dst);
    assert(0 <= b % dst < dst);
    assert(0 <= lo) by (nonlinear_arith)
        requires
            a == dst * lo + a % dst,
            0 <= a,
            a % dst < dst,
            0 < dst,
    ;
    assert(lo < hi) by (nonlinear_arith)
        requires
            a == dst * lo + a % dst,
            b == dst * hi + b % dst,
            0 <= a % dst,
            b % dst < dst,
            b >= a + dst,
            0 < dst,
    ;
    assert(b < dst * (src + 1)) by (nonlinear_arith)
        requires
            b == (o + 1) * src + dst - 1,
            (o + 1) * src <= dst * src,
    ;
    lemma_multiply_divide_lt(b, dst, src + 1);
}

pub(crate) proof fn lemma_nearest(o: int, src: int, dst: int)
    requires
        0 <= o < dst,
        1 <= src,
    ensures
        0 <= nearest_src(o, src, dst) < src,
{
    let a = (2 * o + 1) * src;
    assert(0 <= a < (2 * dst) * src) by (nonlinear_arith)
        requires
            0 <= o < dst,
            1 <= src,
            a == (2 * o + 1) * src,
    ;
    lemma_multiply_divide_lt(a, 2 * dst, src);
    lemma_fundamental_div_mod(a, 2 * dst);
    assert(0 <= a / (2 * dst)) by (nonlinear_arith)
        requires
            a == (2 * dst) * (a / (2 * dst)) + a % (2 * dst),
            0 <= a,
            a % (2 * dst) < 2 * dst,
            0 < dst,
    ;
}

proof fn lemma_row_sum_bound(px: Seq<Pixel>, w: int, y: int, x0: int, x1: int, c: int)
    requires
        x0 <= x1,
    ensures
        0 <= row_sum(px, w, y, x0, x1, c) <= 255 * (x1 - x0),
    decreases x1 - x0,
{
    if x1 > x0 {
        lemma_row_sum_bound(px, w, y, x0, x1 - 1, c);
    }
}

proof fn lemma_box_sum_bound(px: Seq<Pixel>, w: int, x0: int, x1: int, y0: int, y1: int, c: int)
    requires
        x0 <= x1,
        y0 <= y1,
    ensures
        0 <= box_sum(px, w, x0, x1, y0, y1, c) <= 255 * ((x1 - x0) * (y1 - y0)),
    decreases y1 - y0,
{
    if y1 > y0 {
        lemma_box_sum_bound(px, w, x0, x1, y0, y1 - 1, c);
        lemma_row_sum_bound(px, w, y1 - 1, x0, x1, c);
        assert((x1 - x0) * (y1 - 1 - y0) + (x1 - x0) == (x1 - x0) * (y1 - y0)) by (nonlinear_arith);
    }
}

/// A mean of `n` samples, each at most 255, is at most 255.
proof fn lemma_mean_bound(s: int, n: int)
    requires
        n >= 1,
        0 <= s <= 255 * n,
    ensures
        0 <= (s + n / 2) / n <= 255,
{
    lemma_multiply_divide_lt(s + n / 2, n, 256);
    lemma_fundamental_div_mod(s + n / 2, n);
    assert(0 <= (s + n / 2) / n) by (nonlinear_arith)
        requires
            s + n / 2 == n * ((s + n / 2) / n) + (s + n / 2) % n,
            0 <= s + n / 2,
            (s + n / 2) % n < n,
            n >= 1,
    ;
}

/// Box counts while walking a box row by row stay below the grid's size.
proof fn lemma_partial_count(x0: int, x: int, x1: int, y0: int, y: int, w: int, h: int)
    requires
        0 <= x0 <= x < x1 <= w,
        0 <= y0 <= y < h,
    ensures
        (x1 - x0) * (y - y0) + (x - x0) < w * h,
        0 <= (x1 - x0) * (y - y0),
{
    assert((x1 - x0) * (y - y0) + (x - x0) < w * h && 0 <= (x1 - x0) * (y - y0)) by (nonlinear_arith)
        requires
            0 <= x0 <= x < x1 <= w,
            0 <= y0 <= y < h,
    ;
}

/// Shrinks one side of an image by `pixelize` percent, rounding half up and
/// never going below one.
pub fn shrink_dimension(src: usize, pixelize: u8) -> (r: usize)
    requires
        pixelize <= 99,
    ensures
        r == shrunk_dim(src as int, pixelize as int),
        1 <= r,
        src >= 1 ==> r <= src,
{
    proof {
        assert((src as int) * (100 - pixelize) <= 100 * 0xFFFF_FFFF_FFFF_FFFFint) by (nonlinear_arith)
            requires
                0 <= src <= 0xFFFF_FFFF_FFFF_FFFFint,
                0 <= 100 - pixelize <= 100,
        ;
    }
    let t: u128 = ((src as u128) * ((100 - pixelize) as u128) + 50) / 100;
    proof {
        let a = (src as int) * (100 - pixelize) + 50;
        assert(a < 100 * (src + 1)) by (nonlinear_arith)
            requires
                a == (src as int) * (100 - pixelize) + 50,
                0 <= src,
                pixelize >= 0,
        ;
        lemma_multiply_divide_lt(a, 100, src + 1);
    }
    if t < 1 {
        1
    } else {
        t as usize
    }
}

/// Mean pixel of the source box `x0 .. x1` by `y0 .. y1`.
fn box_mean_pixel(img: &RasterImage, x0: usize, x1: usize, y0: usize, y1: usize) -> (p: Pixel)
    requires
        img.wf(),
        x0 < x1 <= img.width,
        y0 < y1 <= img.height,
    ensures
        p == box_pixel(img.pixels@, img.width as int, x0 as int, x1 as int, y0 as int, y1 as int),
{
    let w = img.width;
    let len = img.pixels.len();
    let ghost px = img.pixels@;
    let mut sr: u128 = 0;
    let mut sg: u128 = 0;
    let mut sb: u128 = 0;
    let mut sa: u128 = 0;
    let mut y: usize = y0;
    while y < y1
        invariant
            img.wf(),
            w == img.width,
            px == img.pixels@,
            len == px.len(),
            x0 < x1 <= w,
            y0 <= y <= y1 <= img.height,
            sr == box_sum(px, w as int, x0 as int, x1 as int, y0 as int, y as int, 0),
            sg == box_sum(px, w as int, x0 as int, x1 as int, y0 as int, y as int, 1),
            sb == box_sum(px, w as int, x0 as int, x1 as int, y0 as int, y as int, 2),
            sa == box_sum(px, w as int, x0 as int, x1 as int, y0 as int, y as int, 3),
        decreases y1 - y,
    {
        let mut x: usize = x0;
        while x < x1
            invariant
                img.wf(),
                w == img.width,
                px == img.pixels@,
                len == px.len(),
                x0 <= x <= x1 <= w,
                y0 <= y < y1 <= img.height,
                sr == box_sum(px, w as int, x0 as int, x1 as int, y0 as int, y as int, 0) + row_sum(
                    px,
                    w as int,
                    y as int,
                    x0 as int,
                    x as int,
                    0,
                ),
                sg == box_sum(px, w as int, x0 as int, x1 as int, y0 as int, y as int, 1) + row_sum(
                    px,
                    w as int,
                    y as int,
                    x0 as int,
                    x as int,
                    1,
                ),
                sb == box_sum(px, w as int, x0 as int, x1 as int, y0 as int, y as int, 2) + row_sum(
                    px,
                    w as int,
                    y as int,
                    x0 as int,
                    x as int,
                    2,
                ),
                sa == box_sum(px, w as int, x0 as int, x1 as int, y0 as int, y as int, 3) + row_sum(
                    px,
                    w as int,
                    y as int,
                    x0 as int,
                    x as int,
                    3,
                ),
            decreases x1 - x,
        {
            proof {
                lemma_cell_index(x as int, y as int, w as int, img.height as int);
                lemma_partial_count(
                    x0 as int,
                    x as int,
                    x1 as int,
                    y0 as int,
                    y as int,
                    w as int,
                    img.height as int,
                );
                let k = (x1 - x0) * (y - y0) + (x - x0);
                assert forall|c: int| 0 <= c < 4 implies box_sum(
                    px,
                    w as int,
                    x0 as int,
                    x1 as int,
                    y0 as int,
                    y as int,
                    c,
                ) + row_sum(px, w as int, y as int, x0 as int, x as int, c) <= 255 * k by {
                    lemma_box_sum_bound(px, w as int, x0 as int, x1 as int, y0 as int, y as int, c);
                    lemma_row_sum_bound(px, w as int, y as int, x0 as int, x as int, c);
                }
                assert(255 * k <= 255 * 0xFFFF_FFFF_FFFF_FFFFint);
            }
            let p = img.pixels[y * w + x];
            sr = sr + p.r as u128;
            sg = sg + p.g as u128;
            sb = sb + p.b as u128;
            sa = sa + p.a as u128;
            x = x + 1;
        }
        y = y + 1;
    }
    proof {
        lemma_cell_index(x1 as int - 1, y1 as int - 1, w as int, img.height as int);
        lemma_partial_count(
            x0 as int,
            x1 as int - 1,
            x1 as int,
            y0 as int,
            y1 as int - 1,
            w as int,
            img.height as int,
        );
        assert((x1 - x0) * (y1 - 1 - y0) + (x1 - 1 - x0) + 1 == (x1 - x0) * (y1 - y0)) by (nonlinear_arith);
        assert((x1 - x0) * (y1 - y0) >= 1) by (nonlinear_arith)
            requires
                x0 < x1,
                y0 < y1,
        ;
        lemma_wide_product((x1 - x0) as int, (y1 - y0) as int);
    }
    let n: u128 = ((x1 - x0) as u128) * ((y1 - y0) as u128);
    proof {
        let ni = n as int;
        lemma_box_sum_bound(px, w as int, x0 as int, x1 as int, y0 as int, y1 as int, 0);
        lemma_box_sum_bound(px, w as int, x0 as int, x1 as int, y0 as int, y1 as int, 1);
        lemma_box_sum_bound(px, w as int, x0 as int, x1 as int, y0 as int, y1 as int, 2);
        lemma_box_sum_bound(px, w as int, x0 as int, x1 as int, y0 as int, y1 as int, 3);
        lemma_mean_bound(sr as int, ni);
        lemma_mean_bound(sg as int, ni);
        lemma_mean_bound(sb as int, ni);
        lemma_mean_bound(sa as int, ni);
    }
    Pixel {
        r: ((sr + n / 2) / n) as u8,
        g: ((sg + n / 2) / n) as u8,
        b: ((sb + n / 2) / n) as u8,
        a: ((sa + n / 2) / n) as u8,
    }
}

/// The source span `span_lo .. span_hi` covered by output index `o`.
fn span(o: usize, src: usize, dst: usize) -> (r: (usize, usize))
    requires
        o < dst,
        1 <= src,
    ensures
        r.0 == span_lo(o as int, src as int, dst as int),
        r.1 == span_hi(o as int, src as int, dst as int),
        r.0 < r.1 <= src,
{
    proof {
        lemma_span(o as int, src as int, dst as int);
        lemma_wide_product(o as int, src as int);
        assert((o + 1) * src + dst <= u128::MAX) by (nonlinear_arith)
            requires
                o < dst <= 0xFFFF_FFFF_FFFF_FFFFint,
                src <= 0xFFFF_FFFF_FFFF_FFFFint,
        ;
    }
    let lo = (o as u128) * (src as u128) / (dst as u128);
    let hi = ((o as u128 + 1) * (src as u128) + (dst as u128) - 1) / (dst as u128);
    (lo as usize, hi as usize)
}

/// The source index nearest to output index `o`.
fn nearest_index(o: usize, src: usize, dst: usize) -> (r: usize)
    requires
        o < dst,
        1 <= src,
    ensures
        r == nearest_src(o as int, src as int, dst as int),
        r < src,
{
    proof {
        lemma_nearest(o as int, src as int, dst as int);
        lemma_wide_product(o as int, src as int);
    }
    let a: u128 = (o as u128) * (src as u128);
    let q: u128 = a / (dst as u128);
    let rem: u128 = a % (dst as u128);
    proof {
        lemma_fundamental_div_mod(a as int, dst as int);
        lemma_hoist_over_denominator(2 * rem + src, q as int, (2 * dst) as nat);
        assert(2 * rem + src + q * (2 * dst) == (2 * o + 1) * src) by (nonlinear_arith)
            requires
                a == o * src,
                a == dst * q + rem,
        ;
    }
    (q + (2 * rem + src as u128) / (2 * (dst as u128))) as usize
}

/// Resamples `img` to `tw` by `th` with a box filter: each output pixel is the
/// rounded mean, channel by channel, of the source pixels under its footprint.
pub fn resample_area(img: &RasterImage, tw: usize, th: usize) -> (r: RasterImage)
    requires
        img.wf(),
        tw >= 1,
        th >= 1,
        tw * th <= usize::MAX,
    ensures
        r.wf(),
        r.width == tw,
        r.height == th,
        r.has_alpha == img.has_alpha,
        r@ == area_resample(img@, tw as int, th as int),
        forall|x: int, y: int|
            0 <= x < tw && 0 <= y < th ==> #[trigger] r.at(x, y) == area_pixel(
                img@,
                tw as int,
                th as int,
                x,
                y,
            ),
{
    let mut out: Vec<Pixel> = Vec::new();
    let mut oy: usize = 0;
    while oy < th
        invariant
            img.wf(),
            1 <= tw,
            oy <= th,
            tw * th <= usize::MAX,
            out@.len() == oy * tw,
            forall|x: int, y: int|
                0 <= x < tw && 0 <= y < oy ==> #[trigger] cell(out@, tw as int, x, y) == area_pixel(
                    img@,
                    tw as int,
                    th as int,
                    x,
                    y,
                ),
        decreases th - oy,
    {
        let (y0, y1) = span(oy, img.height, th);
        let mut ox: usize = 0;
        while ox < tw
            invariant
                img.wf(),
                1 <= tw,
                oy < th,
                ox <= tw,
                tw * th <= usize::MAX,
                y0 == span_lo(oy as int, img.height as int, th as int),
                y1 == span_hi(oy as int, img.height as int, th as int),
                y0 < y1 <= img.height,
                out@.len() == oy * tw + ox,
                forall|x: int, y: int|
                    (0 <= x < tw && 0 <= y < oy) || (y == oy && 0 <= x < ox)
                        ==> #[trigger] cell(out@, tw as int, x, y) == area_pixel(
                        img@,
                        tw as int,
                        th as int,
                        x,
                        y,
                    ),
            decreases tw - ox,
        {
            let (x0, x1) = span(ox, img.width, tw);
            let p = box_mean_pixel(img, x0, x1, y0, y1);
            let ghost before = out@;
            proof {
                lemma_cell_index(ox as int, oy as int, tw as int, th as int);
            }
            out.push(p);
            proof {
                assert forall|x: int, y: int|
                    (0 <= x < tw && 0 <= y < oy) || (y == oy && 0 <= x <= ox) implies #[trigger] cell(
                    out@,
                    tw as int,
                    x,
                    y,
                ) == area_pixel(img@, tw as int, th as int, x, y) by {
                    if y < oy {
                        lemma_cell_index(x, y, tw as int, oy as int);
                        assert(tw * oy == oy * tw) by (nonlinear_arith);
                        assert(cell(out@, tw as int, x, y) == cell(before, tw as int, x, y));
                    } else if x < ox {
                        lemma_cell_index(x, y, tw as int, th as int);
                        assert(cell(out@, tw as int, x, y) == cell(before, tw as int, x, y));
                    }
                }
            }
            ox = ox + 1;
        }
        proof {
            assert(oy * tw + tw == (oy + 1) * tw) by (nonlinear_arith);
        }
        oy = oy + 1;
    }
    proof {
        assert(th * tw == tw * th) by (nonlinear_arith);
        let ghost f = |x: int, y: int| area_pixel(img@, tw as int, th as int, x, y);
        lemma_grid_flat(out@, tw as int, th as int, f);
        assert(out@ =~= area_resample(img@, tw as int, th as int).pixels);
    }
    RasterImage { width: tw, height: th, has_alpha: img.has_alpha, pixels: out }
}

/// Resamples `img` to `tw` by `th` by copying, for each output pixel, the
/// source pixel whose centre lies nearest to its own.
pub fn resample_nearest(img: &RasterImage, tw: usize, th: usize) -> (r: RasterImage)
    requires
        img.wf(),
        tw >= 1,
        th >= 1,
        tw * th <= usize::MAX,
    ensures
        r.wf(),
        r.width == tw,
        r.height == th,
        r.has_alpha == img.has_alpha,
        r@ == nearest_resample(img@, tw as int, th as int),
        forall|x: int, y: int|
            0 <= x < tw && 0 <= y < th ==> #[trigger] r.at(x, y) == nearest_pixel(
                img@,
                tw as int,
                th as int,
                x,
                y,
            ),
{
    let w = img.width;
    let len = img.pixels.len();
    let mut out: Vec<Pixel> = Vec::new();
    let mut oy: usize = 0;
    while oy < th
        invariant
            img.wf(),
            w == img.width,
            len == img.pixels@.len(),
            1 <= tw,
            oy <= th,
            tw * th <= usize::MAX,
            out@.len() == oy * tw,
            forall|x: int, y: int|
                0 <= x < tw && 0 <= y < oy ==> #[trigger] cell(out@, tw as int, x, y)
                    == nearest_pixel(img@, tw as int, th as int, x, y),
        decreases th - oy,
    {
        let sy = nearest_index(oy, img.height, th);
        let mut ox: usize = 0;
        while ox < tw
            invariant
                img.wf(),
                w == img.width,
                len == img.pixels@.len(),
                1 <= tw,
                oy < th,
                ox <= tw,
                tw * th <= usize::MAX,
                sy == nearest_src(oy as int, img.height as int, th as int),
                sy < img.height,
                out@.len() == oy * tw + ox,
                forall|x: int, y: int|
                    (0 <= x < tw && 0 <= y < oy) || (y == oy && 0 <= x < ox)
                        ==> #[trigger] cell(out@, tw as int, x, y) == nearest_pixel(
                        img@,
                        tw as int,
                        th as int,
                        x,
                        y,
                    ),
            decreases tw - ox,
        {
            let sx = nearest_index(ox, w, tw);
            proof {
                lemma_cell_index(sx as int, sy as int, w as int, img.height as int);
                lemma_cell_index(ox as int, oy as int, tw as int, th as int);
            }
            let p = img.pixels[sy * w + sx];
            let ghost before = out@;
            out.push(p);
            proof {
                assert forall|x: int, y: int|
                    (0 <= x < tw && 0 <= y < oy) || (y == oy && 0 <= x <= ox) implies #[trigger] cell(
                    out@,
                    tw as int,
                    x,
                    y,
                ) == nearest_pixel(img@, tw as int, th as int, x, y) by {
                    if y < oy {
                        lemma_cell_index(x, y, tw as int, oy as int);
                        assert(tw * oy == oy * tw) by (nonlinear_arith);
                        assert(cell(out@, tw as int, x, y) == cell(before, tw as int, x, y));
                    } else if x < ox {
                        lemma_cell_index(x, y, tw as int, th as int);
                        assert(cell(out@, tw as int, x, y) == cell(before, tw as int, x, y));
                    }
                }
            }
            ox = ox + 1;
        }
        proof {
            assert(oy * tw + tw == (oy + 1) * tw) by (nonlinear_arith);
        }
        oy = oy + 1;
    }
    proof {
        assert(th * tw == tw * th) by (nonlinear_arith);
        let ghost f = |x: int, y: int| nearest_pixel(img@, tw as int, th as int, x, y);
        lemma_grid_flat(out@, tw as int, th as int, f);
        assert(out@ =~= nearest_resample(img@, tw as int, th as int).pixels);
    }
    RasterImage { width: tw, height: th, has_alpha: img.has_alpha, pixels: out }
}

/// The two resampling filters.
#[derive(Debug, Clone, Copy, PartialEq, Eq, Structural)]
pub enum ResampleMode {
    /// Box filter: each output pixel averages the source pixels it covers.
    Area,
    /// Each output pixel copies the nearest source pixel.
    NearestNeighbor,
}

/// `img` resampled to `tw` by `th` with the filter `mode`.
pub open spec fn resampled(img: Raster, tw: int, th: int, mode: ResampleMode) -> Raster {
    match mode {
        ResampleMode::Area => area_resample(img, tw, th),
        ResampleMode::NearestNeighbor => nearest_resample(img, tw, th),
    }
}

/// Resamples `img` to `tw` by `th` with the filter `mode`.
pub fn resample(img: &RasterImage, tw: usize, th: usize, mode: ResampleMode) -> (r: RasterImage)
    requires
        img.wf(),
        tw >= 1,
        th >= 1,
        tw * th <= usize::MAX,
    ensures
        r.wf(),
        r@ == resampled(img@, tw as int, th as int, mode),
{
    match mode {
        ResampleMode::Area => resample_area(img, tw, th),
        ResampleMode::NearestNeighbor => resample_nearest(img, tw, th),
    }
}

} // verus!
