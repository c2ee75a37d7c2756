use vstd::prelude::*;
use vstd::arithmetic::div_mod::lemma_multiply_divide_lt;
use vstd::set_lib::lemma_len_subset;
use crate::raster::{Pixel, Raster, RasterImage, chan, colours, rgb};

verus! {

/// Rounds a clustering may take before it stops regardless.
pub const MAX_ROUNDS: usize = 100;

/// A cluster centre in fixed point: each channel holds 256 times a sample value.
#[derive(Debug, Clone, Copy, PartialEq, Eq, Structural)]
pub struct Centroid {
    pub r: u32,
    pub g: u32,
    pub b: u32,
}

/// Every channel of every centre lies in the sample range.
pub open spec fn centroids_wf(cs: Seq<Centroid>) -> bool {
    forall|j: int|
        0 <= j < cs.len() ==> (#[trigger] cs[j]).r <= 65280 && cs[j].g <= 65280 && cs[j].b
            <= 65280
}

/// Squared Euclidean distance from a pixel's colour to a centre, in fixed point.
pub open spec fn dist2(p: Pixel, c: Centroid) -> int {
    let dr = 256 * (p.r as int) - c.r as int;
    let dg = 256 * (p.g as int) - c.g as int;
    let db = 256 * (p.b as int) - c.b as int;
    dr * dr + dg * dg + db * db
}

/// Index of the centre among the first `n` that lies nearest to `p`; the
/// lowest index wins a tie.
pub open spec fn nearest_upto(cs: Seq<Centroid>, p: Pixel, n: int) -> int
    decreases n,
{
    if n <= 1 {
        0
    } else {
        let j = nearest_upto(cs, p, n - 1);
        if dist2(p, cs[n - 1]) < dist2(p, cs[j]) {
            n - 1
        } else {
            j
        }
    }
}

/// Index of the centre nearest to `p`.
pub open spec fn nearest(cs: Seq<Centroid>, p: Pixel) -> int {
    nearest_upto(cs, p, cs.len() as int)
}

/// How far pixel `i` lies from the centre it is assigned to.
pub open spec fn own_dist(px: Seq<Pixel>, cs: Seq<Centroid>, i: int) -> int {
    dist2(px[i], cs[nearest(cs, px[i])])
}

/// Among the first `n` pixels, the first one that lies farthest from its own centre.
pub open spec fn farthest_upto(px: Seq<Pixel>, cs: Seq<Centroid>, n: int) -> int
    decreases n,
{
    if n <= 1 {
        0
    } else {
        let f = farthest_upto(px, cs, n - 1);
        if own_dist(px, cs, n - 1) > own_dist(px, cs, f) {
            n - 1
        } else {
            f
        }
    }
}

/// Sum of channel `c` over those of the first `n` pixels assigned to centre `j`.
pub open spec fn cluster_sum(px: Seq<Pixel>, cs: Seq<Centroid>, j: int, c: int, n: int) -> int
    decreases n,
{
    if n <= 0 {
        0
    } else {
        cluster_sum(px, cs, j, c, n - 1) + if nearest(cs, px[n - 1]) == j {
            chan(px[n - 1], c)
        } else {
            0
        }
    }
}

/// How many of the first `n` pixels are assigned to centre `j`.
pub open spec fn cluster_count(px: Seq<Pixel>, cs: Seq<Centroid>, j: int, n: int) -> int
    decreases n,
{
    if n <= 0 {
        0
    } else {
        cluster_count(px, cs, j, n - 1) + if nearest(cs, px[n - 1]) == j {
            1int
        } else {
            0
        }
    }
}

/// A centre placed exactly on a pixel's colour.
pub open spec fn seed(p: Pixel) -> Centroid {
    Centroid { r: (256 * p.r) as u32, g: (256 * p.g) as u32, b: (256 * p.b) as u32 }
}

/// Mean of `cnt` samples summing to `sum`, in fixed point, rounded half up.
pub open spec fn mean_fixed(sum: int, cnt: int) -> int {
    (256 * sum + cnt / 2) / cnt
}

/// Centre `j` after one round: the mean of its pixels, or, when it has none,
/// the colour of the pixel that lies farthest from its own centre.
pub open spec fn updated(px: Seq<Pixel>, cs: Seq<Centroid>, j: int) -> Centroid {
    let n = px.len() as int;
    let cnt = cluster_count(px, cs, j, n);
    if cnt == 0 {
        seed(px[farthest_upto(px, cs, n)])
    } else {
        Centroid {
            r: mean_fixed(cluster_sum(px, cs, j, 0, n), cnt) as u32,
            g: mean_fixed(cluster_sum(px, cs, j, 1, n), cnt) as u32,
            b: mean_fixed(cluster_sum(px, cs, j, 2, n), cnt) as u32,
        }
    }
}

/// One round of k-means: assign every pixel, then move every centre.
pub open spec fn step(px: Seq<Pixel>, cs: Seq<Centroid>) -> Seq<Centroid> {
    Seq::new(cs.len(), |j: int| updated(px, cs, j))
}

/// Squared distance that a centre moved, in fixed point.
pub open spec fn shift2(a: Centroid, b: Centroid) -> int {
    let dr = a.r as int - b.r as int;
    let dg = a.g as int - b.g as int;
    let db = a.b as int - b.b as int;
    dr * dr + dg * dg + db * db
}

/// Every centre moved by less than one hundredth of the sample range.
pub open spec fn settled(old: Seq<Centroid>, new: Seq<Centroid>) -> bool {
    forall|j: int| 0 <= j < old.len() ==> 10000 * #[trigger] shift2(old[j], new[j]) < 65280 * 65280
}

/// Up to `rounds` rounds of k-means from `cs`, stopping after the first round
/// in which the centres settle.
pub open spec fn refine(px: Seq<Pixel>, cs: Seq<Centroid>, rounds: nat) -> Seq<Centroid>
    decreases rounds,
{
    if rounds == 0 {
        cs
    } else {
        let nx = step(px, cs);
        if settled(cs, nx) {
            nx
        } else {
            refine(px, nx, (rounds - 1) as nat)
        }
    }
}

/// The starting centres: `k` pixels taken at even steps through the image.
pub open spec fn initial_centroids(px: Seq<Pixel>, k: int) -> Seq<Centroid> {
    Seq::new(k as nat, |j: int| seed(px[j * px.len() / k]))
}

/// The centres that k-means with `k` clusters settles on.
pub open spec fn kmeans(px: Seq<Pixel>, k: int) -> Seq<Centroid> {
    refine(px, initial_centroids(px, k), MAX_ROUNDS as nat)
}

/// A sample value from a fixed-point channel, rounded half up.
pub open spec fn unfix(v: int) -> int {
    (v + 128) / 256
}

/// The colour of a centre as a pixel colour.
pub open spec fn centre_rgb(c: Centroid) -> (u8, u8, u8) {
    (unfix(c.r as int) as u8, unfix(c.g as int) as u8, unfix(c.b as int) as u8)
}

/// `p` recoloured to its nearest centre, alpha kept.
pub open spec fn quantized_pixel(p: Pixel, cs: Seq<Centroid>) -> Pixel {
    let c = cs[nearest(cs, p)];
    Pixel { r: centre_rgb(c).0, g: centre_rgb(c).1, b: centre_rgb(c).2, a: p.a }
}

/// `img` recoloured by k-means with `k` clusters.
pub open spec fn quantize_image(img: Raster, k: int) -> Raster {
    Raster {
        width: img.width,
        height: img.height,
        has_alpha: img.has_alpha,
        pixels: img.pixels.map_values(|p: Pixel| quantized_pixel(p, kmeans(img.pixels, k))),
    }
}

proof fn lemma_nearest_range(cs: Seq<Centroid>, p: Pixel, n: int)
    requires
        n >= 1,
    ensures
        0 <= nearest_upto(cs, p, n) < n,
    decreases n,
{
    if n > 1 {
        lemma_nearest_range(cs, p, n - 1);
    }
}

proof fn lemma_farthest_range(px: Seq<Pixel>, cs: Seq<Centroid>, n: int)
    requires
        n >= 1,
    ensures
        0 <= farthest_upto(px, cs, n) < n,
    decreases n,
{
    if n > 1 {
        lemma_farthest_range(px, cs, n - 1);
    }
}

/// Fixed-point squared distance between a pixel and a centre.
fn distance2(p: Pixel, c: Centroid) -> (r: u128)
    ensures
        r == dist2(p, c),
{
    let dr: i128 = 256 * (p.r as i128) - c.r as i128;
    let dg: i128 = 256 * (p.g as i128) - c.g as i128;
    let db: i128 = 256 * (p.b as i128) - c.b as i128;
    proof {
        assert(dr * dr <= 0x1_0000_0000int * 0x1_0000_0000int) by (nonlinear_arith)
            requires
                -0x1_0000_0000int <= dr <= 0x1_0000_0000int,
        ;
        assert(dg * dg <= 0x1_0000_0000int * 0x1_0000_0000int) by (nonlinear_arith)
            requires
                -0x1_0000_0000int <= dg <= 0x1_0000_0000int,
        ;
        assert(db * db <= 0x1_0000_0000int * 0x1_0000_0000int) by (nonlinear_arith)
            requires
                -0x1_0000_0000int <= db <= 0x1_0000_0000int,
        ;
        assert(0 <= dr * dr && 0 <= dg * dg && 0 <= db * db) by (nonlinear_arith);
    }
    (dr * dr + dg * dg + db * db) as u128
}

/// Index of the centre nearest to `p`, the lowest on a tie.
pub fn nearest_centroid(cs: &Vec<Centroid>, p: Pixel) -> (r: usize)
    requires
        cs@.len() >= 1,
    ensures
        r == nearest(cs@, p),
        r < cs@.len(),
{
    let mut best: usize = 0;
    let mut bd: u128 = distance2(p, cs[0]);
    let mut j: usize = 1;
    while j < cs.len()
        invariant
            1 <= j <= cs@.len(),
            best < j,
            best == nearest_upto(cs@, p, j as int),
            bd == dist2(p, cs@[best as int]),
        decreases cs@.len() - j,
    {
        let d = distance2(p, cs[j]);
        if d < bd {
            best = j;
            bd = d;
        }
        j = j + 1;
    }
    best
}

/// A vector of `k` zeros.
fn zeros(k: usize) -> (r: Vec<u128>)
    ensures
        r@.len() == k,
        forall|j: int| 0 <= j < k ==> #[trigger] r@[j] == 0,
{
    let mut r: Vec<u128> = Vec::new();
    let mut i: usize = 0;
    while i < k
        invariant
            i <= k,
            r@.len() == i,
            forall|j: int| 0 <= j < i ==> #[trigger] r@[j] == 0,
        decreases k - i,
    {
        r.push(0);
        i = i + 1;
    }
    r
}

/// One round of k-means over `px` from the centres `cs`.
fn step_centroids(px: &Vec<Pixel>, cs: &Vec<Centroid>) -> (r: Vec<Centroid>)
    requires
        px@.len() >= 1,
        cs@.len() >= 1,
    ensures
        r@ == step(px@, cs@),
        centroids_wf(r@),
{
    let k = cs.len();
    let mut sr = zeros(k);
    let mut sg = zeros(k);
    let mut sb = zeros(k);
    let mut cnt = zeros(k);
    let mut far: usize = 0;
    let mut far_d: u128 = 0;
    let mut i: usize = 0;
    while i < px.len()
        invariant
            k == cs@.len(),
            k >= 1,
            i <= px@.len(),
            sr@.len() == k,
            sg@.len() == k,
            sb@.len() == k,
            cnt@.len() == k,
            forall|j: int|
                0 <= j < k ==> {
                    &&& #[trigger] cnt@[j] == cluster_count(px@, cs@, j, i as int)
                    &&& sr@[j] == cluster_sum(px@, cs@, j, 0, i as int)
                    &&& sg@[j] == cluster_sum(px@, cs@, j, 1, i as int)
                    &&& sb@[j] == cluster_sum(px@, cs@, j, 2, i as int)
                    &&& sr@[j] <= 255 * cnt@[j]
                    &&& sg@[j] <= 255 * cnt@[j]
                    &&& sb@[j] <= 255 * cnt@[j]
                    &&& cnt@[j] <= i
                },
            i >= 1 ==> far == farthest_upto(px@, cs@, i as int),
            i >= 1 ==> far < i,
            i >= 1 ==> far_d == own_dist(px@, cs@, far as int),
        decreases px@.len() - i,
    {
        let p = px[i];
        let j = nearest_centroid(cs, p);
        let d = distance2(p, cs[j]);
        if i == 0 || d > far_d {
            far = i;
            far_d = d;
        }
        let ghost (or, og, ob, oc) = (sr@, sg@, sb@, cnt@);
        proof {
            assert(cnt@[j as int] == cluster_count(px@, cs@, j as int, i as int));
        }
        sr.set(j, sr[j] + p.r as u128);
        sg.set(j, sg[j] + p.g as u128);
        sb.set(j, sb[j] + p.b as u128);
        cnt.set(j, cnt[j] + 1);
        proof {
            assert forall|jj: int| 0 <= jj < k implies {
                &&& #[trigger] cnt@[jj] == cluster_count(px@, cs@, jj, i + 1)
                &&& sr@[jj] == cluster_sum(px@, cs@, jj, 0, i + 1)
                &&& sg@[jj] == cluster_sum(px@, cs@, jj, 1, i + 1)
                &&& sb@[jj] == cluster_sum(px@, cs@, jj, 2, i + 1)
                &&& sr@[jj] <= 255 * cnt@[jj]
                &&& sg@[jj] <= 255 * cnt@[jj]
                &&& sb@[jj] <= 255 * cnt@[jj]
                &&& cnt@[jj] <= i + 1
            } by {
                assert(oc[jj] == cluster_count(px@, cs@, jj, i as int));
            }
        }
        i = i + 1;
    }
    let len = px.len();
    let mut out: Vec<Centroid> = Vec::new();
    let mut j: usize = 0;
    while j < k
        invariant
            k == cs@.len(),
            px@.len() >= 1,
            len == px@.len(),
            j <= k,
            sr@.len() == k,
            sg@.len() == k,
            sb@.len() == k,
            cnt@.len() == k,
            forall|jj: int|
                0 <= jj < k ==> {
                    &&& #[trigger] cnt@[jj] == cluster_count(px@, cs@, jj, px@.len() as int)
                    &&& sr@[jj] == cluster_sum(px@, cs@, jj, 0, px@.len() as int)
                    &&& sg@[jj] == cluster_sum(px@, cs@, jj, 1, px@.len() as int)
                    &&& sb@[jj] == cluster_sum(px@, cs@, jj, 2, px@.len() as int)
                    &&& sr@[jj] <= 255 * cnt@[jj]
                    &&& sg@[jj] <= 255 * cnt@[jj]
                    &&& sb@[jj] <= 255 * cnt@[jj]
                    &&& cnt@[jj] <= px@.len()
                },
            far == farthest_upto(px@, cs@, px@.len() as int),
            far < px@.len(),
            out@.len() == j,
            forall|jj: int| 0 <= jj < j ==> #[trigger] out@[jj] == updated(px@, cs@, jj),
            centroids_wf(out@),
        decreases k - j,
    {
        let n = cnt[j];
        let ghost before = out@;
        if n == 0 {
            let p = px[far];
            out.push(Centroid { r: 256 * p.r as u32, g: 256 * p.g as u32, b: 256 * p.b as u32 });
        } else {
            let (tr, tg, tb) = (sr[j], sg[j], sb[j]);
            proof {
                assert(cnt@[j as int] == cluster_count(px@, cs@, j as int, px@.len() as int));
                assert(n <= 0xFFFF_FFFF_FFFF_FFFFu128);
                lemma_multiply_divide_lt(256 * tr + n / 2, n as int, 65281);
                lemma_multiply_divide_lt(256 * tg + n / 2, n as int, 65281);
                lemma_multiply_divide_lt(256 * tb + n / 2, n as int, 65281);
            }
            out.push(
                Centroid {
                    r: ((256 * tr + n / 2) / n) as u32,
                    g: ((256 * tg + n / 2) / n) as u32,
                    b: ((256 * tb + n / 2) / n) as u32,
                },
            );
        }
        proof {
            assert(cnt@[j as int] == cluster_count(px@, cs@, j as int, px@.len() as int));
            assert forall|jj: int| 0 <= jj <= j implies #[trigger] out@[jj] == updated(px@, cs@, jj) by {
                if jj < j {
                    assert(out@[jj] == before[jj]);
                }
            }
            assert forall|jj: int| 0 <= jj < out@.len() implies (#[trigger] out@[jj]).r <= 65280
                && out@[jj].g <= 65280 && out@[jj].b <= 65280 by {
                if jj < j {
                    assert(out@[jj] == before[jj]);
                }
            }
        }
        j = j + 1;
    }
    proof {
        assert(out@ =~= step(px@, cs@));
    }
    out
}

/// Tells whether every centre moved by less than one hundredth of the range.
fn is_settled(old: &Vec<Centroid>, new: &Vec<Centroid>) -> (r: bool)
    requires
        old@.len() == new@.len(),
    ensures
        r == settled(old@, new@),
{
    let mut j: usize = 0;
    while j < old.len()
        invariant
            old@.len() == new@.len(),
            j <= old@.len(),
            forall|jj: int|
                0 <= jj < j ==> 10000 * #[trigger] shift2(old@[jj], new@[jj]) < 65280 * 65280,
        decreases old@.len() - j,
    {
        let (a, b) = (old[j], new[j]);
        let dr: i128 = a.r as i128 - b.r as i128;
        let dg: i128 = a.g as i128 - b.g as i128;
        let db: i128 = a.b as i128 - b.b as i128;
        proof {
            assert(0 <= dr * dr <= 0x1_0000_0000int * 0x1_0000_0000int) by (nonlinear_arith)
                requires
                    -0x1_0000_0000int <= dr <= 0x1_0000_0000int,
            ;
            assert(0 <= dg * dg <= 0x1_0000_0000int * 0x1_0000_0000int) by (nonlinear_arith)
                requires
                    -0x1_0000_0000int <= dg <= 0x1_0000_0000int,
            ;
            assert(0 <= db * db <= 0x1_0000_0000int * 0x1_0000_0000int) by (nonlinear_arith)
                requires
                    -0x1_0000_0000int <= db <= 0x1_0000_0000int,
            ;
        }
        let moved: u128 = (dr * dr + dg * dg + db * db) as u128;
        if 10000 * moved >= 65280 * 65280 {
            assert(moved == shift2(old@[j as int], new@[j as int]));
            return false;
        }
        j = j + 1;
    }
    true
}

/// The starting centres: `k` pixels taken at even steps through `px`.
fn initial(px: &Vec<Pixel>, k: usize) -> (r: Vec<Centroid>)
    requires
        px@.len() >= 1,
        1 <= k <= 64,
    ensures
        r@ == initial_centroids(px@, k as int),
        centroids_wf(r@),
{
    let len = px.len();
    let mut out: Vec<Centroid> = Vec::new();
    let mut j: usize = 0;
    while j < k
        invariant
            len == px@.len(),
            len >= 1,
            1 <= k <= 64,
            j <= k,
            out@.len() == j,
            forall|jj: int|
                0 <= jj < j ==> #[trigger] out@[jj] == seed(px@[jj * px@.len() / k as int]),
            centroids_wf(out@),
        decreases k - j,
    {
        proof {
            assert((j as int) * len < k * len) by (nonlinear_arith)
                requires
                    j < k,
                    len >= 1,
            ;
            assert(0 <= (j as int) * len <= 64 * 0xFFFF_FFFF_FFFF_FFFFint) by (nonlinear_arith)
                requires
                    0 <= j < 64,
                    0 <= len <= 0xFFFF_FFFF_FFFF_FFFFint,
            ;
            lemma_multiply_divide_lt((j as int) * len, k as int, len as int);
        }
        let idx = ((j as u128) * (len as u128) / (k as u128)) as usize;
        let p = px[idx];
        let ghost before = out@;
        out.push(Centroid { r: 256 * p.r as u32, g: 256 * p.g as u32, b: 256 * p.b as u32 });
        proof {
            assert forall|jj: int| 0 <= jj <= j implies #[trigger] out@[jj] == seed(
                px@[jj * px@.len() / k as int],
            ) by {
                if jj < j {
                    assert(out@[jj] == before[jj]);
                }
            }
            assert forall|jj: int| 0 <= jj < out@.len() implies (#[trigger] out@[jj]).r <= 65280
                && out@[jj].g <= 65280 && out@[jj].b <= 65280 by {
                if jj < j {
                    assert(out@[jj] == before[jj]);
                }
            }
        }
        j = j + 1;
    }
    proof {
        assert(out@ =~= initial_centroids(px@, k as int));
    }
    out
}

/// A well-formed image has at least one pixel.
proof fn lemma_nonempty(img: &RasterImage)
    requires
        img.wf(),
    ensures
        img.pixels@.len() >= 1,
{
    assert(img.width * img.height >= 1) by (nonlinear_arith)
        requires
            img.width >= 1,
            img.height >= 1,
    ;
}

/// Recolouring every pixel to one of `k` centres leaves at most `k` colours.
proof fn lemma_palette_bound(px: Seq<Pixel>, out: Seq<Pixel>, cs: Seq<Centroid>)
    requires
        cs.len() >= 1,
        out.len() == px.len(),
        forall|i: int|
            0 <= i < out.len() ==> rgb(#[trigger] out[i]) == centre_rgb(cs[nearest(cs, px[i])]),
    ensures
        colours(out).len() <= cs.len(),
        colours(out).finite(),
{
    let palette = Seq::new(cs.len(), |j: int| centre_rgb(cs[j]));
    assert forall|c: (u8, u8, u8)| colours(out).contains(c) implies palette.to_set().contains(c) by {
        let i = choose|i: int| 0 <= i < out.len() && rgb(#[trigger] out[i]) == c;
        let j = nearest(cs, px[i]);
        lemma_nearest_range(cs, px[i], cs.len() as int);
        assert(palette[j] == c);
    }
    palette.lemma_cardinality_of_set();
    lemma_len_subset(colours(out), palette.to_set());
}

/// Reduces the palette of `img` to at most `k` colours by k-means clustering of
/// the pixel colours; alpha takes no part and is kept. The centres start at `k`
/// pixels taken at even steps through the image, and the clustering runs until
/// every centre moves by less than one hundredth of the range in a round, or
/// for at most `MAX_ROUNDS` rounds.
pub fn quantize(img: RasterImage, k: u8) -> (r: RasterImage)
    requires
        img.wf(),
        1 <= k <= 64,
    ensures
        r.wf(),
        r.width == img.width,
        r.height == img.height,
        r.has_alpha == img.has_alpha,
        r@ == quantize_image(img@, k as int),
        forall|i: int|
            0 <= i < img.pixels@.len() ==> #[trigger] r.pixels@[i] == quantized_pixel(
                img.pixels@[i],
                kmeans(img.pixels@, k as int),
            ),
        colours(r.pixels@).len() <= k,
        colours(r.pixels@).finite(),
{
    let ghost px = img.pixels@;
    proof {
        lemma_nonempty(&img);
    }
    let mut cs = initial(&img.pixels, k as usize);
    let mut rounds: usize = 0;
    let mut done = false;
    while rounds < MAX_ROUNDS && !done
        invariant
            img.wf(),
            px == img.pixels@,
            px.len() >= 1,
            centroids_wf(cs@),
            cs@.len() == k,
            1 <= k,
            rounds <= MAX_ROUNDS,
            done ==> cs@ == kmeans(px, k as int),
            !done ==> kmeans(px, k as int) == refine(px, cs@, (MAX_ROUNDS - rounds) as nat),
        decreases MAX_ROUNDS - rounds,
    {
        let nx = step_centroids(&img.pixels, &cs);
        let s = is_settled(&cs, &nx);
        cs = nx;
        rounds = rounds + 1;
        done = s;
    }
    let ghost fin = cs@;
    assert(fin == kmeans(px, k as int));
    let mut out: Vec<Pixel> = Vec::new();
    let mut i: usize = 0;
    while i < img.pixels.len()
        invariant
            img.wf(),
            px == img.pixels@,
            fin == cs@,
            centroids_wf(cs@),
            cs@.len() == k,
            1 <= k,
            i <= px.len(),
            out@.len() == i,
            forall|ii: int| 0 <= ii < i ==> #[trigger] out@[ii] == quantized_pixel(px[ii], fin),
        decreases px.len() - i,
    {
        let p = img.pixels[i];
        let j = nearest_centroid(&cs, p);
        let c = cs[j];
        let ghost before = out@;
        out.push(
            Pixel {
                r: ((c.r + 128) / 256) as u8,
                g: ((c.g + 128) / 256) as u8,
                b: ((c.b + 128) / 256) as u8,
                a: p.a,
            },
        );
        proof {
            assert forall|ii: int| 0 <= ii <= i implies #[trigger] out@[ii] == quantized_pixel(
                px[ii],
                fin,
            ) by {
                if ii < i {
                    assert(out@[ii] == before[ii]);
                }
            }
        }
        i = i + 1;
    }
    proof {
        lemma_palette_bound(px, out@, fin);
        assert(out@ =~= quantize_image(img@, k as int).pixels);
    }
    RasterImage { width: img.width, height: img.height, has_alpha: img.has_alpha, pixels: out }
}

} // verus!
