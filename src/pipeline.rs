use vstd::prelude::*;
use vstd::arithmetic::div_mod::{lemma_fundamental_div_mod, lemma_multiply_divide_lt};
use vstd::set_lib::lemma_len_subset;
use crate::levels::{Levels, apply_levels, levels_image};
use crate::modulate::{Modulate, apply_modulate, modulate_image};
use crate::quantize::{quantize, quantize_image};
use crate::raster::{PixelError, Raster, RasterImage, cell, colours, lemma_cell_index, rgb};
use crate::resample::{
    area_resample,
    lemma_nearest,
    nearest_resample,
    nearest_src,
    resample_area,
    resample_nearest,
    shrink_dimension,
    shrunk_dim,
};

verus! {

/// The settings of one pipeline run.
#[derive(Debug, Clone, Copy, PartialEq, Eq)]
pub struct PixelizationParams {
    /// How far to shrink before quantizing, in percent: `0 ..= 99`.
    pub pixelize: u8,
    /// Size of the palette: `1 ..= 64`.
    pub kcolors: u8,
    /// An optional levels remap.
    pub levels: Option<Levels>,
    /// An optional brightness, saturation and hue adjustment.
    pub modulate: Option<Modulate>,
}

impl PixelizationParams {
    /// Every setting lies in its range.
    pub open spec fn wf(self) -> bool {
        &&& self.pixelize <= 99
        &&& 1 <= self.kcolors <= 64
        &&& (self.levels matches Some(l) ==> l.wf())
        &&& (self.modulate matches Some(m) ==> m.wf())
    }

    /// Tells whether every setting lies in its range.
    pub fn is_valid(&self) -> (r: bool)
        ensures
            r == self.wf(),
    {
        let levels_ok = match self.levels {
            Some(l) => l.black <= 100 && l.white <= 100,
            None => true,
        };
        let modulate_ok = match self.modulate {
            Some(m) => m.brightness <= 200 && m.saturation <= 200 && m.hue <= 200,
            None => true,
        };
        self.pixelize <= 99 && 1 <= self.kcolors && self.kcolors <= 64 && levels_ok && modulate_ok
    }
}

/// The tone stages: levels, then modulation, each only when enabled.
pub open spec fn toned(img: Raster, p: PixelizationParams) -> Raster {
    let leveled = match p.levels {
        Some(l) => levels_image(img, l),
        None => img,
    };
    match p.modulate {
        Some(m) => modulate_image(leveled, m),
        None => leveled,
    }
}

/// The whole pipeline: shrink with a box filter, adjust tone, quantize, and
/// blow back up to the source's own size by nearest neighbour.
pub open spec fn rendered(src: Raster, p: PixelizationParams) -> Raster {
    let tw = shrunk_dim(src.width, p.pixelize as int);
    let th = shrunk_dim(src.height, p.pixelize as int);
    let small = area_resample(src, tw, th);
    let quantized = quantize_image(toned(small, p), p.kcolors as int);
    nearest_resample(quantized, src.width, src.height)
}

/// Rendering is a function of the source and the settings alone: equal
/// inputs give equal images.
pub proof fn lemma_render_deterministic(a: Raster, b: Raster, p: PixelizationParams, q: PixelizationParams)
    requires
        a == b,
        p == q,
    ensures
        rendered(a, p) == rendered(b, q),
{
}

/// Every colour of a nearest-neighbour enlargement already occurs in its source.
proof fn lemma_nearest_colours(small: &RasterImage, big: &RasterImage)
    requires
        small.wf(),
        big.wf(),
        big@ == nearest_resample(small@, big.width as int, big.height as int),
    ensures
        colours(big.pixels@).subset_of(colours(small.pixels@)),
{
    let w = big.width as int;
    let h = big.height as int;
    assert forall|c: (u8, u8, u8)| colours(big.pixels@).contains(c) implies colours(
        small.pixels@,
    ).contains(c) by {
        let i = choose|i: int| 0 <= i < big.pixels@.len() && rgb(#[trigger] big.pixels@[i]) == c;
        lemma_fundamental_div_mod(i, w);
        lemma_multiply_divide_lt(i, w, h);
        let x = i % w;
        let y = i / w;
        assert(0 <= y) by (nonlinear_arith)
            requires
                i == w * y + x,
                0 <= i,
                x < w,
                w >= 1,
        ;
        let sx = nearest_src(x, small.width as int, w);
        let sy = nearest_src(y, small.height as int, h);
        lemma_nearest(x, small.width as int, w);
        lemma_nearest(y, small.height as int, h);
        lemma_cell_index(sx, sy, small.width as int, small.height as int);
        assert(big.pixels@[i] == cell(small.pixels@, small.width as int, sx, sy));
        assert(rgb(small.pixels@[sy * small.width + sx]) == c);
    }
}

/// Turns `source` into pixel art: shrinks it by `pixelize` percent with a box
/// filter, applies the enabled tone stages, reduces it to `kcolors` colours by
/// k-means, and enlarges it back to exactly its own size by nearest neighbour.
/// A malformed source is refused with `InvalidImage`, out-of-range settings
/// with `InvalidParams`; everything else succeeds.
pub fn render(source: &RasterImage, params: PixelizationParams) -> (r: Result<
    RasterImage,
    PixelError,
>)
    ensures
        !source.wf() <==> r == Err::<RasterImage, PixelError>(PixelError::InvalidImage),
        source.wf() && !params.wf() <==> r == Err::<RasterImage, PixelError>(
            PixelError::InvalidParams,
        ),
        source.wf() && params.wf() <==> r is Ok,
        r matches Ok(img) ==> {
            &&& img@ == rendered(source@, params)
            &&& img.wf()
            &&& img.width == source.width
            &&& img.height == source.height
            &&& img.has_alpha == source.has_alpha
            &&& colours(img.pixels@).len() <= params.kcolors
        },
{
    if !source.is_valid() {
        return Err(PixelError::InvalidImage);
    }
    if !params.is_valid() {
        return Err(PixelError::InvalidParams);
    }
    let w = source.width;
    let h = source.height;
    let cells = source.pixels.len();
    let tw = shrink_dimension(w, params.pixelize);
    let th = shrink_dimension(h, params.pixelize);
    proof {
        assert(w * h == cells);
        assert(tw * th <= w * h) by (nonlinear_arith)
            requires
                1 <= tw <= w,
                1 <= th <= h,
        ;
    }
    let small = resample_area(source, tw, th);
    let leveled = apply_levels(small, params.levels);
    let toned_img = apply_modulate(leveled, params.modulate);
    let quantized = quantize(toned_img, params.kcolors);
    let out = resample_nearest(&quantized, w, h);
    proof {
        lemma_nearest_colours(&quantized, &out);
        lemma_len_subset(colours(out.pixels@), colours(quantized.pixels@));
    }
    Ok(out)
}

} // verus!
