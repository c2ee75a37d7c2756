//! Turns photographs into pixel art: a box-filter shrink, optional levels and
//! modulation, k-means palette reduction and a nearest-neighbour enlargement
//! back to the original size, every stage with a proved contract.
pub mod editor;
pub mod levels;
pub mod modulate;
pub mod pipeline;
pub mod quantize;
pub mod raster;
pub mod resample;
pub mod style;

pub use levels::{Levels, apply_levels, level_sample};
pub use modulate::{Modulate, apply_modulate, modulate_pixel};
pub use pipeline::{PixelizationParams, render};
pub use quantize::{nearest_centroid, quantize, Centroid};
pub use raster::{Pixel, PixelError, RasterImage};
pub use resample::{resample, resample_area, resample_nearest, shrink_dimension, ResampleMode};
pub use style::{Layout, Theme};
