use quixel::{
    resample, ResampleMode, apply_levels, apply_modulate, level_sample, modulate_pixel, quantize, resample_area,
    resample_nearest, shrink_dimension, Levels, Modulate, Pixel, RasterImage,
};

fn px(r: u8, g: u8, b: u8) -> Pixel {
    Pixel { r, g, b, a: 255 }
}

fn row(pixels: Vec<Pixel>) -> RasterImage {
    RasterImage { width: pixels.len(), height: 1, has_alpha: false, pixels }
}

#[test]
fn levels_off_returns_input_unchanged() {
    let img = row(vec![px(1, 2, 3), px(250, 128, 0)]);
    let out = apply_levels(img.clone(), None);
    assert_eq!(out.pixels, img.pixels);
    assert_eq!((out.width, out.height, out.has_alpha), (2, 1, false));
}

#[test]
fn modulate_off_returns_input_unchanged() {
    let img = row(vec![px(1, 2, 3), px(250, 128, 0)]);
    let out = apply_modulate(img.clone(), None);
    assert_eq!(out.pixels, img.pixels);
}

#[test]
fn shrink_dimension_rounds_half_up() {
    assert_eq!(shrink_dimension(4, 50), 2);
    assert_eq!(shrink_dimension(5, 50), 3);
    assert_eq!(shrink_dimension(7, 0), 7);
    assert_eq!(shrink_dimension(640, 80), 128);
    assert_eq!(shrink_dimension(10, 99), 1);
    assert_eq!(shrink_dimension(1, 99), 1);
}

#[test]
fn level_sample_exact_values() {
    assert_eq!(level_sample(128, 10, 80), 146);
    assert_eq!(level_sample(0, 10, 80), 0);
    assert_eq!(level_sample(255, 10, 80), 255);
    assert_eq!(level_sample(128, 0, 100), 128);
    assert_eq!(level_sample(128, 80, 10), 109);
}

#[test]
fn equal_level_points_split_at_the_point() {
    assert_eq!(level_sample(127, 50, 50), 0);
    assert_eq!(level_sample(128, 50, 50), 255);
    assert_eq!(level_sample(0, 0, 0), 255);
    assert_eq!(level_sample(255, 100, 100), 255);
    assert_eq!(level_sample(254, 100, 100), 0);
}

#[test]
fn raising_black_never_raises_output() {
    for white in [0u8, 30, 50, 100] {
        for v in 0..=255u8 {
            let mut last = 255u8;
            for black in 0..=white {
                let out = level_sample(v, black, white);
                assert!(out <= last);
                last = out;
            }
        }
    }
}

#[test]
fn apply_levels_keeps_alpha() {
    let img = RasterImage {
        width: 1,
        height: 1,
        has_alpha: true,
        pixels: vec![Pixel { r: 128, g: 0, b: 255, a: 9 }],
    };
    let out = apply_levels(img, Some(Levels { black: 10, white: 80 }));
    assert_eq!(out.pixels[0], Pixel { r: 146, g: 0, b: 255, a: 9 });
}

#[test]
fn neutral_modulation_is_identity() {
    let m = Modulate { brightness: 100, saturation: 100, hue: 100 };
    for p in [px(255, 0, 0), px(12, 200, 77), px(128, 128, 128), px(0, 0, 0), px(255, 255, 254)] {
        assert_eq!(modulate_pixel(p, m), p);
    }
}

#[test]
fn full_turn_of_hue_is_identity() {
    for hue in [0u8, 200] {
        let m = Modulate { brightness: 100, saturation: 100, hue };
        assert_eq!(modulate_pixel(px(12, 200, 77), m), px(12, 200, 77));
    }
}

#[test]
fn half_turn_takes_red_to_cyan() {
    let m = Modulate { brightness: 100, saturation: 100, hue: 150 };
    assert_eq!(modulate_pixel(px(255, 0, 0), m), px(0, 255, 255));
}

#[test]
fn zero_brightness_is_black() {
    let m = Modulate { brightness: 0, saturation: 100, hue: 100 };
    assert_eq!(modulate_pixel(px(12, 200, 77), m), px(0, 0, 0));
}

#[test]
fn zero_saturation_is_grey() {
    let m = Modulate { brightness: 100, saturation: 0, hue: 100 };
    assert_eq!(modulate_pixel(px(255, 0, 0), m), px(128, 128, 128));
}

#[test]
fn double_brightness_of_grey() {
    let m = Modulate { brightness: 200, saturation: 100, hue: 100 };
    assert_eq!(modulate_pixel(px(100, 100, 100), m), px(200, 200, 200));
    assert_eq!(modulate_pixel(px(200, 200, 200), m), px(255, 255, 255));
}

#[test]
fn modulate_keeps_alpha() {
    let img = RasterImage {
        width: 1,
        height: 1,
        has_alpha: true,
        pixels: vec![Pixel { r: 255, g: 0, b: 0, a: 3 }],
    };
    let m = Modulate { brightness: 100, saturation: 100, hue: 150 };
    let out = apply_modulate(img, Some(m));
    assert_eq!(out.pixels[0], Pixel { r: 0, g: 255, b: 255, a: 3 });
}

#[test]
fn area_resample_averages_and_rounds_half_up() {
    let img = RasterImage {
        width: 2,
        height: 2,
        has_alpha: false,
        pixels: vec![px(0, 0, 0), px(255, 1, 2), px(100, 1, 2), px(101, 0, 1)],
    };
    let out = resample_area(&img, 1, 1);
    assert_eq!(out.pixels, vec![px(114, 1, 1)]);
    let pair = row(vec![px(0, 0, 0), px(1, 1, 1)]);
    assert_eq!(resample_area(&pair, 1, 1).pixels, vec![px(1, 1, 1)]);
}

#[test]
fn area_resample_of_columns() {
    let img = row(vec![px(10, 0, 0), px(20, 0, 0), px(30, 0, 0), px(41, 0, 0)]);
    let out = resample_area(&img, 2, 1);
    assert_eq!(out.pixels, vec![px(15, 0, 0), px(36, 0, 0)]);
}

#[test]
fn nearest_resample_makes_blocks() {
    let img = row(vec![px(1, 1, 1), px(2, 2, 2)]);
    let out = resample_nearest(&img, 4, 2);
    assert_eq!((out.width, out.height), (4, 2));
    let a = px(1, 1, 1);
    let b = px(2, 2, 2);
    assert_eq!(out.pixels, vec![a, a, b, b, a, a, b, b]);
}

#[test]
fn quantize_keeps_two_colours_exactly() {
    let a = px(10, 20, 30);
    let b = px(200, 150, 100);
    let img = row(vec![a, b, a, b, b]);
    let out = quantize(img, 2);
    assert_eq!(out.pixels, vec![a, b, a, b, b]);
}

#[test]
fn quantize_to_one_colour_takes_the_mean() {
    let img = row(vec![px(0, 0, 0), px(100, 50, 10)]);
    let out = quantize(img, 1);
    assert_eq!(out.pixels, vec![px(50, 25, 5), px(50, 25, 5)]);
}

#[test]
fn quantize_with_more_clusters_than_colours() {
    let a = px(7, 7, 7);
    let img = row(vec![a, a, a]);
    let out = quantize(img, 64);
    assert_eq!(out.pixels, vec![a, a, a]);
}

#[test]
fn quantize_bounds_distinct_colours() {
    let mut pixels = Vec::new();
    for i in 0..60u32 {
        pixels.push(px((i * 4) as u8, (i * 3 % 256) as u8, (255 - i * 2) as u8));
    }
    let img = RasterImage { width: 10, height: 6, has_alpha: false, pixels };
    for k in [1u8, 2, 4, 7] {
        let out = quantize(img.clone(), k);
        let mut seen: Vec<(u8, u8, u8)> = Vec::new();
        for p in &out.pixels {
            if !seen.contains(&(p.r, p.g, p.b)) {
                seen.push((p.r, p.g, p.b));
            }
        }
        assert!(seen.len() <= k as usize);
    }
}

#[test]
fn resample_dispatches_on_mode() {
    let img = row(vec![px(0, 0, 0), px(10, 10, 10)]);
    assert_eq!(resample(&img, 1, 1, ResampleMode::Area).pixels, vec![px(5, 5, 5)]);
    assert_eq!(resample(&img, 1, 1, ResampleMode::NearestNeighbor).pixels, vec![px(10, 10, 10)]);
}
