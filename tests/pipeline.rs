use quixel::{render, Levels, Modulate, Pixel, PixelError, PixelizationParams, RasterImage};

fn solid(width: usize, height: usize, v: u8) -> RasterImage {
    let p = Pixel { r: v, g: v, b: v, a: 255 };
    RasterImage { width, height, has_alpha: false, pixels: vec![p; width * height] }
}

fn gradient(width: usize, height: usize) -> RasterImage {
    let mut pixels = Vec::new();
    for y in 0..height {
        for x in 0..width {
            pixels.push(Pixel {
                r: (x * 255 / width.max(1)) as u8,
                g: (y * 255 / height.max(1)) as u8,
                b: ((x + y) * 7 % 256) as u8,
                a: 255,
            });
        }
    }
    RasterImage { width, height, has_alpha: false, pixels }
}

fn plain(pixelize: u8, kcolors: u8) -> PixelizationParams {
    PixelizationParams { pixelize, kcolors, levels: None, modulate: None }
}

fn distinct_colours(img: &RasterImage) -> usize {
    let mut seen: Vec<(u8, u8, u8)> = Vec::new();
    for p in &img.pixels {
        let c = (p.r, p.g, p.b);
        if !seen.contains(&c) {
            seen.push(c);
        }
    }
    seen.len()
}

#[test]
fn mid_grey_single_colour_is_unchanged() {
    let src = solid(4, 4, 128);
    let out = render(&src, plain(50, 1)).unwrap();
    assert_eq!(out.width, 4);
    assert_eq!(out.height, 4);
    assert_eq!(out.pixels.len(), 16);
    for p in &out.pixels {
        assert_eq!((p.r, p.g, p.b), (128, 128, 128));
    }
}

#[test]
fn degenerate_levels_give_black_or_white() {
    let src = solid(4, 4, 128);
    let params = PixelizationParams {
        pixelize: 50,
        kcolors: 1,
        levels: Some(Levels { black: 50, white: 50 }),
        modulate: None,
    };
    let out = render(&src, params).unwrap();
    assert_eq!(out.pixels.len(), 16);
    for p in &out.pixels {
        for c in [p.r, p.g, p.b] {
            assert!(c == 0 || c == 255);
        }
        assert_eq!((p.r, p.g, p.b), (255, 255, 255));
    }
}

#[test]
fn render_keeps_source_dimensions() {
    for &(w, h) in &[(1usize, 1usize), (7, 5), (3, 11), (16, 9)] {
        for &pixelize in &[0u8, 1, 33, 50, 80, 99] {
            let out = render(&gradient(w, h), plain(pixelize, 4)).unwrap();
            assert_eq!((out.width, out.height), (w, h));
            assert_eq!(out.pixels.len(), w * h);
        }
    }
}

#[test]
fn render_uses_at_most_k_colours() {
    let src = gradient(12, 10);
    for k in [1u8, 2, 3, 5, 8, 64] {
        let out = render(&src, plain(0, k)).unwrap();
        assert!(distinct_colours(&out) <= k as usize);
    }
}

#[test]
fn render_is_deterministic() {
    let src = gradient(9, 7);
    let params = PixelizationParams {
        pixelize: 40,
        kcolors: 6,
        levels: Some(Levels { black: 10, white: 80 }),
        modulate: Some(Modulate { brightness: 120, saturation: 80, hue: 130 }),
    };
    let a = render(&src, params).unwrap();
    let b = render(&src, params).unwrap();
    assert_eq!(a.pixels, b.pixels);
    assert_eq!((a.width, a.height), (b.width, b.height));
}

#[test]
fn alpha_survives_the_pipeline() {
    let p = Pixel { r: 200, g: 10, b: 30, a: 77 };
    let src = RasterImage { width: 2, height: 2, has_alpha: true, pixels: vec![p; 4] };
    let out = render(&src, plain(0, 2)).unwrap();
    assert!(out.has_alpha);
    for q in &out.pixels {
        assert_eq!(*q, p);
    }
}

#[test]
fn zero_width_is_an_invalid_image() {
    let src = RasterImage { width: 0, height: 3, has_alpha: false, pixels: vec![] };
    assert_eq!(render(&src, plain(50, 4)).unwrap_err(), PixelError::InvalidImage);
}

#[test]
fn wrong_pixel_count_is_an_invalid_image() {
    let mut src = solid(3, 3, 10);
    src.pixels.pop();
    assert_eq!(render(&src, plain(50, 4)).unwrap_err(), PixelError::InvalidImage);
}

#[test]
fn out_of_range_settings_are_refused() {
    let src = solid(3, 3, 10);
    assert_eq!(render(&src, plain(100, 4)).unwrap_err(), PixelError::InvalidParams);
    assert_eq!(render(&src, plain(50, 0)).unwrap_err(), PixelError::InvalidParams);
    assert_eq!(render(&src, plain(50, 65)).unwrap_err(), PixelError::InvalidParams);
    let bad_levels = PixelizationParams {
        levels: Some(Levels { black: 101, white: 50 }),
        ..plain(50, 4)
    };
    assert_eq!(render(&src, bad_levels).unwrap_err(), PixelError::InvalidParams);
    let bad_hue = PixelizationParams {
        modulate: Some(Modulate { brightness: 100, saturation: 100, hue: 201 }),
        ..plain(50, 4)
    };
    assert_eq!(render(&src, bad_hue).unwrap_err(), PixelError::InvalidParams);
}

#[test]
fn invalid_image_wins_over_invalid_settings() {
    let src = RasterImage { width: 2, height: 0, has_alpha: false, pixels: vec![] };
    assert_eq!(render(&src, plain(100, 0)).unwrap_err(), PixelError::InvalidImage);
}

#[test]
fn inverted_levels_still_render() {
    let src = gradient(6, 6);
    let params = PixelizationParams {
        pixelize: 0,
        kcolors: 64,
        levels: Some(Levels { black: 80, white: 20 }),
        modulate: None,
    };
    let out = render(&src, params).unwrap();
    assert_eq!(out.pixels.len(), 36);
}

#[test]
fn largest_shrink_gives_one_block() {
    let src = gradient(10, 10);
    let out = render(&src, plain(99, 8)).unwrap();
    let first = out.pixels[0];
    for p in &out.pixels {
        assert_eq!(*p, first);
    }
}
