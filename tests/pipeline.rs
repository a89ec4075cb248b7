use ascii_art::glyph::{ascii_encode, glyph_for};
use ascii_art::gray::{average_rgb_values, gray_of};
use ascii_art::grid::{from_channels, to_channels, Rgb, RgbGrid};
use ascii_art::pipeline::{ascii_art, render_scaled};
use ascii_art::render::{render, RenderError};
use ascii_art::resample::scale_image;

fn uniform(width: u32, height: u32, p: Rgb) -> RgbGrid {
    let mut img = RgbGrid::new(width, height);
    for x in 0..width {
        for y in 0..height {
            img.put_pixel(x, y, p);
        }
    }
    img
}

fn gray(v: u8) -> Rgb {
    Rgb { r: v, g: v, b: v }
}

#[test]
fn average_all_black_image() {
    let mut img = RgbGrid::new(4, 4);

    for x in 0..4 {
        for y in 0..4 {
            img.put_pixel(x, y, Rgb { r: 0, g: 0, b: 0 });
        }
    }

    assert_eq!(
        average_rgb_values(&img),
        vec![0, 0, 0, 0, 0, 0, 0, 0, 0, 0, 0, 0, 0, 0, 0, 0]
    );
}

#[test]
fn average_all_white_image() {
    let mut img = RgbGrid::new(4, 4);

    for x in 0..4 {
        for y in 0..4 {
            img.put_pixel(x, y, Rgb { r: 255, g: 255, b: 255 });
        }
    }

    assert_eq!(
        average_rgb_values(&img),
        vec![255, 255, 255, 255, 255, 255, 255, 255, 255, 255, 255, 255, 255, 255, 255, 255]
    );
}

#[test]
fn average_uniform_mid_value() {
    let img = uniform(4, 4, gray(77));
    assert_eq!(average_rgb_values(&img), vec![77u8; 16]);
}

#[test]
fn average_truncates() {
    assert_eq!(gray_of(Rgb { r: 1, g: 1, b: 2 }), 1);
    assert_eq!(gray_of(Rgb { r: 255, g: 255, b: 254 }), 254);
    assert_eq!(gray_of(Rgb { r: 10, g: 20, b: 31 }), 20);
}

#[test]
fn average_keeps_row_major_order() {
    let mut img = RgbGrid::new(3, 2);
    img.put_pixel(0, 0, gray(1));
    img.put_pixel(1, 0, gray(2));
    img.put_pixel(2, 0, gray(3));
    img.put_pixel(0, 1, gray(4));
    img.put_pixel(1, 1, gray(5));
    img.put_pixel(2, 1, Rgb { r: 0, g: 3, b: 15 });
    assert_eq!(average_rgb_values(&img), vec![1, 2, 3, 4, 5, 6]);
}

#[test]
fn average_rows_swapped() {
    let mut a = RgbGrid::new(2, 3);
    let mut b = RgbGrid::new(2, 3);
    let rows = [[10u8, 20], [30, 40], [50, 60]];
    let perm = [2usize, 0, 1];
    for y in 0..3u32 {
        for x in 0..2u32 {
            a.put_pixel(x, y, gray(rows[y as usize][x as usize]));
            b.put_pixel(x, y, gray(rows[perm[y as usize]][x as usize]));
        }
    }
    assert_eq!(average_rgb_values(&a), vec![10, 20, 30, 40, 50, 60]);
    assert_eq!(average_rgb_values(&b), vec![50, 60, 10, 20, 30, 40]);
}

#[test]
fn average_empty_grid() {
    assert_eq!(average_rgb_values(&RgbGrid::new(0, 5)), Vec::<u8>::new());
}

#[test]
fn glyph_boundaries() {
    assert_eq!(glyph_for(0), ':');
    assert_eq!(glyph_for(1), ';');
    assert_eq!(glyph_for(50), ';');
    assert_eq!(glyph_for(51), '|');
    assert_eq!(glyph_for(100), '|');
    assert_eq!(glyph_for(101), '%');
    assert_eq!(glyph_for(151), '%');
    assert_eq!(glyph_for(152), '$');
    assert_eq!(glyph_for(202), '$');
    assert_eq!(glyph_for(203), '#');
    assert_eq!(glyph_for(252), '#');
    assert_eq!(glyph_for(253), '@');
    assert_eq!(glyph_for(255), '@');
}

#[test]
fn glyph_every_byte_in_ramp() {
    let ramp = [':', ';', '|', '%', '$', '#', '@'];
    let mut last = 0usize;
    for p in 0..=255u8 {
        let c = glyph_for(p);
        let pos: Vec<usize> = (0..ramp.len()).filter(|&i| ramp[i] == c).collect();
        assert_eq!(pos.len(), 1);
        assert!(pos[0] >= last);
        last = pos[0];
    }
    assert_eq!(last, 6);
}

#[test]
fn encode_keeps_order() {
    assert_eq!(ascii_encode(&vec![255, 0, 50, 51, 128]), vec!['@', ':', ';', '|', '%']);
    assert_eq!(ascii_encode(&Vec::new()), Vec::<char>::new());
}

#[test]
fn render_breaks_after_first_and_every_width() {
    let g = vec!['%', '%', '%', '%'];
    assert_eq!(render(&g, 2), Ok("\n%\n%%\n%\n".to_string()));
    assert_eq!(render(&vec!['a', 'b', 'c', 'd', 'e'], 3), Ok("\na\nbcd\ne\n".to_string()));
    assert_eq!(render(&vec!['a', 'b'], 1), Ok("\na\nb\n\n".to_string()));
}

#[test]
fn render_zero_width_is_refused() {
    assert_eq!(render(&vec!['%'], 0), Err(RenderError::EmptyImage));
    assert_eq!(render(&Vec::new(), 0), Err(RenderError::EmptyImage));
}

#[test]
fn render_no_glyphs() {
    assert_eq!(render(&Vec::new(), 3), Ok("\n\n".to_string()));
}

#[test]
fn scale_uniform_hundred_square() {
    let color = Rgb { r: 200, g: 30, b: 90 };
    let scaled = scale_image(&uniform(100, 100, color));
    assert_eq!(scaled.width, 10);
    assert_eq!(scaled.height, 10);
    assert_eq!(scaled.pixels.len(), 100);
    for p in &scaled.pixels {
        assert!((p.r as i32 - 200).abs() <= 1);
        assert!((p.g as i32 - 30).abs() <= 1);
        assert!((p.b as i32 - 90).abs() <= 1);
    }
}

#[test]
fn scale_rounds_dimensions_down() {
    let scaled = scale_image(&uniform(25, 39, gray(9)));
    assert_eq!((scaled.width, scaled.height), (2, 3));
    assert_eq!(scaled.pixels.len(), 6);
}

#[test]
fn scale_blends_halves() {
    let mut img = RgbGrid::new(20, 10);
    for y in 0..10 {
        for x in 10..20 {
            img.put_pixel(x, y, gray(255));
        }
    }
    let scaled = scale_image(&img);
    assert_eq!((scaled.width, scaled.height), (2, 1));
    assert!(scaled.pixels[0].r < 128);
    assert!(scaled.pixels[1].r > 128);
}

#[test]
fn scale_small_image_is_empty() {
    let narrow = scale_image(&uniform(9, 50, gray(1)));
    assert_eq!((narrow.width, narrow.height), (0, 5));
    assert!(narrow.pixels.is_empty());
    let short = scale_image(&uniform(50, 3, gray(1)));
    assert_eq!((short.width, short.height), (5, 0));
    assert!(short.pixels.is_empty());
    assert_eq!(render(&ascii_encode(&average_rgb_values(&narrow)), narrow.width), Err(RenderError::EmptyImage));
}

#[test]
fn end_to_end_mid_gray() {
    let img = uniform(20, 20, gray(128));
    assert_eq!(ascii_art(&img), Ok("\n%\n%%\n%\n".to_string()));
}

#[test]
fn end_to_end_small_image_is_refused() {
    assert_eq!(ascii_art(&uniform(9, 40, gray(128))), Err(RenderError::EmptyImage));
    assert_eq!(ascii_art(&uniform(40, 9, gray(128))), Err(RenderError::EmptyImage));
}

#[test]
fn render_scaled_grid() {
    let mut g = RgbGrid::new(3, 1);
    g.put_pixel(0, 0, gray(0));
    g.put_pixel(1, 0, gray(60));
    g.put_pixel(2, 0, Rgb { r: 250, g: 250, b: 250 });
    assert_eq!(render_scaled(&g), Ok("\n:\n|#\n".to_string()));
    assert_eq!(render_scaled(&RgbGrid::new(3, 0)), Err(RenderError::EmptyImage));
}

#[test]
fn grid_from_pixels_checks_count() {
    assert!(RgbGrid::from_pixels(2, 2, vec![gray(1); 3]).is_none());
    let g = RgbGrid::from_pixels(2, 2, vec![gray(1), gray(2), gray(3), gray(4)]).unwrap();
    assert_eq!(g.get_pixel(1, 0), gray(2));
    assert_eq!(g.get_pixel(0, 1), gray(3));
}

#[test]
fn channels_round_trip() {
    let px = vec![Rgb { r: 1, g: 2, b: 3 }, Rgb { r: 4, g: 5, b: 6 }];
    let raw = to_channels(&px);
    assert_eq!(raw, vec![1, 2, 3, 4, 5, 6]);
    assert_eq!(from_channels(&raw), px);
}
