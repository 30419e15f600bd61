use inkframe::dither::dither;
use inkframe::raster::{composite, Raster};

#[test]
fn raster_new_checks_length() {
    assert!(Raster::new(2, 3, vec![0; 6]).is_some());
    assert!(Raster::new(2, 3, vec![0; 5]).is_none());
    assert!(Raster::new(0, 3, vec![]).is_some());
}

#[test]
fn filled_raster_is_uniform() {
    let r = Raster::filled(3, 2, 7);
    assert_eq!((r.width, r.height), (3, 2));
    assert_eq!(r.pixels, vec![7; 6]);
}

#[test]
fn composite_copies_inner_without_blending() {
    let inner = Raster::new(2, 2, vec![1, 2, 3, 4]).unwrap();
    let out = composite(&inner, 4, 3, 1, 1, 9);
    assert_eq!((out.width, out.height), (4, 3));
    assert_eq!(out.pixels, vec![9, 9, 9, 9, 9, 1, 2, 9, 9, 3, 4, 9]);
}

#[test]
fn composite_of_empty_inner_is_background() {
    let out = composite(&Raster::empty(), 3, 2, 1, 1, 200);
    assert_eq!(out.pixels, vec![200; 6]);
}

#[test]
fn dither_of_mid_gray_follows_bayer_matrix() {
    let src = Raster::new(4, 4, vec![128; 16]).unwrap();
    let out = dither(&src);
    let w = 255u8;
    assert_eq!(
        out.pixels,
        vec![w, 0, w, 0, 0, w, 0, w, w, 0, w, 0, 0, w, 0, w]
    );
}

#[test]
fn dither_extremes_stay_black_and_white() {
    let black = dither(&Raster::new(5, 3, vec![0; 15]).unwrap());
    assert_eq!(black.pixels, vec![0; 15]);
    let white = dither(&Raster::new(5, 3, vec![255; 15]).unwrap());
    assert_eq!(white.pixels, vec![255; 15]);
}

#[test]
fn dither_repeats_every_four_pixels() {
    let src = Raster::new(8, 1, vec![100; 8]).unwrap();
    let out = dither(&src);
    assert_eq!(out.pixels[0..4], out.pixels[4..8]);
}

#[test]
fn dither_is_deterministic() {
    let values: Vec<u8> = (0..60u32).map(|i| (i * 37 % 256) as u8).collect();
    let a = dither(&Raster::new(10, 6, values.clone()).unwrap());
    let b = dither(&Raster::new(10, 6, values).unwrap());
    assert_eq!(a.pixels, b.pixels);
    assert!(a.pixels.iter().all(|&v| v == 0 || v == 255));
}
