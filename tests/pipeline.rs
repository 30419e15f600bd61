use std::io::Cursor;

use inkframe::codec::RasterFormat;
use inkframe::error::CoreError;
use inkframe::gallery::to_src;
use inkframe::ingest::{ingest, labels, process_image, thumbnail_dimensions};
use inkframe::raster::Raster;
use inkframe::render::{background, fit_canvas, render, CanvasRequest, ColorDepth};

fn png_of(width: u32, height: u32, value: u8) -> Vec<u8> {
    let img = image::GrayImage::from_pixel(width, height, image::Luma([value]));
    let mut out = Cursor::new(Vec::new());
    img.write_to(&mut out, image::ImageFormat::Png).unwrap();
    out.into_inner()
}

fn decoded(bytes: &[u8]) -> image::GrayImage {
    image::load_from_memory(bytes).unwrap().into_luma8()
}

fn sized(width: u32, height: u32) -> CanvasRequest {
    CanvasRequest { width: Some(width), height: Some(height) }
}

fn full_size() -> CanvasRequest {
    CanvasRequest { width: None, height: None }
}

#[test]
fn background_follows_dark_preference() {
    assert_eq!(background(true), 0);
    assert_eq!(background(false), 255);
}

#[test]
fn fit_canvas_letterboxes_landscape_source() {
    let src = Raster::filled(1000, 800, 128);
    let out = fit_canvas(&src, 500, 500, background(false));
    assert_eq!((out.width, out.height), (500, 500));
    for y in 0..500usize {
        for x in 0..500usize {
            let v = out.pixels[y * 500 + x];
            if y < 50 || y >= 450 {
                assert_eq!(v, 255, "bar pixel at ({x}, {y})");
            } else {
                assert!((127..=129).contains(&v), "image pixel at ({x}, {y}) is {v}");
            }
        }
    }
}

#[test]
fn fit_canvas_upscales_into_dark_bars() {
    let src = Raster::filled(2, 4, 90);
    let out = fit_canvas(&src, 8, 8, background(true));
    assert_eq!((out.width, out.height), (8, 8));
    for y in 0..8usize {
        assert_eq!(out.pixels[y * 8], 0);
        assert_eq!(out.pixels[y * 8 + 7], 0);
        assert!((89..=91).contains(&out.pixels[y * 8 + 3]));
    }
}

#[test]
fn passthrough_returns_stored_bytes() {
    let stored = vec![1u8, 2, 3, 4, 5];
    assert_eq!(render(&stored, false, &full_size(), ColorDepth::Gray), Ok(stored.clone()));
    let partial = CanvasRequest { width: Some(300), height: None };
    assert_eq!(render(&stored, true, &partial, ColorDepth::Gray), Ok(stored.clone()));
}

#[test]
fn zero_sized_canvas_is_rejected() {
    let stored = png_of(4, 4, 10);
    assert_eq!(render(&stored, false, &sized(0, 10), ColorDepth::Gray), Err(CoreError::InvalidSize));
    assert_eq!(render(&stored, false, &sized(10, 0), ColorDepth::Bitonal), Err(CoreError::InvalidSize));
}

#[test]
fn oversized_canvas_is_rejected() {
    let stored = png_of(4, 4, 10);
    let r = render(&stored, false, &sized(u32::MAX, u32::MAX), ColorDepth::Gray);
    assert_eq!(r, Err(CoreError::InvalidSize));
}

#[test]
fn undecodable_stored_bytes_fail_to_render() {
    let r = render(&vec![0u8, 1, 2, 3], false, &sized(10, 10), ColorDepth::Gray);
    assert_eq!(r, Err(CoreError::Decode));
}

#[test]
fn resized_render_is_a_bitmap_of_the_canvas() {
    let stored = ingest(&png_of(1000, 800, 128)).unwrap().full;
    let bytes = render(&stored, false, &sized(500, 500), ColorDepth::Gray).unwrap();
    assert_eq!(image::guess_format(&bytes).unwrap(), image::ImageFormat::Bmp);
    let img = decoded(&bytes);
    assert_eq!(img.dimensions(), (500, 500));
    assert_eq!(img.get_pixel(250, 10).0[0], 255);
    assert_eq!(img.get_pixel(250, 460).0[0], 255);
    assert!((127..=129).contains(&img.get_pixel(250, 250).0[0]));
}

#[test]
fn bitonal_render_holds_only_black_and_white() {
    let stored = ingest(&png_of(40, 30, 128)).unwrap().full;
    let bytes = render(&stored, true, &sized(20, 20), ColorDepth::Bitonal).unwrap();
    let img = decoded(&bytes);
    assert_eq!(img.dimensions(), (20, 20));
    assert!(img.pixels().all(|p| p.0[0] == 0 || p.0[0] == 255));
    let full = render(&stored, true, &full_size(), ColorDepth::Bitonal).unwrap();
    let img = decoded(&full);
    assert_eq!(img.dimensions(), (40, 30));
    assert!(img.pixels().all(|p| p.0[0] == 0 || p.0[0] == 255));
}

#[test]
fn ingest_stores_grayscale_bitmap_and_jpeg_preview() {
    let upload = png_of(1000, 800, 77);
    let stored = ingest(&upload).unwrap();
    assert_ne!(stored.full, upload);
    assert_eq!(image::guess_format(&stored.full).unwrap(), image::ImageFormat::Bmp);
    let full = decoded(&stored.full);
    assert_eq!(full.dimensions(), (1000, 800));
    assert!(full.pixels().all(|p| p.0[0] == 77));
    assert_eq!(image::guess_format(&stored.thumbnail).unwrap(), image::ImageFormat::Jpeg);
    let thumb = decoded(&stored.thumbnail);
    assert_eq!(thumb.dimensions(), thumbnail_dimensions(1000, 800));
}

#[test]
fn ingest_rejects_empty_and_garbage_uploads() {
    assert!(matches!(ingest(&Vec::new()), Err(CoreError::Decode)));
    assert!(matches!(ingest(&b"not an image".to_vec()), Err(CoreError::Decode)));
}

#[test]
fn process_image_yields_gray_raster() {
    let img = process_image(&png_of(3, 2, 42)).unwrap();
    assert_eq!((img.width, img.height), (3, 2));
    assert_eq!(img.pixels, vec![42; 6]);
    assert!(matches!(process_image(&Vec::new()), Err(CoreError::Decode)));
}

#[test]
fn labels_are_trimmed() {
    let l = labels("  Starry Night \n", "  Van Gogh ").unwrap();
    assert_eq!(l.title, "Starry Night");
    assert_eq!(l.artist, Some("Van Gogh".to_string()));
    let l = labels("Untitled", "   ").unwrap();
    assert_eq!(l.artist, None);
    assert!(matches!(labels(" \t ", "Someone"), Err(CoreError::MissingTitle)));
}

#[test]
fn data_url_embeds_base64() {
    assert_eq!(to_src(&vec![1, 2, 3], "png"), "data:image/png;base64,AQID");
    assert_eq!(to_src(&b"hi".to_vec(), "jpeg"), "data:image/jpeg;base64,aGk=");
    assert_eq!(to_src(&Vec::new(), "jpeg"), "data:image/jpeg;base64,");
}

#[test]
fn errors_map_to_status_classes() {
    assert_eq!(CoreError::Decode.status(), 400);
    assert_eq!(CoreError::InvalidSize.status(), 400);
    assert_eq!(CoreError::MissingTitle.status(), 400);
    assert_eq!(CoreError::NotFound.status(), 404);
    assert_eq!(CoreError::EmptyCatalog.status(), 404);
    assert_eq!(CoreError::Encode.status(), 500);
}

#[test]
fn formats_are_distinct() {
    assert_ne!(RasterFormat::Bmp, RasterFormat::Jpeg);
}
