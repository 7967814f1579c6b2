//! The full pipeline on real encoded images.
use std::io::Cursor;

use avatar_thumb::errors::{ConvertError, DecodeError};
use avatar_thumb::pixels::Pixels;
use avatar_thumb::{convert_avatar, decode_image, prepare_thumbnail, TARGET_SIZE};

/// Encode an RGBA buffer as PNG bytes.
fn png_bytes(img: &image::RgbaImage) -> Vec<u8> {
    let mut buf = Vec::new();
    image::DynamicImage::ImageRgba8(img.clone())
        .write_to(&mut Cursor::new(&mut buf), image::ImageFormat::Png)
        .unwrap();
    buf
}

/// The grey level of pixel (x, y) of a thumbnail.
fn level_at(p: &Pixels, x: u32, y: u32) -> u8 {
    p.data[(4 * (y * p.width + x)) as usize]
}

#[test]
fn output_is_the_fixed_square() {
    let img = image::RgbaImage::from_fn(3, 5, |x, y| {
        image::Rgba([(40 * x) as u8, (30 * y) as u8, 0, 255])
    });
    let out = prepare_thumbnail(&png_bytes(&img)).unwrap();
    assert_eq!(out.width, TARGET_SIZE);
    assert_eq!(out.height, TARGET_SIZE);
    assert_eq!(out.data.len(), (4 * TARGET_SIZE * TARGET_SIZE) as usize);
}

#[test]
fn one_pixel_input_fills_the_square() {
    let img = image::RgbaImage::from_pixel(1, 1, image::Rgba([200, 10, 30, 255]));
    let out = prepare_thumbnail(&png_bytes(&img)).unwrap();
    assert_eq!((out.width, out.height), (TARGET_SIZE, TARGET_SIZE));
    for (x, y) in [(0, 0), (479, 0), (0, 479), (479, 479), (240, 240)] {
        let i = (4 * (y * out.width + x)) as usize;
        assert_eq!(&out.data[i..i + 4], &[200, 10, 30, 255]);
    }
}

#[test]
fn truncated_input_is_corrupt_not_a_crash() {
    let img = image::RgbaImage::from_fn(16, 16, |x, y| {
        image::Rgba([x as u8, y as u8, (x + y) as u8, 255])
    });
    let bytes = png_bytes(&img);
    let truncated = &bytes[..bytes.len() / 2];
    assert_eq!(prepare_thumbnail(truncated), Err(DecodeError::CorruptData));
    assert_eq!(
        convert_avatar(truncated),
        Err(ConvertError::Decode(DecodeError::CorruptData))
    );
}

#[test]
fn unrecognized_bytes_are_unsupported() {
    let junk = b"this is surely not an encoded image of any supported format";
    assert_eq!(prepare_thumbnail(junk), Err(DecodeError::UnsupportedFormat));
    assert_eq!(
        convert_avatar(junk),
        Err(ConvertError::Decode(DecodeError::UnsupportedFormat))
    );
}

#[test]
fn empty_input_is_unsupported() {
    assert_eq!(prepare_thumbnail(&[]), Err(DecodeError::UnsupportedFormat));
}

#[test]
fn same_input_gives_identical_pixels() {
    let img = image::RgbaImage::from_fn(7, 3, |x, y| {
        image::Rgba([(20 * x) as u8, (50 * y) as u8, 9, 255])
    });
    let bytes = png_bytes(&img);
    let a = prepare_thumbnail(&bytes).unwrap();
    let b = prepare_thumbnail(&bytes).unwrap();
    assert_eq!((a.width, a.height), (b.width, b.height));
    assert_eq!(a.data, b.data);
}

/// A minimal EXIF APP1 segment carrying just an orientation entry.
fn exif_app1(orientation: u8) -> Vec<u8> {
    let mut seg = vec![0xFF, 0xE1, 0x00, 0x22];
    seg.extend_from_slice(b"Exif\0\0");
    seg.extend_from_slice(b"II");
    seg.extend_from_slice(&[0x2A, 0x00]);
    seg.extend_from_slice(&[0x08, 0x00, 0x00, 0x00]);
    seg.extend_from_slice(&[0x01, 0x00]);
    seg.extend_from_slice(&[0x12, 0x01, 0x03, 0x00, 0x01, 0x00, 0x00, 0x00]);
    seg.extend_from_slice(&[orientation, 0x00, 0x00, 0x00]);
    seg.extend_from_slice(&[0x00, 0x00, 0x00, 0x00]);
    seg
}

/// A JPEG with an embedded EXIF orientation tag: white left half, black
/// right half before orientation is applied.
fn jpeg_with_orientation(orientation: u8) -> Vec<u8> {
    let img = image::RgbaImage::from_fn(16, 16, |x, _| {
        if x < 8 {
            image::Rgba([255, 255, 255, 255])
        } else {
            image::Rgba([0, 0, 0, 255])
        }
    });
    let mut plain = Vec::new();
    let mut cursor = Cursor::new(&mut plain);
    let encoder = image::codecs::jpeg::JpegEncoder::new_with_quality(&mut cursor, 100);
    image::DynamicImage::ImageRgba8(img)
        .write_with_encoder(encoder)
        .unwrap();
    let mut with_exif = plain[..2].to_vec();
    with_exif.extend_from_slice(&exif_app1(orientation));
    with_exif.extend_from_slice(&plain[2..]);
    with_exif
}

#[test]
fn exif_orientation_tag_is_read() {
    let jpeg = jpeg_with_orientation(6);
    let (_, tag) = decode_image(&jpeg).unwrap();
    assert_eq!(tag, Some(6));
    let plain = jpeg_with_orientation(1);
    let (_, tag1) = decode_image(&plain).unwrap();
    assert_eq!(tag1, Some(1));
}

#[test]
fn exif_quarter_turn_reorients_the_thumbnail() {
    // The source is white on the left, black on the right; a quarter turn
    // must leave the thumbnail white on top and black at the bottom.
    let out = prepare_thumbnail(&jpeg_with_orientation(6)).unwrap();
    assert_eq!((out.width, out.height), (TARGET_SIZE, TARGET_SIZE));
    assert!(level_at(&out, 240, 10) > 200);
    assert!(level_at(&out, 240, 470) < 60);
    // Without the turn it stays white on the left, black on the right.
    let flat = prepare_thumbnail(&jpeg_with_orientation(1)).unwrap();
    assert!(level_at(&flat, 10, 240) > 200);
    assert!(level_at(&flat, 470, 240) < 60);
}

/// The width and height recorded in the ispe box of an AVIF file.
fn ispe_dimensions(avif: &[u8]) -> (u32, u32) {
    let pos = avif
        .windows(4)
        .position(|w| w == b"ispe")
        .expect("no ispe box");
    let at = |i: usize| -> u32 {
        u32::from_be_bytes(avif[i..i + 4].try_into().unwrap())
    };
    (at(pos + 8), at(pos + 12))
}

#[test]
fn bmp_input_is_sniffed_and_converted() {
    let img = image::RgbaImage::from_pixel(5, 2, image::Rgba([1, 2, 3, 255]));
    let mut buf = Vec::new();
    image::DynamicImage::ImageRgba8(img)
        .to_rgb8()
        .write_to(&mut Cursor::new(&mut buf), image::ImageFormat::Bmp)
        .unwrap();
    let out = prepare_thumbnail(&buf).unwrap();
    assert_eq!((out.width, out.height), (TARGET_SIZE, TARGET_SIZE));
}

#[test]
fn well_formedness_check_is_exact() {
    let good = Pixels { width: 2, height: 1, data: vec![0; 8] };
    assert!(good.is_well_formed());
    let degenerate = Pixels { width: 0, height: 1, data: vec![] };
    assert!(!degenerate.is_well_formed());
    let short = Pixels { width: 2, height: 2, data: vec![0; 8] };
    assert!(!short.is_well_formed());
}

#[test]
fn encoded_output_is_an_avif_of_target_size() {
    let img = image::RgbaImage::from_fn(9, 4, |x, y| {
        image::Rgba([(25 * x) as u8, (60 * y) as u8, 120, 255])
    });
    let out = convert_avatar(&png_bytes(&img)).unwrap();
    assert!(out.len() > 12);
    assert_eq!(&out[4..12], b"ftypavif");
    assert_eq!(ispe_dimensions(&out), (TARGET_SIZE, TARGET_SIZE));
}
