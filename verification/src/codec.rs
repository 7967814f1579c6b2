//! The trusted boundary to the `image` crate: format sniffing and decoding,
//! orientation metadata, triangle-filter fill-resizing, and AVIF encoding.
//!
//! Each `external_body` function wraps one operation of the `image` crate;
//! its contract states what that crate's source and documentation promise,
//! over uninterpreted names for results that have no short description.
use vstd::prelude::*;

use crate::errors::{DecodeError, EncodeError};
use crate::pixels::{Pixels, PixelsView};

verus! {

/// What `image`'s decoder yields for a byte sequence: the RGBA pixels of
/// the image the bytes hold, or the class of the failure. Decoding is a
/// pure function of the byte content.
pub uninterp spec fn decode_of(bytes: Seq<u8>) -> Result<PixelsView, DecodeError>;

/// The EXIF orientation tag that `image`'s metadata reader finds in a byte
/// sequence, if any. A pure function of the byte content.
pub uninterp spec fn exif_tag_of(bytes: Seq<u8>) -> Option<u8>;

/// The RGBA pixels that `image`'s triangle-filter fill-resize produces for
/// a source image and a square target edge. A pure function of its inputs.
pub uninterp spec fn resized_of(v: PixelsView, target: int) -> PixelsView;

/// The condition under which the fill-resampler is known to produce the
/// full target square: positive dimensions, and an aspect ratio moderate
/// enough that the intermediate scaled image stays within `u32` bounds
/// (beyond them the resampler clamps and the square cannot be covered).
pub open spec fn fill_resizable(v: PixelsView, target: int) -> bool {
    &&& v.width > 0
    &&& v.height > 0
    &&& v.width * target <= (u32::MAX - 1) * v.height
    &&& v.height * target <= (u32::MAX - 1) * v.width
}

/// Runtime check of `fill_resizable`.
pub fn can_fill_resize(p: &Pixels, target: u32) -> (b: bool)
    ensures
        b == fill_resizable(p@, target as int),
{
    if p.width == 0 || p.height == 0 {
        return false;
    }
    proof {
        vstd::arithmetic::mul::lemma_mul_upper_bound(
            p.width as int,
            u32::MAX as int,
            target as int,
            u32::MAX as int,
        );
        vstd::arithmetic::mul::lemma_mul_upper_bound(
            p.height as int,
            u32::MAX as int,
            target as int,
            u32::MAX as int,
        );
        vstd::arithmetic::mul::lemma_mul_upper_bound(
            u32::MAX as int - 1,
            u32::MAX as int,
            p.height as int,
            u32::MAX as int,
        );
        vstd::arithmetic::mul::lemma_mul_upper_bound(
            u32::MAX as int - 1,
            u32::MAX as int,
            p.width as int,
            u32::MAX as int,
        );
    }
    let wt = (p.width as u128) * (target as u128);
    let ht = (p.height as u128) * (target as u128);
    let limit_w = ((u32::MAX - 1) as u128) * (p.height as u128);
    let limit_h = ((u32::MAX - 1) as u128) * (p.width as u128);
    wt <= limit_w && ht <= limit_h
}

/// The first twelve bytes of an AVIF file: the size of the leading ftyp box,
/// the fourcc `ftyp`, and the major brand `avif`.
pub open spec fn avif_header(b: Seq<u8>) -> bool {
    &&& b.len() >= 12
    &&& b[4] == 0x66u8
    &&& b[5] == 0x74u8
    &&& b[6] == 0x79u8
    &&& b[7] == 0x70u8
    &&& b[8] == 0x61u8
    &&& b[9] == 0x76u8
    &&& b[10] == 0x69u8
    &&& b[11] == 0x66u8
}

/// A big-endian 32-bit value read at offset `i` of a byte sequence.
pub open spec fn be_u32_at(b: Seq<u8>, i: int) -> int {
    0x1000000 * (b[i] as int) + 0x10000 * (b[i + 1] as int) + 0x100 * (b[i + 2] as int) + (b[i
        + 3] as int)
}

/// The AVIF image-spatial-extents property (an ispe box) recording these
/// pixel dimensions: the fourcc, a zero version-and-flags word, then width
/// and height as big-endian 32-bit values.
pub open spec fn avif_dims_recorded(b: Seq<u8>, w: int, h: int) -> bool {
    exists|i: int|
        0 <= i && i + 16 <= b.len() && #[trigger] b[i] == 0x69u8 && b[i + 1] == 0x73u8 && b[i
            + 2] == 0x70u8 && b[i + 3] == 0x65u8 && be_u32_at(b, i + 8) == w && be_u32_at(b, i + 12)
            == h
}

/// Relies on image::ImageReader: `with_guessed_format` sniffs the format
/// from the byte content alone; `decode` yields the image, an Unsupported
/// error when no registered format matches (or its decoder is not
/// compiled in), and another error class for a recognized format whose
/// stream cannot be decoded; `DynamicImage::into_rgba8` yields a tightly
/// packed row-major RGBA buffer of four bytes per pixel.
#[verifier::external_body]
pub(crate) fn decode_rgba(bytes: &[u8]) -> (r: Result<Pixels, DecodeError>)
    ensures
        match r {
            Ok(p) => decode_of(bytes@) == Ok::<PixelsView, DecodeError>(p@) && p.sized(),
            Err(e) => decode_of(bytes@) == Err::<PixelsView, DecodeError>(e),
        },
{
    let reader = match image::ImageReader::new(std::io::Cursor::new(bytes)).with_guessed_format() {
        Ok(rd) => rd,
        Err(_) => return Err(DecodeError::CorruptData),
    };
    let img = match reader.decode() {
        Ok(i) => i,
        Err(image::ImageError::Unsupported(_)) => return Err(DecodeError::UnsupportedFormat),
        Err(_) => return Err(DecodeError::CorruptData),
    };
    let rgba = img.into_rgba8();
    let (w, h) = rgba.dimensions();
    Ok(Pixels { width: w, height: h, data: rgba.into_raw() })
}

/// Relies on image::ImageDecoder::orientation: the EXIF orientation tag
/// read from the image's metadata, a pure function of the byte content;
/// `Orientation::to_exif` maps the parsed value back to the tag in 1..=8.
/// Every failure on the way — unknown format, unreadable stream, absent
/// metadata — yields `None`, never an error.
#[verifier::external_body]
pub(crate) fn read_orientation_tag(bytes: &[u8]) -> (r: Option<u8>)
    ensures
        r == exif_tag_of(bytes@),
{
    let reader = image::ImageReader::new(std::io::Cursor::new(bytes)).with_guessed_format().ok()?;
    let mut decoder = reader.into_decoder().ok()?;
    let orientation = image::ImageDecoder::orientation(&mut decoder).ok()?;
    Some(orientation.to_exif())
}

/// Relies on image::DynamicImage::resize_to_fill with FilterType::Triangle:
/// it scales the source by the larger of the two target ratios, so the
/// target square is fully covered, then center-crops the overflow; for a
/// source within `fill_resizable` bounds the result has exactly the
/// requested dimensions, and is a pure function of the pixels and target.
#[verifier::external_body]
pub(crate) fn resize_fill_square(p: &Pixels, target: u32) -> (r: Pixels)
    requires
        p.sized(),
        target > 0,
        fill_resizable(p@, target as int),
    ensures
        r.sized(),
        r.width == target,
        r.height == target,
        r@ == resized_of(p@, target as int),
{
    let buffer = image::RgbaImage::from_raw(p.width, p.height, p.data.clone()).unwrap();
    let img = image::DynamicImage::ImageRgba8(buffer);
    let resized = img.resize_to_fill(target, target, image::imageops::FilterType::Triangle);
    let rgba = resized.into_rgba8();
    let (w, h) = rgba.dimensions();
    Pixels { width: w, height: h, data: rgba.into_raw() }
}

/// Relies on image::codecs::avif::AvifEncoder (speed 10, quality 75) with
/// DynamicImage::write_with_encoder: on success the buffer holds one
/// complete AVIF file, which opens with an ftyp box of major brand `avif`
/// (avif-serialize writes that box first) and carries an ispe box that
/// records the encoded image's dimensions; on failure nothing is returned.
#[verifier::external_body]
pub(crate) fn encode_avif(p: &Pixels) -> (r: Result<Vec<u8>, EncodeError>)
    requires
        p.wf(),
    ensures
        r matches Ok(b) ==> avif_header(b@) && avif_dims_recorded(
            b@,
            p.width as int,
            p.height as int,
        ),
{
    let buffer = image::RgbaImage::from_raw(p.width, p.height, p.data.clone()).unwrap();
    let img = image::DynamicImage::ImageRgba8(buffer);
    let mut out: Vec<u8> = Vec::new();
    let encoder = image::codecs::avif::AvifEncoder::new_with_speed_quality(&mut out, 10, 75);
    match img.write_with_encoder(encoder) {
        Ok(()) => Ok(out),
        Err(_) => Err(EncodeError::Codec),
    }
}

} // verus!
