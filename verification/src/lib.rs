//! Avatar thumbnail pipeline.
//!
//! One boundary operation turns an arbitrary encoded image into a fixed-size
//! square AVIF thumbnail: the bytes are decoded (with the format sniffed
//! from their content), the embedded EXIF orientation is applied — falling
//! open to the identity when the tag is absent or out of range — the pixels
//! are fill-cropped to the target square with a triangle filter, and the
//! result is AVIF-encoded. The first fatal failure aborts the pipeline; an
//! unreadable orientation tag never does.
pub mod codec;
pub mod errors;
pub mod orient;
pub mod pixels;

use vstd::prelude::*;

use crate::codec::{avif_dims_recorded, avif_header, decode_of, exif_tag_of, fill_resizable, resized_of};
use crate::errors::{ConvertError, DecodeError, EncodeError};
use crate::orient::{normalize_orientation, tag_transform, transformed};
use crate::pixels::{Pixels, PixelsView};

verus! {

/// The fixed edge length, in pixels, of every produced thumbnail.
pub const TARGET_SIZE: u32 = 480;

/// The decoded, orientation-normalized image for a byte sequence: the
/// pixels the decoder yields, turned upright by the transform their
/// orientation tag selects — or the decode failure.
pub open spec fn oriented_view(bytes: Seq<u8>) -> Result<PixelsView, DecodeError> {
    match decode_of(bytes) {
        Ok(v) => Ok(transformed(v, tag_transform(exif_tag_of(bytes)))),
        Err(e) => Err(e),
    }
}

/// What the pipeline owes for a byte sequence: the oriented image,
/// fill-cropped to the fixed target square. An image whose dimensions are
/// degenerate or so extreme that the resampler cannot cover the square is
/// rejected as corrupt.
pub open spec fn thumbnail_view(bytes: Seq<u8>) -> Result<PixelsView, DecodeError> {
    match oriented_view(bytes) {
        Ok(v) => if fill_resizable(v, TARGET_SIZE as int) {
            Ok(resized_of(v, TARGET_SIZE as int))
        } else {
            Err(DecodeError::CorruptData)
        },
        Err(e) => Err(e),
    }
}

/// Decode the input bytes into an RGBA buffer and read their orientation
/// tag. The tag is `None` whenever the metadata holds none or cannot be
/// read — that is never an error.
pub fn decode_image(bytes: &[u8]) -> (r: Result<(Pixels, Option<u8>), DecodeError>)
    ensures
        match r {
            Ok(pt) => decode_of(bytes@) == Ok::<PixelsView, DecodeError>(pt.0@) && pt.0.sized()
                && pt.1 == exif_tag_of(bytes@),
            Err(e) => decode_of(bytes@) == Err::<PixelsView, DecodeError>(e),
        },
{
    let p = match codec::decode_rgba(bytes) {
        Ok(p) => p,
        Err(e) => return Err(e),
    };
    let tag = codec::read_orientation_tag(bytes);
    Ok((p, tag))
}

/// Fill-crop a pixel buffer to the fixed target square.
pub fn resize_to_target(p: &Pixels) -> (r: Pixels)
    requires
        p.sized(),
        fill_resizable(p@, TARGET_SIZE as int),
    ensures
        r.wf(),
        r.width == TARGET_SIZE,
        r.height == TARGET_SIZE,
        r@ == resized_of(p@, TARGET_SIZE as int),
{
    codec::resize_fill_square(p, TARGET_SIZE)
}

/// Encode a finished thumbnail as one complete AVIF file that records the
/// thumbnail's dimensions.
pub fn encode_thumbnail(p: &Pixels) -> (r: Result<Vec<u8>, EncodeError>)
    requires
        p.wf(),
    ensures
        r matches Ok(b) ==> avif_header(b@) && avif_dims_recorded(
            b@,
            p.width as int,
            p.height as int,
        ),
{
    codec::encode_avif(p)
}

/// The whole pipeline short of encoding: decode, normalize the
/// orientation, and fill-crop to the target square. Every successful
/// result is the square thumbnail that `thumbnail_view` names; every
/// failure is the decode failure it names.
pub fn prepare_thumbnail(bytes: &[u8]) -> (r: Result<Pixels, DecodeError>)
    ensures
        match r {
            Ok(p) => thumbnail_view(bytes@) == Ok::<PixelsView, DecodeError>(p@) && p.wf()
                && p.width == TARGET_SIZE && p.height == TARGET_SIZE,
            Err(e) => thumbnail_view(bytes@) == Err::<PixelsView, DecodeError>(e),
        },
{
    let decoded = match decode_image(bytes) {
        Ok(pt) => pt,
        Err(e) => return Err(e),
    };
    let (p, tag) = decoded;
    let oriented = normalize_orientation(&p, tag);
    if !codec::can_fill_resize(&oriented, TARGET_SIZE) {
        return Err(DecodeError::CorruptData);
    }
    Ok(resize_to_target(&oriented))
}

/// The boundary operation: raw image bytes in, encoded AVIF thumbnail
/// bytes out. The first fatal error — decode or encode — aborts the
/// pipeline and is surfaced; a missing or unreadable orientation tag is
/// recovered by the identity orientation and never surfaced.
pub fn convert_avatar(bytes: &[u8]) -> (r: Result<Vec<u8>, ConvertError>)
    ensures
        match r {
            Ok(b) => thumbnail_view(bytes@) is Ok && avif_header(b@) && avif_dims_recorded(
                b@,
                TARGET_SIZE as int,
                TARGET_SIZE as int,
            ),
            Err(e) => match e {
                ConvertError::Decode(d) => thumbnail_view(bytes@) == Err::<
                    PixelsView,
                    DecodeError,
                >(d),
                ConvertError::Encode(_) => thumbnail_view(bytes@) is Ok,
            },
        },
{
    let p = match prepare_thumbnail(bytes) {
        Ok(p) => p,
        Err(e) => return Err(ConvertError::Decode(e)),
    };
    match encode_thumbnail(&p) {
        Ok(b) => Ok(b),
        Err(e) => Err(ConvertError::Encode(e)),
    }
}

/// Law: the pipeline is deterministic. One byte sequence has one
/// thumbnail, so two successful runs over the same input — and in
/// particular two runs that apply the same orientation tag to the same
/// decoded pixels — yield pixel-identical buffers.
pub proof fn lemma_thumbnail_deterministic(bytes: Seq<u8>, a: PixelsView, b: PixelsView)
    requires
        thumbnail_view(bytes) == Ok::<PixelsView, DecodeError>(a),
        thumbnail_view(bytes) == Ok::<PixelsView, DecodeError>(b),
    ensures
        a == b,
{
}

} // verus!
