//! Error taxonomy of the thumbnail pipeline.
//!
//! Decoding failures and encoding failures are fatal and surfaced to the
//! caller; a missing or unreadable orientation tag is never an error (the
//! pipeline falls back to the identity orientation instead).
use vstd::prelude::*;

verus! {

/// A fatal failure while turning input bytes into a pixel buffer.
#[derive(Clone, Copy, Debug, PartialEq, Eq, Structural)]
pub enum DecodeError {
    /// No supported image format matches the byte content.
    UnsupportedFormat,
    /// A supported format was recognized, but the stream does not hold a
    /// complete, well-formed image (truncated or malformed data).
    CorruptData,
}

/// A fatal failure while serializing the finished thumbnail.
#[derive(Clone, Copy, Debug, PartialEq, Eq, Structural)]
pub enum EncodeError {
    /// The output codec could not serialize the pixel buffer.
    Codec,
}

/// The error of the whole pipeline: the first fatal stage failure.
#[derive(Clone, Copy, Debug, PartialEq, Eq, Structural)]
pub enum ConvertError {
    /// The input bytes could not be decoded.
    Decode(DecodeError),
    /// The finished thumbnail could not be encoded.
    Encode(EncodeError),
}

} // verus!
