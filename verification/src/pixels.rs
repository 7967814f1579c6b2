//! The pixel buffer that flows through the pipeline.
//!
//! A `Pixels` value is a tightly packed, row-major 8-bit RGBA buffer: pixel
//! `(x, y)` occupies the four bytes starting at `4 * (y * width + x)`.
use vstd::prelude::*;

verus! {

/// The mathematical view of a pixel buffer: dimensions and the raw bytes.
pub ghost struct PixelsView {
    pub width: int,
    pub height: int,
    pub data: Seq<u8>,
}

/// A buffer is sized when it holds exactly four bytes per pixel.
pub open spec fn sized_view(v: PixelsView) -> bool {
    &&& v.width >= 0
    &&& v.height >= 0
    &&& v.data.len() == 4 * (v.width * v.height)
}

/// A well-formed image: sized, and with both dimensions positive.
pub open spec fn wf_view(v: PixelsView) -> bool {
    &&& sized_view(v)
    &&& v.width > 0
    &&& v.height > 0
}

/// The four bytes of pixel `(x, y)` (red, green, blue, alpha).
pub open spec fn pixel_at(v: PixelsView, x: int, y: int) -> Seq<u8> {
    v.data.subrange(4 * (y * v.width + x), 4 * (y * v.width + x) + 4)
}

/// A tightly packed, row-major 8-bit RGBA pixel buffer.
#[derive(Clone, Debug, PartialEq, Eq)]
pub struct Pixels {
    pub width: u32,
    pub height: u32,
    pub data: Vec<u8>,
}

impl View for Pixels {
    type V = PixelsView;

    open spec fn view(&self) -> PixelsView {
        PixelsView { width: self.width as int, height: self.height as int, data: self.data@ }
    }
}

impl Pixels {
    /// The buffer holds exactly four bytes per pixel.
    pub open spec fn sized(&self) -> bool {
        sized_view(self@)
    }

    /// Sized, with both dimensions positive.
    pub open spec fn wf(&self) -> bool {
        wf_view(self@)
    }

    /// Runtime check of `wf`: four bytes per pixel and positive dimensions.
    pub fn is_well_formed(&self) -> (b: bool)
        ensures
            b == self.wf(),
    {
        proof {
            vstd::arithmetic::mul::lemma_mul_upper_bound(
                self.width as int,
                u32::MAX as int,
                self.height as int,
                u32::MAX as int,
            );
        }
        let wh: u128 = (self.width as u128) * (self.height as u128);
        self.width > 0 && self.height > 0 && (self.data.len() as u128) == 4 * wh
    }
}

} // verus!
