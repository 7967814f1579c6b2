//! Orientation normalization.
//!
//! An EXIF orientation tag (an integer in 1..=8) names the geometric
//! transform a viewer must apply to the stored pixels to display the image
//! upright. This module interprets the tag — failing open to the identity
//! for absent or out-of-range values — and applies the selected transform
//! to a pixel buffer.
use vstd::arithmetic::div_mod::{
    lemma_fundamental_div_mod, lemma_fundamental_div_mod_converse_div,
    lemma_fundamental_div_mod_converse_mod,
};
use vstd::prelude::*;

use crate::pixels::{pixel_at, sized_view, wf_view, Pixels, PixelsView};

verus! {

/// The eight geometric transforms an EXIF orientation tag can select.
/// Rotations are clockwise.
#[derive(Clone, Copy, Debug, PartialEq, Eq, Structural)]
pub enum Transform {
    /// Leave the image as it is (tag 1).
    Identity,
    /// Mirror the image left-to-right (tag 2).
    FlipHorizontal,
    /// Rotate by 180 degrees (tag 3).
    Rotate180,
    /// Mirror the image top-to-bottom (tag 4).
    FlipVertical,
    /// Flip vertically, then rotate by 90 degrees (tag 5): a transposition.
    FlipVerticalRotate90,
    /// Rotate by 90 degrees (tag 6).
    Rotate90,
    /// Flip horizontally, then rotate by 90 degrees (tag 7).
    FlipHorizontalRotate90,
    /// Rotate by 270 degrees (tag 8).
    Rotate270,
}

/// Whether the tag is one of the eight defined orientation values.
pub open spec fn valid_tag(tag: Option<u8>) -> bool {
    match tag {
        Some(t) => 1 <= t <= 8,
        None => false,
    }
}

/// The transform a (possibly absent) orientation tag selects. Absent tags
/// and values outside 1..=8 fail open to the identity transform.
pub open spec fn tag_transform(tag: Option<u8>) -> Transform {
    match tag {
        Some(2u8) => Transform::FlipHorizontal,
        Some(3u8) => Transform::Rotate180,
        Some(4u8) => Transform::FlipVertical,
        Some(5u8) => Transform::FlipVerticalRotate90,
        Some(6u8) => Transform::Rotate90,
        Some(7u8) => Transform::FlipHorizontalRotate90,
        Some(8u8) => Transform::Rotate270,
        _ => Transform::Identity,
    }
}

/// Whether the transform turns rows into columns, so that the output
/// dimensions are the input dimensions swapped.
pub open spec fn swaps_axes(t: Transform) -> bool {
    match t {
        Transform::FlipVerticalRotate90 => true,
        Transform::Rotate90 => true,
        Transform::FlipHorizontalRotate90 => true,
        Transform::Rotate270 => true,
        _ => false,
    }
}

/// Width of the transformed image.
pub open spec fn out_width(v: PixelsView, t: Transform) -> int {
    if swaps_axes(t) {
        v.height
    } else {
        v.width
    }
}

/// Height of the transformed image.
pub open spec fn out_height(v: PixelsView, t: Transform) -> int {
    if swaps_axes(t) {
        v.width
    } else {
        v.height
    }
}

/// The x coordinate, in the source image, of the pixel that the transform
/// places at output position (x, y). `w` and `h` are the source dimensions.
pub open spec fn source_x(t: Transform, w: int, h: int, x: int, y: int) -> int {
    match t {
        Transform::Identity => x,
        Transform::FlipHorizontal => w - 1 - x,
        Transform::Rotate180 => w - 1 - x,
        Transform::FlipVertical => x,
        Transform::FlipVerticalRotate90 => y,
        Transform::Rotate90 => y,
        Transform::FlipHorizontalRotate90 => w - 1 - y,
        Transform::Rotate270 => w - 1 - y,
    }
}

/// The y coordinate, in the source image, of the pixel that the transform
/// places at output position (x, y).
pub open spec fn source_y(t: Transform, w: int, h: int, x: int, y: int) -> int {
    match t {
        Transform::Identity => y,
        Transform::FlipHorizontal => y,
        Transform::Rotate180 => h - 1 - y,
        Transform::FlipVertical => h - 1 - y,
        Transform::FlipVerticalRotate90 => x,
        Transform::Rotate90 => h - 1 - x,
        Transform::FlipHorizontalRotate90 => h - 1 - x,
        Transform::Rotate270 => x,
    }
}

/// The image after the transform: output pixel (x, y) holds the four bytes
/// of source pixel (source_x(t, ..), source_y(t, ..)).
pub open spec fn transformed(v: PixelsView, t: Transform) -> PixelsView {
    let ow = out_width(v, t);
    let oh = out_height(v, t);
    PixelsView {
        width: ow,
        height: oh,
        data: Seq::new(
            (4 * (ow * oh)) as nat,
            |i: int|
                {
                    let pix = i / 4;
                    let chan = i % 4;
                    let x = pix % ow;
                    let y = pix / ow;
                    v.data[4 * (
                    source_y(t, v.width, v.height, x, y) * v.width + source_x(
                        t,
                        v.width,
                        v.height,
                        x,
                        y,
                    )) + chan]
                },
        ),
    }
}

/// Each byte of the transformed image is the matching byte of the source
/// pixel that the transform maps to that position.
proof fn lemma_transformed_byte(v: PixelsView, t: Transform, x: int, y: int, chan: int)
    requires
        sized_view(v),
        0 <= x < out_width(v, t),
        0 <= y < out_height(v, t),
        0 <= chan < 4,
    ensures
        0 <= 4 * (y * out_width(v, t) + x) + chan < transformed(v, t).data.len(),
        transformed(v, t).data[4 * (y * out_width(v, t) + x) + chan] == v.data[4 * (
        source_y(t, v.width, v.height, x, y) * v.width + source_x(t, v.width, v.height, x, y))
            + chan],
{
    let ow = out_width(v, t);
    let oh = out_height(v, t);
    let pix = y * ow + x;
    let i = 4 * pix + chan;
    assert(0 <= pix < ow * oh) by (nonlinear_arith)
        requires
            0 <= x < ow,
            0 <= y < oh,
            pix == y * ow + x,
    ;
    lemma_fundamental_div_mod_converse_div(i, 4, pix, chan);
    lemma_fundamental_div_mod_converse_mod(i, 4, pix, chan);
    lemma_fundamental_div_mod_converse_div(pix, ow, y, x);
    lemma_fundamental_div_mod_converse_mod(pix, ow, y, x);
}

/// Runtime test for `swaps_axes`.
fn axes_swapped(t: Transform) -> (b: bool)
    ensures
        b == swaps_axes(t),
{
    match t {
        Transform::FlipVerticalRotate90 => true,
        Transform::Rotate90 => true,
        Transform::FlipHorizontalRotate90 => true,
        Transform::Rotate270 => true,
        _ => false,
    }
}

/// The source pixel coordinates for output position (x, y), as `source_x`
/// and `source_y` give them.
fn source_coords(t: Transform, w: u32, h: u32, x: u32, y: u32) -> (sc: (u32, u32))
    requires
        if swaps_axes(t) {
            x < h && y < w
        } else {
            x < w && y < h
        },
    ensures
        sc.0 as int == source_x(t, w as int, h as int, x as int, y as int),
        sc.1 as int == source_y(t, w as int, h as int, x as int, y as int),
        sc.0 < w,
        sc.1 < h,
{
    match t {
        Transform::Identity => (x, y),
        Transform::FlipHorizontal => (w - 1 - x, y),
        Transform::Rotate180 => (w - 1 - x, h - 1 - y),
        Transform::FlipVertical => (x, h - 1 - y),
        Transform::FlipVerticalRotate90 => (y, x),
        Transform::Rotate90 => (y, h - 1 - x),
        Transform::FlipHorizontalRotate90 => (w - 1 - y, h - 1 - x),
        Transform::Rotate270 => (w - 1 - y, x),
    }
}

/// Apply a geometric transform to a pixel buffer, producing a new buffer.
#[verifier::loop_isolation(false)]
pub fn apply_transform(p: &Pixels, t: Transform) -> (r: Pixels)
    requires
        p.sized(),
    ensures
        r.sized(),
        r@ == transformed(p@, t),
{
    let w = p.width;
    let h = p.height;
    let swapped = axes_swapped(t);
    let ow = if swapped {
        h
    } else {
        w
    };
    let oh = if swapped {
        w
    } else {
        h
    };
    let dlen = p.data.len();
    let mut out: Vec<u8> = Vec::new();
    let mut y: u32 = 0;
    while y < oh
        invariant
            y <= oh,
            out@.len() == 4 * ((y as int) * (ow as int)),
            forall|i: int| 0 <= i < out@.len() ==> out@[i] == transformed(p@, t).data[i],
        decreases oh - y,
    {
        let mut x: u32 = 0;
        while x < ow
            invariant
                x <= ow,
                y < oh,
                out@.len() == 4 * ((y as int) * (ow as int) + x as int),
                forall|i: int| 0 <= i < out@.len() ==> out@[i] == transformed(p@, t).data[i],
            decreases ow - x,
        {
            let (sx, sy) = source_coords(t, w, h, x, y);
            proof {
                assert((sy as int) * (w as int) + (sx as int) < (w as int) * (h as int))
                    by (nonlinear_arith)
                    requires
                        (sx as int) < (w as int),
                        (sy as int) < (h as int),
                        0 <= (sx as int),
                        0 <= (sy as int),
                ;
                assert(dlen as int == 4 * ((w as int) * (h as int)));
            }
            let base: usize = 4 * ((sy as usize) * (w as usize) + (sx as usize));
            let b0 = p.data[base];
            let b1 = p.data[base + 1];
            let b2 = p.data[base + 2];
            let b3 = p.data[base + 3];
            let ghost pre = out@;
            out.push(b0);
            out.push(b1);
            out.push(b2);
            out.push(b3);
            proof {
                lemma_transformed_byte(p@, t, x as int, y as int, 0);
                lemma_transformed_byte(p@, t, x as int, y as int, 1);
                lemma_transformed_byte(p@, t, x as int, y as int, 2);
                lemma_transformed_byte(p@, t, x as int, y as int, 3);
                assert(out@ == pre.push(b0).push(b1).push(b2).push(b3));
            }
            x = x + 1;
        }
        y = y + 1;
        proof {
            assert((y as int) * (ow as int) == (y as int - 1) * (ow as int) + (ow as int))
                by (nonlinear_arith);
        }
    }
    proof {
        assert((oh as int) * (ow as int) == (ow as int) * (oh as int)) by (nonlinear_arith);
        assert(0 <= (ow as int) * (oh as int)) by (nonlinear_arith);
        assert(out@ =~= transformed(p@, t).data);
    }
    Pixels { width: ow, height: oh, data: out }
}

/// Runtime interpretation of an orientation tag, as `tag_transform`.
pub fn transform_for_tag(tag: Option<u8>) -> (t: Transform)
    ensures
        t == tag_transform(tag),
{
    match tag {
        Some(2u8) => Transform::FlipHorizontal,
        Some(3u8) => Transform::Rotate180,
        Some(4u8) => Transform::FlipVertical,
        Some(5u8) => Transform::FlipVerticalRotate90,
        Some(6u8) => Transform::Rotate90,
        Some(7u8) => Transform::FlipHorizontalRotate90,
        Some(8u8) => Transform::Rotate270,
        _ => Transform::Identity,
    }
}

/// Apply the transform that the (possibly absent) orientation tag selects.
pub fn normalize_orientation(p: &Pixels, tag: Option<u8>) -> (r: Pixels)
    requires
        p.sized(),
    ensures
        r.sized(),
        r@ == transformed(p@, tag_transform(tag)),
{
    let t = transform_for_tag(tag);
    apply_transform(p, t)
}

/// Law: the identity transform leaves the image unchanged.
pub proof fn lemma_identity_transform(v: PixelsView)
    requires
        sized_view(v),
    ensures
        transformed(v, Transform::Identity) == v,
{
    let tv = transformed(v, Transform::Identity);
    assert forall|i: int| 0 <= i < tv.data.len() implies tv.data[i] == v.data[i] by {
        let ow = v.width;
        assert(ow > 0) by (nonlinear_arith)
            requires
                0 <= i < 4 * (ow * v.height),
                ow >= 0,
                v.height >= 0,
        ;
        let pix = i / 4;
        let chan = i % 4;
        lemma_fundamental_div_mod(i, 4);
        lemma_fundamental_div_mod(pix, ow);
        assert(pix == ow * (pix / ow) + pix % ow);
        assert((pix / ow) * ow == ow * (pix / ow)) by (nonlinear_arith);
        assert(4 * ((pix / ow) * ow + pix % ow) + chan == i);
    };
    assert(tv.data =~= v.data);
}

/// Law: a tag that is absent or outside 1..=8 produces exactly the result
/// of tag 1 — the source image unchanged (the fail-open policy).
pub proof fn lemma_fail_open(v: PixelsView, tag: Option<u8>)
    requires
        sized_view(v),
        !valid_tag(tag),
    ensures
        transformed(v, tag_transform(tag)) == transformed(v, tag_transform(Some(1u8))),
        transformed(v, tag_transform(tag)) == v,
{
    assert(tag_transform(tag) == Transform::Identity);
    assert(tag_transform(Some(1u8)) == Transform::Identity);
    lemma_identity_transform(v);
}

/// Law: tag 6 rotates the image by 90 degrees clockwise — the dimensions
/// swap, and output pixel (x, y) is source pixel (y, height - 1 - x).
pub proof fn lemma_rotate90(v: PixelsView, x: int, y: int)
    requires
        wf_view(v),
        0 <= x < v.height,
        0 <= y < v.width,
    ensures
        tag_transform(Some(6u8)) == Transform::Rotate90,
        transformed(v, Transform::Rotate90).width == v.height,
        transformed(v, Transform::Rotate90).height == v.width,
        pixel_at(transformed(v, Transform::Rotate90), x, y) == pixel_at(v, y, v.height - 1 - x),
{
    let t = Transform::Rotate90;
    let tv = transformed(v, t);
    assert(4 * ((v.height - 1 - x) * v.width + y) + 4 <= v.data.len()) by (nonlinear_arith)
        requires
            0 <= x < v.height,
            0 <= y < v.width,
            v.data.len() == 4 * (v.width * v.height),
    ;
    assert(4 * (y * tv.width + x) + 4 <= tv.data.len()) by (nonlinear_arith)
        requires
            0 <= x < tv.width,
            0 <= y < tv.height,
            tv.width == v.height,
            tv.height == v.width,
            tv.data.len() == 4 * (v.height * v.width),
    ;
    assert forall|chan: int| 0 <= chan < 4 implies pixel_at(tv, x, y)[chan] == pixel_at(
        v,
        y,
        v.height - 1 - x,
    )[chan] by {
        lemma_transformed_byte(v, t, x, y, chan);
    };
    assert(pixel_at(tv, x, y) =~= pixel_at(v, y, v.height - 1 - x));
}

} // verus!
