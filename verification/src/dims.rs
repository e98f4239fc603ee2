//! Best-effort pixel-dimension probe. Dimensions are metadata, not a
//! correctness gate: a failed decode yields `(0, 0)` instead of an error.

use vstd::prelude::*;

verus! {

/// The pixel dimensions that a full decode of `bytes` yields, or `None`
/// when the bytes do not decode as an image.
pub uninterp spec fn decoded_dims(bytes: Seq<u8>) -> Option<(u32, u32)>;

/// Relies on image::load_from_memory and GenericImageView::dimensions:
/// decoding is a function of the bytes alone, and `dimensions` returns
/// the decoded image's width and height in pixels.
#[verifier::external_body]
fn decode_dimensions(bytes: &[u8]) -> (r: Option<(u32, u32)>)
    ensures
        r == decoded_dims(bytes@),
{
    match image::load_from_memory(bytes) {
        Ok(img) => Some(image::GenericImageView::dimensions(&img)),
        Err(_) => None,
    }
}

/// The probe's result: decoded dimensions, or `(0, 0)` on any failure.
pub open spec fn spec_probed_dims(bytes: Seq<u8>) -> (u32, u32) {
    match decoded_dims(bytes) {
        Some(d) => d,
        None => (0u32, 0u32),
    }
}

/// Probes the pixel width and height of an encoded image. Tolerates any
/// decode failure by returning zero dimensions.
pub fn probe_dimensions(bytes: &[u8]) -> (r: (u32, u32))
    ensures
        r == spec_probed_dims(bytes@),
{
    match decode_dimensions(bytes) {
        Some(d) => d,
        None => (0, 0),
    }
}

} // verus!
