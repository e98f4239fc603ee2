//! Content-based image detection. Whether a byte buffer is an image is
//! decided by sniffing its leading magic bytes, never by a file name.

use vstd::prelude::*;

verus! {

/// Whether a byte sequence carries a known image format's magic bytes.
pub uninterp spec fn is_image_bytes(bytes: Seq<u8>) -> bool;

/// Relies on infer::is_image: matches the buffer's leading bytes against
/// the known image magic numbers, a function of the bytes alone.
#[verifier::external_body]
fn infer_is_image(bytes: &[u8]) -> (r: bool)
    ensures
        r == is_image_bytes(bytes@),
{
    infer::is_image(bytes)
}

/// Decides whether `bytes` hold an image, by content sniffing. Never
/// fails: unrecognized content simply yields `false`.
pub fn classify_bytes(bytes: &[u8]) -> (r: bool)
    ensures
        r == is_image_bytes(bytes@),
{
    infer_is_image(bytes)
}

} // verus!
