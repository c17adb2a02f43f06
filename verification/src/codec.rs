//! Encodings that other crates compute: base64, percent-decoding and JPEG.
//!
//! Each function here is a thin, unverified call. What it returns depends
//! on its arguments alone and takes pages to state, so the contract gives
//! the result a name and says nothing more of it.

use vstd::prelude::*;

verus! {

/// The standard base64 text of `bytes`, with padding.
pub uninterp spec fn base64_text(bytes: Seq<u8>) -> Seq<char>;

/// The text with its percent-escapes replaced by the bytes they stand for,
/// or `None` where those bytes are not UTF-8.
pub uninterp spec fn percent_decoded(text: Seq<char>) -> Option<Seq<char>>;

/// The JPEG file for an image of `width` by `height` pixels, three bytes
/// (red, green, blue) to the pixel, at the given quality, or `None` where
/// the encoder refuses the image.
pub uninterp spec fn jpeg_bytes(rgb: Seq<u8>, width: u32, height: u32, quality: u8) -> Option<
    Seq<u8>,
>;

/// What bytes, if there are any, stand for in contracts.
pub open spec fn bytes_view(bytes: Option<Vec<u8>>) -> Option<Seq<u8>> {
    match bytes {
        Some(held) => Some(held@),
        None => None,
    }
}

/// The base64 text of `len` bytes can be allocated: four characters for
/// every three bytes, rounded up, is a size a buffer can have.
pub open spec fn base64_fits(len: nat) -> bool {
    4 * ((len + 2) / 3) <= isize::MAX
}

/// `Engine::encode` of the `STANDARD` engine. It panics where the length
/// of the text overflows or cannot be allocated, which `requires` rules out.
#[verifier::external_body]
pub(crate) fn base64(bytes: &[u8]) -> (text: String)
    requires
        base64_fits(bytes@.len()),
    ensures
        text@ == base64_text(bytes@),
{
    base64::Engine::encode(&base64::engine::general_purpose::STANDARD, bytes)
}

/// `urlencoding::decode`. Its error, bytes that are not UTF-8, becomes
/// `None`.
#[verifier::external_body]
pub(crate) fn percent_decode(text: &str) -> (decoded: Option<String>)
    ensures
        decoded.deep_view() == percent_decoded(text@),
{
    match urlencoding::decode(text) {
        Ok(decoded) => Some(decoded.into_owned()),
        Err(_) => None,
    }
}

/// `JpegEncoder::new_with_quality` and `JpegEncoder::encode` with
/// `ColorType::Rgb8`, writing into a vector. `encode` panics in two
/// places, both of which `requires` rules out: where the buffer's length is
/// not three bytes for each pixel, and where it unwraps
/// `ImageBuffer::from_raw`, which gives nothing if three bytes for each pixel
/// of a row do not fit into a `usize`. Its error becomes `None`.
#[verifier::external_body]
pub(crate) fn jpeg(rgb: &Vec<u8>, width: u32, height: u32, quality: u8) -> (encoded: Option<Vec<u8>>)
    requires
        rgb@.len() == 3 * (width * height),
        3 * width <= usize::MAX,
    ensures
        bytes_view(encoded) == jpeg_bytes(rgb@, width, height, quality),
{
    let mut out = Vec::new();
    let done = image::codecs::jpeg::JpegEncoder::new_with_quality(&mut out, quality)
        .encode(rgb, width, height, image::ColorType::Rgb8);
    match done {
        Ok(()) => Some(out),
        Err(_) => None,
    }
}

} // verus!
