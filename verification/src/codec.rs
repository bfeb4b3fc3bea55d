//! Trusted boundary to the outside codecs: base64 text encoding, the
//! area-weighted (Gaussian) resampler, and the lossy JPEG encoder. Each
//! wrapper's contract states what the wrapped call's source shows; results
//! that take pages to state are given names (`base64_of`, `resized_pixels`,
//! `jpeg_of`) that the rest of the library reasons over.

use vstd::prelude::*;

verus! {

/// The standard, padded base64 text of a byte sequence.
pub uninterp spec fn base64_of(b: Seq<u8>) -> Seq<char>;

/// The raw bytes of a `w` by `h` bitmap with `channels` bytes per pixel after
/// Gaussian resampling to `ow` by `oh`.
pub uninterp spec fn resized_pixels(
    pixels: Seq<u8>,
    channels: nat,
    w: nat,
    h: nat,
    ow: nat,
    oh: nat,
) -> Seq<u8>;

/// The JPEG stream of a raw `w` by `h` bitmap with `channels` bytes per pixel
/// at the given quality.
pub uninterp spec fn jpeg_of(
    pixels: Seq<u8>,
    channels: nat,
    w: nat,
    h: nat,
    quality: nat,
) -> Seq<u8>;

/// Relies on base64::encode (standard alphabet, padded): the text is a pure
/// function of the input bytes, four characters for every started group of
/// three bytes.
#[verifier::external_body]
pub(crate) fn b64_encode(b: &Vec<u8>) -> (r: String)
    ensures
        r@ == base64_of(b@),
        r@.len() == 4 * ((b@.len() + 2) / 3),
{
    base64::encode(b)
}

/// Relies on base64::decode (standard alphabet, padded) being the inverse of
/// base64::encode: text produced by the encoder decodes back to the bytes it
/// was made from, and to nothing else.
#[verifier::external_body]
pub(crate) fn b64_decode(s: &str) -> (r: Option<Vec<u8>>)
    ensures
        forall|b: Seq<u8>| s@ == base64_of(b) ==> r is Some && r->0@ == b,
{
    match base64::decode(s) {
        Ok(v) => Some(v),
        Err(_) => None,
    }
}

/// Relies on str::strip_prefix: `Some(rest)` exactly when the string starts
/// with the prefix, and then the whole string is the prefix followed by
/// `rest`.
#[verifier::external_body]
pub(crate) fn strip_prefix_of<'a>(s: &'a str, prefix: &str) -> (r: Option<&'a str>)
    ensures
        match r {
            Some(rest) => s@ == prefix@ + rest@,
            None => !prefix@.is_prefix_of(s@),
        },
{
    s.strip_prefix(prefix)
}

/// Relies on image::imageops::resize over 1-channel 8-bit pixels: the output
/// buffer holds exactly `ow * oh` pixels and depends on the input bitmap and
/// the target size alone.
#[verifier::external_body]
pub(crate) fn resize_l8(pixels: &Vec<u8>, w: u32, h: u32, ow: u32, oh: u32) -> (r: Vec<u8>)
    requires
        pixels@.len() == w * h,
        1 <= w,
        1 <= h,
        1 <= ow <= 65535,
        1 <= oh <= 65535,
    ensures
        r@ == resized_pixels(pixels@, 1, w as nat, h as nat, ow as nat, oh as nat),
        r@.len() == ow * oh,
{
    let img = image::GrayImage::from_raw(w, h, pixels.clone()).unwrap();
    image::imageops::resize(&img, ow, oh, image::imageops::FilterType::Gaussian).into_raw()
}

/// Relies on image::imageops::resize over 2-channel 8-bit pixels; see
/// `resize_l8`.
#[verifier::external_body]
pub(crate) fn resize_la8(pixels: &Vec<u8>, w: u32, h: u32, ow: u32, oh: u32) -> (r: Vec<u8>)
    requires
        pixels@.len() == w * h * 2,
        1 <= w,
        1 <= h,
        1 <= ow <= 65535,
        1 <= oh <= 65535,
    ensures
        r@ == resized_pixels(pixels@, 2, w as nat, h as nat, ow as nat, oh as nat),
        r@.len() == ow * oh * 2,
{
    let img = image::GrayAlphaImage::from_raw(w, h, pixels.clone()).unwrap();
    image::imageops::resize(&img, ow, oh, image::imageops::FilterType::Gaussian).into_raw()
}

/// Relies on image::imageops::resize over 3-channel 8-bit pixels; see
/// `resize_l8`.
#[verifier::external_body]
pub(crate) fn resize_rgb8(pixels: &Vec<u8>, w: u32, h: u32, ow: u32, oh: u32) -> (r: Vec<u8>)
    requires
        pixels@.len() == w * h * 3,
        1 <= w,
        1 <= h,
        1 <= ow <= 65535,
        1 <= oh <= 65535,
    ensures
        r@ == resized_pixels(pixels@, 3, w as nat, h as nat, ow as nat, oh as nat),
        r@.len() == ow * oh * 3,
{
    let img = image::RgbImage::from_raw(w, h, pixels.clone()).unwrap();
    image::imageops::resize(&img, ow, oh, image::imageops::FilterType::Gaussian).into_raw()
}

/// Relies on image::imageops::resize over 4-channel 8-bit pixels; see
/// `resize_l8`.
#[verifier::external_body]
pub(crate) fn resize_rgba8(pixels: &Vec<u8>, w: u32, h: u32, ow: u32, oh: u32) -> (r: Vec<u8>)
    requires
        pixels@.len() == w * h * 4,
        1 <= w,
        1 <= h,
        1 <= ow <= 65535,
        1 <= oh <= 65535,
    ensures
        r@ == resized_pixels(pixels@, 4, w as nat, h as nat, ow as nat, oh as nat),
        r@.len() == ow * oh * 4,
{
    let img = image::RgbaImage::from_raw(w, h, pixels.clone()).unwrap();
    image::imageops::resize(&img, ow, oh, image::imageops::FilterType::Gaussian).into_raw()
}

/// Relies on image's JpegEncoder with 1-channel 8-bit input: it clamps the
/// quality into 1..=100, succeeds for any dimensions that fit in 16 bits when
/// writing to an in-memory buffer, and its output depends on the bitmap,
/// dimensions and quality alone.
#[verifier::external_body]
pub(crate) fn jpeg_encode_l8(pixels: &Vec<u8>, w: u32, h: u32, quality: u8) -> (r: Vec<u8>)
    requires
        pixels@.len() == w * h,
        1 <= w <= 65535,
        1 <= h <= 65535,
        quality <= 100,
    ensures
        r@ == jpeg_of(pixels@, 1, w as nat, h as nat, quality as nat),
{
    let mut buf: Vec<u8> = Vec::new();
    let mut cursor = std::io::Cursor::new(&mut buf);
    let mut enc = image::codecs::jpeg::JpegEncoder::new_with_quality(&mut cursor, quality);
    enc.encode(pixels, w, h, image::ColorType::L8).unwrap();
    buf
}

/// Relies on image's JpegEncoder with 2-channel 8-bit input (the alpha
/// channel is dropped by the encoder); see `jpeg_encode_l8`.
#[verifier::external_body]
pub(crate) fn jpeg_encode_la8(pixels: &Vec<u8>, w: u32, h: u32, quality: u8) -> (r: Vec<u8>)
    requires
        pixels@.len() == w * h * 2,
        1 <= w <= 65535,
        1 <= h <= 65535,
        quality <= 100,
    ensures
        r@ == jpeg_of(pixels@, 2, w as nat, h as nat, quality as nat),
{
    let mut buf: Vec<u8> = Vec::new();
    let mut cursor = std::io::Cursor::new(&mut buf);
    let mut enc = image::codecs::jpeg::JpegEncoder::new_with_quality(&mut cursor, quality);
    enc.encode(pixels, w, h, image::ColorType::La8).unwrap();
    buf
}

/// Relies on image's JpegEncoder with 3-channel 8-bit input; see
/// `jpeg_encode_l8`.
#[verifier::external_body]
pub(crate) fn jpeg_encode_rgb8(pixels: &Vec<u8>, w: u32, h: u32, quality: u8) -> (r: Vec<u8>)
    requires
        pixels@.len() == w * h * 3,
        1 <= w <= 65535,
        1 <= h <= 65535,
        quality <= 100,
    ensures
        r@ == jpeg_of(pixels@, 3, w as nat, h as nat, quality as nat),
{
    let mut buf: Vec<u8> = Vec::new();
    let mut cursor = std::io::Cursor::new(&mut buf);
    let mut enc = image::codecs::jpeg::JpegEncoder::new_with_quality(&mut cursor, quality);
    enc.encode(pixels, w, h, image::ColorType::Rgb8).unwrap();
    buf
}

/// Relies on image's JpegEncoder with 4-channel 8-bit input (the alpha
/// channel is dropped by the encoder); see `jpeg_encode_l8`.
#[verifier::external_body]
pub(crate) fn jpeg_encode_rgba8(pixels: &Vec<u8>, w: u32, h: u32, quality: u8) -> (r: Vec<u8>)
    requires
        pixels@.len() == w * h * 4,
        1 <= w <= 65535,
        1 <= h <= 65535,
        quality <= 100,
    ensures
        r@ == jpeg_of(pixels@, 4, w as nat, h as nat, quality as nat),
{
    let mut buf: Vec<u8> = Vec::new();
    let mut cursor = std::io::Cursor::new(&mut buf);
    let mut enc = image::codecs::jpeg::JpegEncoder::new_with_quality(&mut cursor, quality);
    enc.encode(pixels, w, h, image::ColorType::Rgba8).unwrap();
    buf
}

} // verus!
