use crate::codec::{
    jpeg_encode_l8, jpeg_encode_la8, jpeg_encode_rgb8, jpeg_encode_rgba8, jpeg_of, resize_l8,
    resize_la8, resize_rgb8, resize_rgba8, resized_pixels,
};
use crate::format::{ImagePayload, PixelFormat};
use vstd::arithmetic::div_mod::{lemma_div_is_ordered, lemma_div_multiples_vanish};
use vstd::arithmetic::mul::lemma_mul_inequality;
use vstd::prelude::*;

verus! {

/// The fatal conditions a transcode run can hit. Every one aborts the run:
/// no partial output is ever produced past a failed texture.
#[derive(Clone, Copy, PartialEq, Eq, Structural, Debug)]
pub enum TranscodeError {
    /// The payload's channel layout is outside the supported set.
    UnsupportedPixelFormat,
    /// The raw byte count disagrees with the declared dimensions and layout.
    PixelBuffer,
    /// The compression step was refused (quality out of range, or the encoder
    /// itself failed).
    Encode,
}

/// Dimensions after fitting a `w` by `h` bitmap inside a `max` by `max` box:
/// a bitmap already inside the box keeps its size (no upscaling); otherwise
/// the longer axis is brought down to `max` and the shorter is scaled in
/// proportion, rounded down but kept at least 1.
pub open spec fn spec_fit_dimensions(w: int, h: int, max: int) -> (int, int) {
    if w <= max && h <= max {
        (w, h)
    } else if h <= w {
        (max, vstd::math::max(1, (h * max) / w))
    } else {
        (vstd::math::max(1, (w * max) / h), max)
    }
}

/// Scaling the shorter axis in proportion never overshoots the box and never
/// upscales: for positive `a <= b`, `(a * max) / b` lies within both `max`
/// and `a`.
proof fn lemma_scaled_axis_bounds(a: int, b: int, max: int)
    requires
        1 <= a <= b,
        1 <= max <= b,
    ensures
        (a * max) / b <= max,
        (a * max) / b <= a,
        0 <= (a * max) / b,
{
    lemma_mul_inequality(a, b, max);
    lemma_div_is_ordered(a * max, b * max, b);
    lemma_div_multiples_vanish(max, b);
    assert(b * max == max * b) by (nonlinear_arith);
    assert(0 <= a * max) by (nonlinear_arith)
        requires
            1 <= a,
            1 <= max,
    ;
    lemma_mul_inequality(max, b, a);
    assert(a * max == max * a && b * a == a * b) by (nonlinear_arith);
    lemma_div_is_ordered(a * max, a * b, b);
    lemma_div_multiples_vanish(a, b);
    lemma_div_is_ordered(0, a * max, b);
}

/// The fit-within-box law: the fitted dimensions never exceed the box, never
/// exceed the original (no upscaling), stay positive, and at least one axis
/// lands exactly on `min(original, max)`.
pub proof fn lemma_fit_within_box(w: int, h: int, max: int)
    requires
        1 <= w,
        1 <= h,
        1 <= max,
    ensures
        spec_fit_dimensions(w, h, max).0 <= max,
        spec_fit_dimensions(w, h, max).1 <= max,
        spec_fit_dimensions(w, h, max).0 <= w,
        spec_fit_dimensions(w, h, max).1 <= h,
        1 <= spec_fit_dimensions(w, h, max).0,
        1 <= spec_fit_dimensions(w, h, max).1,
        spec_fit_dimensions(w, h, max).0 == vstd::math::min(w, max)
            || spec_fit_dimensions(w, h, max).1 == vstd::math::min(h, max),
{
    if w <= max && h <= max {
    } else if h <= w {
        lemma_scaled_axis_bounds(h, w, max);
    } else {
        lemma_scaled_axis_bounds(w, h, max);
    }
}

/// Computes the output size of a resize that fits the bitmap inside a
/// `max` by `max` box, exactly as `spec_fit_dimensions` states it.
pub fn fit_dimensions(w: u32, h: u32, max: u32) -> (r: (u32, u32))
    requires
        1 <= w,
        1 <= h,
        1 <= max,
    ensures
        (r.0 as int, r.1 as int) == spec_fit_dimensions(w as int, h as int, max as int),
        r.0 <= max,
        r.1 <= max,
        1 <= r.0,
        1 <= r.1,
{
    proof {
        lemma_fit_within_box(w as int, h as int, max as int);
    }
    if w <= max && h <= max {
        (w, h)
    } else if h <= w {
        proof {
            assert((h as int) * (max as int) <= 0xffff_ffff * 0xffff_ffff) by (nonlinear_arith)
                requires
                    h <= 0xffff_ffffu64,
                    max <= 0xffff_ffffu64,
                    0 <= h,
                    0 <= max,
            ;
        }
        let scaled: u64 = (h as u64) * (max as u64) / (w as u64);
        let oh: u32 = if scaled < 1 {
            1
        } else {
            scaled as u32
        };
        (max, oh)
    } else {
        proof {
            assert((w as int) * (max as int) <= 0xffff_ffff * 0xffff_ffff) by (nonlinear_arith)
                requires
                    w <= 0xffff_ffffu64,
                    max <= 0xffff_ffffu64,
                    0 <= w,
                    0 <= max,
            ;
        }
        let scaled: u64 = (w as u64) * (max as u64) / (h as u64);
        let ow: u32 = if scaled < 1 {
            1
        } else {
            scaled as u32
        };
        (ow, max)
    }
}

/// The JPEG dimension ceiling: the encoder writes each axis as 16 bits.
pub const MAX_JPEG_DIMENSION: u32 = 65535;

/// What transcoding one payload yields: the exact JPEG stream for a payload
/// that can be transcoded, and otherwise which fatal error stops the run.
/// A payload in an unsupported layout is rejected as such; a supported one
/// whose byte count disagrees with its dimensions is a corrupt pixel buffer;
/// and the encoder is refused a quality above 100 or a fitted axis that does
/// not fit in 16 bits.
pub open spec fn spec_transcode_result(p: ImagePayload, max: int, quality: int) -> Result<
    Seq<u8>,
    TranscodeError,
> {
    match p.format.spec_channel_count() {
        None => Err(TranscodeError::UnsupportedPixelFormat),
        Some(c) => if !p.well_formed() {
            Err(TranscodeError::PixelBuffer)
        } else {
            let dims = spec_fit_dimensions(p.width as int, p.height as int, max);
            if quality > 100 || dims.0 > MAX_JPEG_DIMENSION || dims.1 > MAX_JPEG_DIMENSION {
                Err(TranscodeError::Encode)
            } else {
                Ok(
                    jpeg_of(
                        resized_pixels(
                            p.pixels@,
                            c as nat,
                            p.width as nat,
                            p.height as nat,
                            dims.0 as nat,
                            dims.1 as nat,
                        ),
                        c as nat,
                        dims.0 as nat,
                        dims.1 as nat,
                        quality as nat,
                    ),
                )
            }
        },
    }
}

/// Converts one raw texture payload into a JPEG stream: the bitmap is rebuilt
/// according to its channel layout, scaled to fit inside a `max` by `max`
/// box, and re-encoded at the given quality. Exactly the outcome that
/// `spec_transcode_result` states, error case for error case.
pub fn transcode_image(p: &ImagePayload, max: u32, quality: u32) -> (r: Result<
    Vec<u8>,
    TranscodeError,
>)
    requires
        1 <= max,
    ensures
        r is Ok <==> spec_transcode_result(*p, max as int, quality as int) is Ok,
        r is Ok ==> r->Ok_0@ == spec_transcode_result(*p, max as int, quality as int)->Ok_0,
        r is Err ==> r->Err_0 == spec_transcode_result(*p, max as int, quality as int)->Err_0,
        r == Err::<Vec<u8>, TranscodeError>(TranscodeError::UnsupportedPixelFormat)
            <==> !p.format.is_supported(),
{
    let c = match p.format.channel_count() {
        None => {
            return Err(TranscodeError::UnsupportedPixelFormat);
        },
        Some(c) => c,
    };
    if p.width < 1 || p.height < 1 {
        return Err(TranscodeError::PixelBuffer);
    }
    proof {
        assert((p.width as int) * (p.height as int) * (c as int) <= 0xffff_ffff * 0xffff_ffff
            * 0xffff_ffff) by (nonlinear_arith)
            requires
                0 <= p.width <= 0xffff_ffffu64,
                0 <= p.height <= 0xffff_ffffu64,
                0 <= c <= 0xffff_ffffu64,
        ;
    }
    let expected: u128 = (p.width as u128) * (p.height as u128) * (c as u128);
    if (p.pixels.len() as u128) != expected {
        return Err(TranscodeError::PixelBuffer);
    }
    let (ow, oh) = fit_dimensions(p.width, p.height, max);
    if quality > 100 || ow > MAX_JPEG_DIMENSION || oh > MAX_JPEG_DIMENSION {
        return Err(TranscodeError::Encode);
    }
    let q8: u8 = quality as u8;
    match p.format {
        PixelFormat::L8 => {
            let rp = resize_l8(&p.pixels, p.width, p.height, ow, oh);
            Ok(jpeg_encode_l8(&rp, ow, oh, q8))
        },
        PixelFormat::La8 => {
            let rp = resize_la8(&p.pixels, p.width, p.height, ow, oh);
            Ok(jpeg_encode_la8(&rp, ow, oh, q8))
        },
        PixelFormat::Rgb8 => {
            let rp = resize_rgb8(&p.pixels, p.width, p.height, ow, oh);
            Ok(jpeg_encode_rgb8(&rp, ow, oh, q8))
        },
        PixelFormat::Rgba8 => {
            let rp = resize_rgba8(&p.pixels, p.width, p.height, ow, oh);
            Ok(jpeg_encode_rgba8(&rp, ow, oh, q8))
        },
        _ => {
            proof {
                assert(false);
            }
            Err(TranscodeError::UnsupportedPixelFormat)
        },
    }
}

} // verus!
