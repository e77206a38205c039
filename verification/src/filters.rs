use vstd::prelude::*;

verus! {

use crate::pixels::Pixels;
use crate::policy::MAX_DIMENSION;

/// What resampling an RGB image of size `w` x `h` to `nw` x `nh` with the
/// Lanczos filter returns: a function of the pixels and sizes alone.
pub uninterp spec fn resample_of(w: int, h: int, data: Seq<u8>, nw: int, nh: int) -> Seq<u8>;

/// What the unsharp mask with the given sigma (an IEEE-754 single-precision
/// bit pattern) and threshold returns on an RGB image: a function of the
/// pixels, sizes and parameters alone.
pub uninterp spec fn sharpen_of(
    w: int,
    h: int,
    data: Seq<u8>,
    sigma_bits: u32,
    threshold: i32,
) -> Seq<u8>;

/// What the contrast adjustment with the given delta (an IEEE-754
/// single-precision bit pattern) returns on an RGB image: a function of the
/// pixels, sizes and parameter alone.
pub uninterp spec fn contrast_of(w: int, h: int, data: Seq<u8>, delta_bits: u32) -> Seq<u8>;

/// The sigma values the sharpen filter accepts: the bit patterns of the
/// positive normal single-precision floats, [0x0080_0000, 0x7F80_0000).
/// The blur inside the unsharp mask asserts exactly this of its sigma
/// (`is_normal` and positive), so zero, subnormals, infinities, NaNs and
/// every negative pattern must be kept away from it.
pub open spec fn spec_sigma_ok(sigma_bits: u32) -> bool {
    0x0080_0000 <= sigma_bits < 0x7F80_0000
}

/// The delta values the contrast filter accepts: every single-precision
/// bit pattern that is not a NaN (ignoring the sign, at most 0x7F80_0000,
/// the pattern of infinity). The contrast law clamps every finite or
/// infinite delta, but a NaN survives the clamp and makes the cast back
/// to a channel value abort.
pub open spec fn spec_contrast_delta_ok(delta_bits: u32) -> bool {
    delta_bits & 0x7FFF_FFFF <= 0x7F80_0000
}

/// Relies on image::DynamicImage::resize_exact with FilterType::Lanczos3:
/// it returns an image of exactly `nw` x `nh` pixels, so the raw RGB buffer
/// holds `nw * nh * 3` bytes.
#[verifier::external_body]
pub(crate) fn resample_rgb(px: &Pixels, nw: u32, nh: u32) -> (r: Pixels)
    requires
        px.wf(),
        1 <= nw <= MAX_DIMENSION,
        1 <= nh <= MAX_DIMENSION,
    ensures
        r.width == nw,
        r.height == nh,
        r.data@ == resample_of(px.width as int, px.height as int, px.data@, nw as int, nh as int),
        r.data@.len() == nw * nh * 3,
        r.wf(),
{
    let buffer = image::RgbImage::from_raw(px.width, px.height, px.data.clone()).unwrap();
    let out = image::DynamicImage::ImageRgb8(buffer)
        .resize_exact(nw, nh, image::imageops::FilterType::Lanczos3)
        .into_rgb8();
    Pixels { width: nw, height: nh, data: out.into_raw() }
}

/// Relies on image::DynamicImage::unsharpen: it sharpens with an unsharp
/// mask and keeps the image size. The sigma is handed over as an IEEE-754
/// single-precision bit pattern, turned back into a float bit for bit; it
/// must be a positive normal float, since the gaussian blur inside
/// `unsharpen` asserts that of its sigma and aborts otherwise.
#[verifier::external_body]
pub(crate) fn unsharpen_rgb(px: &Pixels, sigma_bits: u32, threshold: i32) -> (r: Pixels)
    requires
        px.wf(),
        spec_sigma_ok(sigma_bits),
    ensures
        r.width == px.width,
        r.height == px.height,
        r.data@ == sharpen_of(px.width as int, px.height as int, px.data@, sigma_bits, threshold),
        r.data@.len() == px.data@.len(),
        r.wf(),
{
    let buffer = image::RgbImage::from_raw(px.width, px.height, px.data.clone()).unwrap();
    let out = image::DynamicImage::ImageRgb8(buffer)
        .unsharpen(bytemuck::cast(sigma_bits), threshold)
        .into_rgb8();
    Pixels { width: px.width, height: px.height, data: out.into_raw() }
}

/// Relies on image::DynamicImage::adjust_contrast: it rescales every
/// channel's deviation from mid-gray, saturating at the channel bounds, and
/// keeps the image size. The delta is handed over as an IEEE-754
/// single-precision bit pattern, turned back into a float bit for bit; a
/// NaN pattern must be kept out, since it survives the law's clamp and the
/// cast back to a channel value aborts on it.
#[verifier::external_body]
pub(crate) fn contrast_rgb(px: &Pixels, delta_bits: u32) -> (r: Pixels)
    requires
        px.wf(),
        spec_contrast_delta_ok(delta_bits),
    ensures
        r.width == px.width,
        r.height == px.height,
        r.data@ == contrast_of(px.width as int, px.height as int, px.data@, delta_bits),
        r.data@.len() == px.data@.len(),
        r.wf(),
{
    let buffer = image::RgbImage::from_raw(px.width, px.height, px.data.clone()).unwrap();
    let out = image::DynamicImage::ImageRgb8(buffer)
        .adjust_contrast(bytemuck::cast(delta_bits))
        .into_rgb8();
    Pixels { width: px.width, height: px.height, data: out.into_raw() }
}

} // verus!
