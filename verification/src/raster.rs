//! The trusted boundary around the image-processing crate.
//!
//! A decoded raster is opaque here: what the library knows of one is its
//! size, `image_dims`, and the RGBA projection of its contents,
//! `image_pixels` (row-major, one `(r, g, b, a)` tuple per pixel, each
//! channel in `0..=255`). Every pixel-addressable image presents that
//! projection, whatever its internal channel layout, so the two names are
//! well defined for every raster value. Resampling and grayscale
//! conversion work on the raster's full-precision channels, which the
//! projection does not determine, so their wrappers state only the size of
//! what comes back; the verified renderer takes the resulting pixels as
//! they are.

use vstd::prelude::*;

verus! {

#[verifier::external_type_specification]
#[verifier::external_body]
pub struct ExDynamicImage(image::DynamicImage);

#[verifier::external_type_specification]
#[verifier::external_body]
pub struct ExImageFormat(image::ImageFormat);

#[verifier::external_type_specification]
#[verifier::external_body]
pub struct ExImageError(image::ImageError);

/// The size of a raster, in pixels: `(width, height)`.
pub uninterp spec fn image_dims(img: image::DynamicImage) -> (u32, u32);

/// The RGBA projection of a raster's contents, row-major: the pixel at
/// `(x, y)` stands at index `y * width + x`.
pub uninterp spec fn image_pixels(img: image::DynamicImage) -> Seq<(u8, u8, u8, u8)>;

/// Whether a MIME type string names an image format the decoder knows.
pub uninterp spec fn mime_is_image(s: Seq<char>) -> bool;

/// Whether these bytes decode as an image under format auto-detection:
/// decoding is a function of the bytes alone.
pub uninterp spec fn guessed_decode_ok(bytes: Seq<u8>) -> bool;

/// Whether these bytes decode as an image of the given format: decoding
/// is a function of the bytes and the format alone.
pub uninterp spec fn decode_ok(bytes: Seq<u8>, format: image::ImageFormat) -> bool;

/// Relies on `image::GenericImageView::dimensions` for `DynamicImage`:
/// returns the raster's width and height; a raster holds exactly
/// `width * height` pixels.
#[verifier::external_body]
pub fn dims(img: &image::DynamicImage) -> (r: (u32, u32))
    ensures
        r == image_dims(*img),
        image_pixels(*img).len() == r.0 * r.1,
{
    image::GenericImageView::dimensions(img)
}

/// Relies on `image::GenericImageView::get_pixel` for `DynamicImage`:
/// returns the RGBA value of the pixel at `(x, y)`; panics out of bounds,
/// so the bounds are required here.
#[verifier::external_body]
pub fn get_pixel(img: &image::DynamicImage, x: u32, y: u32) -> (p: (u8, u8, u8, u8))
    requires
        x < image_dims(*img).0,
        y < image_dims(*img).1,
    ensures
        p == image_pixels(*img)[y * image_dims(*img).0 + x],
{
    let q = image::GenericImageView::get_pixel(img, x, y);
    (q.0[0], q.0[1], q.0[2], q.0[3])
}

/// Relies on `image::DynamicImage::grayscale`: returns a grayscale version
/// of the raster, of the same size.
#[verifier::external_body]
pub fn grayscale(img: &image::DynamicImage) -> (r: image::DynamicImage)
    ensures
        image_dims(r) == image_dims(*img),
        image_pixels(r).len() == image_dims(r).0 * image_dims(r).1,
{
    img.grayscale()
}

/// Relies on `image::DynamicImage::resize_exact` with the Catmull-Rom
/// kernel: returns a raster of exactly `w x h` pixels (an empty one where
/// a dimension is 0), without preserving the aspect ratio.
#[verifier::external_body]
pub fn resize_exact(img: &image::DynamicImage, w: u32, h: u32) -> (r: image::DynamicImage)
    ensures
        image_dims(r) == (w, h),
        image_pixels(r).len() == w * h,
{
    img.resize_exact(w, h, image::imageops::FilterType::CatmullRom)
}

/// Relies on `image::ImageFormat::from_mime_type`: a table lookup that
/// yields a format exactly for the MIME types the decoder knows.
#[verifier::external_body]
pub fn format_from_mime_type(s: &str) -> (r: Option<image::ImageFormat>)
    ensures
        r is Some <==> mime_is_image(s@),
{
    image::ImageFormat::from_mime_type(s)
}

/// Relies on `image::load_from_memory`: decodes bytes as an image,
/// guessing the format from their content; it succeeds exactly on bytes
/// that decode, and a decoded raster holds exactly `width * height`
/// pixels.
#[verifier::external_body]
pub fn load_from_memory(bytes: &[u8]) -> (r: Result<image::DynamicImage, image::ImageError>)
    ensures
        r is Ok <==> guessed_decode_ok(bytes@),
        r matches Ok(img) ==> image_pixels(img).len() == image_dims(img).0 * image_dims(img).1,
{
    image::load_from_memory(bytes)
}

/// Relies on `image::load_from_memory_with_format`: decodes bytes as an
/// image of the given format; it succeeds exactly on bytes that decode
/// under that format, and a decoded raster holds exactly
/// `width * height` pixels.
#[verifier::external_body]
pub fn load_from_memory_with_format(bytes: &[u8], format: image::ImageFormat) -> (r: Result<
    image::DynamicImage,
    image::ImageError,
>)
    ensures
        r is Ok <==> decode_ok(bytes@, format),
        r matches Ok(img) ==> image_pixels(img).len() == image_dims(img).0 * image_dims(img).1,
{
    image::load_from_memory_with_format(bytes, format)
}

} // verus!
