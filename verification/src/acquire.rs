//! The decisions of image acquisition: how an input locator is dispatched
//! (URL or local path), how a fetched response's declared content type
//! selects a decode format, and how downloaded bytes are decoded. The
//! fetching itself is the caller's, outside this library.

use crate::params::ProgramError;
use crate::raster::decode_ok;
use crate::raster::format_from_mime_type;
use crate::raster::guessed_decode_ok;
use crate::raster::image_dims;
use crate::raster::image_pixels;
use crate::raster::load_from_memory;
use crate::raster::load_from_memory_with_format;
use crate::raster::mime_is_image;
use vstd::prelude::*;

verus! {

/// What a response's `Content-Type` header determines about the decode
/// format.
pub enum ImageFormatRes {
    /// The header declares a type that is no recognized image format —
    /// or no readable type at all: the download is rejected.
    Invalid,
    /// The header is absent: the format is auto-detected from the bytes.
    Undeclared,
    /// The header names a recognized image format: decode as that format.
    Declared(image::ImageFormat),
}

/// Whether `p` is a prefix of `s`.
pub open spec fn has_prefix(s: Seq<char>, p: Seq<char>) -> bool {
    p.len() <= s.len() && s.subrange(0, p.len() as int) == p
}

fn starts_with_chars(s: &str, p: &str) -> (r: bool)
    ensures
        r == has_prefix(s@, p@),
{
    let sn = s.unicode_len();
    let pn = p.unicode_len();
    if pn > sn {
        return false;
    }
    let mut i: usize = 0;
    while i < pn
        invariant
            i <= pn,
            pn <= sn,
            pn == p@.len(),
            sn == s@.len(),
            forall|j: int| 0 <= j < i ==> s@[j] == p@[j],
        decreases pn - i,
    {
        let sc = s.get_char(i);
        let pc = p.get_char(i);
        if sc != pc {
            proof {
                if has_prefix(s@, p@) {
                    assert(s@.subrange(0, pn as int)[i as int] == s@[i as int]);
                }
            }
            return false;
        }
        i += 1;
    }
    proof {
        assert(s@.subrange(0, pn as int) =~= p@);
    }
    true
}

/// Whether a locator is fetched over HTTP rather than opened as a file:
/// it starts with `http://` or `https://`.
pub fn is_url(path: &str) -> (r: bool)
    ensures
        r == (has_prefix(path@, "http://"@) || has_prefix(path@, "https://"@)),
{
    starts_with_chars(path, "http://") || starts_with_chars(path, "https://")
}

/// Selects the decode format from a response's `Content-Type` header:
/// `None` stands for an absent header, which falls back to
/// auto-detection; `Some(None)` for a header that is no readable string,
/// which is rejected like any declared type that is no recognized image
/// MIME type; and `Some(Some(t))` for the declared type `t`, accepted
/// exactly when it is a recognized image MIME type.
pub fn classify_content_type(content_type: Option<Option<&str>>) -> (r: ImageFormatRes)
    ensures
        content_type is None ==> r is Undeclared,
        content_type matches Some(None) ==> r is Invalid,
        content_type matches Some(Some(t)) ==> ((r is Declared <==> mime_is_image(t@)) && (
        r is Invalid <==> !mime_is_image(t@))),
{
    match content_type {
        None => ImageFormatRes::Undeclared,
        Some(None) => ImageFormatRes::Invalid,
        Some(Some(t)) => match format_from_mime_type(t) {
            Some(format) => ImageFormatRes::Declared(format),
            None => ImageFormatRes::Invalid,
        },
    }
}

/// Decodes the body of a fetched response under the format the header
/// determined: a rejected header yields `DownloadInvalid` without looking
/// at the bytes; otherwise the bytes decode exactly when the decoder
/// accepts them, and bytes that do not decode yield `DownloadInvalid`.
pub fn decode_downloaded(bytes: &[u8], format: &ImageFormatRes) -> (r: Result<
    image::DynamicImage,
    ProgramError,
>)
    ensures
        format is Invalid ==> r is Err,
        format is Undeclared ==> (r is Ok <==> guessed_decode_ok(bytes@)),
        format matches ImageFormatRes::Declared(f) ==> (r is Ok <==> decode_ok(bytes@, *f)),
        r matches Err(e) ==> e == ProgramError::DownloadInvalid,
        r matches Ok(img) ==> !(format is Invalid) && image_pixels(img).len() == image_dims(
            img,
        ).0 * image_dims(img).1,
{
    match format {
        ImageFormatRes::Invalid => Err(ProgramError::DownloadInvalid),
        ImageFormatRes::Undeclared => match load_from_memory(bytes) {
            Ok(img) => Ok(img),
            Err(_) => Err(ProgramError::DownloadInvalid),
        },
        ImageFormatRes::Declared(f) => match load_from_memory_with_format(bytes, *f) {
            Ok(img) => Ok(img),
            Err(_) => Err(ProgramError::DownloadInvalid),
        },
    }
}

} // verus!
