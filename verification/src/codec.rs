//! The image and base64 codecs that the preview pipeline calls.
//!
//! Decoding, resampling and JPEG encoding are the work of the `image` crate,
//! base64 that of the `base64` crate. Nothing in this file is proved: each
//! function states what is taken on trust about the call it makes. What a call
//! gives is a function of what it is given, and has a name here; the pipeline
//! states its own results over these names.

use vstd::prelude::*;
use base64::Engine;
use crate::picture::{Picture, PictureData};

verus! {

/// `image::ImageError`, the failure of a call into the `image` crate.
#[verifier::external_type_specification]
#[verifier::external_body]
pub struct ExImageError(image::ImageError);

/// The resampling filters that `image::imageops::FilterType` offers.
#[derive(Debug, Clone, Copy, PartialEq, Eq)]
pub enum ResampleFilter {
    Nearest,
    Triangle,
    CatmullRom,
    Gaussian,
    Lanczos3,
}

/// The picture that the `image` crate decodes from the bytes of a file, in the
/// format that the extension of the file's path names
/// (`ImageFormat::from_path`, then `load_from_memory_with_format`), brought to
/// eight-bit RGB (`DynamicImage::into_rgb8`); `None` where the format is
/// unknown or the bytes do not decode.
pub uninterp spec fn decoded(path: Seq<char>, bytes: Seq<u8>) -> Option<PictureData>;

/// The picture that `image::imageops::resize` makes of a picture for a new
/// width and height and a filter.
pub uninterp spec fn resampled(
    picture: PictureData,
    width: u32,
    height: u32,
    filter: ResampleFilter,
) -> PictureData;

/// The bytes that the `image` crate's JPEG encoder writes for a picture at a
/// quality (`JpegEncoder::new_with_quality`, then `write_image`); `None` where
/// it refuses the picture.
pub uninterp spec fn jpeg_of(picture: PictureData, quality: u8) -> Option<Seq<u8>>;

/// The text that `Engine::encode` of `base64::engine::general_purpose::STANDARD`
/// gives for these bytes: RFC 4648 base64 over the standard alphabet, padded.
pub uninterp spec fn base64_standard(bytes: Seq<u8>) -> Seq<char>;

/// The resampler's buffers for a picture of width `source_width` and a new
/// size can be had: one of four samples of four bytes for each pixel of the
/// source's width and the new height, one of three bytes for each pixel of the
/// new size, neither longer than `isize::MAX` bytes. Samples are counted row
/// first, so those of a row alone have to fit in `usize` as well.
pub open spec fn resample_fits(source_width: u32, width: u32, height: u32) -> bool {
    &&& 4 * source_width <= usize::MAX
    &&& 16 * source_width * height <= isize::MAX
    &&& 3 * width <= usize::MAX
    &&& 3 * width * height <= isize::MAX
}

/// A JPEG stream opens with the marker `FF D8` and closes with `FF D9`.
pub open spec fn is_jpeg_stream(bytes: Seq<u8>) -> bool {
    &&& bytes.len() >= 4
    &&& bytes[0] == 0xFF
    &&& bytes[1] == 0xD8
    &&& bytes[bytes.len() - 2] == 0xFF
    &&& bytes[bytes.len() - 1] == 0xD9
}

/// Length of the padded base64 text for `len` bytes: four characters for every
/// three bytes begun.
pub open spec fn base64_len(len: nat) -> nat {
    4 * ((len + 2) / 3)
}

/// A character of the standard base64 alphabet.
pub open spec fn is_base64_char(c: char) -> bool {
    ||| 'A' <= c <= 'Z'
    ||| 'a' <= c <= 'z'
    ||| '0' <= c <= '9'
    ||| c == '+'
    ||| c == '/'
}

/// Padded base64 text: groups of four characters of the alphabet, the last
/// group closed by at most two `=`.
pub open spec fn is_base64_text(text: Seq<char>) -> bool {
    &&& text.len() % 4 == 0
    &&& forall|i: int|
        0 <= i < text.len() ==> is_base64_char(#[trigger] text[i]) || (text[i] == '=' && i
            >= text.len() - 2)
    &&& text.len() > 0 && text[text.len() - 2] == '=' ==> text[text.len() - 1] == '='
}

/// Calls `image::ImageFormat::from_path` and `image::load_from_memory_with_format`
/// and hands the picture back as eight-bit RGB (`DynamicImage::into_rgb8`).
/// The outcome is the one named `decoded`; a picture that comes back has three
/// samples for each of its pixels. Nothing is claimed of the error.
#[verifier::external_body]
pub(crate) fn decode_picture(path: &str, bytes: &[u8]) -> (r: Result<Picture, image::ImageError>)
    ensures
        r is Ok <==> decoded(path@, bytes@) is Some,
        r matches Ok(picture) ==> Some(picture@) == decoded(path@, bytes@)
            && picture.well_formed(),
{
    let format = image::ImageFormat::from_path(path)?;
    let rgb = image::load_from_memory_with_format(bytes, format)?.into_rgb8();
    Ok(Picture { width: rgb.width(), height: rgb.height(), samples: rgb.into_raw() })
}

/// Calls `image::imageops::resize`, which resamples the picture to exactly the
/// width and height given. The call panics on samples too few for the
/// picture's size and on buffers that cannot be had, which `requires` leaves
/// out. The outcome is the one named `resampled` and has the size asked
/// for.
#[verifier::external_body]
pub(crate) fn resample_picture(
    picture: &Picture,
    width: u32,
    height: u32,
    filter: ResampleFilter,
) -> (scaled: Picture)
    requires
        picture.well_formed(),
        resample_fits(picture.width, width, height),
    ensures
        scaled@ == resampled(picture@, width, height, filter),
        scaled.width == width,
        scaled.height == height,
        scaled.well_formed(),
{
    let source =
        image::ImageBuffer::<image::Rgb<u8>, &[u8]>::from_raw(
        picture.width,
        picture.height,
        picture.samples.as_slice(),
    ).unwrap();
    let filter = match filter {
        ResampleFilter::Nearest => image::imageops::FilterType::Nearest,
        ResampleFilter::Triangle => image::imageops::FilterType::Triangle,
        ResampleFilter::CatmullRom => image::imageops::FilterType::CatmullRom,
        ResampleFilter::Gaussian => image::imageops::FilterType::Gaussian,
        ResampleFilter::Lanczos3 => image::imageops::FilterType::Lanczos3,
    };
    let scaled = image::imageops::resize(&source, width, height, filter);
    Picture { width: scaled.width(), height: scaled.height(), samples: scaled.into_raw() }
}

/// Calls `ImageEncoder::write_image` on a `JpegEncoder::new_with_quality` and
/// hands back the bytes written. The call panics on samples that are not three
/// for each pixel and on a row whose samples cannot be counted in `usize`,
/// which `requires` leaves out. The outcome is the one named
/// `jpeg_of`; bytes that come back open and close as a JPEG stream does.
#[verifier::external_body]
pub(crate) fn encode_jpeg(picture: &Picture, quality: u8) -> (r: Result<
    Vec<u8>,
    image::ImageError,
>)
    requires
        picture.well_formed(),
    ensures
        r is Ok <==> jpeg_of(picture@, quality) is Some,
        r matches Ok(bytes) ==> Some(bytes@) == jpeg_of(picture@, quality) && is_jpeg_stream(
            bytes@,
        ),
{
    let mut bytes = Vec::new();
    let encoder = image::codecs::jpeg::JpegEncoder::new_with_quality(&mut bytes, quality);
    image::ImageEncoder::write_image(
        encoder,
        picture.samples.as_slice(),
        picture.width,
        picture.height,
        image::ExtendedColorType::Rgb8,
    )?;
    Ok(bytes)
}

/// The text of an `image::ImageError`, as its `Display` gives it.
#[verifier::external_body]
pub(crate) fn image_error_message(error: &image::ImageError) -> (message: String) {
    error.to_string()
}

/// Calls `Engine::encode` of `base64::engine::general_purpose::STANDARD`.
/// The call panics when the text is longer than a buffer can be (`isize::MAX`
/// bytes), which `requires` leaves out. The text is the one named `base64_standard`; it has
/// the padded length and holds nothing but the alphabet and closing `=`.
#[verifier::external_body]
pub(crate) fn base64_encode(bytes: &[u8]) -> (text: String)
    requires
        base64_len(bytes@.len()) <= isize::MAX,
    ensures
        text@ == base64_standard(bytes@),
        text@.len() == base64_len(bytes@.len()),
        is_base64_text(text@),
{
    base64::engine::general_purpose::STANDARD.encode(bytes)
}

} // verus!
