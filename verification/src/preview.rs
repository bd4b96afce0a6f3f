//! Rendering the preview of one photo: a JPEG of at most 400 by 400 pixels,
//! handed out as a `data:` URI.

use vstd::prelude::*;
use vstd::string::*;
use crate::codec::{
    base64_encode, base64_len, base64_standard, decode_picture, decoded, encode_jpeg,
    image_error_message, is_base64_text, is_jpeg_stream, jpeg_of, resample_fits, resample_picture,
    resampled, ResampleFilter,
};
use crate::picture::{Picture, PictureData};

verus! {

/// Neither side of a preview is longer than this many pixels.
pub const MAX_DIMENSION: u32 = 400;

/// JPEG quality of every preview.
pub const JPEG_QUALITY: u8 = 85;

/// Why a preview could not be rendered.
#[derive(Debug, Clone, PartialEq, Eq)]
pub enum PreviewError {
    /// There is no file at the path.
    NotFound,
    /// The file could not be read; the text is the reader's.
    Io(String),
    /// The bytes are no picture of a supported format; the text is the decoder's.
    Decode(String),
    /// The picture could not be written as a JPEG data URI.
    Encode(String),
}

/// What came of reading the photo file.
#[derive(Debug, Clone, PartialEq, Eq)]
pub enum FileRead {
    /// There is no file at the path.
    Missing,
    /// Reading failed, with the reader's message.
    Failed(String),
    /// The whole content of the file.
    Loaded(Vec<u8>),
}

/// A picture of this size is scaled down before it is encoded.
pub open spec fn needs_resize(width: int, height: int) -> bool {
    width > 400 || height > 400
}

/// The box into which a picture that needs it is scaled: the longer side 400,
/// the shorter one in proportion, rounded down. A square counts as tall.
pub open spec fn resize_bounds(width: int, height: int) -> (int, int) {
    if width > height {
        (400, 400 * height / width)
    } else {
        (400 * width / height, 400)
    }
}

/// The start of every preview URI.
pub open spec fn data_uri_prefix() -> Seq<char> {
    "data:image/jpeg;base64,"@
}

/// The URI that carries these JPEG bytes.
pub open spec fn preview_uri(jpeg: Seq<u8>) -> Seq<char> {
    data_uri_prefix() + base64_standard(jpeg)
}

/// The text starts with the prefix, and what follows is padded base64.
pub open spec fn is_jpeg_data_uri(text: Seq<char>) -> bool {
    &&& text.len() >= data_uri_prefix().len()
    &&& text.subrange(0, data_uri_prefix().len() as int) == data_uri_prefix()
    &&& is_base64_text(text.subrange(data_uri_prefix().len() as int, text.len() as int))
}

/// The URI of this many JPEG bytes is no longer than a text can be: the prefix
/// and the base64 text together have at most `isize::MAX` characters.
pub open spec fn uri_fits(len: nat) -> bool {
    23 + base64_len(len) <= isize::MAX
}

/// Message of the error for JPEG bytes too many to be written as base64.
pub open spec fn too_large_message() -> Seq<char> {
    "Encoded image is too large for a data URI"@
}

/// Message of the error for a picture too wide for the resampler's buffers.
pub open spec fn too_wide_message() -> Seq<char> {
    "Image is too large to be scaled"@
}

/// The box of a picture that needs scaling, as the sizes handed to the
/// resampler.
pub open spec fn preview_box(width: u32, height: u32) -> (u32, u32) {
    (
        resize_bounds(width as int, height as int).0 as u32,
        resize_bounds(width as int, height as int).1 as u32,
    )
}

/// The picture can be brought to its preview size: it needs no scaling, or the
/// resampler's buffers for it fit in the index range.
pub open spec fn can_scale(picture: PictureData) -> bool {
    needs_resize(picture.width as int, picture.height as int) ==> resample_fits(
        picture.width,
        preview_box(picture.width, picture.height).0,
        preview_box(picture.width, picture.height).1,
    )
}

/// The picture that is encoded: the decoded one where it fits within 400 by
/// 400, else that one resampled to exactly its box with a Lanczos filter of
/// window 3.
pub open spec fn scaled_picture(picture: PictureData) -> PictureData {
    if needs_resize(picture.width as int, picture.height as int) {
        resampled(
            picture,
            preview_box(picture.width, picture.height).0,
            preview_box(picture.width, picture.height).1,
            ResampleFilter::Lanczos3,
        )
    } else {
        picture
    }
}

/// The picture that is encoded has the size that `preview_size` decides: its
/// own where it fits within 400 by 400, else exactly that of its box.
pub open spec fn has_preview_size(picture: PictureData) -> bool {
    if needs_resize(picture.width as int, picture.height as int) {
        &&& scaled_picture(picture).width == resize_bounds(
            picture.width as int,
            picture.height as int,
        ).0
        &&& scaled_picture(picture).height == resize_bounds(
            picture.width as int,
            picture.height as int,
        ).1
    } else {
        scaled_picture(picture) == picture
    }
}

/// The JPEG bytes of a picture's preview: the scaled picture encoded at
/// quality 85; `None` where it cannot be scaled or the encoder refuses it.
pub open spec fn picture_jpeg(picture: PictureData) -> Option<Seq<u8>> {
    if can_scale(picture) {
        jpeg_of(scaled_picture(picture), 85)
    } else {
        None
    }
}

/// The JPEG bytes of the preview of a file: those of the picture decoded from
/// it; `None` where the bytes do not decode or the picture gives none.
pub open spec fn preview_jpeg(path: Seq<char>, bytes: Seq<u8>) -> Option<Seq<u8>> {
    match decoded(path, bytes) {
        Some(picture) => picture_jpeg(picture),
        None => None,
    }
}

/// `r` is what rendering a picture gives: the URI of its preview's JPEG bytes
/// where there are such bytes and the URI is no longer than a text can be,
/// else a failure of encoding.
pub open spec fn is_picture_rendering(
    picture: PictureData,
    r: Result<String, PreviewError>,
) -> bool {
    match picture_jpeg(picture) {
        Some(jpeg) => if uri_fits(jpeg.len()) {
            r matches Ok(uri) && uri@ == preview_uri(jpeg)
        } else {
            r matches Err(e) && e is Encode
        },
        None => r matches Err(e) && e is Encode,
    }
}

/// `r` is what rendering the file at `path` with content `bytes` gives: a
/// failure of decoding where the bytes do not decode, else the rendering of
/// the decoded picture.
pub open spec fn is_rendering(
    path: Seq<char>,
    bytes: Seq<u8>,
    r: Result<String, PreviewError>,
) -> bool {
    match decoded(path, bytes) {
        Some(picture) => is_picture_rendering(picture, r),
        None => r matches Err(e) && e is Decode,
    }
}

impl PreviewError {
    /// The text shown for the error.
    pub open spec fn message_text(&self) -> Seq<char> {
        match self {
            PreviewError::NotFound => "Image file does not exist"@,
            PreviewError::Io(text) => text@,
            PreviewError::Decode(text) => text@,
            PreviewError::Encode(text) => text@,
        }
    }

    /// The text shown for the error: a fixed sentence for a missing file, else
    /// the message that the failing step gave.
    pub fn message(&self) -> (text: String)
        ensures
            text@ == self.message_text(),
    {
        match self {
            PreviewError::NotFound => "Image file does not exist".to_owned(),
            PreviewError::Io(text) => text.clone(),
            PreviewError::Decode(text) => text.clone(),
            PreviewError::Encode(text) => text.clone(),
        }
    }
}

/// Decides the size handed to the resampler: `None` for a picture that fits
/// within 400 by 400 and stays as it is, else the box of `resize_bounds`.
pub fn preview_size(width: u32, height: u32) -> (bounds: Option<(u32, u32)>)
    ensures
        bounds is Some <==> needs_resize(width as int, height as int),
        bounds matches Some((w, h)) ==> (w as int, h as int) == resize_bounds(
            width as int,
            height as int,
        ),
{
    if width > MAX_DIMENSION || height > MAX_DIMENSION {
        proof {
            law_bounds_fit_box(width as int, height as int);
        }
        if width > height {
            let scaled: u64 = (MAX_DIMENSION as u64 * height as u64) / (width as u64);
            Some((MAX_DIMENSION, scaled as u32))
        } else {
            let scaled: u64 = (MAX_DIMENSION as u64 * width as u64) / (height as u64);
            Some((scaled as u32, MAX_DIMENSION))
        }
    } else {
        None
    }
}

/// The box of a picture that needs scaling lies within 400 by 400, and its
/// longer side (the height of a square) is exactly 400; the other side is the
/// proportional length rounded down.
pub proof fn law_bounds_fit_box(width: int, height: int)
    requires
        0 <= width,
        0 <= height,
        needs_resize(width, height),
    ensures
        0 <= resize_bounds(width, height).0 <= 400,
        0 <= resize_bounds(width, height).1 <= 400,
        width > height ==> resize_bounds(width, height).0 == 400,
        width <= height ==> resize_bounds(width, height).1 == 400,
        width > height ==> resize_bounds(width, height).1 * width <= 400 * height
            < (resize_bounds(width, height).1 + 1) * width,
        width <= height ==> resize_bounds(width, height).0 * height <= 400 * width
            < (resize_bounds(width, height).0 + 1) * height,
{
    if width > height {
        lemma_floor_quotient(400 * height, width);
        assert(400 * height / width <= 400) by (nonlinear_arith)
            requires
                0 <= height <= width,
                0 < width,
                (400 * height / width) * width <= 400 * height,
        ;
    } else {
        lemma_floor_quotient(400 * width, height);
        assert(400 * width / height <= 400) by (nonlinear_arith)
            requires
                0 <= width <= height,
                0 < height,
                (400 * width / height) * height <= 400 * width,
        ;
    }
}

/// The quotient of a division is the number rounded down.
proof fn lemma_floor_quotient(x: int, d: int)
    by (nonlinear_arith)
    requires
        0 <= x,
        0 < d,
    ensures
        0 <= x / d,
        (x / d) * d <= x < (x / d + 1) * d,
{
}

/// Puts the prefix `data:image/jpeg;base64,` before a payload.
pub fn data_uri(payload: &str) -> (uri: String)
    ensures
        uri@ == data_uri_prefix() + payload@,
{
    let mut uri = String::from_str("data:image/jpeg;base64,");
    uri.append(payload);
    uri
}

/// Writes JPEG bytes as a preview URI: the prefix, then the bytes in padded
/// base64. Fails only for bytes so many that the URI would be longer than a
/// text can be.
pub fn preview_from_jpeg(jpeg: &[u8]) -> (r: Result<String, PreviewError>)
    ensures
        r is Ok <==> uri_fits(jpeg@.len()),
        r matches Ok(uri) ==> uri@ == preview_uri(jpeg@) && is_jpeg_data_uri(uri@) && uri@.len()
            == 23 + base64_len(jpeg@.len()),
        r matches Err(e) ==> e matches PreviewError::Encode(text) && text@ == too_large_message(),
{
    let whole: usize = jpeg.len() / 3;
    let groups: usize = if jpeg.len() % 3 == 0 {
        whole
    } else {
        whole + 1
    };
    if groups > (isize::MAX as usize - 23) / 4 {
        return Err(PreviewError::Encode("Encoded image is too large for a data URI".to_owned()));
    }
    let payload = base64_encode(jpeg);
    let uri = data_uri(payload.as_str());
    proof {
        reveal_strlit("data:image/jpeg;base64,");
        let prefix = data_uri_prefix();
        assert(uri@.subrange(0, prefix.len() as int) =~= prefix);
        assert(uri@.subrange(prefix.len() as int, uri@.len() as int) =~= payload@);
    }
    Ok(uri)
}

/// Tells whether the resampler's buffers for scaling a picture of this width
/// to this size can be had.
fn scaling_fits(source_width: u32, width: u32, height: u32) -> (yes: bool)
    requires
        width <= MAX_DIMENSION,
        height <= MAX_DIMENSION,
    ensures
        yes == resample_fits(source_width, width, height),
{
    assert(0 <= 16 * source_width * height <= 16 * 0xffff_ffff * 400 && 0 <= 3 * width * height
        <= 3 * 400 * 400) by (nonlinear_arith)
        requires
            source_width <= 0xffff_ffff,
            width <= 400,
            height <= 400,
    ;
    let row_limit: u64 = usize::MAX as u64;
    let byte_limit: u64 = isize::MAX as u64;
    let rows: u64 = 16 * (source_width as u64) * (height as u64);
    let out: u64 = 3 * (width as u64) * (height as u64);
    4 * (source_width as u64) <= row_limit && rows <= byte_limit && 3 * (width as u64)
        <= row_limit && out <= byte_limit
}

/// Renders a decoded picture: scales it to its box with a Lanczos filter of
/// window 3 where a side is longer than 400 pixels, encodes it as JPEG at
/// quality 85 and writes the bytes as a data URI.
pub fn render_picture(picture: Picture) -> (r: Result<String, PreviewError>)
    requires
        picture.well_formed(),
    ensures
        is_picture_rendering(picture@, r),
        !can_scale(picture@) ==> (r matches Err(PreviewError::Encode(text)) && text@
            == too_wide_message()),
        can_scale(picture@) ==> has_preview_size(picture@),
        r is Ok ==> (picture_jpeg(picture@) matches Some(jpeg) && is_jpeg_stream(jpeg)),
        r matches Ok(uri) ==> is_jpeg_data_uri(uri@) && uri@.len() > 23,
{
    let preview = match preview_size(picture.width, picture.height) {
        Some((width, height)) => {
            proof {
                law_bounds_fit_box(picture.width as int, picture.height as int);
            }
            if !scaling_fits(picture.width, width, height) {
                return Err(PreviewError::Encode("Image is too large to be scaled".to_owned()));
            }
            resample_picture(&picture, width, height, ResampleFilter::Lanczos3)
        },
        None => picture,
    };
    match encode_jpeg(&preview, JPEG_QUALITY) {
        Ok(jpeg) => preview_from_jpeg(jpeg.as_slice()),
        Err(error) => Err(PreviewError::Encode(image_error_message(&error))),
    }
}

/// Renders the preview of the photo whose file holds `bytes`: decodes them in
/// the format that the path's extension names and renders the picture.
pub fn render_preview(image_path: &str, bytes: &[u8]) -> (r: Result<String, PreviewError>)
    ensures
        is_rendering(image_path@, bytes@, r),
        decoded(image_path@, bytes@) matches Some(picture) ==> (can_scale(picture)
            ==> has_preview_size(picture)),
        r is Ok ==> (preview_jpeg(image_path@, bytes@) matches Some(jpeg) && is_jpeg_stream(
            jpeg,
        )),
        r matches Ok(uri) ==> is_jpeg_data_uri(uri@) && uri@.len() > 23,
{
    match decode_picture(image_path, bytes) {
        Ok(picture) => render_picture(picture),
        Err(error) => Err(PreviewError::Decode(image_error_message(&error))),
    }
}

/// Answers a request for the preview of the photo at `image_path`, given what
/// came of reading that file: a missing file is `NotFound`, a failed read is
/// `Io` with the reader's message, and a file that was read is rendered.
pub fn get_image_data(image_path: &str, read: FileRead) -> (r: Result<String, PreviewError>)
    ensures
        read is Missing ==> r == Err::<String, PreviewError>(PreviewError::NotFound),
        read matches FileRead::Failed(text) ==> r == Err::<String, PreviewError>(
            PreviewError::Io(text),
        ),
        read matches FileRead::Loaded(bytes) ==> is_rendering(image_path@, bytes@, r),
        read matches FileRead::Loaded(bytes) ==> (decoded(image_path@, bytes@) matches Some(
            picture,
        ) ==> (can_scale(picture) ==> has_preview_size(picture))),
        read matches FileRead::Loaded(bytes) ==> (r is Ok ==> (preview_jpeg(
            image_path@,
            bytes@,
        ) matches Some(jpeg) && is_jpeg_stream(jpeg))),
        r matches Ok(uri) ==> is_jpeg_data_uri(uri@) && uri@.len() > 23,
{
    match read {
        FileRead::Missing => Err(PreviewError::NotFound),
        FileRead::Failed(text) => Err(PreviewError::Io(text)),
        FileRead::Loaded(bytes) => render_preview(image_path, bytes.as_slice()),
    }
}

/// Rendering is a function of the path and the bytes: two renderings of the
/// same file agree on whether they succeed, give the same URI where they do,
/// and fail in the same step where they do not.
pub proof fn law_rendering_is_determined(
    path: Seq<char>,
    bytes: Seq<u8>,
    first: Result<String, PreviewError>,
    second: Result<String, PreviewError>,
)
    requires
        is_rendering(path, bytes, first),
        is_rendering(path, bytes, second),
    ensures
        first is Ok <==> second is Ok,
        first is Ok ==> first->Ok_0@ == second->Ok_0@,
        first is Err ==> (first->Err_0 is Decode <==> second->Err_0 is Decode) && (first->Err_0
            is Encode <==> second->Err_0 is Encode),
{
}

} // verus!
