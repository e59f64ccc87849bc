//! The texture: encoded image bytes decoded to row-major RGBA8 pixels, and
//! the upload description that the GPU copy needs.

use vstd::prelude::*;

verus! {

#[verifier::external_type_specification]
#[verifier::external_body]
pub struct ExImageError(image::ImageError);

/// What decoding the given encoded image bytes to RGBA8 gives: width, height
/// and the pixels row by row, or nothing when the bytes do not decode.
pub uninterp spec fn decoded_rgba(bytes: Seq<u8>) -> Option<(u32, u32, Seq<u8>)>;

/// Relies on image::load_from_memory and DynamicImage::to_rgba8: the image
/// is decoded from the bytes alone, and an RGBA8 buffer holds four bytes for
/// each of its width times height pixels.
#[verifier::external_body]
fn decode_rgba8(bytes: &[u8]) -> (r: Result<(u32, u32, Vec<u8>), image::ImageError>)
    ensures
        match r {
            Ok((w, h, p)) => decoded_rgba(bytes@) == Some((w, h, p@)) && p@.len() == 4 * w * h,
            Err(_) => decoded_rgba(bytes@).is_none(),
        },
{
    match image::load_from_memory(bytes) {
        Ok(img) => {
            let rgba = img.to_rgba8();
            let (w, h) = rgba.dimensions();
            Ok((w, h, rgba.into_raw()))
        },
        Err(e) => Err(e),
    }
}

/// Why a texture could not be built from encoded bytes.
#[derive(Clone, Copy, Debug, PartialEq, Eq, Structural)]
pub enum TextureError {
    /// The bytes are not an image that the decoder reads.
    Decode,
    /// A row of the image holds more bytes than a `u32` counts.
    TooWide,
}

/// Decoded pixels with what the copy to a 2D texture needs: its extent and
/// the length in bytes of one row.
#[derive(Clone, Debug)]
pub struct TextureUpload {
    pub width: u32,
    pub height: u32,
    pub bytes_per_row: u32,
    pub pixels: Vec<u8>,
}

impl TextureUpload {
    /// The upload of decoded RGBA8 pixels of the given extent. Fails with
    /// `TooWide` exactly when a row's length in bytes does not fit in a `u32`.
    pub fn from_rgba8(width: u32, height: u32, pixels: Vec<u8>) -> (r: Result<
        TextureUpload,
        TextureError,
    >)
        ensures
            (4 * width > u32::MAX) <==> r == Err::<TextureUpload, TextureError>(
                TextureError::TooWide,
            ),
            (4 * width <= u32::MAX) <==> r.is_ok(),
            r.is_ok() ==> {
                let t = r.unwrap();
                &&& t.width == width
                &&& t.height == height
                &&& t.bytes_per_row == 4 * width
                &&& t.pixels@ == pixels@
            },
    {
        if width > u32::MAX / 4 {
            Err(TextureError::TooWide)
        } else {
            Ok(TextureUpload { width, height, bytes_per_row: 4 * width, pixels })
        }
    }
}

/// Decodes the encoded image bytes into an upload of RGBA8 pixels. Fails
/// with `Decode` exactly when the bytes do not decode, and with `TooWide`
/// when a row's length in bytes does not fit in a `u32`.
pub fn texture_from_bytes(bytes: &[u8]) -> (r: Result<TextureUpload, TextureError>)
    ensures
        decoded_rgba(bytes@).is_none() <==> r == Err::<TextureUpload, TextureError>(
            TextureError::Decode,
        ),
        decoded_rgba(bytes@).is_some() ==> {
            let (w, h, p) = decoded_rgba(bytes@).unwrap();
            &&& (4 * w > u32::MAX) <==> r == Err::<TextureUpload, TextureError>(
                TextureError::TooWide,
            )
            &&& (4 * w <= u32::MAX) <==> r.is_ok()
            &&& r.is_ok() ==> {
                let t = r.unwrap();
                &&& t.width == w
                &&& t.height == h
                &&& t.bytes_per_row == 4 * w
                &&& t.pixels@ == p
                &&& t.pixels@.len() == 4 * w * h
            }
        },
{
    match decode_rgba8(bytes) {
        Ok((width, height, pixels)) => TextureUpload::from_rgba8(width, height, pixels),
        Err(_) => Err(TextureError::Decode),
    }
}

} // verus!
