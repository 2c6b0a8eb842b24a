//! Bitmaps from encoded image files, decoded by the `image` crate.
use vstd::prelude::*;

use image::DynamicImage;

use crate::bitmap::Bitmap;
use crate::error::SglError;

verus! {

#[verifier::external_type_specification]
#[verifier::external_body]
pub struct ExDynamicImage(DynamicImage);

/// Relies on `image::load_from_memory`: it guesses the format from the bytes
/// and decodes them; its error is handed on as its message.
#[verifier::external_body]
fn decode_image(bytes: &[u8]) -> (r: Result<DynamicImage, String>) {
    image::load_from_memory(bytes).map_err(|e| e.to_string())
}

/// Relies on `image::DynamicImage::to_rgba8`: a copy of the image as 8-bit
/// RGBA, here as its width, its height and its raw buffer, which holds four
/// bytes for each of its `width * height` pixels, row by row (the buffer is
/// made by `ImageBuffer::new(width, height)`).
#[verifier::external_body]
fn rgba8_of(img: &DynamicImage) -> (r: (u32, u32, Vec<u8>))
    ensures
        r.2@.len() == 4 * (r.0 * r.1),
{
    let rgba = img.to_rgba8();
    let (width, height) = rgba.dimensions();
    (width, height, rgba.into_raw())
}

/// A bitmap of a decoded image, converted to 8-bit RGBA.
pub fn from_image(img: &DynamicImage) -> (r: Result<Bitmap, SglError>)
    ensures
        r is Ok,
        r->Ok_0.wf(),
{
    let (width, height, bytes) = rgba8_of(img);
    proof {
        let n = width as int * height as int;
        assert(bytes@.len() == 4 * n);
        assert((4 * n) % 4 == 0 && (4 * n) / 4 == n);
    }
    Bitmap::from_rgba_bytes(width, height, bytes.as_slice())
}

/// A bitmap of an encoded image file (PNG); an error carrying the decoder's
/// message when the bytes do not decode.
pub fn from_image_bytes(bytes: &[u8]) -> (r: Result<Bitmap, SglError>)
    ensures
        r is Ok ==> r->Ok_0.wf(),
{
    match decode_image(bytes) {
        Ok(img) => from_image(&img),
        Err(message) => Err(SglError::General(message)),
    }
}

} // verus!
