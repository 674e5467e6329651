//! Helpers shared by the codecs: text, formatting and the blank icon.

use crate::bytes::{append_zeros, zeros};
use crate::error::Error;
use image::codecs::png::{CompressionType, FilterType, PngEncoder};
use image::{ExtendedColorType, ImageEncoder, ImageError};
use vstd::prelude::*;

pub mod fmt;
pub mod text;

verus! {

/// The width of the blank icon in pixels.
pub const DEFAULT_IMAGE_WIDTH: u32 = 480;

/// The height of the blank icon in pixels.
pub const DEFAULT_IMAGE_HEIGHT: u32 = 270;

/// The PNG stream that the `image` crate writes for 8-bit RGB pixels of the
/// given width and height, at its best compression and without a filter.
pub uninterp spec fn encoded_png(pixels: Seq<u8>, width: u32, height: u32) -> Seq<u8>;

/// The blank icon: a black picture of 480 by 270 pixels as a PNG stream.
pub open spec fn blank_image() -> Seq<u8> {
    encoded_png(
        zeros(3 * DEFAULT_IMAGE_WIDTH * DEFAULT_IMAGE_HEIGHT),
        DEFAULT_IMAGE_WIDTH,
        DEFAULT_IMAGE_HEIGHT,
    )
}

#[verifier::external_type_specification]
#[verifier::external_body]
pub struct ExImageError(ImageError);

/// Encodes 8-bit RGB pixels as a PNG stream with the `image` crate's
/// `PngEncoder::new_with_quality(.., CompressionType::Best,
/// FilterType::NoFilter)` and `write_image(.., ExtendedColorType::Rgb8)`.
///
/// `write_image` panics unless the buffer holds three bytes for each pixel.
/// It fails on a width or a height of zero, on a colour type that PNG lacks,
/// on a buffer of the wrong length and where its sink fails; here the sink
/// is a `Vec<u8>`, which takes every write, and `requires` leaves the rest
/// out, so the call succeeds. The stream depends on the pixels, the width
/// and the height alone.
#[verifier::external_body]
fn encode_png_rgb8(pixels: &[u8], width: u32, height: u32) -> (r: Result<Vec<u8>, ImageError>)
    requires
        0 < width,
        0 < height,
        pixels@.len() == 3 * width * height,
    ensures
        r is Ok,
        r matches Ok(png) ==> png@ == encoded_png(pixels@, width, height),
{
    let mut png: Vec<u8> = Vec::new();
    PngEncoder::new_with_quality(&mut png, CompressionType::Best, FilterType::NoFilter)
        .write_image(pixels, width, height, ExtendedColorType::Rgb8)?;
    Ok(png)
}

/// Produces the blank icon that stands in where a save has none: it always
/// succeeds, with the stream that `blank_image` names.
pub fn generate_blank_image() -> (r: Result<Vec<u8>, Error>)
    ensures
        r matches Ok(png) && png@ == blank_image(),
{
    let count: usize = 3 * (DEFAULT_IMAGE_WIDTH as usize) * (DEFAULT_IMAGE_HEIGHT as usize);
    let mut pixels: Vec<u8> = Vec::new();
    append_zeros(&mut pixels, count);
    assert(pixels@ =~= zeros(3 * DEFAULT_IMAGE_WIDTH * DEFAULT_IMAGE_HEIGHT));
    match encode_png_rgb8(pixels.as_slice(), DEFAULT_IMAGE_WIDTH, DEFAULT_IMAGE_HEIGHT) {
        Ok(png) => Ok(png),
        Err(_) => Err(Error::ImageIO),
    }
}

} // verus!
