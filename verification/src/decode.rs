use vstd::prelude::*;
use ::image::ImageError;
use crate::layout::{rgba8_layout, spec_rgba8_layout, TextureLayout};

verus! {

#[verifier::external_type_specification]
#[verifier::external_body]
pub struct ExImageError(::image::ImageError);

/// An image as RGBA8 texels, row after row, four bytes per texel.
pub struct RgbaImage {
    pub width: u32,
    pub height: u32,
    pub pixels: Vec<u8>,
}

/// An image ready to be copied into a texture: its layout and its texels.
pub struct TextureImage {
    pub layout: TextureLayout,
    pub pixels: Vec<u8>,
}

/// Why an image cannot become a texture.
#[derive(Debug)]
pub enum ImageLoadError {
    /// The bytes are not an image in a format that can be decoded.
    Decode(ImageError),
    /// A row of four-byte texels is longer than a `u32` can count.
    RowTooLong,
}

/// The width and height of the image that `image::load_from_memory` decodes
/// from `bytes`; `None` when the bytes do not decode.
pub uninterp spec fn decoded_size(bytes: Seq<u8>) -> Option<(u32, u32)>;

/// Decodes an image of any supported format with `image::load_from_memory`
/// and converts it to RGBA8 with `DynamicImage::to_rgba8`.
///
/// Trusted: it fails exactly when the bytes do not decode; otherwise the
/// width and height are the ones named by `decoded_size`, and (as
/// `ImageBuffer::new`, which `to_rgba8` builds its buffer with, shows) the
/// texel bytes number four per pixel. The texel values themselves are not
/// stated: the JPEG decoder picks a SIMD routine by the CPU it runs on, and
/// its rounding may differ from the portable one, so they are not a function
/// of the bytes alone. Which decoding error comes back is not stated either.
/// `ImageBuffer::new` panics when `4 * width * height` overflows `usize`; the
/// decoders' default allocation limit rules such sizes out.
#[verifier::external_body]
fn decode_rgba8(bytes: &[u8]) -> (res: Result<RgbaImage, ImageError>)
    ensures
        match res {
            Ok(img) => {
                &&& decoded_size(bytes@) == Some((img.width, img.height))
                &&& img.pixels@.len() == 4 * img.width * img.height
            },
            Err(_) => decoded_size(bytes@) is None,
        },
{
    match ::image::load_from_memory(bytes) {
        Ok(img) => {
            let rgba = img.to_rgba8();
            let (width, height) = rgba.dimensions();
            Ok(RgbaImage { width, height, pixels: rgba.into_raw() })
        },
        Err(e) => Err(e),
    }
}

/// Lays out a decoded image, which holds four bytes per texel, for a texture
/// copy: one layer, `height` rows of `4 * width` bytes. Fails when a row is
/// longer than a `u32` can count.
pub fn texture_image(img: RgbaImage) -> (res: Result<TextureImage, ImageLoadError>)
    requires
        img.pixels@.len() == 4 * img.width * img.height,
    ensures
        img.width * 4 <= u32::MAX ==> (res matches Ok(t) && t.layout == spec_rgba8_layout(
            img.width,
            img.height,
        ) && t.pixels@ == img.pixels@ && t.pixels@.len() == 4 * t.layout.width * t.layout.height),
        img.width * 4 > u32::MAX ==> res matches Err(ImageLoadError::RowTooLong),
{
    if img.width > 0x3fff_ffff {
        return Err(ImageLoadError::RowTooLong);
    }
    let layout = rgba8_layout(img.width, img.height);
    Ok(TextureImage { layout, pixels: img.pixels })
}

/// Decodes image bytes and lays them out for a texture copy. The texels are
/// the decoder's, four bytes per pixel; `texture_image` says how a decoded
/// image is laid out.
pub fn load_texture_image(bytes: &[u8]) -> (res: Result<TextureImage, ImageLoadError>)
    ensures
        match decoded_size(bytes@) {
            None => res matches Err(ImageLoadError::Decode(_)),
            Some((w, h)) => {
                &&& w * 4 <= u32::MAX ==> (res matches Ok(t) && t.layout == spec_rgba8_layout(w, h)
                    && t.pixels@.len() == 4 * w * h)
                &&& w * 4 > u32::MAX ==> res matches Err(ImageLoadError::RowTooLong)
            },
        },
{
    match decode_rgba8(bytes) {
        Ok(img) => texture_image(img),
        Err(e) => Err(ImageLoadError::Decode(e)),
    }
}

} // verus!
