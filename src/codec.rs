use crate::layout::{rgb_of, PixelLayout};
use image::{DynamicImage, ImageBuffer};
use vstd::prelude::*;

verus! {

/// The decoded image that the bytes hold, as its layout, width, height and
/// samples; `None` when the bytes are not an image of a built-in format.
pub uninterp spec fn decoded_image(bytes: Seq<u8>) -> Option<(PixelLayout, u32, u32, Seq<u8>)>;

/// Relies on image::guess_format, which reads only the built-in signatures,
/// and image::load_from_memory_with_format, which then decodes with that
/// built-in format; neither consults the registered hooks, so the result
/// depends on the bytes alone. An 8-bit image is handed back in its own
/// layout; any other is reduced to 8-bit RGBA by DynamicImage::into_rgba8.
/// The decoder fills a buffer of exactly `width * height` pixels
/// (decoder_to_vec), and so does the reduction (cast_in_color_space).
#[verifier::external_body]
pub(crate) fn decode_bytes(bytes: &[u8]) -> (r: Option<(PixelLayout, u32, u32, Vec<u8>)>)
    ensures
        r is None <==> decoded_image(bytes@) is None,
        r matches Some((l, w, h, s)) ==> decoded_image(bytes@) == Some((l, w, h, s@))
            && s@.len() == w * h * l.channel_count(),
{
    let format = image::guess_format(bytes).ok()?;
    Some(match image::load_from_memory_with_format(bytes, format).ok()? {
        DynamicImage::ImageLuma8(b) => (PixelLayout::Luma, b.width(), b.height(), b.into_raw()),
        DynamicImage::ImageLumaA8(b) => (PixelLayout::LumaAlpha, b.width(), b.height(), b.into_raw()),
        DynamicImage::ImageRgb8(b) => (PixelLayout::Rgb, b.width(), b.height(), b.into_raw()),
        DynamicImage::ImageRgba8(b) => (PixelLayout::Rgba, b.width(), b.height(), b.into_raw()),
        other => {
            let b = other.into_rgba8();
            (PixelLayout::Rgba, b.width(), b.height(), b.into_raw())
        },
    })
}

/// Relies on image::DynamicImage::to_rgb8, on a buffer built with
/// ImageBuffer::from_raw from exactly `width * height` pixels: RGB samples
/// are copied, alpha is dropped and gray is replicated to all three
/// channels. Gray passes through `v / 255` as an f32 and back with rounding,
/// which returns every 8-bit value unchanged.
#[verifier::external_body]
pub(crate) fn rgb8_samples(
    layout: PixelLayout,
    width: u32,
    height: u32,
    samples: Vec<u8>,
) -> (r: Vec<u8>)
    requires
        samples@.len() == width * height * layout.channel_count(),
    ensures
        r@ == rgb_of(layout, samples@),
{
    let img = match layout {
        PixelLayout::Luma => DynamicImage::ImageLuma8(ImageBuffer::from_raw(width, height, samples).unwrap()),
        PixelLayout::LumaAlpha => DynamicImage::ImageLumaA8(ImageBuffer::from_raw(width, height, samples).unwrap()),
        PixelLayout::Rgb => DynamicImage::ImageRgb8(ImageBuffer::from_raw(width, height, samples).unwrap()),
        PixelLayout::Rgba => DynamicImage::ImageRgba8(ImageBuffer::from_raw(width, height, samples).unwrap()),
    };
    img.to_rgb8().into_raw()
}

} // verus!
