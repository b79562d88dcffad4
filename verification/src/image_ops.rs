//! The boundary to the image-processing crate: turning a decoded image into
//! a `PixelBuffer`, and the exact, non-aspect-preserving resize that
//! standardizes two buffers to one common dimension pair.

use vstd::prelude::*;
use crate::dimensions::{reconcile_dimensions, spec_reconcile_dimensions, DimensionPolicy};
use crate::pixel_buffer::PixelBuffer;

verus! {

/// The decoded-image type of the image crate, opaque to the library; its
/// pixel content is only ever read through `image_to_pixel_buffer`.
#[verifier::external_type_specification]
#[verifier::external_body]
pub struct ExDynamicImage(image::DynamicImage);

/// Relies on `image::DynamicImage::to_rgba8`: for an integer-backed image
/// the returned `ImageBuffer` carries the image's own width and height,
/// reported by `ImageBuffer::dimensions`, and by construction its raw
/// `Vec<u8>` holds exactly `width * height * 4` bytes, four 8-bit channels
/// per pixel, with every sample conversion total. The two float-backed
/// variants are refused here instead of converted: their sample conversion
/// unwraps a numeric cast that fails on a non-finite sample, so calling
/// `to_rgba8` on them could abort.
#[verifier::external_body]
fn to_rgba_parts(image: &image::DynamicImage) -> (parts: Option<(u32, u32, Vec<u8>)>)
    ensures
        parts matches Some(p) ==> p.2@.len() == p.0 * p.1 * 4,
{
    match image {
        image::DynamicImage::ImageRgb32F(_) | image::DynamicImage::ImageRgba32F(_) => None,
        _ => {
            let buffer = image.to_rgba8();
            let (width, height) = buffer.dimensions();
            Some((width, height, buffer.into_vec()))
        }
    }
}

/// Reads a decoded image into the library's own pixel entity: its width,
/// its height, and one 4-byte RGBA unit per pixel. An image whose samples
/// are floating point is not read and yields `None`.
pub fn image_to_pixel_buffer(image: &image::DynamicImage) -> (buffer: Option<PixelBuffer>)
    ensures
        buffer matches Some(b) ==> b.wf(),
{
    match to_rgba_parts(image) {
        Some((width, height, bytes)) => Some(PixelBuffer::new(width, height, bytes)),
        None => None,
    }
}

/// The largest width or height the resize boundary accepts.
///
/// The resampler computes its sampling coordinates in 32-bit floating
/// point. Once a dimension comes near 2^24, a whole pixel falls within one
/// floating-point rounding step, the sampling window of an output row can
/// degenerate to weight zero, and the conversion of the resulting
/// not-a-number sample aborts. Holding every dimension well below that
/// regime keeps the call total.
pub const MAX_RESIZE_DIMENSION: u32 = 0x100000;

/// Relies on `image::imageops::resize` with the triangle filter: the result
/// is an `ImageBuffer` of exactly the requested dimensions, whose raw
/// `Vec<u8>` holds `nwidth * nheight * 4` bytes. The source dimensions must
/// be nonzero: the sampling loops index into the source image. All four
/// dimensions must stay under `MAX_RESIZE_DIMENSION`: the resampler's
/// 32-bit floating-point coordinates degenerate beyond it (see the
/// constant). The resample runs in two passes through an intermediate
/// image of the source's width and the target's height, so that
/// intermediate's pixel count must fit in memory too. Relies on
/// `image::ImageBuffer::from_raw`, which accepts any buffer of exactly
/// `width * height * 4` bytes.
#[verifier::external_body]
fn resize_rgba_bytes(width: u32, height: u32, bytes: Vec<u8>, nwidth: u32, nheight: u32) -> (resized: Vec<u8>)
    requires
        bytes@.len() == width * height * 4,
        width > 0,
        height > 0,
        width < MAX_RESIZE_DIMENSION,
        height < MAX_RESIZE_DIMENSION,
        nwidth < MAX_RESIZE_DIMENSION,
        nheight < MAX_RESIZE_DIMENSION,
        nwidth * nheight * 4 <= usize::MAX,
        width * nheight * 4 <= usize::MAX,
    ensures
        resized@.len() == nwidth * nheight * 4,
{
    let buffer: image::RgbaImage =
        image::ImageBuffer::from_raw(width, height, bytes).expect("buffer length matches dimensions");
    image::imageops::resize(&buffer, nwidth, nheight, image::imageops::FilterType::Triangle).into_raw()
}

/// Resizes a pixel buffer to the given dimensions with an exact,
/// non-aspect-preserving triangle-filter resize, producing a new buffer of
/// exactly `nwidth * nheight * 4` bytes.
pub fn resize_pixel_buffer(buffer: PixelBuffer, nwidth: u32, nheight: u32) -> (resized: PixelBuffer)
    requires
        buffer.wf(),
        buffer.width > 0,
        buffer.height > 0,
        buffer.width < MAX_RESIZE_DIMENSION,
        buffer.height < MAX_RESIZE_DIMENSION,
        nwidth < MAX_RESIZE_DIMENSION,
        nheight < MAX_RESIZE_DIMENSION,
        nwidth * nheight * 4 <= usize::MAX,
        buffer.width * nheight * 4 <= usize::MAX,
    ensures
        resized.wf(),
        resized.width == nwidth,
        resized.height == nheight,
{
    let bytes = resize_rgba_bytes(buffer.width, buffer.height, buffer.bytes, nwidth, nheight);
    PixelBuffer::new(nwidth, nheight, bytes)
}

/// Standardizes the two buffers to the dimension pair the policy selects:
/// an image whose dimensions already equal the target passes through
/// unchanged, the other is resized. Afterwards both buffers carry the
/// target dimensions and therefore equal byte lengths.
pub fn standardize_size(
    image_1: PixelBuffer,
    image_2: PixelBuffer,
    policy: DimensionPolicy,
) -> (standardized: (PixelBuffer, PixelBuffer))
    requires
        image_1.wf(),
        image_2.wf(),
        image_1.width > 0,
        image_1.height > 0,
        image_2.width > 0,
        image_2.height > 0,
        image_1.width < MAX_RESIZE_DIMENSION,
        image_1.height < MAX_RESIZE_DIMENSION,
        image_2.width < MAX_RESIZE_DIMENSION,
        image_2.height < MAX_RESIZE_DIMENSION,
        image_1.width * image_2.height * 4 <= usize::MAX,
        image_2.width * image_1.height * 4 <= usize::MAX,
    ensures
        standardized.0.wf(),
        standardized.1.wf(),
        standardized.0.spec_dims() == spec_reconcile_dimensions(
            policy,
            image_1.spec_dims(),
            image_2.spec_dims(),
        ),
        standardized.1.spec_dims() == standardized.0.spec_dims(),
        standardized.0.bytes@.len() == standardized.1.bytes@.len(),
        image_1.spec_dims() == spec_reconcile_dimensions(
            policy,
            image_1.spec_dims(),
            image_2.spec_dims(),
        ) ==> standardized.0.bytes@ == image_1.bytes@,
        image_2.spec_dims() == spec_reconcile_dimensions(
            policy,
            image_1.spec_dims(),
            image_2.spec_dims(),
        ) ==> standardized.1.bytes@ == image_2.bytes@,
{
    let (width, height) = reconcile_dimensions(
        policy,
        (image_1.width, image_1.height),
        (image_2.width, image_2.height),
    );
    // A vector's length is a usize; binding the two lengths bounds the
    // byte capacities the resize preconditions speak of.
    let _len_1: usize = image_1.bytes.len();
    let _len_2: usize = image_2.bytes.len();
    assert(width * height * 4 == image_1.bytes@.len()
        || width * height * 4 == image_2.bytes@.len());
    let standardized_1 = if image_1.width == width && image_1.height == height {
        image_1
    } else {
        resize_pixel_buffer(image_1, width, height)
    };
    let standardized_2 = if image_2.width == width && image_2.height == height {
        image_2
    } else {
        resize_pixel_buffer(image_2, width, height)
    };
    (standardized_1, standardized_2)
}

} // verus!
