//! The combining pipeline: format-match check, dimension standardization,
//! pixel interleaving and output assembly, in that order, with every
//! failure mapped to a typed error.

use vstd::prelude::*;
use crate::dimensions::{spec_reconcile_dimensions, DimensionPolicy};
use crate::errors::ImageDataErrors;
use crate::floating_image::FloatingImage;
use crate::formats::FormatTag;
use crate::image_ops::{standardize_size, MAX_RESIZE_DIMENSION};
use crate::interleave::{alternate_pixels, interleaved};
use crate::pixel_buffer::PixelBuffer;

verus! {

/// Merges two standardized buffers into one byte vector by alternating the
/// source of each 4-byte pixel unit: units with an even ordinal index come
/// from the first image, units with an odd one from the second.
pub fn combine_images(image_1: PixelBuffer, image_2: PixelBuffer) -> (combined: Vec<u8>)
    requires
        image_1.wf(),
        image_2.wf(),
        image_1.spec_dims() == image_2.spec_dims(),
    ensures
        combined@ == interleaved(image_1.bytes@, image_2.bytes@),
{
    proof {
        lemma_unit_count_divides(image_1.width, image_1.height);
    }
    alternate_pixels(image_1.bytes, image_2.bytes)
}

/// A byte count of whole 4-byte pixel units is divisible by 4.
proof fn lemma_unit_count_divides(width: u32, height: u32)
    ensures
        (width * height * 4) % 4 == 0,
{
    assert((width * height * 4) % 4 == 0) by (nonlinear_arith);
}

/// Runs the compute core of the pipeline on two decoded inputs: checks that
/// their container formats match, standardizes both buffers to the
/// dimensions the policy selects, interleaves them pixel unit by pixel
/// unit, and assembles the output image under the given name.
///
/// Fails with `DifferentImageFormats` exactly when the two tags differ,
/// whatever the two buffers hold, and then no resize or interleave work is
/// reflected in the result; the size bounds are asked of the caller only
/// when the formats match and the resize and assembly stages will run. On
/// success the output carries the reconciled dimensions, the output name,
/// and a data buffer that fills its capacity exactly; when both inputs
/// already carry the reconciled dimensions, that buffer is precisely their
/// interleaving, and every pixel unit drawn from an input that was not
/// resized is that input's unit byte for byte.
pub fn combine(
    image_1: PixelBuffer,
    format_1: FormatTag,
    image_2: PixelBuffer,
    format_2: FormatTag,
    output_name: String,
    policy: DimensionPolicy,
) -> (result: Result<FloatingImage, ImageDataErrors>)
    requires
        format_1 == format_2 ==> ({
            &&& image_1.wf()
            &&& image_2.wf()
            &&& image_1.width > 0
            &&& image_1.height > 0
            &&& image_2.width > 0
            &&& image_2.height > 0
            &&& image_1.width < MAX_RESIZE_DIMENSION
            &&& image_1.height < MAX_RESIZE_DIMENSION
            &&& image_2.width < MAX_RESIZE_DIMENSION
            &&& image_2.height < MAX_RESIZE_DIMENSION
            &&& image_1.bytes@.len() <= u32::MAX
            &&& image_2.bytes@.len() <= u32::MAX
            &&& image_1.width * image_2.height * 4 <= usize::MAX
            &&& image_2.width * image_1.height * 4 <= usize::MAX
        }),
    ensures
        format_1 != format_2 ==> ({
            &&& result is Err
            &&& result->Err_0 is DifferentImageFormats
        }),
        format_1 == format_2 ==> ({
            let target = spec_reconcile_dimensions(
                policy,
                image_1.spec_dims(),
                image_2.spec_dims(),
            );
            &&& result is Ok
            &&& result->Ok_0.width == target.0
            &&& result->Ok_0.height == target.1
            &&& result->Ok_0.name@ == output_name@
            &&& result->Ok_0.data@.len() == target.0 * target.1 * 4
            &&& (image_1.spec_dims() == target && image_2.spec_dims() == target)
                ==> result->Ok_0.data@ == interleaved(image_1.bytes@, image_2.bytes@)
            &&& image_1.spec_dims() == target ==> (forall|i: int|
                0 <= i < result->Ok_0.data@.len() && (i / 4) % 2 == 0
                    ==> result->Ok_0.data@[i] == image_1.bytes@[i])
            &&& image_2.spec_dims() == target ==> (forall|i: int|
                0 <= i < result->Ok_0.data@.len() && (i / 4) % 2 != 0
                    ==> result->Ok_0.data@[i] == image_2.bytes@[i])
        }),
{
    if format_1 != format_2 {
        return Err(ImageDataErrors::DifferentImageFormats);
    }
    let ghost orig_1 = image_1;
    let ghost orig_2 = image_2;
    let (image_1, image_2) = standardize_size(image_1, image_2, policy);
    proof {
        crate::dimensions::lemma_reconcile_picks_an_input(
            policy,
            orig_1.spec_dims(),
            orig_2.spec_dims(),
        );
    }
    let mut output = FloatingImage::new(image_1.width, image_1.height, output_name);
    let combined_data = combine_images(image_1, image_2);
    output.set_data(combined_data)?;
    Ok(output)
}

} // verus!
