use combiner::args::Args;
use combiner::dimensions::{get_smallest_dimensions, reconcile_dimensions, DimensionPolicy};
use combiner::errors::ImageDataErrors;
use combiner::floating_image::FloatingImage;
use combiner::formats::FormatTag;
use combiner::image_ops::{image_to_pixel_buffer, standardize_size};
use combiner::interleave::{alternate_pixels, set_rgba};
use combiner::pipeline::{combine, combine_images};
use combiner::pixel_buffer::PixelBuffer;

#[test]
fn args_holds_the_three_paths() {
    let args = Args::new(
        String::from("a.png"),
        String::from("b.png"),
        String::from("out.png"),
    );
    assert_eq!(args.image_1, "a.png");
    assert_eq!(args.image_2, "b.png");
    assert_eq!(args.output, "out.png");
}

#[test]
fn format_tags_compare_by_code() {
    assert_eq!(FormatTag::new(1), FormatTag::new(1));
    assert_ne!(FormatTag::new(1), FormatTag::new(2));
}

#[test]
fn smallest_dimensions_picks_the_smaller_pixel_count() {
    assert_eq!(get_smallest_dimensions((1, 1), (3, 3)), (1, 1));
    assert_eq!(get_smallest_dimensions((3, 3), (1, 1)), (1, 1));
    // A wide-but-short pair loses to a small square on pixel count.
    assert_eq!(get_smallest_dimensions((100, 1), (9, 9)), (9, 9));
}

#[test]
fn smallest_dimensions_breaks_ties_toward_the_second_pair() {
    assert_eq!(get_smallest_dimensions((4, 2), (2, 4)), (2, 4));
    assert_eq!(get_smallest_dimensions((2, 2), (2, 2)), (2, 2));
}

#[test]
fn reconcile_follows_the_policy() {
    assert_eq!(
        reconcile_dimensions(DimensionPolicy::TrueMinimum, (1, 1), (3, 3)),
        (1, 1)
    );
    assert_eq!(
        reconcile_dimensions(DimensionPolicy::AlwaysUseSecond, (1, 1), (3, 3)),
        (3, 3)
    );
}

#[test]
fn reconcile_is_deterministic_across_invocations() {
    for policy in [DimensionPolicy::TrueMinimum, DimensionPolicy::AlwaysUseSecond] {
        let first = reconcile_dimensions(policy, (640, 480), (800, 600));
        let second = reconcile_dimensions(policy, (640, 480), (800, 600));
        assert_eq!(first, second);
    }
}

#[test]
fn set_rgba_copies_one_unit() {
    let bytes: Vec<u8> = vec![10, 20, 30, 40, 50, 60, 70, 80];
    assert_eq!(set_rgba(&bytes, 0, 3), vec![10, 20, 30, 40]);
    assert_eq!(set_rgba(&bytes, 4, 7), vec![50, 60, 70, 80]);
}

#[test]
fn alternate_pixels_alternates_per_pixel_unit() {
    let a: Vec<u8> = vec![1, 2, 3, 4, 5, 6, 7, 8, 9, 10, 11, 12];
    let b: Vec<u8> = vec![101, 102, 103, 104, 105, 106, 107, 108, 109, 110, 111, 112];
    let combined = alternate_pixels(a, b);
    // Pixel units 0 and 2 come from the first buffer, unit 1 from the second.
    assert_eq!(
        combined,
        vec![1, 2, 3, 4, 105, 106, 107, 108, 9, 10, 11, 12]
    );
}

#[test]
fn alternate_pixels_keeps_the_input_length() {
    let a: Vec<u8> = vec![0; 64];
    let b: Vec<u8> = vec![255; 64];
    assert_eq!(alternate_pixels(a, b).len(), 64);
}

#[test]
fn floating_image_starts_empty() {
    let img = FloatingImage::new(2, 3, String::from("out.png"));
    assert_eq!(img.width, 2);
    assert_eq!(img.height, 3);
    assert_eq!(img.name, "out.png");
    assert!(img.data.is_empty());
}

#[test]
fn set_data_stores_fitting_data_unchanged() {
    let mut img = FloatingImage::new(1, 1, String::from("out.png"));
    let data: Vec<u8> = vec![9, 8, 7, 6];
    let result = img.set_data(data.clone());
    assert!(result.is_ok());
    assert_eq!(img.data, data);
}

#[test]
fn set_data_rejects_data_over_capacity() {
    let mut img = FloatingImage::new(1, 1, String::from("out.png"));
    let data: Vec<u8> = vec![0; 5];
    let result = img.set_data(data);
    assert!(matches!(result, Err(ImageDataErrors::BufferTooSmall)));
    assert!(img.data.is_empty());
}

#[test]
fn set_data_accepts_exactly_full_capacity() {
    let mut img = FloatingImage::new(2, 1, String::from("out.png"));
    let data: Vec<u8> = vec![1; 8];
    assert!(img.set_data(data).is_ok());
    assert_eq!(img.data.len(), 8);
}

#[test]
fn combine_images_interleaves_equal_buffers() {
    let image_1 = PixelBuffer::new(2, 1, vec![1, 2, 3, 4, 5, 6, 7, 8]);
    let image_2 = PixelBuffer::new(2, 1, vec![11, 12, 13, 14, 15, 16, 17, 18]);
    let combined = combine_images(image_1, image_2);
    assert_eq!(combined, vec![1, 2, 3, 4, 15, 16, 17, 18]);
}

#[test]
fn pipeline_interleaves_two_by_one_buffers() {
    // Two 2x1-pixel RGBA buffers of the same format and dimensions: the
    // output takes pixel 0 from the first image and pixel 1 from the second.
    let a = PixelBuffer::new(2, 1, vec![10, 11, 12, 13, 20, 21, 22, 23]);
    let b = PixelBuffer::new(2, 1, vec![110, 111, 112, 113, 120, 121, 122, 123]);
    let result = combine(
        a,
        FormatTag::new(1),
        b,
        FormatTag::new(1),
        String::from("out.png"),
        DimensionPolicy::AlwaysUseSecond,
    );
    let output = result.expect("same formats and dimensions must combine");
    assert_eq!(output.width, 2);
    assert_eq!(output.height, 1);
    assert_eq!(output.name, "out.png");
    assert_eq!(output.data, vec![10, 11, 12, 13, 120, 121, 122, 123]);
}

#[test]
fn pipeline_rejects_different_formats() {
    // One PNG-tagged and one JPEG-tagged input: the pipeline fails before
    // any resize or interleave work.
    let a = PixelBuffer::new(1, 1, vec![1, 2, 3, 4]);
    let b = PixelBuffer::new(1, 1, vec![5, 6, 7, 8]);
    let result = combine(
        a,
        FormatTag::new(1),
        b,
        FormatTag::new(2),
        String::from("out.png"),
        DimensionPolicy::TrueMinimum,
    );
    assert!(matches!(result, Err(ImageDataErrors::DifferentImageFormats)));
}

#[test]
fn standardize_equalizes_a_one_by_one_and_a_three_by_three() {
    let small = PixelBuffer::new(1, 1, vec![10, 20, 30, 40]);
    let big = PixelBuffer::new(3, 3, vec![200; 36]);
    let (first, second) = standardize_size(small, big, DimensionPolicy::TrueMinimum);
    assert_eq!((first.width, first.height), (1, 1));
    assert_eq!((second.width, second.height), (1, 1));
    assert_eq!(first.bytes.len(), second.bytes.len());
    // The already-small image passes through unchanged.
    assert_eq!(first.bytes, vec![10, 20, 30, 40]);
    // The large image was really resampled down to a single pixel.
    assert_eq!(second.bytes.len(), 4);
}

#[test]
fn standardize_upsizes_under_the_second_image_policy() {
    let small = PixelBuffer::new(1, 1, vec![10, 20, 30, 40]);
    let big = PixelBuffer::new(3, 3, vec![200; 36]);
    let (first, second) = standardize_size(small, big, DimensionPolicy::AlwaysUseSecond);
    assert_eq!((first.width, first.height), (3, 3));
    assert_eq!((second.width, second.height), (3, 3));
    assert_eq!(first.bytes.len(), 36);
    // The second image already carries the target dimensions and is untouched.
    assert_eq!(second.bytes, vec![200; 36]);
    // A single solid pixel upsizes to a solid 3x3 image.
    assert_eq!(first.bytes, [10, 20, 30, 40].repeat(9));
}

#[test]
fn decoded_image_reads_into_a_pixel_buffer() {
    let raw: Vec<u8> = vec![1, 2, 3, 4, 5, 6, 7, 8];
    let rgba = image::RgbaImage::from_raw(2, 1, raw.clone()).expect("length matches");
    let dynamic = image::DynamicImage::ImageRgba8(rgba);
    let buffer = image_to_pixel_buffer(&dynamic).expect("integer-backed images are read");
    assert_eq!((buffer.width, buffer.height), (2, 1));
    assert_eq!(buffer.bytes, raw);
}

#[test]
fn sixteen_bit_image_reads_into_a_pixel_buffer() {
    let raw: Vec<u16> = vec![u16::MAX, 0, u16::MAX, u16::MAX];
    let rgba = image::ImageBuffer::<image::Rgba<u16>, Vec<u16>>::from_raw(1, 1, raw)
        .expect("length matches");
    let dynamic = image::DynamicImage::ImageRgba16(rgba);
    let buffer = image_to_pixel_buffer(&dynamic).expect("integer-backed images are read");
    assert_eq!((buffer.width, buffer.height), (1, 1));
    assert_eq!(buffer.bytes, vec![255, 0, 255, 255]);
}

#[test]
fn float_backed_image_is_refused() {
    // A float-sample image can hold a non-finite sample, whose conversion
    // to 8-bit channels is partial; such images are not read at all.
    let raw: Vec<f32> = vec![f32::NAN, 0.0, 0.0];
    let rgb = image::Rgb32FImage::from_raw(1, 1, raw).expect("length matches");
    let dynamic = image::DynamicImage::ImageRgb32F(rgb);
    assert!(image_to_pixel_buffer(&dynamic).is_none());
}

#[test]
fn pipeline_combines_images_of_different_sizes() {
    let small = PixelBuffer::new(1, 1, vec![1, 2, 3, 4]);
    let big = PixelBuffer::new(3, 3, vec![9; 36]);
    let result = combine(
        small,
        FormatTag::new(7),
        big,
        FormatTag::new(7),
        String::from("out.png"),
        DimensionPolicy::TrueMinimum,
    );
    let output = result.expect("same formats must combine");
    assert_eq!((output.width, output.height), (1, 1));
    assert_eq!(output.data.len(), 4);
    // The single pixel unit has an even index and so comes from the first image.
    assert_eq!(output.data, vec![1, 2, 3, 4]);
}
