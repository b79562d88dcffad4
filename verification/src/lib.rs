//! Combines two images into one output image by alternating 4-byte RGBA
//! pixel units between the two sources, after reconciling their dimensions
//! to one common width/height pair.
//!
//! The pipeline is strictly linear: check that the two inputs carry the
//! same container format, standardize both pixel buffers to the reconciled
//! dimensions, interleave them unit by unit, and assemble the output image
//! for the encoder. Decoding and encoding of image files are the caller's
//! side of the boundary; the library consumes and produces flat pixel
//! buffers and typed errors.

pub mod args;
pub mod dimensions;
pub mod errors;
pub mod floating_image;
pub mod formats;
pub mod image_ops;
pub mod interleave;
pub mod pipeline;
pub mod pixel_buffer;
