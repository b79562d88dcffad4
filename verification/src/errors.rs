//! The error taxonomy of the combining pipeline.

use vstd::prelude::*;

verus! {

/// Every way a combining run can fail. Each variant is distinct and
/// non-overlapping; any failure is terminal for the run.
#[derive(Debug)]
pub enum ImageDataErrors {
    /// The two inputs carry different container formats; no conversion is
    /// attempted.
    DifferentImageFormats,
    /// The interleaved data exceeds the pre-allocated output capacity.
    BufferTooSmall,
    /// An input file could not be read; carries a description of the
    /// underlying access failure.
    UnableToReadImageFromPath(String),
    /// The decoder could not determine an input's container format; carries
    /// the offending path.
    UnableToFormatImage(String),
    /// The decoder recognized the format but failed to parse pixel data;
    /// carries a description of the decode failure.
    UnableToDecodeImage(String),
    /// The encoder failed to write the output file; carries a description of
    /// the encode failure.
    UnableToSaveImage(String),
}

} // verus!
