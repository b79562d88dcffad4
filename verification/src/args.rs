//! The configuration of a single combining run: two input paths and one
//! output path, constructed once at the boundary and passed by value.

use vstd::prelude::*;

verus! {

/// The three paths a run works on: the two input image files and the output
/// file to write.
#[derive(Debug)]
pub struct Args {
    pub image_1: String,
    pub image_2: String,
    pub output: String,
}

impl Args {
    /// Packs the three paths into one configuration value.
    pub fn new(image_1: String, image_2: String, output: String) -> (args: Args)
        ensures
            args.image_1@ == image_1@,
            args.image_2@ == image_2@,
            args.output@ == output@,
    {
        Args { image_1, image_2, output }
    }
}

} // verus!
