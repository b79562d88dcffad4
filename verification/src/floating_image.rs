//! The output assembler: temporary storage for the combined image's data
//! and metadata before it is handed to the encoder.

use vstd::prelude::*;
use crate::errors::ImageDataErrors;
use crate::pixel_buffer::CHANNELS;

verus! {

/// The assembled output image: its dimensions, its pixel data, and the name
/// of the file it is destined for.
///
/// The buffer is sized for exactly `width * height * 4` bytes; receiving
/// more data than that is a hard error, a sanity check against a dimension
/// accounting mistake, not a growth point.
#[derive(Debug)]
pub struct FloatingImage {
    pub width: u32,
    pub height: u32,
    pub data: Vec<u8>,
    pub name: String,
}

impl FloatingImage {
    /// The fixed byte capacity of the output: one 4-byte unit per pixel.
    pub open spec fn capacity(self) -> int {
        self.width * self.height * CHANNELS
    }

    /// Allocates an output image of the given dimensions with room for its
    /// pixel data, which starts out empty.
    pub fn new(width: u32, height: u32, name: String) -> (img: FloatingImage)
        requires
            width * height * CHANNELS <= u32::MAX,
        ensures
            img.width == width,
            img.height == height,
            img.name@ == name@,
            img.data@.len() == 0,
    {
        proof {
            assert(width * height <= width * height * CHANNELS) by (nonlinear_arith);
        }
        let buffer_capacity: u32 = height * width * 4;
        let buffer: Vec<u8> = Vec::with_capacity(buffer_capacity as usize);
        FloatingImage { width, height, data: buffer, name }
    }

    /// Stores the combined pixel data, rejecting data that exceeds the
    /// buffer's fixed capacity.
    ///
    /// Fails with `BufferTooSmall` exactly when `data` holds more than
    /// `width * height * 4` bytes, and leaves the image unchanged then;
    /// otherwise the data is stored byte for byte and the rest of the image
    /// is untouched.
    pub fn set_data(&mut self, data: Vec<u8>) -> (result: Result<(), ImageDataErrors>)
        ensures
            old(self).capacity() < data@.len() ==> ({
                &&& result is Err
                &&& result->Err_0 is BufferTooSmall
                &&& final(self).width == old(self).width
                &&& final(self).height == old(self).height
                &&& final(self).data@ == old(self).data@
                &&& final(self).name@ == old(self).name@
            }),
            data@.len() <= old(self).capacity() ==> ({
                &&& result is Ok
                &&& final(self).width == old(self).width
                &&& final(self).height == old(self).height
                &&& final(self).data@ == data@
                &&& final(self).name@ == old(self).name@
            }),
    {
        proof {
            lemma_capacity_fits_u128(self.width, self.height);
        }
        let capacity: u128 = self.width as u128 * self.height as u128 * 4;
        if data.len() as u128 > capacity {
            return Err(ImageDataErrors::BufferTooSmall);
        }
        self.data = data;
        Ok(())
    }
}

/// The byte capacity `width * height * 4` of any dimension pair fits in 128
/// bits.
proof fn lemma_capacity_fits_u128(width: u32, height: u32)
    ensures
        width * height * 4 <= u128::MAX,
{
    assert(width * height * 4 <= u128::MAX) by (nonlinear_arith)
        requires
            width <= u32::MAX,
            height <= u32::MAX,
    ;
}

} // verus!
