//! The decoded-pixel data entity: a flat byte buffer plus its dimensions.

use vstd::prelude::*;

verus! {

/// The number of bytes in one pixel unit: red, green, blue and alpha, one
/// byte each.
pub const CHANNELS: u32 = 4;

/// A decoded image: a flat, row-major byte sequence of 4-byte RGBA pixel
/// units together with the image's width and height.
///
/// A buffer is never partially mutated; resizing produces a new buffer.
#[derive(Debug)]
pub struct PixelBuffer {
    pub width: u32,
    pub height: u32,
    pub bytes: Vec<u8>,
}

impl PixelBuffer {
    /// The size invariant: the byte sequence holds exactly one 4-byte unit
    /// per pixel.
    pub open spec fn wf(self) -> bool {
        self.bytes@.len() == self.width * self.height * CHANNELS
    }

    /// The width/height pair of the buffer.
    pub open spec fn spec_dims(self) -> (u32, u32) {
        (self.width, self.height)
    }

    /// Builds a buffer from its dimensions and its raw bytes; the byte length
    /// must match the dimensions exactly.
    pub fn new(width: u32, height: u32, bytes: Vec<u8>) -> (buffer: PixelBuffer)
        requires
            bytes@.len() == width * height * CHANNELS,
        ensures
            buffer.wf(),
            buffer.width == width,
            buffer.height == height,
            buffer.bytes@ == bytes@,
    {
        PixelBuffer { width, height, bytes }
    }

    /// The width/height pair of the buffer.
    pub fn dims(&self) -> (dims: (u32, u32))
        ensures
            dims == self.spec_dims(),
    {
        (self.width, self.height)
    }
}

} // verus!
