//! The size of the panel and of its frame buffer.

use vstd::prelude::*;

verus! {

/// Width of the panel in pixels.
pub const WIDTH: u32 = 122;

/// Height of the panel in pixels.
pub const HEIGHT: u32 = 250;

/// The number of bytes that hold `width * height` pixels, eight to a byte:
/// the quotient of the pixel count by eight, rounded up.
pub open spec fn spec_buffer_len(width: int, height: int) -> int {
    (width * height + 7) / 8
}

/// The number of bytes of the frame buffer of this panel.
pub open spec fn frame_len() -> int {
    spec_buffer_len(WIDTH as int, HEIGHT as int)
}

/// The buffer length is the least number of bytes with a bit for every
/// pixel.
pub proof fn lemma_buffer_len_is_least(width: int, height: int)
    requires
        0 <= width,
        0 <= height,
    ensures
        8 * spec_buffer_len(width, height) >= width * height,
        8 * (spec_buffer_len(width, height) - 1) < width * height,
{
}

/// The frame buffer of this panel has 3813 bytes.
pub proof fn lemma_frame_len()
    ensures
        frame_len() == 3813,
{
}

/// Computes the number of bytes that hold `width * height` pixels.
pub fn buffer_len(width: usize, height: usize) -> (len: usize)
    requires
        width * height + 7 <= usize::MAX,
    ensures
        len == spec_buffer_len(width as int, height as int),
{
    (width * height + 7) / 8
}

} // verus!
