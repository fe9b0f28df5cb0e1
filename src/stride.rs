//! Row widths of 32-bit ARGB pixel buffers.
use vstd::prelude::*;

verus! {

/// Bits in one ARGB32 pixel.
pub const BITS_PER_PIXEL: u32 = 32;

/// Bytes to which each row of a buffer is aligned.
pub const STRIDE_ALIGNMENT: u32 = 4;

/// The widest row whose stride can be computed in 32 bits.
pub const MAX_STRIDE_WIDTH: u32 = 134217727;

/// The bytes of one row of `width` pixels, rounded up to the alignment.
pub open spec fn stride_spec(width: u32) -> int {
    ((BITS_PER_PIXEL * width + 7) / 8 + (STRIDE_ALIGNMENT - 1)) / (STRIDE_ALIGNMENT as int) * STRIDE_ALIGNMENT
}

/// The byte stride of a row of `width` ARGB32 pixels: four bytes a pixel,
/// which already meets the four-byte alignment.
pub fn calculate_stride(width: u32) -> (r: u32)
    requires
        width <= MAX_STRIDE_WIDTH,
    ensures
        r == stride_spec(width),
        r == 4 * width,
{
    let bytes: u32 = (BITS_PER_PIXEL * width + 7) / 8;
    assert(bytes == 4 * width) by (nonlinear_arith)
        requires
            bytes == (32 * width + 7) / 8,
    ;
    (bytes + (STRIDE_ALIGNMENT - 1)) / STRIDE_ALIGNMENT * STRIDE_ALIGNMENT
}

} // verus!
