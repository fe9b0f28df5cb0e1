//! Window border buffers for a compositor: the outer rectangle that a border
//! occupies, the pixel buffer behind it, and the drawing passes that paint it.
use vstd::prelude::*;

pub mod geometry;
pub mod color;
pub mod config;
pub mod stride;
pub mod borders;
pub mod base_draw;
pub mod simple_draw;

verus! {

/// Releases a pixel buffer that a border no longer uses.
pub fn drop_data(data: Vec<u8>) {
}

} // verus!
