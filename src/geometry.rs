//! Rectangles on an output, and the rectangle that a border takes up around a
//! window's content.
use vstd::prelude::*;

verus! {

/// A position, in pixels, on an output.
#[derive(Clone, Copy, Debug, PartialEq, Eq, Structural)]
pub struct Point {
    pub x: i32,
    pub y: i32,
}

/// A width and a height, in pixels.
#[derive(Clone, Copy, Debug, PartialEq, Eq, Structural)]
pub struct Size {
    pub w: u32,
    pub h: u32,
}

/// A rectangle: its top left corner and its size.
#[derive(Clone, Copy, Debug, PartialEq, Eq, Structural)]
pub struct Geometry {
    pub origin: Point,
    pub size: Size,
}

/// Whether the rectangle around `content`, grown by a border of `thickness`
/// on the left and top and by a title strip of `title_offset` above, still has
/// a representable origin and size.
pub open spec fn outer_fits(content: Geometry, thickness: u32, title_offset: u32) -> bool {
    &&& content.origin.x - thickness >= i32::MIN
    &&& content.origin.y - thickness - title_offset >= i32::MIN
    &&& content.size.w + thickness <= u32::MAX
    &&& content.size.h + thickness + title_offset <= u32::MAX
}

/// The rectangle that a border of `thickness` with a title strip of
/// `title_offset` occupies around `content`. The title strip only ever grows
/// the top edge.
pub open spec fn outer_geometry_spec(content: Geometry, thickness: u32, title_offset: u32) -> Geometry {
    Geometry {
        origin: Point {
            x: (content.origin.x - thickness) as i32,
            y: (content.origin.y - thickness - title_offset) as i32,
        },
        size: Size {
            w: (content.size.w + thickness) as u32,
            h: (content.size.h + thickness + title_offset) as u32,
        },
    }
}

/// The outer rectangle of a border around `content`, or `None` where it
/// cannot be represented.
pub fn outer_geometry(content: Geometry, thickness: u32, title_offset: u32) -> (r: Option<Geometry>)
    ensures
        r == (if outer_fits(content, thickness, title_offset) {
            Some(outer_geometry_spec(content, thickness, title_offset))
        } else {
            None
        }),
{
    let x: i64 = content.origin.x as i64 - thickness as i64;
    let y: i64 = content.origin.y as i64 - thickness as i64 - title_offset as i64;
    let w: u64 = content.size.w as u64 + thickness as u64;
    let h: u64 = content.size.h as u64 + thickness as u64 + title_offset as u64;
    if x < i32::MIN as i64 || y < i32::MIN as i64 || w > u32::MAX as u64 || h > u32::MAX as u64 {
        return None;
    }
    Some(Geometry {
        origin: Point { x: x as i32, y: y as i32 },
        size: Size { w: w as u32, h: h as u32 },
    })
}

/// Every outer rectangle that can be represented is the content rectangle
/// moved up and left by the border, and by the title strip at the top, and
/// grown by the same amounts.
pub proof fn lemma_outer_geometry(content: Geometry, thickness: u32, title_offset: u32)
    requires
        outer_fits(content, thickness, title_offset),
    ensures
        ({
            let o = outer_geometry_spec(content, thickness, title_offset);
            &&& o.size.w == content.size.w + thickness
            &&& o.size.h == content.size.h + thickness + title_offset
            &&& o.origin.x == content.origin.x - thickness
            &&& o.origin.y == content.origin.y - (thickness + title_offset)
        }),
{
}

} // verus!
