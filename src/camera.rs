use vstd::prelude::*;

verus! {

/// Horizontal offset of the centre of pixel column `i` from the centre of an
/// image `width` pixels wide, counted in half pixels (positive to the right).
pub open spec fn half_offset_x(i: int, width: int) -> int {
    2 * i + 1 - width
}

/// Vertical offset of the centre of pixel row `j` from the centre of an image
/// `height` pixels tall, counted in half pixels. Row 0 is the top of the image,
/// so the offset is positive above the centre.
pub open spec fn half_offset_y(j: int, height: int) -> int {
    height - 2 * j - 1
}

/// The in-plane part of the camera ray through the centre of a pixel, in half
/// pixels. The ray's direction is `(dx2 / 2, dy2 / 2, -focal)` before it is
/// normalised, where `focal` depends on the field of view alone.
#[derive(Clone, Copy, Debug, PartialEq, Eq, Structural)]
pub struct PixelOffset {
    pub dx2: i64,
    pub dy2: i64,
}

/// Offset of pixel `(i, j)` from the image centre, in half pixels.
pub fn pixel_offset(i: usize, j: usize, width: usize, height: usize) -> (r: PixelOffset)
    requires
        i < width,
        j < height,
        2 * width <= i64::MAX,
        2 * height <= i64::MAX,
    ensures
        r.dx2 == half_offset_x(i as int, width as int),
        r.dy2 == half_offset_y(j as int, height as int),
{
    let dx2: i64 = 2 * (i as i64) + 1 - (width as i64);
    let dy2: i64 = (height as i64) - 2 * (j as i64) - 1;
    PixelOffset { dx2, dy2 }
}

} // verus!
