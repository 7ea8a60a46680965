use vstd::prelude::*;
use crate::color::Color;
use crate::circle::{circle, in_circle};
use crate::interpolate::{
    Ratio,
    interpolate,
    interpolate_brightness_corrected,
    interpolated,
    is_corrected_interpolation,
};

verus! {

/// The position of pixel `(x, y)` within a `width` x `height` grid, as a ratio
/// of the unit square: the first pixel is at 0 and the last at 1.
pub open spec fn pixel_ratio_spec(x: u32, y: u32, width: u32, height: u32) -> Ratio {
    Ratio { x, y, den_x: (width - 1) as u32, den_y: (height - 1) as u32 }
}

/// Computes the position of pixel `(x, y)` within a `width` x `height` grid.
pub fn pixel_ratio(x: u32, y: u32, width: u32, height: u32) -> (r: Ratio)
    requires
        2 <= width,
        2 <= height,
        x < width,
        y < height,
    ensures
        r == pixel_ratio_spec(x, y, width, height),
        r.wf(),
{
    Ratio::new(x, y, width - 1, height - 1)
}

/// The colour of pixel `(x, y)` of a `width` x `height` gradient over four corner
/// colours, given in row-major order.
pub fn with_corners(corners: [Color; 4], width: u32, height: u32, x: u32, y: u32) -> (c: Color)
    requires
        2 <= width,
        2 <= height,
        x < width,
        y < height,
    ensures
        c == interpolated(pixel_ratio_spec(x, y, width, height), corners),
{
    interpolate(pixel_ratio(x, y, width, height), corners)
}

/// The colour of pixel `(x, y)` of a `width` x `height` brightness-corrected
/// gradient over four corner colours, given in row-major order.
pub fn with_corners_brightness_corrected(
    corners: [Color; 4],
    width: u32,
    height: u32,
    x: u32,
    y: u32,
) -> (c: Color)
    requires
        2 <= width,
        2 <= height,
        x < width,
        y < height,
    ensures
        is_corrected_interpolation(pixel_ratio_spec(x, y, width, height), corners, c),
{
    interpolate_brightness_corrected(pixel_ratio(x, y, width, height), corners)
}

/// What an image shows, pixel by pixel.
#[derive(Clone, Copy, Debug)]
pub enum Pattern {
    /// A centred disc of `radius` in `inside`, on `outside`.
    Circle { radius: u32, inside: Color, outside: Color },
    /// A bilinear gradient over four corner colours in row-major order.
    Corners { corners: [Color; 4] },
    /// A brightness-corrected gradient over four corner colours in row-major order.
    CornersCorrected { corners: [Color; 4] },
}

impl Pattern {
    /// The pattern can be drawn on a `width` x `height` grid: a gradient needs two
    /// pixels along each axis.
    pub open spec fn fits(self, width: u32, height: u32) -> bool {
        match self {
            Pattern::Circle { .. } => true,
            _ => 2 <= width && 2 <= height,
        }
    }

    /// `c` is the colour of pixel `(x, y)` of the pattern on a `width` x `height` grid.
    pub open spec fn shows(self, width: u32, height: u32, x: u32, y: u32, c: Color) -> bool {
        match self {
            Pattern::Circle { radius, inside, outside } => c == if in_circle(
                radius as int,
                width as int,
                height as int,
                x as int,
                y as int,
            ) {
                inside
            } else {
                outside
            },
            Pattern::Corners { corners } => c == interpolated(
                pixel_ratio_spec(x, y, width, height),
                corners,
            ),
            Pattern::CornersCorrected { corners } => is_corrected_interpolation(
                pixel_ratio_spec(x, y, width, height),
                corners,
                c,
            ),
        }
    }

    /// The colour of pixel `(x, y)` of the pattern on a `width` x `height` grid.
    pub fn sample(&self, width: u32, height: u32, x: u32, y: u32) -> (c: Color)
        requires
            self.fits(width, height),
            x < width,
            y < height,
        ensures
            self.shows(width, height, x, y, c),
    {
        match *self {
            Pattern::Circle { radius, inside, outside } => circle(
                radius,
                inside,
                outside,
                width,
                height,
                x,
                y,
            ),
            Pattern::Corners { corners } => with_corners(corners, width, height, x, y),
            Pattern::CornersCorrected { corners } => with_corners_brightness_corrected(
                corners,
                width,
                height,
                x,
                y,
            ),
        }
    }
}

} // verus!
