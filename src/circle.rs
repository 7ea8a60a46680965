use vstd::prelude::*;
use crate::color::Color;

verus! {

/// Squared distance from the centre of a `width` x `height` grid to the centre of
/// pixel `(x, y)`, measured in half-pixel units so that it stays an integer.
pub open spec fn doubled_distance_squared(width: int, height: int, x: int, y: int) -> int {
    let (dx, dy) = (2 * x + 1 - width, 2 * y + 1 - height);
    dx * dx + dy * dy
}

/// Pixel `(x, y)` of a `width` x `height` grid lies within `radius` of the grid's centre.
pub open spec fn in_circle(radius: int, width: int, height: int, x: int, y: int) -> bool {
    doubled_distance_squared(width, height, x, y) <= (2 * radius) * (2 * radius)
}

proof fn lemma_square_bound(v: int, m: int)
    requires
        -m <= v <= m,
    ensures
        0 <= v * v <= m * m,
{
    if v >= 0 {
        assert(0 <= v * v <= m * m) by (nonlinear_arith)
            requires
                0 <= v <= m,
        ;
    } else {
        assert(v * v == (-v) * (-v)) by (nonlinear_arith);
        assert(0 <= (-v) * (-v) <= m * m) by (nonlinear_arith)
            requires
                0 <= -v <= m,
        ;
    }
}

/// The colour of pixel `(x, y)` of a `width` x `height` image that shows a disc of
/// `radius` around the centre: `inside` on the disc and its edge, `outside` elsewhere.
pub fn circle(radius: u32, inside: Color, outside: Color, width: u32, height: u32, x: u32, y: u32)
    -> (c: Color)
    ensures
        c == if in_circle(radius as int, width as int, height as int, x as int, y as int) {
            inside
        } else {
            outside
        },
{
    let dx: i128 = 2 * (x as i128) + 1 - width as i128;
    let dy: i128 = 2 * (y as i128) + 1 - height as i128;
    let d: i128 = 2 * (radius as i128);
    proof {
        lemma_square_bound(dx as int, 0x3_0000_0000);
        lemma_square_bound(dy as int, 0x3_0000_0000);
        lemma_square_bound(d as int, 0x3_0000_0000);
    }
    if dx * dx + dy * dy <= d * d {
        inside
    } else {
        outside
    }
}

/// The central pixel of any non-empty grid lies on a disc of radius at least one.
pub proof fn lemma_circle_centre(radius: int, width: int, height: int)
    requires
        1 <= radius,
        1 <= width,
        1 <= height,
    ensures
        in_circle(radius, width, height, (width - 1) / 2, (height - 1) / 2),
{
    let (dx, dy) = (2 * ((width - 1) / 2) + 1 - width, 2 * ((height - 1) / 2) + 1 - height);
    assert(-1 <= dx <= 0 && -1 <= dy <= 0);
    assert(dx * dx + dy * dy <= 2) by (nonlinear_arith)
        requires
            -1 <= dx <= 0,
            -1 <= dy <= 0,
    ;
    assert(4 <= (2 * radius) * (2 * radius)) by (nonlinear_arith)
        requires
            1 <= radius,
    ;
}

/// The corner pixels of an `n` x `n` grid lie outside a disc whose diameter is
/// less than `n`.
pub proof fn lemma_circle_corners(radius: int, n: int, x: int, y: int)
    requires
        0 <= radius,
        2 * radius < n,
        2 <= n,
        x == 0 || x == n - 1,
        y == 0 || y == n - 1,
    ensures
        !in_circle(radius, n, n, x, y),
{
    let (dx, dy) = (2 * x + 1 - n, 2 * y + 1 - n);
    assert(dx * dx == (n - 1) * (n - 1) && dy * dy == (n - 1) * (n - 1)) by (nonlinear_arith)
        requires
            dx == n - 1 || dx == 1 - n,
            dy == n - 1 || dy == 1 - n,
    ;
    assert((2 * radius) * (2 * radius) <= (n - 1) * (n - 1) && 0 < (n - 1) * (n - 1))
        by (nonlinear_arith)
        requires
            0 <= 2 * radius <= n - 1,
            1 <= n - 1,
    ;
}

} // verus!
