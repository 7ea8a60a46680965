use vstd::prelude::*;
use crate::color::{Color, Channel, channel_of};
use crate::sqrt::{is_floor_sqrt, floor_sqrt, lemma_floor_sqrt_of_square};

verus! {

/// A point of the unit square as an exact fraction: `(x / den_x, y / den_y)`.
#[derive(Clone, Copy, Debug, PartialEq, Eq, Structural)]
pub struct Ratio {
    pub x: u32,
    pub y: u32,
    pub den_x: u32,
    pub den_y: u32,
}

impl Ratio {
    /// Both denominators are positive and both coordinates lie in `[0, 1]`.
    pub open spec fn wf(self) -> bool {
        0 < self.den_x && self.x <= self.den_x && 0 < self.den_y && self.y <= self.den_y
    }

    /// Builds the ratio `(x / den_x, y / den_y)`.
    pub fn new(x: u32, y: u32, den_x: u32, den_y: u32) -> (r: Ratio)
        requires
            0 < den_x,
            x <= den_x,
            0 < den_y,
            y <= den_y,
        ensures
            r == (Ratio { x, y, den_x, den_y }),
            r.wf(),
    {
        Ratio { x, y, den_x, den_y }
    }
}

/// The bilinear blend of four corner values, scaled by `den_x * den_y`.
/// The corners are in row-major order: top-left, top-right, bottom-left, bottom-right.
pub open spec fn blend_sum(v0: int, v1: int, v2: int, v3: int, r: Ratio) -> int {
    let (ax, ay) = (r.den_x - r.x, r.den_y - r.y);
    v0 * (ax * ay) + v1 * (r.x * ay) + v2 * (ax * r.y) + v3 * (r.x * r.y)
}

/// The bilinear blend of four corner values at `r`, truncated towards zero.
pub open spec fn blend(v0: int, v1: int, v2: int, v3: int, r: Ratio) -> int {
    blend_sum(v0, v1, v2, v3, r) / (r.den_x * r.den_y)
}

/// The blend of one channel of the four corners.
pub open spec fn blend_channel(r: Ratio, c: [Color; 4], k: Channel) -> int {
    blend(
        c[0].channel(k) as int,
        c[1].channel(k) as int,
        c[2].channel(k) as int,
        c[3].channel(k) as int,
        r,
    )
}

/// The bilinearly interpolated colour at `r`.
pub open spec fn interpolated(r: Ratio, c: [Color; 4]) -> Color {
    Color {
        r: blend_channel(r, c, Channel::Red) as u8,
        g: blend_channel(r, c, Channel::Green) as u8,
        b: blend_channel(r, c, Channel::Blue) as u8,
    }
}

pub open spec fn square(v: int) -> int {
    v * v
}

/// The blend of the squares of one channel of the four corners.
pub open spec fn blend_channel_squared(r: Ratio, c: [Color; 4], k: Channel) -> int {
    blend(
        square(c[0].channel(k) as int),
        square(c[1].channel(k) as int),
        square(c[2].channel(k) as int),
        square(c[3].channel(k) as int),
        r,
    )
}

/// `out` is the brightness-corrected interpolation of `c` at `r`: each channel is
/// the square root, rounded down, of the blend of the squared corner channels.
pub open spec fn is_corrected_interpolation(r: Ratio, c: [Color; 4], out: Color) -> bool {
    forall|k: Channel|
        is_floor_sqrt(#[trigger] out.channel(k) as int, blend_channel_squared(r, c, k))
}

/// Weights of the four corners are non-negative and sum to `den_x * den_y`.
proof fn lemma_weights(r: Ratio)
    requires
        r.wf(),
    ensures
        ({
            let (ax, ay) = (r.den_x - r.x, r.den_y - r.y);
            &&& 0 <= ax * ay
            &&& 0 <= r.x * ay
            &&& 0 <= ax * r.y
            &&& 0 <= r.x * r.y
            &&& ax * ay + r.x * ay + ax * r.y + r.x * r.y == r.den_x * r.den_y
            &&& 0 < r.den_x * r.den_y
        }),
{
    let (ax, ay) = (r.den_x - r.x, r.den_y - r.y);
    let (x, y, dx, dy) = (r.x as int, r.y as int, r.den_x as int, r.den_y as int);
    assert(0 <= ax * ay && 0 <= x * ay && 0 <= ax * y && 0 <= x * y) by (nonlinear_arith)
        requires
            0 <= ax,
            0 <= ay,
            0 <= x,
            0 <= y,
    ;
    assert(ax * ay + x * ay + ax * y + x * y == dx * dy) by (nonlinear_arith)
        requires
            ax == dx - x,
            ay == dy - y,
    ;
    assert(0 < dx * dy) by (nonlinear_arith)
        requires
            0 < dx,
            0 < dy,
    ;
}

/// A blend of values in `[0, m]` lies in `[0, m]`.
pub proof fn lemma_blend_bounds(v0: int, v1: int, v2: int, v3: int, m: int, r: Ratio)
    requires
        r.wf(),
        0 <= v0 <= m,
        0 <= v1 <= m,
        0 <= v2 <= m,
        0 <= v3 <= m,
    ensures
        0 <= blend_sum(v0, v1, v2, v3, r) <= m * (r.den_x * r.den_y),
        0 <= blend(v0, v1, v2, v3, r) <= m,
{
    lemma_weights(r);
    let (ax, ay) = (r.den_x - r.x, r.den_y - r.y);
    let (w0, w1, w2, w3) = (ax * ay, r.x * ay, ax * r.y, r.x * r.y);
    let d = r.den_x * r.den_y;
    assert(0 <= v0 * w0 + v1 * w1 + v2 * w2 + v3 * w3 <= m * d) by (nonlinear_arith)
        requires
            0 <= v0 <= m,
            0 <= v1 <= m,
            0 <= v2 <= m,
            0 <= v3 <= m,
            0 <= w0,
            0 <= w1,
            0 <= w2,
            0 <= w3,
            w0 + w1 + w2 + w3 == d,
    ;
    let s = blend_sum(v0, v1, v2, v3, r);
    assert(0 <= s / d <= m) by (nonlinear_arith)
        requires
            0 <= s <= m * d,
            0 < d,
    ;
}

/// The bilinear blend of four channel values at `r`.
pub fn blend_values(v: [u32; 4], r: Ratio) -> (out: u32)
    requires
        r.wf(),
    ensures
        out as int == blend(v[0] as int, v[1] as int, v[2] as int, v[3] as int, r),
{
    proof {
        lemma_weights(r);
        lemma_blend_bounds(v[0] as int, v[1] as int, v[2] as int, v[3] as int, u32::MAX as int, r);
    }
    let ax: u128 = (r.den_x - r.x) as u128;
    let ay: u128 = (r.den_y - r.y) as u128;
    let x: u128 = r.x as u128;
    let y: u128 = r.y as u128;
    assert(ax * ay <= 0xffff_ffff * 0xffff_ffff && x * ay <= 0xffff_ffff * 0xffff_ffff
        && ax * y <= 0xffff_ffff * 0xffff_ffff && x * y <= 0xffff_ffff * 0xffff_ffff)
        by (nonlinear_arith)
        requires
            ax <= 0xffff_ffff,
            ay <= 0xffff_ffff,
            x <= 0xffff_ffff,
            y <= 0xffff_ffff,
    ;
    let d: u128 = r.den_x as u128 * r.den_y as u128;
    let (w0, w1, w2, w3) = (ax * ay, x * ay, ax * y, x * y);
    assert(d <= 0xffff_ffff * 0xffff_ffff) by (nonlinear_arith)
        requires
            d == r.den_x * r.den_y,
    ;
    let (v0, v1, v2, v3) = (v[0] as u128, v[1] as u128, v[2] as u128, v[3] as u128);
    assert(v0 * w0 <= 0xffff_ffff * d && v1 * w1 <= 0xffff_ffff * d && v2 * w2
        <= 0xffff_ffff * d && v3 * w3 <= 0xffff_ffff * d) by (nonlinear_arith)
        requires
            v0 <= 0xffff_ffff,
            v1 <= 0xffff_ffff,
            v2 <= 0xffff_ffff,
            v3 <= 0xffff_ffff,
            w0 <= d,
            w1 <= d,
            w2 <= d,
            w3 <= d,
    ;
    let s: u128 = v0 * w0 + v1 * w1 + v2 * w2 + v3 * w3;
    (s / d) as u32
}

/// The blend of channel `k` of the four corners.
fn blend_corners(r: Ratio, c: [Color; 4], k: Channel) -> (out: u8)
    requires
        r.wf(),
    ensures
        out as int == blend_channel(r, c, k),
{
    let v: [u32; 4] = [
        channel_of(c[0], k) as u32,
        channel_of(c[1], k) as u32,
        channel_of(c[2], k) as u32,
        channel_of(c[3], k) as u32,
    ];
    let out = blend_values(v, r);
    proof {
        lemma_blend_bounds(v[0] as int, v[1] as int, v[2] as int, v[3] as int, 255, r);
    }
    out as u8
}

/// Bilinear interpolation of four corner colours, channel by channel, at `ratio`.
/// The corners are in row-major order: top-left, top-right, bottom-left, bottom-right.
pub fn interpolate(ratio: Ratio, corners: [Color; 4]) -> (out: Color)
    requires
        ratio.wf(),
    ensures
        out == interpolated(ratio, corners),
        forall|k: Channel| #[trigger] out.channel(k) as int == blend_channel(ratio, corners, k),
{
    let out = Color {
        r: blend_corners(ratio, corners, Channel::Red),
        g: blend_corners(ratio, corners, Channel::Green),
        b: blend_corners(ratio, corners, Channel::Blue),
    };
    assert forall|k: Channel| #[trigger] out.channel(k) as int == blend_channel(ratio, corners, k) by {
        match k {
            Channel::Red => {},
            Channel::Green => {},
            Channel::Blue => {},
        }
    }
    out
}

/// The brightness-corrected blend of channel `k` of the four corners.
fn blend_corners_corrected(r: Ratio, c: [Color; 4], k: Channel) -> (out: u8)
    requires
        r.wf(),
    ensures
        is_floor_sqrt(out as int, blend_channel_squared(r, c, k)),
{
    let (a0, a1, a2, a3) = (
        channel_of(c[0], k) as u32,
        channel_of(c[1], k) as u32,
        channel_of(c[2], k) as u32,
        channel_of(c[3], k) as u32,
    );
    assert(a0 * a0 <= 65025 && a1 * a1 <= 65025 && a2 * a2 <= 65025 && a3 * a3 <= 65025)
        by (nonlinear_arith)
        requires
            a0 <= 255,
            a1 <= 255,
            a2 <= 255,
            a3 <= 255,
    ;
    let v: [u32; 4] = [a0 * a0, a1 * a1, a2 * a2, a3 * a3];
    let blended = blend_values(v, r);
    proof {
        lemma_blend_bounds(v[0] as int, v[1] as int, v[2] as int, v[3] as int, 65025, r);
    }
    let root = floor_sqrt(blended);
    assert(root <= 255) by (nonlinear_arith)
        requires
            root * root <= 65025,
    ;
    root as u8
}

/// Interpolation in squared-intensity space: each corner channel is squared, the
/// squares are blended bilinearly at `ratio`, and the square root of the blend,
/// rounded down, is taken.
pub fn interpolate_brightness_corrected(ratio: Ratio, corners: [Color; 4]) -> (out: Color)
    requires
        ratio.wf(),
    ensures
        is_corrected_interpolation(ratio, corners, out),
{
    let out = Color {
        r: blend_corners_corrected(ratio, corners, Channel::Red),
        g: blend_corners_corrected(ratio, corners, Channel::Green),
        b: blend_corners_corrected(ratio, corners, Channel::Blue),
    };
    assert forall|k: Channel|
        is_floor_sqrt(#[trigger] out.channel(k) as int, blend_channel_squared(ratio, corners, k)) by {
        match k {
            Channel::Red => {},
            Channel::Green => {},
            Channel::Blue => {},
        }
    }
    out
}

/// Which corner, in row-major order, a ratio on a corner of the unit square names.
pub open spec fn corner_index(r: Ratio) -> int {
    (if r.x == 0 { 0int } else { 1int }) + (if r.y == 0 { 0int } else { 2int })
}

/// The ratio lies on one of the four corners of the unit square.
pub open spec fn at_corner(r: Ratio) -> bool {
    &&& r.wf()
    &&& (r.x == 0 || r.x == r.den_x)
    &&& (r.y == 0 || r.y == r.den_y)
}

/// At a corner the blend is that corner's value.
proof fn lemma_blend_at_corner(v: Seq<int>, r: Ratio)
    requires
        v.len() == 4,
        at_corner(r),
    ensures
        blend(v[0], v[1], v[2], v[3], r) == v[corner_index(r)],
{
    let (x, y, dx, dy) = (r.x as int, r.y as int, r.den_x as int, r.den_y as int);
    let i = corner_index(r);
    let d = dx * dy;
    lemma_weights(r);
    let (ax, ay) = (dx - x, dy - y);
    assert(blend_sum(v[0], v[1], v[2], v[3], r) == v[i] * d) by (nonlinear_arith)
        requires
            x == 0 || x == dx,
            y == 0 || y == dy,
            i == (if x == 0 { 0int } else { 1int }) + (if y == 0 { 0int } else { 2int }),
            ax == dx - x,
            ay == dy - y,
            d == dx * dy,
            blend_sum(v[0], v[1], v[2], v[3], r) == v[0] * (ax * ay) + v[1] * (x * ay) + v[2] * (
            ax * y) + v[3] * (x * y),
    ;
    lemma_exact_quotient(v[i], d);
}

proof fn lemma_exact_quotient(a: int, d: int)
    requires
        0 < d,
    ensures
        (a * d) / d == a,
{
    vstd::arithmetic::div_mod::lemma_div_multiples_vanish(a, d);
    vstd::arithmetic::mul::lemma_mul_is_commutative(a, d);
}

/// Where all four values are equal, the blend is that value.
proof fn lemma_blend_uniform(a: int, r: Ratio)
    requires
        r.wf(),
    ensures
        blend(a, a, a, a, r) == a,
{
    lemma_weights(r);
    let (ax, ay) = (r.den_x - r.x, r.den_y - r.y);
    let (w0, w1, w2, w3) = (ax * ay, r.x * ay, ax * r.y, r.x * r.y);
    let d = r.den_x * r.den_y;
    assert(a * w0 + a * w1 + a * w2 + a * w3 == a * d) by (nonlinear_arith)
        requires
            w0 + w1 + w2 + w3 == d,
    ;
    lemma_exact_quotient(a, d);
}

/// Interpolating at a corner of the unit square gives that corner's colour unchanged.
pub proof fn lemma_interpolate_at_corner(ratio: Ratio, corners: [Color; 4])
    requires
        at_corner(ratio),
    ensures
        interpolated(ratio, corners) == corners[corner_index(ratio)],
{
    let c = corners[corner_index(ratio)];
    assert forall|k: Channel| #[trigger] blend_channel(ratio, corners, k) == c.channel(k) by {
        lemma_blend_at_corner(
            seq![
                corners[0].channel(k) as int,
                corners[1].channel(k) as int,
                corners[2].channel(k) as int,
                corners[3].channel(k) as int,
            ],
            ratio,
        );
    }
    assert(blend_channel(ratio, corners, Channel::Red) == c.r);
    assert(blend_channel(ratio, corners, Channel::Green) == c.g);
    assert(blend_channel(ratio, corners, Channel::Blue) == c.b);
}

/// Interpolating between four equal corners gives that colour, at every ratio.
pub proof fn lemma_interpolate_uniform(ratio: Ratio, a: Color)
    requires
        ratio.wf(),
    ensures
        interpolated(ratio, [a, a, a, a]) == a,
{
    lemma_blend_uniform(a.r as int, ratio);
    lemma_blend_uniform(a.g as int, ratio);
    lemma_blend_uniform(a.b as int, ratio);
    assert(blend_channel(ratio, [a, a, a, a], Channel::Red) == a.r);
    assert(blend_channel(ratio, [a, a, a, a], Channel::Green) == a.g);
    assert(blend_channel(ratio, [a, a, a, a], Channel::Blue) == a.b);
}

/// Two colours that agree on every channel are equal.
pub proof fn lemma_channels_equal(a: Color, b: Color)
    requires
        forall|k: Channel| #[trigger] a.channel(k) == b.channel(k),
    ensures
        a == b,
{
    assert(a.channel(Channel::Red) == b.channel(Channel::Red));
    assert(a.channel(Channel::Green) == b.channel(Channel::Green));
    assert(a.channel(Channel::Blue) == b.channel(Channel::Blue));
}

/// Brightness-corrected interpolation at a corner of the unit square gives that
/// corner's colour unchanged.
pub proof fn lemma_corrected_at_corner(ratio: Ratio, corners: [Color; 4], out: Color)
    requires
        at_corner(ratio),
        is_corrected_interpolation(ratio, corners, out),
    ensures
        out == corners[corner_index(ratio)],
{
    let c = corners[corner_index(ratio)];
    assert forall|k: Channel| #[trigger] out.channel(k) == c.channel(k) by {
        lemma_blend_at_corner(
            seq![
                square(corners[0].channel(k) as int),
                square(corners[1].channel(k) as int),
                square(corners[2].channel(k) as int),
                square(corners[3].channel(k) as int),
            ],
            ratio,
        );
        lemma_floor_sqrt_of_square(c.channel(k) as int, out.channel(k) as int);
    }
    lemma_channels_equal(out, c);
}

/// Brightness-corrected interpolation between four equal corners gives that
/// colour, at every ratio.
pub proof fn lemma_corrected_uniform(ratio: Ratio, a: Color, out: Color)
    requires
        ratio.wf(),
        is_corrected_interpolation(ratio, [a, a, a, a], out),
    ensures
        out == a,
{
    assert forall|k: Channel| #[trigger] out.channel(k) == a.channel(k) by {
        lemma_blend_uniform(square(a.channel(k) as int), ratio);
        lemma_floor_sqrt_of_square(a.channel(k) as int, out.channel(k) as int);
    }
    lemma_channels_equal(out, a);
}

} // verus!
