use vstd::prelude::*;
use crate::color::{Color, Channel};
use crate::pattern::{Pattern, pixel_ratio_spec};
use crate::interpolate::{blend_channel_squared, lemma_channels_equal};
use crate::sqrt::{is_floor_sqrt, lemma_floor_sqrt_unique};

verus! {

/// The colour stored at pixel index `p` of a packed RGB buffer.
pub open spec fn pixel_at(buf: Seq<u8>, p: int) -> Color {
    Color { r: buf[3 * p], g: buf[3 * p + 1], b: buf[3 * p + 2] }
}

/// The colour stored for pixel `(x, y)` of a packed, row-major RGB buffer whose
/// rows are `width` pixels long.
pub open spec fn pixel_xy(buf: Seq<u8>, width: u32, x: u32, y: u32) -> Color {
    pixel_at(buf, y * width + x)
}

/// `buf` holds `pattern` drawn on a `width` x `height` grid, as packed RGB bytes
/// in row-major order.
pub open spec fn renders(pattern: Pattern, width: u32, height: u32, buf: Seq<u8>) -> bool {
    &&& buf.len() == 3 * width * height
    &&& forall|x: u32, y: u32|
        x < width && y < height ==> pattern.shows(
            width,
            height,
            x,
            y,
            #[trigger] pixel_xy(buf, width, x, y),
        )
}

/// Pixels of earlier rows, and earlier pixels of the same row, come first.
proof fn lemma_index_before(xx: int, yy: int, x: int, y: int, width: int)
    requires
        0 <= xx,
        0 <= yy,
        0 <= x,
        (yy < y && xx < width) || (yy == y && xx < x),
    ensures
        yy * width + xx < y * width + x,
{
    if yy < y {
        assert(yy * width + xx < y * width + x) by (nonlinear_arith)
            requires
                0 <= xx < width,
                0 <= yy < y,
                0 <= x,
        ;
    }
}

/// Draws `pattern` on a `width` x `height` grid, returning the pixels as packed
/// RGB bytes in row-major order.
pub fn render(pattern: &Pattern, width: u32, height: u32) -> (buf: Vec<u8>)
    requires
        pattern.fits(width, height),
        3 * width * height <= usize::MAX,
    ensures
        renders(*pattern, width, height, buf@),
{
    let mut buf: Vec<u8> = Vec::new();
    let mut y: u32 = 0;
    while y < height
        invariant
            pattern.fits(width, height),
            y <= height,
            buf@.len() == 3 * (y * width),
            forall|xx: u32, yy: u32|
                xx < width && yy < y ==> pattern.shows(
                    width,
                    height,
                    xx,
                    yy,
                    #[trigger] pixel_xy(buf@, width, xx, yy),
                ),
        decreases height - y,
    {
        let mut x: u32 = 0;
        while x < width
            invariant
                pattern.fits(width, height),
                y < height,
                x <= width,
                buf@.len() == 3 * (y * width + x),
                forall|xx: u32, yy: u32|
                    (yy < y && xx < width) || (yy == y && xx < x) ==> pattern.shows(
                        width,
                        height,
                        xx,
                        yy,
                        #[trigger] pixel_xy(buf@, width, xx, yy),
                    ),
            decreases width - x,
        {
            let c = pattern.sample(width, height, x, y);
            let ghost before = buf@;
            buf.push(c.r);
            buf.push(c.g);
            buf.push(c.b);
            proof {
                assert(pixel_xy(buf@, width, x, y) == c);
                assert forall|xx: u32, yy: u32|
                    (yy < y && xx < width) || (yy == y && xx < x) implies #[trigger] pixel_xy(
                    buf@,
                    width,
                    xx,
                    yy,
                ) == pixel_xy(before, width, xx, yy) by {
                    lemma_index_before(xx as int, yy as int, x as int, y as int, width as int);
                }
            }
            x = x + 1;
        }
        assert(y * width + width == (y + 1) * width) by (nonlinear_arith);
        y = y + 1;
    }
    assert(3 * (height * width) == 3 * width * height) by (nonlinear_arith);
    buf
}

/// A pattern and a grid size determine every pixel's bytes: drawing the same
/// pattern twice gives identical buffers.
pub proof fn lemma_render_deterministic(
    pattern: Pattern,
    width: u32,
    height: u32,
    a: Seq<u8>,
    b: Seq<u8>,
)
    requires
        renders(pattern, width, height, a),
        renders(pattern, width, height, b),
    ensures
        a == b,
{
    assert forall|i: int| 0 <= i < a.len() implies a[i] == b[i] by {
        let p = i / 3;
        let w = width as int;
        assert(0 < w) by (nonlinear_arith)
            requires
                0 <= i < 3 * w * height,
                0 <= w,
        ;
        vstd::arithmetic::div_mod::lemma_fundamental_div_mod(p, w);
        let (x, y) = (p % w, p / w);
        assert(0 <= x < w) by {
            vstd::arithmetic::div_mod::lemma_mod_bound(p, w);
        }
        assert(0 <= y < height) by (nonlinear_arith)
            requires
                0 <= i < 3 * w * height,
                p == i / 3,
                p == w * y + x,
                0 <= x < w,
        ;
        let (xu, yu) = (x as u32, y as u32);
        assert(y * w + x == p) by (nonlinear_arith)
            requires
                p == w * y + x,
        ;
        lemma_shows_unique(
            pattern,
            width,
            height,
            xu,
            yu,
            pixel_xy(a, width, xu, yu),
            pixel_xy(b, width, xu, yu),
        );
    }
    assert(a =~= b);
}

/// A pattern shows exactly one colour at each pixel.
pub proof fn lemma_shows_unique(
    pattern: Pattern,
    width: u32,
    height: u32,
    x: u32,
    y: u32,
    c: Color,
    d: Color,
)
    requires
        pattern.shows(width, height, x, y, c),
        pattern.shows(width, height, x, y, d),
    ensures
        c == d,
{
    if let Pattern::CornersCorrected { corners } = pattern {
        let r = pixel_ratio_spec(x, y, width, height);
        assert forall|k: Channel| #[trigger] c.channel(k) == d.channel(k) by {
            assert(is_floor_sqrt(c.channel(k) as int, blend_channel_squared(r, corners, k)));
            assert(is_floor_sqrt(d.channel(k) as int, blend_channel_squared(r, corners, k)));
            lemma_floor_sqrt_unique(c.channel(k) as int, d.channel(k) as int, blend_channel_squared(r, corners, k));
        }
        lemma_channels_equal(c, d);
    }
}

} // verus!
