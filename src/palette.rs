use vstd::prelude::*;
use crate::color::Color;
use crate::pattern::Pattern;

verus! {

/// Width and height, in pixels, of every generated image.
pub const SIZE: u32 = 512;

pub open spec fn spec_black() -> Color {
    Color { r: 0, g: 0, b: 0 }
}

/// Every channel at its lowest value.
#[verifier::when_used_as_spec(spec_black)]
pub fn black() -> (c: Color)
    ensures
        c == spec_black(),
{
    Color { r: 0, g: 0, b: 0 }
}

pub open spec fn spec_white() -> Color {
    Color { r: 255, g: 255, b: 255 }
}

/// Every channel at its highest value.
#[verifier::when_used_as_spec(spec_white)]
pub fn white() -> (c: Color)
    ensures
        c == spec_white(),
{
    Color { r: 255, g: 255, b: 255 }
}

pub open spec fn spec_red() -> Color {
    Color { r: 255, g: 0, b: 0 }
}

/// Only the first channel at its highest value.
#[verifier::when_used_as_spec(spec_red)]
pub fn red() -> (c: Color)
    ensures
        c == spec_red(),
{
    Color { r: 255, g: 0, b: 0 }
}

pub open spec fn spec_green() -> Color {
    Color { r: 0, g: 255, b: 0 }
}

/// Only the second channel at its highest value.
#[verifier::when_used_as_spec(spec_green)]
pub fn green() -> (c: Color)
    ensures
        c == spec_green(),
{
    Color { r: 0, g: 255, b: 0 }
}

pub open spec fn spec_blue() -> Color {
    Color { r: 0, g: 0, b: 255 }
}

/// Only the third channel at its highest value.
#[verifier::when_used_as_spec(spec_blue)]
pub fn blue() -> (c: Color)
    ensures
        c == spec_blue(),
{
    Color { r: 0, g: 0, b: 255 }
}

pub open spec fn spec_yellow() -> Color {
    Color { r: 255, g: 255, b: 0 }
}

/// Every channel but the third at its highest value.
#[verifier::when_used_as_spec(spec_yellow)]
pub fn yellow() -> (c: Color)
    ensures
        c == spec_yellow(),
{
    Color { r: 255, g: 255, b: 0 }
}

/// One image to generate: the file stem it is saved under and what it shows.
#[derive(Clone, Copy, Debug)]
pub struct ImageSpec {
    pub name: &'static str,
    pub pattern: Pattern,
}

pub open spec fn rybg() -> [Color; 4] {
    [red(), yellow(), blue(), green()]
}

pub open spec fn r01g() -> [Color; 4] {
    [red(), black(), white(), green()]
}

pub open spec fn zero_yb1() -> [Color; 4] {
    [black(), yellow(), blue(), white()]
}

/// The fixed set of images, each `SIZE` x `SIZE`: a red disc of radius `SIZE / 2`
/// on black, three gradients, and the same three gradients brightness-corrected.
pub fn standard_images() -> (v: Vec<ImageSpec>)
    ensures
        v@.len() == 7,
        v@[0].name@ == "circle"@,
        v@[0].pattern == (Pattern::Circle { radius: SIZE / 2, inside: red(), outside: black() }),
        v@[1].name@ == "rybg"@,
        v@[1].pattern == (Pattern::Corners { corners: rybg() }),
        v@[2].name@ == "r01g"@,
        v@[2].pattern == (Pattern::Corners { corners: r01g() }),
        v@[3].name@ == "0yb1"@,
        v@[3].pattern == (Pattern::Corners { corners: zero_yb1() }),
        v@[4].name@ == "rybg_corrected"@,
        v@[4].pattern == (Pattern::CornersCorrected { corners: rybg() }),
        v@[5].name@ == "r01g_corrected"@,
        v@[5].pattern == (Pattern::CornersCorrected { corners: r01g() }),
        v@[6].name@ == "0yb1_corrected"@,
        v@[6].pattern == (Pattern::CornersCorrected { corners: zero_yb1() }),
        forall|i: int| 0 <= i < 7 ==> (#[trigger] v@[i]).pattern.fits(SIZE, SIZE),
        3 * SIZE * SIZE <= usize::MAX,
{
    let (k, w, r, g, b, y) = (black(), white(), red(), green(), blue(), yellow());
    let mut v: Vec<ImageSpec> = Vec::new();
    v.push(ImageSpec { name: "circle", pattern: Pattern::Circle { radius: SIZE / 2, inside: r, outside: k } });
    v.push(ImageSpec { name: "rybg", pattern: Pattern::Corners { corners: [r, y, b, g] } });
    v.push(ImageSpec { name: "r01g", pattern: Pattern::Corners { corners: [r, k, w, g] } });
    v.push(ImageSpec { name: "0yb1", pattern: Pattern::Corners { corners: [k, y, b, w] } });
    v.push(ImageSpec { name: "rybg_corrected", pattern: Pattern::CornersCorrected { corners: [r, y, b, g] } });
    v.push(ImageSpec { name: "r01g_corrected", pattern: Pattern::CornersCorrected { corners: [r, k, w, g] } });
    v.push(ImageSpec { name: "0yb1_corrected", pattern: Pattern::CornersCorrected { corners: [k, y, b, w] } });
    proof {
        reveal_strlit("circle");
        reveal_strlit("rybg");
        reveal_strlit("r01g");
        reveal_strlit("0yb1");
        reveal_strlit("rybg_corrected");
        reveal_strlit("r01g_corrected");
        reveal_strlit("0yb1_corrected");
    }
    v
}

} // verus!
