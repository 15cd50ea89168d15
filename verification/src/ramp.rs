//! Character ramps and the mapping from luminance to a ramp position.

use vstd::prelude::*;
use crate::text::chars_of;

verus! {

/// The ramp of ten glyphs, darkest first.
pub const SMALL_RAMP: &'static str = "@%#*+=-:. ";

/// The ramp of seventy glyphs, darkest first.
pub const LARGE_RAMP: &'static str =
    "$@B%8&WM#*oahkbdpqwmZO0QLCJUYXzcvunxrjft/\\|()1{}[]?-_+~<>i!lI;:,\"^`'. ";

/// Which of the two built-in character ramps to draw with.
#[derive(Clone, Copy, Debug, PartialEq, Eq, Structural)]
pub enum Charset {
    /// The ramp of ten glyphs.
    Small,
    /// The ramp of seventy glyphs.
    Large,
}

impl Charset {
    /// The ramp that draws with few glyphs when `big` is false and with many
    /// when it is true.
    pub fn from_flag(big: bool) -> (c: Charset)
        ensures
            c == (if big { Charset::Large } else { Charset::Small }),
    {
        if big { Charset::Large } else { Charset::Small }
    }

    /// The glyphs of the ramp, darkest first.
    pub open spec fn glyphs(self) -> Seq<char> {
        match self {
            Charset::Small => SMALL_RAMP@,
            Charset::Large => LARGE_RAMP@,
        }
    }

    /// The ramp as text.
    pub fn as_str(self) -> (s: &'static str)
        ensures
            s@ == self.glyphs(),
    {
        match self {
            Charset::Small => SMALL_RAMP,
            Charset::Large => LARGE_RAMP,
        }
    }

    /// The number of glyphs of a ramp: ten or seventy.
    pub proof fn glyph_count(self)
        ensures
            self == Charset::Small ==> self.glyphs().len() == 10,
            self == Charset::Large ==> self.glyphs().len() == 70,
            self.glyphs().len() >= 1,
    {
        reveal_strlit("@%#*+=-:. ");
        reveal_strlit(
            "$@B%8&WM#*oahkbdpqwmZO0QLCJUYXzcvunxrjft/\\|()1{}[]?-_+~<>i!lI;:,\"^`'. ",
        );
    }

    /// No glyph of a ramp is a line feed.
    pub proof fn no_line_feed(self)
        ensures
            forall|i: int| 0 <= i < self.glyphs().len() ==> #[trigger] self.glyphs()[i] != '\n',
    {
        reveal_strlit("@%#*+=-:. ");
        reveal_strlit(
            "$@B%8&WM#*oahkbdpqwmZO0QLCJUYXzcvunxrjft/\\|()1{}[]?-_+~<>i!lI;:,\"^`'. ",
        );
    }
}

/// The glyphs of a ramp, darkest first.
pub fn ramp_chars(charset: Charset) -> (v: Vec<char>)
    ensures
        v@ == charset.glyphs(),
        v@.len() >= 1,
{
    proof {
        charset.glyph_count();
    }
    chars_of(charset.as_str())
}

/// The position in a ramp of `ramp_len` glyphs that stands for a luminance:
/// the luminance scaled from `0..=255` to `0..=ramp_len - 1`, rounded down.
pub open spec fn ramp_index(luma: u8, ramp_len: nat) -> int {
    (luma as int * (ramp_len - 1)) / 255
}

/// A ramp position is a valid index, black is the first glyph and white the
/// last.
pub proof fn ramp_index_in_range(luma: u8, ramp_len: nat)
    requires
        ramp_len >= 1,
    ensures
        0 <= ramp_index(luma, ramp_len) < ramp_len,
        luma == 0 ==> ramp_index(luma, ramp_len) == 0,
        luma == 255 ==> ramp_index(luma, ramp_len) == ramp_len - 1,
{
    let n = ramp_len as int - 1;
    assert(0 <= luma as int * n <= 255 * n) by (nonlinear_arith)
        requires
            0 <= luma as int <= 255,
            n >= 0,
    ;
    assert(0 <= (luma as int * n) / 255 <= n) by (nonlinear_arith)
        requires
            0 <= luma as int * n <= 255 * n,
    ;
    assert((255 * n) / 255 == n) by (nonlinear_arith);
}

/// A brighter sample never stands earlier in the ramp than a darker one.
pub proof fn ramp_index_monotonic(darker: u8, brighter: u8, ramp_len: nat)
    requires
        ramp_len >= 1,
        darker <= brighter,
    ensures
        ramp_index(darker, ramp_len) <= ramp_index(brighter, ramp_len),
{
    let n = ramp_len as int - 1;
    assert(darker as int * n <= brighter as int * n) by (nonlinear_arith)
        requires
            darker as int <= brighter as int,
            n >= 0,
    ;
    assert((darker as int * n) / 255 <= (brighter as int * n) / 255) by (nonlinear_arith)
        requires
            darker as int * n <= brighter as int * n,
    ;
}

/// Quantizes a luminance to a position in a ramp of `ramp_len` glyphs.
pub fn quantize(luma: u8, ramp_len: usize) -> (index: usize)
    requires
        ramp_len >= 1,
    ensures
        index == ramp_index(luma, ramp_len as nat),
        index < ramp_len,
        luma == 0 ==> index == 0,
        luma == 255 ==> index == ramp_len - 1,
{
    proof {
        ramp_index_in_range(luma, ramp_len as nat);
        assert(0 <= luma as int * (ramp_len as int - 1) <= 255 * (ramp_len as int - 1))
            by (nonlinear_arith)
            requires
                0 <= luma as int <= 255,
                ramp_len as int >= 1,
        ;
    }
    let scaled: u128 = luma as u128 * (ramp_len - 1) as u128;
    (scaled / 255) as usize
}

/// The luminance of a colour: its red, green and blue weighted by 2126, 7152
/// and 722 parts in ten thousand, rounded down.
pub open spec fn luma_of(r: u8, g: u8, b: u8) -> u8 {
    ((2126 * r as int + 7152 * g as int + 722 * b as int) / 10000) as u8
}

/// A grey pixel has the luminance of its channels: black has 0 and white 255.
pub proof fn luma_of_gray(v: u8)
    ensures
        luma_of(v, v, v) == v,
        luma_of(0, 0, 0) == 0,
        luma_of(255, 255, 255) == 255,
{
    assert(2126 * v as int + 7152 * v as int + 722 * v as int == 10000 * v as int);
}

/// `Pixel::to_luma` of the image crate, on an 8-bit RGBA pixel: the weighted
/// sum of red, green and blue with the weights 2126, 7152 and 722, divided by
/// 10000 in integer arithmetic. Alpha takes no part.
#[verifier::external_body]
fn to_luma(r: u8, g: u8, b: u8, a: u8) -> (l: u8)
    ensures
        l == luma_of(r, g, b),
{
    image::Pixel::to_luma(&image::Rgba([r, g, b, a])).0[0]
}

/// The luminance of a pixel, from its colour channels.
pub fn luminance(r: u8, g: u8, b: u8, a: u8) -> (l: u8)
    ensures
        l == luma_of(r, g, b),
{
    to_luma(r, g, b, a)
}

/// The ramp position for a pixel, from its colour channels and the length of
/// the ramp.
pub fn glyph_index(r: u8, g: u8, b: u8, a: u8, ramp_len: usize) -> (index: usize)
    requires
        ramp_len >= 1,
    ensures
        index == ramp_index(luma_of(r, g, b), ramp_len as nat),
        index < ramp_len,
{
    quantize(luminance(r, g, b, a), ramp_len)
}

} // verus!
