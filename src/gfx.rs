use vstd::prelude::*;

verus! {

/// An RGB color.
#[derive(Clone, Copy, Debug, PartialEq, Eq, Structural)]
pub struct Color {
    pub r: u8,
    pub g: u8,
    pub b: u8,
}

/// A position on the terminal grid, in cells (zero-based).
#[derive(Clone, Copy, Debug, PartialEq, Eq, Structural)]
pub struct Point {
    pub x: u32,
    pub y: u32,
}

/// A width and a height.
#[derive(Clone, Copy, Debug, PartialEq, Eq, Structural)]
pub struct Size {
    pub width: u32,
    pub height: u32,
}

/// Level (0..=5) of one channel on the xterm 6x6x6 color cube.
pub open spec fn cube_level(v: u8) -> int {
    if v < 55 {
        0
    } else {
        let l = (v - 35) / 40;
        if l > 5 { 5 } else { l }
    }
}

/// Whether a color is close enough to gray to use the grayscale ramp.
pub open spec fn is_grayish(c: Color) -> bool {
    let hi = if c.r >= c.g && c.r >= c.b { c.r } else if c.g >= c.b { c.g } else { c.b };
    let lo = if c.r <= c.g && c.r <= c.b { c.r } else if c.g <= c.b { c.g } else { c.b };
    hi - lo < 8
}

/// The xterm-256 palette code of a color.
#[verifier::opaque]
pub open spec fn xterm_code(c: Color) -> int {
    if is_grayish(c) {
        if c.r <= 4 {
            16
        } else if c.r <= 8 {
            232
        } else if c.r >= 247 {
            231
        } else if c.r >= 238 {
            255
        } else {
            232 + (c.r - 8) / 10
        }
    } else {
        16 + 36 * cube_level(c.r) + 6 * cube_level(c.g) + cube_level(c.b)
    }
}

/// Mean of one channel over the samples selected by `mask` (bit i selects sample i).
pub open spec fn channel_mean(a: u8, b: u8, c: u8, d: u8, mask: u8) -> int {
    let sum = (if mask & 1 != 0 { a as int } else { 0 }) + (if mask & 2 != 0 { b as int } else { 0 })
        + (if mask & 4 != 0 { c as int } else { 0 }) + (if mask & 8 != 0 { d as int } else { 0 });
    let n = (if mask & 1 != 0 { 1int } else { 0 }) + (if mask & 2 != 0 { 1int } else { 0 })
        + (if mask & 4 != 0 { 1int } else { 0 }) + (if mask & 8 != 0 { 1int } else { 0 });
    if n == 0 { 0 } else { sum / n }
}

fn level(v: u8) -> (r: u8)
    ensures
        r as int == cube_level(v),
{
    if v < 55 {
        0
    } else {
        let l = (v - 35) / 40;
        if l > 5 { 5 } else { l }
    }
}

impl Color {
    pub fn new(r: u8, g: u8, b: u8) -> (c: Color)
        ensures
            c == (Color { r, g, b }),
    {
        Color { r, g, b }
    }

    /// Nearest code of the xterm 256-color palette.
    pub fn to_xterm(&self) -> (code: u8)
        ensures
            code as int == xterm_code(*self),
    {
        reveal(xterm_code);
        let (r, g, b) = (self.r, self.g, self.b);
        let hi = if r >= g && r >= b { r } else if g >= b { g } else { b };
        let lo = if r <= g && r <= b { r } else if g <= b { g } else { b };
        if hi - lo < 8 {
            if r <= 4 {
                16
            } else if r <= 8 {
                232
            } else if r >= 247 {
                231
            } else if r >= 238 {
                255
            } else {
                232 + (r - 8) / 10
            }
        } else {
            16 + 36 * level(r) + 6 * level(g) + level(b)
        }
    }

    /// Channel-wise mean of two colors, rounded down.
    pub fn avg_with(&self, other: Color) -> (c: Color)
        ensures
            c.r == (self.r + other.r) / 2,
            c.g == (self.g + other.g) / 2,
            c.b == (self.b + other.b) / 2,
    {
        Color {
            r: ((self.r as u16 + other.r as u16) / 2) as u8,
            g: ((self.g as u16 + other.g as u16) / 2) as u8,
            b: ((self.b as u16 + other.b as u16) / 2) as u8,
        }
    }
}

impl Point {
    pub fn new(x: u32, y: u32) -> (p: Point)
        ensures
            p == (Point { x, y }),
    {
        Point { x, y }
    }
}

impl Size {
    pub fn new(width: u32, height: u32) -> (s: Size)
        ensures
            s == (Size { width, height }),
    {
        Size { width, height }
    }
}

/// Four color samples of one cell: top-left, top-right, bottom-left, bottom-right.
#[derive(Clone, Copy, Debug, PartialEq, Eq, Structural)]
pub struct Quadrant(pub Color, pub Color, pub Color, pub Color);

/// A character drawn by the rendering engine, spanning `width` columns.
/// Continuation cells of a wide character carry `index > 0`.
#[derive(Clone, Debug)]
pub struct Grapheme {
    /// UTF-8 bytes of the character.
    pub text: Vec<u8>,
    pub color: Color,
    pub width: u32,
    pub index: u32,
}

/// One terminal position to paint in the current frame.
#[derive(Clone, Debug)]
pub struct Cell {
    pub cursor: Point,
    pub quadrant: Quadrant,
    pub grapheme: Option<Grapheme>,
    pub image: bool,
}

/// Relative brightness of a color (weights scaled by 10000).
pub open spec fn luma(c: Color) -> int {
    2126 * c.r + 7152 * c.g + 722 * c.b
}

/// Which samples of a quadrant are brighter than the midpoint of its extremes.
pub open spec fn bright_mask(q: Quadrant) -> u8 {
    let (a, b, c, d) = (luma(q.0), luma(q.1), luma(q.2), luma(q.3));
    let hi = if a >= b && a >= c && a >= d { a } else if b >= c && b >= d { b } else if c >= d { c } else { d };
    let lo = if a <= b && a <= c && a <= d { a } else if b <= c && b <= d { b } else if c <= d { c } else { d };
    let pivot = (hi + lo) / 2;
    ((if a > pivot { 1u8 } else { 0u8 }) + (if b > pivot { 2u8 } else { 0u8 })
        + (if c > pivot { 4u8 } else { 0u8 }) + (if d > pivot { 8u8 } else { 0u8 })) as u8
}

/// UTF-8 bytes of the block element that lights the samples in `mask`.
pub open spec fn block_glyph(mask: u8) -> Seq<u8> {
    if mask == 0 {
        seq![32u8]
    } else {
        let last: u8 = if mask == 1 {
            0x98u8
        } else if mask == 2 {
            0x9du8
        } else if mask == 3 {
            0x80u8
        } else if mask == 4 {
            0x96u8
        } else if mask == 5 {
            0x8cu8
        } else if mask == 6 {
            0x9eu8
        } else if mask == 7 {
            0x9bu8
        } else if mask == 8 {
            0x97u8
        } else if mask == 9 {
            0x9au8
        } else if mask == 10 {
            0x90u8
        } else if mask == 11 {
            0x9cu8
        } else if mask == 12 {
            0x84u8
        } else if mask == 13 {
            0x99u8
        } else if mask == 14 {
            0x9fu8
        } else {
            0x88u8
        };
        seq![0xe2u8, 0x96u8, last]
    }
}

/// Mean color of the samples selected by `mask`.
pub open spec fn mean_color(q: Quadrant, mask: u8) -> Color {
    Color {
        r: channel_mean(q.0.r, q.1.r, q.2.r, q.3.r, mask) as u8,
        g: channel_mean(q.0.g, q.1.g, q.2.g, q.3.g, mask) as u8,
        b: channel_mean(q.0.b, q.1.b, q.2.b, q.3.b, mask) as u8,
    }
}

/// Two-color block approximation of a quadrant: the glyph, its background
/// (mean of the dark samples) and its foreground (mean of the bright ones;
/// the background when no sample is bright).
#[verifier::opaque]
pub open spec fn binarized(q: Quadrant) -> (Seq<u8>, Color, Color) {
    let m = bright_mask(q);
    let bg = mean_color(q, (15 - m) as u8);
    let fg = if m == 0 { bg } else { mean_color(q, m) };
    (block_glyph(m), bg, fg)
}

fn luma_of(c: Color) -> (r: u32)
    ensures
        r as int == luma(c),
{
    2126 * c.r as u32 + 7152 * c.g as u32 + 722 * c.b as u32
}

fn mean_channel(a: u8, b: u8, c: u8, d: u8, mask: u8) -> (r: u8)
    requires
        mask < 16,
    ensures
        r as int == channel_mean(a, b, c, d, mask),
{
    let mut sum: u32 = 0;
    let mut n: u32 = 0;
    if mask & 1 != 0 {
        sum = sum + a as u32;
        n = n + 1;
    }
    if mask & 2 != 0 {
        sum = sum + b as u32;
        n = n + 1;
    }
    if mask & 4 != 0 {
        sum = sum + c as u32;
        n = n + 1;
    }
    if mask & 8 != 0 {
        sum = sum + d as u32;
        n = n + 1;
    }
    if n == 0 {
        0
    } else {
        assert(sum / n <= 255) by (nonlinear_arith)
            requires
                sum <= 255 * n,
                n >= 1,
        ;
        (sum / n) as u8
    }
}

fn mean_of(q: Quadrant, mask: u8) -> (c: Color)
    requires
        mask < 16,
    ensures
        c == mean_color(q, mask),
{
    Color {
        r: mean_channel(q.0.r, q.1.r, q.2.r, q.3.r, mask),
        g: mean_channel(q.0.g, q.1.g, q.2.g, q.3.g, mask),
        b: mean_channel(q.0.b, q.1.b, q.2.b, q.3.b, mask),
    }
}

fn glyph_bytes(mask: u8) -> (v: Vec<u8>)
    requires
        mask < 16,
    ensures
        v@ == block_glyph(mask),
{
    if mask == 0 {
        let v = vec![32u8];
        assert(v@ =~= block_glyph(mask));
        v
    } else {
        let last: u8 = if mask == 1 {
            0x98u8
        } else if mask == 2 {
            0x9du8
        } else if mask == 3 {
            0x80u8
        } else if mask == 4 {
            0x96u8
        } else if mask == 5 {
            0x8cu8
        } else if mask == 6 {
            0x9eu8
        } else if mask == 7 {
            0x9bu8
        } else if mask == 8 {
            0x97u8
        } else if mask == 9 {
            0x9au8
        } else if mask == 10 {
            0x90u8
        } else if mask == 11 {
            0x9cu8
        } else if mask == 12 {
            0x84u8
        } else if mask == 13 {
            0x99u8
        } else if mask == 14 {
            0x9fu8
        } else {
            0x88u8
        };
        let v = vec![0xe2u8, 0x96u8, last];
        assert(v@ =~= block_glyph(mask));
        v
    }
}

/// Approximates a quadrant by a block element glyph and two colors.
pub fn binarize_quadrant(q: Quadrant) -> (r: (Vec<u8>, Color, Color))
    ensures
        (r.0@, r.1, r.2) == binarized(q),
{
    reveal(binarized);
    let (a, b, c, d) = (luma_of(q.0), luma_of(q.1), luma_of(q.2), luma_of(q.3));
    let hi = if a >= b && a >= c && a >= d { a } else if b >= c && b >= d { b } else if c >= d { c } else { d };
    let lo = if a <= b && a <= c && a <= d { a } else if b <= c && b <= d { b } else if c <= d { c } else { d };
    let pivot = (hi + lo) / 2;
    let m: u8 = (if a > pivot { 1u8 } else { 0u8 }) + (if b > pivot { 2u8 } else { 0u8 })
        + (if c > pivot { 4u8 } else { 0u8 }) + (if d > pivot { 8u8 } else { 0u8 });
    let bg = mean_of(q, 15 - m);
    let fg = if m == 0 { bg } else { mean_of(q, m) };
    (glyph_bytes(m), bg, fg)
}

/// Mean of the four samples, folded pairwise left to right.
#[verifier::opaque]
pub open spec fn folded_mean(q: Quadrant) -> Color {
    let avg = |x: Color, y: Color| Color {
        r: ((x.r + y.r) / 2) as u8,
        g: ((x.g + y.g) / 2) as u8,
        b: ((x.b + y.b) / 2) as u8,
    };
    avg(avg(avg(q.0, q.1), q.2), q.3)
}

} // verus!
