//! Arithmetic on single pixels: channel distance, brightness and hue.
//!
//! Brightness and hue are fractions. They are kept exact: brightness in
//! hundredths of a unit, hue as a numerator over a denominator, and every
//! threshold test is done by cross-multiplying integers.

use crate::options::Tolerance;
use crate::raster::Rgba8;
use vstd::prelude::*;

verus! {

/// The absolute value of an integer.
pub open spec fn abs(v: int) -> int {
    if v < 0 {
        -v
    } else {
        v
    }
}

/// The larger of two integers.
pub open spec fn max2(a: int, b: int) -> int {
    if a >= b {
        a
    } else {
        b
    }
}

/// The smaller of two integers.
pub open spec fn min2(a: int, b: int) -> int {
    if a <= b {
        a
    } else {
        b
    }
}

/// Brightness in hundredths: `0.30 R + 0.59 G + 0.11 B`, times one hundred.
pub open spec fn brightness(p: Rgba8) -> int {
    30 * p.r + 59 * p.g + 11 * p.b
}

/// The spread between the largest and the smallest color channel.
pub open spec fn chroma(p: Rgba8) -> int {
    max2(max2(p.r as int, p.g as int), p.b as int) - min2(min2(p.r as int, p.g as int), p.b as int)
}

/// The denominator of the hue fraction: six times the chroma, or one for a
/// gray pixel, whose hue is zero.
pub open spec fn hue_den(p: Rgba8) -> int {
    if chroma(p) == 0 {
        1
    } else {
        6 * chroma(p)
    }
}

/// The numerator of the hue fraction. Which channel is the largest selects
/// the sector: red first, then green, then blue.
pub open spec fn hue_num(p: Rgba8) -> int {
    let top = max2(max2(p.r as int, p.g as int), p.b as int);
    let d = chroma(p);
    if d == 0 {
        0
    } else if top == p.r {
        (p.g - p.b) + (if p.g < p.b {
            6 * d
        } else {
            0
        })
    } else if top == p.g {
        (p.b - p.r) + 2 * d
    } else {
        (p.r - p.g) + 4 * d
    }
}

/// Whether two fractions `n1 / d1` and `n2 / d2` lie more than three tenths
/// apart.
pub open spec fn fractions_apart(n1: int, d1: int, n2: int, d2: int) -> bool {
    10 * abs(n1 * d2 - n2 * d1) > 3 * (d1 * d2)
}

/// Whether the hues of two pixels differ by more than three tenths of the
/// hue circle.
pub open spec fn hue_differs(p: Rgba8, q: Rgba8) -> bool {
    fractions_apart(hue_num(p), hue_den(p), hue_num(q), hue_den(q))
}

/// Whether `v1` and `v2` differ by at most `tolerance`.
pub open spec fn similar(v1: int, v2: int, tolerance: int) -> bool {
    abs(v1 - v2) <= tolerance
}

/// Whether two pixels have the same red, green and blue.
pub open spec fn rgb_same(p: Rgba8, q: Rgba8) -> bool {
    p.r == q.r && p.g == q.g && p.b == q.b
}

/// Whether red, green and blue are each within their tolerance.
pub open spec fn rgb_similar(p: Rgba8, q: Rgba8, t: Tolerance) -> bool {
    &&& similar(p.r as int, q.r as int, t.red as int)
    &&& similar(p.g as int, q.g as int, t.green as int)
    &&& similar(p.b as int, q.b as int, t.blue as int)
}

/// Whether the alpha channels are within tolerance.
pub open spec fn alpha_similar(p: Rgba8, q: Rgba8, t: Tolerance) -> bool {
    similar(p.a as int, q.a as int, t.alpha as int)
}

/// Whether the brightness of two pixels differs by at most the lower
/// brightness bound.
pub open spec fn brightness_similar(p: Rgba8, q: Rgba8, t: Tolerance) -> bool {
    similar(brightness(p), brightness(q), 100 * t.min_brightness)
}

/// Whether the brightness of two pixels differs by more than the upper
/// brightness bound.
pub open spec fn high_contrast(p: Rgba8, q: Rgba8, t: Tolerance) -> bool {
    abs(brightness(p) - brightness(q)) > 100 * t.max_brightness
}

/// A hue as an exact fraction `num / den` of the hue circle.
#[derive(Clone, Copy, Debug, PartialEq, Eq, Structural)]
pub struct Hue {
    pub num: u32,
    pub den: u32,
}

/// The distance between two integers.
pub fn abs_sub(x: i32, y: i32) -> (d: u32)
    ensures
        d == abs(x - y),
{
    if x < y {
        (y as i64 - x as i64) as u32
    } else {
        (x as i64 - y as i64) as u32
    }
}

/// Whether `v1` and `v2` differ by at most `tolerance`. The bound is
/// inclusive; a negative tolerance admits nothing.
pub fn is_similar(v1: i32, v2: i32, tolerance: i32) -> (r: bool)
    ensures
        r == similar(v1 as int, v2 as int, tolerance as int),
{
    tolerance >= 0 && abs_sub(v1, v2) <= tolerance as u32
}

/// The brightness of a pixel in hundredths of a unit, between 0 and 25500.
pub fn get_brightness(rgba: &Rgba8) -> (v: u32)
    ensures
        v == brightness(*rgba),
        v <= 25500,
{
    30 * (rgba.r as u32) + 59 * (rgba.g as u32) + 11 * (rgba.b as u32)
}

/// The hue of a pixel as a fraction of the hue circle, at least zero and
/// below one. A gray pixel has hue zero.
pub fn get_hue(rgba: &Rgba8) -> (h: Hue)
    ensures
        h.num == hue_num(*rgba),
        h.den == hue_den(*rgba),
        h.num < h.den,
        h.den <= 1530,
{
    let r: u32 = rgba.r as u32;
    let g: u32 = rgba.g as u32;
    let b: u32 = rgba.b as u32;
    let rg: u32 = if r >= g {
        r
    } else {
        g
    };
    let top: u32 = if rg >= b {
        rg
    } else {
        b
    };
    let low_rg: u32 = if r <= g {
        r
    } else {
        g
    };
    let low: u32 = if low_rg <= b {
        low_rg
    } else {
        b
    };
    if top == low {
        Hue { num: 0, den: 1 }
    } else {
        let d: u32 = top - low;
        let num: u32 = if top == r {
            if g < b {
                6 * d + g - b
            } else {
                g - b
            }
        } else if top == g {
            2 * d + b - r
        } else {
            4 * d + r - g
        };
        Hue { num, den: 6 * d }
    }
}

/// Whether two hues lie more than three tenths of the circle apart.
pub fn is_hue_different(h1: Hue, h2: Hue) -> (r: bool)
    ensures
        r == fractions_apart(h1.num as int, h1.den as int, h2.num as int, h2.den as int),
{
    assert(h1.num * h2.den <= u32::MAX * u32::MAX) by (nonlinear_arith)
        requires
            0 <= h1.num <= u32::MAX,
            0 <= h2.den <= u32::MAX,
    ;
    assert(h2.num * h1.den <= u32::MAX * u32::MAX) by (nonlinear_arith)
        requires
            0 <= h2.num <= u32::MAX,
            0 <= h1.den <= u32::MAX,
    ;
    assert(h1.den * h2.den <= u32::MAX * u32::MAX) by (nonlinear_arith)
        requires
            0 <= h1.den <= u32::MAX,
            0 <= h2.den <= u32::MAX,
    ;
    let left: u128 = (h1.num as u128) * (h2.den as u128);
    let right: u128 = (h2.num as u128) * (h1.den as u128);
    let gap: u128 = if left < right {
        right - left
    } else {
        left - right
    };
    let scale: u128 = (h1.den as u128) * (h2.den as u128);
    10 * gap > 3 * scale
}

/// Whether two pixels have the same red, green and blue.
pub fn is_rgb_same(p1: &Rgba8, p2: &Rgba8) -> (r: bool)
    ensures
        r == rgb_same(*p1, *p2),
{
    p1.r == p2.r && p1.g == p2.g && p1.b == p2.b
}

/// Whether red, green and blue are each within their tolerance.
pub fn is_rgb_similar(p1: &Rgba8, p2: &Rgba8, t: &Tolerance) -> (r: bool)
    ensures
        r == rgb_similar(*p1, *p2, *t),
{
    is_similar(p1.r as i32, p2.r as i32, t.red as i32) && is_similar(
        p1.g as i32,
        p2.g as i32,
        t.green as i32,
    ) && is_similar(p1.b as i32, p2.b as i32, t.blue as i32)
}

/// Whether the alpha channels are within tolerance.
pub fn is_alpha_similar(p1: &Rgba8, p2: &Rgba8, t: &Tolerance) -> (r: bool)
    ensures
        r == alpha_similar(*p1, *p2, *t),
{
    is_similar(p1.a as i32, p2.a as i32, t.alpha as i32)
}

/// Whether the brightness of two pixels differs by at most the lower
/// brightness bound.
pub fn is_pixel_brightness_similar(p1: &Rgba8, p2: &Rgba8, tolerance: &Tolerance) -> (r: bool)
    ensures
        r == brightness_similar(*p1, *p2, *tolerance),
{
    let brightness1: u32 = get_brightness(p1);
    let brightness2: u32 = get_brightness(p2);
    is_similar(brightness1 as i32, brightness2 as i32, 100 * (tolerance.min_brightness as i32))
}

/// Whether the brightness of two pixels differs by more than the upper
/// brightness bound.
pub fn is_high_contrast(p1: &Rgba8, p2: &Rgba8, tolerance: &Tolerance) -> (r: bool)
    ensures
        r == high_contrast(*p1, *p2, *tolerance),
{
    let brightness1: u32 = get_brightness(p1);
    let brightness2: u32 = get_brightness(p2);
    abs_sub(brightness1 as i32, brightness2 as i32) > 100 * (tolerance.max_brightness as u32)
}

} // verus!
