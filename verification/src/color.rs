//! Hue/saturation/value/alpha to red/green/blue/alpha conversion.
//!
//! All channels are fixed-point thousandths: `1000` stands for `1.0`.
//! Hue is measured in thousandths of a degree, so a full turn is `360_000`.

use vstd::prelude::*;

verus! {

/// Fixed-point `1.0`: every colour channel, saturation and value is a count
/// of thousandths of a unit.
pub const UNIT: u32 = 1000;

/// A full hue turn, in thousandths of a degree.
pub const FULL_TURN: u32 = 360000;

/// A red/green/blue/alpha colour, each channel in thousandths
/// (`0` = `0.0`, `1000` = `1.0`).
#[derive(Clone, Copy, Debug, PartialEq, Eq, Structural)]
pub struct Color {
    pub r: u32,
    pub g: u32,
    pub b: u32,
    pub a: u32,
}

pub open spec fn abs_val(x: int) -> int {
    if x < 0 { -x } else { x }
}

/// Chroma of a colour with saturation `s` and value `v` (thousandths).
pub open spec fn chroma(s: int, v: int) -> int {
    v * s / 1000
}

/// The secondary component: `c * (1 - |((h/60) mod 2) - 1|)`, carried out in
/// thousandths (`h` is in thousandths of a degree, so `h / 60` is the scaled
/// sector coordinate and the modulus is taken at `2000`).
pub open spec fn x_term(h: int, c: int) -> int {
    c * (1000 - abs_val((h / 60) % 2000 - 1000)) / 1000
}

/// Which of `(c, x, 0)` lands on red, green and blue: six half-open
/// 60-degree sectors; anything outside the first five falls through to the
/// last formula, as out-of-range hues do.
pub open spec fn sector_base(h: int, c: int, x: int) -> (int, int, int) {
    if 0 <= h < 60000 {
        (c, x, 0)
    } else if 60000 <= h < 120000 {
        (x, c, 0)
    } else if 120000 <= h < 180000 {
        (0, c, x)
    } else if 180000 <= h < 240000 {
        (0, x, c)
    } else if 240000 <= h < 300000 {
        (x, 0, c)
    } else {
        (c, 0, x)
    }
}

/// The red, green and blue channels of a hue/saturation/value colour:
/// the sector base channels plus `m = v - c`.
pub open spec fn rgb_channels(h: int, s: int, v: int) -> (int, int, int) {
    let c = chroma(s, v);
    let x = x_term(h, c);
    let m = v - c;
    let base = sector_base(h, c, x);
    (base.0 + m, base.1 + m, base.2 + m)
}

/// Converts a hue/saturation/value/alpha colour to red/green/blue/alpha.
///
/// `h` is in thousandths of a degree; hues at or above a full turn fall
/// through to the last sector's formula rather than being rejected. `s` and
/// `v` are in thousandths of a unit. The alpha channel passes through
/// unchanged.
pub fn hsva_to_rgb(h: u32, s: u32, v: u32, a: u32) -> (out: Color)
    requires
        s <= UNIT,
        v <= UNIT,
    ensures
        ({
            let ch = rgb_channels(h as int, s as int, v as int);
            out.r == ch.0 && out.g == ch.1 && out.b == ch.2 && out.a == a
        }),
{
    proof {
        lemma_chroma_bounds(s as int, v as int);
    }
    let c: u32 = v * s / 1000;
    let hm: u32 = (h / 60) % 2000;
    let dist: u32 = if hm >= 1000 {
        hm - 1000
    } else {
        1000 - hm
    };
    proof {
        assert(c * (1000 - dist) <= 1000 * 1000) by (nonlinear_arith)
            requires
                c <= 1000,
                0 <= dist <= 1000,
        ;
        assert(c * (1000 - dist) / 1000 <= 1000);
        assert(dist == abs_val((h as int / 60) % 2000 - 1000));
    }
    let xv: u32 = c * (1000 - dist) / 1000;
    let m: u32 = v - c;
    let (rp, gp, bp): (u32, u32, u32) = if h < 60000 {
        (c, xv, 0)
    } else if h < 120000 {
        (xv, c, 0)
    } else if h < 180000 {
        (0, c, xv)
    } else if h < 240000 {
        (0, xv, c)
    } else if h < 300000 {
        (xv, 0, c)
    } else {
        (c, 0, xv)
    };
    Color { r: rp + m, g: gp + m, b: bp + m, a }
}

/// Chroma never exceeds the value channel, nor `1000`, for in-range
/// saturation and value; this is what lets `m = v - c` stay a natural number.
pub proof fn lemma_chroma_bounds(s: int, v: int)
    requires
        0 <= s <= UNIT,
        0 <= v <= UNIT,
    ensures
        0 <= chroma(s, v) <= v,
{
    assert(0 <= v * s <= v * 1000) by (nonlinear_arith)
        requires
            0 <= s <= 1000,
            0 <= v,
    ;
    assert(v * s / 1000 <= v * 1000 / 1000);
    assert(v * 1000 / 1000 == v);
}

/// For every in-range hue, saturation and value, the sector channels (before
/// `m` is added) are non-negative; and a saturation of zero is achromatic:
/// all three final channels are equal.
pub proof fn lemma_rgb_channels_shape(h: int, s: int, v: int)
    requires
        0 <= h < FULL_TURN,
        0 <= s <= UNIT,
        0 <= v <= UNIT,
    ensures
        ({
            let c = chroma(s, v);
            let x = x_term(h, c);
            let base = sector_base(h, c, x);
            base.0 >= 0 && base.1 >= 0 && base.2 >= 0
        }),
        s == 0 ==> rgb_channels(h, s, v).0 == rgb_channels(h, s, v).1
            == rgb_channels(h, s, v).2,
{
    let c = chroma(s, v);
    lemma_chroma_bounds(s, v);
    let hm = (h / 60) % 2000;
    assert(h / 60 >= 0);
    assert(0 <= hm < 2000);
    let dist = abs_val(hm - 1000);
    assert(0 <= dist <= 1000);
    assert(c * (1000 - dist) >= 0) by (nonlinear_arith)
        requires
            c >= 0,
            0 <= dist <= 1000,
    ;
    assert(x_term(h, c) >= 0);
    if s == 0 {
        assert(v * 0 == 0) by (nonlinear_arith);
        assert(c == 0);
        assert(0 * (1000 - dist) == 0) by (nonlinear_arith);
        assert(x_term(h, c) == 0);
    }
}

} // verus!
