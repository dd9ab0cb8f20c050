//! Color utility functions for background animations.
//!
//! Hue is given in whole degrees; saturation, lightness and other fractions
//! in thousandths.

use vstd::prelude::*;

verus! {

/// An RGB triple, one byte per channel.
#[derive(Clone, Copy, PartialEq, Eq, Structural, Debug)]
pub struct Rgb {
    pub r: u8,
    pub g: u8,
    pub b: u8,
}

/// The RGB triple with the given channel values, which must lie in
/// `0..=255`.
pub open spec fn spec_rgb(r: int, g: int, b: int) -> Rgb {
    Rgb { r: r as u8, g: g as u8, b: b as u8 }
}

/// One linear segment of the hue-to-channel ramp: `t` is a hue fraction in
/// thousandths, already folded into `[0, 1000)`; `p` and `q` are channel
/// bounds in thousandths with `p <= q`.
pub open spec fn spec_hue_ramp(p: int, q: int, t: int) -> int {
    if t < 167 {
        p + (q - p) * (6 * t) / 1000
    } else if t < 500 {
        q
    } else if t < 667 {
        if 6 * t >= 4000 {
            p
        } else {
            p + (q - p) * (4000 - 6 * t) / 1000
        }
    } else {
        p
    }
}

proof fn lemma_mul_div_portion(d: int, m: int)
    requires
        0 <= d <= 1000,
        0 <= m <= 1000,
    ensures
        0 <= d * m / 1000 <= d,
{
    vstd::arithmetic::div_mod::lemma_div_pos_is_pos(d * m, 1000);
    assert(d * m <= d * 1000) by (nonlinear_arith)
        requires 0 <= d, m <= 1000;
    vstd::arithmetic::div_mod::lemma_div_is_ordered(d * m, d * 1000, 1000);
    vstd::arithmetic::div_mod::lemma_div_by_multiple(d, 1000);
}

pub proof fn lemma_hue_ramp_bounds(p: int, q: int, t: int)
    requires
        0 <= p <= q <= 1000,
        0 <= t,
    ensures
        0 <= spec_hue_ramp(p, q, t) <= 1000,
{
    if t < 167 {
        lemma_mul_div_portion(q - p, 6 * t);
    } else if t < 500 {
    } else if t < 667 {
        if 6 * t < 4000 {
            lemma_mul_div_portion(q - p, 4000 - 6 * t);
        }
    } else {
    }
}

/// The hue ramp of chromatic HSL conversion, on hue fractions that may be
/// shifted one third of a turn either way.
fn hue_ramp(p: u64, q: u64, t0: i64) -> (r: u64)
    requires
        p <= q <= 1000,
        -1000 <= t0 <= 2000,
    ensures
        r == spec_hue_ramp(
            p as int,
            q as int,
            if t0 < 0 { t0 + 1000 } else if t0 > 1000 { t0 - 1000 } else { t0 as int },
        ),
        r <= 1000,
{
    let t: u64 = if t0 < 0 {
        (t0 + 1000) as u64
    } else if t0 > 1000 {
        (t0 - 1000) as u64
    } else {
        t0 as u64
    };
    proof {
        lemma_hue_ramp_bounds(p as int, q as int, t as int);
    }
    if t < 167 {
        proof {
            lemma_mul_div_portion((q - p) as int, 6 * t as int);
            assert((q - p) * (6 * t) <= 1000 * 1000) by (nonlinear_arith)
                requires p <= q, q - p <= 1000, t < 167;
        }
        p + (q - p) * (6 * t) / 1000
    } else if t < 500 {
        q
    } else if t < 667 {
        if 6 * t >= 4000 {
            p
        } else {
            proof {
                lemma_mul_div_portion((q - p) as int, (4000 - 6 * t) as int);
                assert((q - p) * (4000 - 6 * t) <= 1000 * 1000) by (nonlinear_arith)
                    requires p <= q, q - p <= 1000, 500 <= t, 6 * t < 4000;
            }
            p + (q - p) * (4000 - 6 * t) / 1000
        }
    } else {
        p
    }
}

/// The `q` bound of chromatic HSL conversion.
pub open spec fn spec_hsl_q(s: int, l: int) -> int {
    if l < 500 {
        l * (1000 + s) / 1000
    } else {
        l + s - l * s / 1000
    }
}

/// The `p` bound of chromatic HSL conversion.
pub open spec fn spec_hsl_p(s: int, l: int) -> int {
    2 * l - spec_hsl_q(s, l)
}

pub proof fn lemma_hsl_pq_bounds(s: int, l: int)
    requires
        0 <= s <= 1000,
        0 <= l <= 1000,
    ensures
        0 <= spec_hsl_p(s, l) <= spec_hsl_q(s, l) <= 1000,
{
    if l < 500 {
        assert(l * (1000 + s) <= 1000 * 1000) by (nonlinear_arith)
            requires 0 <= l < 500, 0 <= s <= 1000;
        vstd::arithmetic::div_mod::lemma_div_is_ordered(l * (1000 + s), 1000int * 1000, 1000);
        vstd::arithmetic::div_mod::lemma_div_by_multiple(1000, 1000);
        assert(l * (1000 + s) >= l * 1000) by (nonlinear_arith)
            requires l >= 0, s >= 0;
        vstd::arithmetic::div_mod::lemma_div_is_ordered(l * 1000, l * (1000 + s), 1000);
        vstd::arithmetic::div_mod::lemma_div_by_multiple(l, 1000);
        assert(l * (1000 + s) <= l * 2000) by (nonlinear_arith)
            requires l >= 0, s <= 1000;
        vstd::arithmetic::div_mod::lemma_div_is_ordered(l * (1000 + s), l * 2000, 1000);
        assert(l * 2000 == (2 * l) * 1000) by (nonlinear_arith);
        vstd::arithmetic::div_mod::lemma_div_by_multiple(2 * l, 1000);
    } else {
        lemma_mul_div_portion(l, s);
        if l + s >= 1000 {
            assert(l * s >= 1000 * (l + s - 1000)) by (nonlinear_arith)
                requires l <= 1000, s <= 1000;
            vstd::arithmetic::div_mod::lemma_div_is_ordered(1000 * (l + s - 1000), l * s, 1000);
            vstd::arithmetic::div_mod::lemma_div_by_multiple(l + s - 1000, 1000);
        }
        assert(l * s == s * l) by (nonlinear_arith);
        lemma_mul_div_portion(s, l);
        if s > l {
            assert(l * s >= 1000 * (s - l)) by (nonlinear_arith)
                requires 500 <= l <= 1000, s <= 1000, s > l;
            vstd::arithmetic::div_mod::lemma_div_is_ordered(1000 * (s - l), l * s, 1000);
            vstd::arithmetic::div_mod::lemma_div_by_multiple(s - l, 1000);
        }
    }
}

/// The red/green/blue channel fractions of HSL conversion, for a hue given
/// in whole degrees (folded modulo 360), saturation and lightness in
/// thousandths, `s > 0`.
pub open spec fn spec_hsl_channel(h: int, s: int, l: int, shift: int) -> int {
    let q = spec_hsl_q(s, l);
    let p = spec_hsl_p(s, l);
    let hm = h % 360 * 1000 / 360;
    let t0 = hm + shift;
    spec_hue_ramp(p, q, if t0 < 0 { t0 + 1000 } else if t0 > 1000 { t0 - 1000 } else { t0 })
}

/// The full HSL conversion: channel values in `0..=255`.
pub open spec fn spec_hsl_to_rgb(h: int, s: int, l: int) -> (int, int, int) {
    if s == 0 {
        let v = l * 255 / 1000;
        (v, v, v)
    } else {
        (
            spec_hsl_channel(h, s, l, 333) * 255 / 1000,
            spec_hsl_channel(h, s, l, 0) * 255 / 1000,
            spec_hsl_channel(h, s, l, -333) * 255 / 1000,
        )
    }
}

/// Convert HSL to RGB color.  `h` is in whole degrees and is wrapped;
/// `s` and `l` are in thousandths.  A zero saturation gives the gray
/// computed from lightness alone.
pub fn hsl_to_rgb(h: u64, s: u64, l: u64) -> (c: Rgb)
    requires
        s <= 1000,
        l <= 1000,
    ensures
        (c.r as int, c.g as int, c.b as int) == spec_hsl_to_rgb(h as int, s as int, l as int),
{
    if s == 0 {
        proof {
            lemma_mul_div_portion(255, l as int);
            assert(l * 255 == 255 * l) by (nonlinear_arith);
        }
        let v = (l * 255 / 1000) as u8;
        return Rgb { r: v, g: v, b: v };
    }
    proof {
        lemma_hsl_pq_bounds(s as int, l as int);
    }
    let q: u64 = if l < 500 {
        l * (1000 + s) / 1000
    } else {
        proof {
            lemma_mul_div_portion(l as int, s as int);
        }
        l + s - l * s / 1000
    };
    let p: u64 = 2 * l - q;
    let hm: i64 = ((h % 360) * 1000 / 360) as i64;
    let cr = hue_ramp(p, q, hm + 333);
    let cg = hue_ramp(p, q, hm);
    let cb = hue_ramp(p, q, hm - 333);
    proof {
        lemma_mul_div_portion(255, cr as int);
        lemma_mul_div_portion(255, cg as int);
        lemma_mul_div_portion(255, cb as int);
        assert(cr * 255 == 255 * cr) by (nonlinear_arith);
        assert(cg * 255 == 255 * cg) by (nonlinear_arith);
        assert(cb * 255 == 255 * cb) by (nonlinear_arith);
    }
    Rgb { r: (cr * 255 / 1000) as u8, g: (cg * 255 / 1000) as u8, b: (cb * 255 / 1000) as u8 }
}

/// For every hue and every saturation and lightness in the unit range,
/// the HSL conversion yields channel values inside `0..=255`, and zero
/// saturation yields the pure gray of the lightness alone.
pub proof fn lemma_hsl_to_rgb_in_range(h: int, s: int, l: int)
    requires
        0 <= s <= 1000,
        0 <= l <= 1000,
    ensures
        ({
            let (r, g, b) = spec_hsl_to_rgb(h, s, l);
            &&& 0 <= r <= 255
            &&& 0 <= g <= 255
            &&& 0 <= b <= 255
            &&& s == 0 ==> r == g && g == b && b == l * 255 / 1000
        }),
{
    if s == 0 {
        lemma_mul_div_portion(255, l);
        assert(l * 255 == 255 * l) by (nonlinear_arith);
    } else {
        lemma_hsl_pq_bounds(s, l);
        let q = spec_hsl_q(s, l);
        let p = spec_hsl_p(s, l);
        let hm = h % 360 * 1000 / 360;
        vstd::arithmetic::div_mod::lemma_mod_bound(h, 360);
        vstd::arithmetic::div_mod::lemma_div_pos_is_pos(h % 360 * 1000, 360);
        assert(h % 360 * 1000 < 360 * 1000) by (nonlinear_arith)
            requires h % 360 < 360;
        vstd::arithmetic::div_mod::lemma_multiply_divide_lt(h % 360 * 1000, 360, 1000);
        assert(0 <= hm < 1000);
        lemma_channel_in_range(p, q, hm, 333);
        lemma_channel_in_range(p, q, hm, 0);
        lemma_channel_in_range(p, q, hm, -333);
        assert(spec_hsl_channel(h, s, l, 333) == spec_chan(p, q, hm, 333));
        assert(spec_hsl_channel(h, s, l, 0) == spec_chan(p, q, hm, 0));
        assert(spec_hsl_channel(h, s, l, -333) == spec_chan(p, q, hm, -333));
    }
}

/// The folded hue ramp of one channel, over precomputed bounds.
pub open spec fn spec_chan(p: int, q: int, hm: int, shift: int) -> int {
    let t0 = hm + shift;
    spec_hue_ramp(p, q, if t0 < 0 { t0 + 1000 } else if t0 > 1000 { t0 - 1000 } else { t0 })
}

proof fn lemma_channel_in_range(p: int, q: int, hm: int, shift: int)
    requires
        0 <= p <= q <= 1000,
        0 <= hm < 1000,
        -333 <= shift <= 333,
    ensures
        0 <= spec_chan(p, q, hm, shift) * 255 / 1000 <= 255,
{
    let t0 = hm + shift;
    let t = if t0 < 0 { t0 + 1000 } else if t0 > 1000 { t0 - 1000 } else { t0 };
    lemma_hue_ramp_bounds(p, q, t);
    lemma_mul_div_portion(255, spec_hue_ramp(p, q, t));
    assert(spec_hue_ramp(p, q, t) * 255 == 255 * spec_hue_ramp(p, q, t)) by (nonlinear_arith);
}

/// The hue, in degrees, that a resource reading maps to: 240 (blue) for an
/// idle resource, falling linearly to 0 (red) at full use.
pub open spec fn spec_resource_hue(value: int) -> int {
    let v = if value > 1000 { 1000 } else { value };
    240 - v * 240 / 1000
}

/// The saturation a resource reading maps to, in thousandths.
pub open spec fn spec_resource_saturation(value: int) -> int {
    let v = if value > 1000 { 1000 } else { value };
    600 + v * 400 / 1000
}

/// The lightness a resource reading maps to, in thousandths.
pub open spec fn spec_resource_lightness(value: int) -> int {
    let v = if value > 1000 { 1000 } else { value };
    150 + v * 250 / 1000
}

pub open spec fn spec_resource_to_color(value: int) -> (int, int, int) {
    spec_hsl_to_rgb(
        spec_resource_hue(value),
        spec_resource_saturation(value),
        spec_resource_lightness(value),
    )
}

/// Map a resource reading in thousandths (clamped to `[0, 1000]`) to a
/// color from cool blue to warm red.
pub fn resource_to_color(value: u64) -> (c: Rgb)
    ensures
        (c.r as int, c.g as int, c.b as int) == spec_resource_to_color(value as int),
{
    let v: u64 = if value > 1000 { 1000 } else { value };
    proof {
        lemma_mul_div_portion(240, v as int);
        lemma_mul_div_portion(400, v as int);
        lemma_mul_div_portion(250, v as int);
        assert(v * 240 == 240 * v) by (nonlinear_arith);
        assert(v * 400 == 400 * v) by (nonlinear_arith);
        assert(v * 250 == 250 * v) by (nonlinear_arith);
    }
    let hue = 240 - v * 240 / 1000;
    let saturation = 600 + v * 400 / 1000;
    let lightness = 150 + v * 250 / 1000;
    hsl_to_rgb(hue, saturation, lightness)
}

/// The resource-to-color hue never rises as the reading rises, and each
/// step of one tenth of the range lowers it by exactly 24 degrees.
pub proof fn lemma_resource_hue_monotone(v1: int, v2: int)
    requires
        0 <= v1 <= v2,
    ensures
        spec_resource_hue(v2) <= spec_resource_hue(v1),
        v2 <= 1000 && v1 % 100 == 0 && v2 == v1 + 100 ==> spec_resource_hue(v2)
            == spec_resource_hue(v1) - 24,
{
    let c1 = if v1 > 1000 { 1000int } else { v1 };
    let c2 = if v2 > 1000 { 1000int } else { v2 };
    assert(c1 * 240 <= c2 * 240) by (nonlinear_arith)
        requires c1 <= c2;
    vstd::arithmetic::div_mod::lemma_div_is_ordered(c1 * 240, c2 * 240, 1000);
    if v2 <= 1000 && v1 % 100 == 0 && v2 == v1 + 100 {
        let k = v1 / 100;
        assert(v1 == 100 * k);
        assert(v1 * 240 == k * 24 * 1000) by (nonlinear_arith)
            requires v1 == 100 * k;
        assert(v2 * 240 == (k * 24 + 24) * 1000) by (nonlinear_arith)
            requires v2 == 100 * k + 100;
        vstd::arithmetic::div_mod::lemma_div_by_multiple(k * 24, 1000);
        vstd::arithmetic::div_mod::lemma_div_by_multiple(k * 24 + 24, 1000);
    }
}

} // verus!
