//! Stateless background effects, computed from position and time only.
//! Each renderer is a pure function of its arguments: the contract pins
//! the exact cell returned, so repeated calls with the same inputs give
//! the same glyph and color.

use vstd::prelude::*;
use crate::chars::{spec_frost_char, spec_star_char, frost_char, star_char};
use crate::color::{spec_hsl_to_rgb, spec_rgb, Rgb, hsl_to_rgb};
use crate::fixed::{
    is_isqrt, spec_norm_milli, spec_phase_milli, spec_sin_milli, spec_sqrt_milli, wrap64,
    lemma_scale_le, norm_milli, phase_milli, sin_milli, sqrt_milli, wrap_add64,
};
use crate::model::{AnimationSpeed, Cell};

verus! {

/// The cell a starfield shows at `(x, y)`: a pseudo-random 3% of positions
/// carry a star whose glyph and brightness tier follow the position/frame
/// hash `x*31 + y*17 + frame`.
pub open spec fn spec_render_starfield_char(
    x: int,
    y: int,
    elapsed_ms: int,
    speed: AnimationSpeed,
) -> Cell {
    let period = speed.spec_star_twinkle_period_ms();
    let frame_num = elapsed_ms / period;
    let seed = wrap64(x * 31 + y * 17 + frame_num);
    if seed % 100 < 3 {
        let color = if seed % 3 == 0 {
            spec_rgb(60, 60, 80)
        } else if seed % 3 == 1 {
            spec_rgb(100, 100, 140)
        } else {
            spec_rgb(150, 150, 200)
        };
        Cell::Glyph(spec_star_char(seed), color)
    } else {
        Cell::Blank
    }
}

/// Render a starfield character using pseudo-random twinkling.
pub fn render_starfield_char(x: u16, y: u16, elapsed_ms: u64, speed: AnimationSpeed) -> (c: Cell)
    ensures
        c == spec_render_starfield_char(x as int, y as int, elapsed_ms as int, speed),
{
    let period = speed.star_twinkle_period_ms();
    let frame_num = elapsed_ms / period;
    let seed = wrap_add64((x as u64) * 31 + (y as u64) * 17, frame_num);
    if seed % 100 < 3 {
        let ch = star_char(seed);
        let brightness = seed % 3;
        let color = if brightness == 0 {
            Rgb { r: 60, g: 60, b: 80 }
        } else if brightness == 1 {
            Rgb { r: 100, g: 100, b: 140 }
        } else {
            Rgb { r: 150, g: 150, b: 200 }
        };
        Cell::Glyph(ch, color)
    } else {
        Cell::Blank
    }
}

/// The cell of the gradient wave: a diagonal sine over normalized position
/// plus a time phase picks one of three density glyphs, colored by a hue
/// that cycles with time and x-position.
pub open spec fn spec_render_gradient_char(
    x: int,
    y: int,
    width: int,
    height: int,
    elapsed_ms: int,
    speed: AnimationSpeed,
) -> Cell {
    let period = speed.spec_gradient_scroll_period_ms();
    let time_phase = spec_phase_milli(elapsed_ms, period);
    let x_norm = spec_norm_milli(x, width);
    let y_norm = spec_norm_milli(y, height);
    let wave = spec_sin_milli((x_norm + y_norm / 2 + time_phase) % 1000);
    let intensity = (wave + 1000) / 2;
    if intensity < 250 {
        Cell::Blank
    } else {
        let ch = if intensity < 500 { '░' } else if intensity < 750 { '▒' } else { '▓' };
        let hue_offset = time_phase * 360 / 1000;
        let base_hue = (x_norm * 60 / 1000 + hue_offset) % 360;
        let (r, g, b) = spec_hsl_to_rgb(base_hue, 700, 150 + intensity * 200 / 1000);
        Cell::Glyph(ch, spec_rgb(r, g, b))
    }
}

/// Render a gradient wave character.
pub fn render_gradient_char(
    x: u16,
    y: u16,
    width: u16,
    height: u16,
    elapsed_ms: u64,
    speed: AnimationSpeed,
) -> (c: Cell)
    ensures
        c == spec_render_gradient_char(
            x as int,
            y as int,
            width as int,
            height as int,
            elapsed_ms as int,
            speed,
        ),
{
    let period = speed.gradient_scroll_period_ms();
    let time_phase = phase_milli(elapsed_ms, period);
    let x_norm = norm_milli(x, width);
    let y_norm = norm_milli(y, height);
    let wave = sin_milli(x_norm + y_norm / 2 + time_phase);
    let intensity = ((wave + 1000) as u64) / 2;
    if intensity < 250 {
        Cell::Blank
    } else {
        let ch = if intensity < 500 { '░' } else if intensity < 750 { '▒' } else { '▓' };
        let hue_offset = time_phase * 360 / 1000;
        proof {
            lemma_scale_le(x_norm as int, 60, 1000);
            assert(x_norm * 60 == 60 * (x_norm as int)) by (nonlinear_arith);
            lemma_scale_le(intensity as int, 200, 1000);
            assert(intensity * 200 == 200 * (intensity as int)) by (nonlinear_arith);
        }
        let base_hue = (x_norm * 60 / 1000 + hue_offset) % 360;
        let color = hsl_to_rgb(base_hue, 700, 150 + intensity * 200 / 1000);
        Cell::Glyph(ch, color)
    }
}

/// The sine-modulated growth factor of the frost front, in `[700, 1000]`.
pub open spec fn spec_frost_growth(elapsed_ms: int, speed: AnimationSpeed) -> int {
    let period = speed.spec_frost_growth_period_ms();
    let p = spec_phase_milli(elapsed_ms, period);
    spec_sin_milli(p / 2) * 300 / 1000 + 700
}

/// The cell the frost effect shows: crystals grow inward from every edge
/// up to a time-modulated depth, thinning toward the screen center, with
/// a per-cell shimmer.  Cells outside the grid are blank.
pub open spec fn spec_render_frost_char(
    x: int,
    y: int,
    width: int,
    height: int,
    elapsed_ms: int,
    speed: AnimationSpeed,
) -> Cell {
    if width == 0 || height == 0 || x >= width || y >= height {
        Cell::Blank
    } else {
        let edx = (if x <= width - 1 - x { x } else { width - 1 - x }) * 1000;
        let edy = (if y <= height - 1 - y { y } else { height - 1 - y }) * 2000;
        let ed = if edx <= edy { edx } else { edy };
        let growth = spec_frost_growth(elapsed_ms, speed);
        let short = if width <= height { width } else { height };
        let max_depth = short * 1000 / 3 * growth / 1000;
        if ed > max_depth {
            Cell::Blank
        } else {
            let seed = x * 31 + y * 17;
            let density_threshold = ed * 85 / max_depth;
            let gate = if 100 - density_threshold >= 15 { 100 - density_threshold } else { 15 };
            if seed % 100 > gate {
                Cell::Blank
            } else {
                let depth_ratio = ed * 1000 / max_depth;
                let base: (int, int, int) = if depth_ratio < 300 {
                    (200, 230, 255)
                } else if depth_ratio < 600 {
                    (135, 206, 235)
                } else {
                    (70, 130, 180)
                };
                let shimmer = (spec_sin_milli((elapsed_ms / 3 + seed * 16) % 1000) + 1000) * 150
                    / 1000 + 700;
                Cell::Glyph(
                    spec_frost_char(seed),
                    spec_rgb(
                        base.0 * shimmer / 1000,
                        base.1 * shimmer / 1000,
                        base.2 * shimmer / 1000,
                    ),
                )
            }
        }
    }
}

/// The growth factor of the frost front at a moment in time.
fn frost_growth(elapsed_ms: u64, speed: AnimationSpeed) -> (r: u64)
    ensures
        r == spec_frost_growth(elapsed_ms as int, speed),
        700 <= r <= 1000,
{
    let period = speed.frost_growth_period_ms();
    let p = phase_milli(elapsed_ms, period);
    let s = sin_milli(p / 2);
    proof {
        assert((p / 2) % 1000 == p / 2);
        crate::fixed::lemma_half_sin_bounds((p / 2) as int);
        lemma_scale_le(300, s as int, 1000);
        assert((s as int) * 300 == 300 * (s as int)) by (nonlinear_arith);
    }
    (s as u64) * 300 / 1000 + 700
}

/// Render a frost crystal character.
#[verifier::rlimit(50)]
pub fn render_frost_char(
    x: u16,
    y: u16,
    width: u16,
    height: u16,
    elapsed_ms: u64,
    speed: AnimationSpeed,
) -> (c: Cell)
    ensures
        c == spec_render_frost_char(
            x as int,
            y as int,
            width as int,
            height as int,
            elapsed_ms as int,
            speed,
        ),
{
    if width == 0 || height == 0 || x >= width || y >= height {
        return Cell::Blank;
    }
    let xe = x as u64;
    let ye = y as u64;
    let we = width as u64;
    let he = height as u64;
    let edx = (if xe <= we - 1 - xe { xe } else { we - 1 - xe }) * 1000;
    let edy = (if ye <= he - 1 - ye { ye } else { he - 1 - ye }) * 2000;
    let ed = if edx <= edy { edx } else { edy };

    let growth = frost_growth(elapsed_ms, speed);

    let short = if we <= he { we } else { he };
    let base_depth = short * 1000 / 3;
    proof {
        vstd::arithmetic::div_mod::lemma_div_is_ordered(1000, (short * 1000) as int, 3);
        assert(1000int / 3 == 333);
        vstd::arithmetic::div_mod::lemma_div_nonincreasing((short * 1000) as int, 3);
    }
    proof {
        assert(base_depth * growth <= 65_535_000u64 * 1000) by (nonlinear_arith)
            requires base_depth <= 65_535_000u64, growth <= 1000;
    }
    let max_depth = base_depth * growth / 1000;
    proof {
        lemma_scale_le(base_depth as int, growth as int, 1000);
        assert(base_depth * growth >= 333 * 700) by (nonlinear_arith)
            requires base_depth >= 333, growth >= 700;
        vstd::arithmetic::div_mod::lemma_div_is_ordered(
            333int * 700,
            (base_depth * growth) as int,
            1000,
        );
        assert(233100int / 1000 == 233);
    }
    if ed > max_depth {
        return Cell::Blank;
    }

    let seed = xe * 31 + ye * 17;
    proof {
        assert(ed * 85 <= max_depth * 85) by (nonlinear_arith)
            requires ed <= max_depth;
        vstd::arithmetic::div_mod::lemma_div_is_ordered(
            (ed * 85) as int,
            (max_depth * 85) as int,
            max_depth as int,
        );
        assert((max_depth as int) * 85 == 85 * (max_depth as int));
        vstd::arithmetic::div_mod::lemma_div_by_multiple(85, max_depth as int);
    }
    let density_threshold = ed * 85 / max_depth;
    let gate = if 100 - density_threshold >= 15 { 100 - density_threshold } else { 15 };
    if seed % 100 > gate {
        return Cell::Blank;
    }

    proof {
        assert(ed * 1000 <= max_depth * 1000) by (nonlinear_arith)
            requires ed <= max_depth;
        vstd::arithmetic::div_mod::lemma_div_is_ordered(
            (ed * 1000) as int,
            (max_depth * 1000) as int,
            max_depth as int,
        );
        assert((max_depth as int) * 1000 == 1000 * (max_depth as int));
        vstd::arithmetic::div_mod::lemma_div_by_multiple(1000, max_depth as int);
    }
    let depth_ratio = ed * 1000 / max_depth;
    let base: (u64, u64, u64) = if depth_ratio < 300 {
        (200, 230, 255)
    } else if depth_ratio < 600 {
        (135, 206, 235)
    } else {
        (70, 130, 180)
    };
    let sh = sin_milli(elapsed_ms / 3 + seed * 16);
    let shimmer = ((sh + 1000) as u64) * 150 / 1000 + 700;
    proof {
        lemma_scale_le((sh + 1000) as int, 150, 1000);
        assert((sh + 1000) * 150 == ((sh + 1000) as int) * 150);
        lemma_scale_le(base.0 as int, shimmer as int, 1000);
        lemma_scale_le(base.1 as int, shimmer as int, 1000);
        lemma_scale_le(base.2 as int, shimmer as int, 1000);
    }
    Cell::Glyph(
        frost_char(seed),
        Rgb {
            r: (base.0 * shimmer / 1000) as u8,
            g: (base.1 * shimmer / 1000) as u8,
            b: (base.2 * shimmer / 1000) as u8,
        },
    )
}

/// The combined aurora curtain intensity at a cell, in milli-units:
/// three overlapping waves weighted one half, three tenths and one fifth,
/// damped toward the bottom of the screen.
pub open spec fn spec_aurora_intensity(
    x_norm: int,
    y_norm: int,
    time_phase: int,
) -> int {
    let wave1 = (spec_sin_milli((x_norm / 2 + time_phase) % 1000) + 1000) / 2;
    let wave2 = (spec_sin_milli((x_norm * 4 / 5 + 159 + (1000 - time_phase * 3 / 4)) % 1000)
        + 1000) / 2;
    let wave3 = (spec_sin_milli((x_norm / 3 + time_phase / 2 + 318) % 1000) + 1000) / 2;
    let combined = (wave1 * 500 + wave2 * 300 + wave3 * 200) / 1000;
    let ycl = if y_norm > 1000 { 1000 } else { y_norm };
    let vertical = 1000 - spec_sqrt_milli(ycl);
    combined * vertical / 1000
}

/// The vertical damping factor of the aurora at a row, in milli-units.
pub open spec fn spec_aurora_vertical(y_norm: int) -> int {
    let ycl = if y_norm > 1000 { 1000 } else { y_norm };
    1000 - spec_sqrt_milli(ycl)
}

/// The cell the aurora shows: curtain intensity picks one of three density
/// glyphs, and a slow phase of time and x-position cycles the color
/// through green, blue and purple bands, dimmed toward the bottom.
pub open spec fn spec_render_aurora_char(
    x: int,
    y: int,
    width: int,
    height: int,
    elapsed_ms: int,
    speed: AnimationSpeed,
) -> Cell {
    let x_norm = spec_norm_milli(x, width);
    let y_norm = spec_norm_milli(y, height);
    let period = speed.spec_aurora_wave_period_ms();
    let time_phase = spec_phase_milli(elapsed_ms, period);
    let intensity = spec_aurora_intensity(x_norm, y_norm, time_phase);
    if intensity < 150 {
        Cell::Blank
    } else {
        let ch = if intensity > 700 { '▓' } else if intensity > 500 { '▒' } else { '░' };
        if intensity <= 300 {
            Cell::Blank
        } else {
            let color_phase = (elapsed_ms / 10 + x_norm / 2) % 1000;
            let rgb: (int, int, int) = if color_phase < 400 {
                let t = color_phase * 1000 / 400;
                (50, 127 + 128 * t / 1000, 80 + 50 * t / 1000)
            } else if color_phase < 700 {
                let t = (color_phase - 400) * 1000 / 300;
                (50 * (1000 - t) / 1000, 255 - 100 * t / 1000, 150 + 105 * t / 1000)
            } else {
                let t = (color_phase - 700) * 1000 / 300;
                (80 + 80 * t / 1000, 155 - 50 * t / 1000, 255 - 30 * t / 1000)
            };
            let dimming = 300 + spec_aurora_vertical(y_norm) * 700 / 1000;
            Cell::Glyph(
                ch,
                spec_rgb(
                    rgb.0 * dimming / 1000,
                    rgb.1 * dimming / 1000,
                    rgb.2 * dimming / 1000,
                ),
            )
        }
    }
}

/// Render an aurora borealis character.
pub fn render_aurora_char(
    x: u16,
    y: u16,
    width: u16,
    height: u16,
    elapsed_ms: u64,
    speed: AnimationSpeed,
) -> (c: Cell)
    ensures
        c == spec_render_aurora_char(
            x as int,
            y as int,
            width as int,
            height as int,
            elapsed_ms as int,
            speed,
        ),
{
    let x_norm = norm_milli(x, width);
    let y_norm = norm_milli(y, height);
    let period = speed.aurora_wave_period_ms();
    let time_phase = phase_milli(elapsed_ms, period);

    let w1 = ((sin_milli(x_norm / 2 + time_phase) + 1000) as u64) / 2;
    let w2 = ((sin_milli(x_norm * 4 / 5 + 159 + (1000 - time_phase * 3 / 4)) + 1000) as u64) / 2;
    let w3 = ((sin_milli(x_norm / 3 + time_phase / 2 + 318) + 1000) as u64) / 2;
    let combined = (w1 * 500 + w2 * 300 + w3 * 200) / 1000;
    let ycl = if y_norm > 1000 { 1000 } else { y_norm };
    let sq = sqrt_milli(ycl);
    proof {
        assert(is_isqrt(1000int * 1000, 1000));
        crate::fixed::lemma_isqrt_monotone(
            (1000 * ycl) as int,
            sq as int,
            1000int * 1000,
            1000,
        );
        lemma_scale_le(combined as int, (1000 - sq) as int, 1000);
    }
    let vertical = 1000 - sq;
    let intensity = combined * vertical / 1000;
    if intensity < 150 {
        return Cell::Blank;
    }
    let ch = if intensity > 700 { '▓' } else if intensity > 500 { '▒' } else { '░' };
    if intensity <= 300 {
        return Cell::Blank;
    }
    let color_phase = (elapsed_ms / 10 + x_norm / 2) % 1000;
    let rgb: (u64, u64, u64) = if color_phase < 400 {
        let t = color_phase * 1000 / 400;
        proof {
            assert(color_phase * 1000 < 400 * 1000) by (nonlinear_arith)
                requires color_phase < 400;
            vstd::arithmetic::div_mod::lemma_multiply_divide_lt(
                (color_phase * 1000) as int,
                400,
                1000,
            );
            lemma_scale_le(128, t as int, 1000);
            lemma_scale_le(50, t as int, 1000);
            assert(128 * t == 128 * (t as int));
            assert(50 * t == 50 * (t as int));
        }
        (50, 127 + 128 * t / 1000, 80 + 50 * t / 1000)
    } else if color_phase < 700 {
        let t = (color_phase - 400) * 1000 / 300;
        proof {
            assert((color_phase - 400) * 1000 < 300 * 1000) by (nonlinear_arith)
                requires color_phase < 700;
            vstd::arithmetic::div_mod::lemma_multiply_divide_lt(
                ((color_phase - 400) * 1000) as int,
                300,
                1000,
            );
            lemma_scale_le(50, (1000 - t) as int, 1000);
            lemma_scale_le(100, t as int, 1000);
            lemma_scale_le(105, t as int, 1000);
            assert(50 * (1000 - t) == 50 * ((1000 - t) as int));
            assert(100 * t == 100 * (t as int));
            assert(105 * t == 105 * (t as int));
        }
        (50 * (1000 - t) / 1000, 255 - 100 * t / 1000, 150 + 105 * t / 1000)
    } else {
        let t = (color_phase - 700) * 1000 / 300;
        proof {
            assert((color_phase - 700) * 1000 < 300 * 1000) by (nonlinear_arith)
                requires color_phase < 1000;
            vstd::arithmetic::div_mod::lemma_multiply_divide_lt(
                ((color_phase - 700) * 1000) as int,
                300,
                1000,
            );
            lemma_scale_le(80, t as int, 1000);
            lemma_scale_le(50, t as int, 1000);
            lemma_scale_le(30, t as int, 1000);
            assert(80 * t == 80 * (t as int));
            assert(50 * t == 50 * (t as int));
            assert(30 * t == 30 * (t as int));
        }
        (80 + 80 * t / 1000, 155 - 50 * t / 1000, 255 - 30 * t / 1000)
    };
    proof {
        lemma_scale_le(700, vertical as int, 1000);
        assert(vertical * 700 == 700 * (vertical as int));
    }
    let dimming = 300 + vertical * 700 / 1000;
    proof {
        lemma_scale_le(rgb.0 as int, dimming as int, 1000);
        lemma_scale_le(rgb.1 as int, dimming as int, 1000);
        lemma_scale_le(rgb.2 as int, dimming as int, 1000);
    }
    Cell::Glyph(
        ch,
        Rgb {
            r: (rgb.0 * dimming / 1000) as u8,
            g: (rgb.1 * dimming / 1000) as u8,
            b: (rgb.2 * dimming / 1000) as u8,
        },
    )
}

/// The sky gradient of dawn at a clamped row fraction: indigo at the top
/// through lavender and soft pink to bright gold at the horizon.
pub open spec fn spec_dawn_gradient(ycl: int) -> (int, int, int) {
    if ycl < 250 {
        let t = ycl * 4;
        (30 + 50 * t / 1000, 40 + 50 * t / 1000, 100 + 50 * t / 1000)
    } else if ycl < 500 {
        let t = (ycl - 250) * 4;
        (80 + 100 * t / 1000, 90 + 50 * t / 1000, 150 + 30 * t / 1000)
    } else if ycl < 750 {
        let t = (ycl - 500) * 4;
        (180 + 75 * t / 1000, 140 + 50 * t / 1000, 180 - 60 * t / 1000)
    } else {
        let t = (ycl - 750) * 4;
        (255, 190 + 50 * t / 1000, 120 + 30 * t / 1000)
    }
}

/// The cell of the dawn twilight: the banded sky gradient, overlaid with
/// fading stars near the top, wispy clouds in mid-sky and horizontal
/// light rays near the horizon, all gated by a per-cell hash and dimmed
/// by a slow shimmer.
pub open spec fn spec_render_twilight_dawn_char(
    x: int,
    y: int,
    width: int,
    height: int,
    elapsed_ms: int,
    speed: AnimationSpeed,
) -> Cell {
    let x_norm = spec_norm_milli(x, width);
    let y_norm = spec_norm_milli(y, height);
    let ycl = if y_norm > 1000 { 1000 } else { y_norm };
    let base = spec_dawn_gradient(ycl);
    let shimmer_period = speed.spec_aurora_wave_period_ms();
    let ph = spec_phase_milli(elapsed_ms, shimmer_period);
    let shimmer = (spec_sin_milli(ph) + 1000) * 80 / 1000 + 840;
    let seed = x * 31 + y * 17;
    let glyph: Option<char> = if ycl < 200 {
        if seed % 100 < 3 {
            Some('·')
        } else {
            None
        }
    } else if ycl < 600 {
        let cw = spec_sin_milli((x_norm * 4 + elapsed_ms / 15) / 2 % 1000);
        let cwa = if cw < 0 { -cw } else { cw };
        if seed % 100 < 3 + cwa * 2 / 1000 {
            Some('░')
        } else {
            None
        }
    } else {
        let rw = spec_sin_milli((x_norm * 8 + elapsed_ms / 8) / 2 % 1000);
        let rwa = if rw < 0 { -rw } else { rw };
        let ray_intensity = (1000 - (ycl - 600) * 5 / 2) * 120 / 1000;
        if seed % 100 < ray_intensity * 100 / 1000 + rwa * 4 / 1000 {
            Some('─')
        } else {
            None
        }
    };
    match glyph {
        Some(ch) => Cell::Glyph(
            ch,
            spec_rgb(
                base.0 * shimmer / 1000,
                base.1 * shimmer / 1000,
                base.2 * shimmer / 1000,
            ),
        ),
        None => Cell::Blank,
    }
}

/// Render a twilight dawn background character (golden hour, sunrise).
#[verifier::rlimit(50)]
pub fn render_twilight_dawn_char(
    x: u16,
    y: u16,
    width: u16,
    height: u16,
    elapsed_ms: u64,
    speed: AnimationSpeed,
) -> (c: Cell)
    ensures
        c == spec_render_twilight_dawn_char(
            x as int,
            y as int,
            width as int,
            height as int,
            elapsed_ms as int,
            speed,
        ),
{
    let x_norm = norm_milli(x, width);
    let y_norm = norm_milli(y, height);
    let ycl = if y_norm > 1000 { 1000 } else { y_norm };
    let base: (u64, u64, u64) = if ycl < 250 {
        let t = ycl * 4;
        proof {
            lemma_scale_le(50, t as int, 1000);
        }
        (30 + 50 * t / 1000, 40 + 50 * t / 1000, 100 + 50 * t / 1000)
    } else if ycl < 500 {
        let t = (ycl - 250) * 4;
        proof {
            lemma_scale_le(100, t as int, 1000);
            lemma_scale_le(50, t as int, 1000);
            lemma_scale_le(30, t as int, 1000);
        }
        (80 + 100 * t / 1000, 90 + 50 * t / 1000, 150 + 30 * t / 1000)
    } else if ycl < 750 {
        let t = (ycl - 500) * 4;
        proof {
            lemma_scale_le(75, t as int, 1000);
            lemma_scale_le(50, t as int, 1000);
            lemma_scale_le(60, t as int, 1000);
        }
        (180 + 75 * t / 1000, 140 + 50 * t / 1000, 180 - 60 * t / 1000)
    } else {
        let t = (ycl - 750) * 4;
        proof {
            lemma_scale_le(50, t as int, 1000);
            lemma_scale_le(30, t as int, 1000);
        }
        (255, 190 + 50 * t / 1000, 120 + 30 * t / 1000)
    };
    let shimmer_period = speed.aurora_wave_period_ms();
    let ph = phase_milli(elapsed_ms, shimmer_period);
    let sh = sin_milli(ph);
    let shimmer = ((sh + 1000) as u64) * 80 / 1000 + 840;
    proof {
        lemma_scale_le(80, (sh + 1000) as int, 2000);
        assert(((sh + 1000) as int) * 80 == 80 * ((sh + 1000) as int)) by (nonlinear_arith);
        vstd::arithmetic::div_mod::lemma_div_pos_is_pos(((sh + 1000) as int) * 80, 1000);
        assert(((sh + 1000) as int) * 80 <= 160_000) by (nonlinear_arith)
            requires sh <= 1000;
        vstd::arithmetic::div_mod::lemma_div_is_ordered(((sh + 1000) as int) * 80, 160_000, 1000);
        assert(160_000int / 1000 == 160);
    }
    let seed = (x as u64) * 31 + (y as u64) * 17;
    let glyph: Option<char> = if ycl < 200 {
        if seed % 100 < 3 {
            Some('·')
        } else {
            None
        }
    } else if ycl < 600 {
        let cw = sin_milli((x_norm * 4 + elapsed_ms / 15) / 2);
        let cwa: u64 = if cw < 0 { (-cw) as u64 } else { cw as u64 };
        proof {
            lemma_scale_le(2, cwa as int, 1000);
            assert((cwa as int) * 2 == 2 * (cwa as int)) by (nonlinear_arith);
        }
        if seed % 100 < 3 + cwa * 2 / 1000 {
            Some('░')
        } else {
            None
        }
    } else {
        let rw = sin_milli((x_norm * 8 + elapsed_ms / 8) / 2);
        let rwa: u64 = if rw < 0 { (-rw) as u64 } else { rw as u64 };
        let ray_intensity = (1000 - (ycl - 600) * 5 / 2) * 120 / 1000;
        proof {
            lemma_scale_le(120, (1000 - (ycl - 600) * 5 / 2) as int, 1000);
            assert(((1000 - (ycl - 600) * 5 / 2) as int) * 120 == 120 * ((1000 - (ycl - 600) * 5
                / 2) as int)) by (nonlinear_arith);
            lemma_scale_le(100, ray_intensity as int, 1000);
            assert((ray_intensity as int) * 100 == 100 * (ray_intensity as int))
                by (nonlinear_arith);
            lemma_scale_le(4, rwa as int, 1000);
            assert((rwa as int) * 4 == 4 * (rwa as int)) by (nonlinear_arith);
        }
        if seed % 100 < ray_intensity * 100 / 1000 + rwa * 4 / 1000 {
            Some('─')
        } else {
            None
        }
    };
    proof {
        lemma_scale_le(base.0 as int, shimmer as int, 1000);
        lemma_scale_le(base.1 as int, shimmer as int, 1000);
        lemma_scale_le(base.2 as int, shimmer as int, 1000);
    }
    match glyph {
        Some(ch) => Cell::Glyph(
            ch,
            Rgb {
                r: (base.0 * shimmer / 1000) as u8,
                g: (base.1 * shimmer / 1000) as u8,
                b: (base.2 * shimmer / 1000) as u8,
            },
        ),
        None => Cell::Blank,
    }
}

/// The sky gradient of dusk at a clamped row fraction: deep purple at the
/// top through magenta and rich orange to a fiery red horizon.
pub open spec fn spec_dusk_gradient(ycl: int) -> (int, int, int) {
    if ycl < 250 {
        let t = ycl * 4;
        (50 + 40 * t / 1000, 30 + 10 * t / 1000, 90 + 20 * t / 1000)
    } else if ycl < 500 {
        let t = (ycl - 250) * 4;
        (90 + 90 * t / 1000, 40 + 30 * t / 1000, 110 - 30 * t / 1000)
    } else if ycl < 750 {
        let t = (ycl - 500) * 4;
        (180 + 70 * t / 1000, 70 + 60 * t / 1000, 80 - 40 * t / 1000)
    } else {
        let t = (ycl - 750) * 4;
        (255, 130 - 50 * t / 1000, 40 - 10 * t / 1000)
    }
}

/// The cell of the dusk twilight: the banded sunset gradient, overlaid
/// with emerging stars at the top, vertical striations in mid-sky and
/// layered color bands near the horizon, gated by a per-cell hash on
/// different primes than dawn, and dimmed by a gentler shimmer.
pub open spec fn spec_render_twilight_dusk_char(
    x: int,
    y: int,
    width: int,
    height: int,
    elapsed_ms: int,
    speed: AnimationSpeed,
) -> Cell {
    let x_norm = spec_norm_milli(x, width);
    let y_norm = spec_norm_milli(y, height);
    let ycl = if y_norm > 1000 { 1000 } else { y_norm };
    let base = spec_dusk_gradient(ycl);
    let shimmer_period = speed.spec_aurora_wave_period_ms();
    let ph = spec_phase_milli(elapsed_ms, shimmer_period);
    let shimmer = (spec_sin_milli(ph) + 1000) * 60 / 1000 + 880;
    let seed = x * 37 + y * 19;
    let glyph: Option<char> = if ycl < 200 {
        if seed % 100 < 5 {
            Some(if seed % 3 == 0 { '✦' } else { '·' })
        } else {
            None
        }
    } else if ycl < 500 {
        let sw = spec_sin_milli((ycl * 12 + elapsed_ms / 10) / 2 % 1000);
        let swa = if sw < 0 { -sw } else { sw };
        if seed % 100 < 2 + swa * 2 / 1000 {
            Some('│')
        } else {
            None
        }
    } else {
        let bw = spec_sin_milli(
            (x_norm * 6 + 2000 - elapsed_ms / 12 % 2000) / 2 % 1000,
        );
        let bwa = if bw < 0 { -bw } else { bw };
        let band_intensity = (ycl - 500) * 2 * 80 / 1000;
        if seed % 100 < band_intensity * 100 / 1000 + bwa * 4 / 1000 {
            Some(if seed % 3 == 0 { '▒' } else { '░' })
        } else {
            None
        }
    };
    match glyph {
        Some(ch) => Cell::Glyph(
            ch,
            spec_rgb(
                base.0 * shimmer / 1000,
                base.1 * shimmer / 1000,
                base.2 * shimmer / 1000,
            ),
        ),
        None => Cell::Blank,
    }
}

/// Render a twilight dusk background character (sunset).
#[verifier::rlimit(50)]
pub fn render_twilight_dusk_char(
    x: u16,
    y: u16,
    width: u16,
    height: u16,
    elapsed_ms: u64,
    speed: AnimationSpeed,
) -> (c: Cell)
    ensures
        c == spec_render_twilight_dusk_char(
            x as int,
            y as int,
            width as int,
            height as int,
            elapsed_ms as int,
            speed,
        ),
{
    let x_norm = norm_milli(x, width);
    let y_norm = norm_milli(y, height);
    let ycl = if y_norm > 1000 { 1000 } else { y_norm };
    let base: (u64, u64, u64) = if ycl < 250 {
        let t = ycl * 4;
        proof {
            lemma_scale_le(40, t as int, 1000);
            lemma_scale_le(10, t as int, 1000);
            lemma_scale_le(20, t as int, 1000);
        }
        (50 + 40 * t / 1000, 30 + 10 * t / 1000, 90 + 20 * t / 1000)
    } else if ycl < 500 {
        let t = (ycl - 250) * 4;
        proof {
            lemma_scale_le(90, t as int, 1000);
            lemma_scale_le(30, t as int, 1000);
        }
        (90 + 90 * t / 1000, 40 + 30 * t / 1000, 110 - 30 * t / 1000)
    } else if ycl < 750 {
        let t = (ycl - 500) * 4;
        proof {
            lemma_scale_le(70, t as int, 1000);
            lemma_scale_le(60, t as int, 1000);
            lemma_scale_le(40, t as int, 1000);
        }
        (180 + 70 * t / 1000, 70 + 60 * t / 1000, 80 - 40 * t / 1000)
    } else {
        let t = (ycl - 750) * 4;
        proof {
            lemma_scale_le(50, t as int, 1000);
            lemma_scale_le(10, t as int, 1000);
        }
        (255, 130 - 50 * t / 1000, 40 - 10 * t / 1000)
    };
    let shimmer_period = speed.aurora_wave_period_ms();
    let ph = phase_milli(elapsed_ms, shimmer_period);
    let sh = sin_milli(ph);
    let shimmer = ((sh + 1000) as u64) * 60 / 1000 + 880;
    proof {
        lemma_scale_le(60, (sh + 1000) as int, 2000);
        assert(((sh + 1000) as int) * 60 == 60 * ((sh + 1000) as int)) by (nonlinear_arith);
        vstd::arithmetic::div_mod::lemma_div_pos_is_pos(((sh + 1000) as int) * 60, 1000);
        assert(((sh + 1000) as int) * 60 <= 120_000) by (nonlinear_arith)
            requires sh <= 1000;
        vstd::arithmetic::div_mod::lemma_div_is_ordered(((sh + 1000) as int) * 60, 120_000, 1000);
        assert(120_000int / 1000 == 120);
    }
    let seed = (x as u64) * 37 + (y as u64) * 19;
    let glyph: Option<char> = if ycl < 200 {
        if seed % 100 < 5 {
            Some(if seed % 3 == 0 { '✦' } else { '·' })
        } else {
            None
        }
    } else if ycl < 500 {
        let sw = sin_milli((ycl * 12 + elapsed_ms / 10) / 2);
        let swa: u64 = if sw < 0 { (-sw) as u64 } else { sw as u64 };
        proof {
            lemma_scale_le(2, swa as int, 1000);
            assert((swa as int) * 2 == 2 * (swa as int)) by (nonlinear_arith);
        }
        if seed % 100 < 2 + swa * 2 / 1000 {
            Some('│')
        } else {
            None
        }
    } else {
        let bw = sin_milli((x_norm * 6 + 2000 - elapsed_ms / 12 % 2000) / 2);
        let bwa: u64 = if bw < 0 { (-bw) as u64 } else { bw as u64 };
        let band_intensity = (ycl - 500) * 2 * 80 / 1000;
        proof {
            lemma_scale_le(((ycl - 500) * 2) as int, 80, 1000);
            lemma_scale_le(100, band_intensity as int, 1000);
            assert((band_intensity as int) * 100 == 100 * (band_intensity as int))
                by (nonlinear_arith);
            lemma_scale_le(4, bwa as int, 1000);
            assert((bwa as int) * 4 == 4 * (bwa as int)) by (nonlinear_arith);
        }
        if seed % 100 < band_intensity * 100 / 1000 + bwa * 4 / 1000 {
            Some(if seed % 3 == 0 { '▒' } else { '░' })
        } else {
            None
        }
    };
    proof {
        lemma_scale_le(base.0 as int, shimmer as int, 1000);
        lemma_scale_le(base.1 as int, shimmer as int, 1000);
        lemma_scale_le(base.2 as int, shimmer as int, 1000);
    }
    match glyph {
        Some(ch) => Cell::Glyph(
            ch,
            Rgb {
                r: (base.0 * shimmer / 1000) as u8,
                g: (base.1 * shimmer / 1000) as u8,
                b: (base.2 * shimmer / 1000) as u8,
            },
        ),
        None => Cell::Blank,
    }
}

} // verus!
