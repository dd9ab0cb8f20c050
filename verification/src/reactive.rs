//! Reactive background effects driven by system metrics: each renders the
//! whole frame, one row of cells per screen row.

use vstd::prelude::*;
use crate::chars::{spec_flow_char, flow_char};
use crate::color::{spec_resource_to_color, spec_rgb, resource_to_color};
use crate::fixed::{
    spec_isqrt, spec_norm_milli, spec_phase_milli, spec_sin_milli, is_isqrt, isqrt,
    lemma_isqrt_monotone, lemma_scale_le, norm_milli, phase_milli, sin_milli,
};
use crate::model::{AnimationSpeed, Cell, SystemMetrics};

verus! {

/// A metric reading clamped to `[0, 1000]` thousandths, as the engine's
/// input contract promises.
pub open spec fn spec_clamp_metric(v: int) -> int {
    if v > 1000 { 1000 } else { v }
}

fn clamp_metric(v: u32) -> (r: u64)
    ensures
        r == spec_clamp_metric(v as int),
        r <= 1000,
{
    if v > 1000 { 1000 } else { v as u64 }
}

// ========== SYSTEM PULSE ==========

/// The period of the pulse: higher CPU use shortens it.
pub open spec fn spec_pulse_period(cpu: int, speed: AnimationSpeed) -> int {
    let base = match speed {
        AnimationSpeed::Slow => 3000int,
        AnimationSpeed::Medium => 2000int,
        AnimationSpeed::Fast => 1000int,
    };
    base * (1000 - cpu / 2) / 1000
}

/// The cell the system pulse shows at `(x, y)`: a radial sine pulse from
/// the screen center, aspect-corrected, whose rate and amplitude grow
/// with CPU use, in the CPU's resource color.
pub open spec fn spec_pulse_cell(
    x: int,
    y: int,
    width: int,
    height: int,
    elapsed_ms: int,
    speed: AnimationSpeed,
    metrics: SystemMetrics,
) -> Cell {
    let cpu = spec_clamp_metric(metrics.cpu_usage as int);
    let period = spec_pulse_period(cpu, speed);
    let phase = spec_phase_milli(elapsed_ms, period);
    let pulse = (spec_sin_milli(phase) + 1000) / 2;
    let dx = x * 1000 - width * 500;
    let dy = (y * 1000 - height * 500) * 2;
    let dist = spec_isqrt(dx * dx + dy * dy);
    let max_dist = spec_isqrt(width * width * 250_000 + height * height * 1_000_000);
    let normalized = dist * 1000 / max_dist;
    let amp = 300 + cpu * 700 / 1000;
    let intensity = (1000 - normalized) * pulse / 1000 * amp / 1000;
    if intensity > 50 {
        let ch = if intensity > 600 {
            '█'
        } else if intensity > 400 {
            '▓'
        } else if intensity > 200 {
            '▒'
        } else if intensity > 100 {
            '░'
        } else {
            '·'
        };
        let c = spec_resource_to_color(cpu);
        Cell::Glyph(ch, spec_rgb(c.0, c.1, c.2))
    } else {
        Cell::Blank
    }
}

/// One cell of the system pulse.
#[verifier::rlimit(80)]
fn pulse_cell(
    x: u16,
    y: u16,
    width: u16,
    height: u16,
    elapsed_ms: u64,
    speed: AnimationSpeed,
    metrics: &SystemMetrics,
) -> (c: Cell)
    requires
        1 <= width,
        1 <= height,
        x < width,
        y < height,
    ensures
        c == spec_pulse_cell(
            x as int,
            y as int,
            width as int,
            height as int,
            elapsed_ms as int,
            speed,
            *metrics,
        ),
{
    let cpu = clamp_metric(metrics.cpu_usage);
    let base: u64 = match speed {
        AnimationSpeed::Slow => 3000,
        AnimationSpeed::Medium => 2000,
        AnimationSpeed::Fast => 1000,
    };
    proof {
        lemma_scale_le(base as int, (1000 - cpu / 2) as int, 1000);
        assert(base * (1000 - cpu / 2) >= base * 500) by (nonlinear_arith)
            requires cpu <= 1000u64;
        vstd::arithmetic::div_mod::lemma_div_is_ordered(
            (base * 500) as int,
            (base * (1000 - cpu / 2)) as int,
            1000,
        );
        assert(base * 500 == 500 * base) by (nonlinear_arith);
        vstd::arithmetic::div_mod::lemma_div_is_ordered(500int * 1000, 500 * (base as int), 1000);
        assert(500int * 1000 / 1000 == 500);
        assert(500 * (base as int) / 1000 >= 500) by {
            vstd::arithmetic::div_mod::lemma_div_is_ordered(
                500int * 1000,
                500 * (base as int),
                1000,
            );
        }
    }
    let period = base * (1000 - cpu / 2) / 1000;
    let phase = phase_milli(elapsed_ms, period);
    let s = sin_milli(phase);
    let pulse = ((s + 1000) as u64) / 2;
    let dx: i64 = (x as i64) * 1000 - (width as i64) * 500;
    let dy: i64 = ((y as i64) * 1000 - (height as i64) * 500) * 2;
    proof {
        assert(dx * dx <= 32_767_500i64 * 32_767_500 && dx * dx >= 0) by (nonlinear_arith)
            requires -32_767_500 <= dx <= 32_767_500;
        assert(dy * dy <= 65_535_000i64 * 65_535_000 && dy * dy >= 0) by (nonlinear_arith)
            requires -65_535_000 <= dy <= 65_535_000;
    }
    let d2 = (dx * dx + dy * dy) as u64;
    let dist = isqrt(d2);
    let we = width as u64;
    let he = height as u64;
    proof {
        assert(we * we <= 65_535u64 * 65_535 && he * he <= 65_535u64 * 65_535)
            by (nonlinear_arith)
            requires we <= 65_535u64, he <= 65_535u64;
    }
    let m2 = we * we * 250_000 + he * he * 1_000_000;
    let max_dist = isqrt(m2);
    proof {
        // every cell is nearer the center than the frame corner bound
        assert(dx * dx <= (we * we * 250_000) as int) by (nonlinear_arith)
            requires
                dx + 500 * we >= 0,
                dx <= 500 * we,
                we >= 1u64,
        ;
        assert(dy * dy <= (he * he * 1_000_000) as int) by (nonlinear_arith)
            requires
                dy + 1000 * he >= 0,
                dy <= 1000 * he,
                he >= 1u64,
        ;
        lemma_isqrt_monotone(d2 as int, dist as int, m2 as int, max_dist as int);
        assert(is_isqrt(250_000, 500));
        assert(we * we >= 1) by (nonlinear_arith)
            requires we >= 1u64;
        lemma_isqrt_monotone(250_000, 500, m2 as int, max_dist as int);
        assert(dist * 1000 <= max_dist * 1000) by (nonlinear_arith)
            requires dist <= max_dist;
        vstd::arithmetic::div_mod::lemma_div_is_ordered(
            (dist * 1000) as int,
            (max_dist * 1000) as int,
            max_dist as int,
        );
        assert((max_dist * 1000) as int == 1000 * (max_dist as int)) by (nonlinear_arith);
        vstd::arithmetic::div_mod::lemma_div_by_multiple(1000, max_dist as int);
    }
    let normalized = dist * 1000 / max_dist;
    proof {
        lemma_scale_le(700, cpu as int, 1000);
        assert((cpu as int) * 700 == 700 * (cpu as int)) by (nonlinear_arith);
        lemma_scale_le((1000 - normalized) as int, pulse as int, 1000);
    }
    let amp = 300 + cpu * 700 / 1000;
    let part = (1000 - normalized) * pulse / 1000;
    proof {
        lemma_scale_le(part as int, amp as int, 1000);
    }
    let intensity = part * amp / 1000;
    if intensity > 50 {
        let ch = if intensity > 600 {
            '█'
        } else if intensity > 400 {
            '▓'
        } else if intensity > 200 {
            '▒'
        } else if intensity > 100 {
            '░'
        } else {
            '·'
        };
        let color = resource_to_color(cpu);
        Cell::Glyph(ch, color)
    } else {
        Cell::Blank
    }
}

/// Render the system pulse background: CPU use drives the pulse's rate
/// and amplitude.  Returns one row of cells per screen row.
pub fn render_system_pulse(
    width: u16,
    height: u16,
    elapsed_ms: u64,
    speed: AnimationSpeed,
    metrics: &SystemMetrics,
) -> (frame: Vec<Vec<Cell>>)
    ensures
        frame@.len() == height,
        forall|yi: int| 0 <= yi < height ==> #[trigger] frame@[yi]@.len() == width,
        forall|yi: int, xi: int| 0 <= yi < height && 0 <= xi < width ==> #[trigger] frame@[yi]@[xi]
            == spec_pulse_cell(
            xi,
            yi,
            width as int,
            height as int,
            elapsed_ms as int,
            speed,
            *metrics,
        ),
{
    let mut frame: Vec<Vec<Cell>> = Vec::new();
    for y in 0..height
        invariant
            frame@.len() == y,
            forall|yi: int| 0 <= yi < y ==> #[trigger] frame@[yi]@.len() == width,
            forall|yi: int, xi: int| 0 <= yi < y && 0 <= xi < width ==> #[trigger] frame@[yi]@[xi]
                == spec_pulse_cell(
                xi,
                yi,
                width as int,
                height as int,
                elapsed_ms as int,
                speed,
                *metrics,
            ),
    {
        let mut row: Vec<Cell> = Vec::new();
        for x in 0..width
            invariant
                y < height,
                row@.len() == x,
                forall|xi: int| 0 <= xi < x ==> #[trigger] row@[xi] == spec_pulse_cell(
                    xi,
                    y as int,
                    width as int,
                    height as int,
                    elapsed_ms as int,
                    speed,
                    *metrics,
                ),
        {
            let c = pulse_cell(x, y, width, height, elapsed_ms, speed, metrics);
            row.push(c);
        }
        frame.push(row);
    }
    frame
}

// ========== RESOURCE WAVE ==========

/// The cell the resource wave shows at `(x, y)`: a sinusoidal horizontal
/// wave whose amplitude grows with memory use, three rows thick, fading
/// from its crest, in the memory resource color.
pub open spec fn spec_wave_cell(
    x: int,
    y: int,
    width: int,
    height: int,
    elapsed_ms: int,
    speed: AnimationSpeed,
    metrics: SystemMetrics,
) -> Cell {
    let mem = spec_clamp_metric(metrics.memory_usage as int);
    let amplitude = mem * height / 3;
    let period = speed.spec_wave_period_ms();
    let phase = spec_phase_milli(elapsed_ms, period);
    let x_norm = spec_norm_milli(x, width);
    let wave = spec_sin_milli((x_norm * 637 / 1000 + phase) % 1000);
    let wave_y = height * 500 - amplitude + amplitude * (wave + 1000) / 1000;
    let ym = y * 1000;
    let dist = if ym >= wave_y { ym - wave_y } else { wave_y - ym };
    if dist < 3000 {
        let ch = if dist < 500 { '█' } else if dist < 1500 { '▓' } else { '░' };
        let c = spec_resource_to_color(mem);
        Cell::Glyph(ch, spec_rgb(c.0, c.1, c.2))
    } else {
        Cell::Blank
    }
}

/// One cell of the resource wave.
#[verifier::rlimit(80)]
fn wave_cell(
    x: u16,
    y: u16,
    width: u16,
    height: u16,
    elapsed_ms: u64,
    speed: AnimationSpeed,
    metrics: &SystemMetrics,
) -> (c: Cell)
    ensures
        c == spec_wave_cell(
            x as int,
            y as int,
            width as int,
            height as int,
            elapsed_ms as int,
            speed,
            *metrics,
        ),
{
    let mem = clamp_metric(metrics.memory_usage);
    proof {
        assert(mem * (height as u64) <= 1000u64 * 65_535) by (nonlinear_arith)
            requires mem <= 1000u64, height <= 65_535u64;
        vstd::arithmetic::div_mod::lemma_div_is_ordered(
            (mem * (height as u64)) as int,
            1000int * 65_535,
            3,
        );
        assert(1000int * 65_535 / 3 == 21_845_000);
    }
    let amplitude = mem * (height as u64) / 3;
    let period = speed.wave_period_ms();
    let phase = phase_milli(elapsed_ms, period);
    let x_norm = norm_milli(x, width);
    proof {
        lemma_scale_le(x_norm as int, 637, 1000);
        assert((x_norm as int) * 637 == 637 * (x_norm as int)) by (nonlinear_arith);
    }
    let wave = sin_milli(x_norm * 637 / 1000 + phase);
    proof {
        assert((wave + 1000) as u64 <= 2000);
        assert(amplitude * ((wave + 1000) as u64) <= 21_845_000int * 2000) by (nonlinear_arith)
            requires amplitude <= 21_845_000u64, (wave + 1000) as u64 <= 2000u64;
        vstd::arithmetic::div_mod::lemma_div_is_ordered(
            (amplitude * ((wave + 1000) as u64)) as int,
            21_845_000int * 2000,
            1000,
        );
        assert(21_845_000int * 2000 / 1000 == 43_690_000);
    }
    let swing = amplitude * ((wave + 1000) as u64) / 1000;
    let wave_y = (height as i64) * 500 - (amplitude as i64) + (swing as i64);
    let ym = (y as i64) * 1000;
    let dist: i64 = if ym >= wave_y { ym - wave_y } else { wave_y - ym };
    if dist < 3000 {
        let ch = if dist < 500 { '█' } else if dist < 1500 { '▓' } else { '░' };
        let color = resource_to_color(mem);
        Cell::Glyph(ch, color)
    } else {
        Cell::Blank
    }
}

/// Render the resource wave background: memory use drives the wave's
/// amplitude.  Returns one row of cells per screen row.
pub fn render_resource_wave(
    width: u16,
    height: u16,
    elapsed_ms: u64,
    speed: AnimationSpeed,
    metrics: &SystemMetrics,
) -> (frame: Vec<Vec<Cell>>)
    ensures
        frame@.len() == height,
        forall|yi: int| 0 <= yi < height ==> #[trigger] frame@[yi]@.len() == width,
        forall|yi: int, xi: int| 0 <= yi < height && 0 <= xi < width ==> #[trigger] frame@[yi]@[xi]
            == spec_wave_cell(
            xi,
            yi,
            width as int,
            height as int,
            elapsed_ms as int,
            speed,
            *metrics,
        ),
{
    let mut frame: Vec<Vec<Cell>> = Vec::new();
    for y in 0..height
        invariant
            frame@.len() == y,
            forall|yi: int| 0 <= yi < y ==> #[trigger] frame@[yi]@.len() == width,
            forall|yi: int, xi: int| 0 <= yi < y && 0 <= xi < width ==> #[trigger] frame@[yi]@[xi]
                == spec_wave_cell(
                xi,
                yi,
                width as int,
                height as int,
                elapsed_ms as int,
                speed,
                *metrics,
            ),
    {
        let mut row: Vec<Cell> = Vec::new();
        for x in 0..width
            invariant
                row@.len() == x,
                forall|xi: int| 0 <= xi < x ==> #[trigger] row@[xi] == spec_wave_cell(
                    xi,
                    y as int,
                    width as int,
                    height as int,
                    elapsed_ms as int,
                    speed,
                    *metrics,
                ),
        {
            let c = wave_cell(x, y, width, height, elapsed_ms, speed, metrics);
            row.push(c);
        }
        frame.push(row);
    }
    frame
}

// ========== DATA FLOW ==========

/// The apparent flow speed in thousandths: a base from the animation
/// speed plus twice the combined network rate.
pub open spec fn spec_flow_speed(net: int, speed: AnimationSpeed) -> int {
    let base = match speed {
        AnimationSpeed::Slow => 500int,
        AnimationSpeed::Medium => 1000int,
        AnimationSpeed::Fast => 2000int,
    };
    base + net * 2
}

/// The cell the data flow shows at `(x, y)`: a particle appears when the
/// cell's position/time phase passes a rate-dependent threshold and a
/// sparse hash gate passes, in the network resource color.
pub open spec fn spec_flow_cell(
    x: int,
    y: int,
    elapsed_ms: int,
    speed: AnimationSpeed,
    metrics: SystemMetrics,
) -> Cell {
    let net = (spec_clamp_metric(metrics.network_rx_rate as int) + spec_clamp_metric(
        metrics.network_tx_rate as int,
    )) / 2;
    let flow = spec_flow_speed(net, speed);
    let seed = x * 17 + y * 31;
    let particle_phase = (elapsed_ms * flow / 100_000 + seed) % 100;
    let threshold = 95 - net * 70 / 1000;
    if particle_phase > threshold && seed % 15 < 2 {
        let c = spec_resource_to_color(net);
        Cell::Glyph(spec_flow_char(seed), spec_rgb(c.0, c.1, c.2))
    } else {
        Cell::Blank
    }
}

/// One cell of the data flow.
fn flow_cell(
    x: u16,
    y: u16,
    elapsed_ms: u64,
    speed: AnimationSpeed,
    metrics: &SystemMetrics,
) -> (c: Cell)
    ensures
        c == spec_flow_cell(x as int, y as int, elapsed_ms as int, speed, *metrics),
{
    let net = (clamp_metric(metrics.network_rx_rate) + clamp_metric(metrics.network_tx_rate))
        / 2;
    let base: u64 = match speed {
        AnimationSpeed::Slow => 500,
        AnimationSpeed::Medium => 1000,
        AnimationSpeed::Fast => 2000,
    };
    let flow = base + net * 2;
    let seed = (x as u64) * 17 + (y as u64) * 31;
    proof {
        assert((elapsed_ms as int) * (flow as int) <= 0xFFFF_FFFF_FFFF_FFFFint * 4000)
            by (nonlinear_arith)
            requires elapsed_ms <= 0xFFFF_FFFF_FFFF_FFFFu64, flow <= 4000u64;
    }
    let wide = (elapsed_ms as u128) * (flow as u128) / 100_000 + (seed as u128);
    let particle_phase = (wide % 100) as u64;
    proof {
        assert((elapsed_ms as int) * (flow as int) >= 0) by (nonlinear_arith)
            requires elapsed_ms >= 0u64, flow >= 0u64;
        lemma_scale_le(70, net as int, 1000);
        assert((net as int) * 70 == 70 * (net as int)) by (nonlinear_arith);
    }
    let threshold = 95 - net * 70 / 1000;
    if particle_phase > threshold && seed % 15 < 2 {
        let color = resource_to_color(net);
        Cell::Glyph(flow_char(seed), color)
    } else {
        Cell::Blank
    }
}

/// Render the data flow background: network traffic drives particle
/// density and apparent speed.  Returns one row of cells per screen row.
pub fn render_data_flow(
    width: u16,
    height: u16,
    elapsed_ms: u64,
    speed: AnimationSpeed,
    metrics: &SystemMetrics,
) -> (frame: Vec<Vec<Cell>>)
    ensures
        frame@.len() == height,
        forall|yi: int| 0 <= yi < height ==> #[trigger] frame@[yi]@.len() == width,
        forall|yi: int, xi: int| 0 <= yi < height && 0 <= xi < width ==> #[trigger] frame@[yi]@[xi]
            == spec_flow_cell(xi, yi, elapsed_ms as int, speed, *metrics),
{
    let mut frame: Vec<Vec<Cell>> = Vec::new();
    for y in 0..height
        invariant
            frame@.len() == y,
            forall|yi: int| 0 <= yi < y ==> #[trigger] frame@[yi]@.len() == width,
            forall|yi: int, xi: int| 0 <= yi < y && 0 <= xi < width ==> #[trigger] frame@[yi]@[xi]
                == spec_flow_cell(xi, yi, elapsed_ms as int, speed, *metrics),
    {
        let mut row: Vec<Cell> = Vec::new();
        for x in 0..width
            invariant
                row@.len() == x,
                forall|xi: int| 0 <= xi < x ==> #[trigger] row@[xi] == spec_flow_cell(
                    xi,
                    y as int,
                    elapsed_ms as int,
                    speed,
                    *metrics,
                ),
        {
            let c = flow_cell(x, y, elapsed_ms, speed, metrics);
            row.push(c);
        }
        frame.push(row);
    }
    frame
}

// ========== HEAT MAP ==========

/// The combined heat of a snapshot, in thousandths: CPU, memory and both
/// network rates averaged over four.
pub open spec fn spec_combined_heat(metrics: SystemMetrics) -> int {
    (spec_clamp_metric(metrics.cpu_usage as int) + spec_clamp_metric(
        metrics.memory_usage as int,
    ) + spec_clamp_metric(metrics.network_rx_rate as int) + spec_clamp_metric(
        metrics.network_tx_rate as int,
    )) / 4
}

/// The cell the heat map shows at `(x, y)`: heat strongest at the screen
/// edges, scaled by the combined metric and a low-frequency positional
/// noise, mapped through the resource color ramp and a five-glyph ladder.
pub open spec fn spec_heat_cell(
    x: int,
    y: int,
    width: int,
    height: int,
    elapsed_ms: int,
    speed: AnimationSpeed,
    metrics: SystemMetrics,
) -> Cell {
    let combined = spec_combined_heat(metrics);
    let period = speed.spec_gradient_scroll_period_ms();
    let phase = spec_phase_milli(elapsed_ms, period);
    let ed0 = if x <= width - 1 - x { x } else { width - 1 - x };
    let ed1 = if y <= height - 1 - y { y } else { height - 1 - y };
    let edge_dist = if ed0 <= ed1 { ed0 } else { ed1 };
    let short = if width <= height { width } else { height };
    let max_edge = if short / 2 < 1 { 1int } else { short / 2 };
    let efrac = edge_dist * 1000 / max_edge;
    let edge_factor = 1000 - (if efrac > 1000 { 1000int } else { efrac });
    let noise = (spec_sin_milli((x * 16 + y * 24 + phase * 159 / 100) % 1000) + 1000) * 300
        / 2000 + 700;
    let heat = edge_factor * (200 + combined * 800 / 1000) / 1000 * noise / 1000;
    let ch = if heat > 500 {
        '█'
    } else if heat > 350 {
        '▓'
    } else if heat > 200 {
        '▒'
    } else if heat > 100 {
        '░'
    } else {
        ' '
    };
    if ch == ' ' {
        Cell::Blank
    } else {
        let c = spec_resource_to_color(heat);
        Cell::Glyph(ch, spec_rgb(c.0, c.1, c.2))
    }
}

/// One cell of the heat map.
#[verifier::rlimit(80)]
fn heat_cell(
    x: u16,
    y: u16,
    width: u16,
    height: u16,
    elapsed_ms: u64,
    speed: AnimationSpeed,
    metrics: &SystemMetrics,
) -> (c: Cell)
    requires
        1 <= width,
        1 <= height,
        x < width,
        y < height,
    ensures
        c == spec_heat_cell(
            x as int,
            y as int,
            width as int,
            height as int,
            elapsed_ms as int,
            speed,
            *metrics,
        ),
{
    let combined = (clamp_metric(metrics.cpu_usage) + clamp_metric(metrics.memory_usage)
        + clamp_metric(metrics.network_rx_rate) + clamp_metric(metrics.network_tx_rate)) / 4;
    let period = speed.gradient_scroll_period_ms();
    let phase = phase_milli(elapsed_ms, period);
    let xe = x as u64;
    let ye = y as u64;
    let we = width as u64;
    let he = height as u64;
    let ed0 = if xe <= we - 1 - xe { xe } else { we - 1 - xe };
    let ed1 = if ye <= he - 1 - ye { ye } else { he - 1 - ye };
    let edge_dist = if ed0 <= ed1 { ed0 } else { ed1 };
    let short = if we <= he { we } else { he };
    let max_edge: u64 = if short / 2 < 1 { 1 } else { short / 2 };
    proof {
        vstd::arithmetic::div_mod::lemma_div_pos_is_pos((edge_dist * 1000) as int,
        max_edge as int);
    }
    let efrac = edge_dist * 1000 / max_edge;
    let edge_factor = 1000 - (if efrac > 1000 { 1000 } else { efrac });
    let s = sin_milli(xe * 16 + ye * 24 + phase * 159 / 100);
    proof {
        assert(((s + 1000) as int) * 300 <= 600_000) by (nonlinear_arith)
            requires s <= 1000;
        vstd::arithmetic::div_mod::lemma_div_pos_is_pos(((s + 1000) as int) * 300, 2000);
        vstd::arithmetic::div_mod::lemma_div_is_ordered(((s + 1000) as int) * 300, 600_000,
        2000);
        assert(600_000int / 2000 == 300);
    }
    let noise = ((s + 1000) as u64) * 300 / 2000 + 700;
    proof {
        lemma_scale_le(800, combined as int, 1000);
        assert((combined as int) * 800 == 800 * (combined as int)) by (nonlinear_arith);
        lemma_scale_le(edge_factor as int, (200 + combined * 800 / 1000) as int, 1000);
    }
    let part = edge_factor * (200 + combined * 800 / 1000) / 1000;
    proof {
        lemma_scale_le(part as int, noise as int, 1000);
    }
    let heat = part * noise / 1000;
    let ch = if heat > 500 {
        '█'
    } else if heat > 350 {
        '▓'
    } else if heat > 200 {
        '▒'
    } else if heat > 100 {
        '░'
    } else {
        ' '
    };
    if ch == ' ' {
        Cell::Blank
    } else {
        let color = resource_to_color(heat);
        Cell::Glyph(ch, color)
    }
}

/// Render the heat map background: the combined metrics drive the heat
/// intensity.  Returns one row of cells per screen row.
pub fn render_heat_map(
    width: u16,
    height: u16,
    elapsed_ms: u64,
    speed: AnimationSpeed,
    metrics: &SystemMetrics,
) -> (frame: Vec<Vec<Cell>>)
    ensures
        frame@.len() == height,
        forall|yi: int| 0 <= yi < height ==> #[trigger] frame@[yi]@.len() == width,
        forall|yi: int, xi: int| 0 <= yi < height && 0 <= xi < width ==> #[trigger] frame@[yi]@[xi]
            == spec_heat_cell(
            xi,
            yi,
            width as int,
            height as int,
            elapsed_ms as int,
            speed,
            *metrics,
        ),
{
    let mut frame: Vec<Vec<Cell>> = Vec::new();
    for y in 0..height
        invariant
            frame@.len() == y,
            forall|yi: int| 0 <= yi < y ==> #[trigger] frame@[yi]@.len() == width,
            forall|yi: int, xi: int| 0 <= yi < y && 0 <= xi < width ==> #[trigger] frame@[yi]@[xi]
                == spec_heat_cell(
                xi,
                yi,
                width as int,
                height as int,
                elapsed_ms as int,
                speed,
                *metrics,
            ),
    {
        let mut row: Vec<Cell> = Vec::new();
        for x in 0..width
            invariant
                y < height,
                row@.len() == x,
                forall|xi: int| 0 <= xi < x ==> #[trigger] row@[xi] == spec_heat_cell(
                    xi,
                    y as int,
                    width as int,
                    height as int,
                    elapsed_ms as int,
                    speed,
                    *metrics,
                ),
        {
            let c = heat_cell(x, y, width, height, elapsed_ms, speed, metrics);
            row.push(c);
        }
        frame.push(row);
    }
    frame
}

} // verus!
