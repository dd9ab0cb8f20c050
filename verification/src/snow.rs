//! Snowfall animation (stateful): one drifting flake per terminal column,
//! with per-column fall speed, sinusoidal horizontal drift and size class.

use vstd::prelude::*;
use crate::chars::{spec_snow_char, snow_char};
use crate::color::Rgb;
use crate::fixed::{spec_sin_milli, wrap64, sin_milli, wrap_add64, wrap_mul64};
use crate::model::{AnimationSpeed, Cell};

verus! {

/// State for a single snowfall column.  The flake position `y` is in
/// milli-cells; `drift_phase` is a phase offset in milliturns.
#[derive(Clone, Copy, PartialEq, Eq, Structural, Debug)]
pub struct SnowColumn {
    /// Current y position of the snowflake, in milli-cells.
    pub y: i64,
    /// Speed multiplier for this column, in thousandths.
    pub speed: u64,
    /// Horizontal drift phase offset, in milliturns.
    pub drift_phase: u64,
    /// Size category (0 = small, 1 = medium, 2 = large).
    pub size: u8,
    /// Seed for glyph selection.
    pub char_seed: u64,
}

/// The bounds every live snow column satisfies.
pub open spec fn snow_col_wf(c: SnowColumn) -> bool {
    &&& 200 <= c.speed <= 650
    &&& c.drift_phase <= 990
    &&& c.size <= 2
    &&& -400_000_000 <= c.y <= 400_000_000
}

pub open spec fn snow_cols_wf(cols: Seq<SnowColumn>) -> bool {
    forall|i: int| 0 <= i < cols.len() ==> snow_col_wf(#[trigger] cols[i])
}

/// The per-column hash that initialization draws everything from: the
/// column index mixed with the startup seed, with u64 wraparound.
pub open spec fn spec_snow_mixed(x: int, init_seed: int) -> int {
    wrap64(x * 31 + init_seed)
}

/// The start stagger of a column, in cells, spread over three screen
/// heights.
pub open spec fn spec_snow_stagger(mixed: int, height: int) -> int {
    wrap64(wrap64(mixed * 11) + 7) % (if 3 * height < 1 { 1 } else { 3 * height })
}

/// Initialize snowfall columns for the given dimensions, drawing stagger,
/// speed, drift phase, size and glyph seed from a per-column hash of the
/// startup seed.
/// The freshly initialized column at index `x`, as a value.
pub open spec fn spec_snow_init_col(x: int, height: int, init_seed: int) -> SnowColumn {
    let mixed = spec_snow_mixed(x, init_seed);
    SnowColumn {
        y: (-1000 * spec_snow_stagger(mixed, height)) as i64,
        speed: (200 + wrap64(mixed * 17) % 10 * 50) as u64,
        drift_phase: (wrap64(mixed * 23) % 100 * 10) as u64,
        size: (wrap64(mixed * 13) % 3) as u8,
        char_seed: wrap64(mixed * 19) as u64,
    }
}

/// The freshly initialized column at index `x`.
#[verifier::rlimit(80)]
fn snow_column_at(x: u16, height: u16, init_seed: u64) -> (c: SnowColumn)
    ensures
        ({
            let mixed = spec_snow_mixed(x as int, init_seed as int);
            &&& c.y == -1000 * spec_snow_stagger(mixed, height as int)
            &&& c.speed == 200 + wrap64(mixed * 17) % 10 * 50
            &&& c.drift_phase == wrap64(mixed * 23) % 100 * 10
            &&& c.size == wrap64(mixed * 13) % 3
            &&& c.char_seed == wrap64(mixed * 19)
        }),
        snow_col_wf(c),
{
    let modulus: u64 = if 3 * (height as u64) < 1 { 1 } else { 3 * (height as u64) };
    let mixed = wrap_add64((x as u64) * 31, init_seed);
    let stagger = wrap_add64(wrap_mul64(mixed, 11), 7) % modulus;
    proof {
        assert(stagger < modulus <= 196_605);
    }
    SnowColumn {
        y: -((stagger * 1000) as i64),
        speed: 200 + wrap_mul64(mixed, 17) % 10 * 50,
        drift_phase: wrap_mul64(mixed, 23) % 100 * 10,
        size: (wrap_mul64(mixed, 13) % 3) as u8,
        char_seed: wrap_mul64(mixed, 19),
    }
}

pub fn init_columns(width: u16, height: u16, init_seed: u64) -> (cols: Vec<SnowColumn>)
    ensures
        cols@.len() == width,
        snow_cols_wf(cols@),
        forall|i: int| 0 <= i < width ==> {
            let c = #[trigger] cols@[i];
            let mixed = spec_snow_mixed(i, init_seed as int);
            &&& c.y == -1000 * spec_snow_stagger(mixed, height as int)
            &&& c.speed == 200 + wrap64(mixed * 17) % 10 * 50
            &&& c.drift_phase == wrap64(mixed * 23) % 100 * 10
            &&& c.size == wrap64(mixed * 13) % 3
            &&& c.char_seed == wrap64(mixed * 19)
        },
        forall|i: int| 0 <= i < width ==> #[trigger] cols@[i] == spec_snow_init_col(
            i,
            height as int,
            init_seed as int,
        ),
{
    let mut cols: Vec<SnowColumn> = Vec::new();
    for x in 0..width
        invariant
            cols@.len() == x,
            snow_cols_wf(cols@),
            forall|i: int| 0 <= i < x ==> {
                let c = #[trigger] cols@[i];
                let mixed = spec_snow_mixed(i, init_seed as int);
                &&& c.y == -1000 * spec_snow_stagger(mixed, height as int)
                &&& c.speed == 200 + wrap64(mixed * 17) % 10 * 50
                &&& c.drift_phase == wrap64(mixed * 23) % 100 * 10
                &&& c.size == wrap64(mixed * 13) % 3
                &&& c.char_seed == wrap64(mixed * 19)
            },
    {
        let col = snow_column_at(x, height, init_seed);
        cols.push(col);
    }
    cols
}

/// The distance, in milli-cells, that the snow field falls during one
/// update, with the delta time capped so positions stay bounded.
pub open spec fn spec_snow_delta_y(delta_ms: int, speed: AnimationSpeed) -> int {
    let capped = if delta_ms > 10_000_000 { 10_000_000 } else { delta_ms };
    capped * speed.spec_snow_fall_speed() / 80
}

/// One snow column after an update step: past two cells below the bottom
/// the flake wraps to two cells above the top and its glyph seed moves on.
pub open spec fn spec_snow_updated(c: SnowColumn, delta_y: int, height: int) -> SnowColumn {
    let step = delta_y * c.speed / 1000;
    if c.y + step > height * 1000 + 2000 {
        SnowColumn {
            y: (-2000) as i64,
            speed: c.speed,
            drift_phase: c.drift_phase,
            size: c.size,
            char_seed: wrap64(c.char_seed + 1) as u64,
        }
    } else {
        SnowColumn {
            y: (c.y + step) as i64,
            speed: c.speed,
            drift_phase: c.drift_phase,
            size: c.size,
            char_seed: c.char_seed,
        }
    }
}

/// Update snowfall column positions.
pub fn update(columns: &mut Vec<SnowColumn>, delta_ms: u64, height: u16, speed: AnimationSpeed)
    requires
        snow_cols_wf(old(columns)@),
    ensures
        final(columns)@.len() == old(columns)@.len(),
        snow_cols_wf(final(columns)@),
        forall|i: int| 0 <= i < final(columns)@.len() ==> #[trigger] final(columns)@[i]
            == spec_snow_updated(
            old(columns)@[i],
            spec_snow_delta_y(delta_ms as int, speed),
            height as int,
        ),
{
    let capped: u64 = if delta_ms > 10_000_000 { 10_000_000 } else { delta_ms };
    let fall_speed = speed.snow_fall_speed();
    let delta_y = capped * fall_speed / 80;
    proof {
        assert(capped * fall_speed <= 10_000_000u64 * 2000) by (nonlinear_arith)
            requires capped <= 10_000_000u64, fall_speed <= 2000;
        vstd::arithmetic::div_mod::lemma_div_is_ordered(
            (capped * fall_speed) as int,
            20_000_000_000,
            80,
        );
        assert(20_000_000_000int / 80 == 250_000_000);
    }
    let ghost orig = columns@;
    let n = columns.len();
    for idx in 0..n
        invariant
            columns@.len() == n == orig.len(),
            snow_cols_wf(orig),
            delta_y == spec_snow_delta_y(delta_ms as int, speed),
            0 <= delta_y <= 250_000_000,
            forall|i: int| idx <= i < n ==> #[trigger] columns@[i] == orig[i],
            forall|i: int| 0 <= i < idx ==> #[trigger] columns@[i] == spec_snow_updated(
                orig[i],
                delta_y as int,
                height as int,
            ),
            forall|i: int| 0 <= i < idx ==> snow_col_wf(#[trigger] columns@[i]),
    {
        let c = columns[idx];
        proof {
            assert(delta_y * c.speed <= 250_000_000int * 650) by (nonlinear_arith)
                requires delta_y <= 250_000_000, c.speed <= 650;
            vstd::arithmetic::div_mod::lemma_div_pos_is_pos((delta_y * c.speed) as int, 1000);
            vstd::arithmetic::div_mod::lemma_div_is_ordered(
                (delta_y * c.speed) as int,
                250_000_000int * 650,
                1000,
            );
            assert(250_000_000int * 650 / 1000 == 162_500_000);
        }
        let step = delta_y * c.speed / 1000;
        let bound = (height as u64) * 1000 + 2000;
        if c.y + (step as i64) > (bound as i64) {
            columns.set(
                idx,
                SnowColumn {
                    y: -2000,
                    speed: c.speed,
                    drift_phase: c.drift_phase,
                    size: c.size,
                    char_seed: wrap_add64(c.char_seed, 1),
                },
            );
        } else {
            columns.set(
                idx,
                SnowColumn {
                    y: c.y + (step as i64),
                    speed: c.speed,
                    drift_phase: c.drift_phase,
                    size: c.size,
                    char_seed: c.char_seed,
                },
            );
        }
    }
}

/// Once an update pushes a flake past two cells below the bottom of the
/// screen, the flake restarts above the top: its new position is
/// negative, never growing without bound.
pub proof fn lemma_snow_wraparound(c: SnowColumn, delta_y: int, height: int)
    requires
        snow_col_wf(c),
        0 <= delta_y,
        c.y + delta_y * c.speed / 1000 > height * 1000 + 2000,
    ensures
        spec_snow_updated(c, delta_y, height).y == -2000,
{
}

/// The horizontal-drift offset of a flake at a moment, in milli-cells:
/// a slow sine of time plus the column's own phase, one tenth of a
/// 1.5-cell swing either way.
pub open spec fn spec_snow_drift(elapsed_ms: int, drift_phase: int) -> int {
    (spec_sin_milli((elapsed_ms / 3 + drift_phase) % 1000) + 1000) * 150 / 1000 - 150
}

/// The cell a snow column shows at `(x, y)`: a flake within eight tenths
/// of a cell of the drifted position, its glyph set and blue shade picked
/// by the size class; elsewhere blank.
pub open spec fn spec_render_snow_char(
    cols: Seq<SnowColumn>,
    x: int,
    y: int,
    elapsed_ms: int,
) -> Cell {
    if x >= cols.len() {
        Cell::Blank
    } else {
        let c = cols[x];
        let flake_y = c.y + spec_snow_drift(elapsed_ms, c.drift_phase as int);
        let dist = if y * 1000 >= flake_y { y * 1000 - flake_y } else { flake_y - y * 1000 };
        if dist < 800 {
            let char_idx: int = if c.size == 0 {
                c.char_seed as int % 3
            } else if c.size == 1 {
                3 + c.char_seed as int % 3
            } else {
                6 + c.char_seed as int % 3
            };
            let color = if c.size == 0 {
                Rgb { r: 70, g: 100, b: 160 }
            } else if c.size == 1 {
                Rgb { r: 65, g: 105, b: 225 }
            } else {
                Rgb { r: 30, g: 144, b: 255 }
            };
            Cell::Glyph(spec_snow_char(char_idx), color)
        } else {
            Cell::Blank
        }
    }
}

/// Render a snowfall character.
pub fn render_char(columns: &Vec<SnowColumn>, x: u16, y: u16, elapsed_ms: u64) -> (cell: Cell)
    requires
        snow_cols_wf(columns@),
    ensures
        cell == spec_render_snow_char(columns@, x as int, y as int, elapsed_ms as int),
{
    let x_idx = x as usize;
    if x_idx >= columns.len() {
        return Cell::Blank;
    }
    let c = columns[x_idx];
    let s = sin_milli(elapsed_ms / 3 + c.drift_phase);
    proof {
        assert(((s + 1000) as int) * 150 <= 300_000) by (nonlinear_arith)
            requires s <= 1000;
        vstd::arithmetic::div_mod::lemma_div_pos_is_pos(((s + 1000) as int) * 150, 1000);
        vstd::arithmetic::div_mod::lemma_div_is_ordered(((s + 1000) as int) * 150, 300_000, 1000);
        assert(300_000int / 1000 == 300);
    }
    let drift = (((s + 1000) as u64) * 150 / 1000) as i64 - 150;
    let flake_y = c.y + drift;
    let ym = (y as i64) * 1000;
    let dist: i64 = if ym >= flake_y { ym - flake_y } else { flake_y - ym };
    if dist < 800 {
        let char_idx: u64 = if c.size == 0 {
            c.char_seed % 3
        } else if c.size == 1 {
            3 + c.char_seed % 3
        } else {
            6 + c.char_seed % 3
        };
        let color = if c.size == 0 {
            Rgb { r: 70, g: 100, b: 160 }
        } else if c.size == 1 {
            Rgb { r: 65, g: 105, b: 225 }
        } else {
            Rgb { r: 30, g: 144, b: 255 }
        };
        Cell::Glyph(snow_char(char_idx), color)
    } else {
        Cell::Blank
    }
}

} // verus!
