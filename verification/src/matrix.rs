//! Matrix rain animation (stateful): one falling glyph column per terminal
//! column, each with its own stagger, speed, trail length and glyph seed.

use vstd::prelude::*;
use crate::chars::{spec_matrix_char, matrix_char};
use crate::color::Rgb;
use crate::fixed::{wrap64, wrap_add64};
use crate::model::{AnimationSpeed, Cell};

verus! {

/// State for a single matrix rain column.  The head position `y` is in
/// milli-cells and may be negative (above the screen); `speed` is a
/// per-column multiplier in thousandths.
#[derive(Clone, Copy, PartialEq, Eq, Structural, Debug)]
pub struct MatrixColumn {
    /// Current y position of the raindrop head, in milli-cells.
    pub y: i64,
    /// Speed multiplier for this column, in thousandths.
    pub speed: u64,
    /// Length of the trail, in cells.
    pub trail_length: u64,
    /// Seed for glyph selection.
    pub char_seed: u64,
}

/// The bounds every live matrix column satisfies: initialization
/// establishes them and updates preserve them.
pub open spec fn matrix_col_wf(c: MatrixColumn) -> bool {
    &&& 4 <= c.trail_length <= 11
    &&& 300 <= c.speed <= 900
    &&& -200_000_000 <= c.y <= 200_000_000
}

pub open spec fn matrix_cols_wf(cols: Seq<MatrixColumn>) -> bool {
    forall|i: int| 0 <= i < cols.len() ==> matrix_col_wf(#[trigger] cols[i])
}

/// The start stagger of a column, in cells: spread over twice the screen
/// height so columns do not all enter at once.
pub open spec fn spec_matrix_stagger(x: int, height: int) -> int {
    (x * 7 + 3) % (if 2 * height < 1 { 1 } else { 2 * height })
}

/// The per-column speed multiplier, in thousandths.
pub open spec fn spec_matrix_speed(x: int) -> int {
    300 + x * 13 % 10 * 1000 / 15
}

/// The per-column trail length, in cells.
pub open spec fn spec_matrix_trail(x: int) -> int {
    4 + x * 11 % 8
}

/// The freshly initialized column at index `x`, as a value.
pub open spec fn spec_matrix_init_col(x: int, height: int) -> MatrixColumn {
    MatrixColumn {
        y: (-1000 * spec_matrix_stagger(x, height)) as i64,
        speed: spec_matrix_speed(x) as u64,
        trail_length: spec_matrix_trail(x) as u64,
        char_seed: (x * 17) as u64,
    }
}

/// Initialize matrix columns for the given dimensions: one column per
/// screen column, staggered, with varied speeds and trail lengths.
pub fn init_columns(width: u16, height: u16) -> (cols: Vec<MatrixColumn>)
    ensures
        cols@.len() == width,
        matrix_cols_wf(cols@),
        forall|i: int| 0 <= i < width ==> {
            let c = #[trigger] cols@[i];
            &&& c.y == -1000 * spec_matrix_stagger(i, height as int)
            &&& c.speed == spec_matrix_speed(i)
            &&& c.trail_length == spec_matrix_trail(i)
            &&& c.char_seed == i * 17
        },
        forall|i: int| 0 <= i < width ==> #[trigger] cols@[i] == spec_matrix_init_col(
            i,
            height as int,
        ),
{
    let mut cols: Vec<MatrixColumn> = Vec::new();
    let modulus: u64 = if 2 * (height as u64) < 1 { 1 } else { 2 * (height as u64) };
    for x in 0..width
        invariant
            modulus == if 2 * (height as int) < 1 { 1int } else { 2 * (height as int) },
            cols@.len() == x,
            matrix_cols_wf(cols@),
            forall|i: int| 0 <= i < x ==> {
                let c = #[trigger] cols@[i];
                &&& c.y == -1000 * spec_matrix_stagger(i, height as int)
                &&& c.speed == spec_matrix_speed(i)
                &&& c.trail_length == spec_matrix_trail(i)
                &&& c.char_seed == i * 17
            },
    {
        let xe = x as u64;
        let stagger = (xe * 7 + 3) % modulus;
        proof {
            assert(stagger < modulus <= 131_070);
            vstd::arithmetic::div_mod::lemma_div_pos_is_pos((xe * 13) as int % 10 * 1000, 15);
            vstd::arithmetic::div_mod::lemma_div_is_ordered(
                (xe * 13) as int % 10 * 1000,
                9000,
                15,
            );
            assert(9000int / 15 == 600);
        }
        cols.push(
            MatrixColumn {
                y: -((stagger * 1000) as i64),
                speed: 300 + xe * 13 % 10 * 1000 / 15,
                trail_length: 4 + xe * 11 % 8,
                char_seed: xe * 17,
            },
        );
    }
    cols
}

/// The distance, in milli-cells, that the whole field falls during one
/// update: the delta time is capped so positions stay bounded.
pub open spec fn spec_matrix_delta_y(delta_ms: int, speed: AnimationSpeed) -> int {
    let capped = if delta_ms > 10_000_000 { 10_000_000 } else { delta_ms };
    capped * speed.spec_matrix_fall_speed() / 50
}

/// One column after an update step: the head advances by the field delta
/// scaled by the column's own speed; past the bottom (screen height plus
/// trail) it wraps to just above the top, one trail length off screen,
/// and the glyph seed moves on so the reappearing drop looks new.
pub open spec fn spec_matrix_updated(c: MatrixColumn, delta_y: int, height: int) -> MatrixColumn {
    let step = delta_y * c.speed / 1000;
    if c.y + step > (height + c.trail_length) * 1000 {
        MatrixColumn {
            y: (-(c.trail_length * 1000)) as i64,
            speed: c.speed,
            trail_length: c.trail_length,
            char_seed: wrap64(c.char_seed + 1) as u64,
        }
    } else {
        MatrixColumn {
            y: (c.y + step) as i64,
            speed: c.speed,
            trail_length: c.trail_length,
            char_seed: c.char_seed,
        }
    }
}

/// Update matrix column positions.
pub fn update(columns: &mut Vec<MatrixColumn>, delta_ms: u64, height: u16, speed: AnimationSpeed)
    requires
        matrix_cols_wf(old(columns)@),
    ensures
        final(columns)@.len() == old(columns)@.len(),
        matrix_cols_wf(final(columns)@),
        forall|i: int| 0 <= i < final(columns)@.len() ==> #[trigger] final(columns)@[i]
            == spec_matrix_updated(
            old(columns)@[i],
            spec_matrix_delta_y(delta_ms as int, speed),
            height as int,
        ),
{
    let capped: u64 = if delta_ms > 10_000_000 { 10_000_000 } else { delta_ms };
    let fall_speed = speed.matrix_fall_speed();
    let delta_y = capped * fall_speed / 50;
    proof {
        assert(capped * fall_speed <= 10_000_000u64 * 2000) by (nonlinear_arith)
            requires capped <= 10_000_000u64, fall_speed <= 2000;
        vstd::arithmetic::div_mod::lemma_div_is_ordered(
            (capped * fall_speed) as int,
            20_000_000_000,
            50,
        );
        assert(20_000_000_000int / 50 == 400_000_000);
    }
    let ghost orig = columns@;
    let n = columns.len();
    for idx in 0..n
        invariant
            columns@.len() == n == orig.len(),
            matrix_cols_wf(orig),
            delta_y == spec_matrix_delta_y(delta_ms as int, speed),
            0 <= delta_y <= 400_000_000,
            forall|i: int| idx <= i < n ==> #[trigger] columns@[i] == orig[i],
            forall|i: int| 0 <= i < idx ==> #[trigger] columns@[i] == spec_matrix_updated(
                orig[i],
                delta_y as int,
                height as int,
            ),
            forall|i: int| 0 <= i < idx ==> matrix_col_wf(#[trigger] columns@[i]),
    {
        let c = columns[idx];
        proof {
            assert(delta_y * c.speed <= 400_000_000int * 900) by (nonlinear_arith)
                requires delta_y <= 400_000_000, c.speed <= 900;
            vstd::arithmetic::div_mod::lemma_div_pos_is_pos((delta_y * c.speed) as int, 1000);
            vstd::arithmetic::div_mod::lemma_div_is_ordered(
                (delta_y * c.speed) as int,
                400_000_000int * 900,
                1000,
            );
            assert(400_000_000int * 900 / 1000 == 360_000_000);
        }
        let step = delta_y * c.speed / 1000;
        let bound = ((height as u64) + c.trail_length) * 1000;
        if c.y + (step as i64) > (bound as i64) {
            columns.set(
                idx,
                MatrixColumn {
                    y: -((c.trail_length * 1000) as i64),
                    speed: c.speed,
                    trail_length: c.trail_length,
                    char_seed: wrap_add64(c.char_seed, 1),
                },
            );
        } else {
            columns.set(
                idx,
                MatrixColumn {
                    y: c.y + (step as i64),
                    speed: c.speed,
                    trail_length: c.trail_length,
                    char_seed: c.char_seed,
                },
            );
        }
    }
}

/// Once an update pushes a column's head past the bottom of the screen
/// plus its trail, the column restarts above the top: its new head
/// position is negative, never growing without bound.
pub proof fn lemma_matrix_wraparound(c: MatrixColumn, delta_y: int, height: int)
    requires
        matrix_col_wf(c),
        0 <= delta_y,
        c.y + delta_y * c.speed / 1000 > (height + c.trail_length) * 1000,
    ensures
        spec_matrix_updated(c, delta_y, height).y == -1000 * c.trail_length,
        spec_matrix_updated(c, delta_y, height).y < 0,
{
    assert(-(c.trail_length * 1000) == -1000 * c.trail_length) by (nonlinear_arith);
}

/// The cell a matrix column shows at `(x, y)`: within one trail length
/// behind the head, a seed-selected glyph, bright white-green at the head
/// and fading through green with distance; elsewhere blank.
pub open spec fn spec_render_matrix_char(cols: Seq<MatrixColumn>, x: int, y: int) -> Cell {
    if x >= cols.len() {
        Cell::Blank
    } else {
        let c = cols[x];
        let ym = y * 1000;
        let tail = c.y - (c.trail_length as int) * 1000;
        if ym >= tail && ym <= c.y {
            let dist = c.y - ym;
            let intensity = 1000 - dist / (c.trail_length as int);
            let ch = spec_matrix_char(wrap64(c.char_seed + y));
            let color = if dist < 1000 {
                Rgb { r: 200, g: 255, b: 200 }
            } else {
                Rgb { r: 0, g: (80 + 120 * intensity / 1000) as u8, b: 0 }
            };
            Cell::Glyph(ch, color)
        } else {
            Cell::Blank
        }
    }
}

/// Render a matrix rain character.
pub fn render_char(columns: &Vec<MatrixColumn>, x: u16, y: u16) -> (cell: Cell)
    requires
        matrix_cols_wf(columns@),
    ensures
        cell == spec_render_matrix_char(columns@, x as int, y as int),
{
    let x_idx = x as usize;
    if x_idx >= columns.len() {
        return Cell::Blank;
    }
    let c = &columns[x_idx];
    let ym = (y as i64) * 1000;
    let tail = c.y - (c.trail_length * 1000) as i64;
    if ym >= tail && ym <= c.y {
        let dist = (c.y - ym) as u64;
        proof {
            vstd::arithmetic::div_mod::lemma_div_is_ordered(
                dist as int,
                (c.trail_length * 1000) as int,
                c.trail_length as int,
            );
            assert((c.trail_length * 1000) as int == (c.trail_length as int) * 1000);
            vstd::arithmetic::div_mod::lemma_div_by_multiple(1000, c.trail_length as int);
        }
        let intensity = 1000 - dist / c.trail_length;
        let ch = matrix_char(wrap_add64(c.char_seed, y as u64));
        proof {
            crate::fixed::lemma_scale_le(120, intensity as int, 1000);
            assert((intensity as int) * 120 == 120 * (intensity as int)) by (nonlinear_arith);
        }
        let color = if dist < 1000 {
            Rgb { r: 200, g: 255, b: 200 }
        } else {
            Rgb { r: 0, g: (80 + 120 * intensity / 1000) as u8, b: 0 }
        };
        Cell::Glyph(ch, color)
    } else {
        Cell::Blank
    }
}

} // verus!
