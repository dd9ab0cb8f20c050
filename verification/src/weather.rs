//! Weather animation effects: rain, snowfall, storm with lightning, wind
//! streaks, and the stateless sunny, cloudy and foggy backdrops.

use vstd::prelude::*;
use crate::chars::{
    spec_cloud_char, spec_fog_char, spec_rain_char, spec_storm_rain_char, spec_sun_char,
    spec_wind_char, cloud_char, fog_char, rain_char, storm_rain_char, sun_char, wind_char,
};
use crate::color::{spec_rgb, Rgb};
use crate::fixed::{
    spec_angle_milli, spec_isqrt, spec_norm_milli, spec_phase_milli, spec_pow34_milli,
    spec_pow38_milli, spec_sin_milli, wrap64, angle_milli, isqrt, lemma_scale_le,
    norm_milli, phase_milli, pow34_milli, pow38_milli, sin_milli, wrap_add64, wrap_mul64,
};
use crate::model::{AnimationSpeed, Cell};
use crate::snow::{spec_render_snow_char, spec_snow_delta_y, spec_snow_mixed, spec_snow_stagger,
    spec_snow_updated, snow_cols_wf, SnowColumn};

verus! {

// ========== RAIN (stateful) ==========

/// State for a single rain column: the drop position in milli-cells, a
/// per-column speed multiplier in thousandths, a glyph seed and an
/// intensity class.
#[derive(Clone, Copy, PartialEq, Eq, Structural, Debug)]
pub struct RainColumn {
    /// Current y position of the raindrop, in milli-cells.
    pub y: i64,
    /// Speed multiplier for this column, in thousandths.
    pub speed: u64,
    /// Seed for glyph selection.
    pub char_seed: u64,
    /// Intensity class (0 = light, 1 = medium, 2 = heavy).
    pub intensity: u8,
}

/// The bounds every live rain column satisfies.
pub open spec fn rain_col_wf(c: RainColumn) -> bool {
    &&& 800 <= c.speed <= 1160
    &&& c.intensity <= 2
    &&& -400_000_000 <= c.y <= 700_000_000
}

pub open spec fn rain_cols_wf(cols: Seq<RainColumn>) -> bool {
    forall|i: int| 0 <= i < cols.len() ==> rain_col_wf(#[trigger] cols[i])
}

/// The per-column hash that rain initialization draws everything from.
pub open spec fn spec_rain_mixed(x: int, init_seed: int) -> int {
    wrap64(x * 29 + init_seed)
}

/// The start stagger of a rain column, in cells, spread over two screen
/// heights.
pub open spec fn spec_rain_stagger(mixed: int, height: int) -> int {
    wrap64(mixed * 13) % (if 2 * height < 1 { 1 } else { 2 * height })
}

/// The freshly initialized rain column at index `x`.
#[verifier::rlimit(80)]
fn rain_column_at(x: u16, height: u16, init_seed: u64) -> (c: RainColumn)
    ensures
        ({
            let mixed = spec_rain_mixed(x as int, init_seed as int);
            &&& c.y == -1000 * spec_rain_stagger(mixed, height as int)
            &&& c.speed == 800 + wrap64(mixed * 17) % 10 * 40
            &&& c.char_seed == wrap64(mixed * 23)
            &&& c.intensity == wrap64(mixed * 7) % 3
        }),
        rain_col_wf(c),
{
    let modulus: u64 = if 2 * (height as u64) < 1 { 1 } else { 2 * (height as u64) };
    let mixed = wrap_add64((x as u64) * 29, init_seed);
    let stagger = wrap_mul64(mixed, 13) % modulus;
    proof {
        assert(stagger < modulus <= 131_070);
    }
    RainColumn {
        y: -((stagger * 1000) as i64),
        speed: 800 + wrap_mul64(mixed, 17) % 10 * 40,
        char_seed: wrap_mul64(mixed, 23),
        intensity: (wrap_mul64(mixed, 7) % 3) as u8,
    }
}

/// The freshly initialized rain column at index `x`, as a value.
pub open spec fn spec_rain_init_col(x: int, height: int, init_seed: int) -> RainColumn {
    let mixed = spec_rain_mixed(x, init_seed);
    RainColumn {
        y: (-1000 * spec_rain_stagger(mixed, height)) as i64,
        speed: (800 + wrap64(mixed * 17) % 10 * 40) as u64,
        char_seed: wrap64(mixed * 23) as u64,
        intensity: (wrap64(mixed * 7) % 3) as u8,
    }
}

/// Initialize rain columns, staggered and varied from the startup seed.
pub fn init_rain_columns(width: u16, height: u16, init_seed: u64) -> (cols: Vec<RainColumn>)
    ensures
        cols@.len() == width,
        rain_cols_wf(cols@),
        forall|i: int| 0 <= i < width ==> {
            let c = #[trigger] cols@[i];
            let mixed = spec_rain_mixed(i, init_seed as int);
            &&& c.y == -1000 * spec_rain_stagger(mixed, height as int)
            &&& c.speed == 800 + wrap64(mixed * 17) % 10 * 40
            &&& c.char_seed == wrap64(mixed * 23)
            &&& c.intensity == wrap64(mixed * 7) % 3
        },
        forall|i: int| 0 <= i < width ==> #[trigger] cols@[i] == spec_rain_init_col(
            i,
            height as int,
            init_seed as int,
        ),
{
    let mut cols: Vec<RainColumn> = Vec::new();
    for x in 0..width
        invariant
            cols@.len() == x,
            rain_cols_wf(cols@),
            forall|i: int| 0 <= i < x ==> {
                let c = #[trigger] cols@[i];
                let mixed = spec_rain_mixed(i, init_seed as int);
                &&& c.y == -1000 * spec_rain_stagger(mixed, height as int)
                &&& c.speed == 800 + wrap64(mixed * 17) % 10 * 40
                &&& c.char_seed == wrap64(mixed * 23)
                &&& c.intensity == wrap64(mixed * 7) % 3
            },
    {
        let col = rain_column_at(x, height, init_seed);
        cols.push(col);
    }
    cols
}

/// The distance, in milli-cells, that the rain falls during one update,
/// with the delta time capped so positions stay bounded.
pub open spec fn spec_rain_delta_y(delta_ms: int, speed: AnimationSpeed) -> int {
    let capped = if delta_ms > 10_000_000 { 10_000_000 } else { delta_ms };
    capped * speed.spec_rain_fall_speed() / 40
}

/// One rain column after an update step: past one cell below the bottom
/// the drop wraps to one cell above the top and its glyph seed moves on.
pub open spec fn spec_rain_updated(c: RainColumn, delta_y: int, height: int) -> RainColumn {
    let step = delta_y * c.speed / 1000;
    if c.y + step > height * 1000 + 1000 {
        RainColumn {
            y: (-1000) as i64,
            speed: c.speed,
            char_seed: wrap64(c.char_seed + 1) as u64,
            intensity: c.intensity,
        }
    } else {
        RainColumn {
            y: (c.y + step) as i64,
            speed: c.speed,
            char_seed: c.char_seed,
            intensity: c.intensity,
        }
    }
}

/// Update rain column positions.
pub fn update_rain(
    columns: &mut Vec<RainColumn>,
    delta_ms: u64,
    height: u16,
    speed: AnimationSpeed,
)
    requires
        rain_cols_wf(old(columns)@),
    ensures
        final(columns)@.len() == old(columns)@.len(),
        rain_cols_wf(final(columns)@),
        forall|i: int| 0 <= i < final(columns)@.len() ==> #[trigger] final(columns)@[i]
            == spec_rain_updated(
            old(columns)@[i],
            spec_rain_delta_y(delta_ms as int, speed),
            height as int,
        ),
{
    let capped: u64 = if delta_ms > 10_000_000 { 10_000_000 } else { delta_ms };
    let fall_speed = speed.rain_fall_speed();
    let delta_y = capped * fall_speed / 40;
    proof {
        assert(capped * fall_speed <= 10_000_000u64 * 2000) by (nonlinear_arith)
            requires capped <= 10_000_000u64, fall_speed <= 2000;
        vstd::arithmetic::div_mod::lemma_div_is_ordered(
            (capped * fall_speed) as int,
            20_000_000_000,
            40,
        );
        assert(20_000_000_000int / 40 == 500_000_000);
    }
    let ghost orig = columns@;
    let n = columns.len();
    for idx in 0..n
        invariant
            columns@.len() == n == orig.len(),
            rain_cols_wf(orig),
            delta_y == spec_rain_delta_y(delta_ms as int, speed),
            0 <= delta_y <= 500_000_000,
            forall|i: int| idx <= i < n ==> #[trigger] columns@[i] == orig[i],
            forall|i: int| 0 <= i < idx ==> #[trigger] columns@[i] == spec_rain_updated(
                orig[i],
                delta_y as int,
                height as int,
            ),
            forall|i: int| 0 <= i < idx ==> rain_col_wf(#[trigger] columns@[i]),
    {
        let c = columns[idx];
        proof {
            assert(delta_y * c.speed <= 500_000_000int * 1160) by (nonlinear_arith)
                requires delta_y <= 500_000_000, c.speed <= 1160;
            vstd::arithmetic::div_mod::lemma_div_pos_is_pos((delta_y * c.speed) as int, 1000);
            vstd::arithmetic::div_mod::lemma_div_is_ordered(
                (delta_y * c.speed) as int,
                500_000_000int * 1160,
                1000,
            );
            assert(500_000_000int * 1160 / 1000 == 580_000_000);
        }
        let step = delta_y * c.speed / 1000;
        let bound = (height as u64) * 1000 + 1000;
        if c.y + (step as i64) > (bound as i64) {
            columns.set(
                idx,
                RainColumn {
                    y: -1000,
                    speed: c.speed,
                    char_seed: wrap_add64(c.char_seed, 1),
                    intensity: c.intensity,
                },
            );
        } else {
            columns.set(
                idx,
                RainColumn {
                    y: c.y + (step as i64),
                    speed: c.speed,
                    char_seed: c.char_seed,
                    intensity: c.intensity,
                },
            );
        }
    }
}

/// Once an update pushes a drop past one cell below the bottom of the
/// screen, the drop restarts above the top: its new position is negative.
pub proof fn lemma_rain_wraparound(c: RainColumn, delta_y: int, height: int)
    requires
        rain_col_wf(c),
        0 <= delta_y,
        c.y + delta_y * c.speed / 1000 > height * 1000 + 1000,
    ensures
        spec_rain_updated(c, delta_y, height).y == -1000,
{
}

/// The cell a rain column shows at `(x, y)`: a vertical streak glyph in a
/// blue-gray shade by intensity class when the drop is within six tenths
/// of a cell; elsewhere blank.
pub open spec fn spec_render_rain_char(cols: Seq<RainColumn>, x: int, y: int) -> Cell {
    if x >= cols.len() {
        Cell::Blank
    } else {
        let c = cols[x];
        let ym = y * 1000;
        let dist = if ym >= c.y { ym - c.y } else { c.y - ym };
        if dist < 600 {
            let color = if c.intensity == 0 {
                Rgb { r: 100, g: 120, b: 150 }
            } else if c.intensity == 1 {
                Rgb { r: 80, g: 100, b: 140 }
            } else {
                Rgb { r: 60, g: 80, b: 120 }
            };
            Cell::Glyph(spec_rain_char(c.char_seed as int), color)
        } else {
            Cell::Blank
        }
    }
}

/// Render a rain character.
pub fn render_rain_char(columns: &Vec<RainColumn>, x: u16, y: u16) -> (cell: Cell)
    requires
        rain_cols_wf(columns@),
    ensures
        cell == spec_render_rain_char(columns@, x as int, y as int),
{
    let x_idx = x as usize;
    if x_idx >= columns.len() {
        return Cell::Blank;
    }
    let c = columns[x_idx];
    let ym = (y as i64) * 1000;
    let dist: i64 = if ym >= c.y { ym - c.y } else { c.y - ym };
    if dist < 600 {
        let color = if c.intensity == 0 {
            Rgb { r: 100, g: 120, b: 150 }
        } else if c.intensity == 1 {
            Rgb { r: 80, g: 100, b: 140 }
        } else {
            Rgb { r: 60, g: 80, b: 120 }
        };
        Cell::Glyph(rain_char(c.char_seed), color)
    } else {
        Cell::Blank
    }
}

// ========== SNOW (stateful; shared with the snowfall style) ==========

/// Initialize snowfall columns: the weather snow uses the same column
/// model as the snowfall style.
pub fn init_snow_columns(width: u16, height: u16, init_seed: u64) -> (cols: Vec<SnowColumn>)
    ensures
        cols@.len() == width,
        snow_cols_wf(cols@),
        forall|i: int| 0 <= i < width ==> {
            let c = #[trigger] cols@[i];
            let mixed = spec_snow_mixed(i, init_seed as int);
            &&& c.y == -1000 * spec_snow_stagger(mixed, height as int)
            &&& c.speed == 200 + wrap64(mixed * 17) % 10 * 50
            &&& c.drift_phase == wrap64(mixed * 23) % 100 * 10
            &&& c.size == wrap64(mixed * 13) % 3
            &&& c.char_seed == wrap64(mixed * 19)
        },
{
    crate::snow::init_columns(width, height, init_seed)
}

/// Update snowfall column positions.
pub fn update_snow(
    columns: &mut Vec<SnowColumn>,
    delta_ms: u64,
    height: u16,
    speed: AnimationSpeed,
)
    requires
        snow_cols_wf(old(columns)@),
    ensures
        final(columns)@.len() == old(columns)@.len(),
        snow_cols_wf(final(columns)@),
        forall|i: int| 0 <= i < final(columns)@.len() ==> #[trigger] final(columns)@[i]
            == spec_snow_updated(
            old(columns)@[i],
            spec_snow_delta_y(delta_ms as int, speed),
            height as int,
        ),
{
    crate::snow::update(columns, delta_ms, height, speed)
}

/// Render a snowfall character.
pub fn render_snow_char(columns: &Vec<SnowColumn>, x: u16, y: u16, elapsed_ms: u64) -> (cell:
    Cell)
    requires
        snow_cols_wf(columns@),
    ensures
        cell == spec_render_snow_char(columns@, x as int, y as int, elapsed_ms as int),
{
    crate::snow::render_char(columns, x, y, elapsed_ms)
}

// ========== STORM (stateful: rain plus lightning) ==========

/// State for a storm: rain columns plus the lightning flash bookkeeping.
/// The flash machine has two states: calm, where the flash duration is
/// zero and the intensity is zero, and flash, where the duration is
/// positive and the intensity decays from full to zero.
#[derive(Clone, PartialEq, Eq, Debug)]
pub struct StormState {
    /// Rain columns (reuses the rain logic).
    pub rain_columns: Vec<RainColumn>,
    /// Time of the last lightning trigger, in milliseconds.
    pub last_lightning_ms: u64,
    /// Duration of the current flash in milliseconds; zero means calm.
    pub lightning_duration_ms: u64,
    /// The interval after which the next flash fires, in milliseconds.
    pub next_lightning_interval: u64,
    /// Lightning flash intensity in thousandths.
    pub flash_intensity: u32,
    /// Seed for lightning randomness.
    pub lightning_seed: u64,
}

/// The storm invariant: flashes are bounded, and in the calm state the
/// flash intensity is exactly zero, so flashes never overlap.
pub open spec fn storm_wf(s: StormState) -> bool {
    &&& rain_cols_wf(s.rain_columns@)
    &&& s.flash_intensity <= 1000
    &&& s.lightning_duration_ms <= 250
    &&& s.lightning_duration_ms == 0 ==> s.flash_intensity == 0
}

/// Initialize storm state: fresh rain columns, a calm flash machine, and
/// a first lightning interval drawn from the startup seed.
pub fn init_storm(width: u16, height: u16, init_seed: u64) -> (s: StormState)
    ensures
        storm_wf(s),
        s.rain_columns@.len() == width,
        s.last_lightning_ms == 0,
        s.lightning_duration_ms == 0,
        s.flash_intensity == 0,
        s.next_lightning_interval == 2000 + init_seed % 3000,
        s.lightning_seed == init_seed,
        forall|i: int| 0 <= i < width ==> {
            let c = #[trigger] s.rain_columns@[i];
            let mixed = spec_rain_mixed(i, init_seed as int);
            &&& c.y == -1000 * spec_rain_stagger(mixed, height as int)
            &&& c.speed == 800 + wrap64(mixed * 17) % 10 * 40
            &&& c.char_seed == wrap64(mixed * 23)
            &&& c.intensity == wrap64(mixed * 7) % 3
        },
{
    StormState {
        rain_columns: init_rain_columns(width, height, init_seed),
        last_lightning_ms: 0,
        lightning_duration_ms: 0,
        next_lightning_interval: 2000 + init_seed % 3000,
        flash_intensity: 0,
        lightning_seed: init_seed,
    }
}

/// The lightning bookkeeping after one update, as the tuple (last
/// trigger, duration, next interval, flash intensity, seed).  In a flash
/// whose duration has passed, the machine returns to calm with intensity
/// exactly zero and schedules the next interval; in a running flash the
/// intensity decays linearly with elapsed fraction; in calm, once the
/// interval has passed, a new flash starts at full intensity with a
/// random duration.
pub open spec fn spec_storm_flash(
    last: int,
    dur: int,
    next: int,
    flash: int,
    seed: int,
    elapsed: int,
    speed: AnimationSpeed,
) -> (int, int, int, int, int) {
    let ts = if elapsed >= last { elapsed - last } else { 0 };
    if dur > 0 {
        if ts > dur {
            let lo = speed.spec_lightning_interval_ms().0;
            let hi = speed.spec_lightning_interval_ms().1;
            (last, 0, lo + wrap64(seed * 17) % (hi - lo), 0, wrap64(seed + elapsed))
        } else {
            (last, dur, next, 1000 - ts * 1000 / dur, seed)
        }
    } else if ts > next {
        (elapsed, 100 + seed % 150, next, 1000, seed)
    } else {
        (last, dur, next, flash, seed)
    }
}

/// Update storm state: always advances the embedded rain, then steps the
/// lightning machine.
pub fn update_storm(
    state: &mut StormState,
    elapsed_ms: u64,
    delta_ms: u64,
    height: u16,
    speed: AnimationSpeed,
)
    requires
        storm_wf(*old(state)),
    ensures
        storm_wf(*final(state)),
        final(state).rain_columns@.len() == old(state).rain_columns@.len(),
        forall|i: int| 0 <= i < final(state).rain_columns@.len()
            ==> #[trigger] final(state).rain_columns@[i] == spec_rain_updated(
            old(state).rain_columns@[i],
            spec_rain_delta_y(delta_ms as int, speed),
            height as int,
        ),
        (
            final(state).last_lightning_ms as int,
            final(state).lightning_duration_ms as int,
            final(state).next_lightning_interval as int,
            final(state).flash_intensity as int,
            final(state).lightning_seed as int,
        ) == spec_storm_flash(
            old(state).last_lightning_ms as int,
            old(state).lightning_duration_ms as int,
            old(state).next_lightning_interval as int,
            old(state).flash_intensity as int,
            old(state).lightning_seed as int,
            elapsed_ms as int,
            speed,
        ),
{
    update_rain(&mut state.rain_columns, delta_ms, height, speed);

    let time_since_flash = if elapsed_ms >= state.last_lightning_ms {
        elapsed_ms - state.last_lightning_ms
    } else {
        0
    };

    if state.lightning_duration_ms > 0 {
        if time_since_flash > state.lightning_duration_ms {
            state.lightning_duration_ms = 0;
            state.flash_intensity = 0;
            let (min_interval, max_interval) = speed.lightning_interval_ms();
            state.next_lightning_interval = min_interval + wrap_mul64(state.lightning_seed, 17)
                % (max_interval - min_interval);
            state.lightning_seed = wrap_add64(state.lightning_seed, elapsed_ms);
        } else {
            let progress = time_since_flash * 1000 / state.lightning_duration_ms;
            proof {
                assert(time_since_flash * 1000 <= (state.lightning_duration_ms * 1000) as int);
                vstd::arithmetic::div_mod::lemma_div_is_ordered(
                    (time_since_flash * 1000) as int,
                    (state.lightning_duration_ms * 1000) as int,
                    state.lightning_duration_ms as int,
                );
                assert((state.lightning_duration_ms * 1000) as int
                    == 1000 * (state.lightning_duration_ms as int));
                vstd::arithmetic::div_mod::lemma_div_by_multiple(
                    1000,
                    state.lightning_duration_ms as int,
                );
            }
            state.flash_intensity = (1000 - progress) as u32;
        }
    } else if time_since_flash > state.next_lightning_interval {
        state.last_lightning_ms = elapsed_ms;
        state.lightning_duration_ms = 100 + state.lightning_seed % 150;
        state.flash_intensity = 1000;
    }
}

/// Within one flash, the intensity never rises as time passes, and at
/// the moment the flash's duration is reached it is exactly zero.
pub proof fn lemma_flash_decay(dur: int, t1: int, t2: int)
    requires
        0 < dur,
        0 <= t1 <= t2 <= dur,
    ensures
        1000 - t2 * 1000 / dur <= 1000 - t1 * 1000 / dur,
        1000 - dur * 1000 / dur == 0,
{
    assert(t1 * 1000 <= t2 * 1000);
    vstd::arithmetic::div_mod::lemma_div_is_ordered(t1 * 1000, t2 * 1000, dur);
    assert(dur * 1000 == 1000 * dur);
    vstd::arithmetic::div_mod::lemma_div_by_multiple(1000, dur);
}

/// A new flash only ever starts from the calm state, where the previous
/// flash's intensity has already decayed to exactly zero: flashes never
/// overlap.
pub proof fn lemma_flashes_never_overlap(
    last: int,
    dur: int,
    next: int,
    flash: int,
    seed: int,
    elapsed: int,
    speed: AnimationSpeed,
)
    requires
        dur == 0 ==> flash == 0,
    ensures
        ({
            let r = spec_storm_flash(last, dur, next, flash, seed, elapsed, speed);
            dur == 0 && r.1 > 0 ==> flash == 0 && r.3 == 1000
        }),
{
}

/// The cell a storm shows at `(x, y)`: a short rain streak below each
/// drop head in purple-gray, brightened by the flash while lightning is
/// on; away from the rain, a sparse ambient flicker while the flash is
/// strong; elsewhere blank.
pub open spec fn spec_render_storm_char(s: StormState, x: int, y: int) -> Cell {
    let cols = s.rain_columns@;
    if x >= cols.len() {
        Cell::Blank
    } else {
        let c = cols[x];
        let ym = y * 1000;
        let dist = if ym >= c.y { ym - c.y } else { c.y - ym };
        if dist < 2500 && ym >= c.y {
            let trail_pos = dist * 1000 / 2500;
            let trail_fade = 1000 - trail_pos * 600 / 1000;
            let color = if s.flash_intensity > 0 {
                let boost = s.flash_intensity * 150 / 1000 * trail_fade / 1000;
                let b0 = 100 + boost + 20;
                spec_rgb(70 + boost, 65 + boost + 10, if b0 > 255 { 255 } else { b0 })
            } else {
                let fade = trail_fade * 700 / 1000 + 300;
                spec_rgb(70 * fade / 1000, 65 * fade / 1000, 100 * fade / 1000)
            };
            Cell::Glyph(spec_storm_rain_char(c.char_seed as int), color)
        } else if s.flash_intensity > 300 {
            let seed = x * 17 + y * 31;
            if seed % 8 < 3 {
                let brightness = s.flash_intensity * 80 / 1000;
                Cell::Glyph(
                    '·',
                    spec_rgb(brightness + 40, brightness + 50, brightness + 80),
                )
            } else {
                Cell::Blank
            }
        } else {
            Cell::Blank
        }
    }
}

/// Render a storm character.
pub fn render_storm_char(state: &StormState, x: u16, y: u16) -> (cell: Cell)
    requires
        storm_wf(*state),
    ensures
        cell == spec_render_storm_char(*state, x as int, y as int),
{
    let x_idx = x as usize;
    if x_idx >= state.rain_columns.len() {
        return Cell::Blank;
    }
    let c = state.rain_columns[x_idx];
    let ym = (y as i64) * 1000;
    let dist: i64 = if ym >= c.y { ym - c.y } else { c.y - ym };
    if dist < 2500 && ym >= c.y {
        let trail_pos = (dist as u64) * 1000 / 2500;
        proof {
            vstd::arithmetic::div_mod::lemma_div_is_ordered(
                ((dist as u64) * 1000) as int,
                2500int * 1000,
                2500,
            );
            assert(2500int * 1000 / 2500 == 1000);
            lemma_scale_le(trail_pos as int, 600, 1000);
            assert((trail_pos as int) * 600 == 600 * (trail_pos as int)) by (nonlinear_arith);
            lemma_scale_le(600, trail_pos as int, 1000);
        }
        let trail_fade = 1000 - trail_pos * 600 / 1000;
        let color = if state.flash_intensity > 0 {
            proof {
                lemma_scale_le(150, state.flash_intensity as int, 1000);
                assert((state.flash_intensity as int) * 150 == 150 * (
                state.flash_intensity as int)) by (nonlinear_arith);
            }
            let b1 = (state.flash_intensity as u64) * 150 / 1000;
            proof {
                lemma_scale_le(b1 as int, trail_fade as int, 1000);
            }
            let boost = b1 * trail_fade / 1000;
            let b0 = 100 + boost + 20;
            Rgb {
                r: (70 + boost) as u8,
                g: (65 + boost + 10) as u8,
                b: if b0 > 255 { 255 } else { b0 as u8 },
            }
        } else {
            proof {
                lemma_scale_le(trail_fade as int, 700, 1000);
                assert((trail_fade as int) * 700 == 700 * (trail_fade as int))
                    by (nonlinear_arith);
                lemma_scale_le(700, trail_fade as int, 1000);
                lemma_scale_le(70, (trail_fade * 700 / 1000 + 300) as int, 1000);
                lemma_scale_le(65, (trail_fade * 700 / 1000 + 300) as int, 1000);
                lemma_scale_le(100, (trail_fade * 700 / 1000 + 300) as int, 1000);
            }
            let fade = trail_fade * 700 / 1000 + 300;
            Rgb {
                r: (70 * fade / 1000) as u8,
                g: (65 * fade / 1000) as u8,
                b: (100 * fade / 1000) as u8,
            }
        };
        Cell::Glyph(storm_rain_char(c.char_seed), color)
    } else if state.flash_intensity > 300 {
        let seed = (x as u64) * 17 + (y as u64) * 31;
        if seed % 8 < 3 {
            proof {
                lemma_scale_le(80, state.flash_intensity as int, 1000);
                assert((state.flash_intensity as int) * 80 == 80 * (
                state.flash_intensity as int)) by (nonlinear_arith);
            }
            let brightness = (state.flash_intensity as u64) * 80 / 1000;
            Cell::Glyph(
                '·',
                Rgb {
                    r: (brightness + 40) as u8,
                    g: (brightness + 50) as u8,
                    b: (brightness + 80) as u8,
                },
            )
        } else {
            Cell::Blank
        }
    } else {
        Cell::Blank
    }
}

// ========== WIND (stateful) ==========

/// State for a single wind streak: a horizontal dash travelling left to
/// right on one row.
#[derive(Clone, Copy, PartialEq, Eq, Structural, Debug)]
pub struct WindStreak {
    /// Current x position of the streak head, in milli-cells.
    pub x: i64,
    /// The row the streak travels on.
    pub y: u16,
    /// Speed multiplier, in thousandths.
    pub speed: u64,
    /// Length of the streak, in cells.
    pub length: u64,
    /// Seed for glyph selection.
    pub char_seed: u64,
}

/// The bounds every live wind streak satisfies.
pub open spec fn wind_streak_wf(s: WindStreak) -> bool {
    &&& 500 <= s.speed <= 1400
    &&& 3 <= s.length <= 8
    &&& -2_000_000_000 <= s.x <= 2_000_000_000
}

pub open spec fn wind_streaks_wf(streaks: Seq<WindStreak>) -> bool {
    forall|i: int| 0 <= i < streaks.len() ==> wind_streak_wf(#[trigger] streaks[i])
}

/// How many streaks a screen gets: one per forty cells, at least ten and
/// at most two hundred.
pub open spec fn spec_wind_streak_count(width: int, height: int) -> int {
    let n = width * height / 40;
    if n < 10 { 10 } else if n > 200 { 200 } else { n }
}

/// The per-streak hash that initialization draws everything from.
pub open spec fn spec_wind_mixed(i: int, init_seed: int) -> int {
    wrap64(i * 37 + init_seed)
}

/// The freshly initialized streak at index `i`.
#[verifier::rlimit(80)]
fn wind_streak_at(i: u64, width: u16, height: u16, init_seed: u64) -> (s: WindStreak)
    requires
        i <= 200,
    ensures
        ({
            let mixed = spec_wind_mixed(i as int, init_seed as int);
            let wmod = if 2 * (width as int) < 1 { 1int } else { 2 * (width as int) };
            let hmod = if (height as int) < 1 { 1int } else { height as int };
            &&& s.x == -1000 * (wrap64(mixed * 19) % wmod)
            &&& s.y == wrap64(mixed * 23) % hmod
            &&& s.speed == 500 + wrap64(mixed * 13) % 10 * 100
            &&& s.length == 3 + wrap64(mixed * 7) % 6
            &&& s.char_seed == wrap64(mixed * 31)
        }),
        wind_streak_wf(s),
{
    let wmod: u64 = if 2 * (width as u64) < 1 { 1 } else { 2 * (width as u64) };
    let hmod: u64 = if (height as u64) < 1 { 1 } else { height as u64 };
    let mixed = wrap_add64(i * 37, init_seed);
    let start_offset = wrap_mul64(mixed, 19) % wmod;
    proof {
        assert(start_offset < wmod <= 131_070);
    }
    WindStreak {
        x: -((start_offset * 1000) as i64),
        y: (wrap_mul64(mixed, 23) % hmod) as u16,
        speed: 500 + wrap_mul64(mixed, 13) % 10 * 100,
        length: 3 + wrap_mul64(mixed, 7) % 6,
        char_seed: wrap_mul64(mixed, 31),
    }
}

/// The freshly initialized wind streak at index `i`, as a value.
pub open spec fn spec_wind_init_streak(i: int, width: int, height: int, init_seed: int)
    -> WindStreak {
    let mixed = spec_wind_mixed(i, init_seed);
    let wmod = if 2 * width < 1 { 1int } else { 2 * width };
    let hmod = if height < 1 { 1int } else { height };
    WindStreak {
        x: (-1000 * (wrap64(mixed * 19) % wmod)) as i64,
        y: (wrap64(mixed * 23) % hmod) as u16,
        speed: (500 + wrap64(mixed * 13) % 10 * 100) as u64,
        length: (3 + wrap64(mixed * 7) % 6) as u64,
        char_seed: wrap64(mixed * 31) as u64,
    }
}

/// Initialize wind streaks: a density-derived number of streaks spread
/// over the rows, staggered over twice the screen width.
pub fn init_wind_streaks(width: u16, height: u16, init_seed: u64) -> (streaks: Vec<WindStreak>)
    ensures
        streaks@.len() == spec_wind_streak_count(width as int, height as int),
        wind_streaks_wf(streaks@),
        forall|i: int| 0 <= i < streaks@.len() ==> {
            let s = #[trigger] streaks@[i];
            let mixed = spec_wind_mixed(i, init_seed as int);
            let wmod = if 2 * (width as int) < 1 { 1int } else { 2 * (width as int) };
            let hmod = if (height as int) < 1 { 1int } else { height as int };
            &&& s.x == -1000 * (wrap64(mixed * 19) % wmod)
            &&& s.y == wrap64(mixed * 23) % hmod
            &&& s.speed == 500 + wrap64(mixed * 13) % 10 * 100
            &&& s.length == 3 + wrap64(mixed * 7) % 6
            &&& s.char_seed == wrap64(mixed * 31)
        },
        forall|i: int| 0 <= i < streaks@.len() ==> #[trigger] streaks@[i]
            == spec_wind_init_streak(i, width as int, height as int, init_seed as int),
{
    proof {
        assert((width as u64) * (height as u64) <= 65_535u64 * 65_535) by (nonlinear_arith)
            requires width <= 65_535u64, height <= 65_535u64;
    }
    let area = (width as u64) * (height as u64);
    let n0 = area / 40;
    let num_streaks: u64 = if n0 < 10 { 10 } else if n0 > 200 { 200 } else { n0 };
    let mut streaks: Vec<WindStreak> = Vec::new();
    for i in 0..num_streaks
        invariant
            num_streaks == spec_wind_streak_count(width as int, height as int),
            num_streaks <= 200,
            streaks@.len() == i,
            wind_streaks_wf(streaks@),
            forall|j: int| 0 <= j < i ==> {
                let s = #[trigger] streaks@[j];
                let mixed = spec_wind_mixed(j, init_seed as int);
                let wmod = if 2 * (width as int) < 1 { 1int } else { 2 * (width as int) };
                let hmod = if (height as int) < 1 { 1int } else { height as int };
                &&& s.x == -1000 * (wrap64(mixed * 19) % wmod)
                &&& s.y == wrap64(mixed * 23) % hmod
                &&& s.speed == 500 + wrap64(mixed * 13) % 10 * 100
                &&& s.length == 3 + wrap64(mixed * 7) % 6
                &&& s.char_seed == wrap64(mixed * 31)
            },
    {
        let s = wind_streak_at(i, width, height, init_seed);
        streaks.push(s);
    }
    streaks
}

/// The distance, in milli-cells, that the wind travels during one update,
/// with the delta time capped so positions stay bounded.
pub open spec fn spec_wind_delta_x(delta_ms: int, speed: AnimationSpeed) -> int {
    let capped = if delta_ms > 10_000_000 { 10_000_000 } else { delta_ms };
    capped * speed.spec_wind_streak_speed() / 30
}

/// One wind streak after an update step: past the right edge plus its
/// own length it wraps to the left edge, moves to a seed-chosen row, and
/// its glyph seed moves on.
pub open spec fn spec_wind_updated(
    s: WindStreak,
    delta_x: int,
    width: int,
    height: int,
) -> WindStreak {
    let step = delta_x * s.speed / 1000;
    let hmod = if height < 1 { 1int } else { height };
    if s.x + step > (width + s.length) * 1000 {
        WindStreak {
            x: (-(s.length * 1000)) as i64,
            y: (wrap64(s.char_seed * 17) % hmod) as u16,
            speed: s.speed,
            length: s.length,
            char_seed: wrap64(s.char_seed + 1) as u64,
        }
    } else {
        WindStreak {
            x: (s.x + step) as i64,
            y: s.y,
            speed: s.speed,
            length: s.length,
            char_seed: s.char_seed,
        }
    }
}

/// Update wind streak positions.
pub fn update_wind(
    streaks: &mut Vec<WindStreak>,
    delta_ms: u64,
    width: u16,
    height: u16,
    speed: AnimationSpeed,
)
    requires
        wind_streaks_wf(old(streaks)@),
    ensures
        final(streaks)@.len() == old(streaks)@.len(),
        wind_streaks_wf(final(streaks)@),
        forall|i: int| 0 <= i < final(streaks)@.len() ==> #[trigger] final(streaks)@[i]
            == spec_wind_updated(
            old(streaks)@[i],
            spec_wind_delta_x(delta_ms as int, speed),
            width as int,
            height as int,
        ),
{
    let capped: u64 = if delta_ms > 10_000_000 { 10_000_000 } else { delta_ms };
    let wind_speed = speed.wind_streak_speed();
    let delta_x = capped * wind_speed / 30;
    proof {
        assert(capped * wind_speed <= 10_000_000u64 * 2000) by (nonlinear_arith)
            requires capped <= 10_000_000u64, wind_speed <= 2000;
        vstd::arithmetic::div_mod::lemma_div_is_ordered(
            (capped * wind_speed) as int,
            20_000_000_000,
            30,
        );
        assert(20_000_000_000int / 30 == 666_666_666);
    }
    let hmod: u64 = if (height as u64) < 1 { 1 } else { height as u64 };
    let ghost orig = streaks@;
    let n = streaks.len();
    for idx in 0..n
        invariant
            streaks@.len() == n == orig.len(),
            wind_streaks_wf(orig),
            delta_x == spec_wind_delta_x(delta_ms as int, speed),
            0 <= delta_x <= 666_666_666,
            hmod == if (height as int) < 1 { 1int } else { height as int },
            forall|i: int| idx <= i < n ==> #[trigger] streaks@[i] == orig[i],
            forall|i: int| 0 <= i < idx ==> #[trigger] streaks@[i] == spec_wind_updated(
                orig[i],
                delta_x as int,
                width as int,
                height as int,
            ),
            forall|i: int| 0 <= i < idx ==> wind_streak_wf(#[trigger] streaks@[i]),
    {
        let s = streaks[idx];
        proof {
            assert(delta_x * s.speed <= 666_666_666int * 1400) by (nonlinear_arith)
                requires delta_x <= 666_666_666, s.speed <= 1400;
            vstd::arithmetic::div_mod::lemma_div_pos_is_pos((delta_x * s.speed) as int, 1000);
            vstd::arithmetic::div_mod::lemma_div_is_ordered(
                (delta_x * s.speed) as int,
                666_666_666int * 1400,
                1000,
            );
            assert(666_666_666int * 1400 / 1000 == 933_333_332);
        }
        let step = delta_x * s.speed / 1000;
        let bound = ((width as u64) + s.length) * 1000;
        if s.x + (step as i64) > (bound as i64) {
            streaks.set(
                idx,
                WindStreak {
                    x: -((s.length * 1000) as i64),
                    y: (wrap_mul64(s.char_seed, 17) % hmod) as u16,
                    speed: s.speed,
                    length: s.length,
                    char_seed: wrap_add64(s.char_seed, 1),
                },
            );
        } else {
            streaks.set(
                idx,
                WindStreak {
                    x: s.x + (step as i64),
                    y: s.y,
                    speed: s.speed,
                    length: s.length,
                    char_seed: s.char_seed,
                },
            );
        }
    }
}

/// Whether a streak covers the cell `(x, y)`.
pub open spec fn spec_wind_hits(s: WindStreak, x: int, y: int) -> bool {
    &&& s.y == y
    &&& x * 1000 >= s.x - (s.length as int) * 1000
    &&& x * 1000 <= s.x
}

/// The glyph and color a streak paints at column `x`: a dash glyph keyed
/// by seed and position, gray with a fast time shimmer on the red
/// channel, brighter toward the head.
pub open spec fn spec_wind_glyph(s: WindStreak, x: int, elapsed_ms: int) -> Cell {
    let dist = s.x - x * 1000;
    let intensity = 1000 - dist / (s.length as int);
    let base = 80 + intensity * 60 / 1000;
    let shimmer = (spec_sin_milli((elapsed_ms % 1250 * 4 / 5 + x * 80) % 1000) + 1000) * 20 / 1000 - 20;
    let r0 = base + shimmer;
    let r = if r0 < 40 { 40int } else if r0 > 180 { 180int } else { r0 };
    Cell::Glyph(
        spec_wind_char(wrap64(s.char_seed + x)),
        spec_rgb(r, base + 10, base + 20),
    )
}

/// The cell the wind shows at `(x, y)`: what the first streak in the
/// list that covers the cell paints, blank when none does.
pub open spec fn spec_render_wind_char(
    streaks: Seq<WindStreak>,
    x: int,
    y: int,
    elapsed_ms: int,
) -> Cell
    decreases streaks.len(),
{
    if streaks.len() == 0 {
        Cell::Blank
    } else if spec_wind_hits(streaks[0], x, y) {
        spec_wind_glyph(streaks[0], x, elapsed_ms)
    } else {
        spec_render_wind_char(streaks.drop_first(), x, y, elapsed_ms)
    }
}

proof fn lemma_wind_skip(streaks: Seq<WindStreak>, k: int, x: int, y: int, elapsed_ms: int)
    requires
        0 <= k <= streaks.len(),
        forall|j: int| 0 <= j < k ==> !spec_wind_hits(#[trigger] streaks[j], x, y),
    ensures
        spec_render_wind_char(streaks, x, y, elapsed_ms) == spec_render_wind_char(
            streaks.skip(k),
            x,
            y,
            elapsed_ms,
        ),
    decreases k,
{
    if k > 0 {
        lemma_wind_skip(streaks, k - 1, x, y, elapsed_ms);
        assert(streaks.skip(k - 1).len() > 0);
        assert(streaks.skip(k - 1)[0] == streaks[k - 1]);
        assert(!spec_wind_hits(streaks[k - 1], x, y));
        assert(streaks.skip(k - 1).drop_first() =~= streaks.skip(k));
    } else {
        assert(streaks.skip(0) =~= streaks);
    }
}

/// Render wind at a position.
pub fn render_wind_char(streaks: &Vec<WindStreak>, x: u16, y: u16, elapsed_ms: u64) -> (cell:
    Cell)
    requires
        wind_streaks_wf(streaks@),
    ensures
        cell == spec_render_wind_char(streaks@, x as int, y as int, elapsed_ms as int),
{
    let xm = (x as i64) * 1000;
    let n = streaks.len();
    for idx in 0..n
        invariant
            n == streaks@.len(),
            wind_streaks_wf(streaks@),
            xm == (x as int) * 1000,
            forall|j: int| 0 <= j < idx ==> !spec_wind_hits(#[trigger] streaks@[j], x as int,
            y as int),
    {
        let s = streaks[idx];
        if s.y == y {
            let tail = s.x - (s.length * 1000) as i64;
            if xm >= tail && xm <= s.x {
                let dist = (s.x - xm) as u64;
                proof {
                    vstd::arithmetic::div_mod::lemma_div_is_ordered(
                        dist as int,
                        (s.length * 1000) as int,
                        s.length as int,
                    );
                    assert((s.length * 1000) as int == (s.length as int) * 1000);
                    vstd::arithmetic::div_mod::lemma_div_by_multiple(1000, s.length as int);
                }
                let intensity = 1000 - dist / s.length;
                proof {
                    lemma_scale_le(intensity as int, 60, 1000);
                    assert((intensity as int) * 60 == 60 * (intensity as int))
                        by (nonlinear_arith);
                    lemma_scale_le(60, intensity as int, 1000);
                }
                let base = 80 + intensity * 60 / 1000;
                let sh = sin_milli(elapsed_ms % 1250 * 4 / 5 + (x as u64) * 80);
                proof {
                    assert(((sh + 1000) as int) * 20 <= 40_000) by (nonlinear_arith)
                        requires sh <= 1000;
                    vstd::arithmetic::div_mod::lemma_div_pos_is_pos(((sh + 1000) as int) * 20,
                    1000);
                    vstd::arithmetic::div_mod::lemma_div_is_ordered(
                        ((sh + 1000) as int) * 20,
                        40_000,
                        1000,
                    );
                    assert(40_000int / 1000 == 40);
                }
                let shimmer = (((sh + 1000) as u64) * 20 / 1000) as i64 - 20;
                let r0 = (base as i64) + shimmer;
                let r: i64 = if r0 < 40 { 40 } else if r0 > 180 { 180 } else { r0 };
                let ch = wind_char(wrap_add64(s.char_seed, x as u64));
                proof {
                    lemma_wind_skip(streaks@, idx as int, x as int, y as int, elapsed_ms as int);
                    assert(streaks@.skip(idx as int)[0] == streaks@[idx as int]);
                }
                return Cell::Glyph(
                    ch,
                    Rgb { r: r as u8, g: (base + 10) as u8, b: (base + 20) as u8 },
                );
            }
        }
    }
    proof {
        lemma_wind_skip(streaks@, n as int, x as int, y as int, elapsed_ms as int);
        assert(streaks@.skip(n as int).len() == 0);
    }
    Cell::Blank
}

// ========== SUNNY (stateless) ==========

/// The cell the sunny backdrop shows: a bright disc in the upper right,
/// twelve rotating rays fading with distance, and a sparse warm sparkle
/// elsewhere.
pub open spec fn spec_render_sunny_char(
    x: int,
    y: int,
    width: int,
    height: int,
    elapsed_ms: int,
    speed: AnimationSpeed,
) -> Cell {
    let w = if width < 1 { 1int } else { width };
    let h = if height < 1 { 1int } else { height };
    let dx = x * 1000 - w * 850;
    let dy = (y * 1000 - h * 150) * 2;
    let distance = spec_isqrt(dx * dx + dy * dy);
    let sun_radius = (if w <= h { w } else { h }) * 80;
    if distance < sun_radius {
        let core = 1000 - distance * 1000 / sun_radius;
        Cell::Glyph('\u{25cf}', spec_rgb(255, 200 + core * 55 / 1000, 100))
    } else {
        let angle = spec_angle_milli(dx, dy);
        let shimmer_phase = spec_phase_milli(elapsed_ms, speed.spec_sun_shimmer_period_ms());
        let ray = spec_sin_milli((angle + shimmer_phase) * 12 % 1000);
        let ray_intensity = if ray < 0 { -ray } else { ray };
        let max_ray_distance = (if w >= h { w } else { h }) * 600;
        let dfrac = distance * 1000 / max_ray_distance;
        let distance_factor = 1000 - (if dfrac > 1000 { 1000int } else { dfrac });
        let seed = x * 31 + y * 17;
        if distance_factor > 50 && ray_intensity > 600 && ray_intensity * distance_factor / 1000
            > 300 {
            let combined = ray_intensity * distance_factor / 1000;
            let idx = if combined * 5 / 1000 <= 6 { combined * 5 / 1000 } else { 6int };
            Cell::Glyph(
                spec_sun_char(idx),
                spec_rgb(255, 180 + combined * 50 / 1000, 50 + combined * 30 / 1000),
            )
        } else if seed % 150 < 2 {
            Cell::Glyph(spec_sun_char(seed % 3), spec_rgb(200, 180, 80))
        } else {
            Cell::Blank
        }
    }
}

/// Render a sunny background character.
#[verifier::rlimit(80)]
pub fn render_sunny_char(
    x: u16,
    y: u16,
    width: u16,
    height: u16,
    elapsed_ms: u64,
    speed: AnimationSpeed,
) -> (c: Cell)
    ensures
        c == spec_render_sunny_char(
            x as int,
            y as int,
            width as int,
            height as int,
            elapsed_ms as int,
            speed,
        ),
{
    let w: i64 = if width < 1 { 1 } else { width as i64 };
    let h: i64 = if height < 1 { 1 } else { height as i64 };
    let dx: i64 = (x as i64) * 1000 - w * 850;
    let dy: i64 = ((y as i64) * 1000 - h * 150) * 2;
    proof {
        assert(dx * dx <= 65_535_000i64 * 65_535_000) by (nonlinear_arith)
            requires -65_535_000 <= dx <= 65_535_000;
        assert(dy * dy <= 131_070_000i64 * 131_070_000) by (nonlinear_arith)
            requires -131_070_000 <= dy <= 131_070_000;
        assert(dx * dx >= 0) by (nonlinear_arith);
        assert(dy * dy >= 0) by (nonlinear_arith);
    }
    let d2 = dx * dx + dy * dy;
    let distance = isqrt(d2 as u64);
    let sun_radius = ((if w <= h { w } else { h }) as u64) * 80;
    if distance < sun_radius {
        proof {
            assert(distance * 1000 < sun_radius * 1000) by (nonlinear_arith)
                requires distance < sun_radius;
            vstd::arithmetic::div_mod::lemma_multiply_divide_lt(
                (distance * 1000) as int,
                sun_radius as int,
                1000,
            );
            assert(sun_radius as int * 1000 == 1000 * (sun_radius as int)) by (nonlinear_arith);
        }
        let core = 1000 - distance * 1000 / sun_radius;
        proof {
            lemma_scale_le(55, core as int, 1000);
            assert((core as int) * 55 == 55 * (core as int)) by (nonlinear_arith);
        }
        return Cell::Glyph('\u{25cf}', Rgb { r: 255, g: (200 + core * 55 / 1000) as u8, b: 100 });
    }
    let angle = angle_milli(dx, dy);
    let period = speed.sun_shimmer_period_ms();
    let shimmer_phase = phase_milli(elapsed_ms, period);
    let ray = sin_milli((angle + shimmer_phase) * 12);
    let ray_intensity: u64 = if ray < 0 { (-ray) as u64 } else { ray as u64 };
    let max_ray_distance = ((if w >= h { w } else { h }) as u64) * 600;
    proof {
        vstd::arithmetic::div_mod::lemma_div_pos_is_pos(
            (distance * 1000) as int,
            max_ray_distance as int,
        );
    }
    let dfrac = distance * 1000 / max_ray_distance;
    let distance_factor = 1000 - (if dfrac > 1000 { 1000 } else { dfrac });
    let seed = (x as u64) * 31 + (y as u64) * 17;
    proof {
        lemma_scale_le(ray_intensity as int, distance_factor as int, 1000);
    }
    if distance_factor > 50 && ray_intensity > 600 && ray_intensity * distance_factor / 1000
        > 300 {
        let combined = ray_intensity * distance_factor / 1000;
        proof {
            lemma_scale_le(combined as int, 5, 1000);
            assert((combined as int) * 5 == 5 * (combined as int)) by (nonlinear_arith);
            lemma_scale_le(5, combined as int, 1000);
            lemma_scale_le(50, combined as int, 1000);
            assert((combined as int) * 50 == 50 * (combined as int)) by (nonlinear_arith);
            lemma_scale_le(30, combined as int, 1000);
            assert((combined as int) * 30 == 30 * (combined as int)) by (nonlinear_arith);
        }
        let idx = if combined * 5 / 1000 <= 6 { combined * 5 / 1000 } else { 6 };
        Cell::Glyph(
            sun_char(idx),
            Rgb { r: 255, g: (180 + combined * 50 / 1000) as u8, b: (50 + combined * 30
                / 1000) as u8 },
        )
    } else if seed % 150 < 2 {
        Cell::Glyph(sun_char(seed % 3), Rgb { r: 200, g: 180, b: 80 })
    } else {
        Cell::Blank
    }
}

// ========== CLOUDY (stateless) ==========

/// One layered cloud-noise field at a drifted position, in milli-units:
/// a sine over x, a cosine over y at half the frequency, and a sine over
/// the diagonal at three tenths of it, averaged.
pub open spec fn spec_cloud_density(xs: int, ys: int, freq: int, ph: int) -> int {
    let w1 = spec_sin_milli((xs * freq / 1000 + ph) % 1000);
    let w2 = spec_sin_milli((ys * freq / 2000 + ph + 250) % 1000);
    let w3 = spec_sin_milli(((xs + ys) * freq * 3 / 10000 + ph) % 1000);
    (w1 + w2 + w3 + 3000) / 6
}

/// Helper for cloud density calculation.
fn cloud_density(xs: u64, ys: u64, freq: u64, ph: u64) -> (d: u64)
    requires
        xs <= 100_000_000,
        ys <= 100_000_000,
        freq <= 10,
        ph <= 1000,
    ensures
        d == spec_cloud_density(xs as int, ys as int, freq as int, ph as int),
        d <= 1000,
{
    proof {
        assert(xs * freq <= 1_000_000_000 && ys * freq <= 1_000_000_000 && (xs + ys) * freq
            <= 2_000_000_000) by (nonlinear_arith)
            requires xs <= 100_000_000u64, ys <= 100_000_000u64, freq <= 10u64;
    }
    let w1 = sin_milli(xs * freq / 1000 + ph);
    let w2 = sin_milli(ys * freq / 2000 + ph + 250);
    let w3 = sin_milli((xs + ys) * freq * 3 / 10000 + ph);
    (((w1 + w2 + w3) + 3000) as u64) / 6
}

/// The cell the cloudy backdrop shows: three drifting noise layers
/// blended half, three tenths and one fifth, thickened toward the top of
/// the screen, mapped to four density glyphs in grays.
pub open spec fn spec_render_cloudy_char(
    x: int,
    y: int,
    width: int,
    height: int,
    elapsed_ms: int,
    speed: AnimationSpeed,
) -> Cell {
    let x_norm = spec_norm_milli(x, width);
    let y_norm = spec_norm_milli(y, height);
    let drift = spec_phase_milli(elapsed_ms, speed.spec_cloud_drift_period_ms());
    let c1 = spec_cloud_density(x_norm + drift / 2, y_norm, 3, 0);
    let c2 = spec_cloud_density(x_norm + 1000 - drift * 3 / 10, y_norm, 5, 300);
    let c3 = spec_cloud_density(x_norm + drift / 5, y_norm, 2, 700);
    let density = (c1 * 500 + c2 * 300 + c3 * 200) / 1000;
    let ycl = if y_norm > 1000 { 1000 } else { y_norm };
    let vertical = 1000 - spec_pow34_milli(ycl);
    let final_density = density * vertical / 1000;
    if final_density < 200 {
        Cell::Blank
    } else {
        let ch = if final_density > 700 {
            spec_cloud_char(2)
        } else if final_density > 500 {
            spec_cloud_char(1)
        } else if final_density > 300 {
            spec_cloud_char(0)
        } else {
            spec_cloud_char(4)
        };
        let gray = 120 + final_density * 60 / 1000;
        Cell::Glyph(ch, spec_rgb(gray, gray + 5, gray + 10))
    }
}

/// Render a cloudy background character.
pub fn render_cloudy_char(
    x: u16,
    y: u16,
    width: u16,
    height: u16,
    elapsed_ms: u64,
    speed: AnimationSpeed,
) -> (c: Cell)
    ensures
        c == spec_render_cloudy_char(
            x as int,
            y as int,
            width as int,
            height as int,
            elapsed_ms as int,
            speed,
        ),
{
    let x_norm = norm_milli(x, width);
    let y_norm = norm_milli(y, height);
    let period = speed.cloud_drift_period_ms();
    let drift = phase_milli(elapsed_ms, period);
    let c1 = cloud_density(x_norm + drift / 2, y_norm, 3, 0);
    let c2 = cloud_density(x_norm + 1000 - drift * 3 / 10, y_norm, 5, 300);
    let c3 = cloud_density(x_norm + drift / 5, y_norm, 2, 700);
    let density = (c1 * 500 + c2 * 300 + c3 * 200) / 1000;
    let ycl = if y_norm > 1000 { 1000 } else { y_norm };
    let pv = pow34_milli(ycl);
    let vertical = 1000 - pv;
    proof {
        lemma_scale_le(density as int, vertical as int, 1000);
    }
    let final_density = density * vertical / 1000;
    if final_density < 200 {
        Cell::Blank
    } else {
        let ch = if final_density > 700 {
            cloud_char(2)
        } else if final_density > 500 {
            cloud_char(1)
        } else if final_density > 300 {
            cloud_char(0)
        } else {
            cloud_char(4)
        };
        proof {
            lemma_scale_le(60, final_density as int, 1000);
            assert((final_density as int) * 60 == 60 * (final_density as int))
                by (nonlinear_arith);
        }
        let gray = 120 + final_density * 60 / 1000;
        Cell::Glyph(ch, Rgb { r: gray as u8, g: (gray + 5) as u8, b: (gray + 10) as u8 })
    }
}

// ========== FOGGY (stateless) ==========

/// Organic fog noise from four layered waves at different frequencies
/// and drift speeds, in milli-units.
pub open spec fn spec_fog_noise(xs: int, ys: int, t: int) -> int {
    let w1 = spec_sin_milli((xs * 400 + t * 150) / 1000 % 1000);
    let w2 = spec_sin_milli(((ys * 300 + 1_000_000_000 - t * 100) / 1000 + 250) % 1000);
    let w3 = spec_sin_milli(((xs + ys) * 200 + t * 75) / 1000 % 1000);
    let w4 = spec_sin_milli(
        ((xs * 600 + 100_000_000_000 - ys * 250 + t * 125) / 1000 + 250) % 1000,
    );
    (w1 * 350 + w2 * 250 + w3 * 250 + w4 * 150 + 1_000_000) / 2000
}

/// The weighted blend of the four fog waves, in milli-units.
fn fog_mix(w1: i64, w2: i64, w3: i64, w4: i64) -> (d: u64)
    requires
        -1000 <= w1 <= 1000,
        -1000 <= w2 <= 1000,
        -1000 <= w3 <= 1000,
        -1000 <= w4 <= 1000,
    ensures
        d == (w1 * 350 + w2 * 250 + w3 * 250 + w4 * 150 + 1_000_000) / 2000,
        d <= 1000,
{
    let num = w1 * 350 + w2 * 250 + w3 * 250 + w4 * 150 + 1_000_000;
    proof {
        assert(0 <= num <= 2_000_000);
        vstd::arithmetic::div_mod::lemma_div_is_ordered(num as int, 2_000_000, 2000);
        assert(2_000_000int / 2000 == 1000);
    }
    (num as u64) / 2000
}

/// Helper for organic fog noise using layered sine waves.
#[verifier::rlimit(80)]
fn fog_noise(xs: u64, ys: u64, t: u64) -> (d: u64)
    requires
        xs <= 300_000_000,
        ys <= 300_000_000,
        t <= 10_000,
    ensures
        d == spec_fog_noise(xs as int, ys as int, t as int),
        d <= 1000,
{
    let w1 = sin_milli((xs * 400 + t * 150) / 1000);
    let w2 = sin_milli((ys * 300 + 1_000_000_000 - t * 100) / 1000 + 250);
    let w3 = sin_milli(((xs + ys) * 200 + t * 75) / 1000);
    let w4 = sin_milli((xs * 600 + 100_000_000_000 - ys * 250 + t * 125) / 1000 + 250);
    fog_mix(w1, w2, w3, w4)
}

/// The cell the foggy backdrop shows: layered noise at two scales, a
/// ground-hugging vertical factor, hash-randomized gaps, and soft
/// gray-blue wisps whose glyph softens as the fog thins.
pub open spec fn spec_render_foggy_char(
    x: int,
    y: int,
    width: int,
    height: int,
    elapsed_ms: int,
    speed: AnimationSpeed,
) -> Cell {
    let x_norm = spec_norm_milli(x, width);
    let y_norm = spec_norm_milli(y, height);
    let period = speed.spec_fog_pulse_period_ms();
    let t = elapsed_ms % (period * 4) * 1000 / period;
    let noise = spec_fog_noise(x_norm * 4, y_norm * 3, t);
    let ycl = if y_norm > 1000 { 1000 } else { y_norm };
    let vertical = spec_pow38_milli(ycl) * 600 / 1000 + 400;
    let base_density = noise * vertical / 1000;
    let patch = spec_fog_noise(x_norm * 2 + 1500, y_norm * 2, t * 7 / 10);
    let patch_factor: int = if patch > 550 { 1200 } else { 700 };
    let fd0 = base_density * patch_factor / 1000;
    let final_density = if fd0 > 1000 { 1000int } else { fd0 };
    if final_density < 350 {
        Cell::Blank
    } else {
        let seed = x * 31 + y * 17;
        let threshold = 350 + seed % 30 * 10;
        if final_density < threshold {
            Cell::Blank
        } else {
            let char_idx: int = if final_density > 700 {
                seed % 2
            } else if final_density > 500 {
                2 + seed % 2
            } else {
                4 + seed % 3
            };
            let i0 = (final_density - 350) * 1000 / 650;
            let intensity = if i0 > 1000 { 1000int } else { i0 };
            let gray = 100 + intensity * 55 / 1000;
            Cell::Glyph(spec_fog_char(char_idx), spec_rgb(gray, gray + 8, gray + 20))
        }
    }
}

/// Render a foggy background character.
#[verifier::rlimit(80)]
pub fn render_foggy_char(
    x: u16,
    y: u16,
    width: u16,
    height: u16,
    elapsed_ms: u64,
    speed: AnimationSpeed,
) -> (c: Cell)
    ensures
        c == spec_render_foggy_char(
            x as int,
            y as int,
            width as int,
            height as int,
            elapsed_ms as int,
            speed,
        ),
{
    let x_norm = norm_milli(x, width);
    let y_norm = norm_milli(y, height);
    let period = speed.fog_pulse_period_ms();
    let m = elapsed_ms % (period * 4);
    proof {
        assert(m * 1000 <= 40_000_000_000);
        vstd::arithmetic::div_mod::lemma_div_is_ordered((m * 1000) as int, (period * 4
            * 1000) as int, period as int);
        assert((period * 4 * 1000) as int == (period as int) * 4000);
        assert((period as int) * 4000 == 4000 * (period as int)) by (nonlinear_arith);
        vstd::arithmetic::div_mod::lemma_div_by_multiple(4000, period as int);
        assert(m * 1000 < (period * 4 * 1000) as int) by (nonlinear_arith)
            requires m < period * 4;
    }
    let t = m * 1000 / period;
    let noise = fog_noise(x_norm * 4, y_norm * 3, t);
    let ycl = if y_norm > 1000 { 1000 } else { y_norm };
    let pv = pow38_milli(ycl);
    proof {
        lemma_scale_le(pv as int, 600, 1000);
        assert((pv as int) * 600 == 600 * (pv as int)) by (nonlinear_arith);
        lemma_scale_le(600, pv as int, 1000);
    }
    let vertical = pv * 600 / 1000 + 400;
    proof {
        lemma_scale_le(noise as int, vertical as int, 1000);
    }
    let base_density = noise * vertical / 1000;
    let patch = fog_noise(x_norm * 2 + 1500, y_norm * 2, t * 7 / 10);
    let patch_factor: u64 = if patch > 550 { 1200 } else { 700 };
    proof {
        assert(base_density * patch_factor <= 1000int * 1200) by (nonlinear_arith)
            requires base_density <= 1000, patch_factor <= 1200;
        vstd::arithmetic::div_mod::lemma_div_pos_is_pos(
            (base_density * patch_factor) as int,
            1000,
        );
        vstd::arithmetic::div_mod::lemma_div_is_ordered(
            (base_density * patch_factor) as int,
            1000int * 1200,
            1000,
        );
        assert(1000int * 1200 / 1000 == 1200);
    }
    let fd0 = base_density * patch_factor / 1000;
    let final_density = if fd0 > 1000 { 1000 } else { fd0 };
    if final_density < 350 {
        Cell::Blank
    } else {
        let seed = (x as u64) * 31 + (y as u64) * 17;
        let threshold = 350 + seed % 30 * 10;
        if final_density < threshold {
            Cell::Blank
        } else {
            let char_idx: u64 = if final_density > 700 {
                seed % 2
            } else if final_density > 500 {
                2 + seed % 2
            } else {
                4 + seed % 3
            };
            proof {
                assert((final_density - 350) * 1000 <= 650_000) by (nonlinear_arith)
                    requires final_density <= 1000, final_density >= 350;
                vstd::arithmetic::div_mod::lemma_div_is_ordered(
                    ((final_density - 350) * 1000) as int,
                    650_000,
                    650,
                );
                assert(650_000int / 650 == 1000);
            }
            let i0 = (final_density - 350) * 1000 / 650;
            let intensity = if i0 > 1000 { 1000 } else { i0 };
            proof {
                lemma_scale_le(55, intensity as int, 1000);
                assert((intensity as int) * 55 == 55 * (intensity as int)) by (nonlinear_arith);
            }
            let gray = 100 + intensity * 55 / 1000;
            Cell::Glyph(
                fog_char(char_idx),
                Rgb { r: gray as u8, g: (gray + 8) as u8, b: (gray + 20) as u8 },
            )
        }
    }
}

} // verus!
