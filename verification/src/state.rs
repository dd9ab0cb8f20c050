//! Background animation state management: the orchestrator that owns every
//! stateful animator, rebuilds it on resize or first use, advances it once
//! per frame, and dispatches each cell to the renderer the selected style
//! calls for.

use vstd::prelude::*;
use crate::matrix::{
    matrix_cols_wf, spec_matrix_delta_y, spec_matrix_init_col, spec_matrix_updated,
    spec_render_matrix_char, MatrixColumn,
};
use crate::model::{AnimationSpeed, BackgroundStyle, Cell, SystemMetrics};
use crate::reactive::{
    spec_flow_cell, spec_heat_cell, spec_pulse_cell, spec_wave_cell, render_data_flow,
    render_heat_map, render_resource_wave, render_system_pulse,
};
use crate::snow::{
    snow_cols_wf, spec_render_snow_char, spec_snow_delta_y, spec_snow_init_col,
    spec_snow_updated, SnowColumn,
};
use crate::stateless::{
    spec_render_aurora_char, spec_render_frost_char, spec_render_gradient_char,
    spec_render_starfield_char, spec_render_twilight_dawn_char, spec_render_twilight_dusk_char,
    render_aurora_char, render_frost_char, render_gradient_char, render_starfield_char,
    render_twilight_dawn_char, render_twilight_dusk_char,
};
use crate::weather::{
    rain_cols_wf, spec_rain_delta_y, spec_rain_init_col, spec_rain_updated,
    spec_render_cloudy_char, spec_render_foggy_char, spec_render_rain_char,
    spec_render_storm_char, spec_render_sunny_char, spec_render_wind_char, spec_storm_flash,
    spec_wind_delta_x, spec_wind_init_streak, spec_wind_streak_count, spec_wind_updated,
    storm_wf, wind_streaks_wf, init_rain_columns, init_snow_columns, init_storm,
    init_wind_streaks, render_cloudy_char, render_foggy_char, render_rain_char,
    render_snow_char, render_storm_char, render_sunny_char, render_wind_char, update_rain,
    update_snow, update_storm, update_wind, RainColumn, StormState, WindStreak,
};

verus! {

/// Background animation state: all stateful animators, the last seen
/// dimensions and frame time, and the startup seed every initializer
/// draws from.
#[derive(Debug)]
pub struct BackgroundState {
    /// Matrix rain column states.
    pub matrix_columns: Vec<MatrixColumn>,
    /// Snowfall column states.
    pub snow_columns: Vec<SnowColumn>,
    /// Rain column states (for the rainy background).
    pub rain_columns: Vec<RainColumn>,
    /// Storm state (for the stormy background).
    pub storm_state: Option<StormState>,
    /// Wind streak states (for the windy background).
    pub wind_streaks: Vec<WindStreak>,
    /// Last known terminal width.
    pub last_width: u16,
    /// Last known terminal height.
    pub last_height: u16,
    /// Last update time in milliseconds.
    pub last_update_ms: u64,
    /// Seed captured once at startup for reproducible randomness.
    pub init_seed: u64,
}

/// The frame delta: elapsed time since the previous update, floored at
/// zero to absorb non-monotonic callers.
pub open spec fn spec_delta_ms(elapsed: int, last: int) -> int {
    if elapsed >= last { elapsed - last } else { 0 }
}

impl BackgroundState {
    /// Every stored animator is well formed.
    pub open spec fn wf(self) -> bool {
        &&& matrix_cols_wf(self.matrix_columns@)
        &&& snow_cols_wf(self.snow_columns@)
        &&& rain_cols_wf(self.rain_columns@)
        &&& (self.storm_state matches Some(st) ==> storm_wf(st))
        &&& wind_streaks_wf(self.wind_streaks@)
    }

    /// Create a new background state from an explicit startup seed, so
    /// that every run (and every test) can be reproduced.
    pub fn new(init_seed: u64) -> (s: Self)
        ensures
            s.wf(),
            s.matrix_columns@.len() == 0,
            s.snow_columns@.len() == 0,
            s.rain_columns@.len() == 0,
            s.storm_state is None,
            s.wind_streaks@.len() == 0,
            s.last_width == 0,
            s.last_height == 0,
            s.last_update_ms == 0,
            s.init_seed == init_seed,
    {
        BackgroundState {
            matrix_columns: Vec::new(),
            snow_columns: Vec::new(),
            rain_columns: Vec::new(),
            storm_state: None,
            wind_streaks: Vec::new(),
            last_width: 0,
            last_height: 0,
            last_update_ms: 0,
            init_seed,
        }
    }

    /// The cell the current state shows at `(x, y)` under a style: the
    /// exhaustive per-style dispatch.  Reactive styles render nothing
    /// here; they are handled frame-wide.
    pub open spec fn spec_render_cell(
        self,
        x: int,
        y: int,
        width: int,
        height: int,
        style: BackgroundStyle,
        elapsed_ms: int,
        speed: AnimationSpeed,
    ) -> Cell {
        match style {
            BackgroundStyle::Off => Cell::Blank,
            BackgroundStyle::Starfield => spec_render_starfield_char(x, y, elapsed_ms, speed),
            BackgroundStyle::MatrixRain => spec_render_matrix_char(self.matrix_columns@, x, y),
            BackgroundStyle::GradientWave => spec_render_gradient_char(
                x, y, width, height, elapsed_ms, speed,
            ),
            BackgroundStyle::Snowfall => spec_render_snow_char(
                self.snow_columns@, x, y, elapsed_ms,
            ),
            BackgroundStyle::Frost => spec_render_frost_char(
                x, y, width, height, elapsed_ms, speed,
            ),
            BackgroundStyle::Aurora => spec_render_aurora_char(
                x, y, width, height, elapsed_ms, speed,
            ),
            BackgroundStyle::Sunny => spec_render_sunny_char(
                x, y, width, height, elapsed_ms, speed,
            ),
            BackgroundStyle::Rainy => spec_render_rain_char(self.rain_columns@, x, y),
            BackgroundStyle::Stormy => match self.storm_state {
                Some(st) => spec_render_storm_char(st, x, y),
                None => Cell::Blank,
            },
            BackgroundStyle::Windy => spec_render_wind_char(
                self.wind_streaks@, x, y, elapsed_ms,
            ),
            BackgroundStyle::Cloudy => spec_render_cloudy_char(
                x, y, width, height, elapsed_ms, speed,
            ),
            BackgroundStyle::Foggy => spec_render_foggy_char(
                x, y, width, height, elapsed_ms, speed,
            ),
            BackgroundStyle::TwilightDawn => spec_render_twilight_dawn_char(
                x, y, width, height, elapsed_ms, speed,
            ),
            BackgroundStyle::TwilightDusk => spec_render_twilight_dusk_char(
                x, y, width, height, elapsed_ms, speed,
            ),
            BackgroundStyle::SystemPulse => Cell::Blank,
            BackgroundStyle::ResourceWave => Cell::Blank,
            BackgroundStyle::DataFlow => Cell::Blank,
            BackgroundStyle::HeatMap => Cell::Blank,
        }
    }

    /// Render a single background character at the given position.
    pub fn render_char(
        &self,
        x: u16,
        y: u16,
        width: u16,
        height: u16,
        style: BackgroundStyle,
        elapsed_ms: u64,
        speed: AnimationSpeed,
    ) -> (c: Cell)
        requires
            self.wf(),
        ensures
            c == self.spec_render_cell(
                x as int,
                y as int,
                width as int,
                height as int,
                style,
                elapsed_ms as int,
                speed,
            ),
    {
        match style {
            BackgroundStyle::Off => Cell::Blank,
            BackgroundStyle::Starfield => render_starfield_char(x, y, elapsed_ms, speed),
            BackgroundStyle::MatrixRain => crate::matrix::render_char(
                &self.matrix_columns, x, y,
            ),
            BackgroundStyle::GradientWave => render_gradient_char(
                x, y, width, height, elapsed_ms, speed,
            ),
            BackgroundStyle::Snowfall => render_snow_char(&self.snow_columns, x, y, elapsed_ms),
            BackgroundStyle::Frost => render_frost_char(x, y, width, height, elapsed_ms, speed),
            BackgroundStyle::Aurora => render_aurora_char(
                x, y, width, height, elapsed_ms, speed,
            ),
            BackgroundStyle::Sunny => render_sunny_char(x, y, width, height, elapsed_ms, speed),
            BackgroundStyle::Rainy => render_rain_char(&self.rain_columns, x, y),
            BackgroundStyle::Stormy => match &self.storm_state {
                Some(st) => render_storm_char(st, x, y),
                None => Cell::Blank,
            },
            BackgroundStyle::Windy => render_wind_char(&self.wind_streaks, x, y, elapsed_ms),
            BackgroundStyle::Cloudy => render_cloudy_char(
                x, y, width, height, elapsed_ms, speed,
            ),
            BackgroundStyle::Foggy => render_foggy_char(x, y, width, height, elapsed_ms, speed),
            BackgroundStyle::TwilightDawn => render_twilight_dawn_char(
                x, y, width, height, elapsed_ms, speed,
            ),
            BackgroundStyle::TwilightDusk => render_twilight_dusk_char(
                x, y, width, height, elapsed_ms, speed,
            ),
            BackgroundStyle::SystemPulse => Cell::Blank,
            BackgroundStyle::ResourceWave => Cell::Blank,
            BackgroundStyle::DataFlow => Cell::Blank,
            BackgroundStyle::HeatMap => Cell::Blank,
        }
    }

    /// The cell a reactive style shows at `(x, y)` for a metrics
    /// snapshot; blank for any non-reactive style.
    pub open spec fn spec_reactive_cell(
        style: BackgroundStyle,
        x: int,
        y: int,
        width: int,
        height: int,
        elapsed_ms: int,
        speed: AnimationSpeed,
        metrics: SystemMetrics,
    ) -> Cell {
        match style {
            BackgroundStyle::SystemPulse => spec_pulse_cell(
                x, y, width, height, elapsed_ms, speed, metrics,
            ),
            BackgroundStyle::ResourceWave => spec_wave_cell(
                x, y, width, height, elapsed_ms, speed, metrics,
            ),
            BackgroundStyle::DataFlow => spec_flow_cell(x, y, elapsed_ms, speed, metrics),
            BackgroundStyle::HeatMap => spec_heat_cell(
                x, y, width, height, elapsed_ms, speed, metrics,
            ),
            _ => Cell::Blank,
        }
    }

    /// Render a reactive background that responds to system metrics: a
    /// full frame for the four reactive styles, nothing for the rest.
    pub fn render_reactive(
        &mut self,
        style: BackgroundStyle,
        width: u16,
        height: u16,
        elapsed_ms: u64,
        speed: AnimationSpeed,
        metrics: &SystemMetrics,
    ) -> (frame: Vec<Vec<Cell>>)
        ensures
            *final(self) == *old(self),
            style.spec_is_reactive() ==> {
                &&& frame@.len() == height
                &&& forall|yi: int| 0 <= yi < height ==> #[trigger] frame@[yi]@.len() == width
                &&& forall|yi: int, xi: int| 0 <= yi < height && 0 <= xi < width
                    ==> #[trigger] frame@[yi]@[xi] == Self::spec_reactive_cell(
                    style,
                    xi,
                    yi,
                    width as int,
                    height as int,
                    elapsed_ms as int,
                    speed,
                    *metrics,
                )
            },
            !style.spec_is_reactive() ==> frame@.len() == 0,
    {
        match style {
            BackgroundStyle::SystemPulse => render_system_pulse(
                width, height, elapsed_ms, speed, metrics,
            ),
            BackgroundStyle::ResourceWave => render_resource_wave(
                width, height, elapsed_ms, speed, metrics,
            ),
            BackgroundStyle::DataFlow => render_data_flow(
                width, height, elapsed_ms, speed, metrics,
            ),
            BackgroundStyle::HeatMap => render_heat_map(
                width, height, elapsed_ms, speed, metrics,
            ),
            _ => Vec::new(),
        }
    }

    /// Render the background: decide reinitialization on resize or first
    /// use, advance the active animator by the frame delta, and collect
    /// one row of cells per screen row.  Reactive styles render from the
    /// metrics snapshot and change no state; without a snapshot, and for
    /// the disabled style, nothing is rendered.
    #[verifier::rlimit(100)]
    pub fn render(
        &mut self,
        style: BackgroundStyle,
        width: u16,
        height: u16,
        elapsed_ms: u64,
        speed: AnimationSpeed,
        metrics: Option<&SystemMetrics>,
    ) -> (frame: Vec<Vec<Cell>>)
        requires
            old(self).wf(),
        ensures
            final(self).wf(),
            style == BackgroundStyle::Off ==> frame@.len() == 0 && *final(self) == *old(self),
            style.spec_is_reactive() && metrics is None ==> frame@.len() == 0 && *final(self)
                == *old(self),
            style.spec_is_reactive() && (metrics is Some) ==> {
                let m = metrics->0;
                &&& *final(self) == *old(self)
                &&& frame@.len() == height
                &&& forall|yi: int| 0 <= yi < height ==> #[trigger] frame@[yi]@.len() == width
                &&& forall|yi: int, xi: int| 0 <= yi < height && 0 <= xi < width
                    ==> #[trigger] frame@[yi]@[xi] == Self::spec_reactive_cell(
                    style,
                    xi,
                    yi,
                    width as int,
                    height as int,
                    elapsed_ms as int,
                    speed,
                    *m,
                )
            },
            style != BackgroundStyle::Off && !style.spec_is_reactive() ==> {
                let changed = width != old(self).last_width || height != old(self).last_height;
                let delta = spec_delta_ms(elapsed_ms as int, old(self).last_update_ms as int);
                &&& final(self).last_width == width
                &&& final(self).last_height == height
                &&& final(self).last_update_ms == elapsed_ms
                &&& final(self).init_seed == old(self).init_seed
                &&& frame@.len() == height
                &&& (forall|yi: int| 0 <= yi < height ==> #[trigger] frame@[yi]@.len() == width)
                &&& (forall|yi: int, xi: int| 0 <= yi < height && 0 <= xi < width
                    ==> #[trigger] frame@[yi]@[xi] == final(self).spec_render_cell(
                    xi,
                    yi,
                    width as int,
                    height as int,
                    style,
                    elapsed_ms as int,
                    speed,
                ))
                &&& (style == BackgroundStyle::MatrixRain ==> {
                    let reinit = changed || old(self).matrix_columns@.len() == 0;
                    let dy = spec_matrix_delta_y(delta, speed);
                    &&& final(self).matrix_columns@.len() == (if reinit {
                        width as int
                    } else {
                        old(self).matrix_columns@.len() as int
                    })
                    &&& forall|i: int| 0 <= i < final(self).matrix_columns@.len()
                        ==> #[trigger] final(self).matrix_columns@[i] == spec_matrix_updated(
                        if reinit {
                            spec_matrix_init_col(i, height as int)
                        } else {
                            old(self).matrix_columns@[i]
                        },
                        dy,
                        height as int,
                    )
                })
                &&& (style != BackgroundStyle::MatrixRain ==> final(self).matrix_columns
                    == old(self).matrix_columns)
                &&& (style == BackgroundStyle::Snowfall ==> {
                    let reinit = changed || old(self).snow_columns@.len() == 0;
                    let dy = spec_snow_delta_y(delta, speed);
                    &&& final(self).snow_columns@.len() == (if reinit {
                        width as int
                    } else {
                        old(self).snow_columns@.len() as int
                    })
                    &&& forall|i: int| 0 <= i < final(self).snow_columns@.len()
                        ==> #[trigger] final(self).snow_columns@[i] == spec_snow_updated(
                        if reinit {
                            spec_snow_init_col(i, height as int, old(self).init_seed as int)
                        } else {
                            old(self).snow_columns@[i]
                        },
                        dy,
                        height as int,
                    )
                })
                &&& (style != BackgroundStyle::Snowfall ==> final(self).snow_columns == old(
                    self,
                ).snow_columns)
                &&& (style == BackgroundStyle::Rainy ==> {
                    let reinit = changed || old(self).rain_columns@.len() == 0;
                    let dy = spec_rain_delta_y(delta, speed);
                    &&& final(self).rain_columns@.len() == (if reinit {
                        width as int
                    } else {
                        old(self).rain_columns@.len() as int
                    })
                    &&& forall|i: int| 0 <= i < final(self).rain_columns@.len()
                        ==> #[trigger] final(self).rain_columns@[i] == spec_rain_updated(
                        if reinit {
                            spec_rain_init_col(i, height as int, old(self).init_seed as int)
                        } else {
                            old(self).rain_columns@[i]
                        },
                        dy,
                        height as int,
                    )
                })
                &&& (style != BackgroundStyle::Rainy ==> final(self).rain_columns == old(
                    self,
                ).rain_columns)
                &&& (style == BackgroundStyle::Windy ==> {
                    let reinit = changed || old(self).wind_streaks@.len() == 0;
                    let dxm = spec_wind_delta_x(delta, speed);
                    &&& final(self).wind_streaks@.len() == (if reinit {
                        spec_wind_streak_count(width as int, height as int)
                    } else {
                        old(self).wind_streaks@.len() as int
                    })
                    &&& forall|i: int| 0 <= i < final(self).wind_streaks@.len()
                        ==> #[trigger] final(self).wind_streaks@[i] == spec_wind_updated(
                        if reinit {
                            spec_wind_init_streak(
                                i,
                                width as int,
                                height as int,
                                old(self).init_seed as int,
                            )
                        } else {
                            old(self).wind_streaks@[i]
                        },
                        dxm,
                        width as int,
                        height as int,
                    )
                })
                &&& (style != BackgroundStyle::Windy ==> final(self).wind_streaks == old(
                    self,
                ).wind_streaks)
                &&& (style == BackgroundStyle::Stormy ==> (final(self).storm_state is Some)
                    && {
                    let st = final(self).storm_state->0;
                    let reinit = changed || old(self).storm_state is None;
                    let dy = spec_rain_delta_y(delta, speed);
                    let seed = old(self).init_seed as int;
                    &&& st.rain_columns@.len() == (if reinit {
                        width as int
                    } else {
                        old(self).storm_state->0.rain_columns@.len() as int
                    })
                    &&& forall|i: int| 0 <= i < st.rain_columns@.len()
                        ==> #[trigger] st.rain_columns@[i] == spec_rain_updated(
                        if reinit {
                            spec_rain_init_col(i, height as int, seed)
                        } else {
                            old(self).storm_state->0.rain_columns@[i]
                        },
                        dy,
                        height as int,
                    )
                    &&& (
                    st.last_lightning_ms as int,
                    st.lightning_duration_ms as int,
                    st.next_lightning_interval as int,
                    st.flash_intensity as int,
                    st.lightning_seed as int,
                    ) == (if reinit {
                        spec_storm_flash(
                            0,
                            0,
                            2000 + seed % 3000,
                            0,
                            seed,
                            elapsed_ms as int,
                            speed,
                        )
                    } else {
                        spec_storm_flash(
                            old(self).storm_state->0.last_lightning_ms as int,
                            old(self).storm_state->0.lightning_duration_ms as int,
                            old(self).storm_state->0.next_lightning_interval as int,
                            old(self).storm_state->0.flash_intensity as int,
                            old(self).storm_state->0.lightning_seed as int,
                            elapsed_ms as int,
                            speed,
                        )
                    })
                })
                &&& (style != BackgroundStyle::Stormy ==> final(self).storm_state == old(
                    self,
                ).storm_state)
            },
    {
        if matches!(style, BackgroundStyle::Off) {
            return Vec::new();
        }
        if style.is_reactive() {
            match metrics {
                Some(m) => {
                    return self.render_reactive(style, width, height, elapsed_ms, speed, m);
                },
                None => {
                    return Vec::new();
                },
            }
        }

        let changed = width != self.last_width || height != self.last_height;

        if style == BackgroundStyle::MatrixRain && (changed || self.matrix_columns.len() == 0) {
            self.matrix_columns = crate::matrix::init_columns(width, height);
        }
        if style == BackgroundStyle::Snowfall && (changed || self.snow_columns.len() == 0) {
            self.snow_columns = init_snow_columns(width, height, self.init_seed);
        }
        if style == BackgroundStyle::Rainy && (changed || self.rain_columns.len() == 0) {
            self.rain_columns = init_rain_columns(width, height, self.init_seed);
        }
        if style == BackgroundStyle::Stormy && (changed || self.storm_state.is_none()) {
            self.storm_state = Some(init_storm(width, height, self.init_seed));
        }
        if style == BackgroundStyle::Windy && (changed || self.wind_streaks.len() == 0) {
            self.wind_streaks = init_wind_streaks(width, height, self.init_seed);
        }

        self.last_width = width;
        self.last_height = height;

        let delta_ms = if elapsed_ms >= self.last_update_ms {
            elapsed_ms - self.last_update_ms
        } else {
            0
        };
        self.last_update_ms = elapsed_ms;

        if style == BackgroundStyle::MatrixRain {
            crate::matrix::update(&mut self.matrix_columns, delta_ms, height, speed);
        }
        if style == BackgroundStyle::Snowfall {
            update_snow(&mut self.snow_columns, delta_ms, height, speed);
        }
        if style == BackgroundStyle::Rainy {
            update_rain(&mut self.rain_columns, delta_ms, height, speed);
        }
        if style == BackgroundStyle::Stormy {
            match &mut self.storm_state {
                Some(st) => {
                    update_storm(st, elapsed_ms, delta_ms, height, speed);
                },
                None => {},
            }
        }
        if style == BackgroundStyle::Windy {
            update_wind(&mut self.wind_streaks, delta_ms, width, height, speed);
        }

        let mut frame: Vec<Vec<Cell>> = Vec::new();
        for y in 0..height
            invariant
                self.wf(),
                frame@.len() == y,
                forall|yi: int| 0 <= yi < y ==> #[trigger] frame@[yi]@.len() == width,
                forall|yi: int, xi: int| 0 <= yi < y && 0 <= xi < width
                    ==> #[trigger] frame@[yi]@[xi] == self.spec_render_cell(
                    xi,
                    yi,
                    width as int,
                    height as int,
                    style,
                    elapsed_ms as int,
                    speed,
                ),
        {
            let mut row: Vec<Cell> = Vec::new();
            for x in 0..width
                invariant
                    self.wf(),
                    row@.len() == x,
                    forall|xi: int| 0 <= xi < x ==> #[trigger] row@[xi] == self.spec_render_cell(
                        xi,
                        y as int,
                        width as int,
                        height as int,
                        style,
                        elapsed_ms as int,
                        speed,
                    ),
            {
                let c = self.render_char(x, y, width, height, style, elapsed_ms, speed);
                row.push(c);
            }
            frame.push(row);
        }
        frame
    }
}

impl Default for BackgroundState {
    /// The state a run starts from when no seed is supplied: everything
    /// empty, seed zero.
    fn default() -> (s: Self)
        ensures
            s.wf(),
            s.matrix_columns@.len() == 0,
            s.snow_columns@.len() == 0,
            s.rain_columns@.len() == 0,
            s.storm_state is None,
            s.wind_streaks@.len() == 0,
            s.last_width == 0,
            s.last_height == 0,
            s.last_update_ms == 0,
            s.init_seed == 0,
    {
        BackgroundState::new(0)
    }
}

} // verus!
