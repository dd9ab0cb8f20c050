//! Core value types shared by the whole engine: animation speed with its
//! per-effect timing table, the background style selector, time of day,
//! the per-cell output, and the system-metrics snapshot that drives the
//! reactive effects.

use vstd::prelude::*;
use crate::color::Rgb;

verus! {

/// What one terminal cell shows: nothing, or a glyph with a color.
#[derive(Clone, Copy, PartialEq, Eq, Structural, Debug)]
pub enum Cell {
    Blank,
    Glyph(char, Rgb),
}

/// Global animation speed selected by the host.
#[derive(Clone, Copy, PartialEq, Eq, Structural, Debug)]
pub enum AnimationSpeed {
    Slow,
    Medium,
    Fast,
}

/// The active background effect.  Exactly one is active at a time.
#[derive(Clone, Copy, PartialEq, Eq, Structural, Debug)]
pub enum BackgroundStyle {
    Off,
    Starfield,
    MatrixRain,
    GradientWave,
    Snowfall,
    Frost,
    Aurora,
    Sunny,
    Rainy,
    Stormy,
    Windy,
    Cloudy,
    Foggy,
    TwilightDawn,
    TwilightDusk,
    SystemPulse,
    ResourceWave,
    DataFlow,
    HeatMap,
}

/// Rough phase of the day, derived from sunrise and sunset.
#[derive(Clone, Copy, PartialEq, Eq, Structural, Debug)]
pub enum TimeOfDay {
    Day,
    Night,
    Dawn,
    Dusk,
}

impl BackgroundStyle {
    /// Whether the style is driven by system metrics rather than by time
    /// and position alone.
    pub open spec fn spec_is_reactive(self) -> bool {
        self == BackgroundStyle::SystemPulse || self == BackgroundStyle::ResourceWave
            || self == BackgroundStyle::DataFlow || self == BackgroundStyle::HeatMap
    }

    pub fn is_reactive(&self) -> (r: bool)
        ensures
            r == self.spec_is_reactive(),
    {
        match self {
            BackgroundStyle::SystemPulse => true,
            BackgroundStyle::ResourceWave => true,
            BackgroundStyle::DataFlow => true,
            BackgroundStyle::HeatMap => true,
            _ => false,
        }
    }
}

impl AnimationSpeed {
    /// Fall speed of matrix rain, in milli-cells per 50 ms.
    pub open spec fn spec_matrix_fall_speed(self) -> int {
        match self {
            AnimationSpeed::Slow => 500,
            AnimationSpeed::Medium => 1000,
            AnimationSpeed::Fast => 2000,
        }
    }

    pub fn matrix_fall_speed(&self) -> (r: u64)
        ensures
            r == self.spec_matrix_fall_speed(),
            500 <= r <= 2000,
    {
        match self {
            AnimationSpeed::Slow => 500,
            AnimationSpeed::Medium => 1000,
            AnimationSpeed::Fast => 2000,
        }
    }

    /// Fall speed of snowfall, in milli-cells per 80 ms.
    pub open spec fn spec_snow_fall_speed(self) -> int {
        match self {
            AnimationSpeed::Slow => 500,
            AnimationSpeed::Medium => 1000,
            AnimationSpeed::Fast => 2000,
        }
    }

    pub fn snow_fall_speed(&self) -> (r: u64)
        ensures
            r == self.spec_snow_fall_speed(),
            500 <= r <= 2000,
    {
        match self {
            AnimationSpeed::Slow => 500,
            AnimationSpeed::Medium => 1000,
            AnimationSpeed::Fast => 2000,
        }
    }

    /// Fall speed of rain, in milli-cells per 40 ms.
    pub open spec fn spec_rain_fall_speed(self) -> int {
        match self {
            AnimationSpeed::Slow => 500,
            AnimationSpeed::Medium => 1000,
            AnimationSpeed::Fast => 2000,
        }
    }

    pub fn rain_fall_speed(&self) -> (r: u64)
        ensures
            r == self.spec_rain_fall_speed(),
            500 <= r <= 2000,
    {
        match self {
            AnimationSpeed::Slow => 500,
            AnimationSpeed::Medium => 1000,
            AnimationSpeed::Fast => 2000,
        }
    }

    /// Travel speed of wind streaks, in milli-cells per 30 ms.
    pub open spec fn spec_wind_streak_speed(self) -> int {
        match self {
            AnimationSpeed::Slow => 500,
            AnimationSpeed::Medium => 1000,
            AnimationSpeed::Fast => 2000,
        }
    }

    pub fn wind_streak_speed(&self) -> (r: u64)
        ensures
            r == self.spec_wind_streak_speed(),
            500 <= r <= 2000,
    {
        match self {
            AnimationSpeed::Slow => 500,
            AnimationSpeed::Medium => 1000,
            AnimationSpeed::Fast => 2000,
        }
    }

    /// Period of one starfield twinkle frame, in milliseconds.
    pub open spec fn spec_star_twinkle_period_ms(self) -> int {
        match self {
            AnimationSpeed::Slow => 1500,
            AnimationSpeed::Medium => 1000,
            AnimationSpeed::Fast => 500,
        }
    }

    pub fn star_twinkle_period_ms(&self) -> (r: u64)
        ensures
            r == self.spec_star_twinkle_period_ms(),
            500 <= r <= 1500,
    {
        match self {
            AnimationSpeed::Slow => 1500,
            AnimationSpeed::Medium => 1000,
            AnimationSpeed::Fast => 500,
        }
    }

    /// Period of one gradient-wave scroll, in milliseconds.
    pub open spec fn spec_gradient_scroll_period_ms(self) -> int {
        match self {
            AnimationSpeed::Slow => 15000,
            AnimationSpeed::Medium => 10000,
            AnimationSpeed::Fast => 5000,
        }
    }

    pub fn gradient_scroll_period_ms(&self) -> (r: u64)
        ensures
            r == self.spec_gradient_scroll_period_ms(),
            5000 <= r <= 15000,
    {
        match self {
            AnimationSpeed::Slow => 15000,
            AnimationSpeed::Medium => 10000,
            AnimationSpeed::Fast => 5000,
        }
    }

    /// Period of one frost growth cycle, in milliseconds.
    pub open spec fn spec_frost_growth_period_ms(self) -> int {
        match self {
            AnimationSpeed::Slow => 20000,
            AnimationSpeed::Medium => 10000,
            AnimationSpeed::Fast => 5000,
        }
    }

    pub fn frost_growth_period_ms(&self) -> (r: u64)
        ensures
            r == self.spec_frost_growth_period_ms(),
            5000 <= r <= 20000,
    {
        match self {
            AnimationSpeed::Slow => 20000,
            AnimationSpeed::Medium => 10000,
            AnimationSpeed::Fast => 5000,
        }
    }

    /// Period of one aurora wave sweep, in milliseconds.
    pub open spec fn spec_aurora_wave_period_ms(self) -> int {
        match self {
            AnimationSpeed::Slow => 12000,
            AnimationSpeed::Medium => 8000,
            AnimationSpeed::Fast => 4000,
        }
    }

    pub fn aurora_wave_period_ms(&self) -> (r: u64)
        ensures
            r == self.spec_aurora_wave_period_ms(),
            4000 <= r <= 12000,
    {
        match self {
            AnimationSpeed::Slow => 12000,
            AnimationSpeed::Medium => 8000,
            AnimationSpeed::Fast => 4000,
        }
    }

    /// Period of the resource wave, in milliseconds.
    pub open spec fn spec_wave_period_ms(self) -> int {
        match self {
            AnimationSpeed::Slow => 6000,
            AnimationSpeed::Medium => 4000,
            AnimationSpeed::Fast => 2000,
        }
    }

    pub fn wave_period_ms(&self) -> (r: u64)
        ensures
            r == self.spec_wave_period_ms(),
            2000 <= r <= 6000,
    {
        match self {
            AnimationSpeed::Slow => 6000,
            AnimationSpeed::Medium => 4000,
            AnimationSpeed::Fast => 2000,
        }
    }

    /// Period of one sun shimmer revolution, in milliseconds.
    pub open spec fn spec_sun_shimmer_period_ms(self) -> int {
        match self {
            AnimationSpeed::Slow => 12000,
            AnimationSpeed::Medium => 8000,
            AnimationSpeed::Fast => 4000,
        }
    }

    pub fn sun_shimmer_period_ms(&self) -> (r: u64)
        ensures
            r == self.spec_sun_shimmer_period_ms(),
            4000 <= r <= 12000,
    {
        match self {
            AnimationSpeed::Slow => 12000,
            AnimationSpeed::Medium => 8000,
            AnimationSpeed::Fast => 4000,
        }
    }

    /// Period of one cloud drift cycle, in milliseconds.
    pub open spec fn spec_cloud_drift_period_ms(self) -> int {
        match self {
            AnimationSpeed::Slow => 30000,
            AnimationSpeed::Medium => 20000,
            AnimationSpeed::Fast => 10000,
        }
    }

    pub fn cloud_drift_period_ms(&self) -> (r: u64)
        ensures
            r == self.spec_cloud_drift_period_ms(),
            10000 <= r <= 30000,
    {
        match self {
            AnimationSpeed::Slow => 30000,
            AnimationSpeed::Medium => 20000,
            AnimationSpeed::Fast => 10000,
        }
    }

    /// Period of one fog pulse, in milliseconds.
    pub open spec fn spec_fog_pulse_period_ms(self) -> int {
        match self {
            AnimationSpeed::Slow => 10000,
            AnimationSpeed::Medium => 8000,
            AnimationSpeed::Fast => 4000,
        }
    }

    pub fn fog_pulse_period_ms(&self) -> (r: u64)
        ensures
            r == self.spec_fog_pulse_period_ms(),
            4000 <= r <= 10000,
    {
        match self {
            AnimationSpeed::Slow => 10000,
            AnimationSpeed::Medium => 8000,
            AnimationSpeed::Fast => 4000,
        }
    }

    /// The bounds, in milliseconds, that the next lightning interval is
    /// drawn from.  The upper bound is strictly above the lower one.
    pub open spec fn spec_lightning_interval_ms(self) -> (int, int) {
        match self {
            AnimationSpeed::Slow => (8000, 15000),
            AnimationSpeed::Medium => (5000, 10000),
            AnimationSpeed::Fast => (3000, 7000),
        }
    }

    pub fn lightning_interval_ms(&self) -> (r: (u64, u64))
        ensures
            (r.0 as int, r.1 as int) == self.spec_lightning_interval_ms(),
            3000 <= r.0 < r.1 <= 15000,
    {
        match self {
            AnimationSpeed::Slow => (8000, 15000),
            AnimationSpeed::Medium => (5000, 10000),
            AnimationSpeed::Fast => (3000, 7000),
        }
    }
}

/// A snapshot of system resource readings, each normalized to thousandths
/// of full use.  Produced outside the engine; the engine only reads it.
#[derive(Clone, Copy, PartialEq, Eq, Structural, Debug)]
pub struct SystemMetrics {
    /// CPU usage in thousandths.
    pub cpu_usage: u32,
    /// Memory usage in thousandths.
    pub memory_usage: u32,
    /// Network receive rate in thousandths of the observed maximum.
    pub network_rx_rate: u32,
    /// Network transmit rate in thousandths of the observed maximum.
    pub network_tx_rate: u32,
    /// Disk read rate in thousandths.
    pub disk_read_rate: u32,
    /// Disk write rate in thousandths.
    pub disk_write_rate: u32,
    /// Battery level in thousandths, `None` without a battery.
    pub battery_level: Option<u32>,
    /// Whether the battery is charging, `None` without a battery.
    pub battery_charging: Option<bool>,
}

impl Default for SystemMetrics {
    /// An all-idle snapshot, used until a first real reading arrives.
    fn default() -> (r: Self)
        ensures
            r.cpu_usage == 0,
            r.memory_usage == 0,
            r.network_rx_rate == 0,
            r.network_tx_rate == 0,
            r.disk_read_rate == 0,
            r.disk_write_rate == 0,
            r.battery_level is None,
            r.battery_charging is None,
    {
        SystemMetrics {
            cpu_usage: 0,
            memory_usage: 0,
            network_rx_rate: 0,
            network_tx_rate: 0,
            disk_read_rate: 0,
            disk_write_rate: 0,
            battery_level: None,
            battery_charging: None,
        }
    }
}

} // verus!
