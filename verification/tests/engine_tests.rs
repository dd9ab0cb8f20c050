//! Tests for the animation engine: the fixed-point primitives, the
//! stateless renderers, the stateful animators with their wraparound, the
//! storm flash cycle, the reactive frames, and the orchestrator.

use sigye::chars::{matrix_char, star_char};
use sigye::color::Rgb;
use sigye::fixed::{angle_milli, isqrt, sin_milli};
use sigye::matrix::{init_columns, render_char, update, MatrixColumn};
use sigye::model::{AnimationSpeed, BackgroundStyle, Cell, SystemMetrics};
use sigye::reactive::{render_data_flow, render_heat_map, render_resource_wave,
    render_system_pulse};
use sigye::snow;
use sigye::state::BackgroundState;
use sigye::stateless::{render_aurora_char, render_frost_char, render_gradient_char,
    render_starfield_char, render_twilight_dawn_char, render_twilight_dusk_char};
use sigye::weather::{init_rain_columns, init_storm, render_cloudy_char, render_rain_char,
    render_sunny_char, render_wind_char, update_rain, update_storm, WindStreak};
use sigye::metrics::{cpu_fraction, mem_fraction, normalize_rate, rate_per_sec, update_max_rate};

const ALL_STYLES: [BackgroundStyle; 19] = [
    BackgroundStyle::Off,
    BackgroundStyle::Starfield,
    BackgroundStyle::MatrixRain,
    BackgroundStyle::GradientWave,
    BackgroundStyle::Snowfall,
    BackgroundStyle::Frost,
    BackgroundStyle::Aurora,
    BackgroundStyle::Sunny,
    BackgroundStyle::Rainy,
    BackgroundStyle::Stormy,
    BackgroundStyle::Windy,
    BackgroundStyle::Cloudy,
    BackgroundStyle::Foggy,
    BackgroundStyle::TwilightDawn,
    BackgroundStyle::TwilightDusk,
    BackgroundStyle::SystemPulse,
    BackgroundStyle::ResourceWave,
    BackgroundStyle::DataFlow,
    BackgroundStyle::HeatMap,
];

#[test]
fn test_sin_milli_quarter_points() {
    assert_eq!(sin_milli(0), 0);
    assert_eq!(sin_milli(250), 1000);
    assert_eq!(sin_milli(500), 0);
    assert_eq!(sin_milli(750), -1000);
    assert_eq!(sin_milli(1000), 0);
    // the eighth-turn value of the rational approximation
    assert_eq!(sin_milli(125), 705);
    assert_eq!(sin_milli(875), -705);
}

#[test]
fn test_isqrt_values() {
    assert_eq!(isqrt(0), 0);
    assert_eq!(isqrt(1), 1);
    assert_eq!(isqrt(2), 1);
    assert_eq!(isqrt(1_000_000), 1000);
    assert_eq!(isqrt(999_999), 999);
    assert_eq!(isqrt(u64::MAX), 0xFFFF_FFFF);
}

#[test]
fn test_angle_milli_axes() {
    assert_eq!(angle_milli(1, 0), 0);
    assert_eq!(angle_milli(0, 5), 250);
    assert_eq!(angle_milli(-3, 0), 500);
    assert_eq!(angle_milli(0, -2), 750);
    assert_eq!(angle_milli(0, 0), 0);
}

#[test]
fn test_starfield_origin_cell() {
    // hash seed 0*31 + 0*17 + 0 = 0; 0 % 100 = 0 < 3, so a star shows,
    // at brightness tier 0 % 3 = 0: the dim color
    let c = render_starfield_char(0, 0, 0, AnimationSpeed::Medium);
    assert_eq!(c, Cell::Glyph('.', Rgb { r: 60, g: 60, b: 80 }));
    assert_eq!(star_char(0), '.');
    // the next cell over hashes to 31, which is no star
    assert_eq!(render_starfield_char(1, 0, 0, AnimationSpeed::Medium), Cell::Blank);
}

#[test]
fn test_stateless_renderers_deterministic() {
    for x in 0..6u16 {
        for y in 0..4u16 {
            let t = 12_345u64;
            let s = AnimationSpeed::Fast;
            assert_eq!(
                render_starfield_char(x, y, t, s),
                render_starfield_char(x, y, t, s)
            );
            assert_eq!(
                render_gradient_char(x, y, 6, 4, t, s),
                render_gradient_char(x, y, 6, 4, t, s)
            );
            assert_eq!(
                render_frost_char(x, y, 6, 4, t, s),
                render_frost_char(x, y, 6, 4, t, s)
            );
            assert_eq!(
                render_aurora_char(x, y, 6, 4, t, s),
                render_aurora_char(x, y, 6, 4, t, s)
            );
            assert_eq!(
                render_sunny_char(x, y, 6, 4, t, s),
                render_sunny_char(x, y, 6, 4, t, s)
            );
            assert_eq!(
                render_twilight_dawn_char(x, y, 6, 4, t, s),
                render_twilight_dawn_char(x, y, 6, 4, t, s)
            );
            assert_eq!(
                render_twilight_dusk_char(x, y, 6, 4, t, s),
                render_twilight_dusk_char(x, y, 6, 4, t, s)
            );
        }
    }
}

#[test]
fn test_matrix_init_staggers() {
    // stagger = (x*7 + 3) % (height*2)
    let cols = init_columns(3, 5);
    assert_eq!(cols.len(), 3);
    assert_eq!(cols[0].y, -3_000); // (0*7+3) % 10 = 3
    assert_eq!(cols[1].y, 0); // (1*7+3) % 10 = 0
    assert_eq!(cols[2].y, -7_000); // (2*7+3) % 10 = 7
    assert_eq!(cols[0].trail_length, 4);
    assert_eq!(cols[1].trail_length, 7); // 4 + 11 % 8
    assert_eq!(cols[0].speed, 300);
    assert_eq!(cols[0].char_seed, 0);
    assert_eq!(cols[1].char_seed, 17);
}

#[test]
fn test_matrix_wraparound() {
    // a column at 24 cells with a 5-cell trail on a 20-row screen,
    // advanced by 10 cells, must reset to -5 cells (off screen above)
    let mut cols = vec![MatrixColumn { y: 24_000, speed: 500, trail_length: 5, char_seed: 9 }];
    // Medium fall speed: delta_y = 1000ms/50 * 1000 = 20 cells of field
    // motion, scaled by the column's 0.5 multiplier = 10 cells
    update(&mut cols, 1000, 20, AnimationSpeed::Medium);
    assert_eq!(cols[0].y, -5_000);
    assert!(cols[0].y < 0);
    assert_eq!(cols[0].char_seed, 10);
}

#[test]
fn test_matrix_plain_advance() {
    let mut cols = vec![MatrixColumn { y: 0, speed: 500, trail_length: 5, char_seed: 0 }];
    update(&mut cols, 100, 20, AnimationSpeed::Medium);
    // 100ms/50 * 1000 milli * 0.5 = 1 cell
    assert_eq!(cols[0].y, 1_000);
    assert_eq!(cols[0].char_seed, 0);
}

#[test]
fn test_matrix_render_head_and_blank() {
    let cols = init_columns(3, 5);
    // column 1 head sits at row 0
    let head = render_char(&cols, 1, 0);
    assert_eq!(head, Cell::Glyph(matrix_char(17), Rgb { r: 200, g: 255, b: 200 }));
    // far outside any trail
    assert_eq!(render_char(&cols, 0, 4), Cell::Blank);
    // x beyond the columns renders blank
    assert_eq!(render_char(&cols, 9, 0), Cell::Blank);
}

#[test]
fn test_snow_wraparound() {
    let mut cols = vec![snow::SnowColumn {
        y: 2_000,
        speed: 500,
        drift_phase: 0,
        size: 1,
        char_seed: 3,
    }];
    // 3200ms/80 * 1000 * 0.5 = 20 cells: passes height 10 plus 2
    snow::update(&mut cols, 3200, 10, AnimationSpeed::Medium);
    assert_eq!(cols[0].y, -2_000);
    assert_eq!(cols[0].char_seed, 4);
}

#[test]
fn test_rain_wraparound() {
    let mut cols = init_rain_columns(1, 4, 0);
    // push far past the bottom: delta capped but ample
    update_rain(&mut cols, 1_000_000, 4, AnimationSpeed::Fast);
    assert_eq!(cols[0].y, -1_000);
}

#[test]
fn test_storm_flash_cycle() {
    // with a fixed seed, stepping the storm forward must eventually
    // fire a flash, decay it to exactly zero, and never overlap flashes
    let mut storm = init_storm(4, 6, 1);
    assert_eq!(storm.flash_intensity, 0);
    assert_eq!(storm.next_lightning_interval, 2001);
    let mut fired = 0u32;
    let mut returned_to_zero = 0u32;
    let mut prev_intensity = 0u32;
    let mut prev_duration = 0u64;
    for step in 1..400u64 {
        let t = step * 50;
        update_storm(&mut storm, t, 50, 6, AnimationSpeed::Fast);
        if prev_intensity == 0 && storm.flash_intensity > 0 {
            // a new flash starts only from calm, at full intensity
            assert_eq!(prev_duration, 0);
            assert_eq!(storm.flash_intensity, 1000);
            fired += 1;
        }
        if prev_duration > 0 && storm.lightning_duration_ms == prev_duration {
            // within one flash the intensity only decays
            assert!(storm.flash_intensity <= prev_intensity);
        }
        if prev_duration > 0 && storm.lightning_duration_ms == 0 {
            // the flash ended with intensity exactly zero
            assert_eq!(storm.flash_intensity, 0);
            returned_to_zero += 1;
        }
        assert!(storm.flash_intensity <= 1000);
        prev_intensity = storm.flash_intensity;
        prev_duration = storm.lightning_duration_ms;
    }
    assert!(fired >= 1);
    assert!(returned_to_zero >= 1);
}

#[test]
fn test_rain_render_hit_and_miss() {
    let cols = init_rain_columns(2, 4, 0);
    // column 0 with seed 0: stagger = 0, so the drop sits at row 0
    let hit = render_rain_char(&cols, 0, 0);
    assert!(matches!(hit, Cell::Glyph(_, _)));
    assert_eq!(render_rain_char(&cols, 0, 3), Cell::Blank);
    assert_eq!(render_rain_char(&cols, 7, 0), Cell::Blank);
}

#[test]
fn test_reactive_frames_have_grid_shape() {
    let m = SystemMetrics::default();
    for (w, h) in [(0u16, 0u16), (1, 1), (5, 3)] {
        for frame in [
            render_system_pulse(w, h, 500, AnimationSpeed::Medium, &m),
            render_resource_wave(w, h, 500, AnimationSpeed::Medium, &m),
            render_data_flow(w, h, 500, AnimationSpeed::Medium, &m),
            render_heat_map(w, h, 500, AnimationSpeed::Medium, &m),
        ] {
            assert_eq!(frame.len(), h as usize);
            for row in &frame {
                assert_eq!(row.len(), w as usize);
            }
        }
    }
}

#[test]
fn test_data_flow_idle_origin_blank() {
    // with zero network traffic at t=0, the origin's phase is 0, far
    // below the 95-point visibility threshold
    let m = SystemMetrics::default();
    let frame = render_data_flow(2, 2, 0, AnimationSpeed::Medium, &m);
    assert_eq!(frame[0][0], Cell::Blank);
}

#[test]
fn test_orchestrator_never_panics_on_any_style() {
    for style in ALL_STYLES {
        for (w, h) in [(0u16, 0u16), (0, 2), (2, 0), (1, 1), (4, 3)] {
            let mut bg = BackgroundState::new(7);
            let m = SystemMetrics::default();
            for (t, metrics) in [(0u64, None), (100, Some(&m)), (250, Some(&m))] {
                let frame = bg.render(style, w, h, t, AnimationSpeed::Medium, metrics);
                for row in &frame {
                    for cell in row {
                        // every drawn cell is a glyph or an explicit blank
                        match cell {
                            Cell::Blank => {}
                            Cell::Glyph(_, _) => {}
                        }
                    }
                }
            }
        }
    }
}

#[test]
fn test_orchestrator_matrix_frame() {
    let mut bg = BackgroundState::new(0);
    let frame = bg.render(
        BackgroundStyle::MatrixRain,
        3,
        5,
        0,
        AnimationSpeed::Medium,
        None,
    );
    assert_eq!(frame.len(), 5);
    assert_eq!(frame[0].len(), 3);
    assert_eq!(bg.matrix_columns.len(), 3);
    assert_eq!(bg.last_width, 3);
    assert_eq!(bg.last_height, 5);
    // column 1 starts with its head on row 0 and has not moved at t=0
    assert_eq!(
        frame[0][1],
        Cell::Glyph(matrix_char(17), Rgb { r: 200, g: 255, b: 200 })
    );
}

#[test]
fn test_orchestrator_reinitializes_on_resize() {
    let mut bg = BackgroundState::new(0);
    bg.render(BackgroundStyle::MatrixRain, 3, 5, 0, AnimationSpeed::Medium, None);
    assert_eq!(bg.matrix_columns.len(), 3);
    bg.render(BackgroundStyle::MatrixRain, 8, 5, 100, AnimationSpeed::Medium, None);
    assert_eq!(bg.matrix_columns.len(), 8);
    assert_eq!(bg.last_width, 8);
}

#[test]
fn test_orchestrator_off_and_reactive_without_metrics() {
    let mut bg = BackgroundState::new(0);
    assert!(bg
        .render(BackgroundStyle::Off, 4, 4, 10, AnimationSpeed::Slow, None)
        .is_empty());
    assert!(bg
        .render(BackgroundStyle::HeatMap, 4, 4, 10, AnimationSpeed::Slow, None)
        .is_empty());
    // reactive rendering leaves the stateful animators untouched
    let m = SystemMetrics::default();
    let frame = bg.render(BackgroundStyle::SystemPulse, 4, 4, 10, AnimationSpeed::Slow, Some(&m));
    assert_eq!(frame.len(), 4);
    assert_eq!(bg.matrix_columns.len(), 0);
    assert_eq!(bg.last_update_ms, 0);
}

#[test]
fn test_metrics_default() {
    let metrics = SystemMetrics::default();
    assert_eq!(metrics.cpu_usage, 0);
    assert_eq!(metrics.memory_usage, 0);
    assert!(metrics.battery_level.is_none());
}

#[test]
fn test_monitor_math() {
    assert_eq!(cpu_fraction(2000, 4), 500);
    assert_eq!(cpu_fraction(9_999_999, 1), 1000); // clamped
    assert_eq!(cpu_fraction(500, 0), 500); // zero cores count as one
    assert_eq!(mem_fraction(1, 2), 500);
    assert_eq!(mem_fraction(5, 0), 0);
    assert_eq!(mem_fraction(3, 2), 1000); // clamped
    assert_eq!(rate_per_sec(1000, 500), 2000);
    assert_eq!(rate_per_sec(1000, 0), 1_000_000);
    assert_eq!(update_max_rate(0, 0), 1_000_000); // the floor
    assert_eq!(update_max_rate(2_000_000, 3_000_000), 3_000_000);
    assert_eq!(normalize_rate(500_000, 1_000_000), 500);
    assert_eq!(normalize_rate(2_000_000, 1_000_000), 1000); // clamped
}

#[test]
fn test_gradient_origin_exact() {
    // at the origin at time zero the wave is at its midpoint: the middle
    // density glyph in a dark red from hue zero
    let c = render_gradient_char(0, 0, 10, 10, 0, AnimationSpeed::Medium);
    assert_eq!(c, Cell::Glyph('▒', Rgb { r: 108, g: 19, b: 19 }));
}

#[test]
fn test_frost_corner_exact() {
    // the corner cell is on the frost edge: the brightest band, dimmed by
    // the shimmer at time zero
    let c = render_frost_char(0, 0, 10, 10, 0, AnimationSpeed::Medium);
    assert_eq!(c, Cell::Glyph('·', Rgb { r: 170, g: 195, b: 216 }));
}

#[test]
fn test_aurora_top_left_exact() {
    // at the top of the screen the curtain is undamped and the color
    // phase starts in the green band
    let c = render_aurora_char(0, 0, 10, 10, 0, AnimationSpeed::Medium);
    assert_eq!(c, Cell::Glyph('▓', Rgb { r: 50, g: 127, b: 80 }));
}

#[test]
fn test_twilight_rows_exact() {
    // dawn keeps a fading star in the top sky band
    let dawn = render_twilight_dawn_char(0, 0, 10, 10, 0, AnimationSpeed::Medium);
    assert_eq!(dawn, Cell::Glyph('·', Rgb { r: 27, g: 36, b: 92 }));
    // dusk opens with a bright emerging star on the deep purple band
    let dusk = render_twilight_dusk_char(0, 0, 10, 10, 0, AnimationSpeed::Medium);
    assert_eq!(dusk, Cell::Glyph('✦', Rgb { r: 47, g: 28, b: 84 }));
}

#[test]
fn test_cloudy_origin_exact() {
    let c = render_cloudy_char(0, 0, 4, 4, 0, AnimationSpeed::Medium);
    assert_eq!(c, Cell::Glyph('▒', Rgb { r: 155, g: 160, b: 165 }));
}

#[test]
fn test_wind_streak_head_exact() {
    let streaks = vec![WindStreak { x: 2000, y: 1, speed: 1000, length: 4, char_seed: 0 }];
    // the head of the streak at its own row: full intensity with the
    // time-zero shimmer on the red channel
    let c = render_wind_char(&streaks, 2, 1, 0);
    assert_eq!(c, Cell::Glyph('~', Rgb { r: 156, g: 150, b: 160 }));
    // other rows and columns outside the streak are blank
    assert_eq!(render_wind_char(&streaks, 2, 0, 0), Cell::Blank);
    assert_eq!(render_wind_char(&streaks, 7, 1, 0), Cell::Blank);
}

#[test]
fn test_pulse_center_exact() {
    // an idle CPU at the quarter-period peak: a faint pulse at the center
    let m = SystemMetrics::default();
    let frame = render_system_pulse(3, 3, 500, AnimationSpeed::Medium, &m);
    assert_eq!(frame[1][1], Cell::Glyph('░', Rgb { r: 15, g: 15, b: 61 }));
}
