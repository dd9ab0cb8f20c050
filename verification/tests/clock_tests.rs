//! Tests for the clock state machine and the large glyph-art time display.

use sigye::clock::{App, ColorTheme, TimeFormat};
use sigye::fonts::build_time_art;

#[test]
fn test_time_format_toggle() {
    assert_eq!(TimeFormat::TwentyFourHour.toggle(), TimeFormat::TwelveHour);
    assert_eq!(TimeFormat::TwelveHour.toggle(), TimeFormat::TwentyFourHour);
    // toggling twice returns to the start
    let f = TimeFormat::TwelveHour;
    assert_eq!(f.toggle().toggle(), f);
}

#[test]
fn test_color_theme_cycles_through_all() {
    let start = ColorTheme::Cyan;
    let mut t = start;
    let mut seen = Vec::new();
    for _ in 0..7 {
        seen.push(t);
        t = t.next();
    }
    assert_eq!(t, start);
    for a in 0..7 {
        for b in 0..7 {
            if a != b {
                assert_ne!(seen[a], seen[b]);
            }
        }
    }
}

#[test]
fn test_app_transitions() {
    let mut app = App::new();
    assert!(!app.running);
    app.start();
    assert!(app.running);
    assert_eq!(app.time_format, TimeFormat::TwentyFourHour);
    app.toggle_time_format();
    assert_eq!(app.time_format, TimeFormat::TwelveHour);
    assert_eq!(app.color_theme, ColorTheme::Cyan);
    app.cycle_color_theme();
    assert_eq!(app.color_theme, ColorTheme::Green);
    app.quit();
    assert!(!app.running);
    assert_eq!(app.time_format, TimeFormat::TwelveHour);
}

#[test]
fn test_build_time_art_shape() {
    let lines = build_time_art(TimeFormat::TwentyFourHour, 12, 34, 56, false);
    assert_eq!(lines.len(), 7);
    // six digits of width 6, two colons of width 2, seven separators
    let width = 6 * 6 + 2 * 2 + 7;
    for line in &lines {
        assert_eq!(line.chars().count(), width);
    }
    // the 12-hour format appends two spaces and the two marker letters
    let lines12 = build_time_art(TimeFormat::TwelveHour, 11, 22, 33, true);
    for line in &lines12 {
        assert_eq!(line.chars().count(), width + 2 + 6 + 7);
    }
}

#[test]
fn test_build_time_art_first_row() {
    let lines = build_time_art(TimeFormat::TwentyFourHour, 12, 34, 56, false);
    let expected = format!(
        "{} {} {} {} {} {} {} {}",
        "  ██  ", " ████ ", "  ", " ████ ", "██  ██", "  ", "██████", " ████ "
    );
    assert_eq!(lines[0], expected);
}

#[test]
fn test_app_build_time_art_follows_format() {
    let mut app = App::new();
    let t24 = app.build_time_art(6, 30, 0, false);
    app.toggle_time_format();
    let t12 = app.build_time_art(6, 30, 0, false);
    assert!(t12[0].chars().count() > t24[0].chars().count());
    assert_eq!(t24, build_time_art(TimeFormat::TwentyFourHour, 6, 30, 0, false));
}
