//! Clock application state: the time format, the color theme, and the
//! running flag, with the key-driven transitions between them.

use vstd::prelude::*;
use crate::fonts::{spec_time_art_line, build_time_art};

verus! {

/// Time format for the clock display.
#[derive(Clone, Copy, PartialEq, Eq, Structural, Debug)]
pub enum TimeFormat {
    TwentyFourHour,
    TwelveHour,
}

impl TimeFormat {
    /// The other format: toggling twice returns to the start.
    pub open spec fn spec_toggle(self) -> TimeFormat {
        match self {
            TimeFormat::TwentyFourHour => TimeFormat::TwelveHour,
            TimeFormat::TwelveHour => TimeFormat::TwentyFourHour,
        }
    }

    /// Toggle between 12-hour and 24-hour format.
    pub fn toggle(&self) -> (r: Self)
        ensures
            r == self.spec_toggle(),
    {
        match self {
            TimeFormat::TwentyFourHour => TimeFormat::TwelveHour,
            TimeFormat::TwelveHour => TimeFormat::TwentyFourHour,
        }
    }
}

impl Default for TimeFormat {
    fn default() -> (r: Self)
        ensures
            r == TimeFormat::TwentyFourHour,
    {
        TimeFormat::TwentyFourHour
    }
}

/// Toggling the time format twice always comes back to where it started.
pub proof fn lemma_toggle_involution(f: TimeFormat)
    ensures
        f.spec_toggle().spec_toggle() == f,
{
}

/// Color theme for the clock display.
#[derive(Clone, Copy, PartialEq, Eq, Structural, Debug)]
pub enum ColorTheme {
    Cyan,
    Green,
    White,
    Magenta,
    Yellow,
    Red,
    Blue,
}

impl ColorTheme {
    /// The theme that follows this one in the cycle; the cycle visits
    /// every theme once.
    pub open spec fn spec_next(self) -> ColorTheme {
        match self {
            ColorTheme::Cyan => ColorTheme::Green,
            ColorTheme::Green => ColorTheme::Magenta,
            ColorTheme::Magenta => ColorTheme::Yellow,
            ColorTheme::Yellow => ColorTheme::Red,
            ColorTheme::Red => ColorTheme::Blue,
            ColorTheme::Blue => ColorTheme::White,
            ColorTheme::White => ColorTheme::Cyan,
        }
    }

    /// Cycle to the next color theme.
    pub fn next(&self) -> (r: Self)
        ensures
            r == self.spec_next(),
    {
        match self {
            ColorTheme::Cyan => ColorTheme::Green,
            ColorTheme::Green => ColorTheme::Magenta,
            ColorTheme::Magenta => ColorTheme::Yellow,
            ColorTheme::Yellow => ColorTheme::Red,
            ColorTheme::Red => ColorTheme::Blue,
            ColorTheme::Blue => ColorTheme::White,
            ColorTheme::White => ColorTheme::Cyan,
        }
    }
}

impl Default for ColorTheme {
    fn default() -> (r: Self)
        ensures
            r == ColorTheme::Cyan,
    {
        ColorTheme::Cyan
    }
}

/// The clock application's state and transitions; the host event loop
/// drives it from key presses.
#[derive(Clone, Copy, PartialEq, Eq, Structural, Debug)]
pub struct App {
    /// Is the application running?
    pub running: bool,
    /// Current time format (12h or 24h).
    pub time_format: TimeFormat,
    /// Current color theme.
    pub color_theme: ColorTheme,
}

impl App {
    /// Construct a new application state, not yet running, with the
    /// default format and theme.
    pub fn new() -> (a: Self)
        ensures
            !a.running,
            a.time_format == TimeFormat::TwentyFourHour,
            a.color_theme == ColorTheme::Cyan,
    {
        App {
            running: false,
            time_format: TimeFormat::TwentyFourHour,
            color_theme: ColorTheme::Cyan,
        }
    }

    /// Mark the application as running.
    pub fn start(&mut self)
        ensures
            final(self).running,
            final(self).time_format == old(self).time_format,
            final(self).color_theme == old(self).color_theme,
    {
        self.running = true;
    }

    /// Toggle between 12-hour and 24-hour time format.
    pub fn toggle_time_format(&mut self)
        ensures
            final(self).time_format == old(self).time_format.spec_toggle(),
            final(self).running == old(self).running,
            final(self).color_theme == old(self).color_theme,
    {
        self.time_format = self.time_format.toggle();
    }

    /// Cycle through the available color themes.
    pub fn cycle_color_theme(&mut self)
        ensures
            final(self).color_theme == old(self).color_theme.spec_next(),
            final(self).running == old(self).running,
            final(self).time_format == old(self).time_format,
    {
        self.color_theme = self.color_theme.next();
    }

    /// Stop the application: the event loop exits after this.
    pub fn quit(&mut self)
        ensures
            !final(self).running,
            final(self).time_format == old(self).time_format,
            final(self).color_theme == old(self).color_theme,
    {
        self.running = false;
    }

    /// Build the large time display in the application's own format.
    pub fn build_time_art(&self, hours: u32, minutes: u32, seconds: u32, is_pm: bool) -> (lines:
        Vec<String>)
        requires
            hours < 100,
            minutes < 100,
            seconds < 100,
        ensures
            lines@.len() == 7,
            forall|r: int| 0 <= r < 7 ==> #[trigger] lines@[r]@ == spec_time_art_line(
                self.time_format,
                hours as int,
                minutes as int,
                seconds as int,
                is_pm,
                r,
            ),
    {
        build_time_art(self.time_format, hours, minutes, seconds, is_pm)
    }
}

impl Default for App {
    fn default() -> (a: Self)
        ensures
            !a.running,
            a.time_format == TimeFormat::TwentyFourHour,
            a.color_theme == ColorTheme::Cyan,
    {
        App::new()
    }
}

} // verus!
