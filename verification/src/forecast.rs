//! Weather-report interpretation: condition codes, time-of-day windows,
//! and the mapping from a report to the background style it calls for.
//! The network fetch itself lives outside the engine; this module holds
//! everything that can be computed from the fetched values alone.

use vstd::prelude::*;
use crate::model::{BackgroundStyle, TimeOfDay};

verus! {

/// Civil twilight duration in minutes (about half an hour before sunrise
/// and after sunset).
pub const CIVIL_TWILIGHT_MINUTES: u32 = 30;

/// How long a fetched report stays fresh, in milliseconds (half an hour).
pub const FETCH_INTERVAL_MS: u64 = 1_800_000;

/// Simplified weather condition categories.
#[derive(Clone, Copy, PartialEq, Eq, Structural, Debug)]
pub enum WeatherCondition {
    Clear,
    PartlyCloudy,
    Cloudy,
    Rain,
    HeavyRain,
    Thunderstorm,
    Snow,
    Fog,
    Windy,
    VeryCold,
}

/// A parsed weather report: the condition, celsius temperature, wind
/// speed, time of day, latitude in thousandths of a degree, and the
/// host-clock moment the report was fetched.
#[derive(Clone, Copy, PartialEq, Eq, Structural, Debug)]
pub struct WeatherData {
    /// Current weather condition.
    pub condition: WeatherCondition,
    /// Temperature in degrees Celsius.
    pub temp_c: i32,
    /// Wind speed in km/h.
    pub wind_kmph: u32,
    /// Time of day for weather-aware rendering.
    pub time_of_day: TimeOfDay,
    /// Latitude in thousandths of a degree (for the aurora rule).
    pub latitude_milli: i64,
    /// Host-clock timestamp of the fetch, in milliseconds.
    pub fetched_at_ms: u64,
}

impl WeatherData {
    /// Whether the report, fetched at its recorded moment, is still
    /// fresh at `now_ms`: less than half an hour old.
    pub fn is_fresh(&self, now_ms: u64) -> (r: bool)
        ensures
            r == ((if now_ms >= self.fetched_at_ms {
                now_ms - self.fetched_at_ms
            } else {
                0int
            }) < FETCH_INTERVAL_MS),
    {
        let age = if now_ms >= self.fetched_at_ms { now_ms - self.fetched_at_ms } else { 0 };
        age < FETCH_INTERVAL_MS
    }
}

impl Default for WeatherData {
    /// The report assumed before any fetch succeeds: clear, mild, calm,
    /// daytime, at the equator.
    fn default() -> (r: Self)
        ensures
            r.condition == WeatherCondition::Clear,
            r.temp_c == 20,
            r.wind_kmph == 0,
            r.time_of_day == TimeOfDay::Day,
            r.latitude_milli == 0,
            r.fetched_at_ms == 0,
    {
        WeatherData {
            condition: WeatherCondition::Clear,
            temp_c: 20,
            wind_kmph: 0,
            time_of_day: TimeOfDay::Day,
            latitude_milli: 0,
            fetched_at_ms: 0,
        }
    }
}

/// Whether a character is an ASCII decimal digit.
pub open spec fn spec_is_digit(c: char) -> bool {
    48 <= c as u32 <= 57
}

/// The condition a numeric weather code stands for, following the
/// provider's code table; unknown codes count as cloudy.
pub open spec fn spec_condition_of_code(v: int) -> WeatherCondition {
    if v == 113 {
        WeatherCondition::Clear
    } else if v == 116 {
        WeatherCondition::PartlyCloudy
    } else if v == 119 || v == 122 {
        WeatherCondition::Cloudy
    } else if v == 143 || v == 248 || v == 260 {
        WeatherCondition::Fog
    } else if v == 176 || v == 263 || v == 266 || v == 293 || v == 296 || v == 353 {
        WeatherCondition::Rain
    } else if v == 299 || v == 302 || v == 305 || v == 308 || v == 356 || v == 359 {
        WeatherCondition::HeavyRain
    } else if v == 200 || v == 386 || v == 389 || v == 392 || v == 395 {
        WeatherCondition::Thunderstorm
    } else if v == 179 || v == 182 || v == 185 || v == 227 || v == 230 || v == 281 || v == 284
        || v == 311 || v == 314 || v == 317 || v == 320 || v == 323 || v == 326 || v == 329
        || v == 332 || v == 335 || v == 338 || v == 350 || v == 362 || v == 365 || v == 368
        || v == 371 || v == 374 || v == 377 {
        WeatherCondition::Snow
    } else {
        WeatherCondition::Cloudy
    }
}

fn condition_of_code(v: u32) -> (c: WeatherCondition)
    ensures
        c == spec_condition_of_code(v as int),
{
    if v == 113 {
        WeatherCondition::Clear
    } else if v == 116 {
        WeatherCondition::PartlyCloudy
    } else if v == 119 || v == 122 {
        WeatherCondition::Cloudy
    } else if v == 143 || v == 248 || v == 260 {
        WeatherCondition::Fog
    } else if v == 176 || v == 263 || v == 266 || v == 293 || v == 296 || v == 353 {
        WeatherCondition::Rain
    } else if v == 299 || v == 302 || v == 305 || v == 308 || v == 356 || v == 359 {
        WeatherCondition::HeavyRain
    } else if v == 200 || v == 386 || v == 389 || v == 392 || v == 395 {
        WeatherCondition::Thunderstorm
    } else if v == 179 || v == 182 || v == 185 || v == 227 || v == 230 || v == 281 || v == 284
        || v == 311 || v == 314 || v == 317 || v == 320 || v == 323 || v == 326 || v == 329
        || v == 332 || v == 335 || v == 338 || v == 350 || v == 362 || v == 365 || v == 368
        || v == 371 || v == 374 || v == 377 {
        WeatherCondition::Snow
    } else {
        WeatherCondition::Cloudy
    }
}

/// What a provider code string means: a three-digit code is looked up in
/// the code table; anything else counts as cloudy.
pub open spec fn spec_parse_weather_code(s: Seq<char>) -> WeatherCondition {
    if s.len() == 3 && spec_is_digit(s[0]) && spec_is_digit(s[1]) && spec_is_digit(s[2]) {
        spec_condition_of_code(
            (s[0] as u32 - 48) * 100 + (s[1] as u32 - 48) * 10 + (s[2] as u32 - 48),
        )
    } else {
        WeatherCondition::Cloudy
    }
}

/// Map a provider weather code to the simplified condition.
pub fn parse_weather_code(code: &str) -> (c: WeatherCondition)
    ensures
        c == spec_parse_weather_code(code@),
{
    if code.unicode_len() != 3 {
        return WeatherCondition::Cloudy;
    }
    let d0 = code.get_char(0) as u32;
    let d1 = code.get_char(1) as u32;
    let d2 = code.get_char(2) as u32;
    if d0 < 48 || d0 > 57 || d1 < 48 || d1 > 57 || d2 < 48 || d2 > 57 {
        return WeatherCondition::Cloudy;
    }
    condition_of_code((d0 - 48) * 100 + (d1 - 48) * 10 + (d2 - 48))
}

/// The condition after the high-wind override: winds above 50 km/h turn
/// anything short of a downpour or thunderstorm into the windy style.
pub open spec fn spec_resolve_condition(c: WeatherCondition, wind_kmph: int) -> WeatherCondition {
    if wind_kmph > 50 && c != WeatherCondition::Thunderstorm && c != WeatherCondition::HeavyRain {
        WeatherCondition::Windy
    } else {
        c
    }
}

pub fn resolve_condition(c: WeatherCondition, wind_kmph: u32) -> (r: WeatherCondition)
    ensures
        r == spec_resolve_condition(c, wind_kmph as int),
{
    if wind_kmph > 50 && !(matches!(c, WeatherCondition::Thunderstorm) || matches!(
        c,
        WeatherCondition::HeavyRain,
    )) {
        WeatherCondition::Windy
    } else {
        c
    }
}

/// The phase of day that a moment falls in, given the day's sunrise and
/// sunset in minutes since midnight: dawn in the half hour before
/// sunrise, dusk in the half hour after sunset, day between sunrise and
/// sunset, night otherwise.
pub open spec fn spec_time_of_day(current: int, sunrise: int, sunset: int) -> TimeOfDay {
    let dawn_start = if sunrise >= 30 { sunrise - 30 } else { 0 };
    let dusk_end = sunset + 30;
    if dawn_start <= current < sunrise {
        TimeOfDay::Dawn
    } else if sunset <= current < dusk_end {
        TimeOfDay::Dusk
    } else if sunrise <= current < sunset {
        TimeOfDay::Day
    } else {
        TimeOfDay::Night
    }
}

/// Determine the time of day from the current minutes since midnight and
/// the day's sunrise and sunset.
pub fn determine_time_of_day(current_minutes: u32, sunrise_mins: u32, sunset_mins: u32) -> (t:
    TimeOfDay)
    requires
        sunset_mins <= 4_294_967_265,
    ensures
        t == spec_time_of_day(current_minutes as int, sunrise_mins as int, sunset_mins as int),
{
    let dawn_start = if sunrise_mins >= CIVIL_TWILIGHT_MINUTES {
        sunrise_mins - CIVIL_TWILIGHT_MINUTES
    } else {
        0
    };
    let dusk_end = sunset_mins + CIVIL_TWILIGHT_MINUTES;
    if dawn_start <= current_minutes && current_minutes < sunrise_mins {
        TimeOfDay::Dawn
    } else if sunset_mins <= current_minutes && current_minutes < dusk_end {
        TimeOfDay::Dusk
    } else if sunrise_mins <= current_minutes && current_minutes < sunset_mins {
        TimeOfDay::Day
    } else {
        TimeOfDay::Night
    }
}

/// The background style a report calls for: twilight gradients around
/// dawn and dusk under clear or partly cloudy skies, aurora on clear
/// nights beyond 55 degrees of latitude, a starfield on other clear
/// nights, frost below -10 degrees, and otherwise the style matching
/// the condition.
pub open spec fn spec_map_weather_to_background(w: WeatherData) -> BackgroundStyle {
    let clearish = w.condition == WeatherCondition::Clear || w.condition
        == WeatherCondition::PartlyCloudy;
    let lat_abs = if w.latitude_milli >= 0 { w.latitude_milli as int } else {
        -(w.latitude_milli as int)
    };
    if w.time_of_day == TimeOfDay::Dawn && clearish {
        BackgroundStyle::TwilightDawn
    } else if w.time_of_day == TimeOfDay::Dusk && clearish {
        BackgroundStyle::TwilightDusk
    } else if w.time_of_day == TimeOfDay::Night && w.condition == WeatherCondition::Clear
        && lat_abs > 55_000 {
        BackgroundStyle::Aurora
    } else if w.time_of_day == TimeOfDay::Night && w.condition == WeatherCondition::Clear {
        BackgroundStyle::Starfield
    } else if w.temp_c < -10 {
        BackgroundStyle::Frost
    } else {
        match w.condition {
            WeatherCondition::Clear => BackgroundStyle::Sunny,
            WeatherCondition::PartlyCloudy => BackgroundStyle::Cloudy,
            WeatherCondition::Cloudy => BackgroundStyle::Cloudy,
            WeatherCondition::Rain => BackgroundStyle::Rainy,
            WeatherCondition::HeavyRain => BackgroundStyle::Stormy,
            WeatherCondition::Thunderstorm => BackgroundStyle::Stormy,
            WeatherCondition::Snow => BackgroundStyle::Snowfall,
            WeatherCondition::Fog => BackgroundStyle::Foggy,
            WeatherCondition::Windy => BackgroundStyle::Windy,
            WeatherCondition::VeryCold => BackgroundStyle::Frost,
        }
    }
}

/// Map a weather report to the background style it calls for.
pub fn map_weather_to_background(weather: &WeatherData) -> (b: BackgroundStyle)
    ensures
        b == spec_map_weather_to_background(*weather),
{
    let clearish = matches!(weather.condition, WeatherCondition::Clear) || matches!(
        weather.condition,
        WeatherCondition::PartlyCloudy,
    );
    let lat_abs: i64 = if weather.latitude_milli >= 0 {
        weather.latitude_milli
    } else if weather.latitude_milli == i64::MIN {
        i64::MAX
    } else {
        -weather.latitude_milli
    };
    proof {
        if weather.latitude_milli == i64::MIN {
            assert(lat_abs > 55_000);
        }
    }
    if matches!(weather.time_of_day, TimeOfDay::Dawn) && clearish {
        BackgroundStyle::TwilightDawn
    } else if matches!(weather.time_of_day, TimeOfDay::Dusk) && clearish {
        BackgroundStyle::TwilightDusk
    } else if matches!(weather.time_of_day, TimeOfDay::Night) && matches!(
        weather.condition,
        WeatherCondition::Clear,
    ) && lat_abs > 55_000 {
        BackgroundStyle::Aurora
    } else if matches!(weather.time_of_day, TimeOfDay::Night) && matches!(
        weather.condition,
        WeatherCondition::Clear,
    ) {
        BackgroundStyle::Starfield
    } else if weather.temp_c < -10 {
        BackgroundStyle::Frost
    } else {
        match weather.condition {
            WeatherCondition::Clear => BackgroundStyle::Sunny,
            WeatherCondition::PartlyCloudy => BackgroundStyle::Cloudy,
            WeatherCondition::Cloudy => BackgroundStyle::Cloudy,
            WeatherCondition::Rain => BackgroundStyle::Rainy,
            WeatherCondition::HeavyRain => BackgroundStyle::Stormy,
            WeatherCondition::Thunderstorm => BackgroundStyle::Stormy,
            WeatherCondition::Snow => BackgroundStyle::Snowfall,
            WeatherCondition::Fog => BackgroundStyle::Foggy,
            WeatherCondition::Windy => BackgroundStyle::Windy,
            WeatherCondition::VeryCold => BackgroundStyle::Frost,
        }
    }
}

/// Whether a character counts as token-separating whitespace.
pub open spec fn spec_is_space(c: char) -> bool {
    c == ' ' || c == '\t' || c == '\n' || c == '\r'
}

/// The first position at or after `i` that is not whitespace.
pub open spec fn spec_skip_ws(s: Seq<char>, i: int) -> int
    decreases s.len() - i,
{
    if 0 <= i < s.len() && spec_is_space(s[i]) {
        spec_skip_ws(s, i + 1)
    } else {
        i
    }
}

/// The first position at or after `i` that is whitespace (the end of the
/// token starting at `i`).
pub open spec fn spec_token_end(s: Seq<char>, i: int) -> int
    decreases s.len() - i,
{
    if 0 <= i < s.len() && !spec_is_space(s[i]) {
        spec_token_end(s, i + 1)
    } else {
        i
    }
}

/// The first position of `c` in `[i, j)`, or `j` when absent.
pub open spec fn spec_find_char(s: Seq<char>, i: int, j: int, c: char) -> int
    decreases j - i,
{
    if i < j && 0 <= i < s.len() {
        if s[i] == c {
            i
        } else {
            spec_find_char(s, i + 1, j, c)
        }
    } else {
        j
    }
}

/// Whether every character in `[i, j)` is a digit.
pub open spec fn spec_all_digits(s: Seq<char>, i: int, j: int) -> bool {
    forall|k: int| i <= k < j ==> spec_is_digit(#[trigger] s[k])
}

/// The decimal value of the digits in `[i, j)`.
pub open spec fn spec_digits_val(s: Seq<char>, i: int, j: int) -> int
    decreases j - i,
{
    if i >= j {
        0
    } else {
        spec_digits_val(s, i, j - 1) * 10 + (s[j - 1] as u32 - 48)
    }
}

fn exec_is_space(c: char) -> (r: bool)
    ensures
        r == spec_is_space(c),
{
    c == ' ' || c == '\t' || c == '\n' || c == '\r'
}

fn skip_ws(s: &str, i: usize) -> (j: usize)
    requires
        i <= s@.len(),
    ensures
        j == spec_skip_ws(s@, i as int),
        i <= j <= s@.len(),
{
    let n = s.unicode_len();
    let mut j = i;
    while j < n && exec_is_space(s.get_char(j))
        invariant
            i <= j <= n == s@.len(),
            spec_skip_ws(s@, i as int) == spec_skip_ws(s@, j as int),
        decreases n - j,
    {
        j += 1;
    }
    j
}

fn token_end(s: &str, i: usize) -> (j: usize)
    requires
        i <= s@.len(),
    ensures
        j == spec_token_end(s@, i as int),
        i <= j <= s@.len(),
{
    let n = s.unicode_len();
    let mut j = i;
    while j < n && !exec_is_space(s.get_char(j))
        invariant
            i <= j <= n == s@.len(),
            spec_token_end(s@, i as int) == spec_token_end(s@, j as int),
        decreases n - j,
    {
        j += 1;
    }
    j
}

fn find_char(s: &str, i: usize, j: usize, c: char) -> (k: usize)
    requires
        i <= j <= s@.len(),
    ensures
        k == spec_find_char(s@, i as int, j as int, c),
        i <= k <= j,
{
    let mut k = i;
    while k < j && s.get_char(k) != c
        invariant
            i <= k <= j <= s@.len(),
            spec_find_char(s@, i as int, j as int, c) == spec_find_char(
                s@,
                k as int,
                j as int,
                c,
            ),
        decreases j - k,
    {
        k += 1;
    }
    k
}

/// Parse the digits in `[i, j)` as a decimal number: the parse succeeds
/// exactly when the span is non-empty, all digits, and the value fits.
fn parse_digits_u32(s: &str, i: usize, j: usize) -> (r: Option<u32>)
    requires
        i <= j <= s@.len(),
    ensures
        r is Some <==> (i < j && spec_all_digits(s@, i as int, j as int) && spec_digits_val(
            s@,
            i as int,
            j as int,
        ) <= u32::MAX),
        r matches Some(v) ==> v == spec_digits_val(s@, i as int, j as int),
{
    if i >= j {
        return None;
    }
    let mut acc: u64 = 0;
    let mut k = i;
    while k < j
        invariant
            i <= k <= j <= s@.len(),
            spec_all_digits(s@, i as int, k as int),
            spec_digits_val(s@, i as int, k as int) <= u32::MAX ==> acc == spec_digits_val(
                s@,
                i as int,
                k as int,
            ),
            spec_digits_val(s@, i as int, k as int) > u32::MAX ==> acc > u32::MAX,
            acc <= 100_000_000_000,
        decreases j - k,
    {
        let c = s.get_char(k) as u32;
        if c < 48 || c > 57 {
            proof {
                assert(!spec_is_digit(s@[k as int]));
            }
            return None;
        }
        let d = (c - 48) as u64;
        let next = acc * 10 + d;
        acc = if next > 100_000_000_000 { 100_000_000_000 } else { next };
        k += 1;
        proof {
            let ghost prev = spec_digits_val(s@, i as int, k as int - 1);
            assert(spec_digits_val(s@, i as int, k as int) == prev * 10 + d);
        }
    }
    if acc > 0xFFFF_FFFF {
        None
    } else {
        Some(acc as u32)
    }
}

/// Relies on `String::push`: appends exactly the one given character to
/// the end of the string.
#[verifier::external_body]
fn push_char(s: &mut String, c: char)
    ensures
        final(s)@ == old(s)@.push(c),
{
    s.push(c);
}

/// How one character is written in an encoded location: a space becomes
/// a plus, a comma its percent escape, and everything else stays itself.
pub open spec fn spec_encode_char(c: char) -> Seq<char> {
    if c == ' ' {
        seq!['+']
    } else if c == ',' {
        seq!['%', '2', 'C']
    } else {
        seq![c]
    }
}

/// The URL-encoded form of a location string: each character encoded in
/// order.
pub open spec fn spec_url_encode(s: Seq<char>) -> Seq<char>
    decreases s.len(),
{
    if s.len() == 0 {
        Seq::empty()
    } else {
        spec_url_encode(s.drop_last()) + spec_encode_char(s.last())
    }
}

/// Simple URL encoding for location strings.
pub fn url_encode(s: &str) -> (r: String)
    ensures
        r@ == spec_url_encode(s@),
{
    let n = s.unicode_len();
    let mut out = String::new();
    for i in 0..n
        invariant
            n == s@.len(),
            out@ == spec_url_encode(s@.take(i as int)),
    {
        let c = s.get_char(i);
        if c == ' ' {
            push_char(&mut out, '+');
        } else if c == ',' {
            push_char(&mut out, '%');
            push_char(&mut out, '2');
            push_char(&mut out, 'C');
        } else {
            push_char(&mut out, c);
        }
        proof {
            assert(s@.take(i + 1).drop_last() =~= s@.take(i as int));
            assert(s@.take(i + 1).last() == s@[i as int]);
            assert(out@ =~= spec_url_encode(s@.take(i as int)) + spec_encode_char(s@[i as int]));
        }
    }
    proof {
        assert(s@.take(n as int) =~= s@);
    }
    out
}

/// What a time string such as a provider's sunrise field means, in
/// minutes since midnight: two whitespace-separated tokens, the first an
/// `hours:minutes` pair of digit runs, the second taken as PM exactly
/// when it is the two letters "pm" in any case; noon and midnight follow
/// the 12-hour convention.  Anything else parses to nothing.
pub open spec fn spec_parse_time_to_minutes(s: Seq<char>) -> Option<u32> {
    let i1 = spec_skip_ws(s, 0);
    let j1 = spec_token_end(s, i1);
    let i2 = spec_skip_ws(s, j1);
    let j2 = spec_token_end(s, i2);
    let i3 = spec_skip_ws(s, j2);
    if i1 == j1 || i2 == j2 || i3 != s.len() {
        None
    } else {
        let colon = spec_find_char(s, i1, j1, ':');
        if colon == j1 || spec_find_char(s, colon + 1, j1, ':') != j1 {
            None
        } else if !(i1 < colon && spec_all_digits(s, i1, colon) && spec_digits_val(s, i1, colon)
            <= u32::MAX) {
            None
        } else if !(colon + 1 < j1 && spec_all_digits(s, colon + 1, j1) && spec_digits_val(
            s,
            colon + 1,
            j1,
        ) <= u32::MAX) {
            None
        } else {
            let hours0 = spec_digits_val(s, i1, colon);
            let minutes = spec_digits_val(s, colon + 1, j1);
            let is_pm = j2 - i2 == 2 && (s[i2] == 'P' || s[i2] == 'p') && (s[i2 + 1] == 'M'
                || s[i2 + 1] == 'm');
            let hours = if is_pm && hours0 != 12 {
                hours0 + 12
            } else if !is_pm && hours0 == 12 {
                0
            } else {
                hours0
            };
            if hours * 60 + minutes <= u32::MAX {
                Some((hours * 60 + minutes) as u32)
            } else {
                None
            }
        }
    }
}

/// Parse a clock time such as "06:45 AM" to minutes since midnight.
#[verifier::rlimit(80)]
pub fn parse_time_to_minutes(time_str: &str) -> (r: Option<u32>)
    ensures
        r == spec_parse_time_to_minutes(time_str@),
{
    let i1 = skip_ws(time_str, 0);
    let j1 = token_end(time_str, i1);
    let i2 = skip_ws(time_str, j1);
    let j2 = token_end(time_str, i2);
    let i3 = skip_ws(time_str, j2);
    if i1 == j1 || i2 == j2 || i3 != time_str.unicode_len() {
        return None;
    }
    let colon = find_char(time_str, i1, j1, ':');
    if colon == j1 {
        return None;
    }
    if find_char(time_str, colon + 1, j1, ':') != j1 {
        return None;
    }
    let hours0 = match parse_digits_u32(time_str, i1, colon) {
        Some(h) => h,
        None => {
            return None;
        },
    };
    let minutes = match parse_digits_u32(time_str, colon + 1, j1) {
        Some(m) => m,
        None => {
            return None;
        },
    };
    let p0 = time_str.get_char(i2);
    let is_pm = j2 - i2 == 2 && (p0 == 'P' || p0 == 'p') && {
        let p1 = time_str.get_char(i2 + 1);
        p1 == 'M' || p1 == 'm'
    };
    let hours: u32 = if is_pm && hours0 != 12 {
        if hours0 > u32::MAX - 12 {
            return None;
        }
        hours0 + 12
    } else if !is_pm && hours0 == 12 {
        0
    } else {
        hours0
    };
    if hours > u32::MAX / 60 {
        return None;
    }
    let base = hours * 60;
    if minutes > u32::MAX - base {
        return None;
    }
    Some(base + minutes)
}

} // verus!
