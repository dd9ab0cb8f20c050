//! Tests for the weather-report interpretation: condition codes, time
//! parsing, URL encoding, and the style mapping.

use sigye::forecast::{
    map_weather_to_background, parse_time_to_minutes, parse_weather_code, resolve_condition,
    determine_time_of_day, WeatherCondition, WeatherData,
};
use sigye::model::{BackgroundStyle, TimeOfDay};

#[test]
fn test_parse_weather_code() {
    assert_eq!(parse_weather_code("113"), WeatherCondition::Clear);
    assert_eq!(parse_weather_code("116"), WeatherCondition::PartlyCloudy);
    assert_eq!(parse_weather_code("200"), WeatherCondition::Thunderstorm);
    assert_eq!(parse_weather_code("227"), WeatherCondition::Snow);
    assert_eq!(parse_weather_code("999"), WeatherCondition::Cloudy); // Unknown
}

#[test]
fn test_parse_weather_code_malformed() {
    assert_eq!(parse_weather_code(""), WeatherCondition::Cloudy);
    assert_eq!(parse_weather_code("11"), WeatherCondition::Cloudy);
    assert_eq!(parse_weather_code("1133"), WeatherCondition::Cloudy);
    assert_eq!(parse_weather_code("11a"), WeatherCondition::Cloudy);
    assert_eq!(parse_weather_code("302"), WeatherCondition::HeavyRain);
    assert_eq!(parse_weather_code("143"), WeatherCondition::Fog);
    assert_eq!(parse_weather_code("296"), WeatherCondition::Rain);
}

#[test]
fn test_map_weather_to_background() {
    let sunny_day = WeatherData {
        condition: WeatherCondition::Clear,
        time_of_day: TimeOfDay::Day,
        temp_c: 25,
        latitude_milli: 40_000,
        ..Default::default()
    };
    assert_eq!(map_weather_to_background(&sunny_day), BackgroundStyle::Sunny);

    let clear_night = WeatherData {
        condition: WeatherCondition::Clear,
        time_of_day: TimeOfDay::Night,
        temp_c: 15,
        latitude_milli: 40_000,
        ..Default::default()
    };
    assert_eq!(
        map_weather_to_background(&clear_night),
        BackgroundStyle::Starfield
    );

    let aurora_night = WeatherData {
        condition: WeatherCondition::Clear,
        time_of_day: TimeOfDay::Night,
        temp_c: -5,
        latitude_milli: 65_000, // High latitude
        ..Default::default()
    };
    assert_eq!(
        map_weather_to_background(&aurora_night),
        BackgroundStyle::Aurora
    );

    let very_cold = WeatherData {
        condition: WeatherCondition::Clear,
        time_of_day: TimeOfDay::Day,
        temp_c: -15, // Below -10 degrees
        latitude_milli: 40_000,
        ..Default::default()
    };
    assert_eq!(map_weather_to_background(&very_cold), BackgroundStyle::Frost);

    // Twilight cases
    let dawn = WeatherData {
        condition: WeatherCondition::Clear,
        time_of_day: TimeOfDay::Dawn,
        temp_c: 15,
        latitude_milli: 40_000,
        ..Default::default()
    };
    assert_eq!(
        map_weather_to_background(&dawn),
        BackgroundStyle::TwilightDawn
    );

    let dusk = WeatherData {
        condition: WeatherCondition::PartlyCloudy,
        time_of_day: TimeOfDay::Dusk,
        temp_c: 20,
        latitude_milli: 40_000,
        ..Default::default()
    };
    assert_eq!(
        map_weather_to_background(&dusk),
        BackgroundStyle::TwilightDusk
    );
}

#[test]
fn test_map_weather_by_condition() {
    let mut w = WeatherData::default();
    w.time_of_day = TimeOfDay::Day;
    w.condition = WeatherCondition::Rain;
    assert_eq!(map_weather_to_background(&w), BackgroundStyle::Rainy);
    w.condition = WeatherCondition::HeavyRain;
    assert_eq!(map_weather_to_background(&w), BackgroundStyle::Stormy);
    w.condition = WeatherCondition::Thunderstorm;
    assert_eq!(map_weather_to_background(&w), BackgroundStyle::Stormy);
    w.condition = WeatherCondition::Snow;
    assert_eq!(map_weather_to_background(&w), BackgroundStyle::Snowfall);
    w.condition = WeatherCondition::Fog;
    assert_eq!(map_weather_to_background(&w), BackgroundStyle::Foggy);
    w.condition = WeatherCondition::Windy;
    assert_eq!(map_weather_to_background(&w), BackgroundStyle::Windy);
    w.condition = WeatherCondition::VeryCold;
    assert_eq!(map_weather_to_background(&w), BackgroundStyle::Frost);
    w.condition = WeatherCondition::Cloudy;
    assert_eq!(map_weather_to_background(&w), BackgroundStyle::Cloudy);
}

#[test]
fn test_parse_time_to_minutes() {
    assert_eq!(parse_time_to_minutes("06:45 AM"), Some(6 * 60 + 45));
    assert_eq!(parse_time_to_minutes("12:00 PM"), Some(12 * 60));
    assert_eq!(parse_time_to_minutes("12:00 AM"), Some(0));
    assert_eq!(parse_time_to_minutes("06:30 PM"), Some(18 * 60 + 30));
}

#[test]
fn test_parse_time_to_minutes_rejects() {
    assert_eq!(parse_time_to_minutes(""), None);
    assert_eq!(parse_time_to_minutes("06:45"), None);
    assert_eq!(parse_time_to_minutes("06-45 AM"), None);
    assert_eq!(parse_time_to_minutes("06:45:00 AM"), None);
    assert_eq!(parse_time_to_minutes("aa:45 AM"), None);
    assert_eq!(parse_time_to_minutes("06:45 AM extra"), None);
    // a second token other than PM counts as morning
    assert_eq!(parse_time_to_minutes("06:45 XX"), Some(6 * 60 + 45));
    assert_eq!(parse_time_to_minutes("06:45 pm"), Some(18 * 60 + 45));
}

#[test]
fn test_url_encode() {
    assert_eq!(sigye::forecast::url_encode("New York"), "New+York");
    assert_eq!(sigye::forecast::url_encode("Seoul, Korea"), "Seoul%2C+Korea");
}

#[test]
fn test_url_encode_plain() {
    assert_eq!(sigye::forecast::url_encode(""), "");
    assert_eq!(sigye::forecast::url_encode("Tokyo"), "Tokyo");
    assert_eq!(sigye::forecast::url_encode(" ,"), "+%2C");
}

#[test]
fn test_resolve_condition_wind_override() {
    assert_eq!(
        resolve_condition(WeatherCondition::Clear, 60),
        WeatherCondition::Windy
    );
    assert_eq!(
        resolve_condition(WeatherCondition::Clear, 50),
        WeatherCondition::Clear
    );
    assert_eq!(
        resolve_condition(WeatherCondition::Thunderstorm, 80),
        WeatherCondition::Thunderstorm
    );
    assert_eq!(
        resolve_condition(WeatherCondition::HeavyRain, 80),
        WeatherCondition::HeavyRain
    );
}

#[test]
fn test_determine_time_of_day_windows() {
    let sunrise = 6 * 60 + 45;
    let sunset = 18 * 60 + 30;
    assert_eq!(determine_time_of_day(sunrise - 30, sunrise, sunset), TimeOfDay::Dawn);
    assert_eq!(determine_time_of_day(sunrise - 31, sunrise, sunset), TimeOfDay::Night);
    assert_eq!(determine_time_of_day(sunrise, sunrise, sunset), TimeOfDay::Day);
    assert_eq!(determine_time_of_day(sunset - 1, sunrise, sunset), TimeOfDay::Day);
    assert_eq!(determine_time_of_day(sunset, sunrise, sunset), TimeOfDay::Dusk);
    assert_eq!(determine_time_of_day(sunset + 29, sunrise, sunset), TimeOfDay::Dusk);
    assert_eq!(determine_time_of_day(sunset + 30, sunrise, sunset), TimeOfDay::Night);
}

#[test]
fn test_is_fresh() {
    let mut w = WeatherData::default();
    w.fetched_at_ms = 1000;
    assert!(w.is_fresh(1000));
    assert!(w.is_fresh(1000 + 1_799_999));
    assert!(!w.is_fresh(1000 + 1_800_000));
    // a clock that went backwards still counts as fresh
    assert!(w.is_fresh(0));
}
