use darksky::dec::Dec;
use darksky::model::DailySeries;
use darksky::model::DarkskyResult;
use darksky::model::Flags;
use darksky::model::HourlySeries;
use darksky::model::Weather;
use darksky::render::get_weather_icon;

fn dec(neg: bool, mant: u64, scale: u32) -> Dec {
    Dec { neg, mant, scale }
}

fn sample_weather(temperature: Dec, icon: &str, summary: &str) -> Weather {
    Weather {
        time: 1453402675,
        summary: summary.to_string(),
        icon: icon.to_string(),
        nearest_storm_distance: None,
        nearest_storm_bearing: None,
        precip_intensity: dec(false, 0, 0),
        precip_probability: dec(false, 0, 0),
        precip_type: None,
        temperature,
        apparent_temperature: temperature,
        dew_point: dec(false, 41, 0),
        humidity: dec(false, 83, 2),
        pressure: dec(false, 101013, 2),
        wind_speed: dec(false, 55, 1),
        wind_gust: dec(false, 72, 1),
        wind_bearing: 246,
        cloud_cover: dec(false, 7, 1),
        uv_index: 2,
        visibility: dec(false, 10, 0),
        ozone: dec(false, 3035, 1),
    }
}

fn sample_result(temperature: Dec, icon: &str, summary: &str, units: &str) -> DarkskyResult {
    DarkskyResult {
        latitude: dec(false, 378267, 4),
        longitude: dec(true, 1224233, 4),
        timezone: "America/Los_Angeles".to_string(),
        currently: sample_weather(temperature, icon, summary),
        minutely: None,
        hourly: HourlySeries {
            summary: "Clear throughout the day.".to_string(),
            icon: "clear-day".to_string(),
            data: Vec::new(),
        },
        daily: DailySeries {
            summary: "No precipitation this week.".to_string(),
            icon: "clear-day".to_string(),
            data: Vec::new(),
        },
        alerts: None,
        flags: Flags {
            sources: vec!["nearest-precip".to_string(), "isd".to_string()],
            nearest_station: dec(false, 18, 1),
            units: units.to_string(),
        },
        offset: -8,
    }
}

#[test]
fn unit_label_us_is_fahrenheit() {
    let r = sample_result(dec(false, 720, 1), "clear-day", "Clear", "us");
    assert_eq!(r.get_unit(), "F");
}

#[test]
fn unit_label_other_codes_are_celsius() {
    for units in ["uk2", "si", "ca", "anything-else", ""] {
        let r = sample_result(dec(false, 720, 1), "clear-day", "Clear", units);
        assert_eq!(r.get_unit(), "C");
    }
}

#[test]
fn icon_clear_day_maps_to_sun() {
    assert_eq!(get_weather_icon("clear-day"), "\u{2600}\u{fe0f}");
}

#[test]
fn icon_unknown_maps_to_empty() {
    assert_eq!(get_weather_icon("bogus-icon"), "");
}

#[test]
fn icon_table_exact() {
    assert_eq!(get_weather_icon("clear-night"), "🌙");
    assert_eq!(get_weather_icon("rain"), "🌧");
    assert_eq!(get_weather_icon("snow"), "🌨");
    assert_eq!(get_weather_icon("sleet"), "🌨");
    assert_eq!(get_weather_icon("wind"), "💨");
    assert_eq!(get_weather_icon("fog"), "🌫");
    assert_eq!(get_weather_icon("cloudy"), "☁️");
    assert_eq!(get_weather_icon("partly-cloudy-day"), "⛅️");
    assert_eq!(get_weather_icon("partly-cloudy-night"), "🌙");
    assert_eq!(get_weather_icon("hail"), "🌧");
    assert_eq!(get_weather_icon("thunderstorm"), "⛈");
    assert_eq!(get_weather_icon("tornado"), "🌪");
}

#[test]
fn summary_formats_one_decimal() {
    let r = sample_result(dec(false, 7234, 2), "clear-day", "Clear", "us");
    assert_eq!(r.get_current_weather_str(), "72.3°F ☀️ Clear");
}

#[test]
fn summary_rounds_half_away_from_zero() {
    // 72.35 carries a half; the library rounds halves away from zero.
    let r = sample_result(dec(false, 7235, 2), "clear-day", "Clear", "us");
    assert_eq!(r.get_current_weather_str(), "72.4°F ☀️ Clear");
}

#[test]
fn summary_total_on_unknown_units_and_icon() {
    let r = sample_result(dec(false, 7234, 2), "bogus-icon", "Odd", "bogus-units");
    assert_eq!(r.get_current_weather_str(), "72.3°C  Odd");
}

#[test]
fn summary_negative_temperature() {
    let r = sample_result(dec(true, 35, 1), "snow", "Snowy", "si");
    assert_eq!(r.get_current_weather_str(), "-3.5°C 🌨 Snowy");
}

#[test]
fn summary_pads_whole_temperature() {
    let r = sample_result(dec(false, 61, 0), "fog", "Foggy", "us");
    assert_eq!(r.get_current_weather_str(), "61.0°F 🌫 Foggy");
}
