use darksky::client::parse_forecast;
use darksky::client::to_json_string;
use darksky::dec::Dec;
use darksky::jtext::parse_json_text;
use darksky::model::ForecastError;

const FIXTURE: &str = r#"{
  "latitude": 37.8267,
  "longitude": -122.4233,
  "timezone": "America/Los_Angeles",
  "currently": {
    "time": 1453402675,
    "summary": "Foggy",
    "icon": "fog",
    "precipIntensity": 0,
    "precipProbability": 0,
    "temperature": 61.2,
    "apparentTemperature": 61.2,
    "dewPoint": 41.7,
    "humidity": 0.83,
    "pressure": 1010.34,
    "windSpeed": 5.59,
    "windGust": 7.2,
    "windBearing": 246,
    "cloudCover": 0.7,
    "uvIndex": 2,
    "visibility": 10,
    "ozone": 303.5
  },
  "hourly": {
    "summary": "Light rain starting later this afternoon.",
    "icon": "rain",
    "data": []
  },
  "daily": {
    "summary": "No precipitation throughout the week.",
    "icon": "clear-day",
    "data": []
  },
  "flags": {
    "sources": ["isd", "madis"],
    "nearest-station": 1.83,
    "units": "us"
  },
  "offset": -8
}"#;

#[test]
fn end_to_end_fixture_summary() {
    let m = parse_forecast(FIXTURE).expect("fixture parses");
    assert_eq!(m.get_current_weather_str(), "61.2°F 🌫 Foggy");
}

#[test]
fn fixture_fields_are_exact() {
    let m = parse_forecast(FIXTURE).expect("fixture parses");
    assert_eq!(m.latitude, Dec { neg: false, mant: 378267, scale: 4 });
    assert_eq!(m.longitude, Dec { neg: true, mant: 1224233, scale: 4 });
    assert_eq!(m.timezone, "America/Los_Angeles");
    assert_eq!(m.offset, -8);
    assert_eq!(m.currently.time, 1453402675);
    assert_eq!(m.currently.wind_bearing, 246);
    assert_eq!(m.currently.uv_index, 2);
    assert!(m.minutely.is_none());
    assert!(m.alerts.is_none());
    assert!(m.currently.nearest_storm_distance.is_none());
    assert_eq!(m.flags.sources, vec!["isd".to_string(), "madis".to_string()]);
    assert_eq!(m.flags.units, "us");
}

#[test]
fn reserialized_payload_parses_to_same_model() {
    let m = parse_forecast(FIXTURE).expect("fixture parses");
    let s1 = to_json_string(&m);
    let m2 = parse_forecast(&s1).expect("reserialized text parses");
    assert_eq!(m2.latitude, m.latitude);
    assert_eq!(m2.longitude, m.longitude);
    assert_eq!(m2.timezone, m.timezone);
    assert_eq!(m2.currently.temperature, m.currently.temperature);
    assert_eq!(m2.currently.summary, m.currently.summary);
    assert_eq!(m2.flags.units, m.flags.units);
    assert_eq!(m2.offset, m.offset);
    assert!(m2.minutely.is_none());
    assert!(m2.alerts.is_none());
    let s2 = to_json_string(&m2);
    assert_eq!(s1, s2);
}

#[test]
fn number_digits_are_preserved() {
    // 1010.30 is kept distinct from 1010.3: no digit is invented or lost.
    let body = FIXTURE.replace("1010.34", "1010.30");
    let m = parse_forecast(&body).expect("parses");
    assert_eq!(m.currently.pressure, Dec { neg: false, mant: 101030, scale: 2 });
    assert!(to_json_string(&m).contains("1010.30"));
}

#[test]
fn optional_fields_present_round_trip() {
    let body = FIXTURE.replace(
        "\"time\": 1453402675,",
        "\"time\": 1453402675, \"nearestStormDistance\": 3.2, \"nearestStormBearing\": 12, \"precipType\": \"rain\",",
    );
    let m = parse_forecast(&body).expect("parses");
    assert_eq!(
        m.currently.nearest_storm_distance,
        Some(Dec { neg: false, mant: 32, scale: 1 })
    );
    assert_eq!(m.currently.nearest_storm_bearing, Some(12));
    assert_eq!(m.currently.precip_type.as_deref(), Some("rain"));
    let s1 = to_json_string(&m);
    let m2 = parse_forecast(&s1).expect("reserialized text parses");
    assert_eq!(m2.currently.nearest_storm_bearing, Some(12));
    assert_eq!(to_json_string(&m2), s1);
}

#[test]
fn alerts_parse_when_present() {
    let body = FIXTURE.replace(
        "\"offset\": -8",
        r#""alerts": [{"title": "High Wind Warning", "time": 1453375020, "expires": 1453407300, "description": "Gusty.", "uri": "https://alerts.weather.gov/x"}], "offset": -8"#,
    );
    let m = parse_forecast(&body).expect("parses");
    let alerts = m.alerts.as_ref().expect("alerts present");
    assert_eq!(alerts.len(), 1);
    assert_eq!(alerts[0].title, "High Wind Warning");
    assert_eq!(alerts[0].time, 1453375020);
    assert_eq!(alerts[0].expires, 1453407300);
    assert_eq!(alerts[0].uri, "https://alerts.weather.gov/x");
}

#[test]
fn missing_required_field_is_schema_mismatch() {
    let body = FIXTURE.replace("\"timezone\": \"America/Los_Angeles\",", "");
    assert!(matches!(parse_forecast(&body), Err(ForecastError::SchemaMismatch)));
}

#[test]
fn missing_nested_required_field_is_schema_mismatch() {
    let body = FIXTURE.replace("\"temperature\": 61.2,", "");
    assert!(matches!(parse_forecast(&body), Err(ForecastError::SchemaMismatch)));
}

#[test]
fn type_mismatch_is_schema_mismatch() {
    let body = FIXTURE.replace("\"temperature\": 61.2,", "\"temperature\": \"61.2\",");
    assert!(matches!(parse_forecast(&body), Err(ForecastError::SchemaMismatch)));
}

#[test]
fn invalid_json_is_schema_mismatch() {
    assert!(matches!(parse_forecast("{"), Err(ForecastError::SchemaMismatch)));
    assert!(matches!(parse_forecast(""), Err(ForecastError::SchemaMismatch)));
    assert!(matches!(parse_forecast("not json"), Err(ForecastError::SchemaMismatch)));
}

#[test]
fn json_text_accepts_whitespace_and_escapes() {
    assert!(parse_json_text("{ \"a\" : [ 1 , -2.5 , \"x\\n\\\"y\" , true , null ] }").is_some());
    assert!(parse_json_text(" [ ] ").is_some());
    assert!(parse_json_text("{}").is_some());
}

#[test]
fn json_text_rejects_malformed_documents() {
    assert!(parse_json_text("[1,]").is_none());
    assert!(parse_json_text("{\"a\":}").is_none());
    assert!(parse_json_text("01").is_none());
    assert!(parse_json_text("1 2").is_none());
    assert!(parse_json_text("[1").is_none());
    assert!(parse_json_text("\"unterminated").is_none());
}
