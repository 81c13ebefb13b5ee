//! The forecast data model.
//!
//! A faithful typed projection of the provider's JSON payload: the
//! top-level result with current, minute-by-minute, hourly and daily
//! forecasts, alerts and metadata.  Every record is immutable once
//! parsed.  Decimal readings are kept exact ([`Dec`]); optional wire
//! fields are `Option` so that absence stays a valid, type-checked
//! state.

use crate::dec::Dec;
use vstd::prelude::*;

verus! {

/// How an operation of this library fails.
///
/// `Transport` stands for a failed network exchange (reported by the
/// surrounding application); `SchemaMismatch` for a body that is not
/// well-formed JSON or does not satisfy the model's required fields.
#[derive(Clone, Copy, Debug, PartialEq, Eq, Structural)]
pub enum ForecastError {
    Transport,
    SchemaMismatch,
}

/// Point-in-time conditions; also the element of the hourly series.
pub struct Weather {
    pub time: u64,
    pub summary: String,
    pub icon: String,
    pub nearest_storm_distance: Option<Dec>,
    pub nearest_storm_bearing: Option<u16>,
    pub precip_intensity: Dec,
    pub precip_probability: Dec,
    pub precip_type: Option<String>,
    pub temperature: Dec,
    pub apparent_temperature: Dec,
    pub dew_point: Dec,
    pub humidity: Dec,
    pub pressure: Dec,
    pub wind_speed: Dec,
    pub wind_gust: Dec,
    pub wind_bearing: u16,
    pub cloud_cover: Dec,
    pub uv_index: u8,
    pub visibility: Dec,
    pub ozone: Dec,
}

/// The model of [`Weather`].
pub struct WeatherV {
    pub time: u64,
    pub summary: Seq<char>,
    pub icon: Seq<char>,
    pub nearest_storm_distance: Option<Dec>,
    pub nearest_storm_bearing: Option<u16>,
    pub precip_intensity: Dec,
    pub precip_probability: Dec,
    pub precip_type: Option<Seq<char>>,
    pub temperature: Dec,
    pub apparent_temperature: Dec,
    pub dew_point: Dec,
    pub humidity: Dec,
    pub pressure: Dec,
    pub wind_speed: Dec,
    pub wind_gust: Dec,
    pub wind_bearing: u16,
    pub cloud_cover: Dec,
    pub uv_index: u8,
    pub visibility: Dec,
    pub ozone: Dec,
}

pub open spec fn opt_str_view(o: Option<String>) -> Option<Seq<char>> {
    match o {
        Some(s) => Some(s@),
        None => None,
    }
}

pub open spec fn strs_view(s: Seq<String>) -> Seq<Seq<char>> {
    Seq::new(s.len(), |i: int| s[i]@)
}

pub open spec fn weathers_view(s: Seq<Weather>) -> Seq<WeatherV> {
    Seq::new(s.len(), |i: int| s[i]@)
}

pub open spec fn precips_view(s: Seq<Precipitation>) -> Seq<PrecipitationV> {
    Seq::new(s.len(), |i: int| s[i]@)
}

pub open spec fn dailies_view(s: Seq<DailyWeather>) -> Seq<DailyWeatherV> {
    Seq::new(s.len(), |i: int| s[i]@)
}

pub open spec fn alerts_view(s: Seq<Alert>) -> Seq<AlertV> {
    Seq::new(s.len(), |i: int| s[i]@)
}

impl View for Weather {
    type V = WeatherV;

    open spec fn view(&self) -> WeatherV {
        WeatherV {
            time: self.time,
            summary: self.summary@,
            icon: self.icon@,
            nearest_storm_distance: self.nearest_storm_distance,
            nearest_storm_bearing: self.nearest_storm_bearing,
            precip_intensity: self.precip_intensity,
            precip_probability: self.precip_probability,
            precip_type: opt_str_view(self.precip_type),
            temperature: self.temperature,
            apparent_temperature: self.apparent_temperature,
            dew_point: self.dew_point,
            humidity: self.humidity,
            pressure: self.pressure,
            wind_speed: self.wind_speed,
            wind_gust: self.wind_gust,
            wind_bearing: self.wind_bearing,
            cloud_cover: self.cloud_cover,
            uv_index: self.uv_index,
            visibility: self.visibility,
            ozone: self.ozone,
        }
    }
}

/// A short-term precipitation forecast point; the element of the
/// minutely series.
pub struct Precipitation {
    pub time: u64,
    pub precip_intensity: Dec,
    pub precip_probability: Dec,
}

/// The model of [`Precipitation`].
#[derive(PartialEq, Eq, Structural)]
pub struct PrecipitationV {
    pub time: u64,
    pub precip_intensity: Dec,
    pub precip_probability: Dec,
}

impl View for Precipitation {
    type V = PrecipitationV;

    open spec fn view(&self) -> PrecipitationV {
        PrecipitationV {
            time: self.time,
            precip_intensity: self.precip_intensity,
            precip_probability: self.precip_probability,
        }
    }
}

/// One day's forecast.
pub struct DailyWeather {
    pub time: u64,
    pub summary: String,
    pub icon: String,
    pub sunrise_time: u64,
    pub sunset_time: u64,
    pub moon_phase: Dec,
    pub precip_intensity: Dec,
    pub precip_intensity_max: Dec,
    pub precip_intensity_max_time: Option<u64>,
    pub precip_probability: Dec,
    pub precip_type: Option<String>,
    pub temperature_high: Dec,
    pub temperature_high_time: u64,
    pub temperature_low: Dec,
    pub temperature_low_time: u64,
    pub apparent_temperature_high: Dec,
    pub apparent_temperature_high_time: u64,
    pub apparent_temperature_low: Dec,
    pub apparent_temperature_low_time: u64,
    pub dew_point: Dec,
    pub humidity: Dec,
    pub pressure: Dec,
    pub wind_speed: Dec,
    pub wind_gust: Dec,
    pub wind_gust_time: u64,
    pub wind_bearing: u16,
    pub cloud_cover: Dec,
    pub uv_index: u8,
    pub uv_index_time: u64,
    pub visibility: Dec,
    pub ozone: Dec,
}

/// The model of [`DailyWeather`].
pub struct DailyWeatherV {
    pub time: u64,
    pub summary: Seq<char>,
    pub icon: Seq<char>,
    pub sunrise_time: u64,
    pub sunset_time: u64,
    pub moon_phase: Dec,
    pub precip_intensity: Dec,
    pub precip_intensity_max: Dec,
    pub precip_intensity_max_time: Option<u64>,
    pub precip_probability: Dec,
    pub precip_type: Option<Seq<char>>,
    pub temperature_high: Dec,
    pub temperature_high_time: u64,
    pub temperature_low: Dec,
    pub temperature_low_time: u64,
    pub apparent_temperature_high: Dec,
    pub apparent_temperature_high_time: u64,
    pub apparent_temperature_low: Dec,
    pub apparent_temperature_low_time: u64,
    pub dew_point: Dec,
    pub humidity: Dec,
    pub pressure: Dec,
    pub wind_speed: Dec,
    pub wind_gust: Dec,
    pub wind_gust_time: u64,
    pub wind_bearing: u16,
    pub cloud_cover: Dec,
    pub uv_index: u8,
    pub uv_index_time: u64,
    pub visibility: Dec,
    pub ozone: Dec,
}

impl View for DailyWeather {
    type V = DailyWeatherV;

    open spec fn view(&self) -> DailyWeatherV {
        DailyWeatherV {
            time: self.time,
            summary: self.summary@,
            icon: self.icon@,
            sunrise_time: self.sunrise_time,
            sunset_time: self.sunset_time,
            moon_phase: self.moon_phase,
            precip_intensity: self.precip_intensity,
            precip_intensity_max: self.precip_intensity_max,
            precip_intensity_max_time: self.precip_intensity_max_time,
            precip_probability: self.precip_probability,
            precip_type: opt_str_view(self.precip_type),
            temperature_high: self.temperature_high,
            temperature_high_time: self.temperature_high_time,
            temperature_low: self.temperature_low,
            temperature_low_time: self.temperature_low_time,
            apparent_temperature_high: self.apparent_temperature_high,
            apparent_temperature_high_time: self.apparent_temperature_high_time,
            apparent_temperature_low: self.apparent_temperature_low,
            apparent_temperature_low_time: self.apparent_temperature_low_time,
            dew_point: self.dew_point,
            humidity: self.humidity,
            pressure: self.pressure,
            wind_speed: self.wind_speed,
            wind_gust: self.wind_gust,
            wind_gust_time: self.wind_gust_time,
            wind_bearing: self.wind_bearing,
            cloud_cover: self.cloud_cover,
            uv_index: self.uv_index,
            uv_index_time: self.uv_index_time,
            visibility: self.visibility,
            ozone: self.ozone,
        }
    }
}

/// A severe-weather notice.
pub struct Alert {
    pub title: String,
    pub time: u64,
    pub expires: u64,
    pub description: String,
    pub uri: String,
}

/// The model of [`Alert`].
pub struct AlertV {
    pub title: Seq<char>,
    pub time: u64,
    pub expires: u64,
    pub description: Seq<char>,
    pub uri: Seq<char>,
}

impl View for Alert {
    type V = AlertV;

    open spec fn view(&self) -> AlertV {
        AlertV {
            title: self.title@,
            time: self.time,
            expires: self.expires,
            description: self.description@,
            uri: self.uri@,
        }
    }
}

/// The minute-by-minute series.
pub struct MinutelySeries {
    pub summary: String,
    pub icon: String,
    pub data: Vec<Precipitation>,
}

/// The model of [`MinutelySeries`].
pub struct MinutelySeriesV {
    pub summary: Seq<char>,
    pub icon: Seq<char>,
    pub data: Seq<PrecipitationV>,
}

impl View for MinutelySeries {
    type V = MinutelySeriesV;

    open spec fn view(&self) -> MinutelySeriesV {
        MinutelySeriesV {
            summary: self.summary@,
            icon: self.icon@,
            data: precips_view(self.data@),
        }
    }
}

/// The hour-by-hour series.
pub struct HourlySeries {
    pub summary: String,
    pub icon: String,
    pub data: Vec<Weather>,
}

/// The model of [`HourlySeries`].
pub struct HourlySeriesV {
    pub summary: Seq<char>,
    pub icon: Seq<char>,
    pub data: Seq<WeatherV>,
}

impl View for HourlySeries {
    type V = HourlySeriesV;

    open spec fn view(&self) -> HourlySeriesV {
        HourlySeriesV {
            summary: self.summary@,
            icon: self.icon@,
            data: weathers_view(self.data@),
        }
    }
}

/// The day-by-day series.
pub struct DailySeries {
    pub summary: String,
    pub icon: String,
    pub data: Vec<DailyWeather>,
}

/// The model of [`DailySeries`].
pub struct DailySeriesV {
    pub summary: Seq<char>,
    pub icon: Seq<char>,
    pub data: Seq<DailyWeatherV>,
}

impl View for DailySeries {
    type V = DailySeriesV;

    open spec fn view(&self) -> DailySeriesV {
        DailySeriesV {
            summary: self.summary@,
            icon: self.icon@,
            data: dailies_view(self.data@),
        }
    }
}

/// Response metadata.  Its wire keys use dash-style naming
/// (`nearest-station`), unlike the rest of the payload.
pub struct Flags {
    pub sources: Vec<String>,
    pub nearest_station: Dec,
    pub units: String,
}

/// The model of [`Flags`].
pub struct FlagsV {
    pub sources: Seq<Seq<char>>,
    pub nearest_station: Dec,
    pub units: Seq<char>,
}

impl View for Flags {
    type V = FlagsV;

    open spec fn view(&self) -> FlagsV {
        FlagsV {
            sources: strs_view(self.sources@),
            nearest_station: self.nearest_station,
            units: self.units@,
        }
    }
}

/// The top-level response: one forecast for one coordinate query.
pub struct DarkskyResult {
    pub latitude: Dec,
    pub longitude: Dec,
    pub timezone: String,
    pub currently: Weather,
    pub minutely: Option<MinutelySeries>,
    pub hourly: HourlySeries,
    pub daily: DailySeries,
    pub alerts: Option<Vec<Alert>>,
    pub flags: Flags,
    pub offset: i8,
}

/// The model of [`DarkskyResult`].
pub struct DarkskyResultV {
    pub latitude: Dec,
    pub longitude: Dec,
    pub timezone: Seq<char>,
    pub currently: WeatherV,
    pub minutely: Option<MinutelySeriesV>,
    pub hourly: HourlySeriesV,
    pub daily: DailySeriesV,
    pub alerts: Option<Seq<AlertV>>,
    pub flags: FlagsV,
    pub offset: i8,
}

impl View for DarkskyResult {
    type V = DarkskyResultV;

    open spec fn view(&self) -> DarkskyResultV {
        DarkskyResultV {
            latitude: self.latitude,
            longitude: self.longitude,
            timezone: self.timezone@,
            currently: self.currently@,
            minutely: match self.minutely {
                Some(m) => Some(m@),
                None => None,
            },
            hourly: self.hourly@,
            daily: self.daily@,
            alerts: match self.alerts {
                Some(a) => Some(alerts_view(a@)),
                None => None,
            },
            flags: self.flags@,
            offset: self.offset,
        }
    }
}

} // verus!
