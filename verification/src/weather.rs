//! The weather cache and its forecast data model.
//!
//! Numeric readings are held in tenths of their unit (a temperature of
//! 12.3 degrees is 123), and geometry coordinates in degrees at scale
//! 10^7, so that freshness, key derivation and extraction are exact
//! integer logic. The cache key quantizes a coordinate to four decimal
//! places — about eleven metres, so two nearby coordinates share one slot
//! by design — and the instance expires entries after 600 seconds,
//! sweeping the whole map on every successful insert.

use vstd::prelude::*;

use crate::decimal::{format_e7_fixed4, spec_fixed4};
use crate::errors::FetchError;
use crate::location::Coordinates;
use crate::store::{CacheEntry, CacheStore};

verus! {

/// The forecast point: `coordinates` is ordered longitude, latitude,
/// altitude — index 1 is the latitude — with degrees at scale 10^7 and
/// altitude in metres at the same scale.
#[derive(Clone, Debug)]
pub struct Geometry {
    pub coordinates: [i64; 3],
    pub geometry_type: String,
}

/// Instantaneous readings, each in tenths of its unit, absent when the
/// provider omitted it.
#[derive(Clone, Debug)]
pub struct ForecastTimeInstant {
    pub air_pressure_at_sea_level: Option<i64>,
    pub air_temperature: Option<i64>,
    pub cloud_area_fraction: Option<i64>,
    pub cloud_area_fraction_high: Option<i64>,
    pub cloud_area_fraction_low: Option<i64>,
    pub cloud_area_fraction_medium: Option<i64>,
    pub dew_point_temperature: Option<i64>,
    pub fog_area_fraction: Option<i64>,
    pub relative_humidity: Option<i64>,
    pub wind_from_direction: Option<i64>,
    pub wind_speed: Option<i64>,
    pub wind_speed_of_gust: Option<i64>,
}

/// Readings over a forecast period, each in tenths of its unit.
#[derive(Clone, Debug)]
pub struct ForecastTimePeriod {
    pub air_temperature_max: Option<i64>,
    pub air_temperature_min: Option<i64>,
    pub precipitation_amount: Option<i64>,
    pub precipitation_amount_max: Option<i64>,
    pub precipitation_amount_min: Option<i64>,
    pub probability_of_precipitation: Option<i64>,
    pub probability_of_thunder: Option<i64>,
    pub ultraviolet_index_clear_sky_max: Option<i64>,
}

/// The symbolic summary of a forecast period.
#[derive(Clone, Debug)]
pub struct ForecastSummary {
    pub symbol_code: String,
}

/// A forecast period: its symbol and, when given, its readings.
#[derive(Clone, Debug)]
pub struct ForecastDetails {
    pub summary: ForecastSummary,
    pub details: Option<ForecastTimePeriod>,
}

/// The instantaneous block of a time-series step.
#[derive(Clone, Debug)]
pub struct InstantDetails {
    pub details: Option<ForecastTimeInstant>,
}

/// One time-series step: the instant and the one, six and twelve hour
/// periods that follow it.
#[derive(Clone, Debug)]
pub struct TimeSeriesData {
    pub instant: InstantDetails,
    pub next_1_hours: Option<ForecastDetails>,
    pub next_6_hours: Option<ForecastDetails>,
    pub next_12_hours: Option<ForecastDetails>,
}

/// A time-series step and the time it speaks of; the first entry of a
/// response is treated as "now".
#[derive(Clone, Debug)]
pub struct TimeSeriesEntry {
    pub time: String,
    pub data: TimeSeriesData,
}

/// The unit of each reading, as the provider names them.
#[derive(Clone, Debug)]
pub struct ForecastUnits {
    pub air_pressure_at_sea_level: Option<String>,
    pub air_temperature: Option<String>,
    pub air_temperature_max: Option<String>,
    pub air_temperature_min: Option<String>,
    pub cloud_area_fraction: Option<String>,
    pub cloud_area_fraction_high: Option<String>,
    pub cloud_area_fraction_low: Option<String>,
    pub cloud_area_fraction_medium: Option<String>,
    pub dew_point_temperature: Option<String>,
    pub fog_area_fraction: Option<String>,
    pub precipitation_amount: Option<String>,
    pub precipitation_amount_max: Option<String>,
    pub precipitation_amount_min: Option<String>,
    pub probability_of_precipitation: Option<String>,
    pub probability_of_thunder: Option<String>,
    pub relative_humidity: Option<String>,
    pub ultraviolet_index_clear_sky_max: Option<String>,
    pub wind_from_direction: Option<String>,
    pub wind_speed: Option<String>,
    pub wind_speed_of_gust: Option<String>,
}

/// The meta block of a forecast response.
#[derive(Clone, Debug)]
pub struct ForecastMeta {
    pub units: ForecastUnits,
    pub updated_at: String,
}

/// The properties of a forecast response: its meta block and the ordered
/// time series.
#[derive(Clone, Debug)]
pub struct Properties {
    pub meta: ForecastMeta,
    pub timeseries: Vec<TimeSeriesEntry>,
}

/// A full forecast response from the provider.
#[derive(Clone, Debug)]
pub struct WeatherResponse {
    pub response_type: String,
    pub geometry: Geometry,
    pub properties: Properties,
}

/// The trimmed view served to consumers: geometry and the time-series and
/// meta fields they need.
#[derive(Clone, Debug)]
pub struct PublicWeatherResponse {
    pub response_type: String,
    pub geometry: Geometry,
    pub properties: PublicProperties,
}

/// The properties of the public view.
#[derive(Clone, Debug)]
pub struct PublicProperties {
    pub meta: ForecastMeta,
    pub timeseries: Vec<TimeSeriesEntry>,
}

/// The weather cache key for a coordinate: latitude and longitude
/// quantized to four decimal places, comma separated.
pub open spec fn spec_coord_key(lat_e7: int, lon_e7: int) -> Seq<char> {
    spec_fixed4(lat_e7) + seq![','] + spec_fixed4(lon_e7)
}

/// Writes the weather cache key of a coordinate.
pub fn coord_key(coord: &Coordinates) -> (r: String)
    ensures
        r@ == spec_coord_key(coord.lat_e7 as int, coord.lon_e7 as int),
{
    let mut out = format_e7_fixed4(coord.lat_e7);
    crate::decimal::push_char(&mut out, ',');
    let lon = format_e7_fixed4(coord.lon_e7);
    out.append(lon.as_str());
    proof {
        assert(out@ =~= spec_coord_key(coord.lat_e7 as int, coord.lon_e7 as int));
    }
    out
}

/// Turns an owned forecast response into the public view, keeping every
/// field it carries over unchanged.
pub fn to_public(w: WeatherResponse) -> (r: PublicWeatherResponse)
    ensures
        r.response_type == w.response_type,
        r.geometry == w.geometry,
        r.properties.meta == w.properties.meta,
        r.properties.timeseries == w.properties.timeseries,
{
    PublicWeatherResponse {
        response_type: w.response_type,
        geometry: w.geometry,
        properties: PublicProperties {
            meta: w.properties.meta,
            timeseries: w.properties.timeseries,
        },
    }
}

/// The current temperature of a public response, in tenths of a degree:
/// the `air_temperature` of the first time-series entry's instantaneous
/// block. `NotFound` — never a parse failure — exactly when the series is
/// empty, the block is absent, or the block has no temperature.
pub fn current_temperature(w: &PublicWeatherResponse) -> (r: Result<i64, FetchError>)
    ensures
        match r {
            Result::Ok(t) => w.properties.timeseries@.len() > 0 && (
            w.properties.timeseries@[0].data.instant.details matches Some(d) && d.air_temperature
                == Some(t)),
            Result::Err(e) => match e {
                FetchError::NotFound(m) => m@ == "Temperature data not found"@ && (
                w.properties.timeseries@.len() == 0
                    || w.properties.timeseries@[0].data.instant.details is None
                    || (w.properties.timeseries@[0].data.instant.details matches Some(d)
                    && d.air_temperature is None)),
                _ => false,
            },
        },
{
    if w.properties.timeseries.len() > 0 {
        match &w.properties.timeseries[0].data.instant.details {
            Option::Some(d) => match d.air_temperature {
                Option::Some(t) => {
                    return Result::Ok(t);
                },
                Option::None => {},
            },
            Option::None => {},
        }
    }
    Result::Err(FetchError::NotFound(String::from_str("Temperature data not found")))
}

/// The weather instance: 600 second time-to-live, eviction sweep on every
/// successful insert.
pub struct WeatherCacheInstance {
    pub store: CacheStore<WeatherResponse>,
}

/// How long a weather or summary entry stays trusted, in seconds.
pub const CACHE_TTL_SECONDS: u64 = 600;

impl WeatherCacheInstance {
    /// Builds the instance an application constructs once at startup: an
    /// empty, not-yet-loaded store that expires entries after 600 seconds
    /// and sweeps expired ones away on each insert.
    pub fn new() -> (r: Self)
        ensures
            r.store.wf(),
            !r.store.spec_loaded(),
            r.store.contents() == Map::<Seq<char>, CacheEntry<WeatherResponse>>::empty(),
            r.store.spec_ttl() == Some(CACHE_TTL_SECONDS),
            r.store.spec_sweep(),
    {
        WeatherCacheInstance { store: CacheStore::new(Option::Some(CACHE_TTL_SECONDS), true) }
    }
}

} // verus!
