//! The weather instance: key quantization, the 600 second window, the
//! public view, and the current-temperature path.

use wreport::errors::FetchError;
use wreport::location::Coordinates;
use wreport::weather::{
    coord_key, current_temperature, to_public, ForecastMeta, ForecastTimeInstant, ForecastUnits,
    Geometry, InstantDetails, Properties, PublicWeatherResponse, TimeSeriesData, TimeSeriesEntry,
    WeatherCacheInstance, WeatherResponse,
};

fn empty_units() -> ForecastUnits {
    ForecastUnits {
        air_pressure_at_sea_level: None,
        air_temperature: None,
        air_temperature_max: None,
        air_temperature_min: None,
        cloud_area_fraction: None,
        cloud_area_fraction_high: None,
        cloud_area_fraction_low: None,
        cloud_area_fraction_medium: None,
        dew_point_temperature: None,
        fog_area_fraction: None,
        precipitation_amount: None,
        precipitation_amount_max: None,
        precipitation_amount_min: None,
        probability_of_precipitation: None,
        probability_of_thunder: None,
        relative_humidity: None,
        ultraviolet_index_clear_sky_max: None,
        wind_from_direction: None,
        wind_speed: None,
        wind_speed_of_gust: None,
    }
}

fn empty_instant() -> ForecastTimeInstant {
    ForecastTimeInstant {
        air_pressure_at_sea_level: None,
        air_temperature: None,
        cloud_area_fraction: None,
        cloud_area_fraction_high: None,
        cloud_area_fraction_low: None,
        cloud_area_fraction_medium: None,
        dew_point_temperature: None,
        fog_area_fraction: None,
        relative_humidity: None,
        wind_from_direction: None,
        wind_speed: None,
        wind_speed_of_gust: None,
    }
}

fn response_with_instant(instant: Option<ForecastTimeInstant>) -> WeatherResponse {
    WeatherResponse {
        response_type: String::from("Feature"),
        geometry: Geometry {
            coordinates: [249_384_000, 601_699_000, 90_000_000],
            geometry_type: String::from("Point"),
        },
        properties: Properties {
            meta: ForecastMeta { units: empty_units(), updated_at: String::from("now") },
            timeseries: vec![TimeSeriesEntry {
                time: String::from("t0"),
                data: TimeSeriesData {
                    instant: InstantDetails { details: instant },
                    next_1_hours: None,
                    next_6_hours: None,
                    next_12_hours: None,
                },
            }],
        },
    }
}

/// Two nearby coordinates collapse to one slot: the key quantizes to four
/// decimal places.
#[test]
fn coord_key_quantizes() {
    assert_eq!(coord_key(&Coordinates::new(601_699_000, 249_384_000)), "60.1699,24.9384");
    // About five metres away: the same key.
    assert_eq!(coord_key(&Coordinates::new(601_699_400, 249_384_300)), "60.1699,24.9384");
    assert_eq!(coord_key(&Coordinates::new(-15_000_000, 0)), "-1.5000,0.0000");
}

/// A weather entry inserted at T is served as cached at T+599 and fetched
/// anew at T+601.
#[test]
fn weather_entry_ttl_window() {
    let mut inst = WeatherCacheInstance::new();
    let k = String::from("60.1699,24.9384");
    let t = 50_000;
    let mut fetches = 0;

    if inst.store.needs_refresh(&k, t) {
        fetches += 1;
        inst.store.insert(k.clone(), response_with_instant(None), t);
    }
    assert!(inst.store.lookup(&k, t + 599).is_some());
    assert_eq!(fetches, 1);

    if inst.store.needs_refresh(&k, t + 601) {
        fetches += 1;
        inst.store.insert(k.clone(), response_with_instant(None), t + 601);
    }
    assert_eq!(fetches, 2);
    assert_eq!(inst.store.stored_at(&k), Some(t + 601));
}

/// The public view carries the response's fields over unchanged.
#[test]
fn public_view_keeps_fields() {
    let w = response_with_instant(None);
    let p = to_public(w);
    assert_eq!(p.response_type, "Feature");
    assert_eq!(p.geometry.coordinates, [249_384_000, 601_699_000, 90_000_000]);
    assert_eq!(p.properties.meta.updated_at, "now");
    assert_eq!(p.properties.timeseries.len(), 1);
}

/// A first time-series entry without an `air_temperature` field makes the
/// current-temperature path report `NotFound`, not a parse failure.
#[test]
fn missing_air_temperature_is_not_found() {
    let p = to_public(response_with_instant(Some(empty_instant())));
    match current_temperature(&p) {
        Err(FetchError::NotFound(m)) => assert_eq!(m, "Temperature data not found"),
        other => panic!("expected NotFound, got {:?}", other),
    }
}

/// A present temperature is returned in tenths.
#[test]
fn present_air_temperature_is_returned() {
    let mut instant = empty_instant();
    instant.air_temperature = Some(123);
    let p = to_public(response_with_instant(Some(instant)));
    assert_eq!(current_temperature(&p).unwrap(), 123);
}

/// An absent instantaneous block is `NotFound` too.
#[test]
fn missing_instant_block_is_not_found() {
    let p = to_public(response_with_instant(None));
    match current_temperature(&p) {
        Err(FetchError::NotFound(m)) => assert_eq!(m, "Temperature data not found"),
        other => panic!("expected NotFound, got {:?}", other),
    }
}

/// The error message method renders the carried text verbatim.
#[test]
fn error_messages_render_verbatim() {
    let e = FetchError::UpstreamRequestFailed(String::from("connection refused"));
    assert_eq!(e.message(), "connection refused");
    let e = FetchError::PersistenceFailed(String::from("disk full"));
    assert_eq!(e.message(), "disk full");
}

/// The weather snapshot text parses back through the same wire shapes the
/// process reads at startup.
#[test]
fn weather_snapshot_reads_back_as_json() {
    let mut inst = WeatherCacheInstance::new();
    let mut instant = empty_instant();
    instant.air_temperature = Some(123);
    inst.store.insert(
        String::from("60.1699,24.9384"),
        response_with_instant(Some(instant)),
        1234,
    );
    let text = inst.snapshot_json();
    let v: serde_json::Value = serde_json::from_str(&text).unwrap();
    let entry = &v["60.1699,24.9384"];
    assert_eq!(entry["time"].as_u64(), Some(1234));
    assert_eq!(entry["weather"]["type"].as_str(), Some("Feature"));
    assert_eq!(entry["weather"]["geometry"]["coordinates"][0].as_f64(), Some(24.9384));
    assert_eq!(entry["weather"]["geometry"]["coordinates"][1].as_f64(), Some(60.1699));
    let first = &entry["weather"]["properties"]["timeseries"][0];
    assert_eq!(first["data"]["instant"]["details"]["air_temperature"].as_f64(), Some(12.3));
    assert!(first["data"]["next_1_hours"].is_null());
    assert!(entry["weather"]["properties"]["meta"]["units"]["wind_speed"].is_null());
}
