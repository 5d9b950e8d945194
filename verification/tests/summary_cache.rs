//! The summary instance: key derivation from the geometry, the prompt
//! text, response extraction, configuration, time labels, and the
//! snapshot text.

use wreport::clock::{resolve_time_label, utc_hhmm};
use wreport::errors::FetchError;
use wreport::summary::{
    build_prompt, extract_summary, generation_settings, require_api_key, summary_key, Candidate,
    Content, GenerateContentResponse, Part, SummaryCacheInstance,
};
use wreport::weather::{
    ForecastDetails, ForecastMeta, ForecastSummary, ForecastTimeInstant, ForecastTimePeriod,
    ForecastUnits, Geometry, InstantDetails, Properties, PublicProperties, PublicWeatherResponse,
    TimeSeriesData, TimeSeriesEntry,
};

fn empty_units() -> ForecastUnits {
    ForecastUnits {
        air_pressure_at_sea_level: None,
        air_temperature: None,
        air_temperature_max: None,
        air_temperature_min: None,
        cloud_area_fraction: None,
        cloud_area_fraction_high: None,
        cloud_area_fraction_low: None,
        cloud_area_fraction_medium: None,
        dew_point_temperature: None,
        fog_area_fraction: None,
        precipitation_amount: None,
        precipitation_amount_max: None,
        precipitation_amount_min: None,
        probability_of_precipitation: None,
        probability_of_thunder: None,
        relative_humidity: None,
        ultraviolet_index_clear_sky_max: None,
        wind_from_direction: None,
        wind_speed: None,
        wind_speed_of_gust: None,
    }
}

fn empty_instant() -> ForecastTimeInstant {
    ForecastTimeInstant {
        air_pressure_at_sea_level: None,
        air_temperature: None,
        cloud_area_fraction: None,
        cloud_area_fraction_high: None,
        cloud_area_fraction_low: None,
        cloud_area_fraction_medium: None,
        dew_point_temperature: None,
        fog_area_fraction: None,
        relative_humidity: None,
        wind_from_direction: None,
        wind_speed: None,
        wind_speed_of_gust: None,
    }
}

fn empty_period() -> ForecastTimePeriod {
    ForecastTimePeriod {
        air_temperature_max: None,
        air_temperature_min: None,
        precipitation_amount: None,
        precipitation_amount_max: None,
        precipitation_amount_min: None,
        probability_of_precipitation: None,
        probability_of_thunder: None,
        ultraviolet_index_clear_sky_max: None,
    }
}

fn public_response(entries: Vec<TimeSeriesEntry>) -> PublicWeatherResponse {
    PublicWeatherResponse {
        response_type: String::from("Feature"),
        geometry: Geometry {
            coordinates: [249_384_000, 601_699_000, 90_000_000],
            geometry_type: String::from("Point"),
        },
        properties: PublicProperties {
            meta: ForecastMeta { units: empty_units(), updated_at: String::from("now") },
            timeseries: entries,
        },
    }
}

/// The summary key takes latitude from geometry index 1 and longitude
/// from index 0 — the provider orders coordinates longitude first.
#[test]
fn summary_key_uses_provider_coordinate_order() {
    let w = public_response(Vec::new());
    assert_eq!(summary_key(&w), "60.1699,24.9384");
}

/// The full prompt text for a small forecast, exactly as sent.
#[test]
fn prompt_text_is_exact() {
    let mut instant = empty_instant();
    instant.air_temperature = Some(123);
    instant.wind_speed = Some(30);
    instant.relative_humidity = Some(820);
    instant.cloud_area_fraction = Some(1000);
    let mut period = empty_period();
    period.precipitation_amount = Some(2);
    period.probability_of_precipitation = Some(450);
    let entry = TimeSeriesEntry {
        time: String::from("t0"),
        data: TimeSeriesData {
            instant: InstantDetails { details: Some(instant) },
            next_1_hours: Some(ForecastDetails {
                summary: ForecastSummary { symbol_code: String::from("cloudy") },
                details: Some(period),
            }),
            next_6_hours: None,
            next_12_hours: None,
        },
    };
    let w = public_response(vec![entry]);
    let prompt = build_prompt(&w, "13:25").unwrap();
    let expected = "Generate a concise, natural weather description for a dashboard. \
Keep it under 25 words.\n\n\
Current time: 13:25\n\n\
Current conditions:\n\
Temperature: 12.3\u{b0}C\n\
Wind: 3.0 m/s with gusts of N/A m/s\n\
Humidity: 82.0%\n\
Cloud area fraction: 100.0%\n\
Fog area fraction: N/A%\n\n\
Forecast 1 hour:\n\
Summary: cloudy\n\
Precipitation: 0.2 mm with a probability of 45.0%\n\n\
Forecast 6 hours:\n\
Summary: N/A\n\
Max Temperature: N/A\u{b0}C\n\
Min Temperature: N/A\u{b0}C\n\
Precipitation: N/A mm with a probability of N/A%\n\n\
Forecast 12 hours:\n\
Summary: N/A\n\
Max Temperature: N/A\u{b0}C\n\
Min Temperature: N/A\u{b0}C\n\
Precipitation: N/A mm with a probability of N/A%\n\n\
Requirements:\n\
- Be conversational and friendly.\n\
- Do not mention the current temperature. It will be displayed seperately.\n\
- Upcoming temperatures should be included if there is a significant change.\n\
- For wind: Use descriptive terms (calm, light, moderate, strong, extreme) - NEVER use specific values.\n\
- Use natural language, no technical jargon.\n\
- NO EMOJIS.\n\n\
Generate description:";
    assert_eq!(prompt, expected);
}

/// An empty time series cannot be summarised.
#[test]
fn prompt_without_timeseries_is_not_found() {
    let w = public_response(Vec::new());
    match build_prompt(&w, "00:00") {
        Err(FetchError::NotFound(m)) => assert_eq!(m, "No timeseries data available"),
        other => panic!("expected NotFound, got {:?}", other),
    }
}

/// A first entry without instantaneous readings cannot be summarised.
#[test]
fn prompt_without_instant_is_not_found() {
    let entry = TimeSeriesEntry {
        time: String::from("t0"),
        data: TimeSeriesData {
            instant: InstantDetails { details: None },
            next_1_hours: None,
            next_6_hours: None,
            next_12_hours: None,
        },
    };
    let w = public_response(vec![entry]);
    match build_prompt(&w, "00:00") {
        Err(FetchError::NotFound(m)) => assert_eq!(m, "No instant data available"),
        other => panic!("expected NotFound, got {:?}", other),
    }
}

/// The first candidate's first part is the summary.
#[test]
fn extract_takes_first_candidate_first_part() {
    let resp = GenerateContentResponse {
        candidates: vec![
            Candidate {
                content: Content {
                    parts: vec![
                        Part { text: String::from("Calm and cloudy.") },
                        Part { text: String::from("ignored") },
                    ],
                },
            },
            Candidate { content: Content { parts: vec![Part { text: String::from("ignored") }] } },
        ],
    };
    assert_eq!(extract_summary(&resp).unwrap(), "Calm and cloudy.");
}

/// No candidates, and no parts, are distinct malformed-response failures.
#[test]
fn extract_rejects_malformed_responses() {
    let resp = GenerateContentResponse { candidates: Vec::new() };
    match extract_summary(&resp) {
        Err(FetchError::MalformedUpstreamResponse(m)) => assert_eq!(m, "No candidates in response"),
        other => panic!("expected MalformedUpstreamResponse, got {:?}", other),
    }
    let resp = GenerateContentResponse {
        candidates: vec![Candidate { content: Content { parts: Vec::new() } }],
    };
    match extract_summary(&resp) {
        Err(FetchError::MalformedUpstreamResponse(m)) => assert_eq!(m, "No parts in content"),
        other => panic!("expected MalformedUpstreamResponse, got {:?}", other),
    }
}

/// An absent key is `ConfigMissing`, rendered as the environment reader
/// renders it; a present key passes through unchanged.
#[test]
fn api_key_requirement() {
    match require_api_key(None) {
        Err(FetchError::ConfigMissing(m)) => assert_eq!(m, "environment variable not found"),
        other => panic!("expected ConfigMissing, got {:?}", other),
    }
    assert_eq!(require_api_key(Some(String::from("SECRET-REDACTED"))).unwrap(), "SECRET-REDACTED");
}

/// The generation parameters are fixed.
#[test]
fn generation_parameters_are_fixed() {
    let g = generation_settings();
    assert_eq!(g.temperature_hundredths, 70);
    assert_eq!(g.max_output_tokens, 1000);
    assert_eq!(g.top_p_hundredths, 95);
}

/// Without a timezone the label reads the moment as universal time.
#[test]
fn time_label_defaults_to_utc() {
    let now = 13 * 3600 + 25 * 60;
    assert_eq!(utc_hhmm(now), "13:25");
    assert_eq!(resolve_time_label(now, &None).unwrap(), "13:25");
    assert_eq!(utc_hhmm(0), "00:00");
}

/// A known zone shifts the label; an unknown one fails as the timezone
/// parser does.
#[test]
fn time_label_in_named_zone() {
    // Midnight at the epoch is 02:00 in Helsinki (standard time, UTC+2).
    assert_eq!(resolve_time_label(0, &Some(String::from("Europe/Helsinki"))).unwrap(), "02:00");
    match resolve_time_label(0, &Some(String::from("Not/AZone"))) {
        Err(FetchError::UpstreamParseFailed(m)) => assert_eq!(m, "failed to parse timezone"),
        other => panic!("expected UpstreamParseFailed, got {:?}", other),
    }
}

/// The summary snapshot text: one object keyed by coordinate key, each
/// value carrying the stored second and the text.
#[test]
fn summary_snapshot_text() {
    let mut inst = SummaryCacheInstance::new();
    inst.store.insert(String::from("60.1699,24.9384"), String::from("Calm and cloudy."), 1234);
    assert_eq!(
        inst.snapshot_json(),
        "{\"60.1699,24.9384\":{\"time\":1234,\"summary\":\"Calm and cloudy.\"}}"
    );
    let v: serde_json::Value = serde_json::from_str(&inst.snapshot_json()).unwrap();
    assert_eq!(v["60.1699,24.9384"]["time"].as_u64(), Some(1234));
    assert_eq!(v["60.1699,24.9384"]["summary"].as_str(), Some("Calm and cloudy."));
}

/// The summary instance never sweeps: an expired entry stays in the map
/// even after a later insert, though it is no longer served.
#[test]
fn summary_instance_does_not_sweep() {
    let mut inst = SummaryCacheInstance::new();
    inst.store.insert(String::from("a"), String::from("old"), 1000);
    inst.store.insert(String::from("b"), String::from("new"), 1700);
    assert_eq!(inst.store.stored_at(&String::from("a")), Some(1000));
    assert!(inst.store.lookup(&String::from("a"), 1700).is_none());
}
