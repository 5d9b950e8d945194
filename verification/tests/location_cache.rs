//! The location instance: geocoder handling, the permanent cache, and the
//! snapshot text.

use wreport::errors::FetchError;
use wreport::location::{Coordinates, LocationCacheInstance, coordinates_from_geocode};

/// Geocoding "Helsinki" fills the cache, the snapshot text is exactly the
/// persisted object, and a second lookup in the same run needs no further
/// outbound request.
#[test]
fn helsinki_scenario() {
    let mut inst = LocationCacheInstance::new();
    let place = String::from("Helsinki");
    let mut outbound = 0;

    // Fast path: miss.
    assert!(inst.store.lookup(&place, 10).is_none());
    // Slow path: first touch, no snapshot file to fold in.
    if !inst.store.is_loaded() {
        inst.store.mark_loaded();
    }
    // Re-check, then the one outbound geocoder call.
    if inst.store.needs_refresh(&place, 10) {
        outbound += 1;
        let results = vec![(String::from("60.1699"), String::from("24.9384"))];
        let coords = coordinates_from_geocode(&results).unwrap();
        assert_eq!(coords.lat(), 601_699_000);
        assert_eq!(coords.lon(), 249_384_000);
        inst.store.insert(place.clone(), coords, 10);
    }

    assert_eq!(
        inst.snapshot_json(),
        "{\"Helsinki\":{\"lat\":60.1699,\"lon\":24.9384}}"
    );

    // Second lookup of the same text: zero further outbound requests.
    match inst.store.lookup(&place, 999_999) {
        Some(c) => {
            assert_eq!(c.lat(), 601_699_000);
            assert_eq!(c.lon(), 249_384_000);
        }
        None => panic!("expected the cached coordinates"),
    }
    assert_eq!(outbound, 1);
}

/// The snapshot text parses as JSON with the expected numbers, as the
/// process will read it back after a restart.
#[test]
fn snapshot_text_reads_back_as_json() {
    let mut inst = LocationCacheInstance::new();
    inst.store
        .insert(String::from("Helsinki"), Coordinates::new(601_699_000, 249_384_000), 0);
    let text = inst.snapshot_json();
    let v: serde_json::Value = serde_json::from_str(&text).unwrap();
    assert_eq!(v["Helsinki"]["lat"].as_f64(), Some(60.1699));
    assert_eq!(v["Helsinki"]["lon"].as_f64(), Some(24.9384));
}

/// Keys are the exact caller text: case and whitespace distinguish them.
#[test]
fn keys_are_exact_strings() {
    let mut inst = LocationCacheInstance::new();
    inst.store
        .insert(String::from("Helsinki"), Coordinates::new(601_699_000, 249_384_000), 0);
    assert!(inst.store.lookup(&String::from("helsinki"), 1).is_none());
    assert!(inst.store.lookup(&String::from(" Helsinki"), 1).is_none());
    assert!(inst.store.lookup(&String::from("Helsinki"), 1).is_some());
}

/// A key needing JSON escapes is written escaped in the snapshot.
#[test]
fn snapshot_escapes_keys() {
    let mut inst = LocationCacheInstance::new();
    inst.store
        .insert(String::from("He said \"hi\"\\"), Coordinates::new(10_000_000, 20_000_000), 0);
    let text = inst.snapshot_json();
    assert_eq!(
        text,
        "{\"He said \\\"hi\\\"\\\\\":{\"lat\":1.0,\"lon\":2.0}}"
    );
    let v: serde_json::Value = serde_json::from_str(&text).unwrap();
    assert_eq!(v["He said \"hi\"\\"]["lat"].as_f64(), Some(1.0));
}

/// An empty geocoder answer is `NotFound`, rendered as the boundary
/// renders it.
#[test]
fn empty_geocode_is_not_found() {
    let results: Vec<(String, String)> = Vec::new();
    match coordinates_from_geocode(&results) {
        Err(FetchError::NotFound(m)) => assert_eq!(m, "No results found"),
        other => panic!("expected NotFound, got {:?}", other),
    }
}

/// A coordinate text that does not read as a decimal is a parse failure.
#[test]
fn unreadable_coordinate_is_parse_failure() {
    let results = vec![(String::from("sixty"), String::from("24.9384"))];
    match coordinates_from_geocode(&results) {
        Err(FetchError::UpstreamParseFailed(m)) => assert_eq!(m, "invalid float literal"),
        other => panic!("expected UpstreamParseFailed, got {:?}", other),
    }
}

/// Only the first geocoder result counts.
#[test]
fn first_result_wins() {
    let results = vec![
        (String::from("1.5"), String::from("2.5")),
        (String::from("9.0"), String::from("9.0")),
    ];
    let c = coordinates_from_geocode(&results).unwrap();
    assert_eq!(c.lat(), 15_000_000);
    assert_eq!(c.lon(), 25_000_000);
}

/// An empty instance writes an empty object.
#[test]
fn empty_snapshot_is_empty_object() {
    let inst = LocationCacheInstance::new();
    assert_eq!(inst.snapshot_json(), "{}");
}
