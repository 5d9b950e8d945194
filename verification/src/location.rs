//! The location cache: a permanent, snapshot-persisted map from the exact
//! place text a caller supplied to the coordinates the geocoder answered.
//!
//! The key is the raw string, with no normalisation of case or whitespace,
//! and there is no time-to-live: a place once resolved is never looked up
//! again for the life of the cache. The loader's computing half lives here
//! too: picking the first geocoder result and reading its decimal texts
//! into fixed-point coordinates.

use vstd::prelude::*;

use crate::decimal::{format_e7_json, parse_decimal_e7, spec_json_number, spec_parse_e7};
use crate::errors::FetchError;
use crate::json::{append_quoted, spec_quoted};
use crate::store::{CacheEntry, CacheStore};

verus! {

/// A resolved place: latitude and longitude in degrees at scale 10^7,
/// positive north and east. An immutable value, freely copyable.
#[derive(Clone, Copy, PartialEq, Eq, Structural, Debug)]
pub struct Coordinates {
    pub lat_e7: i64,
    pub lon_e7: i64,
}

impl Coordinates {
    /// Builds a coordinate pair from degrees at scale 10^7.
    pub fn new(lat_e7: i64, lon_e7: i64) -> (c: Self)
        ensures
            c.lat_e7 == lat_e7,
            c.lon_e7 == lon_e7,
    {
        Coordinates { lat_e7, lon_e7 }
    }

    /// Latitude in degrees at scale 10^7.
    pub fn lat(&self) -> (r: i64)
        ensures
            r == self.lat_e7,
    {
        self.lat_e7
    }

    /// Longitude in degrees at scale 10^7.
    pub fn lon(&self) -> (r: i64)
        ensures
            r == self.lon_e7,
    {
        self.lon_e7
    }
}

/// What the location loader makes of the geocoder's answer, a list of
/// results each carrying latitude and longitude as decimal texts: the
/// first result's coordinates, read at scale 10^7; `NotFound` when the
/// list is empty; `UpstreamParseFailed` when a text does not read as a
/// decimal number.
pub fn coordinates_from_geocode(results: &Vec<(String, String)>) -> (r: Result<
    Coordinates,
    FetchError,
>)
    ensures
        match r {
            Result::Ok(c) => results@.len() > 0 && spec_parse_e7(results@[0].0@) == Some(
                c.lat_e7 as int,
            ) && spec_parse_e7(results@[0].1@) == Some(c.lon_e7 as int),
            Result::Err(e) => match e {
                FetchError::NotFound(m) => results@.len() == 0 && m@ == "No results found"@,
                FetchError::UpstreamParseFailed(m) => results@.len() > 0 && (spec_parse_e7(
                    results@[0].0@,
                ) is None || spec_parse_e7(results@[0].1@) is None) && m@
                    == "invalid float literal"@,
                _ => false,
            },
        },
{
    if results.len() == 0 {
        return Result::Err(FetchError::NotFound(String::from_str("No results found")));
    }
    let lat = parse_decimal_e7(results[0].0.as_str());
    let lon = parse_decimal_e7(results[0].1.as_str());
    match (lat, lon) {
        (Option::Some(la), Option::Some(lo)) => Result::Ok(Coordinates::new(la, lo)),
        _ => Result::Err(FetchError::UpstreamParseFailed(
            String::from_str("invalid float literal"),
        )),
    }
}

/// One key and its coordinates, as the snapshot file writes them:
/// `"key":{"lat":60.1699,"lon":24.9384}`.
pub open spec fn spec_location_pair(key: Seq<char>, c: Coordinates) -> Seq<char> {
    spec_quoted(key) + ":{\"lat\":"@ + spec_json_number(c.lat_e7 as int) + ",\"lon\":"@
        + spec_json_number(c.lon_e7 as int) + "}"@
}

/// The members of the location snapshot object, comma separated, in entry
/// order.
pub open spec fn spec_location_body(s: Seq<(String, CacheEntry<Coordinates>)>) -> Seq<char>
    decreases s.len(),
{
    if s.len() == 0 {
        Seq::<char>::empty()
    } else if s.len() == 1 {
        spec_location_pair(s[0].0@, s[0].1.value)
    } else {
        spec_location_body(s.drop_last()) + seq![','] + spec_location_pair(
            s.last().0@,
            s.last().1.value,
        )
    }
}

/// The whole location snapshot text: one JSON object keyed by place text,
/// each value the stored coordinates. The location cache stores no
/// timestamps on disk, for its entries never expire.
pub open spec fn spec_location_snapshot(s: Seq<(String, CacheEntry<Coordinates>)>) -> Seq<char> {
    seq!['{'] + spec_location_body(s) + seq!['}']
}

/// The permanent location instance: no time-to-live, no eviction sweep.
pub struct LocationCacheInstance {
    pub store: CacheStore<Coordinates>,
}

impl LocationCacheInstance {
    /// Builds the instance an application constructs once at startup: an
    /// empty, not-yet-loaded store that never expires an entry.
    pub fn new() -> (r: Self)
        ensures
            r.store.wf(),
            !r.store.spec_loaded(),
            r.store.contents() == Map::<Seq<char>, CacheEntry<Coordinates>>::empty(),
            r.store.spec_ttl() is None,
            !r.store.spec_sweep(),
    {
        LocationCacheInstance { store: CacheStore::new(Option::None, false) }
    }

    /// Writes the snapshot text that persists this instance, exactly as
    /// [`spec_location_snapshot`] lays it out over the stored entries.
    pub fn snapshot_json(&self) -> (r: String)
        ensures
            r@ == spec_location_snapshot(self.store.spec_entries()),
    {
        let entries = self.store.entries();
        let n = entries.len();
        let mut out = String::new();
        crate::decimal::push_char(&mut out, '{');
        let mut i: usize = 0;
        while i < n
            invariant
                0 <= i <= n,
                n == entries@.len(),
                entries@ == self.store.spec_entries(),
                out@ == seq!['{'] + spec_location_body(entries@.take(i as int)),
            decreases n - i,
        {
            proof {
                assert(entries@.take(i + 1).drop_last() =~= entries@.take(i as int));
                assert(entries@.take(i + 1).last() == entries@[i as int]);
                assert(entries@.take(i + 1)[0] == entries@[0]);
            }
            if i > 0 {
                crate::decimal::push_char(&mut out, ',');
            }
            append_quoted(&mut out, entries[i].0.as_str());
            out.append(":{\"lat\":");
            let lat = format_e7_json(entries[i].1.value.lat_e7);
            out.append(lat.as_str());
            out.append(",\"lon\":");
            let lon = format_e7_json(entries[i].1.value.lon_e7);
            out.append(lon.as_str());
            out.append("}");
            proof {
                assert(out@ =~= seq!['{'] + spec_location_body(entries@.take(i + 1)));
            }
            i = i + 1;
        }
        crate::decimal::push_char(&mut out, '}');
        proof {
            assert(entries@.take(n as int) =~= entries@);
            assert(out@ =~= spec_location_snapshot(self.store.spec_entries()));
        }
        out
    }
}

} // verus!
