//! Time for the cache core: the clock reading the application feeds into
//! every freshness judgement, and the wall-clock label the prompt builder
//! puts in front of the text-generation provider.
//!
//! The named-zone label is the one computation only an outside crate can
//! do (it needs the bundled timezone tables); the UTC label is plain
//! arithmetic and is verified here.

use vstd::prelude::*;

use crate::decimal::{format_padded, spec_padded};
use crate::errors::FetchError;

verus! {

/// Whether a timezone name is in the timezone database bundled with the
/// build: a pure lookup in a compile-time table.
pub uninterp spec fn is_tz_name(name: Seq<char>) -> bool;

/// The "HH:MM" wall-clock label of a moment, read in a named zone: a
/// function of the moment, the name and the bundled timezone data alone.
pub uninterp spec fn local_hhmm(now_s: u64, name: Seq<char>) -> Seq<char>;

/// Relies on `chrono::Utc::now`: the current time as whole seconds since
/// the Unix epoch (zero if the platform clock reads before it). Nothing
/// further is assumed of the clock.
#[verifier::external_body]
pub fn now_epoch_seconds() -> u64 {
    let t = chrono::Utc::now().timestamp();
    u64::try_from(t).unwrap_or(0)
}

/// Relies on `chrono_tz::Tz::from_str`: whether the name denotes a zone of
/// the bundled timezone database.
#[verifier::external_body]
pub(crate) fn timezone_known(name: &str) -> (r: bool)
    ensures
        r == is_tz_name(name@),
{
    name.parse::<chrono_tz::Tz>().is_ok()
}

/// Relies on chrono's timezone conversion and `%H:%M` formatting, through
/// `chrono_tz`'s bundled tables: the wall-clock label of `now_s` in the
/// named zone.
#[verifier::external_body]
pub(crate) fn hhmm_in_zone(now_s: u64, name: &str) -> (r: String)
    requires
        is_tz_name(name@),
    ensures
        r@ == local_hhmm(now_s, name@),
{
    let tz: chrono_tz::Tz = name.parse().unwrap_or(chrono_tz::UTC);
    let secs = i64::try_from(now_s).unwrap_or(i64::MAX);
    let dt = chrono::DateTime::from_timestamp_secs(secs).unwrap_or(chrono::DateTime::UNIX_EPOCH);
    dt.with_timezone(&tz).format("%H:%M").to_string()
}

/// The "HH:MM" label of a moment read as universal time.
pub open spec fn spec_utc_hhmm(now_s: u64) -> Seq<char> {
    spec_padded(((now_s / 3600) % 24) as int, 2) + seq![':'] + spec_padded(
        ((now_s / 60) % 60) as int,
        2,
    )
}

/// Writes the universal-time wall-clock label of a moment.
pub fn utc_hhmm(now_s: u64) -> (r: String)
    ensures
        r@ == spec_utc_hhmm(now_s),
{
    let mut out = format_padded((now_s / 3600) % 24, 2);
    crate::decimal::push_char(&mut out, ':');
    let mins = format_padded((now_s / 60) % 60, 2);
    out.append(mins.as_str());
    proof {
        assert(out@ =~= spec_utc_hhmm(now_s));
    }
    out
}

/// The wall-clock label the prompt carries: the moment `now_s` read in
/// the caller's zone when one is named and known, in universal time when
/// none is named, and `UpstreamParseFailed` — rendered exactly as the
/// timezone parser's own failure — when the named zone is unknown.
pub fn resolve_time_label(now_s: u64, timezone: &Option<String>) -> (r: Result<String, FetchError>)
    ensures
        match r {
            Result::Ok(t) => match timezone {
                Option::Some(name) => is_tz_name(name@) && t@ == local_hhmm(now_s, name@),
                Option::None => t@ == spec_utc_hhmm(now_s),
            },
            Result::Err(e) => match e {
                FetchError::UpstreamParseFailed(m) => (timezone matches Some(name)
                    && !is_tz_name(name@)) && m@ == "failed to parse timezone"@,
                _ => false,
            },
        },
{
    match timezone {
        Option::Some(name) => {
            if timezone_known(name.as_str()) {
                Result::Ok(hhmm_in_zone(now_s, name.as_str()))
            } else {
                Result::Err(FetchError::UpstreamParseFailed(
                    String::from_str("failed to parse timezone"),
                ))
            }
        },
        Option::None => Result::Ok(utc_hhmm(now_s)),
    }
}

} // verus!
