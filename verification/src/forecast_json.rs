//! The weather snapshot text: the whole forecast model written as JSON,
//! field by field, against spec functions that lay the text out exactly.
//!
//! Absent readings are written as `null` rather than omitted, so every
//! member list has a fixed shape; the reader accepts both forms.

use vstd::prelude::*;

use crate::decimal::{
    format_e7_json, format_tenths, format_u64, push_char, spec_digits, spec_json_number,
    spec_tenths,
};
use crate::json::{append_quoted, spec_quoted};
use crate::store::CacheEntry;
use crate::weather::{
    ForecastDetails, ForecastTimeInstant, ForecastTimePeriod, ForecastUnits, Geometry,
    TimeSeriesData, TimeSeriesEntry, WeatherCacheInstance, WeatherResponse,
};

verus! {

/// A reading in tenths, or `null`.
pub open spec fn spec_opt_tenths_json(o: Option<i64>) -> Seq<char> {
    match o {
        Option::Some(v) => spec_tenths(v as int),
        Option::None => "null"@,
    }
}

/// A text, or `null`.
pub open spec fn spec_opt_string_json(o: Option<String>) -> Seq<char> {
    match o {
        Option::Some(s) => spec_quoted(s@),
        Option::None => "null"@,
    }
}

fn append_opt_tenths(out: &mut String, o: &Option<i64>)
    ensures
        final(out)@ == old(out)@ + spec_opt_tenths_json(*o),
{
    match o {
        Option::Some(v) => {
            let t = format_tenths(*v);
            out.append(t.as_str());
        },
        Option::None => {
            out.append("null");
        },
    }
}

fn append_opt_string(out: &mut String, o: &Option<String>)
    ensures
        final(out)@ == old(out)@ + spec_opt_string_json(*o),
{
    match o {
        Option::Some(s) => {
            append_quoted(out, s.as_str());
        },
        Option::None => {
            out.append("null");
        },
    }
}

/// The geometry object, coordinates in provider order.
pub open spec fn spec_geometry_json(g: Geometry) -> Seq<char> {
    "{\"coordinates\":["@ + spec_json_number(g.coordinates@[0] as int) + seq![',']
        + spec_json_number(g.coordinates@[1] as int) + seq![','] + spec_json_number(
        g.coordinates@[2] as int,
    ) + "],\"type\":"@ + spec_quoted(g.geometry_type@) + "}"@
}

fn append_geometry(out: &mut String, g: &Geometry)
    ensures
        final(out)@ == old(out)@ + spec_geometry_json(*g),
{
    out.append("{\"coordinates\":[");
    let c0 = format_e7_json(g.coordinates[0]);
    out.append(c0.as_str());
    push_char(out, ',');
    let c1 = format_e7_json(g.coordinates[1]);
    out.append(c1.as_str());
    push_char(out, ',');
    let c2 = format_e7_json(g.coordinates[2]);
    out.append(c2.as_str());
    out.append("],\"type\":");
    append_quoted(out, g.geometry_type.as_str());
    out.append("}");
    proof {
        assert(out@ =~= old(out)@ + spec_geometry_json(*g));
    }
}

/// The instantaneous readings object, every field written, absent ones
/// as `null`.
pub open spec fn spec_instant_json(v: ForecastTimeInstant) -> Seq<char> {
    "{\"air_pressure_at_sea_level\":"@ + spec_opt_tenths_json(v.air_pressure_at_sea_level)
        + ",\"air_temperature\":"@ + spec_opt_tenths_json(v.air_temperature)
        + ",\"cloud_area_fraction\":"@ + spec_opt_tenths_json(v.cloud_area_fraction)
        + ",\"cloud_area_fraction_high\":"@ + spec_opt_tenths_json(v.cloud_area_fraction_high)
        + ",\"cloud_area_fraction_low\":"@ + spec_opt_tenths_json(v.cloud_area_fraction_low)
        + ",\"cloud_area_fraction_medium\":"@ + spec_opt_tenths_json(v.cloud_area_fraction_medium)
        + ",\"dew_point_temperature\":"@ + spec_opt_tenths_json(v.dew_point_temperature)
        + ",\"fog_area_fraction\":"@ + spec_opt_tenths_json(v.fog_area_fraction)
        + ",\"relative_humidity\":"@ + spec_opt_tenths_json(v.relative_humidity)
        + ",\"wind_from_direction\":"@ + spec_opt_tenths_json(v.wind_from_direction)
        + ",\"wind_speed\":"@ + spec_opt_tenths_json(v.wind_speed) + ",\"wind_speed_of_gust\":"@
        + spec_opt_tenths_json(v.wind_speed_of_gust) + "}"@
}

#[verifier::rlimit(100)]
#[verifier::spinoff_prover]
fn append_instant(out: &mut String, v: &ForecastTimeInstant)
    ensures
        final(out)@ == old(out)@ + spec_instant_json(*v),
{
    out.append("{\"air_pressure_at_sea_level\":");
    append_opt_tenths(out, &v.air_pressure_at_sea_level);
    out.append(",\"air_temperature\":");
    append_opt_tenths(out, &v.air_temperature);
    out.append(",\"cloud_area_fraction\":");
    append_opt_tenths(out, &v.cloud_area_fraction);
    out.append(",\"cloud_area_fraction_high\":");
    append_opt_tenths(out, &v.cloud_area_fraction_high);
    out.append(",\"cloud_area_fraction_low\":");
    append_opt_tenths(out, &v.cloud_area_fraction_low);
    out.append(",\"cloud_area_fraction_medium\":");
    append_opt_tenths(out, &v.cloud_area_fraction_medium);
    proof {
        assert(out@ =~= old(out)@ + ("{\"air_pressure_at_sea_level\":"@ + spec_opt_tenths_json(
            v.air_pressure_at_sea_level,
        ) + ",\"air_temperature\":"@ + spec_opt_tenths_json(v.air_temperature)
            + ",\"cloud_area_fraction\":"@ + spec_opt_tenths_json(v.cloud_area_fraction)
            + ",\"cloud_area_fraction_high\":"@ + spec_opt_tenths_json(v.cloud_area_fraction_high)
            + ",\"cloud_area_fraction_low\":"@ + spec_opt_tenths_json(v.cloud_area_fraction_low)
            + ",\"cloud_area_fraction_medium\":"@ + spec_opt_tenths_json(
            v.cloud_area_fraction_medium,
        )));
    }
    out.append(",\"dew_point_temperature\":");
    append_opt_tenths(out, &v.dew_point_temperature);
    out.append(",\"fog_area_fraction\":");
    append_opt_tenths(out, &v.fog_area_fraction);
    out.append(",\"relative_humidity\":");
    append_opt_tenths(out, &v.relative_humidity);
    out.append(",\"wind_from_direction\":");
    append_opt_tenths(out, &v.wind_from_direction);
    out.append(",\"wind_speed\":");
    append_opt_tenths(out, &v.wind_speed);
    out.append(",\"wind_speed_of_gust\":");
    append_opt_tenths(out, &v.wind_speed_of_gust);
    out.append("}");
    proof {
        assert(out@ =~= old(out)@ + spec_instant_json(*v));
    }
}

/// The period readings object.
pub open spec fn spec_period_json(v: ForecastTimePeriod) -> Seq<char> {
    "{\"air_temperature_max\":"@ + spec_opt_tenths_json(v.air_temperature_max)
        + ",\"air_temperature_min\":"@ + spec_opt_tenths_json(v.air_temperature_min)
        + ",\"precipitation_amount\":"@ + spec_opt_tenths_json(v.precipitation_amount)
        + ",\"precipitation_amount_max\":"@ + spec_opt_tenths_json(v.precipitation_amount_max)
        + ",\"precipitation_amount_min\":"@ + spec_opt_tenths_json(v.precipitation_amount_min)
        + ",\"probability_of_precipitation\":"@ + spec_opt_tenths_json(
        v.probability_of_precipitation,
    ) + ",\"probability_of_thunder\":"@ + spec_opt_tenths_json(v.probability_of_thunder)
        + ",\"ultraviolet_index_clear_sky_max\":"@ + spec_opt_tenths_json(
        v.ultraviolet_index_clear_sky_max,
    ) + "}"@
}

#[verifier::rlimit(100)]
#[verifier::spinoff_prover]
fn append_period(out: &mut String, v: &ForecastTimePeriod)
    ensures
        final(out)@ == old(out)@ + spec_period_json(*v),
{
    out.append("{\"air_temperature_max\":");
    append_opt_tenths(out, &v.air_temperature_max);
    out.append(",\"air_temperature_min\":");
    append_opt_tenths(out, &v.air_temperature_min);
    out.append(",\"precipitation_amount\":");
    append_opt_tenths(out, &v.precipitation_amount);
    out.append(",\"precipitation_amount_max\":");
    append_opt_tenths(out, &v.precipitation_amount_max);
    out.append(",\"precipitation_amount_min\":");
    append_opt_tenths(out, &v.precipitation_amount_min);
    out.append(",\"probability_of_precipitation\":");
    append_opt_tenths(out, &v.probability_of_precipitation);
    out.append(",\"probability_of_thunder\":");
    append_opt_tenths(out, &v.probability_of_thunder);
    out.append(",\"ultraviolet_index_clear_sky_max\":");
    append_opt_tenths(out, &v.ultraviolet_index_clear_sky_max);
    out.append("}");
    proof {
        assert(out@ =~= old(out)@ + spec_period_json(*v));
    }
}

/// A period with its symbol, or `null` when the whole period is absent.
pub open spec fn spec_details_json(o: Option<ForecastDetails>) -> Seq<char> {
    match o {
        Option::Some(f) => "{\"summary\":{\"symbol_code\":"@ + spec_quoted(f.summary.symbol_code@)
            + "},\"details\":"@ + (match f.details {
            Option::Some(p) => spec_period_json(p),
            Option::None => "null"@,
        }) + "}"@,
        Option::None => "null"@,
    }
}

fn append_details(out: &mut String, o: &Option<ForecastDetails>)
    ensures
        final(out)@ == old(out)@ + spec_details_json(*o),
{
    match o {
        Option::Some(f) => {
            out.append("{\"summary\":{\"symbol_code\":");
            append_quoted(out, f.summary.symbol_code.as_str());
            out.append("},\"details\":");
            match &f.details {
                Option::Some(p) => {
                    append_period(out, p);
                },
                Option::None => {
                    out.append("null");
                },
            }
            out.append("}");
            proof {
                assert(out@ =~= old(out)@ + spec_details_json(*o));
            }
        },
        Option::None => {
            out.append("null");
        },
    }
}

/// One time-series step.
pub open spec fn spec_timeseries_data_json(d: TimeSeriesData) -> Seq<char> {
    "{\"instant\":{\"details\":"@ + (match d.instant.details {
        Option::Some(v) => spec_instant_json(v),
        Option::None => "null"@,
    }) + "},\"next_1_hours\":"@ + spec_details_json(d.next_1_hours) + ",\"next_6_hours\":"@
        + spec_details_json(d.next_6_hours) + ",\"next_12_hours\":"@ + spec_details_json(
        d.next_12_hours,
    ) + "}"@
}

#[verifier::rlimit(100)]
#[verifier::spinoff_prover]
fn append_timeseries_data(out: &mut String, d: &TimeSeriesData)
    ensures
        final(out)@ == old(out)@ + spec_timeseries_data_json(*d),
{
    out.append("{\"instant\":{\"details\":");
    match &d.instant.details {
        Option::Some(v) => {
            append_instant(out, v);
        },
        Option::None => {
            out.append("null");
        },
    }
    out.append("},\"next_1_hours\":");
    append_details(out, &d.next_1_hours);
    out.append(",\"next_6_hours\":");
    append_details(out, &d.next_6_hours);
    out.append(",\"next_12_hours\":");
    append_details(out, &d.next_12_hours);
    out.append("}");
    proof {
        assert(out@ =~= old(out)@ + spec_timeseries_data_json(*d));
    }
}

/// A time-series entry: its time and its data.
pub open spec fn spec_timeseries_entry_json(e: TimeSeriesEntry) -> Seq<char> {
    "{\"time\":"@ + spec_quoted(e.time@) + ",\"data\":"@ + spec_timeseries_data_json(e.data)
        + "}"@
}

fn append_timeseries_entry(out: &mut String, e: &TimeSeriesEntry)
    ensures
        final(out)@ == old(out)@ + spec_timeseries_entry_json(*e),
{
    out.append("{\"time\":");
    append_quoted(out, e.time.as_str());
    out.append(",\"data\":");
    append_timeseries_data(out, &e.data);
    out.append("}");
    proof {
        assert(out@ =~= old(out)@ + spec_timeseries_entry_json(*e));
    }
}

/// The time-series array, comma separated, in order.
pub open spec fn spec_timeseries_json(s: Seq<TimeSeriesEntry>) -> Seq<char>
    decreases s.len(),
{
    if s.len() == 0 {
        Seq::<char>::empty()
    } else if s.len() == 1 {
        spec_timeseries_entry_json(s[0])
    } else {
        spec_timeseries_json(s.drop_last()) + seq![','] + spec_timeseries_entry_json(s.last())
    }
}

fn append_timeseries(out: &mut String, s: &Vec<TimeSeriesEntry>)
    ensures
        final(out)@ == old(out)@ + seq!['['] + spec_timeseries_json(s@) + seq![']'],
{
    push_char(out, '[');
    let n = s.len();
    let mut i: usize = 0;
    while i < n
        invariant
            0 <= i <= n,
            n == s@.len(),
            out@ == old(out)@ + seq!['['] + spec_timeseries_json(s@.take(i as int)),
        decreases n - i,
    {
        proof {
            assert(s@.take(i + 1).drop_last() =~= s@.take(i as int));
            assert(s@.take(i + 1).last() == s@[i as int]);
            assert(s@.take(i + 1)[0] == s@[0]);
        }
        if i > 0 {
            push_char(out, ',');
        }
        append_timeseries_entry(out, &s[i]);
        proof {
            assert(out@ =~= old(out)@ + seq!['['] + spec_timeseries_json(s@.take(i + 1)));
        }
        i = i + 1;
    }
    push_char(out, ']');
    proof {
        assert(s@.take(n as int) =~= s@);
        assert(out@ =~= old(out)@ + seq!['['] + spec_timeseries_json(s@) + seq![']']);
    }
}

/// The units object, every field written, absent ones as `null`.
/// The first five unit fields.
pub open spec fn spec_units_a(v: ForecastUnits) -> Seq<char> {
    "{\"air_pressure_at_sea_level\":"@ + spec_opt_string_json(v.air_pressure_at_sea_level)
        + ",\"air_temperature\":"@ + spec_opt_string_json(v.air_temperature)
        + ",\"air_temperature_max\":"@ + spec_opt_string_json(v.air_temperature_max)
        + ",\"air_temperature_min\":"@ + spec_opt_string_json(v.air_temperature_min)
        + ",\"cloud_area_fraction\":"@ + spec_opt_string_json(v.cloud_area_fraction)
}

/// The cloud, dew point and fog unit fields.
pub open spec fn spec_units_b(v: ForecastUnits) -> Seq<char> {
    ",\"cloud_area_fraction_high\":"@ + spec_opt_string_json(v.cloud_area_fraction_high)
        + ",\"cloud_area_fraction_low\":"@ + spec_opt_string_json(v.cloud_area_fraction_low)
        + ",\"cloud_area_fraction_medium\":"@ + spec_opt_string_json(v.cloud_area_fraction_medium)
        + ",\"dew_point_temperature\":"@ + spec_opt_string_json(v.dew_point_temperature)
        + ",\"fog_area_fraction\":"@ + spec_opt_string_json(v.fog_area_fraction)
}

/// The precipitation and probability unit fields.
pub open spec fn spec_units_c(v: ForecastUnits) -> Seq<char> {
    ",\"precipitation_amount\":"@ + spec_opt_string_json(v.precipitation_amount)
        + ",\"precipitation_amount_max\":"@ + spec_opt_string_json(v.precipitation_amount_max)
        + ",\"precipitation_amount_min\":"@ + spec_opt_string_json(v.precipitation_amount_min)
        + ",\"probability_of_precipitation\":"@ + spec_opt_string_json(
        v.probability_of_precipitation,
    ) + ",\"probability_of_thunder\":"@ + spec_opt_string_json(v.probability_of_thunder)
}

/// The humidity, index and wind unit fields.
pub open spec fn spec_units_d(v: ForecastUnits) -> Seq<char> {
    ",\"relative_humidity\":"@ + spec_opt_string_json(v.relative_humidity)
        + ",\"ultraviolet_index_clear_sky_max\":"@ + spec_opt_string_json(
        v.ultraviolet_index_clear_sky_max,
    ) + ",\"wind_from_direction\":"@ + spec_opt_string_json(v.wind_from_direction)
        + ",\"wind_speed\":"@ + spec_opt_string_json(v.wind_speed) + ",\"wind_speed_of_gust\":"@
        + spec_opt_string_json(v.wind_speed_of_gust) + "}"@
}

/// The units object, every field written, absent ones as `null`.
pub open spec fn spec_units_json(v: ForecastUnits) -> Seq<char> {
    spec_units_a(v) + spec_units_b(v) + spec_units_c(v) + spec_units_d(v)
}

#[verifier::rlimit(100)]
#[verifier::spinoff_prover]
fn append_units_a(out: &mut String, v: &ForecastUnits)
    ensures
        final(out)@ == old(out)@ + spec_units_a(*v),
{
    out.append("{\"air_pressure_at_sea_level\":");
    append_opt_string(out, &v.air_pressure_at_sea_level);
    out.append(",\"air_temperature\":");
    append_opt_string(out, &v.air_temperature);
    out.append(",\"air_temperature_max\":");
    append_opt_string(out, &v.air_temperature_max);
    out.append(",\"air_temperature_min\":");
    append_opt_string(out, &v.air_temperature_min);
    out.append(",\"cloud_area_fraction\":");
    append_opt_string(out, &v.cloud_area_fraction);
    proof {
        assert(out@ =~= old(out)@ + spec_units_a(*v));
    }
}

#[verifier::rlimit(100)]
#[verifier::spinoff_prover]
fn append_units_b(out: &mut String, v: &ForecastUnits)
    ensures
        final(out)@ == old(out)@ + spec_units_b(*v),
{
    out.append(",\"cloud_area_fraction_high\":");
    append_opt_string(out, &v.cloud_area_fraction_high);
    out.append(",\"cloud_area_fraction_low\":");
    append_opt_string(out, &v.cloud_area_fraction_low);
    out.append(",\"cloud_area_fraction_medium\":");
    append_opt_string(out, &v.cloud_area_fraction_medium);
    out.append(",\"dew_point_temperature\":");
    append_opt_string(out, &v.dew_point_temperature);
    out.append(",\"fog_area_fraction\":");
    append_opt_string(out, &v.fog_area_fraction);
    proof {
        assert(out@ =~= old(out)@ + spec_units_b(*v));
    }
}

#[verifier::rlimit(100)]
#[verifier::spinoff_prover]
fn append_units_c(out: &mut String, v: &ForecastUnits)
    ensures
        final(out)@ == old(out)@ + spec_units_c(*v),
{
    out.append(",\"precipitation_amount\":");
    append_opt_string(out, &v.precipitation_amount);
    out.append(",\"precipitation_amount_max\":");
    append_opt_string(out, &v.precipitation_amount_max);
    out.append(",\"precipitation_amount_min\":");
    append_opt_string(out, &v.precipitation_amount_min);
    out.append(",\"probability_of_precipitation\":");
    append_opt_string(out, &v.probability_of_precipitation);
    out.append(",\"probability_of_thunder\":");
    append_opt_string(out, &v.probability_of_thunder);
    proof {
        assert(out@ =~= old(out)@ + spec_units_c(*v));
    }
}

#[verifier::rlimit(100)]
#[verifier::spinoff_prover]
fn append_units_d(out: &mut String, v: &ForecastUnits)
    ensures
        final(out)@ == old(out)@ + spec_units_d(*v),
{
    out.append(",\"relative_humidity\":");
    append_opt_string(out, &v.relative_humidity);
    out.append(",\"ultraviolet_index_clear_sky_max\":");
    append_opt_string(out, &v.ultraviolet_index_clear_sky_max);
    out.append(",\"wind_from_direction\":");
    append_opt_string(out, &v.wind_from_direction);
    out.append(",\"wind_speed\":");
    append_opt_string(out, &v.wind_speed);
    out.append(",\"wind_speed_of_gust\":");
    append_opt_string(out, &v.wind_speed_of_gust);
    out.append("}");
    proof {
        assert(out@ =~= old(out)@ + spec_units_d(*v));
    }
}

fn append_units(out: &mut String, v: &ForecastUnits)
    ensures
        final(out)@ == old(out)@ + spec_units_json(*v),
{
    append_units_a(out, v);
    append_units_b(out, v);
    append_units_c(out, v);
    append_units_d(out, v);
    proof {
        assert(out@ =~= old(out)@ + spec_units_json(*v));
    }
}

/// The whole forecast response.
pub open spec fn spec_weather_json(w: WeatherResponse) -> Seq<char> {
    "{\"type\":"@ + spec_quoted(w.response_type@) + ",\"geometry\":"@ + spec_geometry_json(
        w.geometry,
    ) + ",\"properties\":{\"meta\":{\"units\":"@ + spec_units_json(w.properties.meta.units)
        + ",\"updated_at\":"@ + spec_quoted(w.properties.meta.updated_at@)
        + "},\"timeseries\":"@ + seq!['['] + spec_timeseries_json(w.properties.timeseries@)
        + seq![']'] + "}}"@
}

#[verifier::rlimit(100)]
#[verifier::spinoff_prover]
fn append_weather(out: &mut String, w: &WeatherResponse)
    ensures
        final(out)@ == old(out)@ + spec_weather_json(*w),
{
    out.append("{\"type\":");
    append_quoted(out, w.response_type.as_str());
    out.append(",\"geometry\":");
    append_geometry(out, &w.geometry);
    out.append(",\"properties\":{\"meta\":{\"units\":");
    append_units(out, &w.properties.meta.units);
    out.append(",\"updated_at\":");
    append_quoted(out, w.properties.meta.updated_at.as_str());
    out.append("},\"timeseries\":");
    append_timeseries(out, &w.properties.timeseries);
    out.append("}}");
    proof {
        assert(out@ =~= old(out)@ + spec_weather_json(*w));
    }
}

/// One key and its entry, as the weather snapshot writes them:
/// `"key":{"time":12345,"weather":{...}}`.
pub open spec fn spec_weather_pair(key: Seq<char>, e: CacheEntry<WeatherResponse>) -> Seq<char> {
    spec_quoted(key) + ":{\"time\":"@ + spec_digits(e.inserted_at as int) + ",\"weather\":"@
        + spec_weather_json(e.value) + "}"@
}

/// The members of the weather snapshot object, comma separated, in entry
/// order.
pub open spec fn spec_weather_body(s: Seq<(String, CacheEntry<WeatherResponse>)>) -> Seq<char>
    decreases s.len(),
{
    if s.len() == 0 {
        Seq::<char>::empty()
    } else if s.len() == 1 {
        spec_weather_pair(s[0].0@, s[0].1)
    } else {
        spec_weather_body(s.drop_last()) + seq![','] + spec_weather_pair(s.last().0@, s.last().1)
    }
}

/// The whole weather snapshot text: one JSON object keyed by coordinate
/// key, each value carrying the stored second and the full forecast.
pub open spec fn spec_weather_snapshot(s: Seq<(String, CacheEntry<WeatherResponse>)>) -> Seq<
    char,
> {
    seq!['{'] + spec_weather_body(s) + seq!['}']
}

impl WeatherCacheInstance {
    /// Writes the snapshot text that persists this instance, exactly as
    /// [`spec_weather_snapshot`] lays it out over the stored entries.
    #[verifier::rlimit(100)]
    #[verifier::spinoff_prover]
    pub fn snapshot_json(&self) -> (r: String)
        ensures
            r@ == spec_weather_snapshot(self.store.spec_entries()),
    {
        let entries = self.store.entries();
        let n = entries.len();
        let mut out = String::new();
        push_char(&mut out, '{');
        let mut i: usize = 0;
        while i < n
            invariant
                0 <= i <= n,
                n == entries@.len(),
                entries@ == self.store.spec_entries(),
                out@ == seq!['{'] + spec_weather_body(entries@.take(i as int)),
            decreases n - i,
        {
            proof {
                assert(entries@.take(i + 1).drop_last() =~= entries@.take(i as int));
                assert(entries@.take(i + 1).last() == entries@[i as int]);
                assert(entries@.take(i + 1)[0] == entries@[0]);
            }
            if i > 0 {
                push_char(&mut out, ',');
            }
            append_quoted(&mut out, entries[i].0.as_str());
            out.append(":{\"time\":");
            let t = format_u64(entries[i].1.inserted_at);
            out.append(t.as_str());
            out.append(",\"weather\":");
            append_weather(&mut out, &entries[i].1.value);
            out.append("}");
            proof {
                assert(out@ =~= seq!['{'] + spec_weather_body(entries@.take(i + 1)));
            }
            i = i + 1;
        }
        push_char(&mut out, '}');
        proof {
            assert(entries@.take(n as int) =~= entries@);
            assert(out@ =~= spec_weather_snapshot(self.store.spec_entries()));
        }
        out
    }
}

} // verus!
