//! The summary cache and the text-generation request it prepares.
//!
//! The key is derived from the weather response's own geometry array,
//! where index 1 is the latitude and index 0 the longitude — the forecast
//! provider orders coordinates longitude, latitude, altitude, and a key
//! built the other way round would silently file summaries under the wrong
//! slot. The prompt is pure text assembly over the most recent time-series
//! entry, with a sentinel for missing readings; the instance expires
//! entries after 600 seconds and, unlike the weather instance, runs no
//! eviction sweep.

use vstd::prelude::*;

use crate::decimal::{format_tenths, spec_digits, spec_tenths};
use crate::errors::FetchError;
use crate::json::{append_quoted, spec_quoted};
use crate::store::{CacheEntry, CacheStore};
use crate::weather::{
    CACHE_TTL_SECONDS, ForecastDetails, ForecastTimeInstant, PublicWeatherResponse,
    TimeSeriesData, spec_coord_key,
};

verus! {

/// The fixed generation parameters sent with every request: temperature
/// and nucleus-sampling bound in hundredths, so 70 stands for 0.7 and 95
/// for 0.95.
pub struct GenerationSettings {
    pub temperature_hundredths: u64,
    pub max_output_tokens: u64,
    pub top_p_hundredths: u64,
}

/// The generation parameters this system always uses: temperature 0.7,
/// at most 1000 output tokens, nucleus sampling at 0.95.
pub fn generation_settings() -> (r: GenerationSettings)
    ensures
        r.temperature_hundredths == 70,
        r.max_output_tokens == 1000,
        r.top_p_hundredths == 95,
{
    GenerationSettings { temperature_hundredths: 70, max_output_tokens: 1000, top_p_hundredths: 95 }
}

/// One text part of a generation candidate.
pub struct Part {
    pub text: String,
}

/// The content of a generation candidate.
pub struct Content {
    pub parts: Vec<Part>,
}

/// One candidate of a generation response.
pub struct Candidate {
    pub content: Content,
}

/// A text-generation response, reduced to the fields the core reads.
pub struct GenerateContentResponse {
    pub candidates: Vec<Candidate>,
}

/// The summary taken from a generation response: the first candidate's
/// first text part, unchanged. `MalformedUpstreamResponse` exactly when
/// there is no candidate, or the first candidate has no part.
pub fn extract_summary(resp: &GenerateContentResponse) -> (r: Result<String, FetchError>)
    ensures
        match r {
            Result::Ok(s) => resp.candidates@.len() > 0
                && resp.candidates@[0].content.parts@.len() > 0 && s@
                == resp.candidates@[0].content.parts@[0].text@,
            Result::Err(e) => match e {
                FetchError::MalformedUpstreamResponse(m) => (resp.candidates@.len() == 0 && m@
                    == "No candidates in response"@) || (resp.candidates@.len() > 0
                    && resp.candidates@[0].content.parts@.len() == 0 && m@
                    == "No parts in content"@),
                _ => false,
            },
        },
{
    if resp.candidates.len() == 0 {
        return Result::Err(FetchError::MalformedUpstreamResponse(
            String::from_str("No candidates in response"),
        ));
    }
    if resp.candidates[0].content.parts.len() == 0 {
        return Result::Err(FetchError::MalformedUpstreamResponse(
            String::from_str("No parts in content"),
        ));
    }
    Result::Ok(resp.candidates[0].content.parts[0].text.clone())
}

/// The key missing from the environment, or the key itself. `ConfigMissing`
/// carries the text the environment reader renders for an absent variable.
pub fn require_api_key(key: Option<String>) -> (r: Result<String, FetchError>)
    ensures
        match r {
            Result::Ok(k) => key matches Some(k0) && k@ == k0@,
            Result::Err(e) => match e {
                FetchError::ConfigMissing(m) => key is None && m@
                    == "environment variable not found"@,
                _ => false,
            },
        },
{
    match key {
        Option::Some(k) => Result::Ok(k),
        Option::None => Result::Err(FetchError::ConfigMissing(
            String::from_str("environment variable not found"),
        )),
    }
}

/// The summary cache key of a weather response: the geometry's latitude
/// (index 1) and longitude (index 0), quantized to four decimal places.
pub fn summary_key(w: &PublicWeatherResponse) -> (r: String)
    ensures
        r@ == spec_coord_key(w.geometry.coordinates@[1] as int, w.geometry.coordinates@[0] as int),
{
    let lat = w.geometry.coordinates[1];
    let lon = w.geometry.coordinates[0];
    crate::weather::coord_key(&crate::location::Coordinates::new(lat, lon))
}

/// A reading in tenths written with one decimal place, or the sentinel
/// `N/A` when the provider omitted it.
pub open spec fn spec_opt_tenths(o: Option<i64>) -> Seq<char> {
    match o {
        Option::Some(v) => spec_tenths(v as int),
        Option::None => "N/A"@,
    }
}

/// Writes a reading in tenths, or the sentinel for a missing one.
pub fn fmt_opt_tenths(o: Option<i64>) -> (r: String)
    ensures
        r@ == spec_opt_tenths(o),
{
    match o {
        Option::Some(v) => format_tenths(v),
        Option::None => String::from_str("N/A"),
    }
}

/// A period's symbol code, or the sentinel when the period is absent.
pub open spec fn spec_symbol(o: Option<ForecastDetails>) -> Seq<char> {
    match o {
        Option::Some(f) => f.summary.symbol_code@,
        Option::None => "N/A"@,
    }
}

/// Writes a period's symbol code, or the sentinel.
fn symbol_text(o: &Option<ForecastDetails>) -> (r: String)
    ensures
        r@ == spec_symbol(*o),
{
    match o {
        Option::Some(f) => f.summary.symbol_code.clone(),
        Option::None => String::from_str("N/A"),
    }
}

/// A period's detail readings, when the period and its details are there.
pub open spec fn spec_period_details(o: Option<ForecastDetails>) -> Option<
    crate::weather::ForecastTimePeriod,
> {
    match o {
        Option::Some(f) => f.details,
        Option::None => Option::None,
    }
}

/// The expected precipitation of a period, or the sentinel.
pub open spec fn spec_p_precip(o: Option<ForecastDetails>) -> Seq<char> {
    match spec_period_details(o) {
        Option::Some(d) => spec_opt_tenths(d.precipitation_amount),
        Option::None => "N/A"@,
    }
}

/// The precipitation probability of a period, or the sentinel.
pub open spec fn spec_p_prob(o: Option<ForecastDetails>) -> Seq<char> {
    match spec_period_details(o) {
        Option::Some(d) => spec_opt_tenths(d.probability_of_precipitation),
        Option::None => "N/A"@,
    }
}

/// The maximum temperature of a period, or the sentinel.
pub open spec fn spec_p_max(o: Option<ForecastDetails>) -> Seq<char> {
    match spec_period_details(o) {
        Option::Some(d) => spec_opt_tenths(d.air_temperature_max),
        Option::None => "N/A"@,
    }
}

/// The minimum temperature of a period, or the sentinel.
pub open spec fn spec_p_min(o: Option<ForecastDetails>) -> Seq<char> {
    match spec_period_details(o) {
        Option::Some(d) => spec_opt_tenths(d.air_temperature_min),
        Option::None => "N/A"@,
    }
}

/// Writes a period's expected precipitation, or the sentinel.
fn p_precip(o: &Option<ForecastDetails>) -> (r: String)
    ensures
        r@ == spec_p_precip(*o),
{
    match o {
        Option::Some(f) => match &f.details {
            Option::Some(d) => fmt_opt_tenths(d.precipitation_amount),
            Option::None => String::from_str("N/A"),
        },
        Option::None => String::from_str("N/A"),
    }
}

/// Writes a period's precipitation probability, or the sentinel.
fn p_prob(o: &Option<ForecastDetails>) -> (r: String)
    ensures
        r@ == spec_p_prob(*o),
{
    match o {
        Option::Some(f) => match &f.details {
            Option::Some(d) => fmt_opt_tenths(d.probability_of_precipitation),
            Option::None => String::from_str("N/A"),
        },
        Option::None => String::from_str("N/A"),
    }
}

/// Writes a period's maximum temperature, or the sentinel.
fn p_max(o: &Option<ForecastDetails>) -> (r: String)
    ensures
        r@ == spec_p_max(*o),
{
    match o {
        Option::Some(f) => match &f.details {
            Option::Some(d) => fmt_opt_tenths(d.air_temperature_max),
            Option::None => String::from_str("N/A"),
        },
        Option::None => String::from_str("N/A"),
    }
}

/// Writes a period's minimum temperature, or the sentinel.
fn p_min(o: &Option<ForecastDetails>) -> (r: String)
    ensures
        r@ == spec_p_min(*o),
{
    match o {
        Option::Some(f) => match &f.details {
            Option::Some(d) => fmt_opt_tenths(d.air_temperature_min),
            Option::None => String::from_str("N/A"),
        },
        Option::None => String::from_str("N/A"),
    }
}

/// The prompt sent to the text-generation provider, assembled from the
/// most recent time-series entry's instantaneous readings, the one, six
/// and twelve hour periods, and the wall-clock label.
pub open spec fn spec_prompt(
    inst: ForecastTimeInstant,
    data: TimeSeriesData,
    time: Seq<char>,
) -> Seq<char> {
    "Generate a concise, natural weather description for a dashboard. Keep it under 25 words.\n\nCurrent time: "@
        + time + "\n\nCurrent conditions:\nTemperature: "@ + spec_opt_tenths(inst.air_temperature)
        + "\u{b0}C\nWind: "@ + spec_opt_tenths(inst.wind_speed) + " m/s with gusts of "@
        + spec_opt_tenths(inst.wind_speed_of_gust) + " m/s\nHumidity: "@ + spec_opt_tenths(
        inst.relative_humidity,
    ) + "%\nCloud area fraction: "@ + spec_opt_tenths(inst.cloud_area_fraction)
        + "%\nFog area fraction: "@ + spec_opt_tenths(inst.fog_area_fraction)
        + "%\n\nForecast 1 hour:\nSummary: "@ + spec_symbol(data.next_1_hours)
        + "\nPrecipitation: "@ + spec_p_precip(data.next_1_hours) + " mm with a probability of "@
        + spec_p_prob(data.next_1_hours) + "%\n\nForecast 6 hours:\nSummary: "@ + spec_symbol(
        data.next_6_hours,
    ) + "\nMax Temperature: "@ + spec_p_max(data.next_6_hours) + "\u{b0}C\nMin Temperature: "@
        + spec_p_min(data.next_6_hours) + "\u{b0}C\nPrecipitation: "@ + spec_p_precip(
        data.next_6_hours,
    ) + " mm with a probability of "@ + spec_p_prob(data.next_6_hours)
        + "%\n\nForecast 12 hours:\nSummary: "@ + spec_symbol(data.next_12_hours)
        + "\nMax Temperature: "@ + spec_p_max(data.next_12_hours) + "\u{b0}C\nMin Temperature: "@
        + spec_p_min(data.next_12_hours) + "\u{b0}C\nPrecipitation: "@ + spec_p_precip(
        data.next_12_hours,
    ) + " mm with a probability of "@ + spec_p_prob(data.next_12_hours)
        + "%\n\nRequirements:\n- Be conversational and friendly.\n- Do not mention the current temperature. It will be displayed seperately.\n- Upcoming temperatures should be included if there is a significant change.\n- For wind: Use descriptive terms (calm, light, moderate, strong, extreme) - NEVER use specific values.\n- Use natural language, no technical jargon.\n- NO EMOJIS.\n\nGenerate description:"@
}

/// Assembles the prompt for a weather response and a wall-clock label.
/// `NotFound` — with the text the boundary renders — exactly when the
/// response has no time-series entry, or its first entry carries no
/// instantaneous readings.
#[verifier::rlimit(60)]
#[verifier::spinoff_prover]
pub fn build_prompt(w: &PublicWeatherResponse, time_label: &str) -> (r: Result<String, FetchError>)
    ensures
        match r {
            Result::Ok(p) => w.properties.timeseries@.len() > 0 && (
            w.properties.timeseries@[0].data.instant.details matches Some(inst) && p@
                == spec_prompt(inst, w.properties.timeseries@[0].data, time_label@)),
            Result::Err(e) => match e {
                FetchError::NotFound(m) => (w.properties.timeseries@.len() == 0 && m@
                    == "No timeseries data available"@) || (w.properties.timeseries@.len() > 0
                    && w.properties.timeseries@[0].data.instant.details is None && m@
                    == "No instant data available"@),
                _ => false,
            },
        },
{
    if w.properties.timeseries.len() == 0 {
        return Result::Err(FetchError::NotFound(String::from_str("No timeseries data available")));
    }
    let data = &w.properties.timeseries[0].data;
    let inst = match &data.instant.details {
        Option::Some(d) => d,
        Option::None => {
            return Result::Err(FetchError::NotFound(
                String::from_str("No instant data available"),
            ));
        },
    };
    let mut out = String::from_str(
        "Generate a concise, natural weather description for a dashboard. Keep it under 25 words.\n\nCurrent time: ",
    );
    out.append(time_label);
    out.append("\n\nCurrent conditions:\nTemperature: ");
    let t0 = fmt_opt_tenths(inst.air_temperature);
    out.append(t0.as_str());
    out.append("\u{b0}C\nWind: ");
    let t1 = fmt_opt_tenths(inst.wind_speed);
    out.append(t1.as_str());
    out.append(" m/s with gusts of ");
    let t2 = fmt_opt_tenths(inst.wind_speed_of_gust);
    out.append(t2.as_str());
    out.append(" m/s\nHumidity: ");
    let t3 = fmt_opt_tenths(inst.relative_humidity);
    out.append(t3.as_str());
    out.append("%\nCloud area fraction: ");
    let t4 = fmt_opt_tenths(inst.cloud_area_fraction);
    out.append(t4.as_str());
    out.append("%\nFog area fraction: ");
    let t5 = fmt_opt_tenths(inst.fog_area_fraction);
    out.append(t5.as_str());
    out.append("%\n\nForecast 1 hour:\nSummary: ");
    let s1 = symbol_text(&data.next_1_hours);
    out.append(s1.as_str());
    out.append("\nPrecipitation: ");
    let t6 = p_precip(&data.next_1_hours);
    out.append(t6.as_str());
    out.append(" mm with a probability of ");
    let t7 = p_prob(&data.next_1_hours);
    out.append(t7.as_str());
    out.append("%\n\nForecast 6 hours:\nSummary: ");
    let s6 = symbol_text(&data.next_6_hours);
    out.append(s6.as_str());
    out.append("\nMax Temperature: ");
    let t8 = p_max(&data.next_6_hours);
    out.append(t8.as_str());
    out.append("\u{b0}C\nMin Temperature: ");
    let t9 = p_min(&data.next_6_hours);
    out.append(t9.as_str());
    out.append("\u{b0}C\nPrecipitation: ");
    let t10 = p_precip(&data.next_6_hours);
    out.append(t10.as_str());
    out.append(" mm with a probability of ");
    let t11 = p_prob(&data.next_6_hours);
    out.append(t11.as_str());
    out.append("%\n\nForecast 12 hours:\nSummary: ");
    let s12 = symbol_text(&data.next_12_hours);
    out.append(s12.as_str());
    out.append("\nMax Temperature: ");
    let t12 = p_max(&data.next_12_hours);
    out.append(t12.as_str());
    out.append("\u{b0}C\nMin Temperature: ");
    let t13 = p_min(&data.next_12_hours);
    out.append(t13.as_str());
    out.append("\u{b0}C\nPrecipitation: ");
    let t14 = p_precip(&data.next_12_hours);
    out.append(t14.as_str());
    out.append(" mm with a probability of ");
    let t15 = p_prob(&data.next_12_hours);
    out.append(t15.as_str());
    out.append(
        "%\n\nRequirements:\n- Be conversational and friendly.\n- Do not mention the current temperature. It will be displayed seperately.\n- Upcoming temperatures should be included if there is a significant change.\n- For wind: Use descriptive terms (calm, light, moderate, strong, extreme) - NEVER use specific values.\n- Use natural language, no technical jargon.\n- NO EMOJIS.\n\nGenerate description:",
    );
    proof {
        assert(out@ =~= spec_prompt(
            *inst,
            w.properties.timeseries@[0].data,
            time_label@,
        ));
    }
    Result::Ok(out)
}

/// The summary instance: 600 second time-to-live, no eviction sweep.
pub struct SummaryCacheInstance {
    pub store: CacheStore<String>,
}

impl SummaryCacheInstance {
    /// Builds the instance an application constructs once at startup: an
    /// empty, not-yet-loaded store that expires entries after 600 seconds
    /// and never sweeps.
    pub fn new() -> (r: Self)
        ensures
            r.store.wf(),
            !r.store.spec_loaded(),
            r.store.contents() == Map::<Seq<char>, CacheEntry<String>>::empty(),
            r.store.spec_ttl() == Some(CACHE_TTL_SECONDS),
            !r.store.spec_sweep(),
    {
        SummaryCacheInstance { store: CacheStore::new(Option::Some(CACHE_TTL_SECONDS), false) }
    }

    /// Writes the snapshot text that persists this instance, exactly as
    /// [`spec_summary_snapshot`] lays it out over the stored entries.
    pub fn snapshot_json(&self) -> (r: String)
        ensures
            r@ == spec_summary_snapshot(self.store.spec_entries()),
    {
        let entries = self.store.entries();
        let n = entries.len();
        let mut out = String::new();
        crate::decimal::push_char(&mut out, '{');
        let mut i: usize = 0;
        while i < n
            invariant
                0 <= i <= n,
                n == entries@.len(),
                entries@ == self.store.spec_entries(),
                out@ == seq!['{'] + spec_summary_body(entries@.take(i as int)),
            decreases n - i,
        {
            proof {
                assert(entries@.take(i + 1).drop_last() =~= entries@.take(i as int));
                assert(entries@.take(i + 1).last() == entries@[i as int]);
                assert(entries@.take(i + 1)[0] == entries@[0]);
            }
            if i > 0 {
                crate::decimal::push_char(&mut out, ',');
            }
            append_quoted(&mut out, entries[i].0.as_str());
            out.append(":{\"time\":");
            let t = crate::decimal::format_u64(entries[i].1.inserted_at);
            out.append(t.as_str());
            out.append(",\"summary\":");
            append_quoted(&mut out, entries[i].1.value.as_str());
            out.append("}");
            proof {
                assert(out@ =~= seq!['{'] + spec_summary_body(entries@.take(i + 1)));
            }
            i = i + 1;
        }
        crate::decimal::push_char(&mut out, '}');
        proof {
            assert(entries@.take(n as int) =~= entries@);
            assert(out@ =~= spec_summary_snapshot(self.store.spec_entries()));
        }
        out
    }
}

/// One key and its entry, as the summary snapshot writes them:
/// `"key":{"time":12345,"summary":"..."}`.
pub open spec fn spec_summary_pair(key: Seq<char>, e: CacheEntry<String>) -> Seq<char> {
    spec_quoted(key) + ":{\"time\":"@ + spec_digits(e.inserted_at as int) + ",\"summary\":"@
        + spec_quoted(e.value@) + "}"@
}

/// The members of the summary snapshot object, comma separated, in entry
/// order.
pub open spec fn spec_summary_body(s: Seq<(String, CacheEntry<String>)>) -> Seq<char>
    decreases s.len(),
{
    if s.len() == 0 {
        Seq::<char>::empty()
    } else if s.len() == 1 {
        spec_summary_pair(s[0].0@, s[0].1)
    } else {
        spec_summary_body(s.drop_last()) + seq![','] + spec_summary_pair(s.last().0@, s.last().1)
    }
}

/// The whole summary snapshot text: one JSON object keyed by coordinate
/// key, each value carrying the stored second and the summary text.
pub open spec fn spec_summary_snapshot(s: Seq<(String, CacheEntry<String>)>) -> Seq<char> {
    seq!['{'] + spec_summary_body(s) + seq!['}']
}

} // verus!
