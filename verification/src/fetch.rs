//! The decisions around one measurement fetch: the request target and query
//! parameters, the horizontal time axis of the requested range, and what a
//! completed fetch — successful, failed, or stale — does to the render state.

use vstd::prelude::*;

use crate::chart::{
    batch_in_range, bound_model, spec_humidity_config, spec_temperature_config, update_data,
    ChartState, Measurement,
};

verus! {

/// Milliseconds in one day: the tick granularity of the horizontal axis.
pub const DAY_MS: i64 = 86_400_000;

/// Earliest instant the query formatter accepts: 0000-01-01T00:00:00Z, the
/// start of the RFC 3339 year range, as epoch milliseconds.
pub const RFC3339_MIN_MS: i64 = -62_167_219_200_000;

/// Latest instant the query formatter accepts: 9999-12-31T23:59:59.999Z, the
/// end of the RFC 3339 year range, as epoch milliseconds.
pub const RFC3339_MAX_MS: i64 = 253_402_300_799_999;

/// Names the text chrono's RFC 3339 formatter produces for a UTC instant
/// given as epoch milliseconds: the text depends on that instant alone.
pub uninterp spec fn rfc3339_utc_of(timestamp_ms: int) -> Seq<char>;

/// Relies on chrono's `DateTime::<Utc>::from_timestamp_millis` and
/// `DateTime::to_rfc3339_opts` with `SecondsFormat::AutoSi` and `Z` for UTC —
/// the formatting chrono also uses when it serializes a UTC instant. Within
/// the RFC 3339 year range the conversion from milliseconds is documented to
/// succeed, and the text is a function of the millisecond value alone.
#[verifier::external_body]
fn rfc3339_utc(timestamp_ms: i64) -> (r: String)
    requires
        RFC3339_MIN_MS <= timestamp_ms <= RFC3339_MAX_MS,
    ensures
        r@ == rfc3339_utc_of(timestamp_ms as int),
{
    let instant = chrono::DateTime::<chrono::Utc>::from_timestamp_millis(timestamp_ms)
        .expect("instant lies within the RFC 3339 year range");
    instant.to_rfc3339_opts(chrono::SecondsFormat::AutoSi, true)
}

/// Fixed path of the measurements endpoint, appended to the configured base
/// URL by the transport layer.
pub fn measurements_path() -> (r: String)
    ensures
        r@ == "/api/measurements"@,
{
    "/api/measurements".to_owned()
}

/// Resolve the configured backend base URL. An unset configuration is
/// non-fatal: it degrades to the empty string — leaving every request aimed
/// at a relative, failing target — and the second component says that a
/// warning must be logged, exactly then.
pub fn resolve_base_url(configured: Option<String>) -> (r: (String, bool))
    ensures
        r.1 <==> configured is None,
        configured matches Some(url) ==> r.0@ == url@,
        configured is None ==> r.0@ == Seq::<char>::empty(),
{
    match configured {
        Some(url) => (url, false),
        None => (String::new(), true),
    }
}

/// Query parameters of one measurements request: the two bounds of the
/// requested time range as RFC 3339 UTC timestamps, under the parameter names
/// the backend expects, `date_from` first.
pub fn measurement_query_params(date_from_ms: i64, date_to_ms: i64) -> (r: Vec<(String, String)>)
    requires
        RFC3339_MIN_MS <= date_from_ms <= RFC3339_MAX_MS,
        RFC3339_MIN_MS <= date_to_ms <= RFC3339_MAX_MS,
    ensures
        r@.len() == 2,
        r@[0].0@ == "date_from"@,
        r@[0].1@ == rfc3339_utc_of(date_from_ms as int),
        r@[1].0@ == "date_to"@,
        r@[1].1@ == rfc3339_utc_of(date_to_ms as int),
{
    let from_text = rfc3339_utc(date_from_ms);
    let to_text = rfc3339_utc(date_to_ms);
    let mut r: Vec<(String, String)> = Vec::new();
    r.push(("date_from".to_owned(), from_text));
    r.push(("date_to".to_owned(), to_text));
    r
}

/// The horizontal axis of the chart: the requested time range, ticked at
/// one-day granularity. It is derived from the request alone, never from the
/// fetched data.
#[derive(Clone, Copy, PartialEq, Eq, Structural, Debug)]
pub struct TimeAxis {
    pub start_ms: i64,
    pub end_ms: i64,
    pub tick_ms: i64,
}

/// Build the horizontal axis for a requested range. The range direction is an
/// explicit, validated invariant rather than a positional convention: an
/// inverted range is rejected, exactly then.
pub fn time_axis(start_ms: i64, end_ms: i64) -> (r: Option<TimeAxis>)
    ensures
        r is Some <==> start_ms <= end_ms,
        r matches Some(a) ==> a == (TimeAxis { start_ms, end_ms, tick_ms: DAY_MS }),
{
    if start_ms <= end_ms {
        Some(TimeAxis { start_ms, end_ms, tick_ms: DAY_MS })
    } else {
        None
    }
}

/// What one fetch came back with: the parsed batch, or one undifferentiated
/// fetch error — transport failures, non-success HTTP statuses and malformed
/// response bodies are deliberately not distinguished.
pub enum FetchOutcome {
    Received(Vec<Measurement>),
    Failed,
}

/// Apply a completed fetch to the render state. A stale completion — one
/// whose generation token no longer matches the live view's — is a no-op. A
/// live failure leaves the prior state untouched and demands exactly one
/// error log, which the caller performs. A live batch replaces the whole
/// render state with what that batch binds to.
pub fn apply_fetch(
    state: &mut ChartState,
    outcome: FetchOutcome,
    outcome_generation: u64,
    live_generation: u64,
) -> (log_error: bool)
    requires
        outcome matches FetchOutcome::Received(ms) ==> batch_in_range(ms@),
    ensures
        log_error <==> (outcome_generation == live_generation && outcome is Failed),
        outcome is Failed || outcome_generation != live_generation ==> *final(state) == *old(
            state,
        ),
        outcome matches FetchOutcome::Received(ms) ==> (outcome_generation == live_generation
            ==> final(state)@ == bound_model(
            ms@,
            spec_temperature_config(),
            spec_humidity_config(),
        )),
{
    if outcome_generation != live_generation {
        return false;
    }
    match outcome {
        FetchOutcome::Received(measurements) => {
            update_data(state, &measurements);
            false
        },
        FetchOutcome::Failed => true,
    }
}

} // verus!
