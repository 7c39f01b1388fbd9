//! Points in time, as seconds and nanoseconds since the Unix epoch (UTC),
//! and the calendar computations that come from `chrono`.

use vstd::prelude::*;

verus! {

/// A UTC instant: whole seconds since 1970-01-01T00:00:00Z and the
/// nanoseconds within that second.
#[derive(Clone, Copy, Debug, PartialEq, Eq, Structural)]
pub struct Timestamp {
    pub secs: i64,
    pub nanos: u32,
}

/// The current time, read with `chrono::Utc::now`. Nothing is promised
/// of the value: it is the clock's reading.
#[verifier::external_body]
pub(crate) fn now() -> (r: Timestamp) {
    let dt = chrono::Utc::now();
    Timestamp { secs: dt.timestamp(), nanos: dt.timestamp_subsec_nanos() }
}

/// What `chrono::Utc.timestamp_opt(secs, nanos).single()` gives: the
/// instant, or `None` outside chrono's representable range.
pub uninterp spec fn spec_utc_timestamp(secs: i64, nanos: u32) -> Option<Timestamp>;

/// What `chrono::Utc.timestamp_millis_opt(ms).single()` gives.
pub uninterp spec fn spec_utc_timestamp_millis(ms: i64) -> Option<Timestamp>;

/// What `chrono::DateTime::parse_from_rfc3339` gives for a text, taken
/// to UTC.
pub uninterp spec fn spec_parse_rfc3339(s: Seq<char>) -> Option<Timestamp>;

/// What `chrono::NaiveDateTime::parse_from_str(s, fmt)` gives, read as UTC.
pub uninterp spec fn spec_parse_naive(s: Seq<char>, fmt: Seq<char>) -> Option<Timestamp>;

/// `Utc.timestamp_opt(secs, nanos).single()`. When chrono accepts the
/// pair, the instant it builds has exactly these seconds and nanoseconds
/// (chrono's `DateTime::from_timestamp` keeps both as given when
/// `nanos < 1_000_000_000`).
#[verifier::external_body]
pub(crate) fn utc_timestamp(secs: i64, nanos: u32) -> (r: Option<Timestamp>)
    requires
        nanos < 1_000_000_000,
    ensures
        r == spec_utc_timestamp(secs, nanos),
        r matches Some(t) ==> t.secs == secs && t.nanos == nanos,
{
    chrono::TimeZone::timestamp_opt(&chrono::Utc, secs, nanos).single().map(|dt| Timestamp { secs: dt.timestamp(), nanos: dt.timestamp_subsec_nanos() })
}

/// `Utc.timestamp_millis_opt(ms).single()`. When chrono accepts the
/// value, the instant splits `ms` with Euclidean division by 1000.
#[verifier::external_body]
pub(crate) fn utc_timestamp_millis(ms: i64) -> (r: Option<Timestamp>)
    ensures
        r == spec_utc_timestamp_millis(ms),
        r matches Some(t) ==> t.secs == ms / 1000 && t.nanos == (ms % 1000) * 1_000_000,
{
    chrono::TimeZone::timestamp_millis_opt(&chrono::Utc, ms).single().map(|dt| Timestamp { secs: dt.timestamp(), nanos: dt.timestamp_subsec_nanos() })
}

/// `DateTime::parse_from_rfc3339(s)`, converted to UTC.
#[verifier::external_body]
pub(crate) fn parse_rfc3339(s: &str) -> (r: Option<Timestamp>)
    ensures
        r == spec_parse_rfc3339(s@),
{
    chrono::DateTime::parse_from_rfc3339(s).ok().map(|dt| Timestamp { secs: dt.timestamp(), nanos: dt.timestamp_subsec_nanos() })
}

/// `NaiveDateTime::parse_from_str(s, fmt)`, read as a UTC time.
#[verifier::external_body]
pub(crate) fn parse_naive(s: &str, fmt: &str) -> (r: Option<Timestamp>)
    ensures
        r == spec_parse_naive(s@, fmt@),
{
    chrono::NaiveDateTime::parse_from_str(s, fmt).ok().map(|n| chrono::TimeZone::from_utc_datetime(&chrono::Utc, &n)).map(|dt| Timestamp { secs: dt.timestamp(), nanos: dt.timestamp_subsec_nanos() })
}

/// Whole seconds from `start` to `end`, truncated toward zero like
/// `chrono::TimeDelta::num_seconds`.
pub open spec fn spec_seconds_between(start: Timestamp, end: Timestamp) -> int {
    let total: int = (end.secs - start.secs) * 1_000_000_000 + (end.nanos - start.nanos);
    if total >= 0 {
        total / 1_000_000_000
    } else {
        -((-total) / 1_000_000_000)
    }
}

/// Uptime in whole seconds between two readings of the clock (a leap
/// second shows as nanoseconds past 1e9, as chrono reports it).
pub fn seconds_between(start: Timestamp, end: Timestamp) -> (r: i64)
    requires
        start.nanos < 2_000_000_000,
        end.nanos < 2_000_000_000,
        -0x2000_0000_0000_0000 <= start.secs < 0x2000_0000_0000_0000,
        -0x2000_0000_0000_0000 <= end.secs < 0x2000_0000_0000_0000,
    ensures
        r == spec_seconds_between(start, end),
{
    let ds: i128 = end.secs as i128 - start.secs as i128;
    let dn: i128 = end.nanos as i128 - start.nanos as i128;
    let total: i128 = ds * 1_000_000_000 + dn;
    let r: i128 = if total >= 0 { total / 1_000_000_000 } else { -((-total) / 1_000_000_000) };
    assert(-0x8000_0000_0000_0000 <= r < 0x8000_0000_0000_0000) by (nonlinear_arith)
        requires
            total == ds * 1_000_000_000 + dn,
            -0x4000_0000_0000_0000 < ds < 0x4000_0000_0000_0000,
            -2_000_000_000 < dn < 2_000_000_000,
            r == (if total >= 0 { total / 1_000_000_000 } else { -((-total) / 1_000_000_000) }),
    ;
    r as i64
}

} // verus!
