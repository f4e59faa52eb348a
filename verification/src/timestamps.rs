//! Wall-clock time. Timestamps are milliseconds since the Unix epoch (UTC).

use vstd::prelude::*;
use std::fmt::Write;

verus! {

/// `chrono::TimeDelta` (`chrono::Duration`), carried opaquely.
#[verifier::external_type_specification]
#[verifier::external_body]
pub struct ExTimeDelta(chrono::TimeDelta);

/// `std::time::Instant`, carried opaquely.
#[verifier::external_type_specification]
#[verifier::external_body]
pub struct ExInstant(std::time::Instant);

/// `std::time::Instant::now`; nothing is stated of the instant.
#[verifier::external_body]
pub(crate) fn instant_now() -> std::time::Instant {
    std::time::Instant::now()
}

/// `Instant::elapsed` of `start`, in whole milliseconds; nothing is stated
/// of its value.
#[verifier::external_body]
pub(crate) fn millis_since(start: &std::time::Instant) -> u64 {
    start.elapsed().as_millis() as u64
}

/// `chrono::Utc::now`, as milliseconds since the Unix epoch; nothing is
/// stated of its value.
#[verifier::external_body]
pub(crate) fn now_millis() -> i64 {
    chrono::Utc::now().timestamp_millis()
}

/// The text of an optional string.
pub open spec fn opt_string(o: Option<String>) -> Option<Seq<char>> {
    match o {
        Some(s) => Some(s@),
        None => None,
    }
}

/// A text, or the empty text when there is none.
pub open spec fn text_or_empty(o: Option<Seq<char>>) -> Seq<char> {
    match o {
        Some(s) => s,
        None => Seq::empty(),
    }
}

/// A text, or the empty string when there is none.
fn string_or_empty(o: Option<String>) -> (r: String)
    ensures
        r@ == text_or_empty(opt_string(o)),
{
    match o {
        Some(s) => s,
        None => String::new(),
    }
}

/// The `Display` text of the `chrono::DateTime<Utc>` at a timestamp given
/// in milliseconds since the Unix epoch; none when the timestamp is out of
/// chrono's range.
pub uninterp spec fn utc_display_of(millis: i64) -> Option<Seq<char>>;

/// `chrono::DateTime::<Utc>::from_timestamp_millis` followed by its
/// `Display`, named `utc_display_of`.
#[verifier::external_body]
fn display_utc_opt(millis: i64) -> (r: Option<String>)
    ensures
        opt_string(r) == utc_display_of(millis),
{
    match chrono::DateTime::from_timestamp_millis(millis) {
        Some(d) => Some(d.to_string()),
        None => None,
    }
}

/// The `Display` text of a UTC timestamp, as `chrono::DateTime<Utc>` prints
/// it; empty for a timestamp out of chrono's range.
#[verifier::opaque]
pub open spec fn utc_display(millis: i64) -> Seq<char> {
    text_or_empty(utc_display_of(millis))
}

/// The `Display` text of a UTC timestamp; empty for a timestamp out of
/// chrono's range.
pub(crate) fn display_utc(millis: i64) -> (r: String)
    ensures
        r@ == utc_display(millis),
{
    proof {
        reveal(utc_display);
    }
    string_or_empty(display_utc_opt(millis))
}

/// The RFC 3339 text of the `chrono::DateTime<Utc>` at a timestamp; none
/// when the timestamp is out of chrono's range.
pub uninterp spec fn utc_rfc3339_of(millis: i64) -> Option<Seq<char>>;

/// `chrono::DateTime::<Utc>::from_timestamp_millis` followed by
/// `to_rfc3339`, named `utc_rfc3339_of`.
#[verifier::external_body]
fn rfc3339_utc_opt(millis: i64) -> (r: Option<String>)
    ensures
        opt_string(r) == utc_rfc3339_of(millis),
{
    match chrono::DateTime::from_timestamp_millis(millis) {
        Some(d) => Some(d.to_rfc3339()),
        None => None,
    }
}

/// The RFC 3339 text of a UTC timestamp, as chrono writes it; empty for a
/// timestamp out of chrono's range.
#[verifier::opaque]
pub open spec fn utc_rfc3339(millis: i64) -> Seq<char> {
    text_or_empty(utc_rfc3339_of(millis))
}

/// The RFC 3339 text of a UTC timestamp; empty for a timestamp out of
/// chrono's range.
pub(crate) fn rfc3339_utc(millis: i64) -> (r: String)
    ensures
        r@ == utc_rfc3339(millis),
{
    proof {
        reveal(utc_rfc3339);
    }
    string_or_empty(rfc3339_utc_opt(millis))
}

/// An instant in UTC to the nanosecond: whole seconds since the Unix epoch
/// and the nanoseconds past them (below one second).
#[derive(Debug, Clone, Copy, PartialEq, Eq, Structural)]
pub struct UtcTime {
    pub secs: i64,
    pub nanos: u32,
}

/// The instant is well formed: its nanoseconds are below one second.
pub open spec fn utc_time_wf(t: UtcTime) -> bool {
    t.nanos < 1_000_000_000
}

/// The nanoseconds from `a` to `b`.
pub open spec fn nanos_between(a: UtcTime, b: UtcTime) -> int {
    (b.secs - a.secs) * 1_000_000_000 + (b.nanos - a.nanos)
}

/// The whole seconds from `a` to `b`, rounded toward zero
/// (`TimeDelta::num_seconds` of `b - a`).
pub open spec fn whole_seconds_from(a: UtcTime, b: UtcTime) -> int {
    let d = nanos_between(a, b);
    if d >= 0 {
        d / 1_000_000_000
    } else {
        -((-d) / 1_000_000_000)
    }
}

/// The whole seconds from `a` to `b`, rounded toward zero.
pub fn seconds_from(a: UtcTime, b: UtcTime) -> (r: i64)
    requires
        utc_time_wf(a),
        utc_time_wf(b),
        i64::MIN < b.secs - a.secs < i64::MAX,
    ensures
        r == whole_seconds_from(a, b),
{
    let d: i128 = (b.secs as i128 - a.secs as i128) * 1_000_000_000 + (b.nanos as i128 - a.nanos as i128);
    let s: i128 = if d >= 0 {
        d / 1_000_000_000
    } else {
        -((-d) / 1_000_000_000)
    };
    proof {
        assert(-0x7fff_ffff_ffff_ffff <= s <= 0x7fff_ffff_ffff_ffff) by (nonlinear_arith)
            requires
                d == (b.secs - a.secs) * 1_000_000_000 + (b.nanos - a.nanos),
                -1_000_000_000 < b.nanos - a.nanos < 1_000_000_000,
                -0x7fff_ffff_ffff_ffff <= b.secs - a.secs <= 0x7fff_ffff_ffff_fffe,
                d >= 0 ==> s == d / 1_000_000_000,
                d < 0 ==> s == -((-d) / 1_000_000_000),
        ;
    }
    s as i64
}

/// The RFC 3339 text of the `chrono::DateTime<Utc>` at an instant given to
/// the nanosecond; none when it is out of chrono's range.
pub uninterp spec fn utc_rfc3339_at(secs: i64, nanos: u32) -> Option<Seq<char>>;

/// `chrono::DateTime::<Utc>::from_timestamp(secs, nanos)` followed by
/// `to_rfc3339`, named `utc_rfc3339_at`.
#[verifier::external_body]
fn rfc3339_at_opt(secs: i64, nanos: u32) -> (r: Option<String>)
    ensures
        opt_string(r) == utc_rfc3339_at(secs, nanos),
{
    match chrono::DateTime::from_timestamp(secs, nanos) {
        Some(d) => Some(d.to_rfc3339()),
        None => None,
    }
}

/// The RFC 3339 text of an instant, as chrono writes it; empty when it is
/// out of chrono's range.
pub(crate) fn rfc3339_of(t: UtcTime) -> (r: String)
    ensures
        r@ == text_or_empty(utc_rfc3339_at(t.secs, t.nanos)),
{
    string_or_empty(rfc3339_at_opt(t.secs, t.nanos))
}

/// The text of the `chrono::DateTime<Utc>` at a timestamp formatted with a
/// chrono format string; none when the timestamp is out of chrono's range
/// or the format string is not one chrono can write.
pub uninterp spec fn utc_format_of(millis: i64, fmt: Seq<char>) -> Option<Seq<char>>;

/// `chrono::DateTime::<Utc>::from_timestamp_millis` followed by
/// `format(fmt)`, written into a string, named `utc_format_of`. An invalid
/// format string makes the write fail, which gives none rather than a
/// panic.
#[verifier::external_body]
fn format_utc_opt(millis: i64, fmt: &str) -> (r: Option<String>)
    ensures
        opt_string(r) == utc_format_of(millis, fmt@),
{
    match chrono::DateTime::from_timestamp_millis(millis) {
        Some(d) => {
            let mut s = String::new();
            match write!(s, "{}", d.format(fmt)) {
                Ok(()) => Some(s),
                Err(_) => None,
            }
        },
        None => None,
    }
}

/// A UTC timestamp formatted with a chrono format string; empty when the
/// timestamp is out of chrono's range or the format cannot be written.
#[verifier::opaque]
pub open spec fn utc_formatted(millis: i64, fmt: Seq<char>) -> Seq<char> {
    text_or_empty(utc_format_of(millis, fmt))
}

/// A UTC timestamp formatted with a chrono format string; empty when the
/// timestamp is out of chrono's range or the format cannot be written.
pub(crate) fn format_utc(millis: i64, fmt: &str) -> (r: String)
    ensures
        r@ == utc_formatted(millis, fmt@),
{
    proof {
        reveal(utc_formatted);
    }
    string_or_empty(format_utc_opt(millis, fmt))
}

/// What chrono makes of an RFC 3339 text: the instant it names
/// (milliseconds since the Unix epoch), or the text of the parse error.
pub uninterp spec fn rfc3339_parse(s: Seq<char>) -> Result<i64, Seq<char>>;

/// The instant an RFC 3339 text names, when it parses.
pub open spec fn rfc3339_instant(s: Seq<char>) -> Option<i64> {
    match rfc3339_parse(s) {
        Ok(t) => Some(t),
        Err(_) => None,
    }
}

/// `chrono::DateTime::parse_from_rfc3339`, as milliseconds since the Unix
/// epoch, or the `Display` of the parse error; the result is a function of
/// the text alone.
#[verifier::external_body]
pub(crate) fn parse_rfc3339_millis(s: &str) -> (r: Result<i64, String>)
    ensures
        match r {
            Ok(t) => rfc3339_parse(s@) == Ok::<i64, Seq<char>>(t),
            Err(e) => rfc3339_parse(s@) == Err::<i64, Seq<char>>(e@),
        },
{
    match chrono::DateTime::parse_from_rfc3339(s) {
        Ok(d) => Ok(d.timestamp_millis()),
        Err(e) => Err(e.to_string()),
    }
}

/// The instant of a date and time without offset, read as UTC with a
/// chrono format string; none when it does not parse.
pub uninterp spec fn naive_datetime_instant(s: Seq<char>, fmt: Seq<char>) -> Option<i64>;

/// `chrono::NaiveDateTime::parse_from_str`, read as UTC, as milliseconds
/// since the Unix epoch; the result is a function of the text and the
/// format alone.
#[verifier::external_body]
pub(crate) fn parse_naive_datetime_millis(s: &str, fmt: &str) -> (r: Option<i64>)
    ensures
        r == naive_datetime_instant(s@, fmt@),
{
    chrono::NaiveDateTime::parse_from_str(s, fmt).ok().map(|d| d.and_utc().timestamp_millis())
}

/// The instant of the start (midnight UTC) of a date read with a chrono
/// format string; none when it does not parse.
pub uninterp spec fn naive_date_instant(s: Seq<char>, fmt: Seq<char>) -> Option<i64>;

/// `chrono::NaiveDate::parse_from_str`, at midnight UTC, as milliseconds
/// since the Unix epoch; the result is a function of the text and the
/// format alone.
#[verifier::external_body]
pub(crate) fn parse_naive_date_millis(s: &str, fmt: &str) -> (r: Option<i64>)
    ensures
        r == naive_date_instant(s@, fmt@),
{
    chrono::NaiveDate::parse_from_str(s, fmt).ok().map(|d| d.and_time(chrono::NaiveTime::MIN).and_utc().timestamp_millis())
}

/// The whole number of seconds of a span (`chrono::TimeDelta::num_seconds`,
/// rounded toward zero), a function of the span alone.
pub uninterp spec fn delta_secs(d: chrono::TimeDelta) -> i64;

/// `chrono::TimeDelta::num_seconds`: the whole number of seconds of the
/// span, named `delta_secs`.
#[verifier::external_body]
pub(crate) fn delta_seconds(d: &chrono::TimeDelta) -> (r: i64)
    ensures
        r == delta_secs(*d),
{
    d.num_seconds()
}

} // verus!
