//! Instants and calendar dates as plain values, and the parsers for the
//! formats the service uses: RFC 2822 for token expiry, a timezone-less
//! RFC 3339 variant for record dates, `/Date(<milliseconds>)/` for climb
//! dates, and `13 Feb 2009`-style day strings.
//!
//! The calendar arithmetic itself is done by the `chrono` and `epochs`
//! crates behind trusted wrappers; everything around those calls is
//! verified.

use vstd::prelude::*;
use crate::text::{parse_i64_chars, parsed_i64, remove_all, remove_all_chars, seq_contains_char,
    str_chars, str_contains_char};

verus! {

/// An instant: non-leap seconds since the Unix epoch, plus nanoseconds
/// within the second.
#[derive(PartialEq, Eq, Structural, Clone, Copy, Debug)]
pub struct Timestamp {
    pub secs: i64,
    pub nanos: u32,
}

impl Timestamp {
    /// Whether this instant lies strictly after another.
    pub open spec fn after_spec(&self, other: Timestamp) -> bool {
        self.secs > other.secs || (self.secs == other.secs && self.nanos > other.nanos)
    }

    /// Whether this instant lies strictly after another.
    pub fn is_after(&self, other: &Timestamp) -> (r: bool)
        ensures
            r == self.after_spec(*other),
    {
        self.secs > other.secs || (self.secs == other.secs && self.nanos > other.nanos)
    }
}

/// A calendar day, counted in days from the common era (0001-01-01 is
/// day one).
#[derive(PartialEq, Eq, Structural, Clone, Copy, Debug)]
pub struct DayDate {
    pub days_from_ce: i32,
}

/// The instant an RFC 2822 string denotes, as Unix seconds and
/// nanoseconds, or nothing when the string does not parse.
pub uninterp spec fn rfc2822_instant(s: Seq<char>) -> Option<(i64, u32)>;

/// The instant a string denotes under a `chrono` strftime-style format,
/// or nothing when the string does not match the format.
pub uninterp spec fn datetime_in_format(s: Seq<char>, fmt: Seq<char>) -> Option<(i64, u32)>;

/// The day a string denotes under a `chrono` strftime-style format, in
/// days from the common era, or nothing when the string does not match.
pub uninterp spec fn date_in_format(s: Seq<char>, fmt: Seq<char>) -> Option<i32>;

/// What `epochs::to_windows_date` answers for an instant: hectonanoseconds
/// since 0001-01-01, or nothing when `chrono` cannot represent the instant.
pub uninterp spec fn windows_date_opt(secs: i64, nanos: u32) -> Option<i64>;

/// The instant `epochs::java` derives from a count of milliseconds since
/// the Unix epoch, or nothing when it is out of range.
pub uninterp spec fn java_instant(ms: i64) -> Option<(i64, u32)>;

/// Relies on chrono's `DateTime::parse_from_rfc2822`: the result is a
/// function of the characters alone; `timestamp` and
/// `timestamp_subsec_nanos` read the instant back out.
#[verifier::external_body]
fn parse_rfc2822_raw(s: &str) -> (r: Option<(i64, u32)>)
    ensures
        r == rfc2822_instant(s@),
{
    chrono::DateTime::parse_from_rfc2822(s).ok().map(|d| (d.timestamp(), d.timestamp_subsec_nanos()))
}

/// Relies on chrono's `NaiveDateTime::parse_from_str`: the result is a
/// function of the string and the format alone; the parsed value is read
/// back as Unix seconds and nanoseconds of the untimezoned instant.
#[verifier::external_body]
fn parse_datetime_format_raw(s: &str, fmt: &str) -> (r: Option<(i64, u32)>)
    ensures
        r == datetime_in_format(s@, fmt@),
{
    chrono::NaiveDateTime::parse_from_str(s, fmt).ok().map(
        |d| (d.and_utc().timestamp(), d.and_utc().timestamp_subsec_nanos()),
    )
}

/// Relies on chrono's `NaiveDate::parse_from_str`: the result is a
/// function of the string and the format alone; `num_days_from_ce` reads
/// the day back out.
#[verifier::external_body]
fn parse_date_format_raw(s: &str, fmt: &str) -> (r: Option<i32>)
    ensures
        r == date_in_format(s@, fmt@),
{
    chrono::NaiveDate::parse_from_str(s, fmt).ok().map(|d| chrono::Datelike::num_days_from_ce(&d))
}

/// Relies on `epochs::to_windows_date` (deterministic arithmetic on the
/// instant) and chrono's `DateTime::from_timestamp`, whose source accepts
/// every instant between the Unix epoch and the year 2100.
#[verifier::external_body]
pub(crate) fn windows_date_from_instant(t: &Timestamp) -> (r: Option<i64>)
    ensures
        r == windows_date_opt(t.secs, t.nanos),
        0 <= t.secs < 4_102_444_800 && t.nanos < 1_000_000_000 ==> r is Some,
{
    chrono::DateTime::from_timestamp(t.secs, t.nanos).map(
        |d| epochs::to_windows_date(d.naive_utc()),
    )
}

/// Relies on `epochs::java`, whose source divides the milliseconds by a
/// thousand and hands the quotient and scaled remainder to chrono's
/// `NaiveDateTime::from_timestamp_opt`; that accepts every non-negative
/// count of milliseconds up to far beyond the year 2100.
#[verifier::external_body]
fn java_datetime(ms: i64) -> (r: Option<Timestamp>)
    ensures
        r matches Some(t) ==> java_instant(ms) == Some((t.secs, t.nanos)),
        r is None ==> java_instant(ms) is None,
        0 <= ms < 4_102_444_800_000 ==> r == Some(
            Timestamp { secs: (ms / 1000) as i64, nanos: (ms % 1000 * 1_000_000) as u32 },
        ),
{
    epochs::java(ms).map(
        |d| Timestamp { secs: d.and_utc().timestamp(), nanos: d.and_utc().timestamp_subsec_nanos() },
    )
}

/// The instant an RFC 2822 token-expiry string denotes.
pub open spec fn http_datetime_spec(s: Seq<char>) -> Option<Timestamp> {
    match rfc2822_instant(s) {
        Some(p) => Some(Timestamp { secs: p.0, nanos: p.1 }),
        None => None,
    }
}

/// Parses an RFC 2822 date-time string, as the token endpoint formats its
/// expiry and issue fields.
pub fn parse_http_datetime(s: &str) -> (r: Option<Timestamp>)
    ensures
        r == http_datetime_spec(s@),
{
    match parse_rfc2822_raw(s) {
        Some(p) => Some(Timestamp { secs: p.0, nanos: p.1 }),
        None => None,
    }
}

/// The format used for a record date-time that carries a fractional part.
pub open spec fn dotted_datetime_format() -> Seq<char> {
    "%Y-%m-%dT%H:%M:%S.%f"@
}

/// The format used for a record date-time without a fractional part.
pub open spec fn plain_datetime_format() -> Seq<char> {
    "%Y-%m-%dT%H:%M:%S"@
}

/// The instant a timezone-less record date-time string denotes: the
/// fractional-seconds format is chosen exactly when the string contains a
/// dot.
pub open spec fn api_datetime_spec(s: Seq<char>) -> Option<Timestamp> {
    let fmt = if seq_contains_char(s, '.') {
        dotted_datetime_format()
    } else {
        plain_datetime_format()
    };
    match datetime_in_format(s, fmt) {
        Some(p) => Some(Timestamp { secs: p.0, nanos: p.1 }),
        None => None,
    }
}

/// Parses a timezone-less record date-time string, choosing the
/// fractional-seconds format when the string contains a dot.
pub fn parse_api_datetime(s: &str) -> (r: Option<Timestamp>)
    ensures
        r == api_datetime_spec(s@),
{
    let fmt: &str = if str_contains_char(s, '.') {
        "%Y-%m-%dT%H:%M:%S.%f"
    } else {
        "%Y-%m-%dT%H:%M:%S"
    };
    match parse_datetime_format_raw(s, fmt) {
        Some(p) => Some(Timestamp { secs: p.0, nanos: p.1 }),
        None => None,
    }
}

/// The format used for a climb day string such as `13 Feb 2009`.
pub open spec fn day_date_format() -> Seq<char> {
    "%d %b %Y"@
}

/// The day a climb day string denotes.
pub open spec fn api_date_spec(s: Seq<char>) -> Option<DayDate> {
    match date_in_format(s, day_date_format()) {
        Some(d) => Some(DayDate { days_from_ce: d }),
        None => None,
    }
}

/// Parses a climb day string such as `13 Feb 2009`.
pub fn parse_api_date(s: &str) -> (r: Option<DayDate>)
    ensures
        r == api_date_spec(s@),
{
    match parse_date_format_raw(s, "%d %b %Y") {
        Some(d) => Some(DayDate { days_from_ce: d }),
        None => None,
    }
}

/// The instant a `/Date(<milliseconds>)/` climb date string denotes: the
/// wrapping is stripped, the remaining decimal number is read as
/// milliseconds since the Unix epoch.
pub open spec fn climbed_instant_spec(s: Seq<char>) -> Option<Timestamp> {
    let cleaned = remove_all(remove_all(s, "/Date("@), ")/"@);
    match parsed_i64(cleaned) {
        Some(ms) => match java_instant(ms) {
            Some(p) => Some(Timestamp { secs: p.0, nanos: p.1 }),
            None => None,
        },
        None => None,
    }
}

/// Parses a `/Date(<milliseconds>)/` climb date string.
pub fn parse_climbed_timestamp(s: &str) -> (r: Option<Timestamp>)
    ensures
        r == climbed_instant_spec(s@),
{
    proof {
        reveal_strlit("/Date(");
        reveal_strlit(")/");
    }
    let chars = str_chars(s);
    let open_pat = str_chars("/Date(");
    let close_pat = str_chars(")/");
    let stripped = remove_all_chars(&chars, &open_pat);
    let cleaned = remove_all_chars(&stripped, &close_pat);
    match parse_i64_chars(&cleaned) {
        Some(ms) => match java_datetime(ms) {
            Some(t) => {
                proof {
                    assert(java_instant(ms) == Some((t.secs, t.nanos)));
                }
                Some(t)
            },
            None => None,
        },
        None => None,
    }
}

} // verus!
