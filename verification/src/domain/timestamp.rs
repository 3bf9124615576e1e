use vstd::prelude::*;
use chrono::{DateTime, NaiveDateTime, Utc};

verus! {

/// Whether chrono has an instant with these Unix seconds and nanoseconds,
/// that is, whether `DateTime::from_timestamp(seconds, nanos)` gives one.
pub uninterp spec fn instant_exists(seconds: i64, nanos: u32) -> bool;

/// What `DateTime::parse_from_rfc3339` reads from a text, taken to UTC and
/// given as Unix seconds and nanoseconds.
pub uninterp spec fn rfc3339_instant(s: Seq<char>) -> Option<(i64, u32)>;

/// What `NaiveDateTime::parse_from_str(s, format)` reads from a text, taken
/// as UTC and given as Unix seconds and nanoseconds.
pub uninterp spec fn naive_instant(s: Seq<char>, format: Seq<char>) -> Option<(i64, u32)>;

/// The text that chrono's `format(format)` writes of the instant.
pub uninterp spec fn formatted_instant(seconds: i64, nanos: u32, format: Seq<char>) -> Seq<char>;

/// The pattern in which timestamps are written to and read from storage.
pub open spec fn storage_pattern() -> Seq<char> {
    "%Y-%m-%d %H:%M:%S"@
}

/// Calls `Utc::now`. The instant is the clock's; what is claimed is that
/// chrono can represent it (`DateTime::from_timestamp` gives back every
/// instant's own parts) and that it is no leap second: `Utc::now` builds it
/// from a `Duration`, whose nanoseconds are always below one billion.
#[verifier::external_body]
fn clock_now() -> (t: (i64, u32))
    ensures
        instant_exists(t.0, t.1),
        t.1 < 1_000_000_000,
{
    let now = Utc::now();
    (now.timestamp(), now.timestamp_subsec_nanos())
}

/// Calls `DateTime::from_timestamp` and reports whether it gave an instant.
#[verifier::external_body]
fn instant_check(seconds: i64, nanos: u32) -> (b: bool)
    ensures
        b == instant_exists(seconds, nanos),
{
    DateTime::from_timestamp(seconds, nanos).is_some()
}

/// Calls `DateTime::parse_from_rfc3339` and moves the result to UTC.
#[verifier::external_body]
fn parse_rfc3339(s: &str) -> (r: Option<(i64, u32)>)
    ensures
        r == rfc3339_instant(s@),
        match r {
            Some(t) => instant_exists(t.0, t.1),
            None => true,
        },
{
    match DateTime::parse_from_rfc3339(s) {
        Ok(dt) => {
            let utc = dt.with_timezone(&Utc);
            Some((utc.timestamp(), utc.timestamp_subsec_nanos()))
        },
        Err(_) => None,
    }
}

/// Calls `NaiveDateTime::parse_from_str` and takes the result as UTC (`and_utc`).
#[verifier::external_body]
fn parse_naive(s: &str, format: &str) -> (r: Option<(i64, u32)>)
    ensures
        r == naive_instant(s@, format@),
        match r {
            Some(t) => instant_exists(t.0, t.1),
            None => true,
        },
{
    match NaiveDateTime::parse_from_str(s, format) {
        Ok(naive) => {
            let utc = naive.and_utc();
            Some((utc.timestamp(), utc.timestamp_subsec_nanos()))
        },
        Err(_) => None,
    }
}

/// The text that `DateTime::to_rfc3339` writes of the instant.
pub uninterp spec fn rfc3339_written(seconds: i64, nanos: u32) -> Seq<char>;

/// The instant with the given parts.
pub open spec fn instant_at(seconds: i64, nanos: u32) -> Option<(i64, u32)> {
    Some((seconds, nanos))
}

/// Whether an instant lies in the years 0 to 9999, which RFC 3339 writes with
/// four digits: from 0000-01-01T00:00:00Z up to 10000-01-01T00:00:00Z.
pub open spec fn in_four_digit_years(seconds: i64) -> bool {
    -62167219200 <= seconds < 253402300800
}

/// Calls `DateTime::to_rfc3339`. In the years 0 to 9999 the text (four-digit
/// year, the fraction of the second when there is one, offset `+00:00`) reads
/// back with `DateTime::parse_from_rfc3339` as the same instant.
#[verifier::external_body]
fn rfc3339_text(seconds: i64, nanos: u32) -> (text: String)
    requires
        instant_exists(seconds, nanos),
    ensures
        text@ == rfc3339_written(seconds, nanos),
        in_four_digit_years(seconds) && nanos < 1_000_000_000 ==> rfc3339_instant(text@)
            == instant_at(seconds, nanos),
{
    DateTime::from_timestamp(seconds, nanos).unwrap().to_rfc3339()
}

/// The instant at the start of the given Unix second.
pub open spec fn whole_second(seconds: i64) -> Option<(i64, u32)> {
    Some((seconds, 0))
}

/// Calls chrono's `format` on the instant and writes it out. Only the storage
/// pattern is admitted: with a pattern chrono cannot render, writing it out
/// panics. The text it writes in that pattern (a year of at least four digits,
/// signed outside 0 to 9999, then month, day, hours, minutes and seconds) reads
/// back with `NaiveDateTime::parse_from_str` in the same pattern as the start of
/// the same second, unless the instant is a leap second; it carries no offset,
/// so `DateTime::parse_from_rfc3339` refuses it.
#[verifier::external_body]
fn format_instant(seconds: i64, nanos: u32, format: &str) -> (text: String)
    requires
        instant_exists(seconds, nanos),
        format@ == storage_pattern(),
    ensures
        text@ == formatted_instant(seconds, nanos, format@),
        nanos < 1_000_000_000 ==> naive_instant(text@, format@) == whole_second(seconds),
        rfc3339_instant(text@) is None,
{
    DateTime::from_timestamp(seconds, nanos).unwrap().format(format).to_string()
}

/// An instant in UTC, held as Unix seconds and the nanoseconds past them.
/// Only instants that chrono can represent are ever held.
#[derive(Clone, Copy, Debug)]
pub struct Timestamp {
    seconds: i64,
    nanos: u32,
}

impl View for Timestamp {
    type V = (i64, u32);

    closed spec fn view(&self) -> (i64, u32) {
        (self.seconds, self.nanos)
    }
}

impl Timestamp {
    #[verifier::type_invariant]
    spec fn representable(self) -> bool {
        instant_exists(self.seconds, self.nanos)
    }

    /// The current instant, read from the system clock; never a leap second.
    pub fn now() -> (t: Timestamp)
        ensures
            instant_exists(t@.0, t@.1),
            t@.1 < 1_000_000_000,
    {
        let (seconds, nanos) = clock_now();
        Timestamp { seconds, nanos }
    }

    /// The instant with the given Unix seconds and nanoseconds, if chrono has one.
    pub fn from_unix(seconds: i64, nanos: u32) -> (r: Option<Timestamp>)
        ensures
            r is Some <==> instant_exists(seconds, nanos),
            r matches Some(t) ==> t@ == (seconds, nanos),
    {
        if instant_check(seconds, nanos) {
            Some(Timestamp { seconds, nanos })
        } else {
            None
        }
    }

    /// The Unix seconds.
    pub fn seconds(&self) -> (s: i64)
        ensures
            s == self@.0,
    {
        self.seconds
    }

    /// The nanoseconds past the Unix seconds.
    pub fn nanos(&self) -> (n: u32)
        ensures
            n == self@.1,
    {
        self.nanos
    }

    /// Reads an RFC 3339 timestamp, moved to UTC.
    pub fn parse_rfc3339(s: &str) -> (r: Option<Timestamp>)
        ensures
            match r {
                Some(t) => rfc3339_instant(s@) == Some(t@),
                None => rfc3339_instant(s@) is None,
            },
    {
        match parse_rfc3339(s) {
            Some((seconds, nanos)) => Some(Timestamp { seconds, nanos }),
            None => None,
        }
    }

    /// Reads a timestamp written in the storage pattern, taken as UTC.
    pub fn parse_storage(s: &str) -> (r: Option<Timestamp>)
        ensures
            match r {
                Some(t) => naive_instant(s@, storage_pattern()) == Some(t@),
                None => naive_instant(s@, storage_pattern()) is None,
            },
    {
        match parse_naive(s, "%Y-%m-%d %H:%M:%S") {
            Some((seconds, nanos)) => Some(Timestamp { seconds, nanos }),
            None => None,
        }
    }

    /// Writes the timestamp as RFC 3339 text.
    pub fn to_rfc3339(&self) -> (text: String)
        ensures
            text@ == rfc3339_written(self@.0, self@.1),
            in_four_digit_years(self@.0) && self@.1 < 1_000_000_000 ==> rfc3339_instant(text@)
                == instant_at(self@.0, self@.1),
    {
        proof {
            use_type_invariant(self);
        }
        rfc3339_text(self.seconds, self.nanos)
    }

    /// Writes the timestamp in the storage pattern, to the second.
    pub fn to_storage(&self) -> (text: String)
        ensures
            text@ == formatted_instant(self@.0, self@.1, storage_pattern()),
            self@.1 < 1_000_000_000 ==> naive_instant(text@, storage_pattern()) == whole_second(
                self@.0,
            ),
            rfc3339_instant(text@) is None,
    {
        proof {
            use_type_invariant(self);
        }
        format_instant(self.seconds, self.nanos, "%Y-%m-%d %H:%M:%S")
    }
}

} // verus!
