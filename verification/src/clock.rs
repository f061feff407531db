//! Instants in UTC, held as whole seconds since the Unix epoch and the nanoseconds past
//! that second, with RFC 3339 text read and written by `chrono`.

use vstd::prelude::*;
use chrono::Datelike;

verus! {

/// The instant that `chrono::DateTime::parse_from_rfc3339` reads from a text, converted
/// to UTC and given as (`timestamp()`, `timestamp_subsec_nanos()`), or `None` where the
/// text is no RFC 3339 date-time.
pub uninterp spec fn rfc3339_instant(text: Seq<char>) -> Option<(i64, u32)>;

/// The text that `chrono::DateTime::<Utc>::from_timestamp(secs, nanos)` followed by
/// `to_rfc3339()` gives, or `None` where `from_timestamp` refuses the pair.
pub uninterp spec fn rfc3339_text(secs: i64, nanos: u32) -> Option<Seq<char>>;

/// The instant an RFC 3339 text denotes, if it is one.
pub open spec fn rfc3339_stamp(text: Seq<char>) -> Option<Timestamp> {
    match rfc3339_instant(text) {
        Some(p) => Some(Timestamp::from_pair(p)),
        None => None,
    }
}

/// An instant that `chrono` can represent as a `DateTime<Utc>`.
#[derive(Clone, Copy, Debug, PartialEq, Eq, Structural)]
pub struct Timestamp {
    secs: i64,
    nanos: u32,
}

impl Timestamp {
    /// Whole seconds since 1970-01-01T00:00:00Z (negative before it).
    pub closed spec fn secs(self) -> i64 {
        self.secs
    }

    /// Nanoseconds past `secs` (above 999,999,999 only within a leap second).
    pub closed spec fn nanos(self) -> u32 {
        self.nanos
    }

    #[verifier::type_invariant]
    closed spec fn representable(self) -> bool {
        rfc3339_text(self.secs, self.nanos) is Some
    }

    /// The instant with these parts.
    pub closed spec fn from_pair(p: (i64, u32)) -> Timestamp {
        Timestamp { secs: p.0, nanos: p.1 }
    }

    pub broadcast proof fn from_pair_parts(p: (i64, u32))
        ensures
            #[trigger] Timestamp::from_pair(p).secs() == p.0,
            Timestamp::from_pair(p).nanos() == p.1,
    {
    }

    /// The instant's position on the time line, for comparisons in contracts.
    pub open spec fn later_than(self, other: Timestamp) -> bool {
        self.secs() > other.secs() || (self.secs() == other.secs() && self.nanos() > other.nanos())
    }

    /// The RFC 3339 text of the instant.
    pub closed spec fn text(self) -> Seq<char> {
        rfc3339_text(self.secs, self.nanos).unwrap()
    }

    pub fn seconds(&self) -> (r: i64)
        ensures
            r == self.secs(),
    {
        self.secs
    }

    pub fn subsec_nanos(&self) -> (r: u32)
        ensures
            r == self.nanos(),
    {
        self.nanos
    }

    /// The instant with these parts, where `chrono` can represent it.
    pub fn from_parts(secs: i64, nanos: u32) -> (r: Option<Timestamp>)
        ensures
            r is Some <==> rfc3339_text(secs, nanos) is Some,
            r matches Some(t) ==> t.secs() == secs && t.nanos() == nanos,
    {
        match format_rfc3339(secs, nanos) {
            Some(_) => Some(Timestamp { secs, nanos }),
            None => None,
        }
    }

    /// Reads an RFC 3339 date-time, with any offset, as an instant in UTC.
    pub fn parse_rfc3339(text: &str) -> (r: Option<Timestamp>)
        ensures
            r == rfc3339_stamp(text@),
            match rfc3339_instant(text@) {
                Some(p) => r matches Some(t) && t.secs() == p.0 && t.nanos() == p.1,
                None => r is None,
            },
    {
        match read_rfc3339_parts(text) {
            Ok((secs, nanos)) => Some(Timestamp { secs, nanos }),
            Err(_) => None,
        }
    }

    /// Reads an RFC 3339 date-time, or gives the parser's description of the error.
    pub fn parse_rfc3339_detailed(text: &str) -> (r: Result<Timestamp, String>)
        ensures
            match rfc3339_stamp(text@) {
                Some(t) => r == Ok::<Timestamp, String>(t),
                None => r matches Err(m) && m@ == rfc3339_error_text(text@),
            },
    {
        match read_rfc3339_parts(text) {
            Ok((secs, nanos)) => Ok(Timestamp { secs, nanos }),
            Err(e) => Err(e),
        }
    }

    /// The RFC 3339 text of the instant, as `chrono` writes it.
    pub fn to_rfc3339(&self) -> (r: String)
        ensures
            r@ == self.text(),
            Some(r@) == rfc3339_text(self.secs(), self.nanos()),
            four_digit_year(self.secs()) ==> rfc3339_stamp(r@) == Some(*self),
    {
        proof {
            use_type_invariant(self);
        }
        match format_rfc3339(self.secs, self.nanos) {
            Some(s) => s,
            None => String::new(),
        }
    }

    /// True when `self` lies strictly after `other`.
    pub fn is_later_than(&self, other: &Timestamp) -> (r: bool)
        ensures
            r == self.later_than(*other),
    {
        self.secs > other.secs || (self.secs == other.secs && self.nanos > other.nanos)
    }

    /// The present instant, read from the system clock.
    pub fn now() -> (r: Timestamp) {
        let (secs, nanos) = clock_now();
        Timestamp { secs, nanos }
    }
}

/// The description (`Display`) of the error `chrono::DateTime::parse_from_rfc3339`
/// gives for a text that is no RFC 3339 date-time.
pub uninterp spec fn rfc3339_error_text(text: Seq<char>) -> Seq<char>;

/// Calls `chrono::DateTime::parse_from_rfc3339`, converts to UTC and gives
/// (`timestamp()`, `timestamp_subsec_nanos()`), or the error's `to_string()`. The crate
/// documents that `from_timestamp` takes back such a pair, so the pair can be written
/// again.
#[verifier::external_body]
fn read_rfc3339_parts(text: &str) -> (r: Result<(i64, u32), String>)
    ensures
        match rfc3339_instant(text@) {
            Some(p) => r == Ok::<(i64, u32), String>(p) && rfc3339_text(p.0, p.1) is Some,
            None => r matches Err(m) && m@ == rfc3339_error_text(text@),
        },
{
    match chrono::DateTime::parse_from_rfc3339(text) {
        Ok(dt) => {
            let utc = dt.with_timezone(&chrono::Utc);
            Ok((utc.timestamp(), utc.timestamp_subsec_nanos()))
        },
        Err(e) => Err(e.to_string()),
    }
}

/// True for the instants in the years 0000 to 9999, which RFC 3339 text can hold with
/// its four-digit year.
pub open spec fn four_digit_year(secs: i64) -> bool {
    -62167219200 <= secs && secs < 253402300800
}

/// Calls `chrono::DateTime::<Utc>::from_timestamp(secs, nanos)` and, where it gives a
/// value, its `to_rfc3339()`. Stated besides: for an instant in the years 0000 to 9999
/// (written with four digits) `parse_from_rfc3339` reads the text back as the same
/// pair; a leap second, written as second 60, is read back with its nanoseconds past
/// 10^9 as it was given.
#[verifier::external_body]
fn format_rfc3339(secs: i64, nanos: u32) -> (r: Option<String>)
    ensures
        match rfc3339_text(secs, nanos) {
            Some(t) => r matches Some(s) && s@ == t,
            None => r is None,
        },
        (four_digit_year(secs) && r is Some) ==> (rfc3339_instant(r->Some_0@) is Some
            && rfc3339_instant(r->Some_0@)->Some_0 == (secs, nanos)),
{
    chrono::DateTime::<chrono::Utc>::from_timestamp(secs, nanos).map(|d| d.to_rfc3339())
}

/// Calls `chrono::Utc::now()` and gives (`timestamp()`, `timestamp_subsec_nanos()`).
/// The value depends on the clock; the one fact stated is the one the crate documents
/// for every `DateTime<Utc>`: `from_timestamp` takes the pair back.
#[verifier::external_body]
fn clock_now() -> (r: (i64, u32))
    ensures
        rfc3339_text(r.0, r.1) is Some,
{
    let now = chrono::Utc::now();
    (now.timestamp(), now.timestamp_subsec_nanos())
}

/// The calendar date (year, month, day) that `chrono::NaiveDate::parse_from_str` reads
/// from a text in the format `%Y-%m-%d`, if it is one.
pub uninterp spec fn iso_date(text: Seq<char>) -> Option<(i32, u32, u32)>;

/// Calls `chrono::NaiveDate::parse_from_str(text, "%Y-%m-%d")` and gives the date as
/// (`year()`, `month()`, `day()`).
#[verifier::external_body]
pub(crate) fn parse_iso_date(text: &str) -> (r: Option<(i32, u32, u32)>)
    ensures
        r == iso_date(text@),
{
    chrono::NaiveDate::parse_from_str(text, "%Y-%m-%d").ok().map(|d| (d.year(), d.month(), d.day()))
}

/// Calls `chrono::Local::now().date_naive()` and gives the date as (`year()`,
/// `month()`, `day()`). It depends on the clock and the machine's time zone; nothing is
/// claimed of it.
#[verifier::external_body]
pub(crate) fn local_today() -> (r: (i32, u32, u32)) {
    let d = chrono::Local::now().date_naive();
    (d.year(), d.month(), d.day())
}

/// True when the first date comes before the second.
pub open spec fn date_before(a: (i32, u32, u32), b: (i32, u32, u32)) -> bool {
    a.0 < b.0 || (a.0 == b.0 && (a.1 < b.1 || (a.1 == b.1 && a.2 < b.2)))
}

/// True when the first date comes before the second.
pub fn is_date_before(a: (i32, u32, u32), b: (i32, u32, u32)) -> (r: bool)
    ensures
        r == date_before(a, b),
{
    a.0 < b.0 || (a.0 == b.0 && (a.1 < b.1 || (a.1 == b.1 && a.2 < b.2)))
}

} // verus!
