//! Reading stored rows: identifiers and instants are read from their text, and the
//! first field that cannot be read decides the error.

use vstd::prelude::*;
use crate::clock::{four_digit_year, rfc3339_stamp, Timestamp};
use crate::errors::{DomainError, ValidationError};
use crate::ident::{parse_uuid_text, uuid_parsed, uuid_to_text};
use crate::text::join2;

verus! {

/// What went wrong with the first unreadable field of a row.
pub enum FieldFault {
    /// A field in the wrong format: the field's name and the reason.
    Format { field: Seq<char>, reason: Seq<char> },
    /// A free-form validation message.
    Custom { message: Seq<char> },
    /// A text that is no UUID, reported as such.
    InvalidUuid { text: Seq<char> },
    /// An internal error with this message.
    Internal { message: Seq<char> },
}

/// True when an error reports exactly this fault.
pub open spec fn reports(e: DomainError, f: FieldFault) -> bool {
    match f {
        FieldFault::Format { field, reason } =>
            e matches DomainError::Validation(ValidationError::Format { field: x, reason: y })
                && x@ == field && y@ == reason,
        FieldFault::Custom { message } =>
            e matches DomainError::Validation(ValidationError::Custom(m)) && m@ == message,
        FieldFault::InvalidUuid { text } => e matches DomainError::InvalidUuid(t) && t@ == text,
        FieldFault::Internal { message } => e matches DomainError::Internal(m) && m@ == message,
    }
}

/// The fault of a UUID field, if its text is no UUID.
pub open spec fn uuid_fault(text: Seq<char>, field: Seq<char>) -> Option<FieldFault> {
    if uuid_parsed(text) is Some {
        None
    } else {
        Some(FieldFault::Format { field, reason: "Invalid UUID format: "@ + text })
    }
}

/// The fault of an optional UUID field.
pub open spec fn opt_uuid_fault(text: Option<String>, field: Seq<char>) -> Option<FieldFault> {
    match text {
        Some(t) => uuid_fault(t@, field),
        None => None,
    }
}

/// The fault of an instant field, if its text is no RFC 3339 date-time.
pub open spec fn stamp_fault(text: Seq<char>, field: Seq<char>) -> Option<FieldFault> {
    if rfc3339_stamp(text) is Some {
        None
    } else {
        Some(FieldFault::Format { field, reason: "Invalid RFC3339 format: "@ + text })
    }
}

/// The fault of an optional instant field.
pub open spec fn opt_stamp_fault(text: Option<String>, field: Seq<char>) -> Option<FieldFault> {
    match text {
        Some(t) => stamp_fault(t@, field),
        None => None,
    }
}

/// The first of two faults: the earlier check decides when it fails.
pub open spec fn or_next(first: Option<FieldFault>, next: Option<FieldFault>) -> Option<FieldFault> {
    if first is Some {
        first
    } else {
        next
    }
}

/// The fault of a field read as a name of an enumeration, when no value has it.
pub open spec fn name_fault(known: bool, message: Seq<char>) -> Option<FieldFault> {
    if known {
        None
    } else {
        Some(FieldFault::Custom { message })
    }
}

/// The UUID an optional text denotes (`None` stays `None`).
pub open spec fn opt_uuid(text: Option<String>) -> Option<u128> {
    match text {
        Some(t) => Some(uuid_parsed(t@).unwrap()),
        None => None,
    }
}

/// The instant an optional text denotes (`None` stays `None`).
pub open spec fn opt_stamp(text: Option<String>) -> Option<Timestamp> {
    match text {
        Some(t) => Some(rfc3339_stamp(t@).unwrap()),
        None => None,
    }
}

/// Reads a UUID field; a text that is no UUID is a format error of the field.
pub fn read_uuid(text: &str, field: &str) -> (r: Result<u128, DomainError>)
    ensures
        match uuid_fault(text@, field@) {
            None => r == Ok::<u128, DomainError>(uuid_parsed(text@).unwrap()),
            Some(f) => r matches Err(e) && reports(e, f),
        },
{
    match parse_uuid_text(text) {
        Some(u) => Ok(u),
        None => Err(DomainError::Validation(ValidationError::Format {
            field: String::from_str(field),
            reason: join2("Invalid UUID format: ", text),
        })),
    }
}

/// Reads an optional UUID field.
pub fn read_opt_uuid(text: &Option<String>, field: &str) -> (r: Result<Option<u128>, DomainError>)
    ensures
        match opt_uuid_fault(*text, field@) {
            None => r == Ok::<Option<u128>, DomainError>(opt_uuid(*text)),
            Some(f) => r matches Err(e) && reports(e, f),
        },
{
    match text {
        Some(t) => match read_uuid(t.as_str(), field) {
            Ok(u) => Ok(Some(u)),
            Err(e) => Err(e),
        },
        None => Ok(None),
    }
}

/// Reads an instant field; a text that is no RFC 3339 date-time is a format error of
/// the field.
pub fn read_stamp(text: &str, field: &str) -> (r: Result<Timestamp, DomainError>)
    ensures
        match stamp_fault(text@, field@) {
            None => r == Ok::<Timestamp, DomainError>(rfc3339_stamp(text@).unwrap()),
            Some(f) => r matches Err(e) && reports(e, f),
        },
{
    match Timestamp::parse_rfc3339(text) {
        Some(t) => Ok(t),
        None => Err(DomainError::Validation(ValidationError::Format {
            field: String::from_str(field),
            reason: join2("Invalid RFC3339 format: ", text),
        })),
    }
}

/// Reads an optional instant field.
pub fn read_opt_stamp(text: &Option<String>, field: &str) -> (r: Result<Option<Timestamp>, DomainError>)
    ensures
        match opt_stamp_fault(*text, field@) {
            None => r == Ok::<Option<Timestamp>, DomainError>(opt_stamp(*text)),
            Some(f) => r matches Err(e) && reports(e, f),
        },
{
    match text {
        Some(t) => match read_stamp(t.as_str(), field) {
            Ok(s) => Ok(Some(s)),
            Err(e) => Err(e),
        },
        None => Ok(None),
    }
}

/// True when an optional instant is none, or lies in the years 0000 to 9999.
pub open spec fn opt_four_digit_year(t: Option<Timestamp>) -> bool {
    match t {
        Some(x) => four_digit_year(x.secs()),
        None => true,
    }
}

/// Writes an instant as it is stored: its RFC 3339 text, which reads back as the same
/// instant when it lies in the years 0000 to 9999.
pub fn write_stamp(t: &Timestamp) -> (r: String)
    ensures
        four_digit_year(t.secs()) ==> rfc3339_stamp(r@) == Some(*t),
{
    t.to_rfc3339()
}

/// Writes an optional instant as it is stored.
pub fn write_opt_stamp(t: &Option<Timestamp>) -> (r: Option<String>)
    ensures
        t is None ==> r is None,
        opt_four_digit_year(*t) ==> (r is Some ==> rfc3339_stamp(r->Some_0@) is Some) && opt_stamp(r) == *t,
{
    match t {
        Some(x) => Some(write_stamp(x)),
        None => None,
    }
}

/// Writes an identifier as it is stored: its UUID text, which reads back as the same
/// identifier.
pub fn write_uuid(v: u128) -> (r: String)
    ensures
        uuid_parsed(r@) == Some(v),
{
    uuid_to_text(v)
}

/// Writes an optional identifier as it is stored.
pub fn write_opt_uuid(v: Option<u128>) -> (r: Option<String>)
    ensures
        v is None ==> r is None,
        r is Some ==> uuid_parsed(r->Some_0@) is Some,
        opt_uuid(r) == v,
{
    match v {
        Some(u) => Some(write_uuid(u)),
        None => None,
    }
}

} // verus!
