//! Field rules of the data-entry types: required values, lengths in characters, e-mail
//! addresses and closed sets of values. The first rule a value breaks is reported.

use vstd::prelude::*;
use crate::errors::{DomainError, ValidationError};
use crate::text::same_text;

verus! {

/// A rule that a field's value breaks.
pub enum Broken {
    Required { field: Seq<char> },
    MinLength { field: Seq<char>, min: nat },
    MaxLength { field: Seq<char>, max: nat },
    Format { field: Seq<char>, reason: Seq<char> },
    InvalidValue { field: Seq<char>, reason: Seq<char> },
}

/// True when an error reports exactly this broken rule.
pub open spec fn reports_broken(e: DomainError, b: Broken) -> bool {
    match b {
        Broken::Required { field } =>
            e matches DomainError::Validation(ValidationError::Required { field: f }) && f@ == field,
        Broken::MinLength { field, min } =>
            e matches DomainError::Validation(ValidationError::MinLength { field: f, min: m }) && f@ == field && m == min,
        Broken::MaxLength { field, max } =>
            e matches DomainError::Validation(ValidationError::MaxLength { field: f, max: m }) && f@ == field && m == max,
        Broken::Format { field, reason } =>
            e matches DomainError::Validation(ValidationError::Format { field: f, reason: m }) && f@ == field && m@ == reason,
        Broken::InvalidValue { field, reason } =>
            e matches DomainError::Validation(ValidationError::InvalidValue { field: f, reason: m })
                && f@ == field && m@ == reason,
    }
}

/// The first of two broken rules: the earlier check decides.
pub open spec fn first_broken(first: Option<Broken>, next: Option<Broken>) -> Option<Broken> {
    if first is Some { first } else { next }
}

/// A required value must not be empty.
pub open spec fn required_rule(field: Seq<char>, v: Seq<char>) -> Option<Broken> {
    if v.len() == 0 { Some(Broken::Required { field }) } else { None }
}

/// A value must have at least `min` characters.
pub open spec fn min_length_rule(field: Seq<char>, v: Seq<char>, min: nat) -> Option<Broken> {
    if v.len() < min { Some(Broken::MinLength { field, min }) } else { None }
}

/// A value must have at most `max` characters.
pub open spec fn max_length_rule(field: Seq<char>, v: Seq<char>, max: nat) -> Option<Broken> {
    if v.len() > max { Some(Broken::MaxLength { field, max }) } else { None }
}

/// An e-mail address has an `@` with characters before and after it.
pub open spec fn email_shaped(v: Seq<char>) -> bool {
    exists|i: int| 0 < i < v.len() - 1 && v[i] == '@'
}

/// A value must be an e-mail address.
pub open spec fn email_rule(field: Seq<char>, v: Seq<char>) -> Option<Broken> {
    if email_shaped(v) { None } else { Some(Broken::Format { field, reason: "Invalid email format"@ }) }
}

/// A user role must be one of the three the application knows.
pub open spec fn role_rule(field: Seq<char>, v: Seq<char>) -> Option<Broken> {
    if v == "admin"@ || v == "field_tl"@ || v == "field"@ {
        None
    } else {
        Some(Broken::InvalidValue { field, reason: "Invalid role"@ })
    }
}

/// The error for a broken rule.
fn broken_error(field: &str, kind: u8, n: usize, reason: &str) -> (r: DomainError)
    ensures
        kind == 0 ==> reports_broken(r, Broken::Required { field: field@ }),
        kind == 1 ==> reports_broken(r, Broken::MinLength { field: field@, min: n as nat }),
        kind == 2 ==> reports_broken(r, Broken::MaxLength { field: field@, max: n as nat }),
        kind == 3 ==> reports_broken(r, Broken::Format { field: field@, reason: reason@ }),
        kind >= 4 ==> reports_broken(r, Broken::InvalidValue { field: field@, reason: reason@ }),
{
    let v = if kind == 0 {
        ValidationError::required(field)
    } else if kind == 1 {
        ValidationError::min_length(field, n)
    } else if kind == 2 {
        ValidationError::max_length(field, n)
    } else if kind == 3 {
        ValidationError::format(field, reason)
    } else {
        ValidationError::invalid_value(field, reason)
    };
    DomainError::Validation(v)
}

pub fn check_required(field: &str, v: &str) -> (r: Result<(), DomainError>)
    ensures
        match required_rule(field@, v@) {
            None => r is Ok,
            Some(b) => r matches Err(e) && reports_broken(e, b),
        },
{
    if v.unicode_len() == 0 { Err(broken_error(field, 0, 0, "")) } else { Ok(()) }
}

pub fn check_min_length(field: &str, v: &str, min: usize) -> (r: Result<(), DomainError>)
    ensures
        match min_length_rule(field@, v@, min as nat) {
            None => r is Ok,
            Some(b) => r matches Err(e) && reports_broken(e, b),
        },
{
    if v.unicode_len() < min { Err(broken_error(field, 1, min, "")) } else { Ok(()) }
}

pub fn check_max_length(field: &str, v: &str, max: usize) -> (r: Result<(), DomainError>)
    ensures
        match max_length_rule(field@, v@, max as nat) {
            None => r is Ok,
            Some(b) => r matches Err(e) && reports_broken(e, b),
        },
{
    if v.unicode_len() > max { Err(broken_error(field, 2, max, "")) } else { Ok(()) }
}

pub fn check_email(field: &str, v: &str) -> (r: Result<(), DomainError>)
    ensures
        match email_rule(field@, v@) {
            None => r is Ok,
            Some(b) => r matches Err(e) && reports_broken(e, b),
        },
{
    let n = v.unicode_len();
    let mut i: usize = 1;
    while i < n && i + 1 < n
        invariant
            n == v@.len(),
            1 <= i <= n + 1,
            forall|k: int| 0 < k < i && k < n - 1 ==> v@[k] != '@',
        decreases n - i,
    {
        if v.get_char(i) == '@' {
            return Ok(());
        }
        i = i + 1;
    }
    Err(broken_error(field, 3, 0, "Invalid email format"))
}

pub fn check_role(field: &str, v: &str) -> (r: Result<(), DomainError>)
    ensures
        match role_rule(field@, v@) {
            None => r is Ok,
            Some(b) => r matches Err(e) && reports_broken(e, b),
        },
{
    if same_text(v, "admin") || same_text(v, "field_tl") || same_text(v, "field") {
        Ok(())
    } else {
        Err(broken_error(field, 4, 0, "Invalid role"))
    }
}

} // verus!
