//! Entity identifiers: a UUID is held as its 128-bit value, and text is turned into
//! one (and back) by the `uuid` crate.

use vstd::prelude::*;
use vstd::arithmetic::power::pow;

verus! {

/// What `uuid::Uuid::parse_str` yields for a text, as the 128-bit value of the UUID,
/// or `None` where the text is no UUID in any of the forms the crate accepts.
pub uninterp spec fn uuid_parsed(text: Seq<char>) -> Option<u128>;

/// The lower-case hexadecimal digit of a number below 16.
pub open spec fn lower_hex_digit(n: int) -> char {
    if n < 10 { ((48 + n) as u32) as char } else { ((87 + n) as u32) as char }
}

/// The 32 lower-case hexadecimal digits of a 128-bit value, most significant first.
pub open spec fn hex_digits(value: u128) -> Seq<char> {
    Seq::new(32, |k: int| lower_hex_digit((value as int / pow(16, (31 - k) as nat)) % 16))
}

/// The text that `uuid::Uuid`'s `Display` gives for a 128-bit value: the hyphenated
/// form, 32 lower-case hexadecimal digits in groups of 8, 4, 4, 4 and 12.
pub open spec fn uuid_text(value: u128) -> Seq<char> {
    let h = hex_digits(value);
    h.subrange(0, 8) + seq!['-'] + h.subrange(8, 12) + seq!['-'] + h.subrange(12, 16) + seq!['-']
        + h.subrange(16, 20) + seq!['-'] + h.subrange(20, 32)
}

/// The description (`Display`) of the error `uuid::Uuid::parse_str` gives for a text
/// that is no UUID.
pub uninterp spec fn uuid_error_text(text: Seq<char>) -> Seq<char>;

/// Calls `uuid::Uuid::parse_str`; the result is the UUID's 128-bit value (`as_u128`),
/// or the error's `to_string()`. Nothing more is claimed than that these are what the
/// crate's parser gives for that text.
#[verifier::external_body]
pub(crate) fn read_uuid_text(text: &str) -> (r: Result<u128, String>)
    ensures
        match uuid_parsed(text@) {
            Some(u) => r == Ok::<u128, String>(u),
            None => r matches Err(m) && m@ == uuid_error_text(text@),
        },
{
    match uuid::Uuid::parse_str(text) {
        Ok(u) => Ok(u.as_u128()),
        Err(e) => Err(e.to_string()),
    }
}

/// The UUID a text denotes, if it is one.
pub(crate) fn parse_uuid_text(text: &str) -> (r: Option<u128>)
    ensures
        r == uuid_parsed(text@),
{
    match read_uuid_text(text) {
        Ok(u) => Some(u),
        Err(_) => None,
    }
}

/// Calls `uuid::Uuid::from_u128(value).to_string()`, which the crate documents as the
/// hyphenated lower-case form. Stated besides: `uuid::Uuid::parse_str` reads that text
/// back as the same value (the hyphenated form is one the parser accepts).
#[verifier::external_body]
pub(crate) fn uuid_to_text(value: u128) -> (r: String)
    ensures
        r@ == uuid_text(value),
        uuid_parsed(r@) is Some && uuid_parsed(r@)->Some_0 == value,
{
    uuid::Uuid::from_u128(value).to_string()
}

/// Calls `uuid::Uuid::new_v4()` and gives its 128-bit value. The value is random:
/// nothing is claimed of it.
#[verifier::external_body]
pub(crate) fn fresh_uuid() -> (r: u128) {
    uuid::Uuid::new_v4().as_u128()
}

} // verus!
