//! Single JSON values carried in change-log entries, read by `serde_json`.

use vstd::prelude::*;
use crate::text::{signed_decimal, signed_decimal_text};
use crate::ident::lower_hex_digit;

verus! {

/// What `serde_json::from_str::<String>` gives for a text: the string, or the
/// description (`Display`) of the parse error.
pub uninterp spec fn json_string_value(text: Seq<char>) -> Result<Seq<char>, Seq<char>>;

/// What `serde_json::from_str::<i64>` gives for a text: the number, or the description
/// of the parse error.
pub uninterp spec fn json_int_value(text: Seq<char>) -> Result<i64, Seq<char>>;

/// What `serde_json::from_str::<bool>` gives for a text, `None` on a parse error.
pub uninterp spec fn json_bool_value(text: Seq<char>) -> Option<bool>;

/// Calls `serde_json::from_str::<String>`; on an error gives the error's `to_string()`.
#[verifier::external_body]
pub(crate) fn read_json_string(text: &str) -> (r: Result<String, String>)
    ensures
        match json_string_value(text@) {
            Ok(v) => r matches Ok(s) && s@ == v,
            Err(m) => r matches Err(s) && s@ == m,
        },
{
    serde_json::from_str::<String>(text).map_err(|e| e.to_string())
}

/// Calls `serde_json::from_str::<i64>`; on an error gives the error's `to_string()`.
#[verifier::external_body]
pub(crate) fn read_json_int(text: &str) -> (r: Result<i64, String>)
    ensures
        match json_int_value(text@) {
            Ok(v) => r == Ok::<i64, String>(v),
            Err(m) => r matches Err(s) && s@ == m,
        },
{
    serde_json::from_str::<i64>(text).map_err(|e| e.to_string())
}

/// Calls `serde_json::from_str::<bool>`; a parse error gives `None`.
#[verifier::external_body]
pub(crate) fn read_json_bool(text: &str) -> (r: Option<bool>)
    ensures
        r == json_bool_value(text@),
{
    serde_json::from_str::<bool>(text).ok()
}

} // verus!

verus! {

/// How `serde_json` writes one character of a string: a double quote and a backslash
/// behind a backslash, the control characters below 32 as `\b`, `\t`, `\n`, `\f`, `\r`
/// or `\u00XX` (lower-case hexadecimal), and every other character as it is.
pub open spec fn json_char_escape(c: char) -> Seq<char> {
    let n = c as u32;
    if c == '"' {
        seq!['\\', '"']
    } else if c == '\\' {
        seq!['\\', '\\']
    } else if n == 8 {
        seq!['\\', 'b']
    } else if n == 9 {
        seq!['\\', 't']
    } else if n == 10 {
        seq!['\\', 'n']
    } else if n == 12 {
        seq!['\\', 'f']
    } else if n == 13 {
        seq!['\\', 'r']
    } else if n < 32 {
        seq!['\\', 'u', '0', '0', lower_hex_digit(n as int / 16), lower_hex_digit(n as int % 16)]
    } else {
        seq![c]
    }
}

/// The characters of a string, each written as `serde_json` writes it.
pub open spec fn json_escaped(s: Seq<char>) -> Seq<char>
    decreases s.len(),
{
    if s.len() == 0 {
        Seq::empty()
    } else {
        json_escaped(s.drop_last()) + json_char_escape(s.last())
    }
}

/// What `serde_json::to_string` gives for a string: its characters, escaped, between
/// double quotes.
pub open spec fn json_text_encoding(s: Seq<char>) -> Seq<char> {
    seq!['"'] + json_escaped(s) + seq!['"']
}

/// Calls `serde_json::to_string` on a string; the crate cannot fail on a string, and
/// an empty text stands for the failure it documents as impossible. Stated besides the
/// name: the JSON string it writes reads back with `serde_json::from_str::<String>` as
/// the string itself (the writer escapes exactly what the reader unescapes).
#[verifier::external_body]
pub(crate) fn encode_json_text(s: &str) -> (r: String)
    ensures
        r@ == json_text_encoding(s@),
        json_string_value(r@) is Ok && json_string_value(r@)->Ok_0 == s@,
{
    serde_json::to_string(s).unwrap_or_default()
}

/// The JSON text of a flag.
pub open spec fn json_flag_text(b: bool) -> Seq<char> {
    if b { "true"@ } else { "false"@ }
}

/// Writes a flag as JSON, as `serde_json::to_string` does for a `bool`.
pub fn encode_json_flag(b: bool) -> (r: String)
    ensures
        r@ == json_flag_text(b),
{
    if b { String::from_str("true") } else { String::from_str("false") }
}

/// The JSON text of an integer: its decimal numeral, behind a minus sign when it is
/// negative.
pub open spec fn json_int_text(n: int) -> Seq<char> {
    signed_decimal(n)
}

/// Writes an integer as JSON, as `serde_json::to_string` does: its decimal numeral.
pub fn encode_json_int(n: i64) -> (r: String)
    ensures
        r@ == json_int_text(n as int),
{
    signed_decimal_text(n)
}

/// The JSON text of an optional string: the string, or `null`.
pub open spec fn json_opt_text(o: Option<String>) -> Seq<char> {
    match o {
        Some(s) => json_text_encoding(s@),
        None => "null"@,
    }
}

/// Writes an optional string as JSON, as `serde_json::to_string` does.
pub fn encode_json_opt_text(o: &Option<String>) -> (r: String)
    ensures
        r@ == json_opt_text(*o),
{
    match o {
        Some(s) => encode_json_text(s.as_str()),
        None => String::from_str("null"),
    }
}

/// The JSON text of an optional integer: the integer, or `null`.
pub open spec fn json_opt_int(o: Option<i64>) -> Seq<char> {
    match o {
        Some(n) => json_int_text(n as int),
        None => "null"@,
    }
}

/// Writes an optional integer as JSON, as `serde_json::to_string` does.
pub fn encode_json_opt_int(o: Option<i64>) -> (r: String)
    ensures
        r@ == json_opt_int(o),
{
    match o {
        Some(n) => encode_json_int(n),
        None => String::from_str("null"),
    }
}

} // verus!
