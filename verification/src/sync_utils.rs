//! Helpers of the synchronisation layer: safe SQL identifiers, the tables that take part
//! in synchronisation, and the one-line description of a sync operation.

use vstd::prelude::*;
use crate::errors::{DomainError, ServiceError, ValidationError};
use crate::text::{join2, same_text};

verus! {

/// What `char::is_alphanumeric` gives for a character (Unicode `Alphabetic` or
/// `Numeric`).
pub uninterp spec fn alphanumeric(c: char) -> bool;

/// What `char::is_numeric` gives for a character (Unicode general categories `Nd`,
/// `Nl` or `No`).
pub uninterp spec fn numeric(c: char) -> bool;

/// The ASCII letters and digits.
pub open spec fn ascii_alphanumeric(c: char) -> bool {
    ('a' <= c && c <= 'z') || ('A' <= c && c <= 'Z') || ('0' <= c && c <= '9')
}

/// Calls `char::is_alphanumeric`. Stated besides the name: on ASCII characters it
/// agrees with `char::is_ascii_alphanumeric` (letters and digits), as the Unicode
/// tables that std documents give for that range.
#[verifier::external_body]
fn is_alphanumeric_char(c: char) -> (r: bool)
    ensures
        r == alphanumeric(c),
        (c as u32) < 128 ==> (r <==> ascii_alphanumeric(c)),
{
    c.is_alphanumeric()
}

/// Calls `char::is_numeric`. Stated besides the name: on ASCII characters it holds of
/// the digits `0` to `9` only, and std documents that a numeric character is
/// alphanumeric.
#[verifier::external_body]
fn is_numeric_char(c: char) -> (r: bool)
    ensures
        r == numeric(c),
        (c as u32) < 128 ==> (r <==> ('0' <= c && c <= '9')),
        r ==> alphanumeric(c),
{
    c.is_numeric()
}

/// A character that may stand in a SQL identifier: an alphanumeric character or an
/// underscore. Below 128 the alphanumeric characters are the ASCII letters and digits.
pub open spec fn identifier_char(c: char) -> bool {
    if (c as u32) < 128 {
        ascii_alphanumeric(c) || c == '_'
    } else {
        alphanumeric(c)
    }
}

/// A numeric character. Below 128 the numeric characters are the digits `0` to `9`.
pub open spec fn numeric_char(c: char) -> bool {
    if (c as u32) < 128 {
        '0' <= c && c <= '9'
    } else {
        numeric(c)
    }
}

/// The characters of a text that may stand in a SQL identifier, in their order.
pub open spec fn identifier_chars(s: Seq<char>) -> Seq<char>
    decreases s.len(),
{
    if s.len() == 0 {
        Seq::empty()
    } else if identifier_char(s.last()) {
        identifier_chars(s.drop_last()).push(s.last())
    } else {
        identifier_chars(s.drop_last())
    }
}

/// True when every character of a text is numeric.
pub open spec fn all_numeric(s: Seq<char>) -> bool {
    forall|i: int| 0 <= i < s.len() ==> numeric_char(#[trigger] s[i])
}

/// True when a text is made only of identifier characters.
pub open spec fn all_identifier_chars(s: Seq<char>) -> bool {
    forall|i: int| 0 <= i < s.len() ==> identifier_char(#[trigger] s[i])
}

/// The identifier a text is made safe as: its identifier characters; `_invalid` when
/// none is left; an underscore in front when all that is left is numeric.
pub open spec fn sanitized(s: Seq<char>) -> Seq<char> {
    let kept = identifier_chars(s);
    if kept.len() == 0 {
        "_invalid"@
    } else if all_numeric(kept) {
        seq!['_'] + kept
    } else {
        kept
    }
}

/// The tables that take part in synchronisation.
pub open spec fn allowed_entity(s: Seq<char>) -> bool {
    ||| s == "media_documents"@
    ||| s == "projects"@
    ||| s == "activities"@
    ||| s == "workshops"@
    ||| s == "strategic_goals"@
    ||| s == "participants"@
    ||| s == "livelihoods"@
    ||| s == "donors"@
    ||| s == "status_types"@
    ||| s == "document_types"@
    ||| s == "subsequent_grants"@
    ||| s == "project_funding"@
}

/// Keeps the alphanumeric characters and underscores of an identifier, so that it can
/// stand in a dynamic SQL statement; gives `_invalid` when nothing is left, and puts
/// an underscore in front of an identifier that is all digits.
pub fn sanitize_identifier(identifier: &str) -> (r: String)
    ensures
        r@ == sanitized(identifier@),
{
    let n = identifier.unicode_len();
    let mut kept = String::new();
    let mut i: usize = 0;
    while i < n
        invariant
            n == identifier@.len(),
            i <= n,
            kept@ == identifier_chars(identifier@.take(i as int)),
        decreases n - i,
    {
        let c = identifier.get_char(i);
        proof {
            assert(identifier@.take(i as int + 1).drop_last() =~= identifier@.take(i as int));
            assert(identifier@.take(i as int + 1).last() == c);
        }
        if is_alphanumeric_char(c) || c == '_' {
            let piece = identifier.substring_char(i, i + 1);
            proof {
                assert(piece@ =~= seq![c]);
            }
            kept.append(piece);
            proof {
                assert(kept@ =~= identifier_chars(identifier@.take(i as int)).push(c));
            }
        }
        i = i + 1;
    }
    proof {
        assert(identifier@.take(n as int) =~= identifier@);
    }
    let m = kept.as_str().unicode_len();
    if m == 0 {
        return String::from_str("_invalid");
    }
    let mut all_digits = true;
    let mut j: usize = 0;
    while j < m
        invariant
            m == kept@.len(),
            j <= m,
            all_digits == (forall|k: int| 0 <= k < j ==> numeric_char(#[trigger] kept@[k])),
        decreases m - j,
    {
        let c = kept.as_str().get_char(j);
        let d = is_numeric_char(c);
        proof {
            if !d {
                assert(!numeric_char(kept@[j as int]));
            }
        }
        all_digits = all_digits && d;
        j = j + 1;
    }
    if all_digits {
        let r = join2("_", kept.as_str());
        proof {
            reveal_strlit("_");
        }
        r
    } else {
        kept
    }
}

/// The error for an entity type that is not a synchronised table.
fn entity_error(prefix: &str, entity_type: &str) -> (r: ServiceError)
    ensures
        r matches ServiceError::Domain(DomainError::Validation(ValidationError::Entity(m)))
            && m@ == prefix@ + entity_type@,
{
    ServiceError::Domain(DomainError::Validation(ValidationError::Entity(join2(prefix, entity_type))))
}

/// Accepts exactly the names of the synchronised tables. A name with characters that
/// sanitising would change is refused as holding invalid characters; another name
/// outside the list is refused as unknown.
pub fn validate_entity_type(entity_type: &str) -> (r: Result<(), ServiceError>)
    ensures
        r is Ok <==> allowed_entity(entity_type@),
        sanitized(entity_type@) != entity_type@ ==> (r matches Err(ServiceError::Domain(
            DomainError::Validation(ValidationError::Entity(m))))
            && m@ == "Entity type contains invalid characters: "@ + entity_type@),
        sanitized(entity_type@) == entity_type@ && !allowed_entity(entity_type@) ==> (r matches Err(
            ServiceError::Domain(DomainError::Validation(ValidationError::Entity(m))))
            && m@ == "Unknown entity type: "@ + entity_type@),
{
    proof {
        if allowed_entity(entity_type@) {
            listed_tables_are_clean(entity_type@);
        }
    }
    let clean = sanitize_identifier(entity_type);
    if !same_text(clean.as_str(), entity_type) {
        return Err(entity_error("Entity type contains invalid characters: ", entity_type));
    }
    let known = same_text(entity_type, "media_documents") || same_text(entity_type, "projects")
        || same_text(entity_type, "activities") || same_text(entity_type, "workshops")
        || same_text(entity_type, "strategic_goals") || same_text(entity_type, "participants")
        || same_text(entity_type, "livelihoods") || same_text(entity_type, "donors")
        || same_text(entity_type, "status_types") || same_text(entity_type, "document_types")
        || same_text(entity_type, "subsequent_grants") || same_text(entity_type, "project_funding");
    if !known {
        return Err(entity_error("Unknown entity type: ", entity_type));
    }
    Ok(())
}

/// The one-line description of a sync operation:
/// `OPERATION[ (Device: ID)] TABLE:ID - STATUS[ - Error: ERROR]`.
pub open spec fn sync_operation_line(
    operation: Seq<char>,
    entity_type: Seq<char>,
    entity_id: Seq<char>,
    device_id: Option<Seq<char>>,
    status: Seq<char>,
    error: Option<Seq<char>>,
) -> Seq<char> {
    let device_info = match device_id {
        Some(d) => " (Device: "@ + d + ")"@,
        None => Seq::empty(),
    };
    let base = operation + device_info + " "@ + entity_type + ":"@ + entity_id + " - "@ + status;
    match error {
        Some(e) => base + " - Error: "@ + e,
        None => base,
    }
}

/// Describes a sync operation in one line, for the sync log.
pub fn format_sync_operation(
    operation: &str,
    entity_type: &str,
    entity_id: &str,
    device_id: Option<&str>,
    status: &str,
    error: Option<&str>,
) -> (r: String)
    ensures
        r@ == sync_operation_line(
            operation@,
            entity_type@,
            entity_id@,
            match device_id { Some(d) => Some(d@), None => None },
            status@,
            match error { Some(e) => Some(e@), None => None },
        ),
{
    let mut line = String::from_str(operation);
    match device_id {
        Some(id) => {
            line.append(" (Device: ");
            line.append(id);
            line.append(")");
        },
        None => {},
    }
    line.append(" ");
    line.append(entity_type);
    line.append(":");
    line.append(entity_id);
    line.append(" - ");
    line.append(status);
    match error {
        Some(e) => {
            line.append(" - Error: ");
            line.append(e);
        },
        None => {},
    }
    proof {
        let device_info = match device_id {
            Some(d) => " (Device: "@ + d@ + ")"@,
            None => Seq::<char>::empty(),
        };
        let base = operation@ + device_info + " "@ + entity_type@ + ":"@ + entity_id@ + " - "@ + status@;
        match error {
            Some(e) => assert(line@ =~= base + " - Error: "@ + e@),
            None => assert(line@ =~= base),
        }
    }
    line
}

/// Every character kept from a text may stand in an identifier.
proof fn identifier_chars_are_clean(s: Seq<char>)
    ensures
        forall|i: int| 0 <= i < identifier_chars(s).len() ==> identifier_char(#[trigger] identifier_chars(s)[i]),
        identifier_chars(s).len() <= s.len(),
    decreases s.len(),
{
    if s.len() > 0 {
        identifier_chars_are_clean(s.drop_last());
    }
}

/// A text made only of identifier characters is kept whole.
proof fn clean_text_is_kept(s: Seq<char>)
    requires
        forall|i: int| 0 <= i < s.len() ==> identifier_char(#[trigger] s[i]),
    ensures
        identifier_chars(s) == s,
    decreases s.len(),
{
    if s.len() > 0 {
        assert forall|i: int| 0 <= i < s.drop_last().len() implies identifier_char(#[trigger] s.drop_last()[i]) by {
            assert(s.drop_last()[i] == s[i]);
        }
        clean_text_is_kept(s.drop_last());
        assert(identifier_chars(s) =~= s);
    }
}

/// Sanitising gives a safe identifier and keeps a safe one: the result is never empty,
/// holds only letters, digits and underscores, is not all numeric, and is its own
/// sanitised form; a text is given back unchanged exactly when it is non-empty, made
/// only of identifier characters and not all numeric. A text of identifier characters
/// keeps all of them.
pub proof fn sanitizing_keeps_only_identifier_chars(s: Seq<char>)
    ensures
        forall|i: int| 0 <= i < identifier_chars(s).len() ==> identifier_char(#[trigger] identifier_chars(s)[i]),
        all_identifier_chars(s) ==> identifier_chars(s) == s,
        sanitized(s).len() > 0,
        all_identifier_chars(sanitized(s)),
        !all_numeric(sanitized(s)),
        sanitized(sanitized(s)) == sanitized(s),
        sanitized(s) == s <==> (s.len() > 0 && all_identifier_chars(s) && !all_numeric(s)),
{
    identifier_chars_are_clean(s);
    if all_identifier_chars(s) {
        clean_text_is_kept(s);
    }
    let kept = identifier_chars(s);
    let r = sanitized(s);
    if kept.len() == 0 {
        reveal_strlit("_invalid");
        assert(r == "_invalid"@);
        assert(r[0] == '_');
        assert(!numeric_char(r[0]));
        assert forall|i: int| 0 <= i < r.len() implies identifier_char(#[trigger] r[i]) by {
            assert(r =~= seq!['_', 'i', 'n', 'v', 'a', 'l', 'i', 'd']);
        }
    } else if all_numeric(kept) {
        assert(r =~= seq!['_'] + kept);
        assert(r[0] == '_');
        assert(!numeric_char(r[0]));
        assert forall|i: int| 0 <= i < r.len() implies identifier_char(#[trigger] r[i]) by {
            if i > 0 {
                assert(r[i] == kept[i - 1]);
            }
        }
    } else {
        assert(r == kept);
    }
    clean_text_is_kept(r);
    assert(identifier_chars(r) == r);
    assert(sanitized(r) == r);
}

/// A name made of lower-case letters and underscores is its own sanitised form.
proof fn letters_are_kept(s: Seq<char>)
    requires
        s.len() > 0,
        forall|i: int| 0 <= i < s.len() ==> ('a' <= #[trigger] s[i] && s[i] <= 'z') || s[i] == '_',
        'a' <= s[0] && s[0] <= 'z',
    ensures
        sanitized(s) == s,
{
    assert(all_identifier_chars(s));
    assert(!numeric_char(s[0]));
    sanitizing_keeps_only_identifier_chars(s);
}

/// The names of the synchronised tables are their own sanitised forms.
pub proof fn listed_tables_are_clean(s: Seq<char>)
    requires
        allowed_entity(s),
    ensures
        sanitized(s) == s,
{
    reveal_strlit("media_documents");
    reveal_strlit("projects");
    reveal_strlit("activities");
    reveal_strlit("workshops");
    reveal_strlit("strategic_goals");
    reveal_strlit("participants");
    reveal_strlit("livelihoods");
    reveal_strlit("donors");
    reveal_strlit("status_types");
    reveal_strlit("document_types");
    reveal_strlit("subsequent_grants");
    reveal_strlit("project_funding");
    letters_are_kept(s);
}

} // verus!
