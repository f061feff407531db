//! How a remote change to a user is merged into the local copy: creations and full
//! updates are last-write-wins on the whole record, field updates are last-write-wins
//! per field, soft deletions stay local, and hard deletions remove the record.

use vstd::prelude::*;
use crate::clock::Timestamp;
use crate::errors::{DomainError, ValidationError};
use crate::ident::{uuid_text, uuid_to_text};
use crate::json::{json_bool_value, json_string_value, read_json_bool, read_json_string};
use crate::sync_records::{ChangeLogEntry, MergeOutcome};
use crate::sync_types::{lower_text, to_lowercase_text, ChangeOperationType};
use crate::text::{join2, join3, same_text};
use crate::user::{UpdateUser, User, UserRole};
use crate::user_store::{write_fits, FieldValue, UserField, UserFieldWrite};

verus! {

/// The whole state of a user as it travels in a change-log entry.
#[derive(Clone, Debug)]
pub struct UserFullState {
    pub id: u128,
    pub email: String,
    pub email_updated_at: Option<Timestamp>,
    pub email_updated_by: Option<u128>,
    pub email_updated_by_device_id: Option<u128>,
    pub password_hash: String,
    pub name: String,
    pub name_updated_at: Option<Timestamp>,
    pub name_updated_by: Option<u128>,
    pub name_updated_by_device_id: Option<u128>,
    pub role: String,
    pub role_updated_at: Option<Timestamp>,
    pub role_updated_by: Option<u128>,
    pub role_updated_by_device_id: Option<u128>,
    pub active: bool,
    pub active_updated_at: Option<Timestamp>,
    pub active_updated_by: Option<u128>,
    pub active_updated_by_device_id: Option<u128>,
    pub last_login: Option<Timestamp>,
    pub created_at: Timestamp,
    pub updated_at: Timestamp,
    pub created_by_user_id: Option<u128>,
    pub created_by_device_id: Option<u128>,
    pub updated_by_user_id: Option<u128>,
    pub updated_by_device_id: Option<u128>,
}

/// What the local store is to do for a merged change. A field is written together with
/// the change's instant, user and device as its new stamp.
#[derive(Clone, Debug)]
pub enum UserMergeAction {
    /// Insert the user the state describes.
    Insert(UserFullState),
    /// Overwrite the local user with the state.
    Overwrite(UserFullState),
    SetEmail(String),
    SetName(String),
    SetRole(String),
    SetActive(bool),
    /// Replace the password hash (no per-field stamp is kept for it).
    SetPasswordHash(String),
    /// Delete the local record.
    Remove,
    /// Leave the local store as it is.
    Nothing,
}

/// The decision for a change, by kind.
#[derive(Clone, Copy, Debug, PartialEq, Eq, Structural)]
pub enum MergeKind {
    Insert,
    Overwrite,
    SetField,
    /// The local copy (or field) is as new as the change or newer: it is kept.
    KeepLocal,
    /// The change is ignored (soft deletion, unknown field, missing user, empty update).
    Ignore,
    Remove,
    /// The change is reported as applied, though it carries nothing to write (a full
    /// update without a value).
    Acknowledge,
    /// The change cannot be merged: an error.
    Fail,
}

/// The stamp of a user's field that is merged last-write-wins, if it has one.
pub open spec fn field_stamp(u: User, field: Seq<char>) -> Option<Timestamp> {
    if field == "email"@ {
        u.email_updated_at
    } else if field == "name"@ {
        u.name_updated_at
    } else if field == "role"@ {
        u.role_updated_at
    } else if field == "active"@ {
        u.active_updated_at
    } else {
        None
    }
}

/// The fields a field-level change may set.
pub open spec fn known_user_field(field: Seq<char>) -> bool {
    field == "email"@ || field == "name"@ || field == "role"@ || field == "active"@ || field == "password_hash"@
}

/// True when a text starts and ends with a double quote.
pub open spec fn quoted(s: Seq<char>) -> bool {
    s.len() > 0 && s[0] == '"' && s[s.len() - 1] == '"'
}

/// The text value a field-level change carries: a JSON string, or the raw text when it
/// is not quoted; `None` for a quoted text that is no JSON string.
pub open spec fn text_value(raw: Seq<char>) -> Option<Seq<char>> {
    match json_string_value(raw) {
        Ok(v) => Some(v),
        Err(_) => if quoted(raw) { None } else { Some(raw) },
    }
}

/// The flag a field-level change carries: a JSON boolean, else `true`/`1` or
/// `false`/`0` in any case.
pub open spec fn flag_value(raw: Seq<char>) -> Option<bool> {
    match json_bool_value(raw) {
        Some(b) => Some(b),
        None => if lower_text(raw) == "true"@ || lower_text(raw) == "1"@ {
            Some(true)
        } else if lower_text(raw) == "false"@ || lower_text(raw) == "0"@ {
            Some(false)
        } else {
            None
        },
    }
}

/// True when the change needs its whole user state read from its new value.
pub open spec fn needs_state(c: ChangeLogEntry) -> bool {
    (c.operation_type == ChangeOperationType::Create
        || (c.operation_type == ChangeOperationType::Update && c.field_name is None))
        && c.new_value is Some
}

/// True when the change needs its whole user state read from its new value.
pub fn change_needs_state(c: &ChangeLogEntry) -> (r: bool)
    ensures
        r == needs_state(*c),
{
    let kind_needs = match c.operation_type {
        ChangeOperationType::Create => true,
        ChangeOperationType::Update => c.field_name.is_none(),
        _ => false,
    };
    kind_needs && c.new_value.is_some()
}

/// The decision for a remote change to a user, given the local user and the state the
/// change carries (read from its new value, or the reader's error).
pub open spec fn user_merge_kind(c: ChangeLogEntry, local: Option<User>, state: Option<Result<UserFullState, String>>) -> MergeKind {
    if c.entity_table@ != "users"@ {
        MergeKind::Fail
    } else {
        match c.operation_type {
            ChangeOperationType::Create => match state {
                Some(Ok(s)) => match local {
                    Some(u) => if s.updated_at.later_than(u.updated_at) { MergeKind::Overwrite } else { MergeKind::KeepLocal },
                    None => MergeKind::Insert,
                },
                _ => MergeKind::Fail,
            },
            ChangeOperationType::Update => match local {
                None => MergeKind::Ignore,
                Some(u) => match c.field_name {
                    Some(f) => match c.new_value {
                        None => MergeKind::Fail,
                        Some(raw) => if field_stamp(u, f@) matches Some(ts) && !c.timestamp.later_than(ts) {
                            MergeKind::KeepLocal
                        } else if !known_user_field(f@) {
                            MergeKind::Ignore
                        } else if f@ == "active"@ {
                            if flag_value(raw@) is Some { MergeKind::SetField } else { MergeKind::Fail }
                        } else {
                            if text_value(raw@) is Some { MergeKind::SetField } else { MergeKind::Fail }
                        },
                    },
                    None => match state {
                        None => MergeKind::Acknowledge,
                        Some(Err(_)) => MergeKind::Fail,
                        Some(Ok(s)) => if s.updated_at.later_than(u.updated_at) { MergeKind::Overwrite } else { MergeKind::KeepLocal },
                    },
                },
            },
            ChangeOperationType::Delete => MergeKind::Ignore,
            ChangeOperationType::HardDelete => if local is Some { MergeKind::Remove } else { MergeKind::Ignore },
        }
    }
}

/// The note a merge that writes nothing reports: which copy was kept, or why the change
/// was ignored.
pub open spec fn merge_note(c: ChangeLogEntry, local: Option<User>) -> Seq<char> {
    let id = uuid_text(c.entity_id);
    match c.operation_type {
        ChangeOperationType::Create => "Local user "@ + id + " is newer or same"@,
        ChangeOperationType::Update => match local {
            None => "Remote UPDATE for non-existent local user ID "@ + id + "."@,
            Some(u) => match c.field_name {
                Some(f) => if field_stamp(u, f@) matches Some(ts) && !c.timestamp.later_than(ts) {
                    "Local field '"@ + f@ + "' is newer"@
                } else {
                    "Unhandled field: "@ + f@
                },
                None => "Local version is newer"@,
            },
        },
        ChangeOperationType::Delete => "Soft deletes are local-only"@,
        ChangeOperationType::HardDelete => "User "@ + id + " already deleted"@,
    }
}

/// The kind of a planned action.
pub open spec fn action_kind(a: UserMergeAction) -> MergeKind {
    match a {
        UserMergeAction::Insert(_) => MergeKind::Insert,
        UserMergeAction::Overwrite(_) => MergeKind::Overwrite,
        UserMergeAction::Remove => MergeKind::Remove,
        UserMergeAction::Nothing => MergeKind::Ignore,
        _ => MergeKind::SetField,
    }
}

/// The outcome reported for a decision of each kind.
pub open spec fn outcome_fits(kind: MergeKind, o: MergeOutcome, id: u128) -> bool {
    match kind {
        MergeKind::Insert => o == MergeOutcome::Created(id),
        MergeKind::Overwrite | MergeKind::SetField | MergeKind::Acknowledge => o == MergeOutcome::Updated(id),
        MergeKind::Remove => o == MergeOutcome::HardDeleted(id),
        _ => o is NoOp,
    }
}

/// The names of the user fields differ from each other.
proof fn user_field_names_distinct()
    ensures
        "email"@ != "name"@, "email"@ != "role"@, "email"@ != "active"@, "email"@ != "password_hash"@,
        "name"@ != "role"@, "name"@ != "active"@, "name"@ != "password_hash"@,
        "role"@ != "active"@, "role"@ != "password_hash"@, "active"@ != "password_hash"@,
{
    reveal_strlit("email");
    reveal_strlit("name");
    reveal_strlit("role");
    reveal_strlit("active");
    reveal_strlit("password_hash");
    assert("email"@.len() != "name"@.len());
    assert("email"@.len() != "role"@.len());
    assert("email"@.len() != "active"@.len());
    assert("email"@.len() != "password_hash"@.len());
    assert("name"@[0] != "role"@[0]);
    assert("name"@.len() != "active"@.len());
    assert("name"@.len() != "password_hash"@.len());
    assert("role"@.len() != "active"@.len());
    assert("role"@.len() != "password_hash"@.len());
    assert("active"@.len() != "password_hash"@.len());
}

/// Reads the text value of a field-level change.
fn read_text_value(field: &str, raw: &str) -> (r: Result<String, DomainError>)
    ensures
        match text_value(raw@) {
            Some(v) => r matches Ok(s) && s@ == v,
            None => r matches Err(DomainError::Validation(ValidationError::Format { field: f, reason: m }))
                && f@ == field@
                && m@ == (if field@ == "password_hash"@ {
                    "Invalid JSON string for password_hash"@
                } else {
                    "Invalid JSON string format for "@ + field@ + ": "@ + raw@
                }),
        },
{
    match read_json_string(raw) {
        Ok(v) => Ok(v),
        Err(_) => {
            let n = raw.unicode_len();
            if n > 0 && raw.get_char(0) == '"' && raw.get_char(n - 1) == '"' {
                let reason = if same_text(field, "password_hash") {
                    String::from_str("Invalid JSON string for password_hash")
                } else {
                    join3("Invalid JSON string format for ", field, ": ").concat(raw)
                };
                Err(DomainError::Validation(ValidationError::Format { field: String::from_str(field), reason }))
            } else {
                Ok(String::from_str(raw))
            }
        },
    }
}

/// Reads the flag of a field-level change to `active`.
fn read_flag_value(raw: &str) -> (r: Result<bool, DomainError>)
    ensures
        match flag_value(raw@) {
            Some(b) => r == Ok::<bool, DomainError>(b),
            None => r matches Err(DomainError::Validation(ValidationError::Format { field: f, reason: m }))
                && f@ == "active"@ && m@ == "Invalid boolean value for active: "@ + raw@,
        },
{
    match read_json_bool(raw) {
        Some(b) => Ok(b),
        None => {
            let low = to_lowercase_text(raw);
            let t = low.as_str();
            if same_text(t, "true") || same_text(t, "1") {
                Ok(true)
            } else if same_text(t, "false") || same_text(t, "0") {
                Ok(false)
            } else {
                Err(DomainError::Validation(ValidationError::Format {
                    field: String::from_str("active"),
                    reason: join2("Invalid boolean value for active: ", raw),
                }))
            }
        },
    }
}

fn no_op(prefix: &str, id: u128, suffix: &str) -> (r: MergeOutcome)
    ensures
        r matches MergeOutcome::NoOp(m) && m@ == prefix@ + uuid_text(id) + suffix@,
{
    let id_text = uuid_to_text(id);
    MergeOutcome::NoOp(join3(prefix, id_text.as_str(), suffix))
}

fn no_op_text(text: &str) -> (r: MergeOutcome)
    ensures
        r matches MergeOutcome::NoOp(m) && m@ == text@,
{
    MergeOutcome::NoOp(String::from_str(text))
}

/// Decides how a remote change to a user is merged, given the local user (`None` when
/// there is none) and, when the change carries a whole user state, that state as read
/// from its new value (or the reader's error text).
///
/// A change to another table is an internal error. A creation needs a new value; it
/// inserts the user, or, when the user exists, overwrites it only if the remote state
/// is newer. An update of a missing user is ignored; a field update is skipped when
/// the local field is as new or newer, and otherwise sets the field from its JSON
/// value; an unknown field is ignored; a full update overwrites only a strictly older
/// local user. Soft deletions are ignored; a hard deletion removes an existing user.
pub fn plan_user_merge(
    change: &ChangeLogEntry,
    local: Option<User>,
    state: Option<Result<UserFullState, String>>,
) -> (r: Result<(UserMergeAction, MergeOutcome), DomainError>)
    requires
        state is Some <==> needs_state(*change),
    ensures
        user_merge_kind(*change, local, state) == MergeKind::Fail <==> r is Err,
        r matches Ok((a, o)) ==> {
            &&& outcome_fits(user_merge_kind(*change, local, state), o, change.entity_id)
            &&& user_merge_kind(*change, local, state) == MergeKind::KeepLocal ==> a is Nothing
            &&& user_merge_kind(*change, local, state) == MergeKind::Ignore ==> a is Nothing
            &&& user_merge_kind(*change, local, state) == MergeKind::Acknowledge ==> a is Nothing
            &&& user_merge_kind(*change, local, state) != MergeKind::KeepLocal
                && user_merge_kind(*change, local, state) != MergeKind::Ignore
                && user_merge_kind(*change, local, state) != MergeKind::Acknowledge
                ==> action_kind(a) == user_merge_kind(*change, local, state)
            &&& a matches UserMergeAction::Insert(s) ==> state == Some(Ok::<UserFullState, String>(s))
            &&& a matches UserMergeAction::Overwrite(s) ==> state == Some(Ok::<UserFullState, String>(s))
            &&& a matches UserMergeAction::SetEmail(v) ==> change.field_name matches Some(f) && f@ == "email"@
                && text_value(change.new_value.unwrap()@) == Some(v@)
            &&& a matches UserMergeAction::SetName(v) ==> change.field_name matches Some(f) && f@ == "name"@
                && text_value(change.new_value.unwrap()@) == Some(v@)
            &&& a matches UserMergeAction::SetRole(v) ==> change.field_name matches Some(f) && f@ == "role"@
                && text_value(change.new_value.unwrap()@) == Some(v@)
            &&& a matches UserMergeAction::SetPasswordHash(v) ==> change.field_name matches Some(f)
                && f@ == "password_hash"@ && text_value(change.new_value.unwrap()@) == Some(v@)
            &&& a matches UserMergeAction::SetActive(b) ==> change.field_name matches Some(f) && f@ == "active"@
                && flag_value(change.new_value.unwrap()@) == Some(b)
        },
        change.entity_table@ != "users"@ ==> (r matches Err(DomainError::Internal(m))
            && m@ == "UserRepository received change for incorrect table: "@ + change.entity_table@),
        change.entity_table@ == "users"@ && change.operation_type == ChangeOperationType::Create
            && change.new_value is None ==> (r matches Err(DomainError::Validation(ValidationError::Custom(m)))
            && m@ == "Missing new_value for create operation"@),
        state matches Some(Err(detail)) ==> (change.entity_table@ == "users"@
            && change.operation_type == ChangeOperationType::Create ==> (r matches Err(DomainError::Validation(ValidationError::Format {
            field: f, reason: m })) && f@ == "new_value_user_create"@ && m@ == "Invalid JSON: "@ + detail@)),
        state matches Some(Err(detail)) ==> (change.entity_table@ == "users"@
            && change.operation_type == ChangeOperationType::Update && local is Some ==> (r matches Err(DomainError::Validation(ValidationError::Format {
            field: f, reason: m })) && f@ == "full_user_update"@ && m@ == "Invalid JSON: "@ + detail@)),
        change.entity_table@ == "users"@ && change.operation_type == ChangeOperationType::Delete ==> (r matches Ok((_, MergeOutcome::NoOp(m)))
            && m@ == "Soft deletes are local-only"@),
        r matches Ok((_, MergeOutcome::NoOp(m))) ==> m@ == merge_note(*change, local),
{
    proof {
        user_field_names_distinct();
    }
    if !same_text(change.entity_table.as_str(), "users") {
        return Err(DomainError::Internal(join2("UserRepository received change for incorrect table: ", change.entity_table.as_str())));
    }
    let id = change.entity_id;
    match change.operation_type {
        ChangeOperationType::Create => {
            if change.new_value.is_none() {
                return Err(DomainError::Validation(ValidationError::custom("Missing new_value for create operation")));
            }
            let s = match state {
                Some(Ok(s)) => s,
                Some(Err(detail)) => return Err(DomainError::Validation(ValidationError::Format {
                    field: String::from_str("new_value_user_create"),
                    reason: join2("Invalid JSON: ", detail.as_str()),
                })),
                None => return Err(DomainError::Validation(ValidationError::custom("Missing new_value for create operation"))),
            };
            match local {
                Some(u) => if s.updated_at.is_later_than(&u.updated_at) {
                    Ok((UserMergeAction::Overwrite(s), MergeOutcome::Updated(id)))
                } else {
                    Ok((UserMergeAction::Nothing, no_op("Local user ", id, " is newer or same")))
                },
                None => Ok((UserMergeAction::Insert(s), MergeOutcome::Created(id))),
            }
        },
        ChangeOperationType::Update => {
            let u = match local {
                Some(u) => u,
                None => return Ok((UserMergeAction::Nothing, no_op("Remote UPDATE for non-existent local user ID ", id, "."))),
            };
            match &change.field_name {
                Some(f) => {
                    let raw = match &change.new_value {
                        Some(v) => v.as_str(),
                        None => return Err(DomainError::Internal(String::from_str("Missing new_value for update operation"))),
                    };
                    let field = f.as_str();
                    let stamp = if same_text(field, "email") {
                        u.email_updated_at
                    } else if same_text(field, "name") {
                        u.name_updated_at
                    } else if same_text(field, "role") {
                        u.role_updated_at
                    } else if same_text(field, "active") {
                        u.active_updated_at
                    } else {
                        None
                    };
                    if let Some(ts) = stamp {
                        if !change.timestamp.is_later_than(&ts) {
                            return Ok((UserMergeAction::Nothing, MergeOutcome::NoOp(join3("Local field '", field, "' is newer"))));
                        }
                    }
                    if same_text(field, "email") {
                        match read_text_value("email", raw) {
                            Ok(v) => Ok((UserMergeAction::SetEmail(v), MergeOutcome::Updated(id))),
                            Err(e) => Err(e),
                        }
                    } else if same_text(field, "name") {
                        match read_text_value("name", raw) {
                            Ok(v) => Ok((UserMergeAction::SetName(v), MergeOutcome::Updated(id))),
                            Err(e) => Err(e),
                        }
                    } else if same_text(field, "role") {
                        match read_text_value("role", raw) {
                            Ok(v) => Ok((UserMergeAction::SetRole(v), MergeOutcome::Updated(id))),
                            Err(e) => Err(e),
                        }
                    } else if same_text(field, "active") {
                        match read_flag_value(raw) {
                            Ok(b) => Ok((UserMergeAction::SetActive(b), MergeOutcome::Updated(id))),
                            Err(e) => Err(e),
                        }
                    } else if same_text(field, "password_hash") {
                        match read_text_value("password_hash", raw) {
                            Ok(v) => Ok((UserMergeAction::SetPasswordHash(v), MergeOutcome::Updated(id))),
                            Err(e) => Err(e),
                        }
                    } else {
                        Ok((UserMergeAction::Nothing, MergeOutcome::NoOp(join2("Unhandled field: ", field))))
                    }
                },
                None => match state {
                    None => Ok((UserMergeAction::Nothing, MergeOutcome::Updated(id))),
                    Some(Err(detail)) => Err(DomainError::Validation(ValidationError::Format {
                        field: String::from_str("full_user_update"),
                        reason: join2("Invalid JSON: ", detail.as_str()),
                    })),
                    Some(Ok(s)) => if s.updated_at.is_later_than(&u.updated_at) {
                        Ok((UserMergeAction::Overwrite(s), MergeOutcome::Updated(id)))
                    } else {
                        Ok((UserMergeAction::Nothing, no_op_text("Local version is newer")))
                    },
                },
            }
        },
        ChangeOperationType::Delete => Ok((UserMergeAction::Nothing, no_op_text("Soft deletes are local-only"))),
        ChangeOperationType::HardDelete => match local {
            Some(_) => Ok((UserMergeAction::Remove, MergeOutcome::HardDeleted(id))),
            None => Ok((UserMergeAction::Nothing, no_op("User ", id, " already deleted"))),
        },
    }
}

/// The local user after a field-level change has been written: the field's stamp is the
/// change's instant, user and device (the value itself is left out here).
pub open spec fn stamped_by(u: User, field: Seq<char>, c: ChangeLogEntry) -> User {
    if field == "email"@ {
        User { email_updated_at: Some(c.timestamp), email_updated_by: Some(c.user_id),
            email_updated_by_device_id: c.device_id, updated_at: c.timestamp, ..u }
    } else if field == "name"@ {
        User { name_updated_at: Some(c.timestamp), name_updated_by: Some(c.user_id),
            name_updated_by_device_id: c.device_id, updated_at: c.timestamp, ..u }
    } else if field == "role"@ {
        User { role_updated_at: Some(c.timestamp), role_updated_by: Some(c.user_id),
            role_updated_by_device_id: c.device_id, updated_at: c.timestamp, ..u }
    } else if field == "active"@ {
        User { active_updated_at: Some(c.timestamp), active_updated_by: Some(c.user_id),
            active_updated_by_device_id: c.device_id, updated_at: c.timestamp, ..u }
    } else {
        u
    }
}

/// The local user once a planned field-level change is written: the field takes the
/// change's value, and its stamp the change's instant, user and device. `None` for an
/// action that is not such a change, and for a role that names no role.
pub fn merged_user(local: User, action: UserMergeAction, change: &ChangeLogEntry) -> (r: Option<User>)
    ensures
        match action {
            UserMergeAction::SetEmail(v) => r == Some(User { email: v, ..stamped_by(local, "email"@, *change) }),
            UserMergeAction::SetName(v) => r == Some(User { name: v, ..stamped_by(local, "name"@, *change) }),
            UserMergeAction::SetRole(v) => match UserRole::named(v@) {
                Some(role) => r == Some(User { role, ..stamped_by(local, "role"@, *change) }),
                None => r is None,
            },
            UserMergeAction::SetActive(b) => r == Some(User { active: b, ..stamped_by(local, "active"@, *change) }),
            _ => r is None,
        },
{
    proof {
        user_field_names_distinct();
    }
    let at = Some(change.timestamp);
    let by = Some(change.user_id);
    let device = change.device_id;
    match action {
        UserMergeAction::SetEmail(v) => Some(User {
            email: v, email_updated_at: at, email_updated_by: by, email_updated_by_device_id: device,
            updated_at: change.timestamp, ..local
        }),
        UserMergeAction::SetName(v) => Some(User {
            name: v, name_updated_at: at, name_updated_by: by, name_updated_by_device_id: device,
            updated_at: change.timestamp, ..local
        }),
        UserMergeAction::SetRole(v) => match UserRole::from_str(v.as_str()) {
            Some(role) => Some(User {
                role, role_updated_at: at, role_updated_by: by, role_updated_by_device_id: device,
                updated_at: change.timestamp, ..local
            }),
            None => None,
        },
        UserMergeAction::SetActive(b) => Some(User {
            active: b, active_updated_at: at, active_updated_by: by, active_updated_by_device_id: device,
            updated_at: change.timestamp, ..local
        }),
        _ => None,
    }
}

/// Merging a field change is idempotent: once a change to a stamped field has been
/// written, merging the same change again keeps the local field.
pub proof fn field_merge_is_idempotent(c: ChangeLogEntry, u: User, state: Option<Result<UserFullState, String>>)
    requires
        user_merge_kind(c, Some(u), state) == MergeKind::SetField,
        c.field_name matches Some(f) && (f@ == "email"@ || f@ == "name"@ || f@ == "role"@ || f@ == "active"@),
    ensures
        user_merge_kind(c, Some(stamped_by(u, c.field_name.unwrap()@, c)), state) == MergeKind::KeepLocal,
{
    user_field_names_distinct();
}

/// Last write wins per field: a remote change to a field that is not strictly newer
/// than the local field's stamp leaves the local user as it is.
pub proof fn stale_field_change_keeps_local(c: ChangeLogEntry, u: User, state: Option<Result<UserFullState, String>>)
    requires
        c.entity_table@ == "users"@,
        c.operation_type == ChangeOperationType::Update,
        c.field_name matches Some(f) && field_stamp(u, f@) matches Some(ts) && !c.timestamp.later_than(ts),
        c.new_value is Some,
    ensures
        user_merge_kind(c, Some(u), state) == MergeKind::KeepLocal,
{
}

/// A remote creation of a user that exists here replaces it only when the remote state
/// is strictly newer.
pub proof fn remote_create_replaces_only_newer(c: ChangeLogEntry, u: User, s: UserFullState)
    requires
        c.entity_table@ == "users"@,
        c.operation_type == ChangeOperationType::Create,
    ensures
        user_merge_kind(c, Some(u), Some(Ok(s))) == (if s.updated_at.later_than(u.updated_at) {
            MergeKind::Overwrite
        } else {
            MergeKind::KeepLocal
        }),
{
}

/// Soft deletions stay local: a remote soft deletion of a user is never applied, and a
/// hard deletion of a user that is already gone does nothing.
pub proof fn remote_deletions_are_safe(c: ChangeLogEntry, local: Option<User>, state: Option<Result<UserFullState, String>>)
    requires
        c.entity_table@ == "users"@,
    ensures
        c.operation_type == ChangeOperationType::Delete ==> user_merge_kind(c, local, state) == MergeKind::Ignore,
        c.operation_type == ChangeOperationType::HardDelete && local is None
            ==> user_merge_kind(c, local, state) == MergeKind::Ignore,
{
}

/// A text field written by a local update is read back by the merge on another device
/// as the value that was written: the logged new value is the JSON string of the value,
/// and reading it as a field-level change gives that value.
pub proof fn logged_text_field_reads_back(
    w: UserFieldWrite,
    current: User,
    u: UpdateUser,
    id: u128,
    now: Timestamp,
    acting_user_id: u128,
    acting_device_id: Seq<char>,
)
    requires
        write_fits(w, current, u, id, now, acting_user_id, acting_device_id),
        w.field == UserField::Email || w.field == UserField::Name || w.field == UserField::Role,
    ensures
        w.log.new_value matches Some(j) && w.value matches FieldValue::Text(v) && text_value(j@) == Some(v@),
{
}

} // verus!
