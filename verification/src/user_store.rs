//! The user repository's writes: which fields an update changes and what it logs, and
//! the record and log entry a creation makes.

use vstd::prelude::*;
use crate::clock::Timestamp;
use crate::errors::DomainError;
use crate::ident::{fresh_uuid, parse_uuid_text, uuid_parsed};
use crate::json::{encode_json_flag, encode_json_text, json_flag_text, json_string_value, json_text_encoding};
use crate::sync_records::ChangeLogEntry;
use crate::sync_types::ChangeOperationType;
use crate::text::same_text;
use crate::user::{new_user_broken, update_user_broken, NewUser, UpdateUser, User, UserRole};
use crate::user_sync::UserFullState;
use crate::validation::reports_broken;

verus! {

/// A user field that an update can change.
#[derive(Clone, Copy, Debug, PartialEq, Eq, Structural)]
pub enum UserField {
    Email,
    PasswordHash,
    Name,
    Role,
    Active,
}

impl UserField {
    /// The column and change-log name of the field.
    pub open spec fn column(self) -> Seq<char> {
        match self {
            UserField::Email => "email"@,
            UserField::PasswordHash => "password_hash"@,
            UserField::Name => "name"@,
            UserField::Role => "role"@,
            UserField::Active => "active"@,
        }
    }

    pub fn column_name(&self) -> (r: &'static str)
        ensures
            r@ == self.column(),
    {
        match self {
            UserField::Email => "email",
            UserField::PasswordHash => "password_hash",
            UserField::Name => "name",
            UserField::Role => "role",
            UserField::Active => "active",
        }
    }
}

/// The new value of a field.
#[derive(Clone, Debug)]
pub enum FieldValue {
    Text(String),
    Flag(bool),
}

/// One field an update writes, with the change-log entry that records it.
#[derive(Clone, Debug)]
pub struct UserFieldWrite {
    pub field: UserField,
    pub value: FieldValue,
    pub log: ChangeLogEntry,
}

/// What an update writes: the changed fields in order, and whether the record's own
/// stamp is renewed (it is when a field changed).
#[derive(Clone, Debug)]
pub struct UserUpdatePlan {
    pub writes: Vec<UserFieldWrite>,
    pub touch_record: bool,
}

/// The fields an update changes, in the order they are written: each given field whose
/// value differs from the current one.
pub open spec fn changed_fields(current: User, u: UpdateUser) -> Seq<UserField> {
    let e = if u.email matches Some(v) && v@ != current.email@ { seq![UserField::Email] } else { seq![] };
    let p = if u.password matches Some(v) && v@ != current.password_hash@ { seq![UserField::PasswordHash] } else { seq![] };
    let n = if u.name matches Some(v) && v@ != current.name@ { seq![UserField::Name] } else { seq![] };
    let r = if u.role matches Some(v) && v@ != current.role.name() { seq![UserField::Role] } else { seq![] };
    let a = if u.active matches Some(v) && v != current.active { seq![UserField::Active] } else { seq![] };
    e + p + n + r + a
}

/// The change-log entry of one field write: an update by the acting user and device at
/// `now`, with the old and new values as JSON (none for the password hash).
pub open spec fn logs_field(
    log: ChangeLogEntry,
    id: u128,
    field: UserField,
    old_json: Option<Seq<char>>,
    new_json: Option<Seq<char>>,
    now: Timestamp,
    acting_user_id: u128,
    acting_device_id: Seq<char>,
) -> bool {
    &&& log.entity_table@ == "users"@
    &&& log.entity_id == id
    &&& log.operation_type == ChangeOperationType::Update
    &&& log.field_name matches Some(f) && f@ == field.column()
    &&& match old_json { Some(j) => log.old_value matches Some(v) && v@ == j, None => log.old_value is None }
    &&& match new_json { Some(j) => log.new_value matches Some(v) && v@ == j, None => log.new_value is None }
    &&& log.document_metadata is None
    &&& log.timestamp == now
    &&& log.user_id == acting_user_id
    &&& log.device_id == uuid_parsed(acting_device_id)
    &&& log.sync_batch_id is None
    &&& log.processed_at is None
    &&& log.sync_error is None
}

/// True when a write sets the field to the update's value and logs it.
pub open spec fn write_fits(
    w: UserFieldWrite,
    current: User,
    u: UpdateUser,
    id: u128,
    now: Timestamp,
    acting_user_id: u128,
    acting_device_id: Seq<char>,
) -> bool {
    match w.field {
        UserField::Email => w.value matches FieldValue::Text(v) && v@ == u.email.unwrap()@
            && logs_field(w.log, id, w.field, Some(json_text_encoding(current.email@)), Some(json_text_encoding(v@)),
                now, acting_user_id, acting_device_id)
            && json_string_value(json_text_encoding(v@)) == Ok::<Seq<char>, Seq<char>>(v@),
        UserField::PasswordHash => w.value matches FieldValue::Text(v) && v@ == u.password.unwrap()@
            && logs_field(w.log, id, w.field, None, None, now, acting_user_id, acting_device_id),
        UserField::Name => w.value matches FieldValue::Text(v) && v@ == u.name.unwrap()@
            && logs_field(w.log, id, w.field, Some(json_text_encoding(current.name@)), Some(json_text_encoding(v@)),
                now, acting_user_id, acting_device_id)
            && json_string_value(json_text_encoding(v@)) == Ok::<Seq<char>, Seq<char>>(v@),
        UserField::Role => w.value matches FieldValue::Text(v) && v@ == u.role.unwrap()@
            && logs_field(w.log, id, w.field, Some(json_text_encoding(current.role.name())), Some(json_text_encoding(v@)),
                now, acting_user_id, acting_device_id)
            && json_string_value(json_text_encoding(v@)) == Ok::<Seq<char>, Seq<char>>(v@),
        UserField::Active => w.value == FieldValue::Flag(u.active.unwrap())
            && logs_field(w.log, id, w.field, Some(json_flag_text(current.active)), Some(json_flag_text(u.active.unwrap())),
                now, acting_user_id, acting_device_id),
    }
}

/// True when the writes are, in order, the writes of these fields, each fitting the
/// update.
#[verifier::opaque]
pub open spec fn writes_fit(
    ws: Seq<UserFieldWrite>,
    fields: Seq<UserField>,
    current: User,
    u: UpdateUser,
    id: u128,
    now: Timestamp,
    acting_user_id: u128,
    acting_device_id: Seq<char>,
) -> bool {
    &&& ws.len() == fields.len()
    &&& forall|i: int| 0 <= i < ws.len() ==> #[trigger] ws[i].field == fields[i]
        && write_fits(ws[i], current, u, id, now, acting_user_id, acting_device_id)
}

proof fn writes_fit_push(
    ws: Seq<UserFieldWrite>,
    fields: Seq<UserField>,
    w: UserFieldWrite,
    current: User,
    u: UpdateUser,
    id: u128,
    now: Timestamp,
    acting_user_id: u128,
    acting_device_id: Seq<char>,
)
    requires
        writes_fit(ws, fields, current, u, id, now, acting_user_id, acting_device_id),
        write_fits(w, current, u, id, now, acting_user_id, acting_device_id),
    ensures
        writes_fit(ws.push(w), fields.push(w.field), current, u, id, now, acting_user_id, acting_device_id),
{
    reveal(writes_fit);
    assert forall|i: int| 0 <= i < ws.push(w).len() implies #[trigger] ws.push(w)[i].field == fields.push(w.field)[i]
        && write_fits(ws.push(w)[i], current, u, id, now, acting_user_id, acting_device_id) by {
        if i < ws.len() {
            assert(ws.push(w)[i] == ws[i]);
        }
    }
}

proof fn writes_fit_empty(current: User, u: UpdateUser, id: u128, now: Timestamp, acting_user_id: u128, acting_device_id: Seq<char>)
    ensures
        writes_fit(Seq::empty(), Seq::empty(), current, u, id, now, acting_user_id, acting_device_id),
{
    reveal(writes_fit);
}

fn field_log(
    id: u128,
    field: UserField,
    old_json: Option<String>,
    new_json: Option<String>,
    now: Timestamp,
    acting_user_id: u128,
    acting_device_id: &str,
) -> (r: ChangeLogEntry)
    ensures
        logs_field(r, id, field,
            match old_json { Some(j) => Some(j@), None => None },
            match new_json { Some(j) => Some(j@), None => None },
            now, acting_user_id, acting_device_id@),
{
    ChangeLogEntry {
        operation_id: fresh_uuid(),
        entity_table: String::from_str("users"),
        entity_id: id,
        operation_type: ChangeOperationType::Update,
        field_name: Some(String::from_str(field.column_name())),
        old_value: old_json,
        new_value: new_json,
        document_metadata: None,
        timestamp: now,
        user_id: acting_user_id,
        device_id: parse_uuid_text(acting_device_id),
        sync_batch_id: None,
        processed_at: None,
        sync_error: None,
    }
}

/// Plans an update of user `id`: the changes must pass their rules; the user must exist
/// and not be deleted; each given field that differs from the current value is written
/// and logged, in the order e-mail, password, name, role, active; the record's stamp is
/// renewed when anything changed.
pub fn plan_user_update(
    id: u128,
    current: Option<User>,
    update: &UpdateUser,
    now: Timestamp,
    acting_user_id: u128,
    acting_device_id: &str,
) -> (r: Result<UserUpdatePlan, DomainError>)
    ensures
        update_user_broken(*update) matches Some(b) ==> (r matches Err(e) && reports_broken(e, b)),
        update_user_broken(*update) is None ==> match current {
            Some(c) if c.deleted_at is None => r matches Ok(p)
                && writes_fit(p.writes@, changed_fields(c, *update), c, *update, id, now, acting_user_id, acting_device_id@)
                && p.touch_record == (p.writes@.len() > 0),
            _ => r matches Err(DomainError::EntityNotFound(t, i)) && t@ == "users"@ && i == id,
        },
{
    match update.validate() {
        Ok(()) => {},
        Err(e) => return Err(e),
    }
    let c = match current {
        Some(c) => c,
        None => return Err(DomainError::EntityNotFound(String::from_str("users"), id)),
    };
    if c.is_deleted() {
        return Err(DomainError::EntityNotFound(String::from_str("users"), id));
    }
    let ghost dev = acting_device_id@;
    let ghost mut done: Seq<UserField> = Seq::empty();
    let mut writes: Vec<UserFieldWrite> = Vec::new();
    proof {
        writes_fit_empty(c, *update, id, now, acting_user_id, dev);
    }
    if let Some(v) = &update.email {
        if !same_text(v.as_str(), c.email.as_str()) {
            let log = field_log(id, UserField::Email, Some(encode_json_text(c.email.as_str())),
                Some(encode_json_text(v.as_str())), now, acting_user_id, acting_device_id);
            let w = UserFieldWrite { field: UserField::Email, value: FieldValue::Text(String::from_str(v.as_str())), log };
            proof {
                writes_fit_push(writes@, done, w, c, *update, id, now, acting_user_id, dev);
                done = done.push(UserField::Email);
            }
            writes.push(w);
        }
    }
    if let Some(v) = &update.password {
        if !same_text(v.as_str(), c.password_hash.as_str()) {
            let log = field_log(id, UserField::PasswordHash, None, None, now, acting_user_id, acting_device_id);
            let w = UserFieldWrite { field: UserField::PasswordHash, value: FieldValue::Text(String::from_str(v.as_str())), log };
            proof {
                writes_fit_push(writes@, done, w, c, *update, id, now, acting_user_id, dev);
                done = done.push(UserField::PasswordHash);
            }
            writes.push(w);
        }
    }
    if let Some(v) = &update.name {
        if !same_text(v.as_str(), c.name.as_str()) {
            let log = field_log(id, UserField::Name, Some(encode_json_text(c.name.as_str())),
                Some(encode_json_text(v.as_str())), now, acting_user_id, acting_device_id);
            let w = UserFieldWrite { field: UserField::Name, value: FieldValue::Text(String::from_str(v.as_str())), log };
            proof {
                writes_fit_push(writes@, done, w, c, *update, id, now, acting_user_id, dev);
                done = done.push(UserField::Name);
            }
            writes.push(w);
        }
    }
    if let Some(v) = &update.role {
        if !same_text(v.as_str(), c.role.as_str()) {
            let log = field_log(id, UserField::Role, Some(encode_json_text(c.role.as_str())),
                Some(encode_json_text(v.as_str())), now, acting_user_id, acting_device_id);
            let w = UserFieldWrite { field: UserField::Role, value: FieldValue::Text(String::from_str(v.as_str())), log };
            proof {
                writes_fit_push(writes@, done, w, c, *update, id, now, acting_user_id, dev);
                done = done.push(UserField::Role);
            }
            writes.push(w);
        }
    }
    if let Some(v) = update.active {
        if v != c.active {
            let log = field_log(id, UserField::Active, Some(encode_json_flag(c.active)),
                Some(encode_json_flag(v)), now, acting_user_id, acting_device_id);
            let w = UserFieldWrite { field: UserField::Active, value: FieldValue::Flag(v), log };
            proof {
                writes_fit_push(writes@, done, w, c, *update, id, now, acting_user_id, dev);
                done = done.push(UserField::Active);
            }
            writes.push(w);
        }
    }
    proof {
        assert(done =~= changed_fields(c, *update));
        reveal(writes_fit);
    }
    let touch = writes.len() > 0;
    Ok(UserUpdatePlan { writes, touch_record: touch })
}

/// What creating a user makes: the record, the state that the creation's change-log
/// entry carries (written into the entry's new value as JSON), and that entry.
#[derive(Clone, Debug)]
pub struct UserCreatePlan {
    pub user: User,
    pub state: UserFullState,
    pub log: ChangeLogEntry,
}

/// The creator recorded for a new user: the one named in the data unless it is the nil
/// identifier, else the acting user when it is recorded in the database.
pub open spec fn creator_of(named: Option<u128>, acting_user_for_db: Option<u128>) -> Option<u128> {
    match named {
        Some(c) if c != 0 => Some(c),
        _ => acting_user_for_db,
    }
}

/// True when the state carries the user as created.
pub open spec fn state_of(s: UserFullState, u: User) -> bool {
    &&& s.id == u.id
    &&& s.email == u.email
    &&& s.email_updated_at == u.email_updated_at
    &&& s.email_updated_by == u.email_updated_by
    &&& s.email_updated_by_device_id == u.email_updated_by_device_id
    &&& s.password_hash == u.password_hash
    &&& s.name == u.name
    &&& s.name_updated_at == u.name_updated_at
    &&& s.name_updated_by == u.name_updated_by
    &&& s.name_updated_by_device_id == u.name_updated_by_device_id
    &&& s.role@ == u.role.name()
    &&& s.role_updated_at == u.role_updated_at
    &&& s.role_updated_by == u.role_updated_by
    &&& s.role_updated_by_device_id == u.role_updated_by_device_id
    &&& s.active == u.active
    &&& s.active_updated_at == u.active_updated_at
    &&& s.active_updated_by == u.active_updated_by
    &&& s.active_updated_by_device_id == u.active_updated_by_device_id
    &&& s.last_login == u.last_login
    &&& s.created_at == u.created_at
    &&& s.updated_at == u.updated_at
    &&& s.created_by_user_id == u.created_by_user_id
    &&& s.created_by_device_id == u.created_by_device_id
    &&& s.updated_by_user_id == u.updated_by_user_id
    &&& s.updated_by_device_id == u.updated_by_device_id
}

/// Plans the creation of a user whose password is already hashed. The data must pass
/// its rules. The new user gets a fresh identifier; every field is stamped as set at
/// `now` by its creator from the acting device (when that device's identifier is a
/// UUID). The creation is logged under the creator, or the nil identifier when there is
/// none.
pub fn plan_user_create(
    data: NewUser,
    now: Timestamp,
    acting_user_for_db: Option<u128>,
    acting_device_id: &str,
) -> (r: Result<UserCreatePlan, DomainError>)
    ensures
        new_user_broken(data) matches Some(b) ==> (r matches Err(e) && reports_broken(e, b)),
        new_user_broken(data) is None ==> (r matches Ok(p) && {
            let u = p.user;
            let by = creator_of(data.created_by_user_id, acting_user_for_db);
            let dev = uuid_parsed(acting_device_id@);
            &&& u.email@ == data.email@
            &&& u.password_hash@ == data.password@
            &&& u.name@ == data.name@
            &&& u.role.name() == data.role@
            &&& u.active == data.active
            &&& u.last_login is None
            &&& u.created_at == now && u.updated_at == now
            &&& u.created_by_user_id == by && u.updated_by_user_id == by
            &&& u.email_updated_at == Some(now) && u.email_updated_by == by && u.email_updated_by_device_id == dev
            &&& u.name_updated_at == Some(now) && u.name_updated_by == by && u.name_updated_by_device_id == dev
            &&& u.role_updated_at == Some(now) && u.role_updated_by == by && u.role_updated_by_device_id == dev
            &&& u.active_updated_at == Some(now) && u.active_updated_by == by && u.active_updated_by_device_id == dev
            &&& u.created_by_device_id == dev && u.updated_by_device_id == dev
            &&& u.deleted_at is None && u.deleted_by_user_id is None && u.deleted_by_device_id is None
            &&& state_of(p.state, u)
            &&& p.log.entity_table@ == "users"@
            &&& p.log.entity_id == u.id
            &&& p.log.operation_type == ChangeOperationType::Create
            &&& p.log.field_name is None && p.log.old_value is None && p.log.new_value is None
            &&& p.log.document_metadata is None
            &&& p.log.timestamp == now
            &&& p.log.user_id == (match by { Some(b) => b, None => 0 })
            &&& p.log.device_id == dev
            &&& p.log.sync_batch_id is None && p.log.processed_at is None && p.log.sync_error is None
        }),
{
    match data.validate() {
        Ok(()) => {},
        Err(e) => return Err(e),
    }
    let role = match UserRole::from_str(data.role.as_str()) {
        Some(r) => r,
        None => return Err(DomainError::Validation(crate::errors::ValidationError::format("role", crate::text::join2("Invalid role string: ", data.role.as_str()).as_str()))),
    };
    let id = fresh_uuid();
    let by = match data.created_by_user_id {
        Some(c) if c != 0 => Some(c),
        _ => acting_user_for_db,
    };
    let dev = parse_uuid_text(acting_device_id);
    let user = User {
        id,
        email: data.email.clone(),
        email_updated_at: Some(now),
        email_updated_by: by,
        email_updated_by_device_id: dev,
        password_hash: data.password.clone(),
        name: data.name.clone(),
        name_updated_at: Some(now),
        name_updated_by: by,
        name_updated_by_device_id: dev,
        role,
        role_updated_at: Some(now),
        role_updated_by: by,
        role_updated_by_device_id: dev,
        last_login: None,
        active: data.active,
        active_updated_at: Some(now),
        active_updated_by: by,
        active_updated_by_device_id: dev,
        created_at: now,
        updated_at: now,
        created_by_user_id: by,
        created_by_device_id: dev,
        updated_by_user_id: by,
        updated_by_device_id: dev,
        deleted_at: None,
        deleted_by_user_id: None,
        deleted_by_device_id: None,
    };
    let state = UserFullState {
        id,
        email: data.email,
        email_updated_at: Some(now),
        email_updated_by: by,
        email_updated_by_device_id: dev,
        password_hash: data.password,
        name: data.name,
        name_updated_at: Some(now),
        name_updated_by: by,
        name_updated_by_device_id: dev,
        role: String::from_str(role.as_str()),
        role_updated_at: Some(now),
        role_updated_by: by,
        role_updated_by_device_id: dev,
        active: user.active,
        active_updated_at: Some(now),
        active_updated_by: by,
        active_updated_by_device_id: dev,
        last_login: None,
        created_at: now,
        updated_at: now,
        created_by_user_id: by,
        created_by_device_id: dev,
        updated_by_user_id: by,
        updated_by_device_id: dev,
    };
    let log = ChangeLogEntry {
        operation_id: fresh_uuid(),
        entity_table: String::from_str("users"),
        entity_id: id,
        operation_type: ChangeOperationType::Create,
        field_name: None,
        old_value: None,
        new_value: None,
        document_metadata: None,
        timestamp: now,
        user_id: match by { Some(b) => b, None => 0 },
        device_id: dev,
        sync_batch_id: None,
        processed_at: None,
        sync_error: None,
    };
    Ok(UserCreatePlan { user, state, log })
}

} // verus!
