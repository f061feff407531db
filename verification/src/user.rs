//! Users: the account record with per-field change stamps, the data-entry types and
//! their rules, the stored row, the public view, and the decisions of the user
//! repository and service.

use vstd::prelude::*;
use crate::clock::{rfc3339_stamp, Timestamp};
use crate::errors::{DomainError, ValidationError};
use crate::ident::{parse_uuid_text, uuid_parsed};
use crate::records::{or_next, reports, FieldFault};
use crate::text::{join2, same_text};
use crate::validation::{
    check_email, check_max_length, check_min_length, check_required, check_role, email_rule, first_broken,
    max_length_rule, min_length_rule, reports_broken, required_rule, role_rule, Broken,
};

verus! {

/// The roles a user can have.
#[derive(Clone, Copy, Debug, PartialEq, Eq, Structural)]
pub enum UserRole {
    Admin,
    FieldTl,
    Field,
}

impl UserRole {
    /// The name the role is stored under.
    pub open spec fn name(self) -> Seq<char> {
        match self {
            UserRole::Admin => "admin"@,
            UserRole::FieldTl => "field_tl"@,
            UserRole::Field => "field"@,
        }
    }

    /// The role stored under a name, if any.
    pub open spec fn named(s: Seq<char>) -> Option<UserRole> {
        if s == "admin"@ {
            Some(UserRole::Admin)
        } else if s == "field_tl"@ {
            Some(UserRole::FieldTl)
        } else if s == "field"@ {
            Some(UserRole::Field)
        } else {
            None
        }
    }

    pub fn as_str(&self) -> (r: &'static str)
        ensures
            r@ == self.name(),
    {
        match self {
            UserRole::Admin => "admin",
            UserRole::FieldTl => "field_tl",
            UserRole::Field => "field",
        }
    }

    pub fn from_str(s: &str) -> (r: Option<UserRole>)
        ensures
            r == UserRole::named(s@),
    {
        if same_text(s, "admin") {
            Some(UserRole::Admin)
        } else if same_text(s, "field_tl") {
            Some(UserRole::FieldTl)
        } else if same_text(s, "field") {
            Some(UserRole::Field)
        } else {
            None
        }
    }
}

/// Every role is read back from its name, and only its name reads as it.
pub proof fn user_role_names_round_trip(v: UserRole, s: Seq<char>)
    ensures
        UserRole::named(v.name()) == Some(v),
        UserRole::named(s) == Some(v) ==> s == v.name(),
{
    reveal_strlit("admin");
    reveal_strlit("field_tl");
    reveal_strlit("field");
    match v {
        UserRole::Admin => {},
        UserRole::FieldTl => {
            assert("field_tl"@.len() != "admin"@.len());
        },
        UserRole::Field => {
            assert("field"@[0] != "admin"@[0]);
            assert("field"@.len() != "field_tl"@.len());
        },
    }
}

/// A user account. Each editable field carries when, by whom and from which device it
/// was last changed.
#[derive(Clone, Debug)]
pub struct User {
    pub id: u128,
    pub email: String,
    pub email_updated_at: Option<Timestamp>,
    pub email_updated_by: Option<u128>,
    pub email_updated_by_device_id: Option<u128>,
    pub password_hash: String,
    pub name: String,
    pub name_updated_at: Option<Timestamp>,
    pub name_updated_by: Option<u128>,
    pub name_updated_by_device_id: Option<u128>,
    pub role: UserRole,
    pub role_updated_at: Option<Timestamp>,
    pub role_updated_by: Option<u128>,
    pub role_updated_by_device_id: Option<u128>,
    pub last_login: Option<Timestamp>,
    pub active: bool,
    pub active_updated_at: Option<Timestamp>,
    pub active_updated_by: Option<u128>,
    pub active_updated_by_device_id: Option<u128>,
    pub created_at: Timestamp,
    pub updated_at: Timestamp,
    pub created_by_user_id: Option<u128>,
    pub created_by_device_id: Option<u128>,
    pub updated_by_user_id: Option<u128>,
    pub updated_by_device_id: Option<u128>,
    pub deleted_at: Option<Timestamp>,
    pub deleted_by_user_id: Option<u128>,
    pub deleted_by_device_id: Option<u128>,
}

impl User {
    /// True when the user has been soft-deleted.
    pub fn is_deleted(&self) -> (r: bool)
        ensures
            r == (self.deleted_at is Some),
    {
        self.deleted_at.is_some()
    }

    /// True when the user is active and not deleted.
    pub fn is_active(&self) -> (r: bool)
        ensures
            r == (self.active && self.deleted_at is None),
    {
        self.active && !self.is_deleted()
    }

    /// True when the user is an administrator.
    pub fn is_admin(&self) -> (r: bool)
        ensures
            r == (self.role == UserRole::Admin),
    {
        self.role == UserRole::Admin
    }
}

/// The data of a user to create; the password is in clear text until it is hashed.
#[derive(Clone, Debug)]
pub struct NewUser {
    pub email: String,
    pub password: String,
    pub name: String,
    pub role: String,
    pub active: bool,
    pub created_by_user_id: Option<u128>,
}

/// The first rule a new user's data breaks: the e-mail is required and must be an
/// address; the password is required with at least 8 characters; the name is required
/// with 2 to 50 characters; the role is required and one of `admin`, `field_tl`,
/// `field`.
pub open spec fn new_user_broken(u: NewUser) -> Option<Broken> {
    first_broken(required_rule("email"@, u.email@),
    first_broken(email_rule("email"@, u.email@),
    first_broken(required_rule("password"@, u.password@),
    first_broken(min_length_rule("password"@, u.password@, 8),
    first_broken(required_rule("name"@, u.name@),
    first_broken(min_length_rule("name"@, u.name@, 2),
    first_broken(max_length_rule("name"@, u.name@, 50),
    first_broken(required_rule("role"@, u.role@),
        role_rule("role"@, u.role@)))))))))
}

impl NewUser {
    /// Checks the rules of a new user's data, reporting the first one broken.
    pub fn validate(&self) -> (r: Result<(), DomainError>)
        ensures
            match new_user_broken(*self) {
                None => r is Ok,
                Some(b) => r matches Err(e) && reports_broken(e, b),
            },
    {
        match check_required("email", self.email.as_str()) { Ok(()) => {}, Err(e) => return Err(e) }
        match check_email("email", self.email.as_str()) { Ok(()) => {}, Err(e) => return Err(e) }
        match check_required("password", self.password.as_str()) { Ok(()) => {}, Err(e) => return Err(e) }
        match check_min_length("password", self.password.as_str(), 8) { Ok(()) => {}, Err(e) => return Err(e) }
        match check_required("name", self.name.as_str()) { Ok(()) => {}, Err(e) => return Err(e) }
        match check_min_length("name", self.name.as_str(), 2) { Ok(()) => {}, Err(e) => return Err(e) }
        match check_max_length("name", self.name.as_str(), 50) { Ok(()) => {}, Err(e) => return Err(e) }
        match check_required("role", self.role.as_str()) { Ok(()) => {}, Err(e) => return Err(e) }
        check_role("role", self.role.as_str())
    }
}

/// Changes to a user: only the fields that are set change.
#[derive(Clone, Debug)]
pub struct UpdateUser {
    pub email: Option<String>,
    pub password: Option<String>,
    pub name: Option<String>,
    pub role: Option<String>,
    pub active: Option<bool>,
    pub updated_by_user_id: u128,
}

/// A rule checked only when the value is given.
pub open spec fn if_given(v: Option<String>, rule: spec_fn(Seq<char>) -> Option<Broken>) -> Option<Broken> {
    match v {
        Some(s) => rule(s@),
        None => None,
    }
}

/// The first rule the changes break: a given e-mail must be an address, a given
/// password must have at least 8 characters, a given name 2 to 50, and a given role
/// must be one the application knows.
pub open spec fn update_user_broken(u: UpdateUser) -> Option<Broken> {
    first_broken(if_given(u.email, |s: Seq<char>| email_rule("email"@, s)),
    first_broken(if_given(u.password, |s: Seq<char>| min_length_rule("password"@, s, 8)),
    first_broken(if_given(u.name, |s: Seq<char>| min_length_rule("name"@, s, 2)),
    first_broken(if_given(u.name, |s: Seq<char>| max_length_rule("name"@, s, 50)),
        if_given(u.role, |s: Seq<char>| role_rule("role"@, s))))))
}

impl UpdateUser {
    /// Changes that set nothing, made by the given user.
    pub fn none_by(updated_by_user_id: u128) -> (r: UpdateUser)
        ensures
            r.email is None && r.password is None && r.name is None && r.role is None && r.active is None,
            r.updated_by_user_id == updated_by_user_id,
    {
        UpdateUser { email: None, password: None, name: None, role: None, active: None, updated_by_user_id }
    }

    /// True when the changes set no field at all.
    pub fn is_empty_update(&self) -> (r: bool)
        ensures
            r == (self.email is None && self.password is None && self.name is None
                && self.role is None && self.active is None),
    {
        self.email.is_none() && self.password.is_none() && self.name.is_none() && self.role.is_none()
            && self.active.is_none()
    }

    /// Checks the rules of the given fields, reporting the first one broken.
    pub fn validate(&self) -> (r: Result<(), DomainError>)
        ensures
            match update_user_broken(*self) {
                None => r is Ok,
                Some(b) => r matches Err(e) && reports_broken(e, b),
            },
    {
        if let Some(email) = &self.email {
            match check_email("email", email.as_str()) { Ok(()) => {}, Err(e) => return Err(e) }
        }
        if let Some(password) = &self.password {
            match check_min_length("password", password.as_str(), 8) { Ok(()) => {}, Err(e) => return Err(e) }
        }
        if let Some(name) = &self.name {
            match check_min_length("name", name.as_str(), 2) { Ok(()) => {}, Err(e) => return Err(e) }
            match check_max_length("name", name.as_str(), 50) { Ok(()) => {}, Err(e) => return Err(e) }
        }
        if let Some(role) = &self.role {
            match check_role("role", role.as_str()) { Ok(()) => {}, Err(e) => return Err(e) }
        }
        Ok(())
    }
}

/// A login attempt.
#[derive(Clone, Debug)]
pub struct Credentials {
    pub email: String,
    pub password: String,
}

/// The first rule a login attempt breaks: the e-mail is required and must be an
/// address, and the password is required.
pub open spec fn credentials_broken(c: Credentials) -> Option<Broken> {
    first_broken(required_rule("email"@, c.email@),
    first_broken(email_rule("email"@, c.email@),
        required_rule("password"@, c.password@)))
}

impl Credentials {
    /// Checks the rules of a login attempt, reporting the first one broken.
    pub fn validate(&self) -> (r: Result<(), DomainError>)
        ensures
            match credentials_broken(*self) {
                None => r is Ok,
                Some(b) => r matches Err(e) && reports_broken(e, b),
            },
    {
        match check_required("email", self.email.as_str()) { Ok(()) => {}, Err(e) => return Err(e) }
        match check_email("email", self.email.as_str()) { Ok(()) => {}, Err(e) => return Err(e) }
        check_required("password", self.password.as_str())
    }
}

/// A stored user, as the database gives it.
#[derive(Clone, Debug)]
pub struct UserRow {
    pub id: String,
    pub email: String,
    pub email_updated_at: Option<String>,
    pub email_updated_by: Option<String>,
    pub email_updated_by_device_id: Option<String>,
    pub password_hash: String,
    pub name: String,
    pub name_updated_at: Option<String>,
    pub name_updated_by: Option<String>,
    pub name_updated_by_device_id: Option<String>,
    pub role: String,
    pub role_updated_at: Option<String>,
    pub role_updated_by: Option<String>,
    pub role_updated_by_device_id: Option<String>,
    pub last_login: Option<String>,
    pub active: i64,
    pub active_updated_at: Option<String>,
    pub active_updated_by: Option<String>,
    pub active_updated_by_device_id: Option<String>,
    pub created_at: String,
    pub updated_at: String,
    pub created_by_user_id: Option<String>,
    pub created_by_device_id: Option<String>,
    pub updated_by_user_id: Option<String>,
    pub updated_by_device_id: Option<String>,
    pub deleted_at: Option<String>,
    pub deleted_by_user_id: Option<String>,
    pub deleted_by_device_id: Option<String>,
}

/// The fault of a user identifier field: a text that is no UUID.
pub open spec fn user_uuid_fault(text: Option<String>) -> Option<FieldFault> {
    match text {
        Some(t) => if uuid_parsed(t@) is Some { None } else { Some(FieldFault::InvalidUuid { text: t@ }) },
        None => None,
    }
}

/// The fault of a device identifier field: a text that is no UUID, reported with the
/// field's name.
pub open spec fn device_uuid_fault(text: Option<String>, field: Seq<char>) -> Option<FieldFault> {
    match text {
        Some(t) => if uuid_parsed(t@) is Some {
            None
        } else {
            Some(FieldFault::Format { field, reason: "Invalid UUID format for "@ + field + ": "@ + t@ })
        },
        None => None,
    }
}

/// The fault of a date field of a user: a text that is no RFC 3339 date-time.
pub open spec fn user_date_fault(text: Seq<char>) -> Option<FieldFault> {
    if rfc3339_stamp(text) is Some { None } else { Some(FieldFault::Internal { message: "Invalid date format: "@ + text }) }
}

/// The fault of an optional date field of a user.
pub open spec fn opt_user_date_fault(text: Option<String>) -> Option<FieldFault> {
    match text {
        Some(t) => user_date_fault(t@),
        None => None,
    }
}

/// The identifier an optional text denotes.
pub open spec fn opt_id(text: Option<String>) -> Option<u128> {
    match text {
        Some(t) => Some(uuid_parsed(t@).unwrap()),
        None => None,
    }
}

/// The instant an optional text denotes.
pub open spec fn opt_instant(text: Option<String>) -> Option<Timestamp> {
    match text {
        Some(t) => Some(rfc3339_stamp(t@).unwrap()),
        None => None,
    }
}

fn read_user_uuid(text: &Option<String>) -> (r: Result<Option<u128>, DomainError>)
    ensures
        match user_uuid_fault(*text) {
            None => r == Ok::<Option<u128>, DomainError>(opt_id(*text)),
            Some(f) => r matches Err(e) && reports(e, f),
        },
{
    match text {
        Some(t) => match parse_uuid_text(t.as_str()) {
            Some(u) => Ok(Some(u)),
            None => Err(DomainError::InvalidUuid(String::from_str(t.as_str()))),
        },
        None => Ok(None),
    }
}

fn read_device_uuid(text: &Option<String>, field: &str) -> (r: Result<Option<u128>, DomainError>)
    ensures
        match device_uuid_fault(*text, field@) {
            None => r == Ok::<Option<u128>, DomainError>(opt_id(*text)),
            Some(f) => r matches Err(e) && reports(e, f),
        },
{
    match text {
        Some(t) => match parse_uuid_text(t.as_str()) {
            Some(u) => Ok(Some(u)),
            None => {
                let reason = join2("Invalid UUID format for ", field).concat(": ").concat(t.as_str());
                Err(DomainError::Validation(ValidationError::Format { field: String::from_str(field), reason }))
            },
        },
        None => Ok(None),
    }
}

fn read_user_date(text: &str) -> (r: Result<Timestamp, DomainError>)
    ensures
        match user_date_fault(text@) {
            None => r == Ok::<Timestamp, DomainError>(rfc3339_stamp(text@).unwrap()),
            Some(f) => r matches Err(e) && reports(e, f),
        },
{
    match Timestamp::parse_rfc3339(text) {
        Some(t) => Ok(t),
        None => Err(DomainError::Internal(join2("Invalid date format: ", text))),
    }
}

fn read_opt_user_date(text: &Option<String>) -> (r: Result<Option<Timestamp>, DomainError>)
    ensures
        match opt_user_date_fault(*text) {
            None => r == Ok::<Option<Timestamp>, DomainError>(opt_instant(*text)),
            Some(f) => r matches Err(e) && reports(e, f),
        },
{
    match text {
        Some(t) => match read_user_date(t.as_str()) {
            Ok(v) => Ok(Some(v)),
            Err(e) => Err(e),
        },
        None => Ok(None),
    }
}

/// The first field of a stored user that cannot be read, if any.
pub open spec fn user_row_fault(row: UserRow) -> Option<FieldFault> {
    or_next(if uuid_parsed(row.id@) is Some { None } else { Some(FieldFault::InvalidUuid { text: row.id@ }) },
    or_next(opt_user_date_fault(row.email_updated_at),
    or_next(user_uuid_fault(row.email_updated_by),
    or_next(device_uuid_fault(row.email_updated_by_device_id, "email_updated_by_device_id"@),
    or_next(opt_user_date_fault(row.name_updated_at),
    or_next(user_uuid_fault(row.name_updated_by),
    or_next(device_uuid_fault(row.name_updated_by_device_id, "name_updated_by_device_id"@),
    or_next(if UserRole::named(row.role@) is Some { None } else { Some(FieldFault::Internal { message: "Invalid role: "@ + row.role@ }) },
    or_next(opt_user_date_fault(row.role_updated_at),
    or_next(user_uuid_fault(row.role_updated_by),
    or_next(device_uuid_fault(row.role_updated_by_device_id, "role_updated_by_device_id"@),
    or_next(opt_user_date_fault(row.last_login),
    or_next(opt_user_date_fault(row.active_updated_at),
    or_next(user_uuid_fault(row.active_updated_by),
    or_next(device_uuid_fault(row.active_updated_by_device_id, "active_updated_by_device_id"@),
    or_next(user_date_fault(row.created_at@),
    or_next(user_date_fault(row.updated_at@),
    or_next(user_uuid_fault(row.created_by_user_id),
    or_next(device_uuid_fault(row.created_by_device_id, "created_by_device_id"@),
    or_next(user_uuid_fault(row.updated_by_user_id),
    or_next(device_uuid_fault(row.updated_by_device_id, "updated_by_device_id"@),
    or_next(opt_user_date_fault(row.deleted_at),
    or_next(user_uuid_fault(row.deleted_by_user_id),
    device_uuid_fault(row.deleted_by_device_id, "deleted_by_device_id"@))))))))))))))))))))))))
}

impl UserRow {
    /// Reads a stored user; the first field that cannot be read gives the error. A user
    /// is active when the stored flag is not 0.
    pub fn into_entity(self) -> (r: Result<User, DomainError>)
        ensures
            match user_row_fault(self) {
                None => r matches Ok(u)
                    && u.id == (uuid_parsed(self.id@).unwrap())
                    && u.email == (self.email)
                    && u.email_updated_at == (opt_instant(self.email_updated_at))
                    && u.email_updated_by == (opt_id(self.email_updated_by))
                    && u.email_updated_by_device_id == (opt_id(self.email_updated_by_device_id))
                    && u.password_hash == (self.password_hash)
                    && u.name == (self.name)
                    && u.name_updated_at == (opt_instant(self.name_updated_at))
                    && u.name_updated_by == (opt_id(self.name_updated_by))
                    && u.name_updated_by_device_id == (opt_id(self.name_updated_by_device_id))
                    && u.role == (UserRole::named(self.role@).unwrap())
                    && u.role_updated_at == (opt_instant(self.role_updated_at))
                    && u.role_updated_by == (opt_id(self.role_updated_by))
                    && u.role_updated_by_device_id == (opt_id(self.role_updated_by_device_id))
                    && u.last_login == (opt_instant(self.last_login))
                    && u.active == (self.active != 0)
                    && u.active_updated_at == (opt_instant(self.active_updated_at))
                    && u.active_updated_by == (opt_id(self.active_updated_by))
                    && u.active_updated_by_device_id == (opt_id(self.active_updated_by_device_id))
                    && u.created_at == (rfc3339_stamp(self.created_at@).unwrap())
                    && u.updated_at == (rfc3339_stamp(self.updated_at@).unwrap())
                    && u.created_by_user_id == (opt_id(self.created_by_user_id))
                    && u.created_by_device_id == (opt_id(self.created_by_device_id))
                    && u.updated_by_user_id == (opt_id(self.updated_by_user_id))
                    && u.updated_by_device_id == (opt_id(self.updated_by_device_id))
                    && u.deleted_at == (opt_instant(self.deleted_at))
                    && u.deleted_by_user_id == (opt_id(self.deleted_by_user_id))
                    && u.deleted_by_device_id == (opt_id(self.deleted_by_device_id)),
                Some(f) => r matches Err(e) && reports(e, f),
            },
    {
        let row = self;
        let id = match parse_uuid_text(row.id.as_str()) {
            Some(v) => v,
            None => return Err(DomainError::InvalidUuid(String::from_str(row.id.as_str()))),
        };
        let email_updated_at = match read_opt_user_date(&row.email_updated_at) {
            Ok(v) => v,
            Err(e) => return Err(e),
        };
        let email_updated_by = match read_user_uuid(&row.email_updated_by) {
            Ok(v) => v,
            Err(e) => return Err(e),
        };
        let email_updated_by_device_id = match read_device_uuid(&row.email_updated_by_device_id, "email_updated_by_device_id") {
            Ok(v) => v,
            Err(e) => return Err(e),
        };
        let name_updated_at = match read_opt_user_date(&row.name_updated_at) {
            Ok(v) => v,
            Err(e) => return Err(e),
        };
        let name_updated_by = match read_user_uuid(&row.name_updated_by) {
            Ok(v) => v,
            Err(e) => return Err(e),
        };
        let name_updated_by_device_id = match read_device_uuid(&row.name_updated_by_device_id, "name_updated_by_device_id") {
            Ok(v) => v,
            Err(e) => return Err(e),
        };
        let role = match UserRole::from_str(row.role.as_str()) {
            Some(v) => v,
            None => return Err(DomainError::Internal(join2("Invalid role: ", row.role.as_str()))),
        };
        let role_updated_at = match read_opt_user_date(&row.role_updated_at) {
            Ok(v) => v,
            Err(e) => return Err(e),
        };
        let role_updated_by = match read_user_uuid(&row.role_updated_by) {
            Ok(v) => v,
            Err(e) => return Err(e),
        };
        let role_updated_by_device_id = match read_device_uuid(&row.role_updated_by_device_id, "role_updated_by_device_id") {
            Ok(v) => v,
            Err(e) => return Err(e),
        };
        let last_login = match read_opt_user_date(&row.last_login) {
            Ok(v) => v,
            Err(e) => return Err(e),
        };
        let active_updated_at = match read_opt_user_date(&row.active_updated_at) {
            Ok(v) => v,
            Err(e) => return Err(e),
        };
        let active_updated_by = match read_user_uuid(&row.active_updated_by) {
            Ok(v) => v,
            Err(e) => return Err(e),
        };
        let active_updated_by_device_id = match read_device_uuid(&row.active_updated_by_device_id, "active_updated_by_device_id") {
            Ok(v) => v,
            Err(e) => return Err(e),
        };
        let created_at = match read_user_date(row.created_at.as_str()) {
            Ok(v) => v,
            Err(e) => return Err(e),
        };
        let updated_at = match read_user_date(row.updated_at.as_str()) {
            Ok(v) => v,
            Err(e) => return Err(e),
        };
        let created_by_user_id = match read_user_uuid(&row.created_by_user_id) {
            Ok(v) => v,
            Err(e) => return Err(e),
        };
        let created_by_device_id = match read_device_uuid(&row.created_by_device_id, "created_by_device_id") {
            Ok(v) => v,
            Err(e) => return Err(e),
        };
        let updated_by_user_id = match read_user_uuid(&row.updated_by_user_id) {
            Ok(v) => v,
            Err(e) => return Err(e),
        };
        let updated_by_device_id = match read_device_uuid(&row.updated_by_device_id, "updated_by_device_id") {
            Ok(v) => v,
            Err(e) => return Err(e),
        };
        let deleted_at = match read_opt_user_date(&row.deleted_at) {
            Ok(v) => v,
            Err(e) => return Err(e),
        };
        let deleted_by_user_id = match read_user_uuid(&row.deleted_by_user_id) {
            Ok(v) => v,
            Err(e) => return Err(e),
        };
        let deleted_by_device_id = match read_device_uuid(&row.deleted_by_device_id, "deleted_by_device_id") {
            Ok(v) => v,
            Err(e) => return Err(e),
        };
        Ok(User {
            id,
            email: row.email,
            email_updated_at,
            email_updated_by,
            email_updated_by_device_id,
            password_hash: row.password_hash,
            name: row.name,
            name_updated_at,
            name_updated_by,
            name_updated_by_device_id,
            role,
            role_updated_at,
            role_updated_by,
            role_updated_by_device_id,
            last_login,
            active: row.active != 0,
            active_updated_at,
            active_updated_by,
            active_updated_by_device_id,
            created_at,
            updated_at,
            created_by_user_id,
            created_by_device_id,
            updated_by_user_id,
            updated_by_device_id,
            deleted_at,
            deleted_by_user_id,
            deleted_by_device_id,
        })
    }
}

/// The public view of a user: no password hash, instants as RFC 3339 text.
#[derive(Clone, Debug)]
pub struct UserResponse {
    pub id: u128,
    pub email: String,
    pub name: String,
    pub role: String,
    pub active: bool,
    pub last_login: Option<String>,
    pub created_at: String,
    pub updated_at: String,
}

impl UserResponse {
    /// The public view of a user.
    pub fn from(user: User) -> (r: UserResponse)
        ensures
            r.id == user.id,
            r.email == user.email,
            r.name == user.name,
            r.role@ == user.role.name(),
            r.active == user.active,
            match user.last_login {
                Some(t) => r.last_login matches Some(s) && s@ == t.text(),
                None => r.last_login is None,
            },
            r.created_at@ == user.created_at.text(),
            r.updated_at@ == user.updated_at.text(),
    {
        let last_login = match &user.last_login {
            Some(t) => Some(t.to_rfc3339()),
            None => None,
        };
        UserResponse {
            id: user.id,
            email: user.email,
            name: user.name,
            role: String::from_str(user.role.as_str()),
            active: user.active,
            last_login,
            created_at: user.created_at.to_rfc3339(),
            updated_at: user.updated_at.to_rfc3339(),
        }
    }
}

/// Counts of users by status and role.
#[derive(Clone, Debug)]
pub struct UserStats {
    pub total: i64,
    pub active: i64,
    pub inactive: i64,
    pub admin: i64,
    pub field_tl: i64,
    pub field: i64,
}

} // verus!
