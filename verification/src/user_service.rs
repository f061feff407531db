//! The decisions of the user service: who may change what, when a deletion is refused,
//! how a deletion's result is reported, the password rule of a password change, and the
//! accounts every installation starts with.

use vstd::prelude::*;
use crate::errors::{DomainError, ServiceError, ValidationError};
use crate::user::{NewUser, UpdateUser};
use vstd::string::StringSliceAdditionalSpecFns;

verus! {

/// What deleting a record did.
#[derive(Clone, Debug)]
pub enum DeleteResult {
    /// The record was hard-deleted.
    HardDeleted,
    /// The record was only soft-deleted, because of dependent records in these tables.
    SoftDeleted { dependencies: Vec<String> },
    /// Dependent records in these tables prevented the deletion.
    DependenciesPrevented { dependencies: Vec<String> },
}

/// True when changing user `id` needs the permission to manage users: it does unless
/// the acting user changes their own account.
pub fn update_needs_manage_permission(id: u128, acting_user_id: u128) -> (r: bool)
    ensures
        r == (id != acting_user_id),
{
    id != acting_user_id
}

/// A user changing their own account may not change its role or whether it is active.
pub fn check_own_account_update(update: &UpdateUser) -> (r: Result<(), ServiceError>)
    ensures
        r is Ok <==> (update.role is None && update.active is None),
        r matches Err(e) ==> (e matches ServiceError::PermissionDenied(m)
            && m@ == "Cannot change role or active status for your own account"@),
{
    if update.role.is_some() || update.active.is_some() {
        return Err(ServiceError::PermissionDenied(String::from_str(
            "Cannot change role or active status for your own account")));
    }
    Ok(())
}

/// A user may not hard-delete their own account.
pub fn check_not_own_account(id: u128, acting_user_id: u128) -> (r: Result<(), ServiceError>)
    ensures
        r is Ok <==> id != acting_user_id,
        r matches Err(e) ==> (e matches ServiceError::Domain(DomainError::Validation(ValidationError::Custom(m)))
            && m@ == "Cannot delete your own user account"@),
{
    if id == acting_user_id {
        return Err(ServiceError::Domain(DomainError::Validation(ValidationError::custom(
            "Cannot delete your own user account"))));
    }
    Ok(())
}

/// Reports the result of hard-deleting a user: only a hard deletion succeeds; dependent
/// records are reported by their tables; a missing user is reported as a missing
/// `User`; any other error is passed on.
pub fn settle_user_deletion(result: Result<DeleteResult, DomainError>) -> (r: Result<(), ServiceError>)
    ensures
        match result {
            Ok(DeleteResult::HardDeleted) => r is Ok,
            Ok(DeleteResult::SoftDeleted { dependencies }) =>
                r == Err::<(), ServiceError>(ServiceError::DependenciesPreventDeletion(dependencies)),
            Ok(DeleteResult::DependenciesPrevented { dependencies }) =>
                r == Err::<(), ServiceError>(ServiceError::DependenciesPreventDeletion(dependencies)),
            Err(DomainError::EntityNotFound(_, id)) => r matches Err(ServiceError::Domain(DomainError::EntityNotFound(t, i)))
                && t@ == "User"@ && i == id,
            Err(e) => r == Err::<(), ServiceError>(ServiceError::Domain(e)),
        },
{
    match result {
        Ok(DeleteResult::HardDeleted) => Ok(()),
        Ok(DeleteResult::SoftDeleted { dependencies }) => Err(ServiceError::DependenciesPreventDeletion(dependencies)),
        Ok(DeleteResult::DependenciesPrevented { dependencies }) => Err(ServiceError::DependenciesPreventDeletion(dependencies)),
        Err(DomainError::EntityNotFound(_, id)) => Err(ServiceError::Domain(DomainError::EntityNotFound(String::from_str("User"), id))),
        Err(e) => Err(ServiceError::Domain(e)),
    }
}

/// A new password must be at least 8 bytes long.
pub fn check_new_password(new_password: &str) -> (r: Result<(), ServiceError>)
    ensures
        r is Ok <==> new_password.len() >= 8,
        r matches Err(e) ==> (e matches ServiceError::Domain(DomainError::Validation(ValidationError::MinLength { field: f, min: m }))
            && f@ == "password"@ && m == 8),
{
    if new_password.len() < 8 {
        return Err(ServiceError::Domain(DomainError::Validation(ValidationError::min_length("password", 8))));
    }
    Ok(())
}

/// A default account: e-mail, password, name and role.
pub open spec fn is_default_account(u: NewUser, email: Seq<char>, password: Seq<char>, name: Seq<char>, role: Seq<char>) -> bool {
    u.email@ == email && u.password@ == password && u.name@ == name && u.role@ == role && u.active
        && u.created_by_user_id is None
}

fn default_account(email: &str, password: &str, name: &str, role: &str) -> (r: NewUser)
    ensures
        is_default_account(r, email@, password@, name@, role@),
{
    NewUser {
        email: String::from_str(email),
        password: String::from_str(password),
        name: String::from_str(name),
        role: String::from_str(role),
        active: true,
        created_by_user_id: None,
    }
}

/// The accounts every installation starts with, in the order they are made: an
/// administrator, a field team lead and a field officer, all active and made by the
/// system.
pub fn default_accounts() -> (r: Vec<NewUser>)
    ensures
        r@.len() == 3,
        is_default_account(r@[0], "admin@example.com"@, "Admin123!"@, "System Administrator"@, "admin"@),
        is_default_account(r@[1], "lead@example.com"@, "Lead123!"@, "Field Team Lead"@, "field_tl"@),
        is_default_account(r@[2], "officer@example.com"@, "Officer123!"@, "Field Officer"@, "field"@),
{
    let mut v = Vec::new();
    v.push(default_account("admin@example.com", "Admin123!", "System Administrator", "admin"));
    v.push(default_account("lead@example.com", "Lead123!", "Field Team Lead", "field_tl"));
    v.push(default_account("officer@example.com", "Officer123!", "Field Officer", "field"));
    v
}

/// Whether a default account must be made, from the lookup of its e-mail: an account
/// that is found is kept, a missing one is made, and any other lookup error stops the
/// initialisation.
pub fn default_account_needed(lookup: Result<(), DomainError>) -> (r: Result<bool, ServiceError>)
    ensures
        match lookup {
            Ok(_) => r == Ok::<bool, ServiceError>(false),
            Err(DomainError::EntityNotFound(_, _)) => r == Ok::<bool, ServiceError>(true),
            Err(e) => r == Err::<bool, ServiceError>(ServiceError::Domain(e)),
        },
{
    match lookup {
        Ok(()) => Ok(false),
        Err(DomainError::EntityNotFound(_, _)) => Ok(true),
        Err(e) => Err(ServiceError::Domain(e)),
    }
}

} // verus!
