use fieldsync::clock::Timestamp;
use fieldsync::errors::{DomainError, ServiceError, ValidationError};
use fieldsync::sync_records::{ChangeLogEntry, MergeOutcome};
use fieldsync::sync_types::ChangeOperationType;
use fieldsync::user::{Credentials, NewUser, UpdateUser, User, UserResponse, UserRole, UserRow};
use fieldsync::user_service::{
    check_new_password, check_not_own_account, check_own_account_update, default_account_needed, default_accounts,
    settle_user_deletion, update_needs_manage_permission, DeleteResult,
};
use fieldsync::user_store::{plan_user_create, plan_user_update, FieldValue, UserField};
use fieldsync::user_sync::{merged_user, plan_user_merge, UserFullState, UserMergeAction};

const ID: &str = "550e8400-e29b-41d4-a716-446655440000";
const ID_VALUE: u128 = 0x550e8400_e29b_41d4_a716_446655440000;
const DEVICE: &str = "6ba7b810-9dad-11d1-80b4-00c04fd430c8";
const DEVICE_VALUE: u128 = 0x6ba7b810_9dad_11d1_80b4_00c04fd430c8;

fn at(text: &str) -> Timestamp {
    Timestamp::parse_rfc3339(text).unwrap()
}

fn user_row() -> UserRow {
    UserRow {
        id: ID.to_string(),
        email: "ann@example.com".to_string(),
        email_updated_at: Some("2024-01-01T00:00:00Z".to_string()),
        email_updated_by: None,
        email_updated_by_device_id: Some(DEVICE.to_string()),
        password_hash: "hash".to_string(),
        name: "Ann".to_string(),
        name_updated_at: Some("2024-01-01T00:00:00Z".to_string()),
        name_updated_by: None,
        name_updated_by_device_id: None,
        role: "field_tl".to_string(),
        role_updated_at: None,
        role_updated_by: None,
        role_updated_by_device_id: None,
        last_login: None,
        active: 1,
        active_updated_at: None,
        active_updated_by: None,
        active_updated_by_device_id: None,
        created_at: "2024-01-01T00:00:00Z".to_string(),
        updated_at: "2024-01-02T00:00:00Z".to_string(),
        created_by_user_id: None,
        created_by_device_id: None,
        updated_by_user_id: None,
        updated_by_device_id: None,
        deleted_at: None,
        deleted_by_user_id: None,
        deleted_by_device_id: None,
    }
}

fn user() -> User {
    user_row().into_entity().unwrap()
}

fn update_by(by: u128) -> UpdateUser {
    UpdateUser::none_by(by)
}

fn validation(e: DomainError) -> ValidationError {
    match e {
        DomainError::Validation(v) => v,
        other => panic!("unexpected {:?}", other),
    }
}

#[test]
fn roles_round_trip_through_their_names() {
    for r in [UserRole::Admin, UserRole::FieldTl, UserRole::Field] {
        assert_eq!(UserRole::from_str(r.as_str()), Some(r));
    }
    assert_eq!(UserRole::FieldTl.as_str(), "field_tl");
    assert_eq!(UserRole::from_str("Admin"), None);
}

#[test]
fn stored_users_are_read() {
    let u = user();
    assert_eq!(u.id, ID_VALUE);
    assert_eq!(u.role, UserRole::FieldTl);
    assert!(u.active && u.is_active() && !u.is_deleted() && !u.is_admin());
    assert_eq!(u.email_updated_by_device_id, Some(DEVICE_VALUE));
    assert_eq!(u.updated_at, at("2024-01-02T00:00:00Z"));

    let mut row = user_row();
    row.role = "boss".to_string();
    match row.into_entity().unwrap_err() {
        DomainError::Internal(m) => assert_eq!(m, "Invalid role: boss"),
        other => panic!("unexpected {:?}", other),
    }
    let mut row = user_row();
    row.id = "u1".to_string();
    assert!(matches!(row.into_entity(), Err(DomainError::InvalidUuid(t)) if t == "u1"));
    let mut row = user_row();
    row.name_updated_by_device_id = Some("dev".to_string());
    match validation(row.into_entity().unwrap_err()) {
        ValidationError::Format { field, reason } => {
            assert_eq!(field, "name_updated_by_device_id");
            assert_eq!(reason, "Invalid UUID format for name_updated_by_device_id: dev");
        }
        other => panic!("unexpected {:?}", other),
    }
    let mut row = user_row();
    row.created_at = "then".to_string();
    assert!(matches!(row.into_entity(), Err(DomainError::Internal(m)) if m == "Invalid date format: then"));
    let mut row = user_row();
    row.active = 0;
    row.deleted_at = Some("2024-02-02T00:00:00Z".to_string());
    let u = row.into_entity().unwrap();
    assert!(!u.is_active() && u.is_deleted());
}

#[test]
fn public_view_hides_the_hash() {
    let mut u = user();
    u.last_login = Some(at("2024-03-01T08:00:00Z"));
    let r = UserResponse::from(u);
    assert_eq!(r.role, "field_tl");
    assert_eq!(r.last_login.as_deref(), Some("2024-03-01T08:00:00+00:00"));
    assert_eq!(r.created_at, "2024-01-01T00:00:00+00:00");
}

#[test]
fn new_user_rules() {
    let good = NewUser {
        email: "bob@example.com".to_string(),
        password: "secret99".to_string(),
        name: "Bob".to_string(),
        role: "field".to_string(),
        active: true,
        created_by_user_id: None,
    };
    assert!(good.validate().is_ok());
    let mut bad = good.clone();
    bad.email = String::new();
    assert!(matches!(validation(bad.validate().unwrap_err()), ValidationError::Required { field } if field == "email"));
    let mut bad = good.clone();
    bad.email = "bob@".to_string();
    assert!(matches!(validation(bad.validate().unwrap_err()),
        ValidationError::Format { field, reason } if field == "email" && reason == "Invalid email format"));
    let mut bad = good.clone();
    bad.password = "short".to_string();
    assert!(matches!(validation(bad.validate().unwrap_err()), ValidationError::MinLength { field, min: 8 } if field == "password"));
    let mut bad = good.clone();
    bad.name = "x".repeat(51);
    assert!(matches!(validation(bad.validate().unwrap_err()), ValidationError::MaxLength { field, max: 50 } if field == "name"));
    let mut bad = good.clone();
    bad.role = "chief".to_string();
    assert!(matches!(validation(bad.validate().unwrap_err()),
        ValidationError::InvalidValue { field, reason } if field == "role" && reason == "Invalid role"));
}

#[test]
fn update_and_login_rules() {
    let mut u = update_by(1);
    assert!(u.is_empty_update() && u.validate().is_ok());
    u.active = Some(false);
    assert!(!u.is_empty_update());
    u.name = Some("Z".to_string());
    assert!(matches!(validation(u.validate().unwrap_err()), ValidationError::MinLength { field, min: 2 } if field == "name"));
    let c = Credentials { email: "a@b.c".to_string(), password: String::new() };
    assert!(matches!(validation(c.validate().unwrap_err()), ValidationError::Required { field } if field == "password"));
    let c = Credentials { email: "a@b.c".to_string(), password: "pw".to_string() };
    assert!(c.validate().is_ok());
}

#[test]
fn service_permission_rules() {
    assert!(update_needs_manage_permission(1, 2));
    assert!(!update_needs_manage_permission(2, 2));
    let mut own = update_by(2);
    own.name = Some("Me".to_string());
    assert!(check_own_account_update(&own).is_ok());
    own.role = Some("admin".to_string());
    assert!(matches!(check_own_account_update(&own),
        Err(ServiceError::PermissionDenied(m)) if m == "Cannot change role or active status for your own account"));
    assert!(check_not_own_account(1, 2).is_ok());
    assert!(matches!(check_not_own_account(2, 2),
        Err(ServiceError::Domain(DomainError::Validation(ValidationError::Custom(m)))) if m == "Cannot delete your own user account"));
    assert!(check_new_password("12345678").is_ok());
    assert!(matches!(check_new_password("1234567"),
        Err(ServiceError::Domain(DomainError::Validation(ValidationError::MinLength { min: 8, .. })))));
}

#[test]
fn user_deletions_are_settled() {
    assert!(settle_user_deletion(Ok(DeleteResult::HardDeleted)).is_ok());
    assert!(matches!(settle_user_deletion(Ok(DeleteResult::SoftDeleted { dependencies: vec!["projects".to_string()] })),
        Err(ServiceError::DependenciesPreventDeletion(d)) if d == vec!["projects".to_string()]));
    assert!(matches!(settle_user_deletion(Err(DomainError::EntityNotFound("users".to_string(), 9))),
        Err(ServiceError::Domain(DomainError::EntityNotFound(t, 9))) if t == "User"));
    assert!(matches!(settle_user_deletion(Err(DomainError::Internal("x".to_string()))),
        Err(ServiceError::Domain(DomainError::Internal(m))) if m == "x"));
}

#[test]
fn default_accounts_are_planned() {
    let accounts = default_accounts();
    assert_eq!(accounts.len(), 3);
    assert_eq!(accounts[0].email, "admin@example.com");
    assert_eq!(accounts[1].role, "field_tl");
    assert_eq!(accounts[2].name, "Field Officer");
    assert!(accounts.iter().all(|a| a.active && a.created_by_user_id.is_none() && a.validate().is_ok()));
    assert_eq!(default_account_needed(Ok(())).unwrap(), false);
    assert_eq!(default_account_needed(Err(DomainError::EntityNotFound("users".to_string(), 0))).unwrap(), true);
    assert!(default_account_needed(Err(DomainError::Internal("db".to_string()))).is_err());
}

#[test]
fn user_updates_write_only_changed_fields() {
    let now = at("2024-06-01T00:00:00Z");
    let mut u = update_by(3);
    u.email = Some("ann@example.com".to_string());
    u.name = Some("Annie".to_string());
    u.active = Some(false);
    let plan = plan_user_update(ID_VALUE, Some(user()), &u, now, 3, DEVICE).unwrap();
    assert!(plan.touch_record);
    assert_eq!(plan.writes.len(), 2);
    assert_eq!(plan.writes[0].field, UserField::Name);
    assert!(matches!(&plan.writes[0].value, FieldValue::Text(v) if v == "Annie"));
    assert_eq!(plan.writes[0].log.old_value.as_deref(), Some("\"Ann\""));
    assert_eq!(plan.writes[0].log.new_value.as_deref(), Some("\"Annie\""));
    assert_eq!(plan.writes[0].log.device_id, Some(DEVICE_VALUE));
    assert_eq!(plan.writes[0].log.timestamp, now);
    assert_eq!(plan.writes[1].field, UserField::Active);
    assert_eq!(plan.writes[1].log.old_value.as_deref(), Some("true"));
    assert_eq!(plan.writes[1].log.new_value.as_deref(), Some("false"));
    assert_eq!(UserField::PasswordHash.column_name(), "password_hash");

    let plan = plan_user_update(ID_VALUE, Some(user()), &update_by(3), now, 3, DEVICE).unwrap();
    assert!(plan.writes.is_empty() && !plan.touch_record);
    assert!(matches!(plan_user_update(ID_VALUE, None, &update_by(3), now, 3, DEVICE),
        Err(DomainError::EntityNotFound(t, id)) if t == "users" && id == ID_VALUE));
    let mut bad = update_by(3);
    bad.role = Some("chief".to_string());
    assert!(matches!(plan_user_update(ID_VALUE, Some(user()), &bad, now, 3, DEVICE),
        Err(DomainError::Validation(ValidationError::InvalidValue { .. }))));
}

#[test]
fn user_creation_is_planned() {
    let now = at("2024-06-01T00:00:00Z");
    let data = NewUser {
        email: "cy@example.com".to_string(),
        password: "hashed-pw".to_string(),
        name: "Cy".to_string(),
        role: "admin".to_string(),
        active: true,
        created_by_user_id: Some(0),
    };
    let plan = plan_user_create(data.clone(), now, Some(7), DEVICE).unwrap();
    assert_eq!(plan.user.role, UserRole::Admin);
    assert_eq!(plan.user.created_by_user_id, Some(7), "a nil creator gives way to the acting user");
    assert_eq!(plan.user.email_updated_by_device_id, Some(DEVICE_VALUE));
    assert_eq!(plan.state.id, plan.user.id);
    assert_eq!(plan.state.role, "admin");
    assert_eq!(plan.log.entity_id, plan.user.id);
    assert_eq!(plan.log.operation_type, ChangeOperationType::Create);
    assert_eq!(plan.log.user_id, 7);
    let mut named = data.clone();
    named.created_by_user_id = Some(5);
    assert_eq!(plan_user_create(named, now, Some(7), "pc").unwrap().user.created_by_user_id, Some(5));
    let plan = plan_user_create(data.clone(), now, None, "pc").unwrap();
    assert_eq!((plan.log.user_id, plan.log.device_id), (0, None));
    let mut bad = data;
    bad.email = "nobody".to_string();
    assert!(plan_user_create(bad, now, None, DEVICE).is_err());
}

fn user_change(op: ChangeOperationType, field: Option<&str>, value: Option<&str>, when: &str) -> ChangeLogEntry {
    ChangeLogEntry {
        operation_id: 1,
        entity_table: "users".to_string(),
        entity_id: ID_VALUE,
        operation_type: op,
        field_name: field.map(|f| f.to_string()),
        old_value: None,
        new_value: value.map(|v| v.to_string()),
        document_metadata: None,
        timestamp: at(when),
        user_id: 2,
        device_id: Some(DEVICE_VALUE),
        sync_batch_id: None,
        processed_at: None,
        sync_error: None,
    }
}

fn full_state(updated: &str) -> UserFullState {
    let u = user();
    UserFullState {
        id: u.id,
        email: u.email,
        email_updated_at: u.email_updated_at,
        email_updated_by: u.email_updated_by,
        email_updated_by_device_id: u.email_updated_by_device_id,
        password_hash: u.password_hash,
        name: "Remote".to_string(),
        name_updated_at: u.name_updated_at,
        name_updated_by: u.name_updated_by,
        name_updated_by_device_id: u.name_updated_by_device_id,
        role: "field".to_string(),
        role_updated_at: None,
        role_updated_by: None,
        role_updated_by_device_id: None,
        active: true,
        active_updated_at: None,
        active_updated_by: None,
        active_updated_by_device_id: None,
        last_login: None,
        created_at: u.created_at,
        updated_at: at(updated),
        created_by_user_id: None,
        created_by_device_id: None,
        updated_by_user_id: None,
        updated_by_device_id: None,
    }
}

#[test]
fn field_changes_merge_last_write_wins() {
    let newer = user_change(ChangeOperationType::Update, Some("name"), Some("\"Anna\""), "2024-02-01T00:00:00Z");
    match plan_user_merge(&newer, Some(user()), None).unwrap() {
        (UserMergeAction::SetName(v), MergeOutcome::Updated(id)) => {
            assert_eq!(v, "Anna");
            assert_eq!(id, ID_VALUE);
        }
        other => panic!("unexpected {:?}", other),
    }
    let stale = user_change(ChangeOperationType::Update, Some("name"), Some("\"Old\""), "2024-01-01T00:00:00Z");
    match plan_user_merge(&stale, Some(user()), None).unwrap() {
        (UserMergeAction::Nothing, MergeOutcome::NoOp(m)) => assert_eq!(m, "Local field 'name' is newer"),
        other => panic!("unexpected {:?}", other),
    }
    let mut merged = user();
    merged.name_updated_at = Some(newer.timestamp);
    assert!(matches!(plan_user_merge(&newer, Some(merged), None).unwrap().0, UserMergeAction::Nothing),
        "merging the same change twice keeps the field");
    let raw = user_change(ChangeOperationType::Update, Some("role"), Some("admin"), "2024-02-01T00:00:00Z");
    assert!(matches!(plan_user_merge(&raw, Some(user()), None).unwrap().0, UserMergeAction::SetRole(v) if v == "admin"));
    let flag = user_change(ChangeOperationType::Update, Some("active"), Some("FALSE"), "2024-02-01T00:00:00Z");
    assert!(matches!(plan_user_merge(&flag, Some(user()), None).unwrap().0, UserMergeAction::SetActive(false)));
    let bad = user_change(ChangeOperationType::Update, Some("active"), Some("maybe"), "2024-02-01T00:00:00Z");
    assert!(matches!(validation(plan_user_merge(&bad, Some(user()), None).unwrap_err()),
        ValidationError::Format { field, reason } if field == "active" && reason == "Invalid boolean value for active: maybe"));
    let bad = user_change(ChangeOperationType::Update, Some("email"), Some("\"oops"), "2024-02-01T00:00:00Z");
    assert!(matches!(plan_user_merge(&bad, Some(user()), None).unwrap().0, UserMergeAction::SetEmail(v) if v == "\"oops"));
    let bad = user_change(ChangeOperationType::Update, Some("email"), Some("\"a\\q\""), "2024-02-01T00:00:00Z");
    assert!(matches!(validation(plan_user_merge(&bad, Some(user()), None).unwrap_err()),
        ValidationError::Format { field, reason } if field == "email" && reason == "Invalid JSON string format for email: \"a\\q\""));
    let unknown = user_change(ChangeOperationType::Update, Some("shoe_size"), Some("42"), "2024-02-01T00:00:00Z");
    assert!(matches!(plan_user_merge(&unknown, Some(user()), None).unwrap().1, MergeOutcome::NoOp(m) if m == "Unhandled field: shoe_size"));
    assert!(matches!(plan_user_merge(&newer, None, None).unwrap().1,
        MergeOutcome::NoOp(m) if m == format!("Remote UPDATE for non-existent local user ID {}.", ID)));
}

#[test]
fn whole_user_changes_merge_by_record_stamp() {
    let create = user_change(ChangeOperationType::Create, None, Some("{}"), "2024-02-01T00:00:00Z");
    assert!(matches!(plan_user_merge(&create, None, Some(Ok(full_state("2024-01-01T00:00:00Z")))).unwrap(),
        (UserMergeAction::Insert(_), MergeOutcome::Created(_))));
    assert!(matches!(plan_user_merge(&create, Some(user()), Some(Ok(full_state("2024-03-01T00:00:00Z")))).unwrap(),
        (UserMergeAction::Overwrite(s), MergeOutcome::Updated(_)) if s.name == "Remote"));
    assert!(matches!(plan_user_merge(&create, Some(user()), Some(Ok(full_state("2024-01-02T00:00:00Z")))).unwrap(),
        (UserMergeAction::Nothing, MergeOutcome::NoOp(m)) if m == format!("Local user {} is newer or same", ID)));
    assert!(matches!(validation(plan_user_merge(&create, None, Some(Err("eof".to_string()))).unwrap_err()),
        ValidationError::Format { field, reason } if field == "new_value_user_create" && reason == "Invalid JSON: eof"));
    let no_value = user_change(ChangeOperationType::Create, None, None, "2024-02-01T00:00:00Z");
    assert!(matches!(validation(plan_user_merge(&no_value, None, None).unwrap_err()),
        ValidationError::Custom(m) if m == "Missing new_value for create operation"));
    let full = user_change(ChangeOperationType::Update, None, Some("{}"), "2024-02-01T00:00:00Z");
    assert!(matches!(plan_user_merge(&full, Some(user()), Some(Ok(full_state("2024-01-02T00:00:00Z")))).unwrap(),
        (UserMergeAction::Nothing, MergeOutcome::NoOp(m)) if m == "Local version is newer"));
}

#[test]
fn deletions_and_foreign_tables() {
    let soft = user_change(ChangeOperationType::Delete, None, None, "2024-02-01T00:00:00Z");
    assert!(matches!(plan_user_merge(&soft, Some(user()), None).unwrap(),
        (UserMergeAction::Nothing, MergeOutcome::NoOp(m)) if m == "Soft deletes are local-only"));
    let hard = user_change(ChangeOperationType::HardDelete, None, None, "2024-02-01T00:00:00Z");
    assert!(matches!(plan_user_merge(&hard, Some(user()), None).unwrap(), (UserMergeAction::Remove, MergeOutcome::HardDeleted(_))));
    assert!(matches!(plan_user_merge(&hard, None, None).unwrap().1,
        MergeOutcome::NoOp(m) if m == format!("User {} already deleted", ID)));
    let mut other = user_change(ChangeOperationType::Delete, None, None, "2024-02-01T00:00:00Z");
    other.entity_table = "donors".to_string();
    assert!(matches!(plan_user_merge(&other, None, None),
        Err(DomainError::Internal(m)) if m == "UserRepository received change for incorrect table: donors"));
}

#[test]
fn merged_fields_take_the_change_stamp() {
    let c = user_change(ChangeOperationType::Update, Some("name"), Some("\"Neo\""), "2030-01-01T00:00:00Z");
    let u = merged_user(user(), UserMergeAction::SetName("Neo".to_string()), &c).unwrap();
    assert_eq!(u.name, "Neo");
    assert_eq!(u.name_updated_at.unwrap().to_rfc3339(), "2030-01-01T00:00:00+00:00");
    assert_eq!((u.name_updated_by, u.name_updated_by_device_id), (Some(2), Some(DEVICE_VALUE)));
    assert_eq!(u.updated_at.to_rfc3339(), "2030-01-01T00:00:00+00:00");
    let a = merged_user(user(), UserMergeAction::SetActive(false), &c).unwrap();
    assert!(!a.active);
    assert_eq!(a.active_updated_by, Some(2));
    let r = merged_user(user(), UserMergeAction::SetRole("admin".to_string()), &c).unwrap();
    assert_eq!(r.role, UserRole::Admin);
    assert!(merged_user(user(), UserMergeAction::SetRole("chief".to_string()), &c).is_none());
    assert!(merged_user(user(), UserMergeAction::Nothing, &c).is_none());
}

#[test]
fn skipped_merges_say_why() {
    let missing = user_change(ChangeOperationType::Update, Some("name"), Some("\"X\""), "2030-01-01T00:00:00Z");
    match plan_user_merge(&missing, None, None).unwrap().1 {
        MergeOutcome::NoOp(m) => assert!(m.starts_with("Remote UPDATE for non-existent local user ID ")),
        other => panic!("unexpected {:?}", other),
    }
    let unknown = user_change(ChangeOperationType::Update, Some("nickname"), Some("\"X\""), "2030-01-01T00:00:00Z");
    match plan_user_merge(&unknown, Some(user()), None).unwrap().1 {
        MergeOutcome::NoOp(m) => assert_eq!(m, "Unhandled field: nickname"),
        other => panic!("unexpected {:?}", other),
    }
    let gone = user_change(ChangeOperationType::HardDelete, None, None, "2030-01-01T00:00:00Z");
    match plan_user_merge(&gone, None, None).unwrap().1 {
        MergeOutcome::NoOp(m) => assert!(m.starts_with("User ") && m.ends_with(" already deleted")),
        other => panic!("unexpected {:?}", other),
    }
}
