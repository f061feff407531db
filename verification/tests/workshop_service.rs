use fieldsync::clock::Timestamp;
use fieldsync::errors::{DomainError, ServiceError, ValidationError};
use fieldsync::sync_records::ChangeLogEntry;
use fieldsync::sync_types::ChangeOperationType;
use fieldsync::user_service::DeleteResult;
use fieldsync::user_sync::change_needs_state;
use fieldsync::workshop::{change_carries_state, read_workshop_summaries, ProjectSummary, WorkshopInclude, WorkshopSummaryRow};
use fieldsync::workshop_service::{
    check_date_range, check_link_targets, check_project_reference, deletion_denied, removal_needed,
    settle_project_lookup, settle_workshop_deletion, wants_section,
};

const P_VALUE: u128 = 0x6ba7b810_9dad_11d1_80b4_00c04fd430c8;

fn custom(r: ServiceError) -> String {
    match r {
        ServiceError::Domain(DomainError::Validation(ValidationError::Custom(m))) => m,
        other => panic!("unexpected {:?}", other),
    }
}

#[test]
fn date_ranges_are_read_and_ordered() {
    let (s, e) = check_date_range("2024-01-01T00:00:00Z", "2024-02-01T00:00:00Z").unwrap();
    assert_eq!(s.to_rfc3339(), "2024-01-01T00:00:00+00:00");
    assert_eq!(e.to_rfc3339(), "2024-02-01T00:00:00+00:00");
    assert!(check_date_range("2024-01-01T00:00:00Z", "2024-01-01T00:00:00Z").is_ok());
    assert_eq!(
        custom(check_date_range("2024-03-01T00:00:00Z", "2024-02-01T00:00:00Z").unwrap_err()),
        "Start date cannot be after end date"
    );
    assert!(custom(check_date_range("yesterday", "2024-02-01T00:00:00Z").unwrap_err())
        .starts_with("Invalid start date format: "));
    assert!(custom(check_date_range("2024-02-01T00:00:00Z", "tomorrow").unwrap_err())
        .starts_with("Invalid end date format: "));
}

#[test]
fn requested_sections_include_all() {
    let some = Some(vec![WorkshopInclude::Project]);
    assert!(wants_section(&some, WorkshopInclude::Project));
    assert!(!wants_section(&some, WorkshopInclude::Participants));
    let all = Some(vec![WorkshopInclude::Documents, WorkshopInclude::All]);
    assert!(wants_section(&all, WorkshopInclude::Participants));
    assert!(!wants_section(&None, WorkshopInclude::Project));
    assert!(!wants_section(&Some(vec![]), WorkshopInclude::Project));
}

#[test]
fn missing_projects_show_as_none() {
    let p = ProjectSummary { id: P_VALUE, name: "Water".to_string() };
    assert_eq!(settle_project_lookup(Ok(p)).unwrap().unwrap().name, "Water");
    assert!(settle_project_lookup(Err(DomainError::EntityNotFound("Project".to_string(), P_VALUE)))
        .unwrap()
        .is_none());
    assert!(matches!(
        settle_project_lookup(Err(DomainError::Internal("boom".to_string()))),
        Err(ServiceError::Domain(DomainError::Internal(m))) if m == "boom"
    ));
}

#[test]
fn missing_project_reference_breaks_relationship() {
    assert!(check_project_reference(Ok(()), P_VALUE).is_ok());
    match check_project_reference(Err(DomainError::EntityNotFound("Project".to_string(), P_VALUE)), P_VALUE) {
        Err(ServiceError::Domain(DomainError::Validation(ValidationError::Relationship(m)))) => {
            assert_eq!(m, "Project with ID 6ba7b810-9dad-11d1-80b4-00c04fd430c8 not found")
        }
        other => panic!("unexpected {:?}", other),
    }
    assert!(matches!(
        check_project_reference(Err(DomainError::Internal("x".to_string())), P_VALUE),
        Err(ServiceError::Domain(DomainError::Internal(_)))
    ));
}

#[test]
fn link_targets_must_exist() {
    assert!(check_link_targets(Ok(()), 1, 7, 9).is_ok());
    assert!(matches!(
        check_link_targets(Ok(()), 0, 7, 9),
        Err(ServiceError::Domain(DomainError::EntityNotFound(t, 9))) if t == "Participant"
    ));
    assert!(matches!(
        check_link_targets(Err(DomainError::EntityNotFound("workshops".to_string(), 7)), 1, 7, 9),
        Err(ServiceError::Domain(DomainError::EntityNotFound(t, 7))) if t == "Workshop"
    ));
    assert!(matches!(
        check_link_targets(Err(DomainError::Internal("x".to_string())), 1, 7, 9),
        Err(ServiceError::Domain(DomainError::Internal(_)))
    ));
}

#[test]
fn removal_from_a_missing_workshop_is_not_needed() {
    assert_eq!(removal_needed(Ok(())).unwrap(), true);
    assert_eq!(removal_needed(Err(DomainError::EntityNotFound("Workshop".to_string(), 7))).unwrap(), false);
    assert!(removal_needed(Err(DomainError::Internal("x".to_string()))).is_err());
}

#[test]
fn refused_deletions_name_the_operation() {
    match deletion_denied(true, "workshops") {
        ServiceError::PermissionDenied(m) => assert_eq!(m, "User does not have permission to hard delete workshops"),
        other => panic!("unexpected {:?}", other),
    }
    match deletion_denied(false, "workshops") {
        ServiceError::PermissionDenied(m) => assert_eq!(m, "User does not have permission to delete workshops"),
        other => panic!("unexpected {:?}", other),
    }
}

#[test]
fn prevented_deletions_are_errors() {
    let prevented = DeleteResult::DependenciesPrevented { dependencies: vec!["documents".to_string()] };
    match settle_workshop_deletion(prevented) {
        Err(ServiceError::DependenciesPreventDeletion(d)) => assert_eq!(d, vec!["documents".to_string()]),
        other => panic!("unexpected {:?}", other),
    }
    assert!(matches!(settle_workshop_deletion(DeleteResult::HardDeleted), Ok(DeleteResult::HardDeleted)));
    assert!(matches!(
        settle_workshop_deletion(DeleteResult::SoftDeleted { dependencies: vec![] }),
        Ok(DeleteResult::SoftDeleted { .. })
    ));
}

fn change(op: ChangeOperationType, field: Option<&str>, value: Option<&str>, user: u128) -> ChangeLogEntry {
    ChangeLogEntry {
        operation_id: 1,
        entity_table: "workshops".to_string(),
        entity_id: 2,
        operation_type: op,
        field_name: field.map(|f| f.to_string()),
        old_value: None,
        new_value: value.map(|v| v.to_string()),
        document_metadata: None,
        timestamp: Timestamp::parse_rfc3339("2024-05-01T10:00:00Z").unwrap(),
        user_id: user,
        device_id: None,
        sync_batch_id: None,
        processed_at: None,
        sync_error: None,
    }
}

#[test]
fn changes_that_carry_whole_states() {
    assert!(change_needs_state(&change(ChangeOperationType::Create, None, Some("{}"), 1)));
    assert!(change_needs_state(&change(ChangeOperationType::Update, None, Some("{}"), 1)));
    assert!(!change_needs_state(&change(ChangeOperationType::Update, Some("name"), Some("\"A\""), 1)));
    assert!(!change_needs_state(&change(ChangeOperationType::Create, None, None, 1)));
    assert!(!change_needs_state(&change(ChangeOperationType::HardDelete, None, Some("{}"), 1)));
    assert!(change_carries_state(&change(ChangeOperationType::Update, Some("name"), Some("{}"), 1)));
    assert!(!change_carries_state(&change(ChangeOperationType::Update, None, None, 1)));
    assert!(!change_carries_state(&change(ChangeOperationType::Delete, None, Some("{}"), 1)));
}

#[test]
fn system_entries_store_no_user() {
    assert_eq!(change(ChangeOperationType::Create, None, None, 0).stored_user_id(), None);
    assert_eq!(change(ChangeOperationType::Create, None, None, 5).stored_user_id(), Some(5));
}

fn summary_row(id: &str) -> WorkshopSummaryRow {
    WorkshopSummaryRow {
        id: id.to_string(),
        purpose: Some("Training".to_string()),
        event_date: Some("2024-03-01".to_string()),
        location: None,
        participant_count: 12,
    }
}

#[test]
fn workshop_summary_rows_are_read() {
    let read = read_workshop_summaries(vec![summary_row("6ba7b810-9dad-11d1-80b4-00c04fd430c8")]).unwrap();
    assert_eq!(read[0].id, P_VALUE);
    assert_eq!(read[0].participant_count, 12);
    assert_eq!(read[0].purpose.as_deref(), Some("Training"));
    match read_workshop_summaries(vec![summary_row("6ba7b810-9dad-11d1-80b4-00c04fd430c8"), summary_row("w9")]) {
        Err(DomainError::Internal(m)) => assert_eq!(m, "Invalid UUID format: w9"),
        other => panic!("unexpected {:?}", other.map(|v| v.len())),
    }
}
