use fieldsync::clock::Timestamp;
use fieldsync::entity_merger::{
    rollback_failure, route_change, BaseDomainMerger, BatchApplication, ChangeRoute, ChangeStep, DeletionReport, MergerKind,
    MergerRegistry, ProjectEntityMerger, ProjectStep, SoftDeleteStep,
};
use fieldsync::errors::{DomainError, ValidationError};
use fieldsync::sync_records::{ChangeLogEntry, MergeOutcome};
use fieldsync::sync_types::ChangeOperationType;

const DEVICE: &str = "550e8400-e29b-41d4-a716-446655440000";
const DEVICE_VALUE: u128 = 0x550e8400_e29b_41d4_a716_446655440000;
const OTHER: &str = "6ba7b810-9dad-11d1-80b4-00c04fd430c8";

fn change(field: Option<&str>, new_value: Option<&str>, device: Option<u128>) -> ChangeLogEntry {
    ChangeLogEntry {
        operation_id: 1,
        entity_table: "projects".to_string(),
        entity_id: 77,
        operation_type: ChangeOperationType::Update,
        field_name: field.map(|f| f.to_string()),
        old_value: None,
        new_value: new_value.map(|v| v.to_string()),
        document_metadata: None,
        timestamp: Timestamp::parse_rfc3339("2024-05-01T10:00:00Z").unwrap(),
        user_id: 5,
        device_id: device,
        sync_batch_id: None,
        processed_at: None,
        sync_error: None,
    }
}

fn internal(e: DomainError) -> String {
    match e {
        DomainError::Internal(m) => m,
        other => panic!("unexpected {:?}", other),
    }
}

#[test]
fn json_values_of_fields_are_read() {
    assert_eq!(BaseDomainMerger::parse_json_string(&Some("\"abc\"".to_string()), "name").unwrap(), Some("abc".to_string()));
    assert_eq!(BaseDomainMerger::parse_json_string(&None, "name").unwrap(), None);
    assert_eq!(BaseDomainMerger::parse_json_int(&Some("42".to_string()), "status_id").unwrap(), Some(42));
    match BaseDomainMerger::parse_json_int(&Some("\"x\"".to_string()), "status_id").unwrap_err() {
        DomainError::Validation(ValidationError::Format { field, reason }) => {
            assert_eq!(field, "status_id");
            assert!(reason.starts_with("Invalid JSON for field 'status_id': "));
            assert!(reason.len() > "Invalid JSON for field 'status_id': ".len());
        }
        other => panic!("unexpected {:?}", other),
    }
    match BaseDomainMerger::json_error("f", "bad") {
        DomainError::Validation(ValidationError::Format { field, reason }) => {
            assert_eq!((field.as_str(), reason.as_str()), ("f", "Invalid JSON for field 'f': bad"));
        }
        other => panic!("unexpected {:?}", other),
    }
}

#[test]
fn local_changes_are_recognised() {
    let c = change(None, None, Some(DEVICE_VALUE));
    assert!(BaseDomainMerger::is_local_change(&c, DEVICE));
    assert!(!BaseDomainMerger::is_local_change(&c, OTHER));
    assert!(!BaseDomainMerger::is_local_change(&c, "not-a-uuid"));
    assert!(!BaseDomainMerger::is_local_change(&change(None, None, None), DEVICE));
    assert_eq!(BaseDomainMerger::get_entity_id(&c).unwrap(), 77);
}

#[test]
fn changes_are_routed_and_hard_deletes_refused() {
    assert_eq!(route_change(ChangeOperationType::Create, false).unwrap(), ChangeRoute::Create);
    assert_eq!(route_change(ChangeOperationType::Update, true).unwrap(), ChangeRoute::Update);
    assert_eq!(route_change(ChangeOperationType::Delete, false).unwrap(), ChangeRoute::SoftDelete);
    assert_eq!(
        internal(route_change(ChangeOperationType::HardDelete, false).unwrap_err()),
        "Hard delete via ChangeLogEntry in apply_change is not standard; use apply_tombstone."
    );
    assert_eq!(
        internal(route_change(ChangeOperationType::HardDelete, true).unwrap_err()),
        "Hard delete via ChangeLogEntry in apply_change_with_tx is not standard; use apply_tombstone."
    );
}

#[test]
fn registered_mergers_are_found_again() {
    let mut reg = MergerRegistry::new();
    assert_eq!(internal(reg.lookup("projects", false).unwrap_err()), "No merger registered for entity type: projects");
    assert_eq!(reg.register("projects"), 0);
    assert_eq!(reg.register("users"), 1);
    assert_eq!(reg.register("projects"), 0);
    assert_eq!(reg.register("donors"), 2);
    assert_eq!(reg.lookup("projects", false).unwrap(), 0);
    assert_eq!(reg.position("users"), Some(1));
    assert_eq!(reg.position("user"), None);
    assert_eq!(
        internal(reg.lookup("workshops", true).unwrap_err()),
        "No merger registered for entity type: workshops (within tx)"
    );
}

#[test]
fn batch_stops_at_first_failure() {
    let mut b = BatchApplication::new();
    assert!(b.should_apply());
    b.record(1, Ok(()));
    b.record(2, Ok(()));
    assert_eq!(b.finish().unwrap(), vec![1, 2]);

    let mut b = BatchApplication::new();
    b.record(1, Ok(()));
    b.record(2, Err(DomainError::Internal("boom".to_string())));
    assert!(!b.should_apply());
    b.record(3, Ok(()));
    b.record(4, Err(DomainError::Internal("later".to_string())));
    assert_eq!(internal(b.finish().unwrap_err()), "boom");
}

#[test]
fn mergers_decide_per_table() {
    assert_eq!(MergerKind::Funding.entity_table(), "project_funding");
    assert_eq!(MergerKind::Document.entity_table(), "media_documents");
    assert_eq!(MergerKind::User.on_change(false), ChangeStep::Merge);
    assert_eq!(MergerKind::User.on_change(true), ChangeStep::Skip);
    assert_eq!(MergerKind::DocumentType.on_change(false), ChangeStep::Skip);
    assert_eq!(MergerKind::Project.on_soft_delete(false), SoftDeleteStep::Apply);
    assert_eq!(MergerKind::Project.on_soft_delete(true), SoftDeleteStep::Ignore);
    assert_eq!(MergerKind::Donor.on_soft_delete(false), SoftDeleteStep::Ignore);
}

#[test]
fn hard_deleted_merge_outcomes_are_refused_by_guarding_mergers() {
    let gone = MergeOutcome::HardDeleted(DEVICE_VALUE);
    assert_eq!(
        internal(MergerKind::Donor.after_merge(true, &gone).unwrap_err()),
        format!("CREATE operation resulted in HardDeleted for donor {}", DEVICE)
    );
    assert_eq!(
        internal(MergerKind::Funding.after_merge(false, &gone).unwrap_err()),
        format!("UPDATE operation resulted in HardDeleted for funding {}", DEVICE)
    );
    assert!(MergerKind::User.after_merge(true, &gone).is_ok());
    assert!(MergerKind::Donor.after_merge(true, &MergeOutcome::Created(3)).is_ok());
}

#[test]
fn tombstones_must_match_the_table() {
    assert!(MergerKind::Project.check_tombstone("anything").is_ok());
    assert!(MergerKind::User.check_tombstone("users").is_ok());
    assert_eq!(
        internal(MergerKind::User.check_tombstone("donors").unwrap_err()),
        "Tombstone entity type mismatch: expected users, got donors"
    );
    assert_eq!(
        internal(MergerKind::Donor.check_tombstone("users").unwrap_err()),
        "Tombstone entity type mismatch: expected 'donors', got 'users'"
    );
    assert_eq!(
        internal(MergerKind::DocumentType.check_tombstone("users").unwrap_err()),
        "Tombstone entity type mismatch for document_types"
    );
    assert_eq!(
        internal(MergerKind::Livelihood.check_tombstone("users").unwrap_err()),
        "Tombstone entity type mismatch"
    );
}

#[test]
fn hard_deletions_are_settled() {
    assert!(MergerKind::Donor.settle_hard_delete(Ok(DeletionReport::HardDeleted)).is_ok());
    assert_eq!(
        internal(MergerKind::Document.settle_hard_delete(Ok(DeletionReport::Other("soft".to_string()))).unwrap_err()),
        "Unexpected outcome from DeleteService for document hard delete: soft"
    );
    assert!(MergerKind::User.settle_hard_delete(Ok(DeletionReport::Other("soft".to_string()))).is_ok());
    let missing = || DomainError::EntityNotFound("users".to_string(), 4);
    assert!(MergerKind::User.settle_hard_delete(Err(missing())).is_ok());
    assert!(matches!(
        MergerKind::Project.settle_hard_delete(Err(missing())),
        Err(DomainError::EntityNotFound(_, 4))
    ));
    assert_eq!(internal(MergerKind::User.settle_hard_delete(Err(DomainError::Internal("x".to_string()))).unwrap_err()), "x");
}

#[test]
fn project_changes_are_planned() {
    let m = ProjectEntityMerger::new();
    assert_eq!(m.entity_table(), "projects");
    assert!(matches!(m.plan_create(&change(None, Some("{}"), Some(DEVICE_VALUE)), DEVICE), Ok(ProjectStep::Skip)));
    match m.plan_create(&change(None, Some("{\"name\":\"P\"}"), None), DEVICE) {
        Ok(ProjectStep::CreateFrom(j)) => assert_eq!(j, "{\"name\":\"P\"}"),
        other => panic!("unexpected {:?}", other),
    }
    assert_eq!(internal(m.plan_create(&change(None, None, None), DEVICE).unwrap_err()), "Missing new_value for project create");

    match m.plan_update(&change(Some("name"), Some("\"New\""), None), DEVICE) {
        Ok(ProjectStep::Apply(u)) => {
            assert_eq!(u.name.as_deref(), Some("New"));
            assert!(u.status_id.is_none() && u.objective.is_none() && u.strategic_goal_id.is_none());
        }
        other => panic!("unexpected {:?}", other),
    }
    assert_eq!(internal(m.plan_update(&change(Some("name"), None, None), DEVICE).unwrap_err()), "Missing name value for project update");
    match m.plan_update(&change(Some("status_id"), Some("3"), None), DEVICE) {
        Ok(ProjectStep::Apply(u)) => assert_eq!(u.status_id, Some(3)),
        other => panic!("unexpected {:?}", other),
    }
    match m.plan_update(&change(Some("strategic_goal_id"), Some(&format!("\"{}\"", OTHER)), None), DEVICE) {
        Ok(ProjectStep::Apply(u)) => assert_eq!(u.strategic_goal_id, Some(Some(0x6ba7b810_9dad_11d1_80b4_00c04fd430c8))),
        other => panic!("unexpected {:?}", other),
    }
    match m.plan_update(&change(Some("strategic_goal_id"), None, None), DEVICE) {
        Ok(ProjectStep::Apply(u)) => assert_eq!(u.strategic_goal_id, Some(None)),
        other => panic!("unexpected {:?}", other),
    }
    assert_eq!(
        internal(m.plan_update(&change(Some("strategic_goal_id"), Some("\"nope\""), None), DEVICE).unwrap_err()),
        "Invalid UUID for strategic_goal_id"
    );
    assert!(matches!(m.plan_update(&change(Some("colour"), Some("1"), None), DEVICE), Ok(ProjectStep::Skip)));
    match m.plan_update(&change(None, Some("{}"), None), DEVICE) {
        Ok(ProjectStep::ApplyFull(j)) => assert_eq!(j, "{}"),
        other => panic!("unexpected {:?}", other),
    }
    assert_eq!(m.plan_soft_delete(&change(None, None, Some(DEVICE_VALUE)), DEVICE), SoftDeleteStep::Ignore);
    assert_eq!(m.plan_soft_delete(&change(None, None, Some(DEVICE_VALUE)), OTHER), SoftDeleteStep::Apply);
}

#[test]
fn test_entity_merger_registration() {
    let mut reg = MergerRegistry::new();
    let at = reg.register("mock_table");
    assert_eq!(reg.position("mock_table"), Some(at));
    assert_eq!(reg.lookup("mock_table", false).unwrap(), at);
}

#[test]
fn failed_rollbacks_are_reported_with_the_batch_error() {
    let e = rollback_failure(&DomainError::Internal("boom".to_string()), "disk full");
    match e {
        DomainError::Internal(m) => assert_eq!(
            m,
            "Original batch error: Internal error: boom. Also failed to rollback: disk full. Original error details: Internal error: boom"
        ),
        other => panic!("unexpected {:?}", other),
    }
}
