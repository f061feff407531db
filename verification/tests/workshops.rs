use fieldsync::amount::Amount;
use fieldsync::clock::Timestamp;
use fieldsync::errors::{DomainError, ValidationError};
use fieldsync::sync_records::{ChangeLogEntry, MergeOutcome};
use fieldsync::sync_types::{ChangeOperationType, SyncPriority};
use fieldsync::workshop::{
    changed_workshop_columns, column_json, decremented_count, incremented_count, participant_count_log, workshop_change_log, plan_workshop_merge, priority_from_level,
    NewWorkshop, ProjectSummary, UpdateWorkshop, Workshop, WorkshopColumn, WorkshopMergeAction, WorkshopResponse,
    WorkshopRow, WorkshopSummary,
};
use fieldsync::workshop_participant::{
    EvaluationKind, NewWorkshopParticipant, UpdateWorkshopParticipant, WorkshopParticipantRow,
};

const ID: &str = "550e8400-e29b-41d4-a716-446655440000";
const ID_VALUE: u128 = 0x550e8400_e29b_41d4_a716_446655440000;
const PROJECT: &str = "6ba7b810-9dad-11d1-80b4-00c04fd430c8";
const PROJECT_VALUE: u128 = 0x6ba7b810_9dad_11d1_80b4_00c04fd430c8;

fn amount(text: &str) -> Amount {
    Amount::parse(text).unwrap()
}

fn number(a: &Amount) -> f64 {
    a.to_text().parse::<f64>().unwrap()
}

fn workshop_row() -> WorkshopRow {
    WorkshopRow {
        id: ID.to_string(),
        project_id: Some(PROJECT.to_string()),
        purpose: Some("Training".to_string()),
        purpose_updated_at: None,
        purpose_updated_by: None,
        event_date: Some("2000-01-15".to_string()),
        event_date_updated_at: None,
        event_date_updated_by: None,
        location: None,
        location_updated_at: None,
        location_updated_by: None,
        budget: Some("100.00".to_string()),
        budget_updated_at: None,
        budget_updated_by: None,
        actuals: Some("120.00".to_string()),
        actuals_updated_at: None,
        actuals_updated_by: None,
        participant_count: 4,
        participant_count_updated_at: None,
        participant_count_updated_by: None,
        local_partner: None,
        local_partner_updated_at: None,
        local_partner_updated_by: None,
        partner_responsibility: None,
        partner_responsibility_updated_at: None,
        partner_responsibility_updated_by: None,
        partnership_success: None,
        partnership_success_updated_at: None,
        partnership_success_updated_by: None,
        capacity_challenges: None,
        capacity_challenges_updated_at: None,
        capacity_challenges_updated_by: None,
        strengths: None,
        strengths_updated_at: None,
        strengths_updated_by: None,
        outcomes: None,
        outcomes_updated_at: None,
        outcomes_updated_by: None,
        recommendations: None,
        recommendations_updated_at: None,
        recommendations_updated_by: None,
        challenge_resolution: None,
        challenge_resolution_updated_at: None,
        challenge_resolution_updated_by: None,
        created_at: "2024-01-01T00:00:00Z".to_string(),
        updated_at: "2024-01-02T00:00:00Z".to_string(),
        created_by_user_id: None,
        updated_by_user_id: None,
        deleted_at: None,
        deleted_by_user_id: None,
        sync_priority: 5,
    }
}

fn workshop() -> Workshop {
    workshop_row().into_entity().unwrap()
}

fn internal(e: DomainError) -> String {
    match e {
        DomainError::Internal(m) => m,
        other => panic!("unexpected {:?}", other),
    }
}

fn blank_update() -> UpdateWorkshop {
    UpdateWorkshop {
        project_id: None,
        purpose: None,
        event_date: None,
        location: None,
        budget: None,
        actuals: None,
        participant_count: None,
        local_partner: None,
        partner_responsibility: None,
        partnership_success: None,
        capacity_challenges: None,
        strengths: None,
        outcomes: None,
        recommendations: None,
        challenge_resolution: None,
        updated_by_user_id: 1,
    }
}

#[test]
fn levels_map_to_priorities() {
    assert_eq!(priority_from_level(10), SyncPriority::High);
    assert_eq!(priority_from_level(8), SyncPriority::High);
    assert_eq!(priority_from_level(7), SyncPriority::Normal);
    assert_eq!(priority_from_level(5), SyncPriority::Normal);
    assert_eq!(priority_from_level(3), SyncPriority::Low);
    assert_eq!(priority_from_level(2), SyncPriority::Never);
    assert_eq!(priority_from_level(-1), SyncPriority::Never);
}

#[test]
fn stored_workshops_are_read() {
    let w = workshop();
    assert_eq!(w.id, ID_VALUE);
    assert_eq!(w.project_id, Some(PROJECT_VALUE));
    assert_eq!(w.budget.map(|b| (b.mantissa(), b.scale())), Some((10000, 2)));
    assert_eq!(w.participant_count, 4);
    assert_eq!(w.sync_priority, SyncPriority::Normal);
    assert!(!w.is_deleted());

    let mut row = workshop_row();
    row.budget = Some("lots".to_string());
    let m = internal(row.into_entity().unwrap_err());
    assert!(m.starts_with("Invalid Decimal format 'lots' in DB: "), "{}", m);
    let mut row = workshop_row();
    row.id = "w1".to_string();
    let m = internal(row.into_entity().unwrap_err());
    assert!(m.starts_with("Invalid UUID format for Workshop.id 'w1': "), "{}", m);
    let mut row = workshop_row();
    row.updated_at = "later".to_string();
    let m = internal(row.into_entity().unwrap_err());
    assert!(m.starts_with("Invalid RFC3339 format for Workshop.updated_at 'later': "), "{}", m);
    let mut row = workshop_row();
    row.outcomes_updated_by = Some("bob".to_string());
    let m = internal(row.into_entity().unwrap_err());
    assert!(m.starts_with("Invalid UUID format 'bob' in DB: "), "{}", m);
}

#[test]
fn budget_figures() {
    let w = workshop();
    let v = w.budget_variance().unwrap();
    assert_eq!(number(&v), 20.0);
    assert_eq!(number(&w.budget_variance_percentage().unwrap()), 20.0);
    let mut under = workshop();
    under.actuals = Some(amount("75"));
    assert_eq!(number(&under.budget_variance().unwrap()), -25.0);
    assert_eq!(number(&under.budget_variance_percentage().unwrap()), -25.0);
    let mut zero = workshop();
    zero.budget = Some(amount("0"));
    assert_eq!(number(&zero.budget_variance().unwrap()), 120.0);
    assert!(zero.budget_variance_percentage().is_none());
    let mut missing = workshop();
    missing.actuals = None;
    assert!(missing.budget_variance().is_none() && missing.checked_budget_variance().is_none());
    let mut huge = workshop();
    huge.budget = Some(amount("-79228162514264337593543950335"));
    huge.actuals = Some(amount("79228162514264337593543950335"));
    assert!(matches!(huge.checked_budget_variance(), Some(None)));
    assert!(WorkshopResponse::try_from_workshop(huge).is_none());
}

#[test]
fn event_dates_are_judged_against_a_day() {
    let w = workshop();
    assert_eq!(w.parsed_event_date(), Some((2000, 1, 15)));
    assert!(w.is_past_on((2000, 1, 16)));
    assert!(!w.is_past_on((2000, 1, 15)));
    assert!(w.is_future_on((1999, 12, 31)));
    assert!(w.is_past(), "a date in 2000 is in the past");
    assert!(!w.is_future());
    let mut undated = workshop();
    undated.event_date = None;
    assert!(!undated.is_past() && !undated.is_future());
    undated.event_date = Some("15/01/2000".to_string());
    assert!(undated.parsed_event_date().is_none() && !undated.is_past_on((2030, 1, 1)));
}

#[test]
fn workshop_data_rules() {
    let good = NewWorkshop {
        project_id: Some(PROJECT_VALUE),
        purpose: None,
        event_date: Some("2024-02-29".to_string()),
        location: None,
        budget: Some(amount("10")),
        actuals: None,
        participant_count: None,
        local_partner: None,
        partner_responsibility: None,
        created_by_user_id: None,
    };
    assert!(good.validate().is_ok());
    let mut bad = good.clone();
    bad.project_id = Some(0);
    assert!(matches!(bad.validate(), Err(DomainError::Validation(ValidationError::InvalidValue { field, reason }))
        if field == "project_id" && reason == "must not be nil"));
    let mut bad = good.clone();
    bad.event_date = Some("2023-02-29".to_string());
    assert!(matches!(bad.validate(), Err(DomainError::Validation(ValidationError::Format { field, reason }))
        if field == "event_date" && reason == "Invalid date format, expected YYYY-MM-DD"));
    let mut bad = good;
    bad.budget = Some(amount("-1"));
    assert!(matches!(bad.validate(), Err(DomainError::Validation(ValidationError::InvalidValue { field, reason }))
        if field == "budget" && reason == "must be non-negative"));
    let mut u = blank_update();
    u.project_id = Some(None);
    assert!(u.validate().is_ok());
    u.actuals = Some(amount("-0.5"));
    assert!(matches!(u.validate(), Err(DomainError::Validation(ValidationError::InvalidValue { field, .. })) if field == "actuals"));
}

#[test]
fn updates_name_their_columns_in_order() {
    let mut u = blank_update();
    assert!(u.set_columns().is_empty());
    u.strengths = Some("x".to_string());
    u.project_id = Some(None);
    u.budget = Some(amount("1"));
    assert_eq!(u.set_columns(), vec![WorkshopColumn::ProjectId, WorkshopColumn::Budget, WorkshopColumn::Strengths]);
    assert!(u.sets(WorkshopColumn::Budget) && !u.sets(WorkshopColumn::Actuals));
    assert_eq!(WorkshopColumn::ChallengeResolution.as_str(), "challenge_resolution");
    assert_eq!(WorkshopColumn::ParticipantCount.as_str(), "participant_count");

    let old = workshop();
    let mut new = workshop();
    assert!(changed_workshop_columns(&old, &new).is_empty());
    new.budget = Some(amount("100.0"));
    assert!(changed_workshop_columns(&old, &new).is_empty(), "the same number at another scale is no change");
    new.location = Some("Hall".to_string());
    new.budget = Some(amount("150"));
    new.participant_count = 5;
    assert_eq!(
        changed_workshop_columns(&old, &new),
        vec![WorkshopColumn::Location, WorkshopColumn::Budget, WorkshopColumn::ParticipantCount]
    );
}

#[test]
fn participant_counts_move_by_one() {
    assert_eq!(incremented_count(4), 5);
    assert_eq!(decremented_count(4), (3, true));
    assert_eq!(decremented_count(1), (0, true));
    assert_eq!(decremented_count(0), (0, false));
    assert_eq!(decremented_count(-2), (0, false));
    assert_eq!(decremented_count(i64::MIN), (0, false));
}

#[test]
fn views_of_a_workshop() {
    let w = workshop();
    let s = WorkshopSummary::from(w.clone());
    assert_eq!((s.id, s.participant_count), (ID_VALUE, 4));
    let r = WorkshopResponse::from_workshop(w.clone());
    assert_eq!(r.created_at, "2024-01-01T00:00:00+00:00");
    assert!(r.is_past && r.project.is_none() && r.participants.is_none());
    assert_eq!(number(&r.variance.unwrap()), 20.0);
    let r = r.with_project(ProjectSummary { id: PROJECT_VALUE, name: "P".to_string() }).with_participants(vec![]);
    assert_eq!(r.project.unwrap().name, "P");
    assert_eq!(r.participants.unwrap().len(), 0);
    assert!(WorkshopResponse::try_from_workshop(w).is_some());
}

fn workshop_change(op: ChangeOperationType) -> ChangeLogEntry {
    ChangeLogEntry {
        operation_id: 1,
        entity_table: "workshops".to_string(),
        entity_id: ID_VALUE,
        operation_type: op,
        field_name: None,
        old_value: None,
        new_value: Some("{}".to_string()),
        document_metadata: None,
        timestamp: Timestamp::parse_rfc3339("2024-05-01T10:00:00Z").unwrap(),
        user_id: 5,
        device_id: None,
        sync_batch_id: None,
        processed_at: None,
        sync_error: None,
    }
}

#[test]
fn remote_workshops_merge_by_record_stamp() {
    let c = workshop_change(ChangeOperationType::Update);
    let mut remote = workshop();
    remote.updated_at = Timestamp::parse_rfc3339("2024-03-01T00:00:00Z").unwrap();
    assert!(matches!(plan_workshop_merge(&c, Some(Ok(remote.clone())), None).unwrap(),
        (WorkshopMergeAction::Upsert(_), MergeOutcome::Created(id)) if id == ID_VALUE));
    assert!(matches!(plan_workshop_merge(&c, Some(Ok(remote.clone())), Some(workshop())).unwrap(),
        (WorkshopMergeAction::Upsert(_), MergeOutcome::Updated(_))));
    assert!(matches!(plan_workshop_merge(&c, Some(Ok(remote.clone())), Some(remote.clone())).unwrap(),
        (WorkshopMergeAction::Nothing, MergeOutcome::NoOp(m)) if m == "Local copy newer or equal"));
    assert!(matches!(plan_workshop_merge(&c, Some(Err("eof".to_string())), None),
        Err(DomainError::Validation(ValidationError::Format { field, reason }))
            if field == "new_value_workshop" && reason == "Invalid JSON: eof"));
    let mut empty = workshop_change(ChangeOperationType::Create);
    empty.new_value = None;
    assert!(matches!(plan_workshop_merge(&empty, None, None),
        Err(DomainError::Validation(ValidationError::Custom(m))) if m == "Missing new_value for workshop change"));
    let mut soft = workshop_change(ChangeOperationType::Delete);
    soft.new_value = None;
    assert!(matches!(plan_workshop_merge(&soft, None, None).unwrap().1, MergeOutcome::NoOp(m) if m == "Remote soft delete ignored"));
    let mut hard = workshop_change(ChangeOperationType::HardDelete);
    hard.new_value = None;
    assert!(matches!(plan_workshop_merge(&hard, None, None).unwrap(),
        (WorkshopMergeAction::Nothing, MergeOutcome::HardDeleted(id)) if id == ID_VALUE));
    assert!(matches!(plan_workshop_merge(&hard, None, Some(workshop())).unwrap(),
        (WorkshopMergeAction::Remove, MergeOutcome::HardDeleted(id)) if id == ID_VALUE));
}

fn link_row() -> WorkshopParticipantRow {
    WorkshopParticipantRow {
        id: ID.to_string(),
        workshop_id: PROJECT.to_string(),
        participant_id: ID.to_string(),
        pre_evaluation: Some("good".to_string()),
        pre_evaluation_updated_at: None,
        pre_evaluation_updated_by: None,
        post_evaluation: None,
        post_evaluation_updated_at: None,
        post_evaluation_updated_by: None,
        created_at: "2024-01-01T00:00:00Z".to_string(),
        updated_at: "2024-01-01T00:00:00Z".to_string(),
        created_by_user_id: None,
        updated_by_user_id: None,
        deleted_at: None,
        deleted_by_user_id: None,
    }
}

#[test]
fn participant_links() {
    let l = link_row().into_entity().unwrap();
    assert_eq!(l.workshop_id, PROJECT_VALUE);
    assert!(!l.is_deleted());
    assert!(!EvaluationKind::Pre.is_missing(&l));
    assert!(EvaluationKind::Post.is_missing(&l));
    let mut row = link_row();
    row.workshop_id = "w".to_string();
    assert!(internal(row.into_entity().unwrap_err()).starts_with("Invalid UUID for WorkshopParticipant.workshop_id 'w': "));
    assert_eq!(EvaluationKind::parse("pre").unwrap(), EvaluationKind::Pre);
    assert_eq!(EvaluationKind::parse("post").unwrap(), EvaluationKind::Post);
    assert!(matches!(EvaluationKind::parse("mid"), Err(DomainError::Validation(ValidationError::InvalidValue { field, reason }))
        if field == "eval_type" && reason == "must be 'pre' or 'post'"));

    let n = NewWorkshopParticipant { workshop_id: 1, participant_id: 2, pre_evaluation: None, post_evaluation: None, created_by_user_id: None };
    assert!(n.validate().is_ok());
    let n = NewWorkshopParticipant { participant_id: 0, ..n };
    assert!(matches!(n.validate(), Err(DomainError::Validation(ValidationError::InvalidValue { field, .. })) if field == "participant_id"));
    let u = UpdateWorkshopParticipant { pre_evaluation: None, post_evaluation: Some("é".repeat(1000)), updated_by_user_id: 1 };
    assert!(u.validate().is_ok());
    assert_eq!(u.evaluations_written(), (false, true));
    let u = UpdateWorkshopParticipant { post_evaluation: Some("x".repeat(1001)), ..u };
    assert!(matches!(u.validate(), Err(DomainError::Validation(ValidationError::MaxLength { field, max: 1000 })) if field == "post_evaluation"));
}

#[test]
fn changed_fields_are_logged_as_json() {
    let old = workshop();
    let mut new = old.clone();
    new.purpose = Some("Say \"hi\"".to_string());
    new.location = Some("Kigali".to_string());
    assert_eq!(column_json(&old, WorkshopColumn::Purpose), "\"Training\"");
    assert_eq!(column_json(&new, WorkshopColumn::Purpose), "\"Say \\\"hi\\\"\"");
    assert_eq!(column_json(&old, WorkshopColumn::Location), "null");
    assert_eq!(column_json(&old, WorkshopColumn::Budget), "\"100.00\"");
    assert_eq!(column_json(&old, WorkshopColumn::ParticipantCount), "4");
    assert_eq!(column_json(&old, WorkshopColumn::ProjectId), format!("\"{}\"", PROJECT));
    let now = Timestamp::parse_rfc3339("2024-06-01T00:00:00Z").unwrap();
    let log = workshop_change_log(old.id, &old, &new, WorkshopColumn::Location, now, 5, Some(6));
    assert_eq!(log.entity_table, "workshops");
    assert_eq!(log.field_name.as_deref(), Some("location"));
    assert_eq!(log.old_value.as_deref(), Some("null"));
    assert_eq!(log.new_value.as_deref(), Some("\"Kigali\""));
    assert_eq!(log.operation_type, ChangeOperationType::Update);
    assert_eq!((log.user_id, log.device_id), (5, Some(6)));
    let count = participant_count_log(old.id, 1, 0, now, 5, None);
    assert_eq!(count.field_name.as_deref(), Some("participant_count"));
    assert_eq!((count.old_value.as_deref(), count.new_value.as_deref()), (Some("1"), Some("0")));
    assert_eq!(participant_count_log(old.id, -3, 12, now, 5, None).old_value.as_deref(), Some("-3"));
}
