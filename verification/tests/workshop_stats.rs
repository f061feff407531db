use fieldsync::clock::Timestamp;
use fieldsync::errors::{DbError, DomainError, ValidationError};
use fieldsync::sync_records::{ChangeLogEntry, MergeOutcome};
use fieldsync::sync_types::ChangeOperationType;
use fieldsync::workshop_participant::{
    link_insert_error, plan_participant_merge, refuse_existing_link, settle_batch_add, settle_link_removal,
    read_participant_summaries, LinkMergeAction, ParticipantSummaryRow, WorkshopParticipantRow,
};
use fieldsync::workshop_stats::{
    amount_or_zero, average_variance_rate, budget_summary_from_row, checked_average_variance_rate,
    location_distribution, parse_budget_totals, project_distribution, read_project_counts, try_budget_summary_from_row, BudgetSummaryRow,
};

const W: &str = "550e8400-e29b-41d4-a716-446655440000";
const W_VALUE: u128 = 0x550e8400_e29b_41d4_a716_446655440000;
const P: &str = "6ba7b810-9dad-11d1-80b4-00c04fd430c8";
const P_VALUE: u128 = 0x6ba7b810_9dad_11d1_80b4_00c04fd430c8;

fn number(text: String) -> f64 {
    text.parse::<f64>().unwrap()
}

fn internal(e: DomainError) -> String {
    match e {
        DomainError::Internal(m) => m,
        other => panic!("unexpected {:?}", other),
    }
}

#[test]
fn budget_totals_are_parsed() {
    let (b, a, v) = parse_budget_totals("100.5", "90", "-10.5").unwrap();
    assert_eq!((b.to_text(), a.to_text(), v.to_text()), ("100.5".to_string(), "90".to_string(), "-10.5".to_string()));
    assert_eq!(internal(parse_budget_totals("x", "y", "z").unwrap_err()), "Failed to parse budget value: x");
    assert_eq!(internal(parse_budget_totals("1", "y", "z").unwrap_err()), "Failed to parse actuals value: y");
    assert_eq!(internal(parse_budget_totals("1", "2", "z").unwrap_err()), "Failed to parse variance value: z");
}

#[test]
fn stored_sums_default_to_zero() {
    assert_eq!(amount_or_zero(&Some("12.5".to_string())).to_text(), "12.5");
    assert!(amount_or_zero(&Some("n/a".to_string())).is_zero());
    assert!(amount_or_zero(&None).is_zero());
}

#[test]
fn overall_variance_rate() {
    let some = |s: &str| Some(s.to_string());
    assert_eq!(number(average_variance_rate(&some("50"), &some("200")).to_text()), 25.0);
    assert_eq!(number(average_variance_rate(&some("-30"), &some("120")).to_text()), -25.0);
    assert!(average_variance_rate(&some("50"), &some("0")).is_zero());
    assert!(average_variance_rate(&None, &some("10")).is_zero());
    assert_eq!(number(average_variance_rate(&some("junk"), &some("10")).to_text()), 0.0);
    assert_eq!(number(average_variance_rate(&some("3"), &some("junk")).to_text()), 300.0);
    let max = "79228162514264337593543950335";
    assert!(checked_average_variance_rate(&some(max), &some("0.0000000000000000000000000001")).is_none());
    assert_eq!(number(checked_average_variance_rate(&some("1"), &some("4")).unwrap().to_text()), 25.0);
}

fn summary_row(budget: Option<&str>, actuals: Option<&str>) -> BudgetSummaryRow {
    BudgetSummaryRow {
        id: W.to_string(),
        purpose: Some("Training".to_string()),
        event_date: Some("2024-03-01".to_string()),
        budget: budget.map(|s| s.to_string()),
        actuals: actuals.map(|s| s.to_string()),
    }
}

#[test]
fn workshop_budget_summaries() {
    let s = budget_summary_from_row(&summary_row(Some("200"), Some("150"))).unwrap();
    assert_eq!(s.workshop_id, W_VALUE);
    assert_eq!(number(s.variance.unwrap().to_text()), -50.0);
    assert_eq!(number(s.variance_percentage.unwrap().to_text()), -25.0);
    let s = budget_summary_from_row(&summary_row(Some("0"), Some("150"))).unwrap();
    assert_eq!(number(s.variance.unwrap().to_text()), 150.0);
    assert!(s.variance_percentage.is_none());
    let s = budget_summary_from_row(&summary_row(None, Some("150"))).unwrap();
    assert!(s.variance.is_none() && s.variance_percentage.is_none() && s.budget.is_none());
    assert_eq!(internal(budget_summary_from_row(&summary_row(Some("lots"), None)).unwrap_err()), "Invalid decimal format: lots");
    let mut row = summary_row(Some("1"), Some("2"));
    row.id = "w".to_string();
    assert_eq!(internal(budget_summary_from_row(&row).unwrap_err()), "Invalid UUID format in workshop id");
    let max = "79228162514264337593543950335";
    assert!(try_budget_summary_from_row(&summary_row(Some(&format!("-{}", max)), Some(max))).is_none());
    assert!(try_budget_summary_from_row(&summary_row(Some("1"), Some("2"))).unwrap().is_ok());
}

#[test]
fn workshop_counts_by_location_and_project() {
    let d = location_distribution(&vec![(Some("Hall".to_string()), 2), (None, 1), (Some("Hall".to_string()), 4)]);
    assert_eq!(d, vec![("Hall".to_string(), 4), ("Unspecified".to_string(), 1)]);
    let p = project_distribution(&vec![(Some(1), 2), (None, 9), (Some(2), 1), (Some(1), 3)]);
    assert_eq!(p, vec![(1, 3), (2, 1)]);
}

#[test]
fn participant_link_decisions() {
    assert!(settle_link_removal(true, Ok(false), W_VALUE, P_VALUE).is_ok());
    assert!(settle_link_removal(false, Ok(true), W_VALUE, P_VALUE).is_ok());
    match settle_link_removal(false, Ok(false), W_VALUE, P_VALUE).unwrap_err() {
        DomainError::EntityNotFound(t, id) => {
            assert_eq!(t, format!("WorkshopParticipant link between {} and {}", W, P));
            assert_eq!(id, W_VALUE);
        }
        other => panic!("unexpected {:?}", other),
    }
    assert_eq!(internal(settle_link_removal(false, Err(DomainError::Internal("db".to_string())), 1, 2).unwrap_err()), "db");
    match refuse_existing_link(Ok(true), W_VALUE, P_VALUE) {
        DomainError::Validation(ValidationError::Custom(m)) => {
            assert_eq!(m, format!("Participant {} already linked to workshop {}", P, W))
        }
        other => panic!("unexpected {:?}", other),
    }
    assert_eq!(
        internal(refuse_existing_link(Ok(false), W_VALUE, P_VALUE)),
        "Failed to retrieve existing workshop participant link after INSERT IGNORE"
    );
}

fn link(updated_at: &str) -> fieldsync::workshop_participant::WorkshopParticipant {
    let mut row = WorkshopParticipantRow {
        id: P.to_string(),
        workshop_id: W.to_string(),
        participant_id: P.to_string(),
        pre_evaluation: None,
        pre_evaluation_updated_at: None,
        pre_evaluation_updated_by: None,
        post_evaluation: None,
        post_evaluation_updated_at: None,
        post_evaluation_updated_by: None,
        created_at: "2024-01-01T00:00:00Z".to_string(),
        updated_at: updated_at.to_string(),
        created_by_user_id: None,
        updated_by_user_id: None,
        deleted_at: None,
        deleted_by_user_id: None,
    };
    row.pre_evaluation = Some("good".to_string());
    row.into_entity().unwrap()
}

fn link_change(op: ChangeOperationType) -> ChangeLogEntry {
    ChangeLogEntry {
        operation_id: 1,
        entity_table: "workshop_participants".to_string(),
        entity_id: P_VALUE,
        operation_type: op,
        field_name: None,
        old_value: None,
        new_value: Some("{}".to_string()),
        document_metadata: None,
        timestamp: Timestamp::parse_rfc3339("2024-05-01T10:00:00Z").unwrap(),
        user_id: 5,
        device_id: None,
        sync_batch_id: None,
        processed_at: None,
        sync_error: None,
    }
}

#[test]
fn remote_links_merge_by_record_stamp() {
    let c = link_change(ChangeOperationType::Create);
    let remote = link("2024-03-01T00:00:00Z");
    let missing = DomainError::EntityNotFound("WorkshopParticipant".to_string(), W_VALUE);
    assert!(matches!(plan_participant_merge(&c, Some(Ok(remote.clone())), Some(Err(missing))).unwrap(),
        (LinkMergeAction::Upsert(_), MergeOutcome::Created(id)) if id == P_VALUE));
    assert!(matches!(plan_participant_merge(&c, Some(Ok(remote.clone())), Some(Ok(link("2024-02-01T00:00:00Z")))).unwrap(),
        (LinkMergeAction::Upsert(_), MergeOutcome::Updated(_))));
    assert!(matches!(plan_participant_merge(&c, Some(Ok(remote.clone())), Some(Ok(remote.clone()))).unwrap(),
        (LinkMergeAction::Nothing, MergeOutcome::NoOp(m)) if m == "Local copy newer or equal"));
    assert!(matches!(plan_participant_merge(&c, Some(Ok(remote.clone())), Some(Err(DomainError::Internal("db".to_string())))),
        Err(DomainError::Internal(m)) if m == "db"));
    assert!(matches!(plan_participant_merge(&c, Some(Err("eof".to_string())), None),
        Err(DomainError::Validation(ValidationError::Format { field, reason }))
            if field == "new_value_workshop_participant" && reason == "Invalid JSON: eof"));
    let mut empty = link_change(ChangeOperationType::Update);
    empty.new_value = None;
    assert!(matches!(plan_participant_merge(&empty, None, None),
        Err(DomainError::Validation(ValidationError::Custom(m))) if m == "Missing new_value for workshop_participant change"));
    let mut hard = link_change(ChangeOperationType::HardDelete);
    hard.new_value = None;
    assert!(matches!(plan_participant_merge(&hard, None, None).unwrap(),
        (LinkMergeAction::Nothing, MergeOutcome::HardDeleted(id)) if id == P_VALUE));
    assert!(matches!(plan_participant_merge(&hard, None, Some(Ok(link("2024-02-01T00:00:00Z")))).unwrap(),
        (LinkMergeAction::Remove, MergeOutcome::HardDeleted(id)) if id == P_VALUE));
    let gone = DomainError::EntityNotFound("WorkshopParticipant".to_string(), P_VALUE);
    assert!(matches!(plan_participant_merge(&hard, None, Some(Err(gone))).unwrap(),
        (LinkMergeAction::Nothing, MergeOutcome::HardDeleted(_))));
}

#[test]
fn batch_link_failures_are_classified() {
    let unique = Some("UNIQUE constraint failed: workshop_participants.workshop_id".to_string());
    assert!(matches!(link_insert_error(&unique, "error returned from database"),
        DomainError::Database(DbError::Conflict(m)) if m == "Workshop participant link already exists"));
    assert!(matches!(link_insert_error(&Some("disk I/O error".to_string()), "error returned from database: disk I/O error"),
        DomainError::Database(DbError::Sqlx(m)) if m == "error returned from database: disk I/O error"));
    assert!(matches!(link_insert_error(&None, "pool timed out"),
        DomainError::Database(DbError::Sqlx(m)) if m == "pool timed out"));
}

#[test]
fn batch_links_are_settled_by_the_commit() {
    let ids = vec![1u128, 2, 3];
    let outcomes = vec![Ok(()), Err(DomainError::Internal("x".to_string())), Ok(())];
    let settled = settle_batch_add(&ids, outcomes.clone(), Ok(()));
    assert_eq!(settled.iter().map(|p| p.0).collect::<Vec<_>>(), ids);
    assert!(settled[0].1.is_ok() && settled[1].1.is_err() && settled[2].1.is_ok());
    let failed = settle_batch_add(&ids, outcomes, Err("database is locked".to_string()));
    assert_eq!(failed.len(), 3);
    for (i, (id, r)) in failed.into_iter().enumerate() {
        assert_eq!(id, ids[i]);
        assert!(matches!(r, Err(DomainError::Database(DbError::Transaction(m)))
            if m == "Commit failed after batch add: database is locked"));
    }
    assert!(settle_batch_add(&vec![], vec![], Ok(())).is_empty());
}

fn participant_row(id: &str, disability: i64) -> ParticipantSummaryRow {
    ParticipantSummaryRow {
        id: id.to_string(),
        name: "Amina".to_string(),
        gender: Some("female".to_string()),
        age_group: None,
        disability,
        pre_evaluation: Some("4".to_string()),
        post_evaluation: None,
    }
}

#[test]
fn participant_rows_are_read() {
    let read = read_participant_summaries(vec![participant_row(P, 1), participant_row(W, 0)]).unwrap();
    assert_eq!(read.len(), 2);
    assert_eq!((read[0].id, read[0].disability), (P_VALUE, true));
    assert_eq!((read[1].id, read[1].disability), (W_VALUE, false));
    assert_eq!(read[0].pre_evaluation.as_deref(), Some("4"));
    assert!(matches!(read_participant_summaries(vec![participant_row(P, 2), participant_row("p-1", 0)]),
        Err(DomainError::InvalidUuid(t)) if t == "p-1"));
    assert!(read_participant_summaries(vec![]).unwrap().is_empty());
}

#[test]
fn project_counts_are_read() {
    let read = read_project_counts(vec![(Some(P.to_string()), 3), (None, 2)]).unwrap();
    assert_eq!(read, vec![(Some(P_VALUE), 3), (None, 2)]);
    assert!(matches!(read_project_counts(vec![(None, 1), (Some("p9".to_string()), 2)]),
        Err(DomainError::Internal(m)) if m == "Invalid UUID in project_id: p9"));
}
