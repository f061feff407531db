use fieldsync::clock::Timestamp;
use fieldsync::doc_fields::{check_linked_field, document_linkable_fields, is_document_linkable_field};
use fieldsync::errors::{DomainError, ServiceError, ValidationError};
use fieldsync::goal_update::{
    changed_goal_columns, goal_change_log, goal_priority_logs, read_goal_priorities, renews_goal_stamp, GoalColumn, UpdateStrategicGoal,
};
use fieldsync::strategic_goal::{merge_counts, stale_cutoff, StrategicGoal, StrategicGoalRow};
use fieldsync::sync_types::{ChangeOperationType, SyncPriority};
use fieldsync::workshop::Workshop;

const ID: &str = "550e8400-e29b-41d4-a716-446655440000";
const ID_VALUE: u128 = 0x550e8400_e29b_41d4_a716_446655440000;
const DEVICE: &str = "6ba7b810-9dad-11d1-80b4-00c04fd430c8";
const DEVICE_VALUE: u128 = 0x6ba7b810_9dad_11d1_80b4_00c04fd430c8;

fn goal() -> StrategicGoal {
    StrategicGoalRow {
        id: ID.to_string(),
        objective_code: "OBJ-1".to_string(),
        objective_code_updated_at: None,
        objective_code_updated_by: None,
        objective_code_updated_by_device_id: None,
        outcome: Some("More water".to_string()),
        outcome_updated_at: None,
        outcome_updated_by: None,
        outcome_updated_by_device_id: None,
        kpi: None,
        kpi_updated_at: None,
        kpi_updated_by: None,
        kpi_updated_by_device_id: None,
        target_value: None,
        target_value_updated_at: None,
        target_value_updated_by: None,
        target_value_updated_by_device_id: None,
        actual_value: None,
        actual_value_updated_at: None,
        actual_value_updated_by: None,
        actual_value_updated_by_device_id: None,
        status_id: Some(1),
        status_id_updated_at: None,
        status_id_updated_by: None,
        status_id_updated_by_device_id: None,
        responsible_team: None,
        responsible_team_updated_at: None,
        responsible_team_updated_by: None,
        responsible_team_updated_by_device_id: None,
        created_at: "2024-01-01T00:00:00Z".to_string(),
        updated_at: "2024-01-02T00:00:00Z".to_string(),
        created_by_user_id: None,
        created_by_device_id: None,
        updated_by_user_id: Some(ID.to_string()),
        updated_by_device_id: Some(DEVICE.to_string()),
        deleted_at: None,
        deleted_by_user_id: None,
        deleted_by_device_id: None,
        sync_priority: "normal".to_string(),
    }
    .into_entity()
    .unwrap()
}

fn blank_update() -> UpdateStrategicGoal {
    UpdateStrategicGoal {
        objective_code: None,
        outcome: None,
        kpi: None,
        target_value: None,
        actual_value: None,
        status_id: None,
        responsible_team: None,
        sync_priority: None,
        updated_by_user_id: ID_VALUE,
    }
}

#[test]
fn goal_updates_name_their_columns() {
    let mut u = blank_update();
    assert!(u.set_columns().is_empty());
    u.sync_priority = Some(SyncPriority::High);
    u.kpi = Some("k".to_string());
    u.target_value = Some(5.0f64.to_bits());
    assert_eq!(u.set_columns(), vec![GoalColumn::Kpi, GoalColumn::TargetValue, GoalColumn::SyncPriority]);
    assert!(u.sets(GoalColumn::Kpi) && !u.sets(GoalColumn::Outcome));
    assert_eq!(GoalColumn::ResponsibleTeam.as_str(), "responsible_team");
}

#[test]
fn goal_stamp_is_renewed_only_when_something_is_written() {
    let g = goal();
    assert!(renews_goal_stamp(true, &g, ID_VALUE, Some(DEVICE_VALUE)));
    assert!(!renews_goal_stamp(false, &g, ID_VALUE, Some(DEVICE_VALUE)));
    assert!(renews_goal_stamp(false, &g, 7, Some(DEVICE_VALUE)));
    assert!(renews_goal_stamp(false, &g, ID_VALUE, None));
}

#[test]
fn changed_goal_fields_are_logged_in_order() {
    let old = goal();
    assert!(changed_goal_columns(&old, &old, false, false).is_empty());
    let mut new = goal();
    new.objective_code = "OBJ-2".to_string();
    new.outcome = None;
    new.sync_priority = SyncPriority::Low;
    assert_eq!(
        changed_goal_columns(&old, &new, false, true),
        vec![GoalColumn::ObjectiveCode, GoalColumn::Outcome, GoalColumn::ActualValue, GoalColumn::SyncPriority]
    );
}

#[test]
fn priority_changes_are_logged_for_changed_goals_only() {
    let rows = vec![
        ("11111111-1111-1111-1111-111111111111".to_string(), "HIGH".to_string()),
        ("bad".to_string(), "low".to_string()),
        ("22222222-2222-2222-2222-222222222222".to_string(), "sometimes".to_string()),
        ("33333333-3333-3333-3333-333333333333".to_string(), "low".to_string()),
    ];
    let old = read_goal_priorities(&rows);
    let one = 0x11111111_1111_1111_1111_111111111111u128;
    let three = 0x33333333_3333_3333_3333_333333333333u128;
    assert_eq!(old, vec![(one, SyncPriority::High), (three, SyncPriority::Low)]);
    let now = Timestamp::parse_rfc3339("2024-06-01T00:00:00Z").unwrap();
    let ids = vec![three, 0x22222222_2222_2222_2222_222222222222u128, one];
    let logs = goal_priority_logs(&ids, &old, SyncPriority::High, now, 9, DEVICE);
    assert_eq!(logs.len(), 1);
    assert_eq!(logs[0].entity_id, three);
    assert_eq!(logs[0].entity_table, "strategic_goals");
    assert_eq!(logs[0].operation_type, ChangeOperationType::Update);
    assert_eq!(logs[0].field_name.as_deref(), Some("sync_priority"));
    assert_eq!(logs[0].old_value.as_deref(), Some("\"low\""));
    assert_eq!(logs[0].new_value.as_deref(), Some("\"high\""));
    assert_eq!((logs[0].user_id, logs[0].device_id, logs[0].timestamp), (9, Some(DEVICE_VALUE), now));
    assert!(goal_priority_logs(&ids, &old, SyncPriority::Normal, now, 9, "pc").iter().all(|e| e.device_id.is_none()));
    assert_eq!(goal_priority_logs(&ids, &old, SyncPriority::Normal, now, 9, "pc").len(), 2);
}

#[test]
fn stale_cutoff_goes_back_whole_days() {
    let now = Timestamp::parse_rfc3339("2024-06-11T12:00:00Z").unwrap();
    assert_eq!(stale_cutoff(now, 10), Timestamp::parse_rfc3339("2024-06-01T12:00:00Z").unwrap());
    assert_eq!(stale_cutoff(now, 0), now);
    assert_eq!(stale_cutoff(now, u32::MAX), now);
}

#[test]
fn document_fields_of_entities() {
    let w = Workshop::field_metadata();
    assert_eq!(w.len(), 19);
    assert_eq!(w[0].field_name, "purpose");
    assert!(w[18].is_document_reference_only);
    let names = document_linkable_fields(&w);
    assert_eq!(names.len(), 15);
    assert!(!names.contains(&"location".to_string()));
    assert!(is_document_linkable_field(&w, "agenda"));
    assert!(!is_document_linkable_field(&w, "event_date"));
    let g = StrategicGoal::field_metadata();
    assert_eq!(
        document_linkable_fields(&g),
        vec!["outcome", "kpi", "actual_value", "supporting_documentation", "impact_assessment", "theory_of_change", "baseline_data"]
    );
    assert!(check_linked_field(&g, "strategic goals", &None).is_ok());
    assert!(check_linked_field(&g, "strategic goals", &Some("kpi".to_string())).is_ok());
    match check_linked_field(&g, "strategic goals", &Some("objective_code".to_string())) {
        Err(ServiceError::Domain(DomainError::Validation(ValidationError::Custom(m)))) => assert_eq!(
            m,
            "Field 'objective_code' does not support document attachments for strategic goals. Valid fields: \
             outcome, kpi, actual_value, supporting_documentation, impact_assessment, theory_of_change, baseline_data"
        ),
        other => panic!("unexpected {:?}", other),
    }
}

#[test]
fn named_counts_merge() {
    let merged = merge_counts(&vec![
        ("2024-01".to_string(), 2),
        ("2024-02".to_string(), 1),
        ("2024-01".to_string(), 5),
    ]);
    assert_eq!(merged, vec![("2024-01".to_string(), 5), ("2024-02".to_string(), 1)]);
}

#[test]
fn changed_goal_fields_are_logged_as_json() {
    let old = goal();
    let mut new = old.clone();
    new.kpi = Some("wells".to_string());
    new.status_id = None;
    new.sync_priority = SyncPriority::High;
    let now = Timestamp::parse_rfc3339("2024-06-01T00:00:00Z").unwrap();
    let kpi = goal_change_log(old.id, &old, &new, GoalColumn::Kpi, now, 5, None);
    assert_eq!(kpi.entity_table, "strategic_goals");
    assert_eq!(kpi.field_name.as_deref(), Some("kpi"));
    assert_eq!((kpi.old_value.as_deref(), kpi.new_value.as_deref()), (Some("null"), Some("\"wells\"")));
    let status = goal_change_log(old.id, &old, &new, GoalColumn::StatusId, now, 5, None);
    assert_eq!((status.old_value.as_deref(), status.new_value.as_deref()), (Some("1"), Some("null")));
    let code = goal_change_log(old.id, &old, &new, GoalColumn::ObjectiveCode, now, 5, None);
    assert_eq!(code.old_value.as_deref(), Some("\"OBJ-1\""));
    let p = goal_change_log(old.id, &old, &new, GoalColumn::SyncPriority, now, 5, None);
    assert_eq!(p.new_value.as_deref(), Some("\"high\""));
}
