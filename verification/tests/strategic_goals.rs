use fieldsync::errors::{DomainError, ValidationError};
use fieldsync::strategic_goal::{
    check_changed_objective_code, check_objective_code, page_of_ids, status_distribution, status_name,
    PaginationParams, StrategicGoalFilter, StrategicGoalInclude, StrategicGoalRow,
};
use fieldsync::sync_types::SyncPriority;

const ID: &str = "550e8400-e29b-41d4-a716-446655440000";
const ID_VALUE: u128 = 0x550e8400_e29b_41d4_a716_446655440000;

fn goal_row() -> StrategicGoalRow {
    StrategicGoalRow {
        id: ID.to_string(),
        objective_code: "OBJ-1".to_string(),
        objective_code_updated_at: None,
        objective_code_updated_by: None,
        objective_code_updated_by_device_id: None,
        outcome: Some("More water".to_string()),
        outcome_updated_at: None,
        outcome_updated_by: None,
        outcome_updated_by_device_id: None,
        kpi: None,
        kpi_updated_at: None,
        kpi_updated_by: None,
        kpi_updated_by_device_id: None,
        target_value: Some(100.0f64.to_bits()),
        target_value_updated_at: None,
        target_value_updated_by: None,
        target_value_updated_by_device_id: None,
        actual_value: Some(42.5f64.to_bits()),
        actual_value_updated_at: None,
        actual_value_updated_by: None,
        actual_value_updated_by_device_id: None,
        status_id: Some(2),
        status_id_updated_at: None,
        status_id_updated_by: None,
        status_id_updated_by_device_id: None,
        responsible_team: None,
        responsible_team_updated_at: None,
        responsible_team_updated_by: None,
        responsible_team_updated_by_device_id: None,
        created_at: "2024-01-01T00:00:00Z".to_string(),
        updated_at: "2024-01-02T00:00:00Z".to_string(),
        created_by_user_id: None,
        created_by_device_id: None,
        updated_by_user_id: None,
        updated_by_device_id: None,
        deleted_at: None,
        deleted_by_user_id: None,
        deleted_by_device_id: None,
        sync_priority: "HIGH".to_string(),
    }
}

#[test]
fn include_options_are_read_without_case() {
    assert_eq!(StrategicGoalInclude::from_str("Documents").unwrap(), StrategicGoalInclude::Documents);
    assert_eq!(StrategicGoalInclude::from_str("project_count").unwrap(), StrategicGoalInclude::ProjectCount);
    assert_eq!(StrategicGoalInclude::from_str("PROJECTCOUNT").unwrap(), StrategicGoalInclude::ProjectCount);
    assert_eq!(StrategicGoalInclude::from_str("documentCounts").unwrap(), StrategicGoalInclude::DocumentCounts);
    assert_eq!(StrategicGoalInclude::from_str("Budget").unwrap_err(), "Unknown include option: Budget");
}

#[test]
fn status_names() {
    assert_eq!(status_name(Some(1)), "On Track");
    assert_eq!(status_name(Some(4)), "Completed");
    assert_eq!(status_name(Some(9)), "Unknown Status (9)");
    assert_eq!(status_name(Some(-3)), "Unknown Status (-3)");
    assert_eq!(status_name(None), "No Status");
}

#[test]
fn status_distribution_merges_equal_names() {
    let d = status_distribution(&vec![(Some(1), 5), (None, 2), (Some(3), 1), (None, 7)]);
    assert_eq!(
        d,
        vec![("On Track".to_string(), 5), ("No Status".to_string(), 7), ("Delayed".to_string(), 1)]
    );
    assert!(status_distribution(&vec![]).is_empty());
}

#[test]
fn pages_of_identifiers() {
    let ids: Vec<u128> = (1..=7).collect();
    assert_eq!(page_of_ids(&ids, PaginationParams { page: 1, per_page: 3 }), vec![1, 2, 3]);
    assert_eq!(page_of_ids(&ids, PaginationParams { page: 3, per_page: 3 }), vec![7]);
    assert!(page_of_ids(&ids, PaginationParams { page: 4, per_page: 3 }).is_empty());
    assert!(page_of_ids(&ids, PaginationParams { page: 1, per_page: 0 }).is_empty());
}

#[test]
fn stored_goals_are_read() {
    let g = goal_row().into_entity().unwrap();
    assert_eq!(g.id, ID_VALUE);
    assert_eq!(g.objective_code, "OBJ-1");
    assert_eq!(g.target_value.map(f64::from_bits), Some(100.0));
    assert_eq!(g.actual_value.map(f64::from_bits), Some(42.5));
    assert_eq!(g.sync_priority, SyncPriority::High);
    assert!(!g.is_deleted());
    let mut row = goal_row();
    row.sync_priority = "whenever".to_string();
    assert_eq!(row.into_entity().unwrap().sync_priority, SyncPriority::Normal);
    let mut row = goal_row();
    row.kpi_updated_by = Some("me".to_string());
    match row.into_entity().unwrap_err() {
        DomainError::Validation(ValidationError::Format { field, reason }) => {
            assert_eq!(field, "kpi_updated_by");
            assert_eq!(reason, "Invalid UUID format: me");
        }
        other => panic!("unexpected {:?}", other),
    }
}

#[test]
fn objective_code_rules() {
    assert!(check_objective_code("AB").is_ok());
    assert!(matches!(check_objective_code(""), Err(DomainError::Validation(ValidationError::Required { .. }))));
    assert!(matches!(check_objective_code("A"), Err(DomainError::Validation(ValidationError::MinLength { min: 2, .. }))));
    assert!(matches!(check_objective_code(&"A".repeat(51)),
        Err(DomainError::Validation(ValidationError::MaxLength { max: 50, .. }))));
    assert!(check_changed_objective_code(&None).is_ok());
    assert!(matches!(check_changed_objective_code(&Some("Z".to_string())),
        Err(DomainError::Validation(ValidationError::MinLength { field, .. })) if field == "objective_code"));
}

#[test]
fn goal_filters() {
    let f = StrategicGoalFilter::default();
    assert!(f.is_empty());
    assert_eq!(f.exclude_deleted, Some(true));
    assert!(StrategicGoalFilter::all().is_empty());
    let f = StrategicGoalFilter::by_status(vec![1, 2]);
    assert!(!f.is_empty());
    assert_eq!(f.status_ids, Some(vec![1, 2]));
    assert!(f.years.is_none());
    let f = StrategicGoalFilter::by_date_parts(Some(vec![2024]), None);
    assert_eq!(f.years, Some(vec![2024]));
    assert!(!f.is_empty());
    assert!(StrategicGoalFilter::by_date_parts(None, None).is_empty());
}
