use fieldsync::errors::{DomainError, ValidationError};
use fieldsync::sync_records::{
    read_conflict_entries, read_conflict_entry, read_last_change_stamp,
    AppConnectionSettings, AppConnectionSettingsRow, ChangeLogEntry, ChangeLogEntryRow, DeviceStateLookupRow,
    DeviceSyncState, DeviceSyncStateRow, SyncBatch, SyncBatchRow, SyncConflict, SyncConflictRow, Tombstone, TombstoneRow,
};
use fieldsync::sync_types::{ChangeOperationType, ConflictResolutionStatus, DeviceSyncStatus, SyncBatchStatus, SyncDirection};

const DEV: &str = "550e8400-e29b-41d4-a716-446655440000";
const DEV_VALUE: u128 = 0x550e8400_e29b_41d4_a716_446655440000;

fn batch_row() -> SyncBatchRow {
    SyncBatchRow {
        batch_id: "b1".to_string(),
        device_id: DEV.to_string(),
        direction: "upload".to_string(),
        status: "pending".to_string(),
        item_count: Some(3),
        total_size: None,
        priority: Some(0),
        attempts: Some(1),
        last_attempt_at: None,
        error_message: None,
        created_at: "2024-05-01T10:00:00Z".to_string(),
        completed_at: Some("2024-05-01T10:05:00+02:00".to_string()),
    }
}

fn format_error(e: DomainError) -> (String, String) {
    match e {
        DomainError::Validation(ValidationError::Format { field, reason }) => (field, reason),
        other => panic!("unexpected {:?}", other),
    }
}

#[test]
fn sync_batch_row_reads() {
    let b = SyncBatch::try_from(batch_row()).unwrap();
    assert_eq!(b.batch_id, "b1");
    assert_eq!(b.device_id, DEV_VALUE);
    assert_eq!(b.direction, SyncDirection::Upload);
    assert_eq!(b.status, SyncBatchStatus::Pending);
    assert_eq!(b.item_count, Some(3));
    assert_eq!(b.created_at.seconds(), 1714557600);
    assert_eq!(b.completed_at.unwrap().seconds(), 1714557600 - 7200 + 300);
}

#[test]
fn sync_batch_row_reports_first_bad_field() {
    let mut row = batch_row();
    row.device_id = "not-a-uuid".to_string();
    row.direction = "sideways".to_string();
    let (f, r) = format_error(SyncBatch::try_from(row).unwrap_err());
    assert_eq!(f, "sync_batch.device_id");
    assert_eq!(r, "Invalid UUID format: not-a-uuid");

    let mut row = batch_row();
    row.status = "done".to_string();
    match SyncBatch::try_from(row).unwrap_err() {
        DomainError::Validation(ValidationError::Custom(m)) => assert_eq!(m, "Invalid SyncBatchStatus string: done"),
        other => panic!("unexpected {:?}", other),
    }

    let mut row = batch_row();
    row.created_at = "yesterday".to_string();
    let (f, r) = format_error(SyncBatch::try_from(row).unwrap_err());
    assert_eq!((f.as_str(), r.as_str()), ("sync_batch.created_at", "Invalid RFC3339 format: yesterday"));
}

#[test]
fn change_log_row_reads() {
    let row = ChangeLogEntryRow {
        operation_id: "00000000-0000-0000-0000-000000000009".to_string(),
        entity_table: "users".to_string(),
        entity_id: DEV.to_string(),
        operation_type: "hard_delete".to_string(),
        field_name: None,
        old_value: None,
        new_value: Some("{}".to_string()),
        document_metadata: None,
        timestamp: "2024-01-01T00:00:00Z".to_string(),
        user_id: DEV.to_string(),
        device_id: None,
        sync_batch_id: Some("b".to_string()),
        processed_at: None,
        sync_error: None,
    };
    let c = ChangeLogEntry::try_from(row.clone()).unwrap();
    assert_eq!(c.operation_id, 9);
    assert_eq!(c.operation_type, ChangeOperationType::HardDelete);
    assert_eq!(c.new_value.as_deref(), Some("{}"));
    let mut bad = row;
    bad.operation_type = "merge".to_string();
    match ChangeLogEntry::try_from(bad).unwrap_err() {
        DomainError::Validation(ValidationError::Custom(m)) => assert_eq!(m, "Invalid ChangeOperationType"),
        other => panic!("unexpected {:?}", other),
    }
}

#[test]
fn tombstones() {
    let t = Tombstone::new(5, "donors", 6, Some(7));
    assert_eq!((t.entity_id, t.deleted_by, t.deleted_by_device_id), (5, 6, Some(7)));
    assert_eq!(t.entity_type, "donors");
    assert!(t.additional_metadata.is_none());
    let t2 = Tombstone::with_operation_id(5, "donors", 6, None, 99);
    assert_eq!(t2.operation_id, 99);
    let row = TombstoneRow {
        id: DEV.to_string(),
        entity_id: DEV.to_string(),
        entity_type: "projects".to_string(),
        deleted_by: DEV.to_string(),
        deleted_by_device_id: Some("zzz".to_string()),
        deleted_at: "2024-01-01T00:00:00Z".to_string(),
        operation_id: DEV.to_string(),
        additional_metadata: None,
    };
    let (f, r) = format_error(Tombstone::try_from(row).unwrap_err());
    assert_eq!((f.as_str(), r.as_str()), ("tombstone.deleted_by_device_id", "Invalid UUID format: zzz"));
}

#[test]
fn device_state_rows() {
    let row = DeviceSyncStateRow {
        device_id: DEV.to_string(),
        user_id: DEV.to_string(),
        last_upload_timestamp: None,
        last_download_timestamp: None,
        last_sync_status: Some("partial_success".to_string()),
        last_sync_attempt_at: None,
        server_version: Some(4),
        sync_enabled: Some(1),
        created_at: "2024-01-01T00:00:00Z".to_string(),
        updated_at: "2024-01-02T00:00:00Z".to_string(),
    };
    let d = DeviceSyncState::try_from(row).unwrap();
    assert_eq!(d.last_sync_status, Some(DeviceSyncStatus::PartialSuccess));
    assert_eq!(d.sync_enabled, Some(true));

    assert!(matches!(DeviceSyncState::from_lookup(1, None), Err(DomainError::EntityNotFound(t, 1)) if t == "DeviceSyncState"));
    let lookup = DeviceStateLookupRow {
        user_id: None,
        last_upload_timestamp: None,
        last_download_timestamp: None,
        last_sync_status: None,
        last_sync_attempt_at: None,
        server_version: None,
        sync_enabled: None,
        created_at: "2024-01-01T00:00:00Z".to_string(),
        updated_at: "2024-01-01T00:00:00Z".to_string(),
    };
    assert!(matches!(DeviceSyncState::from_lookup(1, Some(lookup.clone())),
        Err(DomainError::Validation(ValidationError::Required { field })) if field == "user_id"));
    let mut found = lookup;
    found.user_id = Some(DEV.to_string());
    found.last_sync_status = Some("weird".to_string());
    let d = DeviceSyncState::from_lookup(2, Some(found)).unwrap();
    assert_eq!(d.device_id, 2);
    assert_eq!(d.last_sync_status, None);
    assert_eq!(d.server_version, Some(0));
    assert_eq!(d.sync_enabled, Some(false));
}

#[test]
fn settings_and_conflicts() {
    let row = AppConnectionSettingsRow {
        id: "cloud".to_string(),
        api_endpoint: "https://example.org".to_string(),
        api_version: None,
        connection_timeout: Some(30),
        offline_mode_enabled: Some(2),
        retry_count: None,
        retry_delay: None,
        updated_at: "2024-01-01T00:00:00Z".to_string(),
    };
    let s = AppConnectionSettings::try_from(row).unwrap();
    assert_eq!(s.offline_mode_enabled, Some(false));

    let row = SyncConflictRow {
        conflict_id: DEV.to_string(),
        entity_table: "users".to_string(),
        entity_id: DEV.to_string(),
        field_name: Some("email".to_string()),
        local_change_op_id: "x".to_string(),
        remote_change_op_id: "y".to_string(),
        resolution_status: "manual".to_string(),
        resolution_strategy: Some("server_wins".to_string()),
        resolved_by_user_id: None,
        resolved_by_device_id: None,
        resolved_at: None,
        created_at: "2024-01-01T00:00:00Z".to_string(),
        created_by_device_id: None,
    };
    let c = SyncConflict::try_from(row.clone()).unwrap();
    assert_eq!(c.resolution_status, ConflictResolutionStatus::Manual);
    assert_eq!(c.local_change.operation_id, 0);
    assert_eq!(c.local_change.entity_table, "");
    let mut bad = row;
    bad.resolution_strategy = Some("coin_flip".to_string());
    match SyncConflict::try_from(bad).unwrap_err() {
        DomainError::Validation(ValidationError::Custom(m)) => assert_eq!(m, "Invalid ConflictResolutionStrategy string: coin_flip"),
        other => panic!("unexpected {:?}", other),
    }
}

fn failed_row(op: &str, user: &str) -> ChangeLogEntryRow {
    ChangeLogEntryRow {
        operation_id: op.to_string(),
        entity_table: "workshops".to_string(),
        entity_id: DEV.to_string(),
        operation_type: "update".to_string(),
        field_name: Some("location".to_string()),
        old_value: None,
        new_value: Some("\"Kigali\"".to_string()),
        document_metadata: None,
        timestamp: "2024-01-01T00:00:00Z".to_string(),
        user_id: user.to_string(),
        device_id: Some(DEV.to_string()),
        sync_batch_id: Some("b7".to_string()),
        processed_at: Some("2024-01-02T00:00:00Z".to_string()),
        sync_error: Some("conflict".to_string()),
    }
}

#[test]
fn failed_entries_are_read_in_order() {
    let rows = vec![
        failed_row("00000000-0000-0000-0000-000000000001", DEV),
        failed_row("00000000-0000-0000-0000-000000000002", DEV),
    ];
    let entries = read_conflict_entries(&rows).unwrap();
    assert_eq!(entries.len(), 2);
    assert_eq!(entries[0].operation_id, 1);
    assert_eq!(entries[1].operation_id, 2);
    assert_eq!(entries[1].device_id, Some(DEV_VALUE));
    assert_eq!(entries[1].sync_error.as_deref(), Some("conflict"));
    assert_eq!(entries[1].operation_type, ChangeOperationType::Update);
    assert!(read_conflict_entries(&vec![]).unwrap().is_empty());
}

#[test]
fn first_unreadable_failed_entry_decides() {
    let rows = vec![
        failed_row("00000000-0000-0000-0000-000000000001", DEV),
        failed_row("00000000-0000-0000-0000-000000000002", "nobody"),
        failed_row("bad", DEV),
    ];
    assert_eq!(
        format_error(read_conflict_entries(&rows).unwrap_err()),
        ("user_id".to_string(), "Invalid UUID: nobody".to_string())
    );
    let mut late = failed_row("00000000-0000-0000-0000-000000000001", DEV);
    late.processed_at = Some("later".to_string());
    assert_eq!(
        format_error(read_conflict_entry(&late).unwrap_err()),
        ("processed_at".to_string(), "Invalid RFC3339: later".to_string())
    );
    let mut odd = failed_row("00000000-0000-0000-0000-000000000001", DEV);
    odd.operation_type = "merge".to_string();
    match read_conflict_entry(&odd).unwrap_err() {
        DomainError::Validation(ValidationError::Custom(m)) => assert_eq!(m, "Invalid operation_type: merge"),
        other => panic!("unexpected {:?}", other),
    }
}

#[test]
fn last_field_changes_are_read() {
    assert!(read_last_change_stamp(&None).unwrap().is_none());
    let t = read_last_change_stamp(&Some("2024-01-01T00:00:00Z".to_string())).unwrap().unwrap();
    assert_eq!(t.to_rfc3339(), "2024-01-01T00:00:00+00:00");
    assert_eq!(
        format_error(read_last_change_stamp(&Some("soon".to_string())).unwrap_err()),
        ("timestamp".to_string(), "Invalid RFC3339: soon".to_string())
    );
}

#[test]
fn system_tombstones_store_no_user() {
    assert_eq!(Tombstone::new(1, "workshops", 0, None).stored_deleted_by(), None);
    assert_eq!(Tombstone::new(1, "workshops", 7, None).stored_deleted_by(), Some(7));
}

#[test]
fn soft_deletions_are_logged() {
    let now = fieldsync::clock::Timestamp::parse_rfc3339("2024-05-01T10:00:00Z").unwrap();
    let e = ChangeLogEntry::soft_deletion("strategic_goals", 4, 5, Some(6), now.clone());
    assert_eq!(e.entity_table, "strategic_goals");
    assert_eq!((e.entity_id, e.user_id, e.device_id), (4, 5, Some(6)));
    assert_eq!(e.operation_type, ChangeOperationType::Delete);
    assert!(e.field_name.is_none() && e.new_value.is_none() && e.processed_at.is_none());
    assert_eq!(e.timestamp.to_rfc3339(), "2024-05-01T10:00:00+00:00");
    let other = ChangeLogEntry::soft_deletion("strategic_goals", 4, 5, None, now);
    assert_ne!(e.operation_id, other.operation_id);
}
