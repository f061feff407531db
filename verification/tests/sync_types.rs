use fieldsync::errors::{DomainError, ValidationError};
use fieldsync::sync_types::{
    ChangeOperationType, ConflictResolutionStatus, ConflictResolutionStrategy, DeviceSyncStatus, SyncBatchStatus,
    SyncDirection, SyncMode, SyncPriority,
};

fn custom_message(e: DomainError) -> String {
    match e {
        DomainError::Validation(ValidationError::Custom(m)) => m,
        other => panic!("unexpected {:?}", other),
    }
}

#[test]
fn enum_names_round_trip() {
    for d in [SyncDirection::Upload, SyncDirection::Download] {
        assert_eq!(SyncDirection::from_str(d.as_str()).unwrap(), d);
    }
    for s in [SyncBatchStatus::Pending, SyncBatchStatus::Processing, SyncBatchStatus::Completed, SyncBatchStatus::Failed, SyncBatchStatus::PartiallyFailed] {
        assert_eq!(SyncBatchStatus::from_str(s.as_str()).unwrap(), s);
    }
    for s in [DeviceSyncStatus::Success, DeviceSyncStatus::PartialSuccess, DeviceSyncStatus::Failed, DeviceSyncStatus::InProgress] {
        assert_eq!(DeviceSyncStatus::from_str(s.as_str()).unwrap(), s);
    }
    for o in [ChangeOperationType::Create, ChangeOperationType::Update, ChangeOperationType::Delete, ChangeOperationType::HardDelete] {
        assert_eq!(ChangeOperationType::from_str(o.as_str()), Some(o));
    }
    for s in [ConflictResolutionStatus::Resolved, ConflictResolutionStatus::Unresolved, ConflictResolutionStatus::Manual, ConflictResolutionStatus::Ignored] {
        assert_eq!(ConflictResolutionStatus::from_str(s.as_str()).unwrap(), s);
    }
    for s in [ConflictResolutionStrategy::ServerWins, ConflictResolutionStrategy::ClientWins, ConflictResolutionStrategy::LastWriteWins,
              ConflictResolutionStrategy::MergePrioritizeServer, ConflictResolutionStrategy::MergePrioritizeClient, ConflictResolutionStrategy::Manual] {
        assert_eq!(ConflictResolutionStrategy::from_str(s.as_str()).unwrap(), s);
    }
    for m in [SyncMode::Full, SyncMode::Incremental, SyncMode::Minimal, SyncMode::Selective] {
        assert_eq!(SyncMode::from_str(m.as_str()).unwrap(), m);
    }
    for p in [SyncPriority::High, SyncPriority::Normal, SyncPriority::Low, SyncPriority::Never] {
        assert_eq!(SyncPriority::from_str(p.as_str()).unwrap(), p);
    }
}

#[test]
fn enum_names_are_the_stored_ones() {
    assert_eq!(SyncBatchStatus::PartiallyFailed.as_str(), "partially_failed");
    assert_eq!(DeviceSyncStatus::InProgress.as_str(), "in_progress");
    assert_eq!(ChangeOperationType::HardDelete.as_str(), "hard_delete");
    assert_eq!(ConflictResolutionStrategy::MergePrioritizeClient.as_str(), "merge_prioritize_client");
    assert_eq!(SyncMode::Incremental.as_str(), "incremental");
}

#[test]
fn unknown_names_are_refused() {
    assert_eq!(custom_message(SyncDirection::from_str("sideways").unwrap_err()), "Invalid SyncDirection string: sideways");
    assert_eq!(custom_message(SyncBatchStatus::from_str("Pending").unwrap_err()), "Invalid SyncBatchStatus string: Pending");
    assert_eq!(custom_message(SyncMode::from_str("").unwrap_err()), "Invalid SyncMode string: ");
    assert_eq!(ChangeOperationType::from_str("upsert"), None);
    assert_eq!(custom_message(SyncPriority::from_str("urgent").unwrap_err()), "Invalid SyncPriority string: urgent");
}

#[test]
fn sync_priority_reads_any_case() {
    assert_eq!(SyncPriority::from_str("HIGH").unwrap(), SyncPriority::High);
    assert_eq!(SyncPriority::from_str("Never").unwrap(), SyncPriority::Never);
    assert_eq!(SyncPriority::default(), SyncPriority::Normal);
}

#[test]
fn queue_priorities() {
    assert_eq!(ChangeOperationType::Create.priority_value(), 7);
    assert_eq!(ChangeOperationType::Update.priority_value(), 5);
    assert_eq!(ChangeOperationType::Delete.priority_value(), 8);
    assert_eq!(ChangeOperationType::HardDelete.priority_value(), 9);
    assert_eq!(SyncPriority::High.queue_floor(), 8);
    assert_eq!(SyncPriority::Normal.queue_floor(), 5);
    assert_eq!(SyncPriority::Low.queue_floor(), 3);
    assert_eq!(SyncPriority::Never.queue_floor(), 0);
    assert!(SyncPriority::High.admits(ChangeOperationType::Delete));
    assert!(!SyncPriority::High.admits(ChangeOperationType::Create));
    assert!(SyncPriority::Normal.admits(ChangeOperationType::Update));
}

#[test]
fn values_convert_to_their_names() {
    assert_eq!(String::from(SyncDirection::Upload), "upload");
    assert_eq!(String::from(SyncBatchStatus::PartiallyFailed), "partially_failed");
    assert_eq!(String::from(DeviceSyncStatus::InProgress), "in_progress");
    assert_eq!(String::from(ChangeOperationType::HardDelete), "hard_delete");
    assert_eq!(String::from(SyncPriority::Never), "never");
    let d: String = SyncDirection::Download.into();
    assert_eq!(d, "download");
}

#[test]
fn values_parse_through_from_str() {
    assert_eq!("download".parse::<SyncDirection>().unwrap(), SyncDirection::Download);
    assert_eq!("failed".parse::<SyncBatchStatus>().unwrap(), SyncBatchStatus::Failed);
    assert_eq!("HIGH".parse::<SyncPriority>().unwrap(), SyncPriority::High);
    assert_eq!("Low".parse::<SyncPriority>().unwrap(), SyncPriority::Low);
    assert!("sideways".parse::<SyncDirection>().is_err());
    assert_eq!("manual".parse::<ConflictResolutionStatus>().unwrap(), ConflictResolutionStatus::Manual);
}
