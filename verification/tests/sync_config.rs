use fieldsync::clock::Timestamp;
use fieldsync::errors::{DomainError, ValidationError};
use fieldsync::sync_config::{plan_sync_config_write, SyncConfig, SyncConfigRow, SyncConfigWrite, SyncStatus};

const USER: &str = "550e8400-e29b-41d4-a716-446655440000";
const USER_VALUE: u128 = 0x550e8400_e29b_41d4_a716_446655440000;
const CONF: &str = "6ba7b810-9dad-11d1-80b4-00c04fd430c8";
const CONF_VALUE: u128 = 0x6ba7b810_9dad_11d1_80b4_00c04fd430c8;

fn at(text: &str) -> Timestamp {
    Timestamp::parse_rfc3339(text).unwrap()
}

fn config_row() -> SyncConfigRow {
    SyncConfigRow {
        id: CONF.to_string(),
        user_id: USER.to_string(),
        sync_interval_minutes: 30,
        sync_interval_minutes_updated_at: Some("2024-01-01T00:00:00Z".to_string()),
        sync_interval_minutes_updated_by_user_id: Some(USER.to_string()),
        sync_interval_minutes_updated_by_device_id: None,
        background_sync_enabled: 1,
        background_sync_enabled_updated_at: None,
        background_sync_enabled_updated_by_user_id: None,
        background_sync_enabled_updated_by_device_id: None,
        wifi_only: 0,
        wifi_only_updated_at: None,
        wifi_only_updated_by_user_id: None,
        wifi_only_updated_by_device_id: None,
        charging_only: 2,
        charging_only_updated_at: None,
        charging_only_updated_by_user_id: None,
        charging_only_updated_by_device_id: None,
        sync_priority_threshold: 3,
        sync_priority_threshold_updated_at: None,
        sync_priority_threshold_updated_by_user_id: None,
        sync_priority_threshold_updated_by_device_id: None,
        document_sync_enabled: 1,
        document_sync_enabled_updated_at: None,
        document_sync_enabled_updated_by_user_id: None,
        document_sync_enabled_updated_by_device_id: None,
        metadata_sync_enabled: 0,
        metadata_sync_enabled_updated_at: None,
        metadata_sync_enabled_updated_by_user_id: None,
        metadata_sync_enabled_updated_by_device_id: None,
        server_token: Some("tok".to_string()),
        server_token_updated_at: None,
        server_token_updated_by_user_id: None,
        server_token_updated_by_device_id: None,
        last_sync_timestamp: None,
        created_at: "2024-01-01T00:00:00Z".to_string(),
        created_by_device_id: None,
        updated_at: "2024-01-02T00:00:00Z".to_string(),
        updated_by_user_id: None,
        updated_by_device_id: None,
    }
}

#[test]
fn stored_settings_are_read() {
    let c = SyncConfig::try_from(config_row()).unwrap();
    assert_eq!(c.id, CONF_VALUE);
    assert_eq!(c.user_id, USER_VALUE);
    assert_eq!(c.sync_interval_minutes, 30);
    assert_eq!(c.sync_interval_minutes_updated_at, Some(at("2024-01-01T00:00:00Z")));
    assert_eq!(c.sync_interval_minutes_updated_by_user_id, Some(USER_VALUE));
    assert!(c.background_sync_enabled);
    assert!(!c.wifi_only);
    assert!(!c.charging_only, "a stored flag other than 1 is off");
    assert_eq!(c.sync_priority_threshold, 3);
    assert!(c.document_sync_enabled);
    assert!(!c.metadata_sync_enabled);
    assert_eq!(c.server_token.as_deref(), Some("tok"));
    assert_eq!(c.updated_at, at("2024-01-02T00:00:00Z"));
}

#[test]
fn stored_settings_report_the_first_bad_field() {
    let mut row = config_row();
    row.wifi_only_updated_at = Some("later".to_string());
    row.updated_at = "never".to_string();
    match SyncConfig::try_from(row).unwrap_err() {
        DomainError::Validation(ValidationError::Format { field, reason }) => {
            assert_eq!(field, "sync_config.wifi_only_updated_at");
            assert_eq!(reason, "Invalid RFC3339 format: later");
        }
        other => panic!("unexpected {:?}", other),
    }
    let mut row = config_row();
    row.user_id = "me".to_string();
    match SyncConfig::try_from(row).unwrap_err() {
        DomainError::Validation(ValidationError::Format { field, .. }) => assert_eq!(field, "sync_config.user_id"),
        other => panic!("unexpected {:?}", other),
    }
}

#[test]
fn default_settings_for_a_new_user() {
    let now = at("2024-03-03T03:03:03Z");
    let c = SyncConfig::default_for_user(CONF_VALUE, USER_VALUE, now);
    assert_eq!(c.sync_interval_minutes, 60);
    assert!(c.background_sync_enabled && c.wifi_only && !c.charging_only);
    assert_eq!(c.sync_priority_threshold, 1);
    assert!(c.document_sync_enabled && c.metadata_sync_enabled);
    assert_eq!(c.server_token, None);
    assert_eq!(c.wifi_only_updated_at, Some(now));
    assert_eq!(c.wifi_only_updated_by_user_id, Some(USER_VALUE));
    assert_eq!(c.created_at, now);
    assert_eq!(c.updated_by_user_id, Some(USER_VALUE));
    assert_eq!(c.last_sync_timestamp, None);
}

#[test]
fn settings_are_inserted_or_overwritten() {
    let now = at("2024-03-03T03:03:03Z");
    let c = SyncConfig::default_for_user(CONF_VALUE, USER_VALUE, now);
    match plan_sync_config_write(c.clone(), false, now, 9, "whatever") {
        SyncConfigWrite::Insert(i) => assert_eq!(i.id, CONF_VALUE),
        other => panic!("unexpected {:?}", other),
    }
    let later = at("2024-04-04T04:04:04Z");
    match plan_sync_config_write(c.clone(), true, later, 9, CONF) {
        SyncConfigWrite::Update(u) => {
            assert_eq!(u.user_id, USER_VALUE);
            assert_eq!(u.sync_interval_minutes, 60);
            assert_eq!(u.stamped_at, later);
            assert_eq!(u.stamped_by_user_id, 9);
            assert_eq!(u.stamped_by_device_id, Some(CONF_VALUE));
            assert_eq!(u.last_sync_timestamp, None);
        }
        other => panic!("unexpected {:?}", other),
    }
    match plan_sync_config_write(c, true, later, 9, "device-7") {
        SyncConfigWrite::Update(u) => assert_eq!(u.stamped_by_device_id, None),
        other => panic!("unexpected {:?}", other),
    }
}

#[test]
fn sync_status_is_assembled() {
    let now = at("2024-03-03T03:03:03Z");
    let c = SyncConfig::default_for_user(CONF_VALUE, USER_VALUE, now);
    let s = SyncStatus::assemble(USER_VALUE, &c, Some("2024-03-04T00:00:00Z".to_string()), 4, 2, 1);
    assert_eq!(s.user_id, USER_VALUE);
    assert_eq!(s.last_device_sync, Some(at("2024-03-04T00:00:00Z")));
    assert!(s.sync_enabled && !s.offline_mode && s.sync_in_progress);
    assert_eq!((s.pending_changes, s.pending_documents), (4, 2));
    let s = SyncStatus::assemble(USER_VALUE, &c, Some("garbled".to_string()), 0, 0, 0);
    assert_eq!(s.last_device_sync, None);
    assert!(!s.sync_in_progress);
}

#[test]
fn stored_settings_read_back() {
    let now = at("2024-03-03T03:03:03Z");
    let c = SyncConfig::default_for_user(CONF_VALUE, USER_VALUE, now);
    let row = c.to_row();
    assert_eq!(row.id, CONF);
    assert_eq!(row.user_id, USER);
    assert_eq!((row.background_sync_enabled, row.charging_only), (1, 0));
    assert_eq!(row.created_at, "2024-03-03T03:03:03+00:00");
    let back = SyncConfig::try_from(row).unwrap();
    assert_eq!((back.id, back.user_id), (CONF_VALUE, USER_VALUE));
    assert_eq!(back.sync_interval_minutes, 60);
    assert!(back.background_sync_enabled && back.wifi_only && !back.charging_only);
    assert_eq!(back.sync_priority_threshold, 1);
    assert!(back.server_token.is_none() && back.last_sync_timestamp.is_none());
    assert_eq!(back.created_at.to_rfc3339(), "2024-03-03T03:03:03+00:00");
    assert_eq!(back.sync_interval_minutes_updated_by_user_id, Some(USER_VALUE));
}
