use fieldsync::cloud_storage::{
    auth_header, changes_url, check_download_checksum, check_upload_checksum, compute_sha256_hex, download_url,
    plan_download_target, push_url, retry_step, should_retry_status, text_contains, upload_url, AttemptResult,
    MockCloudStorageService, RetryStep, UploadChangesDto,
};
use fieldsync::errors::{DomainError, ServiceError};
use fieldsync::sync_service::{
    api_token_from, build_download_batch, build_upload_batch, combine_stats, device_or_nil, empty_stats,
    parallel_limits, push_item_count, push_stats, upload_source, PullTally,
};
use fieldsync::sync_types::{SyncBatchStatus, SyncDirection};

const DEVICE: &str = "550e8400-e29b-41d4-a716-446655440000";
const DEVICE_VALUE: u128 = 0x550e8400_e29b_41d4_a716_446655440000;

#[test]
fn endpoints_and_headers() {
    assert_eq!(auth_header("abc"), "Bearer abc");
    assert_eq!(
        changes_url("https://s", DEVICE_VALUE, &None),
        format!("https://s/api/sync/changes?deviceId={}", DEVICE)
    );
    assert_eq!(
        changes_url("https://s", DEVICE_VALUE, &Some("t1".to_string())),
        format!("https://s/api/sync/changes?deviceId={}&since=t1", DEVICE)
    );
    assert_eq!(push_url("https://s"), "https://s/api/sync/push");
    assert_eq!(upload_url("https://s", DEVICE_VALUE), format!("https://s/api/documents/upload/{}", DEVICE));
    assert_eq!(download_url("https://s", "k9"), "https://s/api/documents/download/k9");
}

#[test]
fn retry_policy() {
    assert!(should_retry_status(500) && should_retry_status(503) && should_retry_status(429));
    assert!(!should_retry_status(404) && !should_retry_status(200));
    assert_eq!(retry_step(0, AttemptResult::Status(201)), RetryStep::Accept);
    assert_eq!(retry_step(0, AttemptResult::Status(400)), RetryStep::GiveUp);
    assert_eq!(retry_step(0, AttemptResult::Status(502)), RetryStep::RetryAfter { delay_ms: 1000, attempt: 1 });
    assert_eq!(retry_step(1, AttemptResult::NetworkError), RetryStep::RetryAfter { delay_ms: 2000, attempt: 2 });
    assert_eq!(retry_step(2, AttemptResult::Status(429)), RetryStep::RetryAfter { delay_ms: 4000, attempt: 3 });
    assert_eq!(retry_step(3, AttemptResult::NetworkError), RetryStep::GiveUp);
    assert_eq!(retry_step(3, AttemptResult::Status(200)), RetryStep::Accept);
}

#[test]
fn checksums() {
    assert_eq!(compute_sha256_hex(b""), "e3b0c44298fc1c149afbf4c8996fb92427ae41e4649b934ca495991b7852b855");
    assert_eq!(compute_sha256_hex(b"abc"), "ba7816bf8f01cfea414140de5dae2223b00361a396177a9cb410ff61f20015ad");
    let good = Some(compute_sha256_hex(b"data"));
    assert!(check_download_checksum(&good, b"data").is_ok());
    assert!(check_download_checksum(&None, b"data").is_ok());
    assert!(matches!(check_download_checksum(&good, b"Data"),
        Err(ServiceError::Domain(DomainError::Internal(m))) if m == "Checksum mismatch in downloaded file"));
    assert!(check_upload_checksum(&Some("aa".to_string()), "aa").is_ok());
    assert!(check_upload_checksum(&None, "aa").is_ok());
    assert!(matches!(check_upload_checksum(&Some("ab".to_string()), "aa"),
        Err(ServiceError::Domain(DomainError::Internal(m))) if m == "Checksum mismatch after upload"));
}

#[test]
fn downloads_are_named_by_content_type() {
    assert!(text_contains("image/jpeg", "jpeg"));
    assert!(text_contains("abc", ""));
    assert!(!text_contains("ab", "abc"));
    assert!(!text_contains("image/png", "jpg"));
    let (p, c) = plan_download_target(Some("image/jpeg"), None, DEVICE_VALUE, "/store");
    assert_eq!((p, c), (format!("/store/{}.jpg", DEVICE), false));
    let (p, c) = plan_download_target(Some("application/pdf"), Some("true"), DEVICE_VALUE, "/store");
    assert_eq!((p, c), (format!("/store/{}_compressed.pdf", DEVICE), true));
    let (p, c) = plan_download_target(Some("application/zip"), None, DEVICE_VALUE, "/s");
    assert_eq!((p, c), (format!("/s/{}_compressed.zip", DEVICE), true));
    let (p, c) = plan_download_target(None, Some("TRUE"), DEVICE_VALUE, "/s");
    assert_eq!((p, c), (format!("/s/{}.bin", DEVICE), false));
}

#[test]
fn mock_server_accepts_everything() {
    let m = MockCloudStorageService::new("/tmp/docs");
    let r = m.get_changes_since("tok", DEVICE_VALUE, None).unwrap();
    assert!(r.changes.is_empty() && !r.has_more && r.tombstones.is_none());
    let dto = UploadChangesDto { batch_id: "b".to_string(), device_id: DEVICE_VALUE, user_id: 1, changes: vec![], tombstones: None };
    let r = m.push_changes("tok", dto).unwrap();
    assert_eq!((r.batch_id.as_str(), r.changes_accepted, r.changes_rejected), ("b", 0, 0));
    assert_eq!(m.upload_document(1, DEVICE_VALUE, "/x", "text/plain", 3).unwrap(), format!("mock_blob_key_for_{}", DEVICE));
    assert_eq!(m.download_document(DEVICE_VALUE, "k").unwrap(), (format!("/tmp/docs/{}.bin", DEVICE), 0, false));
}

#[test]
fn batches_and_counts() {
    assert_eq!(device_or_nil(DEVICE), DEVICE_VALUE);
    assert_eq!(device_or_nil("laptop"), 0);
    let b = build_upload_batch(DEVICE_VALUE);
    assert_eq!((b.device_id, b.direction, b.status), (DEVICE_VALUE, SyncDirection::Upload, SyncBatchStatus::Pending));
    assert_eq!((b.priority, b.attempts, b.item_count), (Some(0), Some(0), None));
    let d = build_download_batch(DEVICE_VALUE);
    assert_eq!(d.direction, SyncDirection::Download);
    assert_ne!(b.batch_id, d.batch_id);
    assert_eq!(push_item_count(0, 0), None);
    assert_eq!(push_item_count(2, 3), Some(5));
    let s = push_stats(5, 1, 2);
    assert_eq!((s.total_uploads, s.failed_uploads, s.total_downloads), (5, 3, 0));
    let mut t = PullTally::new();
    t.record_tombstone(true);
    t.record_tombstone(false);
    t.record_tombstone(true);
    let p = t.finish(4);
    assert_eq!((p.total_downloads, p.failed_downloads), (6, 1));
    let all = combine_stats(&s, &p);
    assert_eq!((all.total_uploads, all.failed_uploads, all.total_downloads, all.failed_downloads), (5, 3, 6, 1));
    assert!(all.last_full_sync.is_none() && all.avg_sync_duration_seconds.is_none());
    let e = empty_stats();
    assert_eq!(e.conflicts_pending, 0);
}

#[test]
fn tokens_sources_and_limits() {
    assert_eq!(api_token_from(Some("t".to_string())).unwrap(), "t");
    assert!(matches!(api_token_from(None),
        Err(ServiceError::Domain(DomainError::AuthorizationFailed(m))) if m == "No API token configured for sync"));
    assert_eq!(upload_source("/a", &Some("/a.z".to_string()), Some(true)), ("/a.z".to_string(), true));
    assert_eq!(upload_source("/a", &Some("/a.z".to_string()), Some(false)), ("/a".to_string(), false));
    assert_eq!(upload_source("/a", &None, Some(true)), ("/a".to_string(), false));
    assert_eq!(parallel_limits(None, Some(8)), (3, 8));
}
