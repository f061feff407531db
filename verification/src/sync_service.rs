//! The decisions of the synchronisation service: the batches it opens, when a push has
//! nothing to send, how the counts of a push, a pull and a whole sync are made, which
//! API token is used, which file of a document is uploaded, and how many transfers run
//! at once.

use vstd::prelude::*;
use crate::clock::Timestamp;
use crate::errors::{DomainError, ServiceError};
use crate::ident::{fresh_uuid, parse_uuid_text, uuid_parsed, uuid_to_text};
use crate::sync_records::SyncBatch;
use crate::sync_types::{SyncBatchStatus, SyncDirection};

verus! {

/// Totals of synchronisation work. The average duration is the bit pattern of a
/// floating-point number of seconds.
#[derive(Clone, Debug)]
pub struct SyncStats {
    pub total_uploads: i64,
    pub total_downloads: i64,
    pub failed_uploads: i64,
    pub failed_downloads: i64,
    pub conflicts_encountered: i64,
    pub conflicts_resolved_auto: i64,
    pub conflicts_resolved_manual: i64,
    pub conflicts_pending: i64,
    pub total_bytes_uploaded: i64,
    pub total_bytes_downloaded: i64,
    pub last_full_sync: Option<Timestamp>,
    pub avg_sync_duration_seconds: Option<u64>,
}

/// True when every count is zero and nothing else is known.
pub open spec fn is_empty_stats(s: SyncStats) -> bool {
    &&& s.total_uploads == 0 && s.total_downloads == 0
    &&& s.failed_uploads == 0 && s.failed_downloads == 0
    &&& s.conflicts_encountered == 0 && s.conflicts_resolved_auto == 0
    &&& s.conflicts_resolved_manual == 0 && s.conflicts_pending == 0
    &&& s.total_bytes_uploaded == 0 && s.total_bytes_downloaded == 0
    &&& s.last_full_sync is None && s.avg_sync_duration_seconds is None
}

/// Totals with nothing counted yet.
pub fn empty_stats() -> (r: SyncStats)
    ensures
        is_empty_stats(r),
{
    SyncStats {
        total_uploads: 0,
        total_downloads: 0,
        failed_uploads: 0,
        failed_downloads: 0,
        conflicts_encountered: 0,
        conflicts_resolved_auto: 0,
        conflicts_resolved_manual: 0,
        conflicts_pending: 0,
        total_bytes_uploaded: 0,
        total_bytes_downloaded: 0,
        last_full_sync: None,
        avg_sync_duration_seconds: None,
    }
}

/// The device a request comes from: its identifier when that is a UUID, else the nil
/// identifier.
pub fn device_or_nil(device_id: &str) -> (r: u128)
    ensures
        r == match uuid_parsed(device_id@) { Some(u) => u, None => 0 },
{
    match parse_uuid_text(device_id) {
        Some(u) => u,
        None => 0,
    }
}

/// True when a batch is a new one in the given direction: pending, with a fresh
/// identifier, priority 0 (the position of `High` among the priorities), no attempt
/// yet, nothing counted and nothing finished.
pub open spec fn is_new_batch(b: SyncBatch, device_id: u128, direction: SyncDirection) -> bool {
    &&& b.device_id == device_id
    &&& b.direction == direction
    &&& b.status == SyncBatchStatus::Pending
    &&& b.item_count is None && b.total_size is None
    &&& b.priority == Some(0i64)
    &&& b.attempts == Some(0i64)
    &&& b.last_attempt_at is None && b.error_message is None && b.completed_at is None
}

fn new_batch(device_id: u128, direction: SyncDirection) -> (r: SyncBatch)
    ensures
        is_new_batch(r, device_id, direction),
{
    SyncBatch {
        batch_id: uuid_to_text(fresh_uuid()),
        device_id,
        direction,
        status: SyncBatchStatus::Pending,
        item_count: None,
        total_size: None,
        priority: Some(0),
        attempts: Some(0),
        last_attempt_at: None,
        error_message: None,
        created_at: Timestamp::now(),
        completed_at: None,
    }
}

/// A new upload batch of a device, opened now.
pub fn build_upload_batch(device_id: u128) -> (r: SyncBatch)
    ensures
        is_new_batch(r, device_id, SyncDirection::Upload),
{
    new_batch(device_id, SyncDirection::Upload)
}

/// A new download batch of a device, opened now.
pub fn build_download_batch(device_id: u128) -> (r: SyncBatch)
    ensures
        is_new_batch(r, device_id, SyncDirection::Download),
{
    new_batch(device_id, SyncDirection::Download)
}

/// The number of items a push carries: its changes and its tombstones; `None` when
/// there is nothing to push.
pub fn push_item_count(changes: usize, tombstones: usize) -> (r: Option<i64>)
    requires
        changes + tombstones <= i64::MAX,
    ensures
        r == (if changes == 0 && tombstones == 0 { None } else { Some((changes + tombstones) as i64) }),
{
    if changes == 0 && tombstones == 0 {
        None
    } else {
        Some((changes as i64) + (tombstones as i64))
    }
}

/// The counts of a push from the server's answer: the accepted changes are uploads; the
/// rejected ones and the conflicts are failed uploads.
pub fn push_stats(accepted: i64, rejected: i64, conflicts: i64) -> (r: SyncStats)
    requires
        i64::MIN <= rejected + conflicts <= i64::MAX,
    ensures
        r.total_uploads == accepted,
        r.failed_uploads == rejected + conflicts,
        is_empty_stats(SyncStats { total_uploads: 0, failed_uploads: 0, ..r }),
{
    let mut s = empty_stats();
    s.total_uploads = accepted;
    s.failed_uploads = rejected + conflicts;
    s
}

/// The counts of a pull, built up as tombstones are applied.
pub struct PullTally {
    downloads: i64,
    failures: i64,
}

impl PullTally {
    pub closed spec fn downloads(&self) -> int {
        self.downloads as int
    }

    pub closed spec fn failures(&self) -> int {
        self.failures as int
    }

    #[verifier::type_invariant]
    closed spec fn counts_not_negative(&self) -> bool {
        self.downloads >= 0 && self.failures >= 0
    }

    pub fn new() -> (r: PullTally)
        ensures
            r.downloads() == 0,
            r.failures() == 0,
    {
        PullTally { downloads: 0, failures: 0 }
    }

    /// Counts one tombstone: applied, it is a download; refused, a failed download.
    pub fn record_tombstone(&mut self, applied: bool)
        requires
            old(self).downloads() < i64::MAX,
            old(self).failures() < i64::MAX,
        ensures
            applied ==> final(self).downloads() == old(self).downloads() + 1 && final(self).failures() == old(self).failures(),
            !applied ==> final(self).failures() == old(self).failures() + 1 && final(self).downloads() == old(self).downloads(),
    {
        proof {
            use_type_invariant(&*self);
        }
        if applied {
            self.downloads = self.downloads + 1;
        } else {
            self.failures = self.failures + 1;
        }
    }

    /// The counts of the pull: the applied tombstones and changes are downloads; the
    /// refused tombstones are failed downloads.
    pub fn finish(self, applied_changes: usize) -> (r: SyncStats)
        requires
            self.downloads() + applied_changes <= i64::MAX,
        ensures
            r.total_downloads == self.downloads() + applied_changes,
            r.failed_downloads == self.failures(),
            is_empty_stats(SyncStats { total_downloads: 0, failed_downloads: 0, ..r }),
    {
        proof {
            use_type_invariant(&self);
        }
        let mut s = empty_stats();
        s.total_downloads = self.downloads + applied_changes as i64;
        s.failed_downloads = self.failures;
        s
    }
}

/// The counts of a whole sync: the uploads of its push and the downloads of its pull.
pub fn combine_stats(push: &SyncStats, pull: &SyncStats) -> (r: SyncStats)
    ensures
        r.total_uploads == push.total_uploads,
        r.failed_uploads == push.failed_uploads,
        r.total_downloads == pull.total_downloads,
        r.failed_downloads == pull.failed_downloads,
        is_empty_stats(SyncStats { total_uploads: 0, failed_uploads: 0, total_downloads: 0, failed_downloads: 0, ..r }),
{
    let mut s = empty_stats();
    s.total_uploads = push.total_uploads;
    s.failed_uploads = push.failed_uploads;
    s.total_downloads = pull.total_downloads;
    s.failed_downloads = pull.failed_downloads;
    s
}

/// The API token for the server: the one in the user's sync settings; without one,
/// synchronisation is not authorised.
pub fn api_token_from(server_token: Option<String>) -> (r: Result<String, ServiceError>)
    ensures
        match server_token {
            Some(t) => r == Ok::<String, ServiceError>(t),
            None => r matches Err(ServiceError::Domain(DomainError::AuthorizationFailed(m)))
                && m@ == "No API token configured for sync"@,
        },
{
    match server_token {
        Some(t) => Ok(t),
        None => Err(ServiceError::Domain(DomainError::AuthorizationFailed(String::from_str("No API token configured for sync")))),
    }
}

/// Which file of a document is uploaded, and whether it is the compressed one: the
/// compressed file when its compression is known to be complete and it has one; the
/// uncompressed file otherwise.
pub fn upload_source(file_path: &str, compressed_file_path: &Option<String>, compression_completed: Option<bool>) -> (r: (String, bool))
    ensures
        match (compression_completed, *compressed_file_path) {
            (Some(true), Some(c)) => r.0@ == c@ && r.1,
            _ => r.0@ == file_path@ && !r.1,
        },
{
    match (compression_completed, compressed_file_path) {
        (Some(true), Some(c)) => (String::from_str(c.as_str()), true),
        _ => (String::from_str(file_path), false),
    }
}

/// How many uploads and downloads may run at once: as configured, else 3 each.
pub fn parallel_limits(max_uploads: Option<usize>, max_downloads: Option<usize>) -> (r: (usize, usize))
    ensures
        r.0 == match max_uploads { Some(n) => n, None => 3 },
        r.1 == match max_downloads { Some(n) => n, None => 3 },
{
    let uploads = match max_uploads {
        Some(n) => n,
        None => 3,
    };
    let downloads = match max_downloads {
        Some(n) => n,
        None => 3,
    };
    (uploads, downloads)
}

} // verus!
