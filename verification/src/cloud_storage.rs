//! The exchange with the sync server: endpoints, the retry policy of every request,
//! checksums of transferred documents, where a downloaded document is stored, and the
//! in-memory stand-in for the server used in tests.

use vstd::prelude::*;
use sha2::Digest;
use crate::clock::Timestamp;
use crate::errors::{DomainError, ServiceError};
use crate::ident::{fresh_uuid, uuid_text, uuid_to_text};
use crate::sync_records::{ChangeLogEntry, SyncConflict, Tombstone};
use crate::text::{join2, join3, same_text};

verus! {

/// The attempts after the first that a failing request gets.
pub const MAX_RETRIES: u64 = 3;

/// The delay before the first retry, in milliseconds; each further retry waits twice
/// as long.
pub const BASE_DELAY_MS: u64 = 1000;

/// The value of the `Authorization` header for an API token.
pub fn auth_header(api_token: &str) -> (r: String)
    ensures
        r@ == "Bearer "@ + api_token@,
{
    join2("Bearer ", api_token)
}

/// True for an HTTP status that means success (2xx).
pub open spec fn success_status(status: u16) -> bool {
    200 <= status <= 299
}

/// True for an HTTP status worth retrying: a server error (5xx) or too many requests
/// (429).
pub open spec fn retryable_status(status: u16) -> bool {
    (500 <= status <= 599) || status == 429
}

pub fn should_retry_status(status: u16) -> (r: bool)
    ensures
        r == retryable_status(status),
{
    (500 <= status && status <= 599) || status == 429
}

/// What a request attempt came to.
#[derive(Clone, Copy, Debug, PartialEq, Eq, Structural)]
pub enum AttemptResult {
    /// The server answered with this status.
    Status(u16),
    /// The request did not reach the server.
    NetworkError,
}

/// What to do after an attempt.
#[derive(Clone, Copy, Debug, PartialEq, Eq, Structural)]
pub enum RetryStep {
    /// The server answered with success: read the answer.
    Accept,
    /// Wait this many milliseconds, then make attempt number `attempt`.
    RetryAfter { delay_ms: u64, attempt: u64 },
    /// Give up and report the failure.
    GiveUp,
}

/// The wait before retry number `n` (counting from 1): `BASE_DELAY_MS * 2^(n-1)`.
pub open spec fn backoff_delay(n: nat) -> nat
    decreases n,
{
    if n <= 1 { 1000 } else { 2 * backoff_delay((n - 1) as nat) }
}

/// What follows an attempt, when `retries` retries have been made already.
pub open spec fn next_step(retries: nat, result: AttemptResult) -> RetryStep {
    match result {
        AttemptResult::Status(s) if success_status(s) => RetryStep::Accept,
        AttemptResult::Status(s) if !retryable_status(s) => RetryStep::GiveUp,
        _ => if retries < MAX_RETRIES {
            RetryStep::RetryAfter { delay_ms: backoff_delay(retries + 1) as u64, attempt: (retries + 1) as u64 }
        } else {
            RetryStep::GiveUp
        },
    }
}

/// Decides what follows an attempt, when `retries` retries have been made already: a
/// success is accepted; a retryable status or a network error is retried while fewer
/// than `MAX_RETRIES` retries have been made, after an exponential backoff; anything
/// else is given up.
pub fn retry_step(retries: u64, result: AttemptResult) -> (r: RetryStep)
    requires
        retries <= MAX_RETRIES,
    ensures
        r == next_step(retries as nat, result),
{
    let retry = match result {
        AttemptResult::Status(s) => {
            if 200 <= s && s <= 299 {
                return RetryStep::Accept;
            }
            should_retry_status(s)
        },
        AttemptResult::NetworkError => true,
    };
    if retry && retries < MAX_RETRIES {
        let next = retries + 1;
        let delay: u64 = if next == 1 { 1000 } else if next == 2 { 2000 } else { 4000 };
        proof {
            reveal_with_fuel(backoff_delay, 4);
        }
        RetryStep::RetryAfter { delay_ms: delay, attempt: next }
    } else {
        RetryStep::GiveUp
    }
}

/// A request is made at most `1 + MAX_RETRIES` times, and the waits grow: a retry is
/// only ever the next attempt and never follows the last allowed one, and each retry
/// waits twice as long as the one before.
pub proof fn retries_are_bounded(retries: nat, result: AttemptResult)
    ensures
        retries >= MAX_RETRIES ==> !(next_step(retries, result) is RetryAfter),
        next_step(retries, result) matches RetryStep::RetryAfter { delay_ms, attempt }
            ==> attempt == retries + 1 && attempt <= MAX_RETRIES && delay_ms == backoff_delay(retries + 1),
        retries >= 1 ==> backoff_delay(retries + 1) == 2 * backoff_delay(retries),
{
    if retries < MAX_RETRIES {
        reveal_with_fuel(backoff_delay, 4);
    }
}

/// The endpoint that gives the changes since a sync token.
pub fn changes_url(base_url: &str, device_id: u128, since: &Option<String>) -> (r: String)
    ensures
        r@ == base_url@ + "/api/sync/changes?deviceId="@ + uuid_text(device_id)
            + match *since { Some(t) => "&since="@ + t@, None => Seq::<char>::empty() },
{
    let device = uuid_to_text(device_id);
    let mut url = join3(base_url, "/api/sync/changes?deviceId=", device.as_str());
    match since {
        Some(t) => {
            url.append("&since=");
            url.append(t.as_str());
        },
        None => {},
    }
    proof {
        if since is Some {
            assert(url@ =~= base_url@ + "/api/sync/changes?deviceId="@ + uuid_text(device_id) + ("&since="@ + since.unwrap()@));
        } else {
            assert(url@ =~= base_url@ + "/api/sync/changes?deviceId="@ + uuid_text(device_id) + Seq::<char>::empty());
        }
    }
    url
}

/// The endpoint that takes pushed changes.
pub fn push_url(base_url: &str) -> (r: String)
    ensures
        r@ == base_url@ + "/api/sync/push"@,
{
    join2(base_url, "/api/sync/push")
}

/// The endpoint a document is uploaded to.
pub fn upload_url(base_url: &str, document_id: u128) -> (r: String)
    ensures
        r@ == base_url@ + "/api/documents/upload/"@ + uuid_text(document_id),
{
    let id = uuid_to_text(document_id);
    join3(base_url, "/api/documents/upload/", id.as_str())
}

/// The endpoint a stored document is downloaded from.
pub fn download_url(base_url: &str, blob_key: &str) -> (r: String)
    ensures
        r@ == base_url@ + "/api/documents/download/"@ + blob_key@,
{
    join3(base_url, "/api/documents/download/", blob_key)
}

/// What `sha2::Sha256` gives as the digest of a sequence of bytes.
pub uninterp spec fn sha256_digest(bytes: Seq<u8>) -> Seq<u8>;

/// Calls `sha2::Sha256::new()`, `update` and `finalize`; the digest has 32 bytes, as
/// the crate's output size says.
#[verifier::external_body]
fn sha256_of(bytes: &[u8]) -> (r: Vec<u8>)
    ensures
        r@ == sha256_digest(bytes@),
        r@.len() == 32,
{
    let mut hasher = sha2::Sha256::new();
    hasher.update(bytes);
    hasher.finalize().to_vec()
}

/// The lower-case hexadecimal digit of a number below 16.
pub open spec fn hex_digit(n: u8) -> char {
    if n < 10 { (('0' as u8) + n) as char } else { (('a' as u8) + n - 10) as char }
}

/// Bytes in lower-case hexadecimal, two digits per byte.
pub open spec fn lower_hex(bytes: Seq<u8>) -> Seq<char>
    decreases bytes.len(),
{
    if bytes.len() == 0 {
        Seq::empty()
    } else {
        lower_hex(bytes.drop_last()) + seq![hex_digit(bytes.last() / 16), hex_digit(bytes.last() % 16)]
    }
}

/// Calls `hex::encode`, which the crate documents as lower-case hexadecimal with two
/// digits per byte.
#[verifier::external_body]
fn hex_encode(bytes: &[u8]) -> (r: String)
    ensures
        r@ == lower_hex(bytes@),
{
    hex::encode(bytes)
}

/// The SHA-256 checksum of some bytes, in lower-case hexadecimal.
pub fn compute_sha256_hex(bytes: &[u8]) -> (r: String)
    ensures
        r@ == lower_hex(sha256_digest(bytes@)),
{
    let digest = sha256_of(bytes);
    hex_encode(digest.as_slice())
}

/// After an upload, the checksum the server reports (when it reports one) must be the
/// local file's.
pub fn check_upload_checksum(server_hash: &Option<String>, file_hash: &str) -> (r: Result<(), ServiceError>)
    ensures
        match *server_hash {
            Some(h) if h@ != file_hash@ => r matches Err(ServiceError::Domain(DomainError::Internal(m)))
                && m@ == "Checksum mismatch after upload"@,
            _ => r is Ok,
        },
{
    match server_hash {
        Some(h) => if !same_text(h.as_str(), file_hash) {
            Err(ServiceError::Domain(DomainError::Internal(String::from_str("Checksum mismatch after upload"))))
        } else {
            Ok(())
        },
        None => Ok(()),
    }
}

/// After a download, the checksum the server announced (when it announced one) must be
/// that of the received bytes.
pub fn check_download_checksum(expected_hash: &Option<String>, bytes: &[u8]) -> (r: Result<(), ServiceError>)
    ensures
        match *expected_hash {
            Some(h) if h@ != lower_hex(sha256_digest(bytes@)) => r matches Err(ServiceError::Domain(DomainError::Internal(m)))
                && m@ == "Checksum mismatch in downloaded file"@,
            _ => r is Ok,
        },
{
    match expected_hash {
        Some(h) => {
            let actual = compute_sha256_hex(bytes);
            if !same_text(actual.as_str(), h.as_str()) {
                Err(ServiceError::Domain(DomainError::Internal(String::from_str("Checksum mismatch in downloaded file"))))
            } else {
                Ok(())
            }
        },
        None => Ok(()),
    }
}

/// True when `needle` occurs in `hay`.
pub open spec fn occurs_in(needle: Seq<char>, hay: Seq<char>) -> bool {
    exists|i: int| 0 <= i <= hay.len() - needle.len() && #[trigger] hay.subrange(i, i + needle.len()) == needle
}

/// True when `needle` occurs in `hay`.
pub fn text_contains(hay: &str, needle: &str) -> (r: bool)
    ensures
        r == occurs_in(needle@, hay@),
{
    let n = hay.unicode_len();
    let m = needle.unicode_len();
    if m > n {
        proof {
            assert forall|i: int| 0 <= i <= hay@.len() - needle@.len() implies
                #[trigger] hay@.subrange(i, i + needle@.len()) != needle@ by {}
        }
        return false;
    }
    let mut i: usize = 0;
    while i <= n - m
        invariant
            n == hay@.len(),
            m == needle@.len(),
            m <= n,
            i <= n - m + 1,
            forall|k: int| 0 <= k < i ==> #[trigger] hay@.subrange(k, k + m) != needle@,
        decreases n - m + 1 - i,
    {
        let piece = hay.substring_char(i, i + m);
        if same_text(piece, needle) {
            return true;
        }
        if i == n - m {
            return false;
        }
        i = i + 1;
    }
    false
}

/// How a downloaded document is stored: the file's path, and whether it is compressed.
pub open spec fn download_target(content_type: Seq<char>, compressed_header: Option<Seq<char>>, document_id: Seq<char>, storage_path: Seq<char>) -> (Seq<char>, bool) {
    let compressed = occurs_in("compressed"@, content_type) || occurs_in("zip"@, content_type)
        || compressed_header == Some("true"@);
    let extension = if occurs_in("jpeg"@, content_type) || occurs_in("jpg"@, content_type) {
        "jpg"@
    } else if occurs_in("png"@, content_type) {
        "png"@
    } else if occurs_in("pdf"@, content_type) {
        "pdf"@
    } else if occurs_in("zip"@, content_type) || compressed {
        "zip"@
    } else {
        "bin"@
    };
    let name = if compressed { document_id + "_compressed."@ + extension } else { document_id + "."@ + extension };
    (storage_path + "/"@ + name, compressed)
}

/// Where a downloaded document is stored and whether it is compressed, from the
/// answer's content type (`application/octet-stream` when there is none) and its
/// `X-Compressed` header.
pub fn plan_download_target(
    content_type: Option<&str>,
    compressed_header: Option<&str>,
    document_id: u128,
    storage_path: &str,
) -> (r: (String, bool))
    ensures
        (r.0@, r.1) == download_target(
            match content_type { Some(c) => c@, None => "application/octet-stream"@ },
            match compressed_header { Some(h) => Some(h@), None => None },
            uuid_text(document_id),
            storage_path@,
        ),
{
    let ct = match content_type {
        Some(c) => c,
        None => "application/octet-stream",
    };
    let flagged = match compressed_header {
        Some(h) => same_text(h, "true"),
        None => false,
    };
    let compressed = text_contains(ct, "compressed") || text_contains(ct, "zip") || flagged;
    let extension = if text_contains(ct, "jpeg") || text_contains(ct, "jpg") {
        "jpg"
    } else if text_contains(ct, "png") {
        "png"
    } else if text_contains(ct, "pdf") {
        "pdf"
    } else if text_contains(ct, "zip") || compressed {
        "zip"
    } else {
        "bin"
    };
    let id = uuid_to_text(document_id);
    let name = if compressed {
        join3(id.as_str(), "_compressed.", extension)
    } else {
        join3(id.as_str(), ".", extension)
    };
    let path = join3(storage_path, "/", name.as_str());
    proof {
        assert(path@ =~= download_target(ct@, match compressed_header { Some(h) => Some(h@), None => None },
            uuid_text(document_id), storage_path@).0);
    }
    (path, compressed)
}

/// The changes a device pushes to the server.
#[derive(Clone, Debug)]
pub struct UploadChangesDto {
    pub batch_id: String,
    pub device_id: u128,
    pub user_id: u128,
    pub changes: Vec<ChangeLogEntry>,
    pub tombstones: Option<Vec<Tombstone>>,
}

/// The server's answer to pushed changes.
#[derive(Clone, Debug)]
pub struct UploadChangesResponse {
    pub batch_id: String,
    pub changes_accepted: i64,
    pub changes_rejected: i64,
    pub conflicts_detected: i64,
    pub conflicts: Option<Vec<SyncConflict>>,
    pub server_timestamp: Timestamp,
}

/// The server's answer to a request for changes.
#[derive(Clone, Debug)]
pub struct DownloadChangesResponse {
    pub batch_id: String,
    pub changes: Vec<ChangeLogEntry>,
    pub tombstones: Option<Vec<Tombstone>>,
    pub has_more: bool,
    pub server_timestamp: Timestamp,
    pub next_batch_hint: Option<String>,
}

/// A stand-in for the sync server that accepts every change and keeps documents under
/// a base path.
pub struct MockCloudStorageService {
    base_path: String,
}

impl MockCloudStorageService {
    /// The base path under which downloaded documents are placed.
    pub closed spec fn base(&self) -> Seq<char> {
        self.base_path@
    }

    pub fn new(base_path: &str) -> (r: MockCloudStorageService)
        ensures
            r.base() == base_path@,
    {
        MockCloudStorageService { base_path: String::from_str(base_path) }
    }

    /// No changes are waiting on the stand-in: an empty answer under a fresh batch.
    pub fn get_changes_since(&self, _api_token: &str, _device_id: u128, _sync_token: Option<String>) -> (r: Result<DownloadChangesResponse, ServiceError>)
        ensures
            r matches Ok(resp) && resp.changes@.len() == 0 && resp.tombstones is None && !resp.has_more
                && resp.next_batch_hint is None,
    {
        let batch = uuid_to_text(fresh_uuid());
        Ok(DownloadChangesResponse {
            batch_id: batch,
            changes: Vec::new(),
            tombstones: None,
            has_more: false,
            server_timestamp: Timestamp::now(),
            next_batch_hint: None,
        })
    }

    /// Every pushed change is accepted; none is rejected and no conflict is found.
    pub fn push_changes(&self, _api_token: &str, payload: UploadChangesDto) -> (r: Result<UploadChangesResponse, ServiceError>)
        requires
            payload.changes@.len() <= i64::MAX,
        ensures
            r matches Ok(resp) && resp.batch_id == payload.batch_id
                && resp.changes_accepted == payload.changes@.len()
                && resp.changes_rejected == 0 && resp.conflicts_detected == 0 && resp.conflicts is None,
    {
        let accepted = payload.changes.len() as i64;
        Ok(UploadChangesResponse {
            batch_id: payload.batch_id,
            changes_accepted: accepted,
            changes_rejected: 0,
            conflicts_detected: 0,
            conflicts: None,
            server_timestamp: Timestamp::now(),
        })
    }

    /// An upload is stored under the key `mock_blob_key_for_ID`.
    pub fn upload_document(&self, _device_id_of_uploader: u128, document_id: u128, _local_path: &str, _mime_type: &str, _size_bytes: u64) -> (r: Result<String, ServiceError>)
        ensures
            r matches Ok(k) && k@ == "mock_blob_key_for_"@ + uuid_text(document_id),
    {
        let id = uuid_to_text(document_id);
        Ok(join2("mock_blob_key_for_", id.as_str()))
    }

    /// A download gives the path `BASE/ID.bin`, no bytes, and no compression.
    pub fn download_document(&self, document_id: u128, _blob_key: &str) -> (r: Result<(String, u64, bool), ServiceError>)
        ensures
            r matches Ok((p, size, compressed)) && p@ == self.base() + "/"@ + uuid_text(document_id) + ".bin"@
                && size == 0 && !compressed,
    {
        let id = uuid_to_text(document_id);
        let path = join3(self.base_path.as_str(), "/", id.as_str()).concat(".bin");
        Ok((path, 0, false))
    }
}

} // verus!
