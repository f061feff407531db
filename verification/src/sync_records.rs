//! The records of the synchronisation layer (batches, device states, change-log
//! entries, tombstones, settings, conflicts) and how stored rows are read into them.

use vstd::prelude::*;
use crate::clock::{rfc3339_stamp, Timestamp};
use crate::errors::{DomainError, ValidationError};
use crate::text::join2;
use crate::ident::{fresh_uuid, parse_uuid_text, uuid_parsed};
use crate::records::{opt_stamp, opt_stamp_fault, opt_uuid, opt_uuid_fault, or_next, name_fault, read_opt_stamp, read_opt_uuid, read_stamp, read_uuid, reports, stamp_fault, uuid_fault, FieldFault};
use crate::sync_types::{ChangeOperationType, ConflictResolutionStatus, ConflictResolutionStrategy, DeviceSyncStatus, SyncBatchStatus, SyncDirection, SyncMode};

verus! {

/// A batch of changes moved in one direction.
#[derive(Clone, Debug)]
pub struct SyncBatch {
    pub batch_id: String,
    pub device_id: u128,
    pub direction: SyncDirection,
    pub status: SyncBatchStatus,
    pub item_count: Option<i64>,
    pub total_size: Option<i64>,
    pub priority: Option<i64>,
    pub attempts: Option<i64>,
    pub last_attempt_at: Option<Timestamp>,
    pub error_message: Option<String>,
    pub created_at: Timestamp,
    pub completed_at: Option<Timestamp>,
}

/// A stored sync batch, as the database gives it.
#[derive(Clone, Debug)]
pub struct SyncBatchRow {
    pub batch_id: String,
    pub device_id: String,
    pub direction: String,
    pub status: String,
    pub item_count: Option<i64>,
    pub total_size: Option<i64>,
    pub priority: Option<i64>,
    pub attempts: Option<i64>,
    pub last_attempt_at: Option<String>,
    pub error_message: Option<String>,
    pub created_at: String,
    pub completed_at: Option<String>,
}

/// The first field of a stored batch that cannot be read, if any.
pub open spec fn batch_row_fault(row: SyncBatchRow) -> Option<FieldFault> {
    or_next(uuid_fault(row.device_id@, "sync_batch.device_id"@),
    or_next(name_fault(SyncDirection::named(row.direction@) is Some,
        "Invalid SyncDirection string: "@ + row.direction@),
    or_next(name_fault(SyncBatchStatus::named(row.status@) is Some,
        "Invalid SyncBatchStatus string: "@ + row.status@),
    or_next(opt_stamp_fault(row.last_attempt_at, "sync_batch.last_attempt_at"@),
    or_next(stamp_fault(row.created_at@, "sync_batch.created_at"@),
        opt_stamp_fault(row.completed_at, "sync_batch.completed_at"@))))))
}

impl SyncBatch {
    /// Reads a stored batch; the first field that cannot be read gives the error.
    pub fn try_from(row: SyncBatchRow) -> (r: Result<SyncBatch, DomainError>)
        ensures
            match batch_row_fault(row) {
                None => r matches Ok(b)
                    && b.batch_id == row.batch_id
                    && b.device_id == uuid_parsed(row.device_id@).unwrap()
                    && b.direction == SyncDirection::named(row.direction@).unwrap()
                    && b.status == SyncBatchStatus::named(row.status@).unwrap()
                    && b.item_count == row.item_count
                    && b.total_size == row.total_size
                    && b.priority == row.priority
                    && b.attempts == row.attempts
                    && b.last_attempt_at == opt_stamp(row.last_attempt_at)
                    && b.error_message == row.error_message
                    && b.created_at == rfc3339_stamp(row.created_at@).unwrap()
                    && b.completed_at == opt_stamp(row.completed_at),
                Some(f) => r matches Err(e) && reports(e, f),
            },
    {
        let device_id = match read_uuid(row.device_id.as_str(), "sync_batch.device_id") {
            Ok(v) => v,
            Err(e) => return Err(e),
        };
        let direction = match SyncDirection::from_str(row.direction.as_str()) {
            Ok(v) => v,
            Err(e) => return Err(e),
        };
        let status = match SyncBatchStatus::from_str(row.status.as_str()) {
            Ok(v) => v,
            Err(e) => return Err(e),
        };
        let last_attempt_at = match read_opt_stamp(&row.last_attempt_at, "sync_batch.last_attempt_at") {
            Ok(v) => v,
            Err(e) => return Err(e),
        };
        let created_at = match read_stamp(row.created_at.as_str(), "sync_batch.created_at") {
            Ok(v) => v,
            Err(e) => return Err(e),
        };
        let completed_at = match read_opt_stamp(&row.completed_at, "sync_batch.completed_at") {
            Ok(v) => v,
            Err(e) => return Err(e),
        };
        Ok(SyncBatch {
            batch_id: row.batch_id,
            device_id,
            direction,
            status,
            item_count: row.item_count,
            total_size: row.total_size,
            priority: row.priority,
            attempts: row.attempts,
            last_attempt_at,
            error_message: row.error_message,
            created_at,
            completed_at,
        })
    }
}

/// A device's synchronisation state.
#[derive(Clone, Debug)]
pub struct DeviceSyncState {
    pub device_id: u128,
    pub user_id: u128,
    pub last_upload_timestamp: Option<Timestamp>,
    pub last_download_timestamp: Option<Timestamp>,
    pub last_sync_status: Option<DeviceSyncStatus>,
    pub last_sync_attempt_at: Option<Timestamp>,
    pub server_version: Option<i64>,
    pub sync_enabled: Option<bool>,
    pub created_at: Timestamp,
    pub updated_at: Timestamp,
}

/// A stored device state, as the database gives it.
#[derive(Clone, Debug)]
pub struct DeviceSyncStateRow {
    pub device_id: String,
    pub user_id: String,
    pub last_upload_timestamp: Option<String>,
    pub last_download_timestamp: Option<String>,
    pub last_sync_status: Option<String>,
    pub last_sync_attempt_at: Option<String>,
    pub server_version: Option<i64>,
    pub sync_enabled: Option<i64>,
    pub created_at: String,
    pub updated_at: String,
}

/// The fault of an optional field read as a device sync status.
pub open spec fn opt_device_status_fault(text: Option<String>) -> Option<FieldFault> {
    match text {
        Some(t) => name_fault(DeviceSyncStatus::named(t@) is Some,
            "Invalid DeviceSyncStatus string: "@ + t@),
        None => None,
    }
}

/// The device sync status an optional text names.
pub open spec fn opt_device_status(text: Option<String>) -> Option<DeviceSyncStatus> {
    match text {
        Some(t) => DeviceSyncStatus::named(t@),
        None => None,
    }
}

/// A stored flag: `1` is set, any other number is not.
pub open spec fn opt_flag(v: Option<i64>) -> Option<bool> {
    match v {
        Some(n) => Some(n == 1),
        None => None,
    }
}

fn read_flag(v: Option<i64>) -> (r: Option<bool>)
    ensures
        r == opt_flag(v),
{
    match v {
        Some(n) => Some(n == 1),
        None => None,
    }
}

/// The first field of a stored device state that cannot be read, if any.
pub open spec fn device_state_row_fault(row: DeviceSyncStateRow) -> Option<FieldFault> {
    or_next(uuid_fault(row.device_id@, "device_sync_state.device_id"@),
    or_next(uuid_fault(row.user_id@, "device_sync_state.user_id"@),
    or_next(opt_stamp_fault(row.last_upload_timestamp, "device_sync_state.last_upload_timestamp"@),
    or_next(opt_stamp_fault(row.last_download_timestamp, "device_sync_state.last_download_timestamp"@),
    or_next(opt_device_status_fault(row.last_sync_status),
    or_next(opt_stamp_fault(row.last_sync_attempt_at, "device_sync_state.last_sync_attempt_at"@),
    or_next(stamp_fault(row.created_at@, "device_sync_state.created_at"@),
        stamp_fault(row.updated_at@, "device_sync_state.updated_at"@))))))))
}

impl DeviceSyncState {
    /// Reads a stored device state; the first field that cannot be read gives the error.
    pub fn try_from(row: DeviceSyncStateRow) -> (r: Result<DeviceSyncState, DomainError>)
        ensures
            match device_state_row_fault(row) {
                None => r matches Ok(d)
                    && d.device_id == uuid_parsed(row.device_id@).unwrap()
                    && d.user_id == uuid_parsed(row.user_id@).unwrap()
                    && d.last_upload_timestamp == opt_stamp(row.last_upload_timestamp)
                    && d.last_download_timestamp == opt_stamp(row.last_download_timestamp)
                    && d.last_sync_status == opt_device_status(row.last_sync_status)
                    && d.last_sync_attempt_at == opt_stamp(row.last_sync_attempt_at)
                    && d.server_version == row.server_version
                    && d.sync_enabled == opt_flag(row.sync_enabled)
                    && d.created_at == rfc3339_stamp(row.created_at@).unwrap()
                    && d.updated_at == rfc3339_stamp(row.updated_at@).unwrap(),
                Some(f) => r matches Err(e) && reports(e, f),
            },
    {
        let device_id = match read_uuid(row.device_id.as_str(), "device_sync_state.device_id") {
            Ok(v) => v,
            Err(e) => return Err(e),
        };
        let user_id = match read_uuid(row.user_id.as_str(), "device_sync_state.user_id") {
            Ok(v) => v,
            Err(e) => return Err(e),
        };
        let last_upload_timestamp = match read_opt_stamp(&row.last_upload_timestamp, "device_sync_state.last_upload_timestamp") {
            Ok(v) => v,
            Err(e) => return Err(e),
        };
        let last_download_timestamp = match read_opt_stamp(&row.last_download_timestamp, "device_sync_state.last_download_timestamp") {
            Ok(v) => v,
            Err(e) => return Err(e),
        };
        let last_sync_status = match &row.last_sync_status {
            Some(s) => match DeviceSyncStatus::from_str(s.as_str()) {
                Ok(v) => Some(v),
                Err(e) => return Err(e),
            },
            None => None,
        };
        let last_sync_attempt_at = match read_opt_stamp(&row.last_sync_attempt_at, "device_sync_state.last_sync_attempt_at") {
            Ok(v) => v,
            Err(e) => return Err(e),
        };
        let created_at = match read_stamp(row.created_at.as_str(), "device_sync_state.created_at") {
            Ok(v) => v,
            Err(e) => return Err(e),
        };
        let updated_at = match read_stamp(row.updated_at.as_str(), "device_sync_state.updated_at") {
            Ok(v) => v,
            Err(e) => return Err(e),
        };
        Ok(DeviceSyncState {
            device_id,
            user_id,
            last_upload_timestamp,
            last_download_timestamp,
            last_sync_status,
            last_sync_attempt_at,
            server_version: row.server_version,
            sync_enabled: read_flag(row.sync_enabled),
            created_at,
            updated_at,
        })
    }
}

/// One recorded change to an entity, the unit of synchronisation.
#[derive(Clone, Debug)]
pub struct ChangeLogEntry {
    pub operation_id: u128,
    pub entity_table: String,
    pub entity_id: u128,
    pub operation_type: ChangeOperationType,
    pub field_name: Option<String>,
    pub old_value: Option<String>,
    pub new_value: Option<String>,
    pub document_metadata: Option<String>,
    pub timestamp: Timestamp,
    pub user_id: u128,
    pub device_id: Option<u128>,
    pub sync_batch_id: Option<String>,
    pub processed_at: Option<Timestamp>,
    pub sync_error: Option<String>,
}

/// A stored change-log entry, as the database gives it.
#[derive(Clone, Debug)]
pub struct ChangeLogEntryRow {
    pub operation_id: String,
    pub entity_table: String,
    pub entity_id: String,
    pub operation_type: String,
    pub field_name: Option<String>,
    pub old_value: Option<String>,
    pub new_value: Option<String>,
    pub document_metadata: Option<String>,
    pub timestamp: String,
    pub user_id: String,
    pub device_id: Option<String>,
    pub sync_batch_id: Option<String>,
    pub processed_at: Option<String>,
    pub sync_error: Option<String>,
}

/// The first field of a stored change-log entry that cannot be read, if any.
pub open spec fn change_row_fault(row: ChangeLogEntryRow) -> Option<FieldFault> {
    or_next(uuid_fault(row.operation_id@, "change_log.operation_id"@),
    or_next(uuid_fault(row.entity_id@, "change_log.entity_id"@),
    or_next(name_fault(ChangeOperationType::named(row.operation_type@) is Some,
        "Invalid ChangeOperationType"@),
    or_next(stamp_fault(row.timestamp@, "change_log.timestamp"@),
    or_next(uuid_fault(row.user_id@, "change_log.user_id"@),
    or_next(opt_uuid_fault(row.device_id, "change_log.device_id"@),
        opt_stamp_fault(row.processed_at, "change_log.processed_at"@)))))))
}

/// True when `log` records an update of one field of a record, made at `now` by the
/// user from the device, with the field's old and new values as JSON.
pub open spec fn logs_field_update(
    log: ChangeLogEntry,
    table: Seq<char>,
    id: u128,
    field: Seq<char>,
    old_json: Seq<char>,
    new_json: Seq<char>,
    now: Timestamp,
    user_id: u128,
    device_id: Option<u128>,
) -> bool {
    &&& log.entity_table@ == table
    &&& log.entity_id == id
    &&& log.operation_type == ChangeOperationType::Update
    &&& log.field_name matches Some(f) && f@ == field
    &&& log.old_value matches Some(o) && o@ == old_json
    &&& log.new_value matches Some(n) && n@ == new_json
    &&& log.document_metadata is None
    &&& log.timestamp == now
    &&& log.user_id == user_id
    &&& log.device_id == device_id
    &&& log.sync_batch_id is None
    &&& log.processed_at is None
    &&& log.sync_error is None
}

impl ChangeLogEntry {
    /// The entry that logs an update of one field of a record, with the field's old and
    /// new values as JSON; it gets a fresh operation identifier.
    pub fn field_update(
        table: &str,
        id: u128,
        field: &str,
        old_json: String,
        new_json: String,
        now: Timestamp,
        user_id: u128,
        device_id: Option<u128>,
    ) -> (r: ChangeLogEntry)
        ensures
            logs_field_update(r, table@, id, field@, old_json@, new_json@, now, user_id, device_id),
    {
        ChangeLogEntry {
            operation_id: fresh_uuid(),
            entity_table: String::from_str(table),
            entity_id: id,
            operation_type: ChangeOperationType::Update,
            field_name: Some(String::from_str(field)),
            old_value: Some(old_json),
            new_value: Some(new_json),
            document_metadata: None,
            timestamp: now,
            user_id,
            device_id,
            sync_batch_id: None,
            processed_at: None,
            sync_error: None,
        }
    }

    /// The entry that logs the soft deletion of an entity at `now` by a user, from a
    /// device when one is known; it gets a fresh operation identifier.
    pub fn soft_deletion(entity_table: &str, entity_id: u128, user_id: u128, device_id: Option<u128>, now: Timestamp) -> (r: ChangeLogEntry)
        ensures
            r.entity_table@ == entity_table@,
            r.entity_id == entity_id,
            r.operation_type == ChangeOperationType::Delete,
            r.field_name is None,
            r.old_value is None,
            r.new_value is None,
            r.document_metadata is None,
            r.timestamp == now,
            r.user_id == user_id,
            r.device_id == device_id,
            r.sync_batch_id is None,
            r.processed_at is None,
            r.sync_error is None,
    {
        ChangeLogEntry {
            operation_id: fresh_uuid(),
            entity_table: String::from_str(entity_table),
            entity_id,
            operation_type: ChangeOperationType::Delete,
            field_name: None,
            old_value: None,
            new_value: None,
            document_metadata: None,
            timestamp: now,
            user_id,
            device_id,
            sync_batch_id: None,
            processed_at: None,
            sync_error: None,
        }
    }

    /// The user an entry is stored under: none for the nil identifier, which stands for
    /// the system.
    pub fn stored_user_id(&self) -> (r: Option<u128>)
        ensures
            r == (if self.user_id == 0 { None } else { Some(self.user_id) }),
    {
        if self.user_id == 0 { None } else { Some(self.user_id) }
    }

    /// Reads a stored change-log entry; the first field that cannot be read gives the
    /// error.
    pub fn try_from(row: ChangeLogEntryRow) -> (r: Result<ChangeLogEntry, DomainError>)
        ensures
            match change_row_fault(row) {
                None => r matches Ok(c)
                    && c.operation_id == uuid_parsed(row.operation_id@).unwrap()
                    && c.entity_table == row.entity_table
                    && c.entity_id == uuid_parsed(row.entity_id@).unwrap()
                    && c.operation_type == ChangeOperationType::named(row.operation_type@).unwrap()
                    && c.field_name == row.field_name
                    && c.old_value == row.old_value
                    && c.new_value == row.new_value
                    && c.document_metadata == row.document_metadata
                    && c.timestamp == rfc3339_stamp(row.timestamp@).unwrap()
                    && c.user_id == uuid_parsed(row.user_id@).unwrap()
                    && c.device_id == opt_uuid(row.device_id)
                    && c.sync_batch_id == row.sync_batch_id
                    && c.processed_at == opt_stamp(row.processed_at)
                    && c.sync_error == row.sync_error,
                Some(f) => r matches Err(e) && reports(e, f),
            },
    {
        let operation_id = match read_uuid(row.operation_id.as_str(), "change_log.operation_id") {
            Ok(v) => v,
            Err(e) => return Err(e),
        };
        let entity_id = match read_uuid(row.entity_id.as_str(), "change_log.entity_id") {
            Ok(v) => v,
            Err(e) => return Err(e),
        };
        let operation_type = match ChangeOperationType::from_str(row.operation_type.as_str()) {
            Some(v) => v,
            None => return Err(DomainError::Validation(ValidationError::custom("Invalid ChangeOperationType"))),
        };
        let timestamp = match read_stamp(row.timestamp.as_str(), "change_log.timestamp") {
            Ok(v) => v,
            Err(e) => return Err(e),
        };
        let user_id = match read_uuid(row.user_id.as_str(), "change_log.user_id") {
            Ok(v) => v,
            Err(e) => return Err(e),
        };
        let device_id = match read_opt_uuid(&row.device_id, "change_log.device_id") {
            Ok(v) => v,
            Err(e) => return Err(e),
        };
        let processed_at = match read_opt_stamp(&row.processed_at, "change_log.processed_at") {
            Ok(v) => v,
            Err(e) => return Err(e),
        };
        Ok(ChangeLogEntry {
            operation_id,
            entity_table: row.entity_table,
            entity_id,
            operation_type,
            field_name: row.field_name,
            old_value: row.old_value,
            new_value: row.new_value,
            document_metadata: row.document_metadata,
            timestamp,
            user_id,
            device_id,
            sync_batch_id: row.sync_batch_id,
            processed_at,
            sync_error: row.sync_error,
        })
    }
}

/// The fault of a UUID field of an entry read back with its sync error.
pub open spec fn failed_uuid_fault(text: Seq<char>, field: Seq<char>) -> Option<FieldFault> {
    if uuid_parsed(text) is Some {
        None
    } else {
        Some(FieldFault::Format { field, reason: "Invalid UUID: "@ + text })
    }
}

/// The fault of an instant field of an entry read back with its sync error.
pub open spec fn failed_stamp_fault(text: Seq<char>, field: Seq<char>) -> Option<FieldFault> {
    if rfc3339_stamp(text) is Some {
        None
    } else {
        Some(FieldFault::Format { field, reason: "Invalid RFC3339: "@ + text })
    }
}

/// The first field of a failed change-log entry that cannot be read, if any: the
/// identifiers, then the instants, then the operation's name.
pub open spec fn failed_entry_fault(row: ChangeLogEntryRow) -> Option<FieldFault> {
    or_next(failed_uuid_fault(row.operation_id@, "operation_id"@),
    or_next(failed_uuid_fault(row.entity_id@, "entity_id"@),
    or_next(failed_uuid_fault(row.user_id@, "user_id"@),
    or_next(match row.device_id {
            Some(d) => failed_uuid_fault(d@, "device_id"@),
            None => None,
        },
    or_next(failed_stamp_fault(row.timestamp@, "timestamp"@),
    or_next(match row.processed_at {
            Some(p) => failed_stamp_fault(p@, "processed_at"@),
            None => None,
        },
        name_fault(ChangeOperationType::named(row.operation_type@) is Some,
            "Invalid operation_type: "@ + row.operation_type@)))))))
}

/// True when an entry holds exactly what a readable row says.
pub open spec fn entry_of_row(c: ChangeLogEntry, row: ChangeLogEntryRow) -> bool {
    &&& c.operation_id == uuid_parsed(row.operation_id@).unwrap()
    &&& c.entity_table == row.entity_table
    &&& c.entity_id == uuid_parsed(row.entity_id@).unwrap()
    &&& c.operation_type == ChangeOperationType::named(row.operation_type@).unwrap()
    &&& c.field_name == row.field_name
    &&& c.old_value == row.old_value
    &&& c.new_value == row.new_value
    &&& c.document_metadata == row.document_metadata
    &&& c.timestamp == rfc3339_stamp(row.timestamp@).unwrap()
    &&& c.user_id == uuid_parsed(row.user_id@).unwrap()
    &&& c.device_id == opt_uuid(row.device_id)
    &&& c.sync_batch_id == row.sync_batch_id
    &&& c.processed_at == opt_stamp(row.processed_at)
    &&& c.sync_error == row.sync_error
}

fn read_failed_uuid(text: &str, field: &str) -> (r: Result<u128, DomainError>)
    ensures
        match failed_uuid_fault(text@, field@) {
            None => r == Ok::<u128, DomainError>(uuid_parsed(text@).unwrap()),
            Some(f) => r matches Err(e) && reports(e, f),
        },
{
    match parse_uuid_text(text) {
        Some(u) => Ok(u),
        None => Err(DomainError::Validation(ValidationError::format(field, join2("Invalid UUID: ", text).as_str()))),
    }
}

fn read_failed_stamp(text: &str, field: &str) -> (r: Result<Timestamp, DomainError>)
    ensures
        match failed_stamp_fault(text@, field@) {
            None => r == Ok::<Timestamp, DomainError>(rfc3339_stamp(text@).unwrap()),
            Some(f) => r matches Err(e) && reports(e, f),
        },
{
    match Timestamp::parse_rfc3339(text) {
        Some(t) => Ok(t),
        None => Err(DomainError::Validation(ValidationError::format(field, join2("Invalid RFC3339: ", text).as_str()))),
    }
}

/// Reads one change-log entry that failed to sync; the first field that cannot be read
/// gives the error.
pub fn read_conflict_entry(row: &ChangeLogEntryRow) -> (r: Result<ChangeLogEntry, DomainError>)
    ensures
        match failed_entry_fault(*row) {
            None => r matches Ok(c) && entry_of_row(c, *row),
            Some(f) => r matches Err(e) && reports(e, f),
        },
{
    let operation_id = match read_failed_uuid(row.operation_id.as_str(), "operation_id") {
        Ok(v) => v,
        Err(e) => return Err(e),
    };
    let entity_id = match read_failed_uuid(row.entity_id.as_str(), "entity_id") {
        Ok(v) => v,
        Err(e) => return Err(e),
    };
    let user_id = match read_failed_uuid(row.user_id.as_str(), "user_id") {
        Ok(v) => v,
        Err(e) => return Err(e),
    };
    let device_id = match &row.device_id {
        Some(d) => match read_failed_uuid(d.as_str(), "device_id") {
            Ok(v) => Some(v),
            Err(e) => return Err(e),
        },
        None => None,
    };
    let timestamp = match read_failed_stamp(row.timestamp.as_str(), "timestamp") {
        Ok(v) => v,
        Err(e) => return Err(e),
    };
    let processed_at = match &row.processed_at {
        Some(p) => match read_failed_stamp(p.as_str(), "processed_at") {
            Ok(v) => Some(v),
            Err(e) => return Err(e),
        },
        None => None,
    };
    let operation_type = match ChangeOperationType::from_str(row.operation_type.as_str()) {
        Some(v) => v,
        None => return Err(DomainError::Validation(ValidationError::Custom(
            join2("Invalid operation_type: ", row.operation_type.as_str())))),
    };
    Ok(ChangeLogEntry {
        operation_id,
        entity_table: row.entity_table.clone(),
        entity_id,
        operation_type,
        field_name: copy_opt_text(&row.field_name),
        old_value: copy_opt_text(&row.old_value),
        new_value: copy_opt_text(&row.new_value),
        document_metadata: copy_opt_text(&row.document_metadata),
        timestamp,
        user_id,
        device_id,
        sync_batch_id: copy_opt_text(&row.sync_batch_id),
        processed_at,
        sync_error: copy_opt_text(&row.sync_error),
    })
}

fn copy_opt_text(t: &Option<String>) -> (r: Option<String>)
    ensures
        r == *t,
{
    match t {
        Some(s) => Some(s.clone()),
        None => None,
    }
}

/// True when the row at `k` is the first one that cannot be read.
pub open spec fn first_unreadable(rows: Seq<ChangeLogEntryRow>, k: int) -> bool {
    &&& 0 <= k < rows.len()
    &&& forall|i: int| 0 <= i < k ==> failed_entry_fault(#[trigger] rows[i]) is None
    &&& failed_entry_fault(rows[k]) is Some
}

/// Reads the instant of the latest change to a field, as stored (`None` when the field
/// was never changed); a text that is no RFC 3339 date-time is a format error.
pub fn read_last_change_stamp(text: &Option<String>) -> (r: Result<Option<Timestamp>, DomainError>)
    ensures
        match *text {
            None => r == Ok::<Option<Timestamp>, DomainError>(None),
            Some(t) => match failed_stamp_fault(t@, "timestamp"@) {
                None => r == Ok::<Option<Timestamp>, DomainError>(Some(rfc3339_stamp(t@).unwrap())),
                Some(f) => r matches Err(e) && reports(e, f),
            },
        },
{
    match text {
        Some(t) => match read_failed_stamp(t.as_str(), "timestamp") {
            Ok(s) => Ok(Some(s)),
            Err(e) => Err(e),
        },
        None => Ok(None),
    }
}

/// Reads the failed entries of a batch in order; the first row that cannot be read
/// gives the error.
pub fn read_conflict_entries(rows: &Vec<ChangeLogEntryRow>) -> (r: Result<Vec<ChangeLogEntry>, DomainError>)
    ensures
        (forall|i: int| 0 <= i < rows@.len() ==> failed_entry_fault(#[trigger] rows@[i]) is None) ==> (r matches Ok(v)
            && v@.len() == rows@.len()
            && forall|i: int| 0 <= i < rows@.len() ==> entry_of_row(#[trigger] v@[i], rows@[i])),
        r is Err ==> exists|k: int| first_unreadable(rows@, k)
            && (r matches Err(e) && reports(e, failed_entry_fault(#[trigger] rows@[k]).unwrap())),
        (exists|k: int| 0 <= k < rows@.len() && failed_entry_fault(#[trigger] rows@[k]) is Some) ==> r is Err,
{
    let mut out: Vec<ChangeLogEntry> = Vec::new();
    let mut i: usize = 0;
    while i < rows.len()
        invariant
            i <= rows@.len(),
            out@.len() == i,
            forall|j: int| 0 <= j < i ==> failed_entry_fault(#[trigger] rows@[j]) is None,
            forall|j: int| 0 <= j < i ==> entry_of_row(#[trigger] out@[j], rows@[j]),
        decreases rows@.len() - i,
    {
        match read_conflict_entry(&rows[i]) {
            Ok(c) => out.push(c),
            Err(e) => return Err(e),
        }
        i = i + 1;
    }
    Ok(out)
}

/// The record left behind by a hard-deleted entity.
#[derive(Clone, Debug)]
pub struct Tombstone {
    pub id: u128,
    pub entity_id: u128,
    pub entity_type: String,
    pub deleted_by: u128,
    pub deleted_by_device_id: Option<u128>,
    pub deleted_at: Timestamp,
    pub operation_id: u128,
    pub additional_metadata: Option<String>,
}

/// A stored tombstone, as the database gives it.
#[derive(Clone, Debug)]
pub struct TombstoneRow {
    pub id: String,
    pub entity_id: String,
    pub entity_type: String,
    pub deleted_by: String,
    pub deleted_by_device_id: Option<String>,
    pub deleted_at: String,
    pub operation_id: String,
    pub additional_metadata: Option<String>,
}

/// The first field of a stored tombstone that cannot be read, if any.
pub open spec fn tombstone_row_fault(row: TombstoneRow) -> Option<FieldFault> {
    or_next(uuid_fault(row.id@, "tombstone.id"@),
    or_next(uuid_fault(row.entity_id@, "tombstone.entity_id"@),
    or_next(uuid_fault(row.deleted_by@, "tombstone.deleted_by"@),
    or_next(opt_uuid_fault(row.deleted_by_device_id, "tombstone.deleted_by_device_id"@),
    or_next(stamp_fault(row.deleted_at@, "tombstone.deleted_at"@),
        uuid_fault(row.operation_id@, "tombstone.operation_id"@))))))
}

impl Tombstone {
    /// The user a tombstone is stored under: none for the nil identifier, which stands
    /// for the system.
    pub fn stored_deleted_by(&self) -> (r: Option<u128>)
        ensures
            r == (if self.deleted_by == 0 { None } else { Some(self.deleted_by) }),
    {
        if self.deleted_by == 0 { None } else { Some(self.deleted_by) }
    }

    /// A tombstone for an entity deleted now, with a fresh identifier and a fresh
    /// operation identifier.
    pub fn new(entity_id: u128, entity_type: &str, deleted_by: u128, deleted_by_device_id: Option<u128>) -> (r: Tombstone)
        ensures
            r.entity_id == entity_id,
            r.entity_type@ == entity_type@,
            r.deleted_by == deleted_by,
            r.deleted_by_device_id == deleted_by_device_id,
            r.additional_metadata is None,
    {
        let operation_id = fresh_uuid();
        Tombstone::with_operation_id(entity_id, entity_type, deleted_by, deleted_by_device_id, operation_id)
    }

    /// A tombstone for an entity deleted now, under a given operation identifier.
    pub fn with_operation_id(
        entity_id: u128,
        entity_type: &str,
        deleted_by: u128,
        deleted_by_device_id: Option<u128>,
        operation_id: u128,
    ) -> (r: Tombstone)
        ensures
            r.entity_id == entity_id,
            r.entity_type@ == entity_type@,
            r.deleted_by == deleted_by,
            r.deleted_by_device_id == deleted_by_device_id,
            r.operation_id == operation_id,
            r.additional_metadata is None,
    {
        Tombstone {
            id: fresh_uuid(),
            entity_id,
            entity_type: String::from_str(entity_type),
            deleted_by,
            deleted_by_device_id,
            deleted_at: Timestamp::now(),
            operation_id,
            additional_metadata: None,
        }
    }

    /// Reads a stored tombstone; the first field that cannot be read gives the error.
    pub fn try_from(row: TombstoneRow) -> (r: Result<Tombstone, DomainError>)
        ensures
            match tombstone_row_fault(row) {
                None => r matches Ok(t)
                    && t.id == uuid_parsed(row.id@).unwrap()
                    && t.entity_id == uuid_parsed(row.entity_id@).unwrap()
                    && t.entity_type == row.entity_type
                    && t.deleted_by == uuid_parsed(row.deleted_by@).unwrap()
                    && t.deleted_by_device_id == opt_uuid(row.deleted_by_device_id)
                    && t.deleted_at == rfc3339_stamp(row.deleted_at@).unwrap()
                    && t.operation_id == uuid_parsed(row.operation_id@).unwrap()
                    && t.additional_metadata == row.additional_metadata,
                Some(f) => r matches Err(e) && reports(e, f),
            },
    {
        let id = match read_uuid(row.id.as_str(), "tombstone.id") {
            Ok(v) => v,
            Err(e) => return Err(e),
        };
        let entity_id = match read_uuid(row.entity_id.as_str(), "tombstone.entity_id") {
            Ok(v) => v,
            Err(e) => return Err(e),
        };
        let deleted_by = match read_uuid(row.deleted_by.as_str(), "tombstone.deleted_by") {
            Ok(v) => v,
            Err(e) => return Err(e),
        };
        let deleted_by_device_id = match read_opt_uuid(&row.deleted_by_device_id, "tombstone.deleted_by_device_id") {
            Ok(v) => v,
            Err(e) => return Err(e),
        };
        let deleted_at = match read_stamp(row.deleted_at.as_str(), "tombstone.deleted_at") {
            Ok(v) => v,
            Err(e) => return Err(e),
        };
        let operation_id = match read_uuid(row.operation_id.as_str(), "tombstone.operation_id") {
            Ok(v) => v,
            Err(e) => return Err(e),
        };
        Ok(Tombstone {
            id,
            entity_id,
            entity_type: row.entity_type,
            deleted_by,
            deleted_by_device_id,
            deleted_at,
            operation_id,
            additional_metadata: row.additional_metadata,
        })
    }
}

/// How the application reaches the server.
#[derive(Clone, Debug)]
pub struct AppConnectionSettings {
    pub id: String,
    pub api_endpoint: String,
    pub api_version: Option<String>,
    pub connection_timeout: Option<i64>,
    pub offline_mode_enabled: Option<bool>,
    pub retry_count: Option<i64>,
    pub retry_delay: Option<i64>,
    pub updated_at: Timestamp,
}

/// Stored connection settings, as the database gives them.
#[derive(Clone, Debug)]
pub struct AppConnectionSettingsRow {
    pub id: String,
    pub api_endpoint: String,
    pub api_version: Option<String>,
    pub connection_timeout: Option<i64>,
    pub offline_mode_enabled: Option<i64>,
    pub retry_count: Option<i64>,
    pub retry_delay: Option<i64>,
    pub updated_at: String,
}

impl AppConnectionSettings {
    /// Reads stored connection settings; only the instant can fail to read.
    pub fn try_from(row: AppConnectionSettingsRow) -> (r: Result<AppConnectionSettings, DomainError>)
        ensures
            match stamp_fault(row.updated_at@, "app_connection_settings.updated_at"@) {
                None => r matches Ok(s)
                    && s.id == row.id
                    && s.api_endpoint == row.api_endpoint
                    && s.api_version == row.api_version
                    && s.connection_timeout == row.connection_timeout
                    && s.offline_mode_enabled == opt_flag(row.offline_mode_enabled)
                    && s.retry_count == row.retry_count
                    && s.retry_delay == row.retry_delay
                    && s.updated_at == rfc3339_stamp(row.updated_at@).unwrap(),
                Some(f) => r matches Err(e) && reports(e, f),
            },
    {
        let updated_at = match read_stamp(row.updated_at.as_str(), "app_connection_settings.updated_at") {
            Ok(v) => v,
            Err(e) => return Err(e),
        };
        Ok(AppConnectionSettings {
            id: row.id,
            api_endpoint: row.api_endpoint,
            api_version: row.api_version,
            connection_timeout: row.connection_timeout,
            offline_mode_enabled: read_flag(row.offline_mode_enabled),
            retry_count: row.retry_count,
            retry_delay: row.retry_delay,
            updated_at,
        })
    }
}

/// A conflict between a local and a remote change to the same entity.
#[derive(Clone, Debug)]
pub struct SyncConflict {
    pub conflict_id: u128,
    pub entity_table: String,
    pub entity_id: u128,
    pub field_name: Option<String>,
    pub local_change: ChangeLogEntry,
    pub remote_change: ChangeLogEntry,
    pub resolution_status: ConflictResolutionStatus,
    pub resolution_strategy: Option<ConflictResolutionStrategy>,
    pub resolved_by_user_id: Option<u128>,
    pub resolved_by_device_id: Option<u128>,
    pub resolved_at: Option<Timestamp>,
    pub created_at: Timestamp,
    pub created_by_device_id: Option<u128>,
}

/// A stored sync conflict, as the database gives it; the two changes are referred to
/// by their operation identifiers.
#[derive(Clone, Debug)]
pub struct SyncConflictRow {
    pub conflict_id: String,
    pub entity_table: String,
    pub entity_id: String,
    pub field_name: Option<String>,
    pub local_change_op_id: String,
    pub remote_change_op_id: String,
    pub resolution_status: String,
    pub resolution_strategy: Option<String>,
    pub resolved_by_user_id: Option<String>,
    pub resolved_by_device_id: Option<String>,
    pub resolved_at: Option<String>,
    pub created_at: String,
    pub created_by_device_id: Option<String>,
}

/// The fault of an optional field read as a resolution strategy.
pub open spec fn opt_strategy_fault(text: Option<String>) -> Option<FieldFault> {
    match text {
        Some(t) => name_fault(ConflictResolutionStrategy::named(t@) is Some,
            "Invalid ConflictResolutionStrategy string: "@ + t@),
        None => None,
    }
}

/// The resolution strategy an optional text names.
pub open spec fn opt_strategy(text: Option<String>) -> Option<ConflictResolutionStrategy> {
    match text {
        Some(t) => ConflictResolutionStrategy::named(t@),
        None => None,
    }
}

/// The first field of a stored conflict that cannot be read, if any.
pub open spec fn conflict_row_fault(row: SyncConflictRow) -> Option<FieldFault> {
    or_next(uuid_fault(row.conflict_id@, "conflict_id"@),
    or_next(uuid_fault(row.entity_id@, "entity_id"@),
    or_next(name_fault(ConflictResolutionStatus::named(row.resolution_status@) is Some,
        "Invalid ConflictResolutionStatus string: "@ + row.resolution_status@),
    or_next(opt_strategy_fault(row.resolution_strategy),
    or_next(opt_uuid_fault(row.resolved_by_user_id, "resolved_by_user_id"@),
    or_next(opt_uuid_fault(row.resolved_by_device_id, "resolved_by_device_id"@),
    or_next(opt_stamp_fault(row.resolved_at, "resolved_at"@),
    or_next(stamp_fault(row.created_at@, "created_at"@),
        opt_uuid_fault(row.created_by_device_id, "created_by_device_id"@)))))))))
}

/// The stand-in for a change that a stored conflict refers to but does not hold: nil
/// identifiers, no table, a `Create` with no values.
pub open spec fn is_placeholder_change(c: ChangeLogEntry) -> bool {
    &&& c.operation_id == 0
    &&& c.entity_table@ == Seq::<char>::empty()
    &&& c.entity_id == 0
    &&& c.operation_type == ChangeOperationType::Create
    &&& c.field_name is None
    &&& c.old_value is None
    &&& c.new_value is None
    &&& c.document_metadata is None
    &&& c.user_id == 0
    &&& c.device_id is None
    &&& c.sync_batch_id is None
    &&& c.processed_at is None
    &&& c.sync_error is None
}

fn placeholder_change(now: Timestamp) -> (r: ChangeLogEntry)
    ensures
        is_placeholder_change(r),
        r.timestamp == now,
{
    ChangeLogEntry {
        operation_id: 0,
        entity_table: String::new(),
        entity_id: 0,
        operation_type: ChangeOperationType::Create,
        field_name: None,
        old_value: None,
        new_value: None,
        document_metadata: None,
        timestamp: now,
        user_id: 0,
        device_id: None,
        sync_batch_id: None,
        processed_at: None,
        sync_error: None,
    }
}

impl SyncConflict {
    /// Reads a stored conflict; the first field that cannot be read gives the error. The
    /// two changes are stand-ins stamped with the present instant, since the row only
    /// refers to them.
    pub fn try_from(row: SyncConflictRow) -> (r: Result<SyncConflict, DomainError>)
        ensures
            match conflict_row_fault(row) {
                None => r matches Ok(c)
                    && c.conflict_id == uuid_parsed(row.conflict_id@).unwrap()
                    && c.entity_table == row.entity_table
                    && c.entity_id == uuid_parsed(row.entity_id@).unwrap()
                    && c.field_name == row.field_name
                    && is_placeholder_change(c.local_change)
                    && is_placeholder_change(c.remote_change)
                    && c.local_change.timestamp == c.remote_change.timestamp
                    && c.resolution_status == ConflictResolutionStatus::named(row.resolution_status@).unwrap()
                    && c.resolution_strategy == opt_strategy(row.resolution_strategy)
                    && c.resolved_by_user_id == opt_uuid(row.resolved_by_user_id)
                    && c.resolved_by_device_id == opt_uuid(row.resolved_by_device_id)
                    && c.resolved_at == opt_stamp(row.resolved_at)
                    && c.created_at == rfc3339_stamp(row.created_at@).unwrap()
                    && c.created_by_device_id == opt_uuid(row.created_by_device_id),
                Some(f) => r matches Err(e) && reports(e, f),
            },
    {
        let now = Timestamp::now();
        let conflict_id = match read_uuid(row.conflict_id.as_str(), "conflict_id") {
            Ok(v) => v,
            Err(e) => return Err(e),
        };
        let entity_id = match read_uuid(row.entity_id.as_str(), "entity_id") {
            Ok(v) => v,
            Err(e) => return Err(e),
        };
        let resolution_status = match ConflictResolutionStatus::from_str(row.resolution_status.as_str()) {
            Ok(v) => v,
            Err(e) => return Err(e),
        };
        let resolution_strategy = match &row.resolution_strategy {
            Some(s) => match ConflictResolutionStrategy::from_str(s.as_str()) {
                Ok(v) => Some(v),
                Err(e) => return Err(e),
            },
            None => None,
        };
        let resolved_by_user_id = match read_opt_uuid(&row.resolved_by_user_id, "resolved_by_user_id") {
            Ok(v) => v,
            Err(e) => return Err(e),
        };
        let resolved_by_device_id = match read_opt_uuid(&row.resolved_by_device_id, "resolved_by_device_id") {
            Ok(v) => v,
            Err(e) => return Err(e),
        };
        let resolved_at = match read_opt_stamp(&row.resolved_at, "resolved_at") {
            Ok(v) => v,
            Err(e) => return Err(e),
        };
        let created_at = match read_stamp(row.created_at.as_str(), "created_at") {
            Ok(v) => v,
            Err(e) => return Err(e),
        };
        let created_by_device_id = match read_opt_uuid(&row.created_by_device_id, "created_by_device_id") {
            Ok(v) => v,
            Err(e) => return Err(e),
        };
        Ok(SyncConflict {
            conflict_id,
            entity_table: row.entity_table,
            entity_id,
            field_name: row.field_name,
            local_change: placeholder_change(now),
            remote_change: placeholder_change(now),
            resolution_status,
            resolution_strategy,
            resolved_by_user_id,
            resolved_by_device_id,
            resolved_at,
            created_at,
            created_by_device_id,
        })
    }
}

/// Progress of the synchronisation of one table.
#[derive(Clone, Debug)]
pub struct TableSyncProgress {
    pub table_name: String,
    pub records_synced: i64,
    pub total_records: Option<i64>,
    pub bytes_transferred: Option<i64>,
    pub completed: bool,
}

/// When automatic synchronisation may run.
#[derive(Clone, Debug)]
pub struct SyncScheduleConfig {
    pub auto_sync_enabled: bool,
    pub wifi_only: bool,
    pub charging_only: Option<bool>,
    pub min_battery_percentage: Option<i64>,
    pub background_sync_interval_minutes: Option<i64>,
    /// Hour of day (0-23).
    pub quiet_hours_start: Option<i64>,
    /// Hour of day (0-23).
    pub quiet_hours_end: Option<i64>,
    pub max_sync_frequency_minutes: Option<i64>,
    pub allow_metered_connection: Option<bool>,
}

/// What merging one remote change did to the local copy of an entity.
#[derive(Clone, Debug)]
pub enum MergeOutcome {
    /// The entity was created locally.
    Created(u128),
    /// The local entity was updated.
    Updated(u128),
    /// Nothing was done, for the reason given.
    NoOp(String),
    /// The local and the remote change conflict.
    ConflictDetected {
        entity_id: u128,
        entity_table: String,
        field_name: Option<String>,
        local_value_json: Option<String>,
        remote_value_json: Option<String>,
        reason: String,
    },
    /// The entity was hard-deleted locally.
    HardDeleted(u128),
}

/// Metadata about a device.
#[derive(Clone, Debug)]
pub struct DeviceMetadata {
    pub device_id: u128,
    pub name: String,
    pub platform: String,
    pub model: Option<String>,
    pub os_version: Option<String>,
    pub app_version: String,
    pub last_active_at: Option<Timestamp>,
    pub created_at: Timestamp,
    pub updated_at: Timestamp,
}

/// A device state as the state lookup reads it: the user may be missing and the
/// counters may be unset.
#[derive(Clone, Debug)]
pub struct DeviceStateLookupRow {
    pub user_id: Option<String>,
    pub last_upload_timestamp: Option<String>,
    pub last_download_timestamp: Option<String>,
    pub last_sync_status: Option<String>,
    pub last_sync_attempt_at: Option<String>,
    pub server_version: Option<i64>,
    pub sync_enabled: Option<i64>,
    pub created_at: String,
    pub updated_at: String,
}

/// The first field of a looked-up device state that cannot be read, if any.
pub open spec fn lookup_row_fault(row: DeviceStateLookupRow) -> Option<FieldFault> {
    or_next(
        match row.user_id {
            Some(t) => uuid_fault(t@, "user_id"@),
            None => Some(FieldFault::Custom { message: Seq::empty() }),
        },
    or_next(opt_stamp_fault(row.last_upload_timestamp, "last_upload_timestamp"@),
    or_next(opt_stamp_fault(row.last_download_timestamp, "last_download_timestamp"@),
    or_next(opt_stamp_fault(row.last_sync_attempt_at, "last_sync_attempt_at"@),
    or_next(stamp_fault(row.created_at@, "created_at"@),
        stamp_fault(row.updated_at@, "updated_at"@))))))
}

impl DeviceSyncState {
    /// The device state a lookup found: a missing row is `EntityNotFound`; a missing
    /// user is a `Required` error of `user_id`; an unknown status is read as none; an
    /// unset server version is 0 and an unset flag is off.
    pub fn from_lookup(device_id: u128, row: Option<DeviceStateLookupRow>) -> (r: Result<DeviceSyncState, DomainError>)
        ensures
            match row {
                None => r matches Err(DomainError::EntityNotFound(t, id))
                    && t@ == "DeviceSyncState"@ && id == device_id,
                Some(row) => match row.user_id {
                    None => r matches Err(DomainError::Validation(ValidationError::Required { field: f }))
                        && f@ == "user_id"@,
                    Some(u) => match lookup_row_fault(row) {
                        None => r matches Ok(d)
                            && d.device_id == device_id
                            && d.user_id == uuid_parsed(u@).unwrap()
                            && d.last_upload_timestamp == opt_stamp(row.last_upload_timestamp)
                            && d.last_download_timestamp == opt_stamp(row.last_download_timestamp)
                            && d.last_sync_status == opt_device_status(row.last_sync_status)
                            && d.last_sync_attempt_at == opt_stamp(row.last_sync_attempt_at)
                            && d.server_version == Some(match row.server_version { Some(v) => v, None => 0 })
                            && d.sync_enabled == Some(row.sync_enabled == Some(1i64))
                            && d.created_at == rfc3339_stamp(row.created_at@).unwrap()
                            && d.updated_at == rfc3339_stamp(row.updated_at@).unwrap(),
                        Some(f) => r matches Err(e) && reports(e, f),
                    },
                },
            },
    {
        let row = match row {
            Some(r) => r,
            None => return Err(DomainError::EntityNotFound(String::from_str("DeviceSyncState"), device_id)),
        };
        let user_id = match &row.user_id {
            Some(u) => match read_uuid(u.as_str(), "user_id") {
                Ok(v) => v,
                Err(e) => return Err(e),
            },
            None => return Err(DomainError::Validation(ValidationError::required("user_id"))),
        };
        let last_upload = match read_opt_stamp(&row.last_upload_timestamp, "last_upload_timestamp") {
            Ok(v) => v,
            Err(e) => return Err(e),
        };
        let last_download = match read_opt_stamp(&row.last_download_timestamp, "last_download_timestamp") {
            Ok(v) => v,
            Err(e) => return Err(e),
        };
        let last_attempt = match read_opt_stamp(&row.last_sync_attempt_at, "last_sync_attempt_at") {
            Ok(v) => v,
            Err(e) => return Err(e),
        };
        let created_at = match read_stamp(row.created_at.as_str(), "created_at") {
            Ok(v) => v,
            Err(e) => return Err(e),
        };
        let updated_at = match read_stamp(row.updated_at.as_str(), "updated_at") {
            Ok(v) => v,
            Err(e) => return Err(e),
        };
        let last_sync_status = match &row.last_sync_status {
            Some(s) => match DeviceSyncStatus::from_str(s.as_str()) {
                Ok(v) => Some(v),
                Err(_) => None,
            },
            None => None,
        };
        let server_version = match row.server_version {
            Some(v) => v,
            None => 0,
        };
        let enabled = match row.sync_enabled {
            Some(v) => v == 1,
            None => false,
        };
        Ok(DeviceSyncState {
            device_id,
            user_id,
            last_upload_timestamp: last_upload,
            last_download_timestamp: last_download,
            last_sync_status,
            last_sync_attempt_at: last_attempt,
            server_version: Some(server_version),
            sync_enabled: Some(enabled),
            created_at,
            updated_at,
        })
    }
}

} // verus!
