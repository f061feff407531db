//! Per-user synchronisation settings: each setting carries who changed it last and
//! when, so that changes made on several devices can be merged field by field.

use vstd::prelude::*;
use crate::clock::{four_digit_year, rfc3339_stamp, Timestamp};
use crate::errors::DomainError;
use crate::ident::{parse_uuid_text, uuid_parsed};
use crate::records::{opt_four_digit_year, write_opt_stamp, write_opt_uuid, write_stamp, write_uuid, opt_stamp, opt_stamp_fault, opt_uuid, opt_uuid_fault, or_next, read_opt_stamp, read_opt_uuid, read_stamp, read_uuid, reports, stamp_fault, uuid_fault, FieldFault};

verus! {

/// A user's synchronisation settings.
#[derive(Clone, Debug)]
pub struct SyncConfig {
    pub id: u128,
    pub user_id: u128,
    pub sync_interval_minutes: i64,
    pub sync_interval_minutes_updated_at: Option<Timestamp>,
    pub sync_interval_minutes_updated_by_user_id: Option<u128>,
    pub sync_interval_minutes_updated_by_device_id: Option<u128>,
    pub background_sync_enabled: bool,
    pub background_sync_enabled_updated_at: Option<Timestamp>,
    pub background_sync_enabled_updated_by_user_id: Option<u128>,
    pub background_sync_enabled_updated_by_device_id: Option<u128>,
    pub wifi_only: bool,
    pub wifi_only_updated_at: Option<Timestamp>,
    pub wifi_only_updated_by_user_id: Option<u128>,
    pub wifi_only_updated_by_device_id: Option<u128>,
    pub charging_only: bool,
    pub charging_only_updated_at: Option<Timestamp>,
    pub charging_only_updated_by_user_id: Option<u128>,
    pub charging_only_updated_by_device_id: Option<u128>,
    pub sync_priority_threshold: i64,
    pub sync_priority_threshold_updated_at: Option<Timestamp>,
    pub sync_priority_threshold_updated_by_user_id: Option<u128>,
    pub sync_priority_threshold_updated_by_device_id: Option<u128>,
    pub document_sync_enabled: bool,
    pub document_sync_enabled_updated_at: Option<Timestamp>,
    pub document_sync_enabled_updated_by_user_id: Option<u128>,
    pub document_sync_enabled_updated_by_device_id: Option<u128>,
    pub metadata_sync_enabled: bool,
    pub metadata_sync_enabled_updated_at: Option<Timestamp>,
    pub metadata_sync_enabled_updated_by_user_id: Option<u128>,
    pub metadata_sync_enabled_updated_by_device_id: Option<u128>,
    pub server_token: Option<String>,
    pub server_token_updated_at: Option<Timestamp>,
    pub server_token_updated_by_user_id: Option<u128>,
    pub server_token_updated_by_device_id: Option<u128>,
    pub last_sync_timestamp: Option<Timestamp>,
    pub created_at: Timestamp,
    pub created_by_device_id: Option<u128>,
    pub updated_at: Timestamp,
    pub updated_by_user_id: Option<u128>,
    pub updated_by_device_id: Option<u128>,
}

/// Stored synchronisation settings, as the database gives them.
#[derive(Clone, Debug)]
pub struct SyncConfigRow {
    pub id: String,
    pub user_id: String,
    pub sync_interval_minutes: i64,
    pub sync_interval_minutes_updated_at: Option<String>,
    pub sync_interval_minutes_updated_by_user_id: Option<String>,
    pub sync_interval_minutes_updated_by_device_id: Option<String>,
    pub background_sync_enabled: i64,
    pub background_sync_enabled_updated_at: Option<String>,
    pub background_sync_enabled_updated_by_user_id: Option<String>,
    pub background_sync_enabled_updated_by_device_id: Option<String>,
    pub wifi_only: i64,
    pub wifi_only_updated_at: Option<String>,
    pub wifi_only_updated_by_user_id: Option<String>,
    pub wifi_only_updated_by_device_id: Option<String>,
    pub charging_only: i64,
    pub charging_only_updated_at: Option<String>,
    pub charging_only_updated_by_user_id: Option<String>,
    pub charging_only_updated_by_device_id: Option<String>,
    pub sync_priority_threshold: i64,
    pub sync_priority_threshold_updated_at: Option<String>,
    pub sync_priority_threshold_updated_by_user_id: Option<String>,
    pub sync_priority_threshold_updated_by_device_id: Option<String>,
    pub document_sync_enabled: i64,
    pub document_sync_enabled_updated_at: Option<String>,
    pub document_sync_enabled_updated_by_user_id: Option<String>,
    pub document_sync_enabled_updated_by_device_id: Option<String>,
    pub metadata_sync_enabled: i64,
    pub metadata_sync_enabled_updated_at: Option<String>,
    pub metadata_sync_enabled_updated_by_user_id: Option<String>,
    pub metadata_sync_enabled_updated_by_device_id: Option<String>,
    pub server_token: Option<String>,
    pub server_token_updated_at: Option<String>,
    pub server_token_updated_by_user_id: Option<String>,
    pub server_token_updated_by_device_id: Option<String>,
    pub last_sync_timestamp: Option<String>,
    pub created_at: String,
    pub created_by_device_id: Option<String>,
    pub updated_at: String,
    pub updated_by_user_id: Option<String>,
    pub updated_by_device_id: Option<String>,
}

/// The first field of stored settings that cannot be read, if any.
pub open spec fn config_row_fault(row: SyncConfigRow) -> Option<FieldFault> {
    or_next(uuid_fault(row.id@, "sync_config.id"@),
    or_next(uuid_fault(row.user_id@, "sync_config.user_id"@),
    or_next(opt_stamp_fault(row.sync_interval_minutes_updated_at, "sync_config.sync_interval_minutes_updated_at"@),
    or_next(opt_uuid_fault(row.sync_interval_minutes_updated_by_user_id, "sync_config.sync_interval_minutes_updated_by_user_id"@),
    or_next(opt_uuid_fault(row.sync_interval_minutes_updated_by_device_id, "sync_config.sync_interval_minutes_updated_by_device_id"@),
    or_next(opt_stamp_fault(row.background_sync_enabled_updated_at, "sync_config.background_sync_enabled_updated_at"@),
    or_next(opt_uuid_fault(row.background_sync_enabled_updated_by_user_id, "sync_config.background_sync_enabled_updated_by_user_id"@),
    or_next(opt_uuid_fault(row.background_sync_enabled_updated_by_device_id, "sync_config.background_sync_enabled_updated_by_device_id"@),
    or_next(opt_stamp_fault(row.wifi_only_updated_at, "sync_config.wifi_only_updated_at"@),
    or_next(opt_uuid_fault(row.wifi_only_updated_by_user_id, "sync_config.wifi_only_updated_by_user_id"@),
    or_next(opt_uuid_fault(row.wifi_only_updated_by_device_id, "sync_config.wifi_only_updated_by_device_id"@),
    or_next(opt_stamp_fault(row.charging_only_updated_at, "sync_config.charging_only_updated_at"@),
    or_next(opt_uuid_fault(row.charging_only_updated_by_user_id, "sync_config.charging_only_updated_by_user_id"@),
    or_next(opt_uuid_fault(row.charging_only_updated_by_device_id, "sync_config.charging_only_updated_by_device_id"@),
    or_next(opt_stamp_fault(row.sync_priority_threshold_updated_at, "sync_config.sync_priority_threshold_updated_at"@),
    or_next(opt_uuid_fault(row.sync_priority_threshold_updated_by_user_id, "sync_config.sync_priority_threshold_updated_by_user_id"@),
    or_next(opt_uuid_fault(row.sync_priority_threshold_updated_by_device_id, "sync_config.sync_priority_threshold_updated_by_device_id"@),
    or_next(opt_stamp_fault(row.document_sync_enabled_updated_at, "sync_config.document_sync_enabled_updated_at"@),
    or_next(opt_uuid_fault(row.document_sync_enabled_updated_by_user_id, "sync_config.document_sync_enabled_updated_by_user_id"@),
    or_next(opt_uuid_fault(row.document_sync_enabled_updated_by_device_id, "sync_config.document_sync_enabled_updated_by_device_id"@),
    or_next(opt_stamp_fault(row.metadata_sync_enabled_updated_at, "sync_config.metadata_sync_enabled_updated_at"@),
    or_next(opt_uuid_fault(row.metadata_sync_enabled_updated_by_user_id, "sync_config.metadata_sync_enabled_updated_by_user_id"@),
    or_next(opt_uuid_fault(row.metadata_sync_enabled_updated_by_device_id, "sync_config.metadata_sync_enabled_updated_by_device_id"@),
    or_next(opt_stamp_fault(row.server_token_updated_at, "sync_config.server_token_updated_at"@),
    or_next(opt_uuid_fault(row.server_token_updated_by_user_id, "sync_config.server_token_updated_by_user_id"@),
    or_next(opt_uuid_fault(row.server_token_updated_by_device_id, "sync_config.server_token_updated_by_device_id"@),
    or_next(opt_stamp_fault(row.last_sync_timestamp, "sync_config.last_sync_timestamp"@),
    or_next(stamp_fault(row.created_at@, "sync_config.created_at"@),
    or_next(opt_uuid_fault(row.created_by_device_id, "sync_config.created_by_device_id"@),
    or_next(stamp_fault(row.updated_at@, "sync_config.updated_at"@),
    or_next(opt_uuid_fault(row.updated_by_user_id, "sync_config.updated_by_user_id"@),
    opt_uuid_fault(row.updated_by_device_id, "sync_config.updated_by_device_id"@))))))))))))))))))))))))))))))))
}

/// True when a readable stored row holds exactly these settings (a flag is on when
/// it is stored as 1).
pub open spec fn config_of_row(c: SyncConfig, row: SyncConfigRow) -> bool {
    &&& c.id == uuid_parsed(row.id@).unwrap()
    &&& c.user_id == uuid_parsed(row.user_id@).unwrap()
    &&& c.sync_interval_minutes_updated_at == opt_stamp(row.sync_interval_minutes_updated_at)
    &&& c.sync_interval_minutes_updated_by_user_id == opt_uuid(row.sync_interval_minutes_updated_by_user_id)
    &&& c.sync_interval_minutes_updated_by_device_id == opt_uuid(row.sync_interval_minutes_updated_by_device_id)
    &&& c.background_sync_enabled_updated_at == opt_stamp(row.background_sync_enabled_updated_at)
    &&& c.background_sync_enabled_updated_by_user_id == opt_uuid(row.background_sync_enabled_updated_by_user_id)
    &&& c.background_sync_enabled_updated_by_device_id == opt_uuid(row.background_sync_enabled_updated_by_device_id)
    &&& c.wifi_only_updated_at == opt_stamp(row.wifi_only_updated_at)
    &&& c.wifi_only_updated_by_user_id == opt_uuid(row.wifi_only_updated_by_user_id)
    &&& c.wifi_only_updated_by_device_id == opt_uuid(row.wifi_only_updated_by_device_id)
    &&& c.charging_only_updated_at == opt_stamp(row.charging_only_updated_at)
    &&& c.charging_only_updated_by_user_id == opt_uuid(row.charging_only_updated_by_user_id)
    &&& c.charging_only_updated_by_device_id == opt_uuid(row.charging_only_updated_by_device_id)
    &&& c.sync_priority_threshold_updated_at == opt_stamp(row.sync_priority_threshold_updated_at)
    &&& c.sync_priority_threshold_updated_by_user_id == opt_uuid(row.sync_priority_threshold_updated_by_user_id)
    &&& c.sync_priority_threshold_updated_by_device_id == opt_uuid(row.sync_priority_threshold_updated_by_device_id)
    &&& c.document_sync_enabled_updated_at == opt_stamp(row.document_sync_enabled_updated_at)
    &&& c.document_sync_enabled_updated_by_user_id == opt_uuid(row.document_sync_enabled_updated_by_user_id)
    &&& c.document_sync_enabled_updated_by_device_id == opt_uuid(row.document_sync_enabled_updated_by_device_id)
    &&& c.metadata_sync_enabled_updated_at == opt_stamp(row.metadata_sync_enabled_updated_at)
    &&& c.metadata_sync_enabled_updated_by_user_id == opt_uuid(row.metadata_sync_enabled_updated_by_user_id)
    &&& c.metadata_sync_enabled_updated_by_device_id == opt_uuid(row.metadata_sync_enabled_updated_by_device_id)
    &&& c.server_token_updated_at == opt_stamp(row.server_token_updated_at)
    &&& c.server_token_updated_by_user_id == opt_uuid(row.server_token_updated_by_user_id)
    &&& c.server_token_updated_by_device_id == opt_uuid(row.server_token_updated_by_device_id)
    &&& c.last_sync_timestamp == opt_stamp(row.last_sync_timestamp)
    &&& c.created_at == rfc3339_stamp(row.created_at@).unwrap()
    &&& c.created_by_device_id == opt_uuid(row.created_by_device_id)
    &&& c.updated_at == rfc3339_stamp(row.updated_at@).unwrap()
    &&& c.updated_by_user_id == opt_uuid(row.updated_by_user_id)
    &&& c.updated_by_device_id == opt_uuid(row.updated_by_device_id)
    &&& c.sync_interval_minutes == row.sync_interval_minutes
    &&& c.background_sync_enabled == (row.background_sync_enabled == 1)
    &&& c.wifi_only == (row.wifi_only == 1)
    &&& c.charging_only == (row.charging_only == 1)
    &&& c.sync_priority_threshold == row.sync_priority_threshold
    &&& c.document_sync_enabled == (row.document_sync_enabled == 1)
    &&& c.metadata_sync_enabled == (row.metadata_sync_enabled == 1)
    &&& c.server_token == row.server_token
}

/// True when every instant of the settings lies in the years 0000 to 9999, so that its
/// stored text reads back as the same instant.
pub open spec fn config_in_range(c: SyncConfig) -> bool {
    &&& four_digit_year(c.created_at.secs())
    &&& four_digit_year(c.updated_at.secs())
    &&& opt_four_digit_year(c.last_sync_timestamp)
    &&& opt_four_digit_year(c.sync_interval_minutes_updated_at)
    &&& opt_four_digit_year(c.background_sync_enabled_updated_at)
    &&& opt_four_digit_year(c.wifi_only_updated_at)
    &&& opt_four_digit_year(c.charging_only_updated_at)
    &&& opt_four_digit_year(c.sync_priority_threshold_updated_at)
    &&& opt_four_digit_year(c.document_sync_enabled_updated_at)
    &&& opt_four_digit_year(c.metadata_sync_enabled_updated_at)
    &&& opt_four_digit_year(c.server_token_updated_at)
}

impl SyncConfig {
    /// Reads stored settings; the first field that cannot be read gives the error. A
    /// stored flag is on when it is 1.
    pub fn try_from(row: SyncConfigRow) -> (r: Result<SyncConfig, DomainError>)
        ensures
            match config_row_fault(row) {
                None => r matches Ok(c) && config_of_row(c, row),
                Some(f) => r matches Err(e) && reports(e, f),
            },
    {
        let id = match read_uuid(row.id.as_str(), "sync_config.id") {
            Ok(v) => v,
            Err(e) => return Err(e),
        };
        let user_id = match read_uuid(row.user_id.as_str(), "sync_config.user_id") {
            Ok(v) => v,
            Err(e) => return Err(e),
        };
        let sync_interval_minutes_updated_at = match read_opt_stamp(&row.sync_interval_minutes_updated_at, "sync_config.sync_interval_minutes_updated_at") {
            Ok(v) => v,
            Err(e) => return Err(e),
        };
        let sync_interval_minutes_updated_by_user_id = match read_opt_uuid(&row.sync_interval_minutes_updated_by_user_id, "sync_config.sync_interval_minutes_updated_by_user_id") {
            Ok(v) => v,
            Err(e) => return Err(e),
        };
        let sync_interval_minutes_updated_by_device_id = match read_opt_uuid(&row.sync_interval_minutes_updated_by_device_id, "sync_config.sync_interval_minutes_updated_by_device_id") {
            Ok(v) => v,
            Err(e) => return Err(e),
        };
        let background_sync_enabled_updated_at = match read_opt_stamp(&row.background_sync_enabled_updated_at, "sync_config.background_sync_enabled_updated_at") {
            Ok(v) => v,
            Err(e) => return Err(e),
        };
        let background_sync_enabled_updated_by_user_id = match read_opt_uuid(&row.background_sync_enabled_updated_by_user_id, "sync_config.background_sync_enabled_updated_by_user_id") {
            Ok(v) => v,
            Err(e) => return Err(e),
        };
        let background_sync_enabled_updated_by_device_id = match read_opt_uuid(&row.background_sync_enabled_updated_by_device_id, "sync_config.background_sync_enabled_updated_by_device_id") {
            Ok(v) => v,
            Err(e) => return Err(e),
        };
        let wifi_only_updated_at = match read_opt_stamp(&row.wifi_only_updated_at, "sync_config.wifi_only_updated_at") {
            Ok(v) => v,
            Err(e) => return Err(e),
        };
        let wifi_only_updated_by_user_id = match read_opt_uuid(&row.wifi_only_updated_by_user_id, "sync_config.wifi_only_updated_by_user_id") {
            Ok(v) => v,
            Err(e) => return Err(e),
        };
        let wifi_only_updated_by_device_id = match read_opt_uuid(&row.wifi_only_updated_by_device_id, "sync_config.wifi_only_updated_by_device_id") {
            Ok(v) => v,
            Err(e) => return Err(e),
        };
        let charging_only_updated_at = match read_opt_stamp(&row.charging_only_updated_at, "sync_config.charging_only_updated_at") {
            Ok(v) => v,
            Err(e) => return Err(e),
        };
        let charging_only_updated_by_user_id = match read_opt_uuid(&row.charging_only_updated_by_user_id, "sync_config.charging_only_updated_by_user_id") {
            Ok(v) => v,
            Err(e) => return Err(e),
        };
        let charging_only_updated_by_device_id = match read_opt_uuid(&row.charging_only_updated_by_device_id, "sync_config.charging_only_updated_by_device_id") {
            Ok(v) => v,
            Err(e) => return Err(e),
        };
        let sync_priority_threshold_updated_at = match read_opt_stamp(&row.sync_priority_threshold_updated_at, "sync_config.sync_priority_threshold_updated_at") {
            Ok(v) => v,
            Err(e) => return Err(e),
        };
        let sync_priority_threshold_updated_by_user_id = match read_opt_uuid(&row.sync_priority_threshold_updated_by_user_id, "sync_config.sync_priority_threshold_updated_by_user_id") {
            Ok(v) => v,
            Err(e) => return Err(e),
        };
        let sync_priority_threshold_updated_by_device_id = match read_opt_uuid(&row.sync_priority_threshold_updated_by_device_id, "sync_config.sync_priority_threshold_updated_by_device_id") {
            Ok(v) => v,
            Err(e) => return Err(e),
        };
        let document_sync_enabled_updated_at = match read_opt_stamp(&row.document_sync_enabled_updated_at, "sync_config.document_sync_enabled_updated_at") {
            Ok(v) => v,
            Err(e) => return Err(e),
        };
        let document_sync_enabled_updated_by_user_id = match read_opt_uuid(&row.document_sync_enabled_updated_by_user_id, "sync_config.document_sync_enabled_updated_by_user_id") {
            Ok(v) => v,
            Err(e) => return Err(e),
        };
        let document_sync_enabled_updated_by_device_id = match read_opt_uuid(&row.document_sync_enabled_updated_by_device_id, "sync_config.document_sync_enabled_updated_by_device_id") {
            Ok(v) => v,
            Err(e) => return Err(e),
        };
        let metadata_sync_enabled_updated_at = match read_opt_stamp(&row.metadata_sync_enabled_updated_at, "sync_config.metadata_sync_enabled_updated_at") {
            Ok(v) => v,
            Err(e) => return Err(e),
        };
        let metadata_sync_enabled_updated_by_user_id = match read_opt_uuid(&row.metadata_sync_enabled_updated_by_user_id, "sync_config.metadata_sync_enabled_updated_by_user_id") {
            Ok(v) => v,
            Err(e) => return Err(e),
        };
        let metadata_sync_enabled_updated_by_device_id = match read_opt_uuid(&row.metadata_sync_enabled_updated_by_device_id, "sync_config.metadata_sync_enabled_updated_by_device_id") {
            Ok(v) => v,
            Err(e) => return Err(e),
        };
        let server_token_updated_at = match read_opt_stamp(&row.server_token_updated_at, "sync_config.server_token_updated_at") {
            Ok(v) => v,
            Err(e) => return Err(e),
        };
        let server_token_updated_by_user_id = match read_opt_uuid(&row.server_token_updated_by_user_id, "sync_config.server_token_updated_by_user_id") {
            Ok(v) => v,
            Err(e) => return Err(e),
        };
        let server_token_updated_by_device_id = match read_opt_uuid(&row.server_token_updated_by_device_id, "sync_config.server_token_updated_by_device_id") {
            Ok(v) => v,
            Err(e) => return Err(e),
        };
        let last_sync_timestamp = match read_opt_stamp(&row.last_sync_timestamp, "sync_config.last_sync_timestamp") {
            Ok(v) => v,
            Err(e) => return Err(e),
        };
        let created_at = match read_stamp(row.created_at.as_str(), "sync_config.created_at") {
            Ok(v) => v,
            Err(e) => return Err(e),
        };
        let created_by_device_id = match read_opt_uuid(&row.created_by_device_id, "sync_config.created_by_device_id") {
            Ok(v) => v,
            Err(e) => return Err(e),
        };
        let updated_at = match read_stamp(row.updated_at.as_str(), "sync_config.updated_at") {
            Ok(v) => v,
            Err(e) => return Err(e),
        };
        let updated_by_user_id = match read_opt_uuid(&row.updated_by_user_id, "sync_config.updated_by_user_id") {
            Ok(v) => v,
            Err(e) => return Err(e),
        };
        let updated_by_device_id = match read_opt_uuid(&row.updated_by_device_id, "sync_config.updated_by_device_id") {
            Ok(v) => v,
            Err(e) => return Err(e),
        };
        Ok(SyncConfig {
            id,
            user_id,
            sync_interval_minutes: row.sync_interval_minutes,
            sync_interval_minutes_updated_at,
            sync_interval_minutes_updated_by_user_id,
            sync_interval_minutes_updated_by_device_id,
            background_sync_enabled: row.background_sync_enabled == 1,
            background_sync_enabled_updated_at,
            background_sync_enabled_updated_by_user_id,
            background_sync_enabled_updated_by_device_id,
            wifi_only: row.wifi_only == 1,
            wifi_only_updated_at,
            wifi_only_updated_by_user_id,
            wifi_only_updated_by_device_id,
            charging_only: row.charging_only == 1,
            charging_only_updated_at,
            charging_only_updated_by_user_id,
            charging_only_updated_by_device_id,
            sync_priority_threshold: row.sync_priority_threshold,
            sync_priority_threshold_updated_at,
            sync_priority_threshold_updated_by_user_id,
            sync_priority_threshold_updated_by_device_id,
            document_sync_enabled: row.document_sync_enabled == 1,
            document_sync_enabled_updated_at,
            document_sync_enabled_updated_by_user_id,
            document_sync_enabled_updated_by_device_id,
            metadata_sync_enabled: row.metadata_sync_enabled == 1,
            metadata_sync_enabled_updated_at,
            metadata_sync_enabled_updated_by_user_id,
            metadata_sync_enabled_updated_by_device_id,
            server_token: row.server_token,
            server_token_updated_at,
            server_token_updated_by_user_id,
            server_token_updated_by_device_id,
            last_sync_timestamp,
            created_at,
            created_by_device_id,
            updated_at,
            updated_by_user_id,
            updated_by_device_id,
        })
    }

    /// The row the settings are stored as: identifiers and instants as their text, flags
    /// as 1 or 0. When every instant lies in the years 0000 to 9999, the row reads back
    /// without fault as exactly these settings.
    pub fn to_row(&self) -> (r: SyncConfigRow)
        ensures
            config_in_range(*self) ==> config_row_fault(r) is None && config_of_row(*self, r),
    {
        SyncConfigRow {
            id: write_uuid(self.id),
            user_id: write_uuid(self.user_id),
            sync_interval_minutes: self.sync_interval_minutes,
            sync_interval_minutes_updated_at: write_opt_stamp(&self.sync_interval_minutes_updated_at),
            sync_interval_minutes_updated_by_user_id: write_opt_uuid(self.sync_interval_minutes_updated_by_user_id),
            sync_interval_minutes_updated_by_device_id: write_opt_uuid(self.sync_interval_minutes_updated_by_device_id),
            background_sync_enabled: if self.background_sync_enabled { 1 } else { 0 },
            background_sync_enabled_updated_at: write_opt_stamp(&self.background_sync_enabled_updated_at),
            background_sync_enabled_updated_by_user_id: write_opt_uuid(self.background_sync_enabled_updated_by_user_id),
            background_sync_enabled_updated_by_device_id: write_opt_uuid(self.background_sync_enabled_updated_by_device_id),
            wifi_only: if self.wifi_only { 1 } else { 0 },
            wifi_only_updated_at: write_opt_stamp(&self.wifi_only_updated_at),
            wifi_only_updated_by_user_id: write_opt_uuid(self.wifi_only_updated_by_user_id),
            wifi_only_updated_by_device_id: write_opt_uuid(self.wifi_only_updated_by_device_id),
            charging_only: if self.charging_only { 1 } else { 0 },
            charging_only_updated_at: write_opt_stamp(&self.charging_only_updated_at),
            charging_only_updated_by_user_id: write_opt_uuid(self.charging_only_updated_by_user_id),
            charging_only_updated_by_device_id: write_opt_uuid(self.charging_only_updated_by_device_id),
            sync_priority_threshold: self.sync_priority_threshold,
            sync_priority_threshold_updated_at: write_opt_stamp(&self.sync_priority_threshold_updated_at),
            sync_priority_threshold_updated_by_user_id: write_opt_uuid(self.sync_priority_threshold_updated_by_user_id),
            sync_priority_threshold_updated_by_device_id: write_opt_uuid(self.sync_priority_threshold_updated_by_device_id),
            document_sync_enabled: if self.document_sync_enabled { 1 } else { 0 },
            document_sync_enabled_updated_at: write_opt_stamp(&self.document_sync_enabled_updated_at),
            document_sync_enabled_updated_by_user_id: write_opt_uuid(self.document_sync_enabled_updated_by_user_id),
            document_sync_enabled_updated_by_device_id: write_opt_uuid(self.document_sync_enabled_updated_by_device_id),
            metadata_sync_enabled: if self.metadata_sync_enabled { 1 } else { 0 },
            metadata_sync_enabled_updated_at: write_opt_stamp(&self.metadata_sync_enabled_updated_at),
            metadata_sync_enabled_updated_by_user_id: write_opt_uuid(self.metadata_sync_enabled_updated_by_user_id),
            metadata_sync_enabled_updated_by_device_id: write_opt_uuid(self.metadata_sync_enabled_updated_by_device_id),
            server_token: self.server_token.clone(),
            server_token_updated_at: write_opt_stamp(&self.server_token_updated_at),
            server_token_updated_by_user_id: write_opt_uuid(self.server_token_updated_by_user_id),
            server_token_updated_by_device_id: write_opt_uuid(self.server_token_updated_by_device_id),
            last_sync_timestamp: write_opt_stamp(&self.last_sync_timestamp),
            created_at: write_stamp(&self.created_at),
            created_by_device_id: write_opt_uuid(self.created_by_device_id),
            updated_at: write_stamp(&self.updated_at),
            updated_by_user_id: write_opt_uuid(self.updated_by_user_id),
            updated_by_device_id: write_opt_uuid(self.updated_by_device_id),
        }
    }

    /// The settings a user starts with: a sync every 60 minutes, in the background, on
    /// Wi-Fi only, also when not charging, from priority threshold 1, documents and
    /// metadata included, no server token; every setting stamped as set by the user now.
    pub fn default_for_user(id: u128, user_id: u128, now: Timestamp) -> (c: SyncConfig)
        ensures
            c.id == id,
            c.user_id == user_id,
            c.sync_interval_minutes == 60,
            c.sync_interval_minutes_updated_at == Some(now),
            c.sync_interval_minutes_updated_by_user_id == Some(user_id),
            c.sync_interval_minutes_updated_by_device_id is None,
            c.background_sync_enabled == true,
            c.background_sync_enabled_updated_at == Some(now),
            c.background_sync_enabled_updated_by_user_id == Some(user_id),
            c.background_sync_enabled_updated_by_device_id is None,
            c.wifi_only == true,
            c.wifi_only_updated_at == Some(now),
            c.wifi_only_updated_by_user_id == Some(user_id),
            c.wifi_only_updated_by_device_id is None,
            c.charging_only == false,
            c.charging_only_updated_at == Some(now),
            c.charging_only_updated_by_user_id == Some(user_id),
            c.charging_only_updated_by_device_id is None,
            c.sync_priority_threshold == 1,
            c.sync_priority_threshold_updated_at == Some(now),
            c.sync_priority_threshold_updated_by_user_id == Some(user_id),
            c.sync_priority_threshold_updated_by_device_id is None,
            c.document_sync_enabled == true,
            c.document_sync_enabled_updated_at == Some(now),
            c.document_sync_enabled_updated_by_user_id == Some(user_id),
            c.document_sync_enabled_updated_by_device_id is None,
            c.metadata_sync_enabled == true,
            c.metadata_sync_enabled_updated_at == Some(now),
            c.metadata_sync_enabled_updated_by_user_id == Some(user_id),
            c.metadata_sync_enabled_updated_by_device_id is None,
            c.server_token is None,
            c.server_token_updated_at is None,
            c.server_token_updated_by_user_id is None,
            c.server_token_updated_by_device_id is None,
            c.last_sync_timestamp is None,
            c.created_at == now,
            c.created_by_device_id is None,
            c.updated_at == now,
            c.updated_by_user_id == Some(user_id),
            c.updated_by_device_id is None,
    {
        SyncConfig {
            id,
            user_id,
            sync_interval_minutes: 60,
            sync_interval_minutes_updated_at: Some(now),
            sync_interval_minutes_updated_by_user_id: Some(user_id),
            sync_interval_minutes_updated_by_device_id: None,
            background_sync_enabled: true,
            background_sync_enabled_updated_at: Some(now),
            background_sync_enabled_updated_by_user_id: Some(user_id),
            background_sync_enabled_updated_by_device_id: None,
            wifi_only: true,
            wifi_only_updated_at: Some(now),
            wifi_only_updated_by_user_id: Some(user_id),
            wifi_only_updated_by_device_id: None,
            charging_only: false,
            charging_only_updated_at: Some(now),
            charging_only_updated_by_user_id: Some(user_id),
            charging_only_updated_by_device_id: None,
            sync_priority_threshold: 1,
            sync_priority_threshold_updated_at: Some(now),
            sync_priority_threshold_updated_by_user_id: Some(user_id),
            sync_priority_threshold_updated_by_device_id: None,
            document_sync_enabled: true,
            document_sync_enabled_updated_at: Some(now),
            document_sync_enabled_updated_by_user_id: Some(user_id),
            document_sync_enabled_updated_by_device_id: None,
            metadata_sync_enabled: true,
            metadata_sync_enabled_updated_at: Some(now),
            metadata_sync_enabled_updated_by_user_id: Some(user_id),
            metadata_sync_enabled_updated_by_device_id: None,
            server_token: None,
            server_token_updated_at: None,
            server_token_updated_by_user_id: None,
            server_token_updated_by_device_id: None,
            last_sync_timestamp: None,
            created_at: now,
            created_by_device_id: None,
            updated_at: now,
            updated_by_user_id: Some(user_id),
            updated_by_device_id: None,
        }
    }
}

/// Stored settings read back as they were written: a row holds at most one set of
/// settings, so the settings `to_row` writes (with every instant in the years 0000 to
/// 9999) are exactly what `try_from` reads from that row.
pub proof fn stored_config_reads_back(c: SyncConfig, d: SyncConfig, row: SyncConfigRow)
    requires
        config_of_row(c, row),
        config_of_row(d, row),
    ensures
        c == d,
{
}

/// The overwrite of a user's stored settings: every setting takes the given value and is
/// stamped with the same instant, user and device; the last sync instant is written only
/// when one is given.
#[derive(Clone, Debug)]
pub struct SyncConfigUpdate {
    pub user_id: u128,
    pub sync_interval_minutes: i64,
    pub background_sync_enabled: bool,
    pub wifi_only: bool,
    pub charging_only: bool,
    pub sync_priority_threshold: i64,
    pub document_sync_enabled: bool,
    pub metadata_sync_enabled: bool,
    pub server_token: Option<String>,
    pub stamped_at: Timestamp,
    pub stamped_by_user_id: u128,
    pub stamped_by_device_id: Option<u128>,
    pub last_sync_timestamp: Option<Timestamp>,
}

/// How settings are written: as a new row when the user has none, else as an overwrite.
#[derive(Clone, Debug)]
pub enum SyncConfigWrite {
    Insert(SyncConfig),
    Update(SyncConfigUpdate),
}

/// Decides how settings are written. A user without stored settings gets the settings as
/// they are; otherwise every setting is overwritten and stamped with `now`, the acting
/// user and the acting device (when its identifier is a UUID), and the last sync
/// instant is written only when the settings carry one.
pub fn plan_sync_config_write(
    config: SyncConfig,
    row_exists: bool,
    now: Timestamp,
    acting_user_id: u128,
    acting_device_id: &str,
) -> (r: SyncConfigWrite)
    ensures
        !row_exists ==> (r matches SyncConfigWrite::Insert(c) && c == config),
        row_exists ==> (r matches SyncConfigWrite::Update(u)
            && u.user_id == config.user_id
            && u.sync_interval_minutes == config.sync_interval_minutes
            && u.background_sync_enabled == config.background_sync_enabled
            && u.wifi_only == config.wifi_only
            && u.charging_only == config.charging_only
            && u.sync_priority_threshold == config.sync_priority_threshold
            && u.document_sync_enabled == config.document_sync_enabled
            && u.metadata_sync_enabled == config.metadata_sync_enabled
            && u.server_token == config.server_token
            && u.stamped_at == now
            && u.stamped_by_user_id == acting_user_id
            && u.stamped_by_device_id == uuid_parsed(acting_device_id@)
            && u.last_sync_timestamp == config.last_sync_timestamp),
{
    if !row_exists {
        return SyncConfigWrite::Insert(config);
    }
    let device = parse_uuid_text(acting_device_id);
    SyncConfigWrite::Update(SyncConfigUpdate {
        user_id: config.user_id,
        sync_interval_minutes: config.sync_interval_minutes,
        background_sync_enabled: config.background_sync_enabled,
        wifi_only: config.wifi_only,
        charging_only: config.charging_only,
        sync_priority_threshold: config.sync_priority_threshold,
        document_sync_enabled: config.document_sync_enabled,
        metadata_sync_enabled: config.metadata_sync_enabled,
        server_token: config.server_token,
        stamped_at: now,
        stamped_by_user_id: acting_user_id,
        stamped_by_device_id: device,
        last_sync_timestamp: config.last_sync_timestamp,
    })
}

/// A user's synchronisation status at a glance.
#[derive(Clone, Debug)]
pub struct SyncStatus {
    pub user_id: u128,
    pub last_sync_timestamp: Option<Timestamp>,
    pub last_device_sync: Option<Timestamp>,
    pub sync_enabled: bool,
    pub offline_mode: bool,
    pub pending_changes: i64,
    pub pending_documents: i64,
    pub sync_in_progress: bool,
}

impl SyncStatus {
    /// The status from the user's settings, the last attempt of the user's most recent
    /// device (an unreadable instant counts as none), and the counts of pending changes,
    /// pending documents and open batches. Synchronisation is enabled when background
    /// sync is, and in progress when a batch is open.
    pub fn assemble(
        user_id: u128,
        config: &SyncConfig,
        last_attempt_text: Option<String>,
        pending_changes: i64,
        pending_documents: i64,
        open_batches: i64,
    ) -> (r: SyncStatus)
        ensures
            r.user_id == user_id,
            r.last_sync_timestamp == config.last_sync_timestamp,
            r.last_device_sync == match last_attempt_text {
                Some(t) => rfc3339_stamp(t@),
                None => None,
            },
            r.sync_enabled == config.background_sync_enabled,
            !r.offline_mode,
            r.pending_changes == pending_changes,
            r.pending_documents == pending_documents,
            r.sync_in_progress == (open_batches > 0),
    {
        let last_device_sync = match &last_attempt_text {
            Some(t) => Timestamp::parse_rfc3339(t.as_str()),
            None => None,
        };
        SyncStatus {
            user_id,
            last_sync_timestamp: config.last_sync_timestamp,
            last_device_sync,
            sync_enabled: config.background_sync_enabled,
            offline_mode: false,
            pending_changes,
            pending_documents,
            sync_in_progress: open_batches > 0,
        }
    }
}

} // verus!
