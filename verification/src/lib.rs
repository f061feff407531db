//! Offline-first field-data domain logic: change-log synchronisation, entity merging,
//! users, workshops and strategic goals, with contracts proved by Verus.

pub mod amount;
pub mod clock;
pub mod cloud_storage;
pub mod doc_fields;
pub mod entity_merger;
pub mod errors;
pub mod goal_update;
pub mod ident;
pub mod json;
pub mod records;
pub mod strategic_goal;
pub mod sync_config;
pub mod sync_records;
pub mod sync_service;
pub mod sync_types;
pub mod sync_utils;
pub mod text;
pub mod user;
pub mod user_service;
pub mod user_store;
pub mod user_sync;
pub mod validation;
pub mod workshop;
pub mod workshop_participant;
pub mod workshop_service;
pub mod workshop_stats;
