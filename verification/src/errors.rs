//! The error types of every layer, each with the text that describes it.

use vstd::prelude::*;
use crate::clock::Timestamp;
use crate::ident::{uuid_text, uuid_to_text};
use crate::text::{decimal, decimal_text, join2, join3};

verus! {

/// Why a field or an entity failed validation.
#[derive(Clone, Debug)]
pub enum ValidationError {
    Required { field: String },
    MinLength { field: String, min: usize },
    MaxLength { field: String, max: usize },
    Range { field: String, min: String, max: String },
    Format { field: String, reason: String },
    Unique { field: String },
    InvalidValue { field: String, reason: String },
    Entity(String),
    Relationship(String),
    Custom(String),
}

/// The description of a validation error.
pub open spec fn validation_text(e: ValidationError) -> Seq<char> {
    match e {
        ValidationError::Required { field } => "Field '"@ + field@ + "' is required"@,
        ValidationError::MinLength { field, min } =>
            "Field '"@ + field@ + "' must be at least "@ + decimal(min as nat) + " characters"@,
        ValidationError::MaxLength { field, max } =>
            "Field '"@ + field@ + "' cannot exceed "@ + decimal(max as nat) + " characters"@,
        ValidationError::Range { field, min, max } =>
            "Field '"@ + field@ + "' must be between "@ + min@ + " and "@ + max@,
        ValidationError::Format { field, reason } =>
            "Field '"@ + field@ + "' contains invalid format: "@ + reason@,
        ValidationError::Unique { field } => "Field '"@ + field@ + "' must be unique"@,
        ValidationError::InvalidValue { field, reason } =>
            "Field '"@ + field@ + "' contains an invalid value: "@ + reason@,
        ValidationError::Entity(m) => "Entity is invalid: "@ + m@,
        ValidationError::Relationship(m) => "Relationship error: "@ + m@,
        ValidationError::Custom(m) => "Validation error: "@ + m@,
    }
}

impl ValidationError {
    pub fn required(field: &str) -> (r: Self)
        ensures
            r matches ValidationError::Required { field: f } && f@ == field@,
    {
        ValidationError::Required { field: field.to_owned() }
    }

    pub fn min_length(field: &str, min: usize) -> (r: Self)
        ensures
            r matches ValidationError::MinLength { field: f, min: m } && f@ == field@ && m == min,
    {
        ValidationError::MinLength { field: field.to_owned(), min }
    }

    pub fn max_length(field: &str, max: usize) -> (r: Self)
        ensures
            r matches ValidationError::MaxLength { field: f, max: m } && f@ == field@ && m == max,
    {
        ValidationError::MaxLength { field: field.to_owned(), max }
    }

    /// A range error; the bounds are given as the text they display as.
    pub fn range(field: &str, min: &str, max: &str) -> (r: Self)
        ensures
            r matches ValidationError::Range { field: f, min: lo, max: hi }
                && f@ == field@ && lo@ == min@ && hi@ == max@,
    {
        ValidationError::Range { field: field.to_owned(), min: min.to_owned(), max: max.to_owned() }
    }

    pub fn format(field: &str, reason: &str) -> (r: Self)
        ensures
            r matches ValidationError::Format { field: f, reason: why } && f@ == field@ && why@ == reason@,
    {
        ValidationError::Format { field: field.to_owned(), reason: reason.to_owned() }
    }

    pub fn unique(field: &str) -> (r: Self)
        ensures
            r matches ValidationError::Unique { field: f } && f@ == field@,
    {
        ValidationError::Unique { field: field.to_owned() }
    }

    pub fn invalid_value(field: &str, reason: &str) -> (r: Self)
        ensures
            r matches ValidationError::InvalidValue { field: f, reason: why } && f@ == field@ && why@ == reason@,
    {
        ValidationError::InvalidValue { field: field.to_owned(), reason: reason.to_owned() }
    }

    pub fn entity(message: &str) -> (r: Self)
        ensures
            r matches ValidationError::Entity(m) && m@ == message@,
    {
        ValidationError::Entity(message.to_owned())
    }

    pub fn relationship(message: &str) -> (r: Self)
        ensures
            r matches ValidationError::Relationship(m) && m@ == message@,
    {
        ValidationError::Relationship(message.to_owned())
    }

    pub fn custom(message: &str) -> (r: Self)
        ensures
            r matches ValidationError::Custom(m) && m@ == message@,
    {
        ValidationError::Custom(message.to_owned())
    }

    /// The text the error displays as.
    pub fn message(&self) -> (r: String)
        ensures
            r@ == validation_text(*self),
    {
        match self {
            ValidationError::Required { field } => join3("Field '", field.as_str(), "' is required"),
            ValidationError::MinLength { field, min } => {
                let n = decimal_text(*min as u64);
                join3("Field '", field.as_str(), "' must be at least ").concat(n.as_str()).concat(" characters")
            },
            ValidationError::MaxLength { field, max } => {
                let n = decimal_text(*max as u64);
                join3("Field '", field.as_str(), "' cannot exceed ").concat(n.as_str()).concat(" characters")
            },
            ValidationError::Range { field, min, max } =>
                join3("Field '", field.as_str(), "' must be between ").concat(min.as_str()).concat(" and ").concat(max.as_str()),
            ValidationError::Format { field, reason } =>
                join3("Field '", field.as_str(), "' contains invalid format: ").concat(reason.as_str()),
            ValidationError::Unique { field } => join3("Field '", field.as_str(), "' must be unique"),
            ValidationError::InvalidValue { field, reason } =>
                join3("Field '", field.as_str(), "' contains an invalid value: ").concat(reason.as_str()),
            ValidationError::Entity(m) => join2("Entity is invalid: ", m.as_str()),
            ValidationError::Relationship(m) => join2("Relationship error: ", m.as_str()),
            ValidationError::Custom(m) => join2("Validation error: ", m.as_str()),
        }
    }
}

/// A failure of the local database.
#[derive(Debug)]
pub enum DbError {
    /// A failure reported by the SQL driver, with the driver's description.
    Sqlx(String),
    ConnectionPool(String),
    Transaction(String),
    Query(String),
    Execution(String),
    NotFound(String, String),
    Conflict(String),
    Locked,
    Migration(String),
    Other(String),
}

/// The description of a database error.
pub open spec fn db_text(e: DbError) -> Seq<char> {
    match e {
        DbError::Sqlx(m) => "SQLx error: "@ + m@,
        DbError::ConnectionPool(m) => "Connection pool error: "@ + m@,
        DbError::Transaction(m) => "Transaction error: "@ + m@,
        DbError::Query(m) => "Query error: "@ + m@,
        DbError::Execution(m) => "Error executing statement: "@ + m@,
        DbError::NotFound(what, id) => "Record not found: "@ + what@ + " with ID "@ + id@,
        DbError::Conflict(m) => "Conflict error: "@ + m@,
        DbError::Locked => "Database is locked"@,
        DbError::Migration(m) => "Migration error: "@ + m@,
        DbError::Other(m) => "Database error: "@ + m@,
    }
}

/// The name of a database error's variant, as it is serialised under `type`.
pub open spec fn db_kind(e: DbError) -> Seq<char> {
    match e {
        DbError::Sqlx(_) => "Sqlx"@,
        DbError::ConnectionPool(_) => "ConnectionPool"@,
        DbError::Transaction(_) => "Transaction"@,
        DbError::Query(_) => "Query"@,
        DbError::Execution(_) => "Execution"@,
        DbError::NotFound(_, _) => "NotFound"@,
        DbError::Conflict(_) => "Conflict"@,
        DbError::Locked => "Locked"@,
        DbError::Migration(_) => "Migration"@,
        DbError::Other(_) => "Other"@,
    }
}

/// The message a database error is serialised with: the variant's own text, except
/// for `NotFound` and `Locked`, whose message is their full description.
pub open spec fn db_serialized_message(e: DbError) -> Seq<char> {
    match e {
        DbError::Sqlx(m) => m@,
        DbError::ConnectionPool(m) => m@,
        DbError::Transaction(m) => m@,
        DbError::Query(m) => m@,
        DbError::Execution(m) => m@,
        DbError::NotFound(_, _) => db_text(e),
        DbError::Conflict(m) => m@,
        DbError::Locked => "Database is locked"@,
        DbError::Migration(m) => m@,
        DbError::Other(m) => m@,
    }
}

/// True when two database errors are the same variant with texts that read the same.
pub open spec fn db_same(a: DbError, b: DbError) -> bool {
    match (a, b) {
        (DbError::Sqlx(x), DbError::Sqlx(y)) => x@ == y@,
        (DbError::ConnectionPool(x), DbError::ConnectionPool(y)) => x@ == y@,
        (DbError::Transaction(x), DbError::Transaction(y)) => x@ == y@,
        (DbError::Query(x), DbError::Query(y)) => x@ == y@,
        (DbError::Execution(x), DbError::Execution(y)) => x@ == y@,
        (DbError::NotFound(x1, x2), DbError::NotFound(y1, y2)) => x1@ == y1@ && x2@ == y2@,
        (DbError::Conflict(x), DbError::Conflict(y)) => x@ == y@,
        (DbError::Locked, DbError::Locked) => true,
        (DbError::Migration(x), DbError::Migration(y)) => x@ == y@,
        (DbError::Other(x), DbError::Other(y)) => x@ == y@,
        _ => false,
    }
}

/// A copy of a database error: a driver error cannot be copied, so it becomes `Other`
/// with the driver error's description; every other variant is copied as it is.
impl Clone for DbError {
    fn clone(&self) -> (r: Self)
        ensures
            match *self {
                DbError::Sqlx(m) => r matches DbError::Other(c) && c@ == "SQLx error: "@ + m@,
                _ => db_same(r, *self),
            },
    {
        match self {
            DbError::Sqlx(m) => DbError::Other(join2("SQLx error: ", m.as_str())),
            DbError::ConnectionPool(m) => DbError::ConnectionPool(m.clone()),
            DbError::Transaction(m) => DbError::Transaction(m.clone()),
            DbError::Query(m) => DbError::Query(m.clone()),
            DbError::Execution(m) => DbError::Execution(m.clone()),
            DbError::NotFound(a, b) => DbError::NotFound(a.clone(), b.clone()),
            DbError::Conflict(m) => DbError::Conflict(m.clone()),
            DbError::Locked => DbError::Locked,
            DbError::Migration(m) => DbError::Migration(m.clone()),
            DbError::Other(m) => DbError::Other(m.clone()),
        }
    }
}

impl DbError {
    /// The text the error displays as.
    pub fn message(&self) -> (r: String)
        ensures
            r@ == db_text(*self),
    {
        match self {
            DbError::Sqlx(m) => join2("SQLx error: ", m.as_str()),
            DbError::ConnectionPool(m) => join2("Connection pool error: ", m.as_str()),
            DbError::Transaction(m) => join2("Transaction error: ", m.as_str()),
            DbError::Query(m) => join2("Query error: ", m.as_str()),
            DbError::Execution(m) => join2("Error executing statement: ", m.as_str()),
            DbError::NotFound(what, id) => join3("Record not found: ", what.as_str(), " with ID ").concat(id.as_str()),
            DbError::Conflict(m) => join2("Conflict error: ", m.as_str()),
            DbError::Locked => String::from_str("Database is locked"),
            DbError::Migration(m) => join2("Migration error: ", m.as_str()),
            DbError::Other(m) => join2("Database error: ", m.as_str()),
        }
    }

    /// The two fields the error is serialised as: its variant's name (`type`) and its
    /// message (`message`).
    pub fn serialized_fields(&self) -> (r: (String, String))
        ensures
            r.0@ == db_kind(*self),
            r.1@ == db_serialized_message(*self),
    {
        match self {
            DbError::Sqlx(m) => (String::from_str("Sqlx"), m.clone()),
            DbError::ConnectionPool(m) => (String::from_str("ConnectionPool"), m.clone()),
            DbError::Transaction(m) => (String::from_str("Transaction"), m.clone()),
            DbError::Query(m) => (String::from_str("Query"), m.clone()),
            DbError::Execution(m) => (String::from_str("Execution"), m.clone()),
            DbError::NotFound(_, _) => (String::from_str("NotFound"), self.message()),
            DbError::Conflict(m) => (String::from_str("Conflict"), m.clone()),
            DbError::Locked => (String::from_str("Locked"), String::from_str("Database is locked")),
            DbError::Migration(m) => (String::from_str("Migration"), m.clone()),
            DbError::Other(m) => (String::from_str("Other"), m.clone()),
        }
    }
}

} // verus!

verus! {

/// Texts joined with a separator between each two of them.
pub open spec fn joined(parts: Seq<Seq<char>>, sep: Seq<char>) -> Seq<char>
    decreases parts.len(),
{
    if parts.len() == 0 {
        Seq::empty()
    } else if parts.len() == 1 {
        parts[0]
    } else {
        joined(parts.drop_last(), sep) + sep + parts.last()
    }
}

/// The views of a list of strings.
pub open spec fn views_of(v: Seq<String>) -> Seq<Seq<char>> {
    v.map_values(|s: String| s@)
}

/// Joins strings with a separator, as `[String]::join` does.
pub fn join_with(parts: &Vec<String>, sep: &str) -> (r: String)
    ensures
        r@ == joined(views_of(parts@), sep@),
{
    let mut out = String::new();
    let mut i: usize = 0;
    while i < parts.len()
        invariant
            i <= parts.len(),
            out@ == joined(views_of(parts@.take(i as int)), sep@),
        decreases parts.len() - i,
    {
        proof {
            let pre = views_of(parts@.take(i as int));
            let post = views_of(parts@.take(i as int + 1));
            assert(post.drop_last() =~= pre);
            assert(post.last() == parts@[i as int]@);
        }
        if i == 0 {
            out = parts[i].clone();
            proof {
                assert(views_of(parts@.take(1)) =~= seq![parts@[0]@]);
            }
        } else {
            out = out.concat(sep).concat(parts[i].as_str());
        }
        i = i + 1;
    }
    proof {
        assert(parts@.take(parts@.len() as int) =~= parts@);
    }
    out
}

/// Details of a conflict met while synchronising.
#[derive(Clone, Debug)]
pub struct SyncConflict {
    pub entity_type: String,
    pub entity_id: u128,
    pub field_name: Option<String>,
    pub local_timestamp: Timestamp,
    pub remote_timestamp: Timestamp,
    pub message: String,
}

/// A failure while synchronising with the server.
#[derive(Clone, Debug)]
pub enum SyncError {
    Network(String),
    AuthenticationFailed(String),
    RecordConflict(String),
    Conflict { conflict: SyncConflict },
    TombstoneConflict { entity_type: String, id: u128 },
    ServerError(String),
    LocalDatabase(DbError),
    RemoteEntityNotFound(String),
    EntityTypeMismatch(String),
    MissingRequiredFields(String),
    InvalidBatch(String),
    Interrupted,
    Timeout,
    InsufficientStorage,
    Other(String),
}

/// The description of a synchronisation error.
pub open spec fn sync_text(e: SyncError) -> Seq<char> {
    match e {
        SyncError::Network(m) => "Network error: "@ + m@,
        SyncError::AuthenticationFailed(m) => "Authentication failed: "@ + m@,
        SyncError::RecordConflict(m) => "Record conflict: "@ + m@,
        SyncError::Conflict { conflict } => "Conflict during sync: "@ + conflict.message@,
        SyncError::TombstoneConflict { entity_type, id } =>
            "Tombstone conflict: Entity "@ + entity_type@ + " with ID "@ + uuid_text(id) + " was previously deleted"@,
        SyncError::ServerError(m) => "Server error: "@ + m@,
        SyncError::LocalDatabase(d) => "Local database error: "@ + db_text(d),
        SyncError::RemoteEntityNotFound(m) => "Remote entity not found: "@ + m@,
        SyncError::EntityTypeMismatch(m) => "Entity type mismatch: "@ + m@,
        SyncError::MissingRequiredFields(m) => "Missing required fields: "@ + m@,
        SyncError::InvalidBatch(m) => "Invalid batch: "@ + m@,
        SyncError::Interrupted => "Sync interrupted"@,
        SyncError::Timeout => "Sync timeout"@,
        SyncError::InsufficientStorage => "Insufficient storage"@,
        SyncError::Other(m) => "Sync error: "@ + m@,
    }
}

impl SyncError {
    /// The text the error displays as.
    pub fn message(&self) -> (r: String)
        ensures
            r@ == sync_text(*self),
    {
        match self {
            SyncError::Network(m) => join2("Network error: ", m.as_str()),
            SyncError::AuthenticationFailed(m) => join2("Authentication failed: ", m.as_str()),
            SyncError::RecordConflict(m) => join2("Record conflict: ", m.as_str()),
            SyncError::Conflict { conflict } => join2("Conflict during sync: ", conflict.message.as_str()),
            SyncError::TombstoneConflict { entity_type, id } => {
                let id_text = uuid_to_text(*id);
                join3("Tombstone conflict: Entity ", entity_type.as_str(), " with ID ")
                    .concat(id_text.as_str()).concat(" was previously deleted")
            },
            SyncError::ServerError(m) => join2("Server error: ", m.as_str()),
            SyncError::LocalDatabase(d) => join2("Local database error: ", d.message().as_str()),
            SyncError::RemoteEntityNotFound(m) => join2("Remote entity not found: ", m.as_str()),
            SyncError::EntityTypeMismatch(m) => join2("Entity type mismatch: ", m.as_str()),
            SyncError::MissingRequiredFields(m) => join2("Missing required fields: ", m.as_str()),
            SyncError::InvalidBatch(m) => join2("Invalid batch: ", m.as_str()),
            SyncError::Interrupted => String::from_str("Sync interrupted"),
            SyncError::Timeout => String::from_str("Sync timeout"),
            SyncError::InsufficientStorage => String::from_str("Insufficient storage"),
            SyncError::Other(m) => join2("Sync error: ", m.as_str()),
        }
    }
}

/// A failure of a domain operation.
#[derive(Clone, Debug)]
pub enum DomainError {
    Database(DbError),
    AuthorizationFailed(String),
    InvalidUuid(String),
    EntityNotFound(String, u128),
    DependentRecordsExist { entity_type: String, id: u128, dependencies: Vec<String> },
    Validation(ValidationError),
    Sync(SyncError),
    LwwConflict { entity_type: String, id: u128, field: String },
    DeletedEntity(String, u128),
    File(String),
    Compression(String),
    Internal(String),
    External(String),
}

/// The description of a domain error.
pub open spec fn domain_text(e: DomainError) -> Seq<char> {
    match e {
        DomainError::Database(d) => "Database error: "@ + db_text(d),
        DomainError::AuthorizationFailed(m) => "Authorization failed: "@ + m@,
        DomainError::InvalidUuid(m) => "Invalid UUID: "@ + m@,
        DomainError::EntityNotFound(t, id) => "Entity not found: "@ + t@ + " with ID "@ + uuid_text(id),
        DomainError::DependentRecordsExist { entity_type, id, dependencies } =>
            "Cannot delete "@ + entity_type@ + " with ID "@ + uuid_text(id)
                + " due to dependent records in: "@ + joined(views_of(dependencies@), ", "@),
        DomainError::Validation(v) => "Validation error: "@ + validation_text(v),
        DomainError::Sync(s) => "Sync error: "@ + sync_text(s),
        DomainError::LwwConflict { entity_type, id, field } =>
            "LWW conflict: "@ + field@ + " in "@ + entity_type@ + " "@ + uuid_text(id),
        DomainError::DeletedEntity(t, id) =>
            "Cannot perform operation on deleted entity: "@ + t@ + " with ID "@ + uuid_text(id),
        DomainError::File(m) => "File error: "@ + m@,
        DomainError::Compression(m) => "Compression error: "@ + m@,
        DomainError::Internal(m) => "Internal error: "@ + m@,
        DomainError::External(m) => "External error: "@ + m@,
    }
}

impl DomainError {
    /// The text the error displays as.
    pub fn message(&self) -> (r: String)
        ensures
            r@ == domain_text(*self),
    {
        match self {
            DomainError::Database(d) => join2("Database error: ", d.message().as_str()),
            DomainError::AuthorizationFailed(m) => join2("Authorization failed: ", m.as_str()),
            DomainError::InvalidUuid(m) => join2("Invalid UUID: ", m.as_str()),
            DomainError::EntityNotFound(t, id) => {
                let id_text = uuid_to_text(*id);
                join3("Entity not found: ", t.as_str(), " with ID ").concat(id_text.as_str())
            },
            DomainError::DependentRecordsExist { entity_type, id, dependencies } => {
                let id_text = uuid_to_text(*id);
                let deps = join_with(dependencies, ", ");
                join3("Cannot delete ", entity_type.as_str(), " with ID ").concat(id_text.as_str())
                    .concat(" due to dependent records in: ").concat(deps.as_str())
            },
            DomainError::Validation(v) => join2("Validation error: ", v.message().as_str()),
            DomainError::Sync(s) => join2("Sync error: ", s.message().as_str()),
            DomainError::LwwConflict { entity_type, id, field } => {
                let id_text = uuid_to_text(*id);
                join3("LWW conflict: ", field.as_str(), " in ").concat(entity_type.as_str())
                    .concat(" ").concat(id_text.as_str())
            },
            DomainError::DeletedEntity(t, id) => {
                let id_text = uuid_to_text(*id);
                join3("Cannot perform operation on deleted entity: ", t.as_str(), " with ID ")
                    .concat(id_text.as_str())
            },
            DomainError::File(m) => join2("File error: ", m.as_str()),
            DomainError::Compression(m) => join2("Compression error: ", m.as_str()),
            DomainError::Internal(m) => join2("Internal error: ", m.as_str()),
            DomainError::External(m) => join2("External error: ", m.as_str()),
        }
    }
}

/// A failure of an application service.
#[derive(Clone, Debug)]
pub enum ServiceError {
    Domain(DomainError),
    DependenciesPreventDeletion(Vec<String>),
    Ui(String),
    Authentication(String),
    SessionExpired,
    PermissionDenied(String),
    OfflineFeatureUnavailable(String),
    RateLimitExceeded,
    Network(String),
    ServiceUnavailable(String),
    Configuration(String),
    ExternalService(String),
}

/// The description of a service error.
pub open spec fn service_text(e: ServiceError) -> Seq<char> {
    match e {
        ServiceError::Domain(d) => "Domain error: "@ + domain_text(d),
        ServiceError::DependenciesPreventDeletion(deps) =>
            "Cannot delete record due to dependencies in: "@ + joined(views_of(deps@), ", "@),
        ServiceError::Ui(m) => "User interface error: "@ + m@,
        ServiceError::Authentication(m) => "Authentication error: "@ + m@,
        ServiceError::SessionExpired => "Session expired"@,
        ServiceError::PermissionDenied(m) => "Permission denied: "@ + m@,
        ServiceError::OfflineFeatureUnavailable(m) => "Feature not available in offline mode: "@ + m@,
        ServiceError::RateLimitExceeded => "Rate limit exceeded"@,
        ServiceError::Network(m) => "Network error: "@ + m@,
        ServiceError::ServiceUnavailable(m) => "Service unavailable: "@ + m@,
        ServiceError::Configuration(m) => "Configuration error: "@ + m@,
        ServiceError::ExternalService(m) => "External service error: "@ + m@,
    }
}

impl ServiceError {
    /// The text the error displays as.
    pub fn message(&self) -> (r: String)
        ensures
            r@ == service_text(*self),
    {
        match self {
            ServiceError::Domain(d) => join2("Domain error: ", d.message().as_str()),
            ServiceError::DependenciesPreventDeletion(deps) =>
                join2("Cannot delete record due to dependencies in: ", join_with(deps, ", ").as_str()),
            ServiceError::Ui(m) => join2("User interface error: ", m.as_str()),
            ServiceError::Authentication(m) => join2("Authentication error: ", m.as_str()),
            ServiceError::SessionExpired => String::from_str("Session expired"),
            ServiceError::PermissionDenied(m) => join2("Permission denied: ", m.as_str()),
            ServiceError::OfflineFeatureUnavailable(m) =>
                join2("Feature not available in offline mode: ", m.as_str()),
            ServiceError::RateLimitExceeded => String::from_str("Rate limit exceeded"),
            ServiceError::Network(m) => join2("Network error: ", m.as_str()),
            ServiceError::ServiceUnavailable(m) => join2("Service unavailable: ", m.as_str()),
            ServiceError::Configuration(m) => join2("Configuration error: ", m.as_str()),
            ServiceError::ExternalService(m) => join2("External service error: ", m.as_str()),
        }
    }
}

} // verus!
