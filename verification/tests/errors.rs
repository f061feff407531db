use fieldsync::errors::{join_with, DbError, DomainError, ServiceError, SyncError, ValidationError};

#[test]
fn validation_error_constructors_and_messages() {
    assert_eq!(ValidationError::required("email").message(), "Field 'email' is required");
    assert_eq!(ValidationError::min_length("password", 8).message(), "Field 'password' must be at least 8 characters");
    assert_eq!(ValidationError::max_length("name", 50).message(), "Field 'name' cannot exceed 50 characters");
    assert_eq!(ValidationError::range("age", "1", "99").message(), "Field 'age' must be between 1 and 99");
    assert_eq!(ValidationError::format("date", "bad").message(), "Field 'date' contains invalid format: bad");
    assert_eq!(ValidationError::unique("email").message(), "Field 'email' must be unique");
    assert_eq!(ValidationError::invalid_value("role", "Invalid role").message(), "Field 'role' contains an invalid value: Invalid role");
    assert_eq!(ValidationError::entity("x").message(), "Entity is invalid: x");
    assert_eq!(ValidationError::relationship("y").message(), "Relationship error: y");
    assert_eq!(ValidationError::custom("z").message(), "Validation error: z");
    assert_eq!(ValidationError::min_length("code", 0).message(), "Field 'code' must be at least 0 characters");
    assert_eq!(ValidationError::max_length("code", 1234567).message(), "Field 'code' cannot exceed 1234567 characters");
}

#[test]
fn db_error_clone_turns_driver_errors_into_other() {
    match DbError::Sqlx("disk I/O".to_string()).clone() {
        DbError::Other(m) => assert_eq!(m, "SQLx error: disk I/O"),
        other => panic!("unexpected {:?}", other),
    }
    match DbError::NotFound("users".to_string(), "7".to_string()).clone() {
        DbError::NotFound(a, b) => assert_eq!((a.as_str(), b.as_str()), ("users", "7")),
        other => panic!("unexpected {:?}", other),
    }
    assert!(matches!(DbError::Locked.clone(), DbError::Locked));
}

#[test]
fn db_error_serialized_fields() {
    let (k, m) = DbError::NotFound("users".to_string(), "42".to_string()).serialized_fields();
    assert_eq!(k, "NotFound");
    assert_eq!(m, "Record not found: users with ID 42");
    let (k, m) = DbError::Locked.serialized_fields();
    assert_eq!((k.as_str(), m.as_str()), ("Locked", "Database is locked"));
    let (k, m) = DbError::Query("bad sql".to_string()).serialized_fields();
    assert_eq!((k.as_str(), m.as_str()), ("Query", "bad sql"));
    assert_eq!(DbError::Execution("x".to_string()).message(), "Error executing statement: x");
}

#[test]
fn domain_error_messages() {
    let id: u128 = 0x550e8400_e29b_41d4_a716_446655440000;
    assert_eq!(
        DomainError::EntityNotFound("users".to_string(), id).message(),
        "Entity not found: users with ID 550e8400-e29b-41d4-a716-446655440000"
    );
    let deps = DomainError::DependentRecordsExist {
        entity_type: "projects".to_string(),
        id,
        dependencies: vec!["workshops".to_string(), "activities".to_string()],
    };
    assert_eq!(
        deps.message(),
        "Cannot delete projects with ID 550e8400-e29b-41d4-a716-446655440000 due to dependent records in: workshops, activities"
    );
    assert_eq!(
        DomainError::Validation(ValidationError::required("name")).message(),
        "Validation error: Field 'name' is required"
    );
    assert_eq!(DomainError::Database(DbError::Locked).message(), "Database error: Database is locked");
    assert_eq!(
        DomainError::LwwConflict { entity_type: "users".to_string(), id, field: "email".to_string() }.message(),
        "LWW conflict: email in users 550e8400-e29b-41d4-a716-446655440000"
    );
}

#[test]
fn service_and_sync_error_messages() {
    assert_eq!(ServiceError::SessionExpired.message(), "Session expired");
    assert_eq!(
        ServiceError::DependenciesPreventDeletion(vec!["a".to_string(), "b".to_string(), "c".to_string()]).message(),
        "Cannot delete record due to dependencies in: a, b, c"
    );
    assert_eq!(
        ServiceError::Domain(DomainError::Internal("x".to_string())).message(),
        "Domain error: Internal error: x"
    );
    assert_eq!(SyncError::Timeout.message(), "Sync timeout");
    assert_eq!(
        SyncError::TombstoneConflict { entity_type: "donors".to_string(), id: 1 }.message(),
        "Tombstone conflict: Entity donors with ID 00000000-0000-0000-0000-000000000001 was previously deleted"
    );
    assert_eq!(
        SyncError::LocalDatabase(DbError::Other("x".to_string())).message(),
        "Local database error: Database error: x"
    );
}

#[test]
fn join_with_separator() {
    assert_eq!(join_with(&vec![], ", "), "");
    assert_eq!(join_with(&vec!["one".to_string()], ", "), "one");
    assert_eq!(join_with(&vec!["a".to_string(), "b".to_string()], "-"), "a-b");
}
