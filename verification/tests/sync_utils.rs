use fieldsync::errors::{DomainError, ServiceError, ValidationError};
use fieldsync::sync_utils::{format_sync_operation, sanitize_identifier, validate_entity_type};

#[test]
fn test_sanitize_identifier() {
    assert_eq!(sanitize_identifier("valid_table"), "valid_table");
    assert_eq!(sanitize_identifier("projects"), "projects");
    assert_eq!(sanitize_identifier("DROP TABLE users;"), "DROPTABLEusers");
    assert_eq!(sanitize_identifier("123"), "_123");
    assert_eq!(sanitize_identifier(""), "_invalid");
    assert_eq!(sanitize_identifier("!@#$"), "_invalid");
}

#[test]
fn test_validate_entity_type() {
    assert!(validate_entity_type("projects").is_ok());
    assert!(validate_entity_type("media_documents").is_ok());
    assert!(validate_entity_type("strategic_goals").is_ok());
    assert!(validate_entity_type("invalid_entity").is_err());
    assert!(validate_entity_type("DROP TABLE;").is_err());
}

#[test]
fn test_format_sync_operation() {
    assert_eq!(
        format_sync_operation("UPLOAD", "projects", "uuid1", Some("device123"), "COMPLETED", None),
        "UPLOAD (Device: device123) projects:uuid1 - COMPLETED"
    );
    assert_eq!(
        format_sync_operation("DOWNLOAD", "activities", "uuid2", None, "FAILED", Some("Network error")),
        "DOWNLOAD activities:uuid2 - FAILED - Error: Network error"
    );
}

#[test]
fn sanitize_keeps_unicode_letters_and_digits() {
    assert_eq!(sanitize_identifier("tábla_1"), "tábla_1");
    assert_eq!(sanitize_identifier("__"), "__");
    assert_eq!(sanitize_identifier("٣٤"), "_٣٤");
    assert_eq!(sanitize_identifier("a-b.c"), "abc");
}

#[test]
fn sanitize_is_idempotent_on_its_results() {
    for s in ["valid_table", "DROP TABLE users;", "x1y2", "a b c"] {
        let once = sanitize_identifier(s);
        assert_eq!(sanitize_identifier(&once), once);
    }
}

#[test]
fn validate_entity_type_accepts_every_synchronised_table() {
    for t in [
        "media_documents", "projects", "activities", "workshops", "strategic_goals", "participants",
        "livelihoods", "donors", "status_types", "document_types", "subsequent_grants", "project_funding",
    ] {
        assert!(validate_entity_type(t).is_ok(), "{} refused", t);
    }
}

#[test]
fn validate_entity_type_reports_why() {
    match validate_entity_type("DROP TABLE;") {
        Err(ServiceError::Domain(DomainError::Validation(ValidationError::Entity(m)))) => {
            assert_eq!(m, "Entity type contains invalid characters: DROP TABLE;")
        }
        other => panic!("unexpected {:?}", other),
    }
    match validate_entity_type("invalid_entity") {
        Err(ServiceError::Domain(DomainError::Validation(ValidationError::Entity(m)))) => {
            assert_eq!(m, "Unknown entity type: invalid_entity")
        }
        other => panic!("unexpected {:?}", other),
    }
}

#[test]
fn format_sync_operation_with_device_and_error() {
    assert_eq!(
        format_sync_operation("PUSH", "donors", "id9", Some("dev"), "FAILED", Some("timeout")),
        "PUSH (Device: dev) donors:id9 - FAILED - Error: timeout"
    );
}
