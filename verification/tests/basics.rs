use fieldsync::amount::Amount;
use fieldsync::clock::{is_date_before, Timestamp};
use fieldsync::errors::{DomainError, ValidationError};
use fieldsync::json::encode_json_flag;
use fieldsync::records::{read_opt_stamp, read_opt_uuid, read_stamp, read_uuid};
use fieldsync::text::{decimal_text, join2, join3, same_text, signed_decimal_text};

#[test]
fn decimal_and_signed_text() {
    assert_eq!(decimal_text(0), "0");
    assert_eq!(decimal_text(7), "7");
    assert_eq!(decimal_text(1234567), "1234567");
    assert_eq!(decimal_text(u64::MAX), u64::MAX.to_string());
    assert_eq!(signed_decimal_text(-42), "-42");
    assert_eq!(signed_decimal_text(0), "0");
    assert_eq!(signed_decimal_text(i64::MIN), i64::MIN.to_string());
    assert_eq!(signed_decimal_text(i64::MAX), i64::MAX.to_string());
}

#[test]
fn joining_and_comparing_text() {
    assert_eq!(join2("ab", "cd"), "abcd");
    assert_eq!(join3("a", "", "c"), "ac");
    assert!(same_text("héllo", "héllo"));
    assert!(!same_text("hello", "hellO"));
    assert!(!same_text("hello", "hell"));
    assert!(same_text("", ""));
}

#[test]
fn timestamps_read_and_write_rfc3339() {
    let t = Timestamp::parse_rfc3339("2024-05-01T10:00:00Z").unwrap();
    assert_eq!(t.seconds(), 1714557600);
    assert_eq!(t.subsec_nanos(), 0);
    assert_eq!(t.to_rfc3339(), "2024-05-01T10:00:00+00:00");
    let shifted = Timestamp::parse_rfc3339("2024-05-01T12:00:00+02:00").unwrap();
    assert_eq!(shifted, t);
    assert!(Timestamp::parse_rfc3339("2024-05-01").is_none());
    assert!(Timestamp::parse_rfc3339_detailed("yesterday").is_err());
    assert_eq!(Timestamp::parse_rfc3339_detailed("1970-01-01T00:00:00Z").unwrap().seconds(), 0);
}

#[test]
fn timestamps_order_and_round_trip() {
    let a = Timestamp::from_parts(100, 5).unwrap();
    let b = Timestamp::from_parts(100, 6).unwrap();
    let c = Timestamp::from_parts(101, 0).unwrap();
    assert!(b.is_later_than(&a));
    assert!(c.is_later_than(&b));
    assert!(!a.is_later_than(&a));
    assert!(!a.is_later_than(&c));
    let again = Timestamp::parse_rfc3339(&c.to_rfc3339()).unwrap();
    assert_eq!(again, c);
    assert!(Timestamp::from_parts(i64::MAX, 0).is_none());
    let now = Timestamp::now();
    assert!(now.seconds() > 1_600_000_000);
}

#[test]
fn calendar_dates_compare() {
    assert!(is_date_before((2023, 12, 31), (2024, 1, 1)));
    assert!(is_date_before((2024, 1, 1), (2024, 1, 2)));
    assert!(!is_date_before((2024, 2, 1), (2024, 1, 31)));
    assert!(!is_date_before((2024, 1, 1), (2024, 1, 1)));
}

#[test]
fn amounts_parse_and_compute() {
    let a = Amount::parse("12.50").unwrap();
    assert_eq!((a.mantissa(), a.scale()), (1250, 2));
    assert_eq!(a.to_text(), "12.50");
    let b = Amount::parse("2.5").unwrap();
    assert_eq!(a.checked_sub(&b).unwrap().to_text(), "10.00");
    assert_eq!(b.checked_sub(&a).unwrap().to_text(), "-10.00");
    assert!(b.checked_sub(&a).unwrap().is_negative());
    assert_eq!(Amount::parse("10").unwrap().checked_div(&Amount::parse("4").unwrap()).unwrap().to_text(), "2.50");
    assert_eq!(a.checked_mul(&Amount::parse("2").unwrap()).unwrap().to_text(), "25.00");
    assert!(a.checked_div(&Amount::parse("0").unwrap()).is_none());
    assert!(Amount::parse("0.00").unwrap().is_zero());
    assert!(Amount::parse("twelve").is_err());
    let big = Amount::parse("79228162514264337593543950335").unwrap();
    assert!(big.checked_mul(&big).is_none());
    assert_eq!(Amount::from_parts(1000, 1).unwrap().to_text(), "100.0");
    assert!(Amount::parse("100.0").unwrap().same_value_as(&Amount::parse("100").unwrap()));
    assert!(Amount::parse("-0.50").unwrap().same_value_as(&Amount::parse("-0.5").unwrap()));
    assert!(!Amount::parse("100.01").unwrap().same_value_as(&Amount::parse("100").unwrap()));
    assert!(Amount::from_parts(1, 29).is_none());
}

#[test]
fn record_fields_read_uuids_and_instants() {
    let id = read_uuid("550e8400-e29b-41d4-a716-446655440000", "t.id").unwrap();
    assert_eq!(id, 0x550e8400_e29b_41d4_a716_446655440000);
    match read_uuid("xyz", "t.id").unwrap_err() {
        DomainError::Validation(ValidationError::Format { field, reason }) => {
            assert_eq!(field, "t.id");
            assert_eq!(reason, "Invalid UUID format: xyz");
        }
        other => panic!("unexpected {:?}", other),
    }
    assert_eq!(read_opt_uuid(&None, "t.x").unwrap(), None);
    match read_stamp("soon", "t.at").unwrap_err() {
        DomainError::Validation(ValidationError::Format { field, reason }) => {
            assert_eq!(field, "t.at");
            assert_eq!(reason, "Invalid RFC3339 format: soon");
        }
        other => panic!("unexpected {:?}", other),
    }
    let t = read_opt_stamp(&Some("2024-05-01T10:00:00Z".to_string()), "t.at").unwrap().unwrap();
    assert_eq!(t.seconds(), 1714557600);
}

#[test]
fn flags_are_written_as_json() {
    assert_eq!(encode_json_flag(true), "true");
    assert_eq!(encode_json_flag(false), "false");
}
