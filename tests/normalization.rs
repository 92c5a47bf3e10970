use sshd_watch::journal::{decode_record, process_line};
use sshd_watch::record::{normalize, timestamp_seconds, NormalizedEvent, ParseError, RawLogRecord};

fn record(message: Option<&str>, timestamp: Option<&str>) -> RawLogRecord {
    RawLogRecord {
        message: message.map(String::from),
        hostname: Some("host1".to_string()),
        process_id: Some("123".to_string()),
        timestamp: timestamp.map(String::from),
    }
}

#[test]
fn timestamp_drops_last_six_digits() {
    assert_eq!(timestamp_seconds("1700000123456789"), Ok("1700000123".to_string()));
    assert_eq!(timestamp_seconds("1700000123456"), Ok("1700000".to_string()));
    assert_eq!(timestamp_seconds("1234567"), Ok("1".to_string()));
}

#[test]
fn timestamp_of_six_or_fewer_is_too_short() {
    assert_eq!(timestamp_seconds("123456"), Err(ParseError::TimestampTooShort));
    assert_eq!(timestamp_seconds(""), Err(ParseError::TimestampTooShort));
}

#[test]
fn end_to_end_failed_password_line() {
    let line = r#"{"MESSAGE":"Failed password for invalid user from 10.0.0.5 port 4444 ssh2","_HOSTNAME":"host1","_PID":"123","_SOURCE_REALTIME_TIMESTAMP":"1700000123456789"}"#;
    let expected = NormalizedEvent {
        failed: true,
        hostname: "host1".to_string(),
        address: "10.0.0.5".to_string(),
        port: "4444".to_string(),
        process_id: "123".to_string(),
        timestamp_seconds: "1700000123".to_string(),
        user: "[placeholder]".to_string(),
    };
    assert_eq!(process_line(line), Ok(expected));
}

#[test]
fn end_to_end_line_without_address() {
    let line = r#"{"MESSAGE":"pam_unix(sshd:auth): check pass; user unknown","_HOSTNAME":"host1","_PID":"123","_SOURCE_REALTIME_TIMESTAMP":"1700000123456789"}"#;
    assert_eq!(process_line(line), Err(ParseError::NoAddressPortMatch));
}

#[test]
fn missing_message_fails() {
    let line = r#"{"_HOSTNAME":"host1","_SOURCE_REALTIME_TIMESTAMP":"1700000123456789"}"#;
    assert_eq!(process_line(line), Err(ParseError::MissingMessage));
    let null = r#"{"MESSAGE":null,"_SOURCE_REALTIME_TIMESTAMP":"1700000123456789"}"#;
    assert_eq!(process_line(null), Err(ParseError::MissingMessage));
    assert_eq!(normalize(&record(None, Some("1700000123456789"))), Err(ParseError::MissingMessage));
}

#[test]
fn missing_or_short_timestamp_fails() {
    let msg = Some("from 10.0.0.5 port 22");
    assert_eq!(normalize(&record(msg, None)), Err(ParseError::TimestampTooShort));
    assert_eq!(normalize(&record(msg, Some("123456"))), Err(ParseError::TimestampTooShort));
}

#[test]
fn malformed_line_fails() {
    assert_eq!(process_line("{not json"), Err(ParseError::MalformedLine));
    assert_eq!(process_line(""), Err(ParseError::MalformedLine));
    assert!(decode_record("{\"MESSAGE\":").is_err());
}

#[test]
fn missing_hostname_and_pid_read_as_empty() {
    let line = r#"{"MESSAGE":"from 10.0.0.5 port 22","_SOURCE_REALTIME_TIMESTAMP":"1700000123456789"}"#;
    let e = process_line(line).expect("an event");
    assert_eq!(e.hostname, "");
    assert_eq!(e.process_id, "");
    assert_eq!(e.address, "10.0.0.5");
    assert_eq!(e.port, "22");
}

#[test]
fn decode_keeps_string_fields_only() {
    let r = decode_record(r#"{"MESSAGE":"m","_HOSTNAME":7,"_PID":"9","other":"x"}"#).expect("json");
    assert_eq!(r.message, Some("m".to_string()));
    assert_eq!(r.hostname, None);
    assert_eq!(r.process_id, Some("9".to_string()));
    assert_eq!(r.timestamp, None);
}

#[test]
fn numeric_pid_reads_as_its_digits() {
    let line = r#"{"MESSAGE":"from 10.0.0.5 port 22","_HOSTNAME":"host1","_PID":123,"_SOURCE_REALTIME_TIMESTAMP":"1700000123456789"}"#;
    let e = process_line(line).expect("an event");
    assert_eq!(e.process_id, "123");
    assert_eq!(e.hostname, "host1");
    let r = decode_record(r#"{"_PID":-7}"#).expect("json");
    assert_eq!(r.process_id, Some("-7".to_string()));
    let r = decode_record(r#"{"_PID":null}"#).expect("json");
    assert_eq!(r.process_id, None);
}

#[test]
fn non_object_document_has_no_fields() {
    let r = decode_record("[1, 2]").expect("json");
    assert_eq!(r.message, None);
    assert_eq!(process_line("42"), Err(ParseError::MissingMessage));
}

#[test]
fn normalizing_twice_gives_the_same_result() {
    let raw = record(Some("from 10.0.0.5 port 22"), Some("1700000123456789"));
    assert_eq!(normalize(&raw), normalize(&raw.clone()));
    let bad = record(Some("nothing here"), Some("1700000123456789"));
    assert_eq!(normalize(&bad), normalize(&bad));
}
