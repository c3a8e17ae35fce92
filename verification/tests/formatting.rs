//! Tests for records and the three formatters.

use firo_logger::kv::KvMap;
use firo_logger::{
    CallerInfo, JsonFormatter, LogLevel, LogRecord, PlainFormatter, TextFormatter,
};

#[test]
fn test_text_formatter() {
    let formatter = TextFormatter::new().with_colors(false);
    let record = LogRecord::new(LogLevel::Info, "Test message", 1_700_000_000_000);

    let output = formatter.format(&record);
    assert!(output.contains("[   INFO]:"));
    assert!(output.contains("Test message"));
}

#[test]
fn test_json_formatter() {
    let formatter = JsonFormatter::new();
    let record = LogRecord::new(LogLevel::Error, "Error message", 1_700_000_000_000);

    let output = formatter.format(&record);
    let parsed: serde_json::Value = serde_json::from_str(&output).unwrap();

    assert_eq!(parsed["level"], "ERROR");
    assert_eq!(parsed["message"], "Error message");
    assert!(parsed["timestamp"].is_string());
}

#[test]
fn test_plain_formatter() {
    let formatter = PlainFormatter::new();
    let record = LogRecord::new(LogLevel::Warning, "Warning message", 1_700_000_000_000);

    let output = formatter.format(&record);
    assert!(output.contains("[WARNING]:"));
    assert!(output.contains("Warning message"));
    assert!(!output.contains("\x1b"));
}

#[test]
fn test_formatter_with_metadata() {
    let formatter = TextFormatter::new().with_colors(false);
    let record = LogRecord::new(LogLevel::Debug, "Debug message", 1_700_000_000_000)
        .with_metadata("user_id", "123")
        .with_metadata("request_id", "abc-def");

    let output = formatter.format(&record);
    assert!(output.contains("Debug message"));
    assert!(output.contains("user_id=123"));
    assert!(output.contains("request_id=abc-def"));
}

#[test]
fn test_formatter_with_caller() {
    let formatter = TextFormatter::new().with_colors(false).with_caller(true);

    let caller = CallerInfo {
        file: "test.rs",
        line: 42,
        module: Some("test_module"),
    };

    let record = LogRecord::new(LogLevel::Info, "Test message", 1_700_000_000_000)
        .with_caller(caller);

    let output = formatter.format(&record);
    assert!(output.contains("test.rs:42"));
}

#[test]
fn test_colored_level_marker() {
    let formatter = TextFormatter::new().with_colors(true);
    let record = LogRecord::new(LogLevel::Error, "boom", 1_700_000_000_000);

    let output = formatter.format(&record);
    assert!(output.contains("\x1b[31m  ERROR\x1b[0m"));
}

#[test]
fn test_json_escaping() {
    let formatter = JsonFormatter::new();
    let record = LogRecord::new(LogLevel::Info, "a\"b\\c", 1_700_000_000_000);

    let output = formatter.format(&record);
    assert!(output.contains("\"message\":\"a\\\"b\\\\c\""));
    let parsed: serde_json::Value = serde_json::from_str(&output).unwrap();
    assert_eq!(parsed["message"], "a\"b\\c");
}

#[test]
fn test_timestamp_rendering() {
    // 1700000000000 ms is in November 2023 in every time zone.
    let formatter = TextFormatter::new().with_colors(false).with_datetime_format("%Y");
    let record = LogRecord::new(LogLevel::Info, "dated", 1_700_000_000_000);

    let output = formatter.format(&record);
    assert!(output.starts_with("2023"));
    assert!(!output.contains("%Y"));
}

#[test]
fn basic_integration_test_test_log_record_creation() {
    let record = LogRecord::new(LogLevel::Info, "Test message", 1_700_000_000_000);
    assert_eq!(record.level, LogLevel::Info);
    assert_eq!(record.message, "Test message");
    assert!(record.timestamp > 0);

    let mut metadata: KvMap<String> = KvMap::new();
    metadata.insert("key1".to_string(), "value1".to_string());

    let record_with_metadata = record
        .with_metadata("key2", "value2")
        .with_metadata_map(&metadata);

    assert_eq!(
        record_with_metadata.metadata.get("key1"),
        Some(&"value1".to_string())
    );
    assert_eq!(
        record_with_metadata.metadata.get("key2"),
        Some(&"value2".to_string())
    );

    let caller = CallerInfo {
        file: "test.rs",
        line: 42,
        module: Some("test_module"),
    };

    let record_with_caller = record_with_metadata.with_caller(caller);
    assert!(record_with_caller.caller.is_some());
    assert_eq!(record_with_caller.caller.unwrap().file, "test.rs");
}

#[test]
fn integration_test_test_log_record_creation() {
    let record = LogRecord::new(LogLevel::Info, "Test message", 1_700_000_000_000);
    assert_eq!(record.level, LogLevel::Info);
    assert_eq!(record.message, "Test message");
    assert!(record.timestamp > 0);

    let mut metadata: KvMap<String> = KvMap::new();
    metadata.insert("key1".to_string(), "value1".to_string());

    let record_with_metadata = record
        .with_metadata("key2", "value2")
        .with_metadata_map(&metadata);

    assert_eq!(
        record_with_metadata.metadata.get("key1"),
        Some(&"value1".to_string())
    );
    assert_eq!(
        record_with_metadata.metadata.get("key2"),
        Some(&"value2".to_string())
    );

    let caller = CallerInfo {
        file: "test.rs",
        line: 42,
        module: Some("test_module"),
    };

    let record_with_caller = record_with_metadata.with_caller(caller);
    assert!(record_with_caller.caller.is_some());
    assert_eq!(record_with_caller.caller.unwrap().file, "test.rs");
}

#[test]
fn test_metadata_merge_order() {
    // The global map is merged after per-record entries, so its values win.
    let mut global: KvMap<String> = KvMap::new();
    global.insert("shared".to_string(), "global".to_string());

    let record = LogRecord::new(LogLevel::Info, "m", 0)
        .with_metadata("shared", "per-record")
        .with_metadata_map(&global);

    assert_eq!(record.metadata.get("shared"), Some(&"global".to_string()));
}
