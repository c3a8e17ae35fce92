//! Tests for the writers: console, file with rotation, fan-out, decorators.

use firo_logger::{
    create_formatter, BufferedWriter, CalendarStamp, ConsoleWriter, Effects, FileConfig, FileOp,
    FileWriter, LevelFilterWriter, LogLevel, LogRecord, MultiWriter, OutputFormat,
    RotationConfig, SinkWriter, Stream, TextFormatter,
};

fn stamp() -> CalendarStamp {
    CalendarStamp {
        iso_year: 2024,
        iso_week: 10,
        year: 2024,
        month: 3,
        day_of_month: 7,
    }
}

fn plain_formatter() -> firo_logger::FormatterKind {
    create_formatter(OutputFormat::Text, false, "%Y-%m-%d %H:%M:%S", false, false, true)
}

#[test]
fn test_console_writer() {
    let formatter = firo_logger::FormatterKind::Text(TextFormatter::new().with_colors(false));
    let mut writer = ConsoleWriter::new(true, formatter);
    let record = LogRecord::new(LogLevel::Info, "Test message", 1_700_000_000_000);
    let mut fx = Effects::new();

    assert!(writer.write(&record, "Test formatted message", &mut fx).is_ok());
    assert!(writer.flush(&mut fx).is_ok());
    assert_eq!(fx.console.len(), 1);
    assert_eq!(fx.console[0].stream, Stream::Stdout);
    assert!(fx.console[0].text.contains("Test message"));
}

#[test]
fn test_console_writer_stderr_routing() {
    let formatter = firo_logger::FormatterKind::Text(TextFormatter::new().with_colors(false));
    let mut writer = ConsoleWriter::new(true, formatter);
    let mut fx = Effects::new();

    let error = LogRecord::new(LogLevel::Error, "bad", 0);
    let info = LogRecord::new(LogLevel::Info, "fine", 0);
    writer.write(&error, "", &mut fx).unwrap();
    writer.write(&info, "", &mut fx).unwrap();

    assert_eq!(fx.console[0].stream, Stream::Stderr);
    assert_eq!(fx.console[1].stream, Stream::Stdout);
}

#[test]
fn test_file_writer() {
    let config = FileConfig {
        path: "test.log".to_string(),
        append: true,
        rotation: RotationConfig::Disabled,
        buffer_size: 0,
        flush_interval: 0,
    };

    let mut fx = Effects::new();
    let record = LogRecord::new(LogLevel::Info, "Test message", 1_700_000_000_000);
    let mut writer = FileWriter::new_at(config, plain_formatter(), 0, 0, &mut fx);

    writer
        .write(&record, "Test formatted message", 1_700_000_000_000, stamp(), &mut fx)
        .unwrap();
    writer.flush(&mut fx).unwrap();

    assert_eq!(writer.active_lines.len(), 1);
    assert!(writer.active_lines[0].contains("Test formatted message"));
    // Open, AppendLine, immediate Flush, explicit Flush.
    assert_eq!(fx.file_ops.len(), 4);
    assert!(matches!(&fx.file_ops[1], FileOp::AppendLine { text, .. } if text == "Test formatted message"));
    assert!(matches!(&fx.file_ops[2], FileOp::Flush { .. }));
}

#[test]
fn test_size_rotation_keeps_newest() {
    let config = FileConfig {
        path: "rot.log".to_string(),
        append: true,
        rotation: RotationConfig::Size { max_size: 10, keep_files: 2 },
        buffer_size: 0,
        flush_interval: 1000,
    };
    let mut fx = Effects::new();
    let mut writer = FileWriter::new_at(config, plain_formatter(), 0, 0, &mut fx);
    let record = LogRecord::new(LogLevel::Info, "x", 0);

    // Each line is 12 bytes + terminator, over the 10-byte limit, so every
    // write after the first rotates first.
    for i in 0..6 {
        let line = format!("line-{:07}", i);
        writer.write(&record, &line, (i + 1) * 1000, stamp(), &mut fx).unwrap();
    }

    assert!(writer.backups.len() <= 2);
    // The surviving lines are the newest ones, in order.
    let mut surviving: Vec<String> = Vec::new();
    for b in &writer.backups {
        surviving.extend(b.lines.iter().cloned());
    }
    surviving.extend(writer.active_lines.iter().cloned());
    assert_eq!(surviving.last().unwrap(), "line-0000005");
    for w in surviving.windows(2) {
        assert!(w[0] < w[1]);
    }
}

#[test]
fn test_unlimited_retention_keeps_everything() {
    let config = FileConfig {
        path: "rot.log".to_string(),
        append: true,
        rotation: RotationConfig::Size { max_size: 1, keep_files: 0 },
        buffer_size: 0,
        flush_interval: 1000,
    };
    let mut fx = Effects::new();
    let mut writer = FileWriter::new_at(config, plain_formatter(), 0, 0, &mut fx);
    let record = LogRecord::new(LogLevel::Info, "x", 0);

    for i in 0..5 {
        let line = format!("entry {}", i);
        writer.write(&record, &line, (i + 1) * 1000, stamp(), &mut fx).unwrap();
    }

    let mut surviving: Vec<String> = Vec::new();
    for b in &writer.backups {
        surviving.extend(b.lines.iter().cloned());
    }
    surviving.extend(writer.active_lines.iter().cloned());
    assert_eq!(
        surviving,
        vec!["entry 0", "entry 1", "entry 2", "entry 3", "entry 4"]
    );
}

#[test]
fn test_backup_names() {
    assert_eq!(firo_logger::writer::backup_name("app.log", "5"), "app.log.5");
    assert_eq!(firo_logger::writer::backup_name("app", "5"), "app.log.5");
    assert_eq!(firo_logger::writer::backup_name("dir.d/app", "5"), "dir.d/app.log.5");
    assert_eq!(
        firo_logger::writer::time_suffix(firo_logger::RotationFrequency::Daily, stamp()),
        "2024-03-07"
    );
    assert_eq!(
        firo_logger::writer::time_suffix(firo_logger::RotationFrequency::Weekly, stamp()),
        "2024-W10"
    );
    assert_eq!(
        firo_logger::writer::time_suffix(firo_logger::RotationFrequency::Monthly, stamp()),
        "2024-03"
    );
}

#[test]
fn test_time_rotation_throttled() {
    let config = FileConfig {
        path: "t.log".to_string(),
        append: true,
        rotation: RotationConfig::Time {
            frequency: firo_logger::RotationFrequency::Daily,
            keep_files: 3,
        },
        buffer_size: 0,
        flush_interval: 1000,
    };
    let mut fx = Effects::new();
    let mut writer = FileWriter::new_at(config, plain_formatter(), 0, 0, &mut fx);
    let record = LogRecord::new(LogLevel::Info, "x", 0);

    let day1 = stamp();
    let mut day2 = stamp();
    day2.day_of_month += 1;

    // First write establishes the baseline; no rotation on a fresh file.
    writer.write(&record, "first", 100_000, day1, &mut fx).unwrap();
    assert_eq!(writer.backups.len(), 0);

    // The calendar changed, and the throttle window has elapsed: rotate. The
    // backup carries the calendar suffix of the rotating write.
    writer.write(&record, "second", 200_000, day2, &mut fx).unwrap();
    assert_eq!(writer.backups.len(), 1);
    assert_eq!(writer.backups[0].name, "t.log.2024-03-08");
    assert_eq!(writer.backups[0].lines, vec!["first"]);
    assert_eq!(writer.active_lines, vec!["second"]);
}

#[test]
fn test_multi_writer() {
    let f1 = firo_logger::FormatterKind::Text(TextFormatter::new().with_colors(false));
    let f2 = firo_logger::FormatterKind::Text(TextFormatter::new().with_colors(false));

    let writer1 = SinkWriter::Console(ConsoleWriter::new(false, f1));
    let writer2 = SinkWriter::Console(ConsoleWriter::new(true, f2));

    let mut multi_writer = MultiWriter::new().add_writer(writer1).add_writer(writer2);

    let record = LogRecord::new(LogLevel::Error, "Error message", 0);
    let mut fx = Effects::new();
    assert!(multi_writer
        .write_with_timestamp(&record, "Formatted error message", "ts", 0, stamp(), &mut fx)
        .is_ok());
    assert!(multi_writer.flush(&mut fx).is_ok());
    assert_eq!(fx.console.len(), 2);
    assert_eq!(fx.console[0].stream, Stream::Stdout);
    assert_eq!(fx.console[1].stream, Stream::Stderr);
}

#[test]
fn test_level_filter_writer() {
    let formatter = firo_logger::FormatterKind::Text(TextFormatter::new().with_colors(false));
    let console_writer = SinkWriter::Console(ConsoleWriter::new(false, formatter));
    let mut filtered_writer = LevelFilterWriter::new(LogLevel::Warning, console_writer);

    let mut fx = Effects::new();
    let error_record = LogRecord::new(LogLevel::Error, "Error", 0);
    assert!(filtered_writer
        .write_with_timestamp(&error_record, "Error message", "ts", 0, stamp(), &mut fx)
        .is_ok());

    let warning_record = LogRecord::new(LogLevel::Warning, "Warning", 0);
    assert!(filtered_writer
        .write_with_timestamp(&warning_record, "Warning message", "ts", 0, stamp(), &mut fx)
        .is_ok());

    assert_eq!(fx.console.len(), 2);

    let info_record = LogRecord::new(LogLevel::Info, "Info", 0);
    assert!(filtered_writer
        .write_with_timestamp(&info_record, "Info message", "ts", 0, stamp(), &mut fx)
        .is_ok());
    assert_eq!(fx.console.len(), 2, "info is below the filter");
    assert!(!filtered_writer.should_write(LogLevel::Info));
}

#[test]
fn test_buffered_writer_periodic_flush() {
    let config = FileConfig {
        path: "b.log".to_string(),
        append: true,
        rotation: RotationConfig::Disabled,
        buffer_size: 4096,
        flush_interval: 1000,
    };
    let mut fx = Effects::new();
    let inner = SinkWriter::File(FileWriter::new_at(config, plain_formatter(), 0, 0, &mut fx));
    let mut writer = BufferedWriter::new(inner, 100, 0);
    let record = LogRecord::new(LogLevel::Info, "x", 0);

    writer.write_with_timestamp(&record, "early", "ts", 50, stamp(), &mut fx).unwrap();
    let flushes_before = fx
        .file_ops
        .iter()
        .filter(|op| matches!(op, FileOp::Flush { .. }))
        .count();
    assert_eq!(flushes_before, 0, "interval not yet elapsed");

    writer.write_with_timestamp(&record, "later", "ts", 150, stamp(), &mut fx).unwrap();
    let flushes_after = fx
        .file_ops
        .iter()
        .filter(|op| matches!(op, FileOp::Flush { .. }))
        .count();
    assert_eq!(flushes_after, 1, "interval elapsed, one periodic flush");
}
