//! Scenario tests for the engine's stated properties: threshold filtering,
//! rotation round trips, flush idempotence, queue delivery and the singleton
//! life cycle.

use firo_logger::{
    CalendarStamp, Effects, FileOp, LogLevel, LoggerConfig, LoggerError, LoggerInstance,
    Registry, SinkWriter,
};

fn stamp() -> CalendarStamp {
    CalendarStamp {
        iso_year: 2024,
        iso_week: 10,
        year: 2024,
        month: 3,
        day_of_month: 7,
    }
}

fn file_lines(logger: &LoggerInstance) -> Vec<String> {
    let mut lines = Vec::new();
    for w in &logger.writer.writers {
        if let SinkWriter::File(f) = w {
            for b in &f.backups {
                lines.extend(b.lines.iter().cloned());
            }
            lines.extend(f.active_lines.iter().cloned());
        }
    }
    lines
}

#[test]
fn test_threshold_suppresses_less_severe() {
    let mut fx = Effects::new();
    let config = LoggerConfig::builder()
        .level(LogLevel::Warning)
        .console(true)
        .colors(false)
        .build();
    let mut logger = LoggerInstance::new(config, &mut fx).unwrap();

    logger.info("suppressed", &mut fx).unwrap();
    assert_eq!(fx.console.len(), 0, "no write observed for a filtered record");
    assert_eq!(logger.stats().total_messages, 0);

    logger.warning("at the threshold", &mut fx).unwrap();
    logger.error("more severe", &mut fx).unwrap();
    assert_eq!(fx.console.len(), 2, "records at or above the threshold are delivered");
    assert_eq!(logger.stats().total_messages, 2);
}

#[test]
fn test_warning_threshold_file_only() {
    let mut fx = Effects::new();
    let config = LoggerConfig::builder()
        .level(LogLevel::Warning)
        .console(false)
        .file("x.log")
        .build();
    let mut logger = LoggerInstance::new(config, &mut fx).unwrap();

    logger.error("a", &mut fx).unwrap();
    logger.info("b", &mut fx).unwrap();
    logger.warning("c", &mut fx).unwrap();
    logger.flush(&mut fx).unwrap();

    let lines = file_lines(&logger);
    assert_eq!(lines.len(), 2);
    assert!(lines[0].contains(" a"));
    assert!(lines[1].contains(" c"));
    assert!(!lines.iter().any(|l| l.contains(" b")));
}

#[test]
fn test_rotation_retention_and_order() {
    let mut fx = Effects::new();
    let config = LoggerConfig::builder()
        .console(false)
        .file("roundtrip.log")
        .rotate_by_size(30, 2)
        .build();
    let mut logger = LoggerInstance::new(config, &mut fx).unwrap();

    let total = 12u64;
    for i in 0..total {
        logger
            .log_event(
                LogLevel::Info,
                &format!("record {:04}", i),
                None,
                None,
                None,
                1_700_000_000_000 + i * 1000,
                stamp(),
                &mut fx,
            )
            .unwrap();
    }

    for w in &logger.writer.writers {
        if let SinkWriter::File(f) = w {
            // At most keep + 1 files carry lines.
            assert!(f.backups.len() <= 2);
        }
    }

    // The surviving lines are a contiguous tail of the written records, in
    // order and without duplication.
    let lines = file_lines(&logger);
    assert!(!lines.is_empty());
    let first_kept: u64 = total - lines.len() as u64;
    for (k, line) in lines.iter().enumerate() {
        assert!(line.contains(&format!("record {:04}", first_kept + k as u64)));
    }
}

#[test]
fn test_unlimited_keep_loses_nothing() {
    let mut fx = Effects::new();
    let config = LoggerConfig::builder()
        .console(false)
        .file("keep_all.log")
        .rotate_by_size(30, 0)
        .build();
    let mut logger = LoggerInstance::new(config, &mut fx).unwrap();

    let total = 12u64;
    for i in 0..total {
        logger
            .log_event(
                LogLevel::Info,
                &format!("record {:04}", i),
                None,
                None,
                None,
                1_700_000_000_000 + i * 1000,
                stamp(),
                &mut fx,
            )
            .unwrap();
    }

    let lines = file_lines(&logger);
    assert_eq!(lines.len(), total as usize, "keep == 0 keeps every record");
    for (k, line) in lines.iter().enumerate() {
        assert!(line.contains(&format!("record {:04}", k)));
    }
}

#[test]
fn test_flush_twice_idempotent() {
    let mut fx = Effects::new();
    let config = LoggerConfig::builder()
        .console(false)
        .file("idem.log")
        .async_logging(16)
        .build();
    let mut logger = LoggerInstance::new(config, &mut fx).unwrap();

    logger
        .log_event(LogLevel::Info, "queued", None, None, None, 1_700_000_000_000, stamp(), &mut fx)
        .unwrap();

    assert!(logger.flush_at(1_700_000_000_500, stamp(), &mut fx).is_ok());
    let lines_after_first = file_lines(&logger);
    let console_after_first = fx.console.len();
    let ops_after_first = fx.file_ops.len();

    assert!(logger.flush_at(1_700_000_001_000, stamp(), &mut fx).is_ok());
    assert_eq!(file_lines(&logger), lines_after_first, "no additional writes");
    assert_eq!(fx.console.len(), console_after_first);
    for op in &fx.file_ops[ops_after_first..] {
        assert!(matches!(op, FileOp::Flush { .. }), "only flushes after the second flush");
    }
}

#[test]
fn test_async_drain_delivers_everything() {
    let mut fx = Effects::new();
    let config = LoggerConfig::builder()
        .console(false)
        .file("drain.log")
        .async_logging(64)
        .build();
    let mut logger = LoggerInstance::new(config, &mut fx).unwrap();

    for i in 0..5u64 {
        logger
            .log_event(
                LogLevel::Info,
                &format!("queued {}", i),
                None,
                None,
                None,
                1_700_000_000_000 + i,
                stamp(),
                &mut fx,
            )
            .unwrap();
    }
    logger.drain_at(1_700_000_000_100, stamp(), &mut fx);

    let lines = file_lines(&logger);
    assert_eq!(lines.len(), 5, "no loss, no duplication");
    for (i, line) in lines.iter().enumerate() {
        assert!(line.contains(&format!("queued {}", i)), "arrival order kept");
    }
}

#[test]
fn test_queue_rejects_when_full() {
    let mut fx = Effects::new();
    let config = LoggerConfig::builder()
        .console(true)
        .colors(false)
        .async_logging(2)
        .build();
    let mut logger = LoggerInstance::new(config, &mut fx).unwrap();

    assert!(logger.info("one", &mut fx).is_ok());
    assert!(logger.info("two", &mut fx).is_ok());
    match logger.info("three", &mut fx) {
        Err(LoggerError::Channel(_)) => {}
        other => panic!("expected a channel error, got {:?}", other),
    }
    assert_eq!(logger.stats().error_count, 1);
    assert_eq!(logger.stats().total_messages, 3);
}

#[test]
fn test_unbuffered_write_visible() {
    // Rotation off, flush interval zero: every log call's bytes are appended
    // and flushed before the call returns, and the size counter mirrors them.
    let mut fx = Effects::new();
    let mut config = LoggerConfig::builder().console(false).file("now.log").build();
    config.file.flush_interval = 0;
    let mut logger = LoggerInstance::new(config, &mut fx).unwrap();

    let ops_before = fx.file_ops.len();
    logger
        .log_event(LogLevel::Info, "visible at once", None, None, None, 1_700_000_000_000, stamp(), &mut fx)
        .unwrap();

    let new_ops = &fx.file_ops[ops_before..];
    assert_eq!(new_ops.len(), 2);
    let line_len = match &new_ops[0] {
        FileOp::AppendLine { text, .. } => text.len() as u64,
        other => panic!("expected an append, got {:?}", other),
    };
    assert!(matches!(&new_ops[1], FileOp::Flush { .. }));

    for w in &logger.writer.writers {
        if let SinkWriter::File(f) = w {
            assert_eq!(f.current_size, line_len + 1, "size counts the line and its terminator");
        }
    }
}

#[test]
fn test_update_config_rebuilds_writers() {
    let mut fx = Effects::new();
    let config = LoggerConfig::builder()
        .console(true)
        .colors(false)
        .async_logging(8)
        .build();
    let mut logger = LoggerInstance::new(config, &mut fx).unwrap();
    logger.info("queued before reconfiguration", &mut fx).unwrap();

    let new_config = LoggerConfig::builder().console(false).file("reconf.log").build();
    assert!(logger.update_config(new_config, &mut fx).is_ok());

    // The old queue was drained before the graph was replaced...
    assert!(fx
        .console
        .iter()
        .any(|l| l.text.contains("queued before reconfiguration")));
    // ...and the new graph opens its file and carries the statistics over.
    assert!(matches!(&logger.writer.writers[0], SinkWriter::File(_)));
    assert!(logger.queue.is_none());
    assert_eq!(logger.stats().total_messages, 1);
    assert!(fx
        .file_ops
        .iter()
        .any(|op| matches!(op, FileOp::Open { path, .. } if path == "reconf.log")));

    // An invalid configuration is rejected and changes nothing.
    let invalid = LoggerConfig {
        console_enabled: false,
        file_enabled: false,
        ..Default::default()
    };
    assert!(logger.update_config(invalid, &mut fx).is_err());
    assert!(matches!(&logger.writer.writers[0], SinkWriter::File(_)));
}

#[test]
fn test_registry_init_opens_file() {
    let mut reg = Registry::new();
    let mut fx = Effects::new();
    let config = LoggerConfig::builder().console(false).file("singleton.log").build();

    assert!(reg.init(config, &mut fx).is_ok());
    assert!(fx
        .file_ops
        .iter()
        .any(|op| matches!(op, FileOp::Open { path, append, .. } if path == "singleton.log" && *append)));
}

#[test]
fn test_registry_flush_drains_queue() {
    let mut reg = Registry::new();
    let mut fx = Effects::new();
    let config = LoggerConfig::builder()
        .console(false)
        .file("reg_drain.log")
        .async_logging(8)
        .build();
    reg.init(config, &mut fx).unwrap();

    reg.log_info("held in the queue", &mut fx).unwrap();
    let appended_before = fx
        .file_ops
        .iter()
        .filter(|op| matches!(op, FileOp::AppendLine { .. }))
        .count();
    assert_eq!(appended_before, 0, "the record waits in the queue");

    assert!(reg.flush(&mut fx).is_ok());
    let appended_after: Vec<&FileOp> = fx
        .file_ops
        .iter()
        .filter(|op| matches!(op, FileOp::AppendLine { .. }))
        .collect();
    assert_eq!(appended_after.len(), 1, "the flush drained the queue");
    assert!(matches!(appended_after[0], FileOp::AppendLine { text, .. } if text.contains("held in the queue")));
}

#[test]
fn test_registry_stats_and_config_read_current() {
    let mut reg = Registry::new();
    let mut fx = Effects::new();
    let config = LoggerConfig::builder()
        .level(LogLevel::Debug)
        .console(true)
        .colors(false)
        .build();
    reg.init(config, &mut fx).unwrap();
    reg.log_debug("counted", &mut fx).unwrap();

    let stats = reg.stats().unwrap();
    assert_eq!(stats.total_messages, 1);
    assert_eq!(stats.messages_by_level.get(LogLevel::Debug), 1);

    let seen = reg.config().unwrap();
    assert_eq!(seen.level, LogLevel::Debug);
    assert!(!seen.console.colors);
}

#[test]
fn test_init_twice_already_initialized() {
    let mut reg = Registry::new();
    let mut fx = Effects::new();

    let first = LoggerConfig::builder().console(true).colors(false).build();
    assert!(reg.init(first, &mut fx).is_ok());

    let second = LoggerConfig::builder().console(true).build();
    match reg.init(second, &mut fx) {
        Err(LoggerError::AlreadyInitialized) => {}
        other => panic!("expected AlreadyInitialized, got {:?}", other),
    }

    // The first logger remains active and functional.
    assert!(reg.is_initialized());
    assert!(reg.log_info("still works", &mut fx).is_ok());
    assert_eq!(reg.stats().unwrap().total_messages, 1);
}

#[test]
fn test_failed_init_leaves_unset() {
    let mut reg = Registry::new();
    let mut fx = Effects::new();

    let invalid = LoggerConfig {
        console_enabled: false,
        file_enabled: false,
        ..Default::default()
    };
    assert!(reg.init(invalid, &mut fx).is_err());
    assert!(!reg.is_initialized());
}

#[test]
fn test_scoped_override_restores() {
    let mut reg = Registry::new();
    let mut fx = Effects::new();
    reg.init(LoggerConfig::builder().console(true).colors(false).build(), &mut fx)
        .unwrap();

    let over = LoggerInstance::new(
        LoggerConfig::builder().console(true).colors(false).build(),
        &mut fx,
    )
    .unwrap();
    reg.push_scoped(over);
    reg.log_info("scoped", &mut fx).unwrap();
    let over = reg.pop_scoped().unwrap();

    assert_eq!(over.stats().total_messages, 1);
    assert_eq!(reg.stats().unwrap().total_messages, 0, "the default was shadowed");
}
