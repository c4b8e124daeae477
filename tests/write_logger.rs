use simplelog::line::{push_decimal, push_padded, render_line};
use simplelog::{
    Level, LevelFilter, LoggerSlot, Record, SetLoggerError, SharedLogger, Timestamp, WriteLogger,
};

fn record(level: Level, target: &str, message: &str, file: &str, line: u32) -> Record {
    Record {
        level,
        target: target.to_string(),
        message: message.to_string(),
        file: file.to_string(),
        line,
    }
}

fn at(hour: u8, minute: u8, second: u8) -> Timestamp {
    Timestamp { hour, minute, second }
}

fn text(bytes: &[u8]) -> String {
    String::from_utf8(bytes.to_vec()).unwrap()
}

#[test]
fn new_keeps_threshold_and_writes_nothing() {
    let logger = WriteLogger::new(LevelFilter::Info, Vec::<u8>::new());
    assert_eq!(logger.level(), LevelFilter::Info);
    assert!(logger.writer().is_empty());
}

#[test]
fn info_threshold_enables_error_warn_info_only() {
    let logger = WriteLogger::new(LevelFilter::Info, Vec::<u8>::new());
    assert!(logger.enabled(Level::Error));
    assert!(logger.enabled(Level::Warn));
    assert!(logger.enabled(Level::Info));
    assert!(!logger.enabled(Level::Debug));
    assert!(!logger.enabled(Level::Trace));
}

#[test]
fn enabled_matches_severity_order_for_every_pair() {
    let levels = [Level::Error, Level::Warn, Level::Info, Level::Debug, Level::Trace];
    let filters = [
        LevelFilter::Off,
        LevelFilter::Error,
        LevelFilter::Warn,
        LevelFilter::Info,
        LevelFilter::Debug,
        LevelFilter::Trace,
    ];
    for (fi, f) in filters.iter().enumerate() {
        let logger = WriteLogger::new(*f, Vec::<u8>::new());
        for (li, l) in levels.iter().enumerate() {
            assert_eq!(logger.enabled(*l), li + 1 <= fi);
        }
    }
}

#[test]
fn off_threshold_writes_nothing() {
    let mut logger = WriteLogger::new(LevelFilter::Off, Vec::<u8>::new());
    logger.log_at(&record(Level::Error, "net", "conn lost", "io.rs", 1), at(1, 2, 3));
    logger.log(&record(Level::Error, "net", "conn lost", "io.rs", 1));
    assert!(logger.writer().is_empty());
}

#[test]
fn filtered_call_leaves_sink_unchanged() {
    let mut logger = WriteLogger::new(LevelFilter::Warn, b"before\n".to_vec());
    logger.log_at(&record(Level::Info, "net", "conn lost", "io.rs", 7), at(9, 5, 3));
    logger.log_at(&record(Level::Trace, "net", "conn lost", "io.rs", 7), at(9, 5, 3));
    logger.log(&record(Level::Debug, "net", "conn lost", "io.rs", 7));
    assert_eq!(logger.writer().as_slice(), b"before\n");
    assert_eq!(logger.render(&record(Level::Debug, "net", "x", "io.rs", 7), at(0, 0, 0)), None);
}

#[test]
fn warn_line_is_exact() {
    let mut logger = WriteLogger::new(LevelFilter::Debug, Vec::<u8>::new());
    logger.log_at(&record(Level::Warn, "net", "conn lost", "io.rs", 42), at(9, 5, 3));
    assert_eq!(text(logger.writer()), "09:05:03 [WARN] net: conn lost\n");
}

#[test]
fn trace_line_carries_location() {
    let mut logger = WriteLogger::new(LevelFilter::Trace, Vec::<u8>::new());
    logger.log_at(&record(Level::Trace, "net", "conn lost", "io.rs", 42), at(0, 0, 0));
    assert_eq!(text(logger.writer()), "00:00:00 [TRACE] net: [io.rs:42] conn lost\n");
}

#[test]
fn each_level_prints_its_name() {
    let t = at(23, 59, 60);
    let cases = [
        (Level::Error, "23:59:60 [ERROR] a: m\n"),
        (Level::Warn, "23:59:60 [WARN] a: m\n"),
        (Level::Info, "23:59:60 [INFO] a: m\n"),
        (Level::Debug, "23:59:60 [DEBUG] a: m\n"),
        (Level::Trace, "23:59:60 [TRACE] a: [f.rs:0] m\n"),
    ];
    for (level, expected) in cases.iter() {
        assert_eq!(text(&render_line(&record(*level, "a", "m", "f.rs", 0), t)), *expected);
    }
}

#[test]
fn single_digit_fields_are_zero_padded() {
    let line = render_line(&record(Level::Info, "t", "m", "f.rs", 1), at(3, 4, 5));
    assert_eq!(text(&line), "03:04:05 [INFO] t: m\n");
    let line = render_line(&record(Level::Info, "t", "m", "f.rs", 1), at(10, 9, 59));
    assert_eq!(text(&line), "10:09:59 [INFO] t: m\n");
}

#[test]
fn padded_and_decimal_digits() {
    let mut out = Vec::new();
    push_padded(&mut out, 0);
    push_padded(&mut out, 7);
    push_padded(&mut out, 42);
    push_padded(&mut out, 255);
    assert_eq!(text(&out), "000742255");
    let mut out = Vec::new();
    push_decimal(&mut out, 0);
    out.push(b' ');
    push_decimal(&mut out, 10);
    out.push(b' ');
    push_decimal(&mut out, u32::MAX);
    assert_eq!(text(&out), "0 10 4294967295");
}

#[test]
fn non_ascii_text_is_written_as_utf8() {
    let rec = record(Level::Trace, "réseau", "ça coupe ✓", "ü.rs", 9);
    let line = render_line(&rec, at(12, 0, 1));
    assert_eq!(text(&line), "12:00:01 [TRACE] réseau: [ü.rs:9] ça coupe ✓\n");
}

#[test]
fn successive_lines_are_complete_and_add_up() {
    let mut logger = WriteLogger::new(LevelFilter::Trace, Vec::<u8>::new());
    let recs = [
        record(Level::Error, "a", "one", "x.rs", 1),
        record(Level::Trace, "b", "two", "y.rs", 22),
        record(Level::Info, "c", "three", "z.rs", 333),
    ];
    let mut expected_len = 0;
    for (i, r) in recs.iter().enumerate() {
        let t = at(i as u8, 30, 15);
        expected_len += render_line(r, t).len();
        logger.log_at(r, t);
    }
    let out = text(logger.writer());
    assert_eq!(out.len(), expected_len);
    assert_eq!(
        out,
        "00:30:15 [ERROR] a: one\n01:30:15 [TRACE] b: [y.rs:22] two\n02:30:15 [INFO] c: three\n"
    );
}

#[test]
fn log_with_clock_writes_one_full_line() {
    let mut logger = WriteLogger::new(LevelFilter::Info, Vec::<u8>::new());
    logger.log(&record(Level::Warn, "net", "conn lost", "io.rs", 42));
    let out = text(logger.writer());
    assert_eq!(out.len(), "hh:mm:ss [WARN] net: conn lost\n".len());
    assert!(out.ends_with(" [WARN] net: conn lost\n"));
    let bytes = out.as_bytes();
    for i in [0usize, 1, 3, 4, 6, 7] {
        assert!(bytes[i].is_ascii_digit());
    }
    assert_eq!(bytes[2], b':');
    assert_eq!(bytes[5], b':');
    assert!(&out[0..2] < "24" && &out[3..5] < "60" && &out[6..8] <= "60");
}

#[test]
fn render_now_is_none_when_filtered() {
    let logger = WriteLogger::new(LevelFilter::Error, Vec::<u8>::new());
    assert_eq!(logger.render_now(&record(Level::Warn, "n", "m", "f.rs", 1)), None);
    let line = logger.render_now(&record(Level::Error, "n", "m", "f.rs", 1)).unwrap();
    assert!(text(&line).ends_with(" [ERROR] n: m\n"));
    assert_eq!(line.len(), "hh:mm:ss [ERROR] n: m\n".len());
}

#[test]
fn into_writer_returns_what_was_written() {
    let mut logger = WriteLogger::new(LevelFilter::Debug, Vec::<u8>::new());
    logger.log_at(&record(Level::Debug, "db", "ready", "db.rs", 5), at(8, 0, 0));
    assert_eq!(text(&logger.into_writer()), "08:00:00 [DEBUG] db: ready\n");
}

#[test]
fn first_install_succeeds_and_later_ones_fail() {
    let mut slot: LoggerSlot<Vec<u8>> = LoggerSlot::new();
    assert!(!slot.is_set());
    assert_eq!(slot.max_level(), LevelFilter::Off);
    assert_eq!(WriteLogger::init(LevelFilter::Info, b"first".to_vec(), &mut slot), Ok(()));
    assert!(slot.is_set());
    assert_eq!(slot.max_level(), LevelFilter::Info);
    assert_eq!(
        WriteLogger::init(LevelFilter::Trace, b"second".to_vec(), &mut slot),
        Err(SetLoggerError)
    );
    assert_eq!(WriteLogger::init(LevelFilter::Info, Vec::new(), &mut slot), Err(SetLoggerError));
    assert_eq!(slot.max_level(), LevelFilter::Info);
    let installed = slot.logger().unwrap();
    assert_eq!(installed.level(), LevelFilter::Info);
    assert_eq!(installed.writer().as_slice(), b"first");
}

#[test]
fn shared_logger_appends_whole_lines_in_call_order() {
    let logger = SharedLogger::new(LevelFilter::Debug);
    assert_eq!(logger.level(), LevelFilter::Debug);
    logger.log_at(&record(Level::Warn, "net", "conn lost", "io.rs", 42), at(9, 5, 3));
    logger.log_at(&record(Level::Trace, "net", "dropped", "io.rs", 42), at(9, 5, 4));
    logger.log_at(&record(Level::Debug, "db", "ready", "db.rs", 7), at(9, 5, 5));
    assert_eq!(
        text(&logger.into_bytes()),
        "09:05:03 [WARN] net: conn lost\n09:05:05 [DEBUG] db: ready\n"
    );
}

#[test]
fn shared_logger_filtered_calls_write_nothing() {
    let logger = SharedLogger::new(LevelFilter::Error);
    logger.log_at(&record(Level::Warn, "net", "conn lost", "io.rs", 42), at(9, 5, 3));
    logger.log(&record(Level::Info, "net", "conn lost", "io.rs", 42));
    assert!(logger.into_bytes().is_empty());
}

#[test]
fn shared_logger_with_clock_writes_one_line_per_call() {
    let logger = SharedLogger::new(LevelFilter::Trace);
    logger.log(&record(Level::Info, "a", "one", "x.rs", 1));
    logger.log(&record(Level::Trace, "b", "two", "y.rs", 2));
    let out = text(&logger.into_bytes());
    let lines: Vec<&str> = out.lines().collect();
    assert_eq!(lines.len(), 2);
    assert!(lines[0].ends_with(" [INFO] a: one"));
    assert!(lines[1].ends_with(" [TRACE] b: [y.rs:2] two"));
    let expected = "hh:mm:ss [INFO] a: one\n".len() + "hh:mm:ss [TRACE] b: [y.rs:2] two\n".len();
    assert_eq!(out.len(), expected);
}
