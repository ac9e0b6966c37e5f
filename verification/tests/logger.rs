use console_logger::compose_line;
use console_logger::Logger;
use console_logger::LoggingLevel;
use console_logger::LoggingType;

fn plain_colors() {
    colored::control::set_override(false);
}

fn render(l: &Logger, msg: &str, kind: LoggingType, origin: Option<&str>) -> Option<String> {
    l.render_origin_message(msg, kind, origin)
}

fn expected_permits(level: LoggingLevel, kind: LoggingType) -> bool {
    match kind {
        LoggingType::NoOp => false,
        LoggingType::Info => matches!(level, LoggingLevel::Full | LoggingLevel::Info),
        LoggingType::Warning => matches!(
            level,
            LoggingLevel::Full | LoggingLevel::Warning | LoggingLevel::Error
        ),
        LoggingType::Error => !matches!(level, LoggingLevel::Off),
        LoggingType::Debug => matches!(level, LoggingLevel::Full),
    }
}

#[test]
fn filter_table_matches_spec() {
    plain_colors();
    let levels = [
        LoggingLevel::Off,
        LoggingLevel::Full,
        LoggingLevel::Info,
        LoggingLevel::Warning,
        LoggingLevel::Error,
    ];
    let kinds = [
        LoggingType::NoOp,
        LoggingType::Info,
        LoggingType::Warning,
        LoggingType::Error,
        LoggingType::Debug,
    ];
    for level in levels {
        let logger = Logger::new(level, String::from("svc"));
        for kind in kinds {
            let line = render(&logger, "m", kind, None);
            assert_eq!(line.is_some(), expected_permits(level, kind));
        }
    }
}

#[test]
fn noop_kind_never_prints() {
    plain_colors();
    let levels = [
        LoggingLevel::Off,
        LoggingLevel::Full,
        LoggingLevel::Info,
        LoggingLevel::Warning,
        LoggingLevel::Error,
    ];
    for level in levels {
        let logger = Logger::new(level, String::from("svc"));
        assert!(render(&logger, "m", LoggingType::NoOp, None).is_none());
        assert!(render(&logger, "m", LoggingType::NoOp, Some("o")).is_none());
    }
}

#[test]
fn origin_fallback_and_override() {
    plain_colors();
    let logger = Logger::new(LoggingLevel::Full, String::from("svc"));
    let fallback = render(&logger, "m", LoggingType::Info, None).unwrap();
    assert!(fallback.contains("[svc]"));
    let overridden = render(&logger, "m", LoggingType::Info, Some("override")).unwrap();
    assert!(overridden.contains("[override]"));
    assert!(!overridden.contains("[svc]"));
}

#[test]
fn empty_origin_omits_bracket() {
    plain_colors();
    let logger = Logger::new(LoggingLevel::Full, String::new());
    let error_line = render(&logger, "x", LoggingType::Error, None).unwrap();
    assert!(error_line.ends_with("[ERROR]: x"));
    let info_line = render(&logger, "x", LoggingType::Info, None).unwrap();
    assert!(info_line.ends_with("[INFO] : x"));
    let before_colon = &error_line[..error_line.rfind(": x").unwrap()];
    assert!(!before_colon.ends_with("] ["));
}

#[test]
fn origin_override_empty_suppresses_bracket() {
    plain_colors();
    let logger = Logger::new(LoggingLevel::Full, String::from("svc"));
    let line = render(&logger, "m", LoggingType::Error, Some("")).unwrap();
    assert!(!line.contains("svc"));
    assert!(line.ends_with("[ERROR]: m"));
}

#[test]
fn message_passthrough_verbatim() {
    plain_colors();
    let logger = Logger::new(LoggingLevel::Full, String::from("svc"));
    let msg = "a: [b] \u{1b}[0m {weird}  end";
    let line = render(&logger, msg, LoggingType::Warning, None).unwrap();
    assert!(line.ends_with(&format!(": {}", msg)));
    // an empty message is a valid input and leaves the separator bare
    let empty = render(&logger, "", LoggingType::Warning, None).unwrap();
    assert!(empty.ends_with("[svc]: "));
}

#[test]
fn timestamp_shape() {
    plain_colors();
    let logger = Logger::new(LoggingLevel::Full, String::new());
    let line = render(&logger, "m", LoggingType::Info, None).unwrap();
    let b = line.as_bytes();
    assert_eq!(b[0], b'[');
    // date: YYYY-MM-DD
    for i in [1, 2, 3, 4, 6, 7, 9, 10] {
        assert!(b[i].is_ascii_digit());
    }
    assert_eq!(b[5], b'-');
    assert_eq!(b[8], b'-');
    // time follows the date directly: HH:MM:SS
    for i in [11, 12, 14, 15, 17, 18] {
        assert!(b[i].is_ascii_digit());
    }
    assert_eq!(b[13], b':');
    assert_eq!(b[16], b':');
    assert_eq!(b[19], b']');
    assert_eq!(b[20], b' ');
}

#[test]
fn end_to_end_startup_line() {
    plain_colors();
    let logger = Logger::new(LoggingLevel::Full, String::from("core"));
    let line = render(&logger, "starting up", LoggingType::Info, None).unwrap();
    let ts_open = line.find('[').unwrap();
    let ts_close = line.find(']').unwrap();
    let info_at = line.find("[INFO]").unwrap();
    let core_at = line.find("[core]").unwrap();
    let msg_at = line.find(": starting up").unwrap();
    assert!(ts_open < ts_close);
    assert!(ts_close < info_at);
    assert!(info_at < core_at);
    assert!(core_at < msg_at);
    assert!(line.ends_with(": starting up"));
    // the printing entry points take the same path; exercise them too
    logger.log_message("starting up", LoggingType::Info);
    logger.log_origin_message("starting up", LoggingType::Info, Some("boot"));
}

#[test]
fn mutator_threshold_effect() {
    plain_colors();
    let mut logger = Logger::new(LoggingLevel::Full, String::from("svc"));
    assert!(render(&logger, "d", LoggingType::Debug, None).is_some());
    logger.set_level(LoggingLevel::Error);
    assert!(render(&logger, "x", LoggingType::Debug, None).is_none());
    assert!(render(&logger, "y", LoggingType::Info, None).is_none());
    let line = render(&logger, "z", LoggingType::Error, None).unwrap();
    assert!(line.ends_with(": z"));
}

#[test]
fn set_default_origin_effect() {
    plain_colors();
    let mut logger = Logger::new(LoggingLevel::Info, String::from("old"));
    logger.set_default_origin(String::from("alpha"));
    let line = render(&logger, "m", LoggingType::Info, None).unwrap();
    assert!(line.contains("[alpha]"));
    assert!(!line.contains("[old]"));
    // the threshold is untouched by the origin mutator
    assert!(render(&logger, "m", LoggingType::Debug, None).is_none());
}

#[test]
fn default_logger_full_threshold() {
    plain_colors();
    let logger = Logger::default();
    let line = render(&logger, "d", LoggingType::Debug, None).unwrap();
    assert!(line.ends_with("[DEBUG]: d"));
    assert!(render(&logger, "w", LoggingType::Warning, None).is_some());
}

#[test]
fn new_logger_stores_configuration() {
    plain_colors();
    let logger = Logger::new(LoggingLevel::Info, String::from("x"));
    let line = render(&logger, "m", LoggingType::Info, None).unwrap();
    assert!(line.contains("[x]"));
    assert!(render(&logger, "m", LoggingType::Warning, None).is_none());
    assert!(render(&logger, "m", LoggingType::Debug, None).is_none());
    // error messages survive every threshold that is not Off
    let error_line = render(&logger, "m", LoggingType::Error, None).unwrap();
    assert!(error_line.contains("ERROR"));
    let warn_logger = Logger::new(LoggingLevel::Warning, String::from("x"));
    assert!(render(&warn_logger, "m", LoggingType::Error, None).is_some());
    let off_logger = Logger::new(LoggingLevel::Off, String::from("x"));
    assert!(render(&off_logger, "m", LoggingType::Error, None).is_none());
}

#[test]
fn compose_line_exact_with_origin() {
    let line = compose_line("2024-01-02", "03:04:05", "INFO", 1, Some("svc"), "hi");
    assert_eq!(line, "[2024-01-0203:04:05] [INFO]  [svc]: hi");
}

#[test]
fn compose_line_exact_without_origin() {
    let line = compose_line("2024-01-02", "03:04:05", "ERROR", 0, None, "boom");
    assert_eq!(line, "[2024-01-0203:04:05] [ERROR]: boom");
}

#[test]
fn warning_label_and_padding() {
    plain_colors();
    let logger = Logger::new(LoggingLevel::Warning, String::new());
    let line = render(&logger, "w", LoggingType::Warning, None).unwrap();
    assert!(line.ends_with("[WARN] : w"));
}
