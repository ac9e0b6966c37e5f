use console_logger::Logger;
use console_logger::LoggingLevel;
use console_logger::LoggingType;

// These tests force colorization on, so they live in their own binary: the
// switch is process-global.

#[test]
fn colorized_label_is_styled() {
    colored::control::set_override(true);
    let logger = Logger::new(LoggingLevel::Full, String::new());
    let line = logger.render_origin_message("m", LoggingType::Info, None).unwrap();
    // green severity tag, reset afterwards, message untouched at the end
    assert!(line.contains("\u{1b}[32m"));
    assert!(line.contains("INFO"));
    assert!(line.contains("\u{1b}[0m"));
    assert!(line.ends_with(": m"));
}

#[test]
fn colorized_warn_and_debug_are_styled() {
    colored::control::set_override(true);
    let logger = Logger::new(LoggingLevel::Full, String::new());
    let warn = logger.render_origin_message("m", LoggingType::Warning, None).unwrap();
    assert!(warn.contains("\u{1b}[33m"));
    assert!(warn.contains("WARN"));
    let debug = logger.render_origin_message("m", LoggingType::Debug, None).unwrap();
    assert!(debug.contains("\u{1b}[34m"));
    assert!(debug.contains("DEBUG"));
}

#[test]
fn colorized_origin_is_styled() {
    colored::control::set_override(true);
    let logger = Logger::new(LoggingLevel::Full, String::from("svc"));
    let line = logger.render_origin_message("m", LoggingType::Error, None).unwrap();
    // bright-red tag, bright-white origin
    assert!(line.contains("\u{1b}[91m"));
    assert!(line.contains("ERROR"));
    assert!(line.contains("\u{1b}[97m"));
    assert!(line.contains("svc"));
    assert!(line.ends_with(": m"));
}
