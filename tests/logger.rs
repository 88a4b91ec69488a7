use logfather::{Level, Logger, Style};

#[test]
fn test_level_filtering() {
    let logger = Logger::new().level(Level::Error);
    //Test levels below
    assert!(Level::Info < logger.output_level);
    assert!(Level::Debug < logger.output_level);
    assert!(Level::Warning < logger.output_level);
    //Test levels equal-to-or-above
    assert!(Level::Error >= logger.output_level);
    assert!(Level::Critical >= logger.output_level);
}

#[test]
fn test_level_none() {
    let logger = Logger::new().level(Level::Off);
    //Test levels below
    assert!(Level::Info < logger.output_level);
    assert!(Level::Debug < logger.output_level);
    assert!(Level::Warning < logger.output_level);
    assert!(Level::Error < logger.output_level);
    assert!(Level::Critical < logger.output_level);
}

#[test]
fn test_log_format() {
    let logger = Logger::new().log_format("{level} - {message}");
    let formatted_message = logger
        .log_format
        .replace("{level}", "INFO")
        .replace("{message}", "Test message");
    assert_eq!(formatted_message, "INFO - Test message");
}

#[test]
fn test_output_enablement() {
    let mut logger = Logger::new();
    // Initially, terminal output is enabled, and file output is disabled.
    assert!(
        logger.terminal_output,
        "Terminal output should be enabled by default"
    );
    assert!(
        !logger.file_output,
        "File output should be disabled by default"
    );
    // Enable file output and disable terminal output.
    logger = logger.file(true).terminal(false);
    assert!(logger.file_output, "File output was not enabled");
    assert!(!logger.terminal_output, "Terminal output was not disabled");
}

#[test]
fn test_ignore_levels() {
    let logger = Logger::new().ignore(Level::Debug).ignore(Level::Warning);
    assert!(
        logger.ignore.contains(&Level::Debug),
        "Debug level should be ignored"
    );
    assert!(
        logger.ignore.contains(&Level::Warning),
        "Warning level should be ignored"
    );
    assert!(
        !logger.ignore.contains(&Level::Error),
        "Error level should not be ignored"
    );
}

#[test]
fn test_style_assignment() {
    let logger = Logger::new().style(Level::Info, vec![Style::FGGreen, Style::Bold]);
    let styles = logger.styles(Level::Info);
    assert!(
        styles.contains(&Style::FGGreen) && styles.contains(&Style::Bold),
        "Info level should have green and bold styles"
    );
}

#[test]
fn default_configuration() {
    let logger = Logger::new();
    assert!(logger.terminal_output);
    assert!(!logger.file_output);
    assert_eq!(logger.file_path, None);
    assert_eq!(logger.file_rollover, 0);
    assert_eq!(logger.output_level, Level::Trace);
    assert_eq!(logger.log_format, "[{timestamp} {level} {module_path}] {message}");
    assert_eq!(logger.structured_format, " {key}: {value}");
    assert_eq!(logger.timestamp_format, "%Y-%m-%d %H:%M:%S");
    assert_eq!(logger.terminal_buffer_interval, std::time::Duration::from_nanos(0));
    assert_eq!(logger.file_buffer_interval, std::time::Duration::from_nanos(0));
    assert_eq!(logger.styles(Level::Trace), vec![Style::FGPurple]);
    assert_eq!(logger.styles(Level::Critical), vec![Style::Bold, Style::FGRed]);
    assert_eq!(logger.styles(Level::Diagnostic), vec![Style::Bold, Style::FGCyan]);
    assert_eq!(logger.styles(Level::Fatal), Vec::<Style>::new());
    assert_eq!(logger.styles(Level::Off), Vec::<Style>::new());
}

#[test]
fn setters_change_one_field() {
    let mut logger = Logger::new();
    let copy = logger
        .path("logs/app.log")
        .file_rollover(3);
    assert_eq!(copy.file_path, Some(String::from("logs/app.log")));
    assert_eq!(copy.file_rollover, 3);
    assert_eq!(logger.file_path, Some(String::from("logs/app.log")));
    // the setter returns a copy; the chained call changed only the copy
    assert_eq!(logger.file_rollover, 0);
    let logger = logger
        .structured_format(" <{key}={value}>")
        .timestamp_format("%H")
        .terminal_ignore(Level::Trace)
        .file_ignore(Level::Debug);
    assert_eq!(logger.structured_format, " <{key}={value}>");
    assert_eq!(logger.log_format, "[{timestamp} {level} {module_path}] {message}");
    assert_eq!(logger.timestamp_format, "%H");
    assert_eq!(logger.terminal_ignore, vec![Level::Trace]);
    assert_eq!(logger.file_ignore, vec![Level::Debug]);
}

#[test]
fn style_round_trip() {
    let list = vec![Style::Underline, Style::BGBlue, Style::Italic];
    let logger = Logger::new().style(Level::Warning, list.clone());
    assert_eq!(logger.styles(Level::Warning), list);
    assert_eq!(logger.styles(Level::Error), vec![Style::FGRed]);
}

#[test]
fn add_then_remove_style() {
    let mut logger = Logger::new();
    let added = logger.add_style(Level::Error, Style::Bold);
    assert_eq!(added.styles(Level::Error), vec![Style::FGRed, Style::Bold]);
    let removed = logger.remove_style(Level::Error, Style::Bold);
    assert_eq!(removed.styles(Level::Error), vec![Style::FGRed]);
    let mut logger = Logger::new().style(Level::Info, vec![Style::Bold, Style::FGGreen, Style::Bold]);
    let removed = logger.remove_style(Level::Info, Style::Bold);
    assert_eq!(removed.styles(Level::Info), vec![Style::FGGreen]);
    let untouched = logger.remove_style(Level::Info, Style::FGBlue);
    assert_eq!(untouched.styles(Level::Info), vec![Style::FGGreen]);
}

#[test]
fn snapshot_is_a_full_copy() {
    let mut logger = Logger::new();
    logger.ignore(Level::Info);
    let copy = logger.snapshot();
    logger.ignore(Level::Error);
    assert_eq!(copy.ignore, vec![Level::Info]);
    assert_eq!(logger.ignore, vec![Level::Info, Level::Error]);
}

#[test]
fn level_labels_and_order() {
    assert_eq!(Level::Info.label(), "INFO      ");
    assert_eq!(Level::Warning.label(), "WARNING   ");
    assert_eq!(Level::Diagnostic.label(), "DIAGNOSTIC");
    assert_eq!(Level::Off.label(), "NONE      ");
    assert_eq!(Level::Fatal.ordinal(), 6);
    assert_eq!(Level::Diagnostic.ordinal(), 245);
    assert_eq!(Level::Off.ordinal(), 255);
    assert!(Level::Trace.is_below(&Level::Debug));
    assert!(!Level::Error.is_below(&Level::Error));
    assert!(Level::Fatal.is_below(&Level::Off));
}

#[test]
fn clone_keeps_every_setting() {
    let logger = Logger::new()
        .level(Level::Warning)
        .add_style(Level::Debug, Style::Underline)
        .timezone(logfather::TimeZone::Utc);
    let copy = logger.clone();
    assert_eq!(copy.output_level, Level::Warning);
    assert_eq!(copy.timezone, logfather::TimeZone::Utc);
    assert_eq!(copy.styles(Level::Debug), vec![Style::FGBlue, Style::Underline]);
    assert_eq!(copy.log_format, logger.log_format);
}
