use logfather::output::rollover;
use logfather::template::{fill_base, fill_level, fill_pair, replace_all};
use logfather::{log, structured_log, timestamp, Level, LogQueues, Logger, Style, TimeZone};

fn lines(v: &[&str]) -> Vec<String> {
    v.iter().map(|s| s.to_string()).collect()
}

#[test]
fn replace_every_occurrence() {
    assert_eq!(replace_all("a-b-c", "-", "+"), "a+b+c");
    assert_eq!(replace_all("aaa", "aa", "x"), "xa");
    assert_eq!(replace_all("{x}{x}", "{x}", "yy"), "yyyy");
    assert_eq!(replace_all("", "{x}", "y"), "");
    assert_eq!(replace_all("no match", "{x}", "y"), "no match");
    assert_eq!(replace_all("é{x}ü", "{x}", "ß"), "éßü");
}

#[test]
fn format_substitution() {
    let line = fill_base("{level} - {message}", "T", "site", "Test message");
    assert_eq!(line, "{level} - Test message");
    assert_eq!(fill_level(&line, "INFO"), "INFO - Test message");
    let line = fill_base(
        "[{timestamp} {level} {module_path}] {message} {unknown}",
        "12:00",
        "app::main",
        "hi",
    );
    assert_eq!(line, "[12:00 {level} app::main] hi {unknown}");
    assert_eq!(fill_pair(" {key}: {value}", "user", "ann"), " user: ann");
}

#[test]
fn render_uses_styled_label_on_terminal_and_plain_label_in_file() {
    let logger = Logger::new()
        .log_format("{level}|{message}")
        .file(true)
        .path("x.log");
    let out = logger.render(Level::Info, "site", "hello", "t");
    assert_eq!(out.terminal, Some(String::from("\x1b[32mINFO      \x1b[0m|hello")));
    assert_eq!(out.file, Some(String::from("INFO      |hello")));
    let logger = Logger::new().log_format("{level}").style(Level::Critical, vec![]);
    let out = logger.render(Level::Critical, "site", "m", "t");
    assert_eq!(out.terminal, Some(String::from("\x1b[mCRITICAL  \x1b[0m")));
    let out = Logger::new().log_format("{level}").render(Level::Critical, "s", "m", "t");
    assert_eq!(out.terminal, Some(String::from("\x1b[1;31mCRITICAL  \x1b[0m")));
}

#[test]
fn below_minimum_reaches_no_sink() {
    let logger = Logger::new().level(Level::Error).file(true).path("x.log");
    let mut q = LogQueues::new();
    log(&logger, &mut q, Level::Warning, "site", "dropped");
    log(&logger, &mut q, Level::Trace, "site", "dropped");
    assert!(q.terminal.is_empty());
    assert!(q.file.is_empty());
    log(&logger, &mut q, Level::Error, "site", "kept");
    assert_eq!(q.terminal.len(), 1);
    assert_eq!(q.file.len(), 1);
}

#[test]
fn off_silences_everything() {
    let logger = Logger::new().level(Level::Off).file(true).path("x.log");
    let mut q = LogQueues::new();
    for level in [
        Level::Trace,
        Level::Debug,
        Level::Info,
        Level::Warning,
        Level::Error,
        Level::Critical,
        Level::Fatal,
        Level::Diagnostic,
        Level::Off,
    ] {
        log(&logger, &mut q, level, "site", "m");
        assert!(!logger.admits(level));
    }
    assert!(q.is_settled(false));
    let pairs = vec![(String::from("k"), String::from("v"))];
    structured_log(&logger, &mut q, Level::Off, "site", "m", &pairs);
    assert!(q.is_settled(false));
}

#[test]
fn file_output_on_then_off() {
    let mut logger = Logger::new().terminal(false).file(true).path("logs/out.log");
    let mut q = LogQueues::new();
    log(&logger, &mut q, Level::Info, "site", "first message");
    assert_eq!(q.file.len(), 1);
    assert!(q.file[0].contains("first message"));
    assert!(q.file[0].contains("INFO      "));
    assert!(q.file[0].contains("site"));
    logger.file(false);
    log(&logger, &mut q, Level::Info, "site", "second message");
    assert_eq!(q.file.len(), 1);
    assert!(!q.file.iter().any(|l| l.contains("second message")));
    assert!(q.terminal.is_empty());
}

#[test]
fn file_needs_a_path() {
    let logger = Logger::new().file(true);
    let mut q = LogQueues::new();
    log(&logger, &mut q, Level::Info, "site", "m");
    assert!(q.file.is_empty());
    assert_eq!(q.terminal.len(), 1);
}

#[test]
fn ignore_lists() {
    let logger = Logger::new().file(true).path("x.log").ignore(Level::Error);
    let mut q = LogQueues::new();
    log(&logger, &mut q, Level::Error, "site", "m");
    assert!(q.is_settled(false));
    let mut logger = Logger::new()
        .log_format("{message}")
        .file(true)
        .path("x.log")
        .file_ignore(Level::Warning);
    log(&logger, &mut q, Level::Warning, "site", "w");
    assert_eq!(q.terminal, vec![String::from("w")]);
    assert!(q.file.is_empty());
    let logger = logger.terminal_ignore(Level::Info);
    log(&logger, &mut q, Level::Info, "site", "i");
    assert_eq!(q.terminal, vec![String::from("w")]);
    assert_eq!(q.file, vec![String::from("i")]);
}

#[test]
fn structured_pairs_in_order() {
    let logger = Logger::new()
        .log_format("{level}{message}")
        .file(true)
        .path("x.log")
        .terminal(false);
    let mut q = LogQueues::new();
    let pairs = vec![
        (String::from("b"), String::from("2")),
        (String::from("a"), String::from("1")),
    ];
    structured_log(&logger, &mut q, Level::Debug, "site", "msg", &pairs);
    assert_eq!(q.file, vec![String::from("DEBUG     msg b: 2 a: 1")]);
    let out = logger.render_structured(Level::Debug, "s", "m", "t", &Vec::new());
    assert_eq!(out.file, Some(String::from("DEBUG     m")));
}

#[test]
fn queues_drain_in_order() {
    let logger = Logger::new().log_format("{message}").file(true).path("x.log");
    let mut q = LogQueues::new();
    log(&logger, &mut q, Level::Info, "site", "one");
    log(&logger, &mut q, Level::Info, "site", "two");
    assert!(!q.is_settled(false));
    let file = q.take_file();
    assert_eq!(file, lines(&["one", "two"]));
    assert!(q.file.is_empty());
    assert_eq!(q.terminal, lines(&["one", "two"]));
    let term = q.take_terminal();
    assert_eq!(term, lines(&["one", "two"]));
    assert!(q.is_settled(false));
    assert!(!q.is_settled(true));
}

#[test]
fn rollover_keeps_last_lines() {
    let all = lines(&["1", "2", "3", "4", "5"]);
    assert_eq!(rollover(all.clone(), 2), Some(lines(&["4", "5"])));
    assert_eq!(rollover(all.clone(), 0), None);
    assert_eq!(rollover(all.clone(), 5), None);
    assert_eq!(rollover(all.clone(), 9), None);
    assert_eq!(rollover(all, 4), Some(lines(&["2", "3", "4", "5"])));
}

#[test]
fn timestamps_follow_the_pattern() {
    assert_eq!(timestamp(TimeZone::Utc, "fixed"), "fixed");
    let year = timestamp(TimeZone::Utc, "%Y");
    assert_eq!(year.len(), 4);
    assert!(year.chars().all(|c| c.is_ascii_digit()));
    let local = timestamp(TimeZone::Local, "%Y-%m-%d");
    assert_eq!(local.len(), 10);
}

#[test]
fn file_sink_needs_output_and_path() {
    assert!(!Logger::new().file_sink_active());
    assert!(!Logger::new().file(true).file_sink_active());
    assert!(Logger::new().file(true).path("a").file_sink_active());
    assert!(Logger::new().admits(Level::Trace));
    assert!(!Logger::new().ignore(Level::Trace).admits(Level::Trace));
    let _ = Style::Reset;
}

#[test]
fn file_line_is_template_with_message() {
    let logger = Logger::new()
        .log_format("at: {message}!")
        .terminal(false)
        .file(true)
        .path("x.log");
    let mut q = LogQueues::new();
    log(&logger, &mut q, Level::Warning, "site", "disk almost full");
    assert_eq!(q.file, vec![String::from("at: disk almost full!")]);
}
