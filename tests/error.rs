use logfather::{LogfatherError, LogfatherResult};

#[test]
fn error_messages_name_what_failed() {
    let e = LogfatherError::LoggerAccessError(String::from("poisoned"));
    assert_eq!(e.message(), "Failed to access logger: poisoned");
    let e = LogfatherError::FileAccessError(String::from("busy"));
    assert_eq!(e.message(), "Failed to access file: busy");
}

#[test]
fn io_errors_convert() {
    let io = std::io::Error::new(std::io::ErrorKind::NotFound, "no such file");
    let e = LogfatherError::from(io);
    assert!(matches!(e, LogfatherError::IoError(_)));
    assert_eq!(e.message(), "I/O Error: no such file");
    let r: LogfatherResult = Err(e);
    assert!(r.is_err());
}
