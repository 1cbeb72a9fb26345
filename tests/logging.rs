use leveled_log::record::{
    append_result, format_record, plan_write, AppendOutcome, LogAction, LogError, LogLevel,
    LogType, DEFAULT_LOG_FILE_NAME,
};

fn appended(log_type: LogType, level: LogLevel, value: &str) -> (String, String, bool) {
    match plan_write(log_type, level, value) {
        LogAction::Append { path, line, create } => (path, line, create),
        LogAction::Print { .. } => panic!("expected the file sink"),
    }
}

#[test]
fn test_write_to_log_to_filesystem() {
    let test_message = "Test log message";
    let log_level = LogLevel::Info;
    let expected_output = format!("[{}] {}", log_level.to_string(), test_message);
    let (path, line, _) = appended(LogType::FileSystem, log_level, test_message);
    assert_eq!(path, DEFAULT_LOG_FILE_NAME);
    let last_line = line.lines().last().expect("Log file is empty");
    assert_eq!(last_line, expected_output);
    assert_eq!(last_line, "[INFO] Test log message");
}

#[test]
fn level_tags_are_upper_case_names() {
    assert_eq!(LogLevel::Info.to_string(), "INFO");
    assert_eq!(LogLevel::Error.to_string(), "ERROR");
    assert_eq!(LogLevel::Warn.to_string(), "WARN");
    assert_eq!(LogLevel::Debug.to_string(), "DEBUG");
}

#[test]
fn record_is_bracketed_tag_then_message() {
    assert_eq!(format_record(LogLevel::Warn, "disk low"), "[WARN] disk low");
    assert_eq!(format_record(LogLevel::Error, ""), "[ERROR] ");
    assert_eq!(format_record(LogLevel::Debug, "ünï"), "[DEBUG] ünï");
}

#[test]
fn file_sink_appends_exactly_one_line() {
    for level in [LogLevel::Info, LogLevel::Error, LogLevel::Warn, LogLevel::Debug] {
        let (_, line, _) = appended(LogType::FileSystem, level, "some message");
        assert!(line.ends_with('\n'));
        assert_eq!(line.matches('\n').count(), 1);
        assert_eq!(line, format!("[{}] some message\n", level.to_string()));
    }
}

#[test]
fn file_sink_opens_with_create() {
    let (path, _, create) = appended(LogType::FileSystem, LogLevel::Error, "boom");
    assert_eq!(path, "log.txt");
    assert!(create);
}

#[test]
fn network_target_is_not_supported() {
    assert!(!LogType::Network.is_supported());
    assert!(LogType::Console.is_supported());
    assert!(LogType::FileSystem.is_supported());
}

#[test]
fn console_debug_prints_record() {
    match plan_write(LogType::Console, LogLevel::Debug, "x") {
        LogAction::Print { line } => assert_eq!(line, "[DEBUG] x"),
        LogAction::Append { .. } => panic!("expected the console sink"),
    }
}

#[test]
fn open_failure_is_file_open_error() {
    let r = append_result(AppendOutcome::OpenFailed("denied".to_string()));
    assert_eq!(r, Err(LogError::FileOpenError("denied".to_string())));
}

#[test]
fn write_failure_is_file_write_error() {
    let r = append_result(AppendOutcome::WriteFailed("disk full".to_string()));
    assert_eq!(r, Err(LogError::FileWriteError("disk full".to_string())));
}

#[test]
fn written_line_is_ok() {
    assert_eq!(append_result(AppendOutcome::Written), Ok(()));
}
