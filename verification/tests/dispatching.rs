use logger::plan_log;
use logger::plan_log_at;
use logger::time::now;
use logger::LogLevel;
use logger::LogType;
use logger::Logger;
use logger::Timestamp;

fn test_logger(level: LogLevel, path: &str) -> Logger {
    Logger { level, path: String::from(path) }
}

fn test_time() -> Timestamp {
    Timestamp { year: 2024, month: 2, day: 21, hour: 12, minute: 5, second: 51 }
}

/// `[TYPE] YYYY-MM-DD HH:MM:SS -> message`, with `TYPE` one of the four
/// category names and every `Y`, `M`, `D`, `H`, `S` a decimal digit.
fn matches_line_pattern(line: &str) -> bool {
    let rest = match ["[INFO] ", "[DEBUG] ", "[WARNING] ", "[ERROR] "]
        .iter()
        .find_map(|prefix| line.strip_prefix(prefix))
    {
        Some(rest) => rest,
        None => return false,
    };
    let bytes = rest.as_bytes();
    if bytes.len() < 20 || bytes[19] != b' ' {
        return false;
    }
    if !rest[19..].starts_with(" -> ") {
        return false;
    }
    for (i, b) in bytes[..19].iter().enumerate() {
        let ok = match i {
            4 | 7 => *b == b'-',
            10 => *b == b' ',
            13 | 16 => *b == b':',
            _ => b.is_ascii_digit(),
        };
        if !ok {
            return false;
        }
    }
    true
}

#[test]
fn warning_at_default_level_is_emitted_to_stdout_and_file() {
    let logger = test_logger(LogLevel::Default, "p.log");
    let plan = plan_log_at(&logger, "x", &LogType::Warning, None, &test_time())
        .expect("a warning must pass the default filter");
    assert!(plan.line.contains("[WARNING]"));
    assert!(plan.line.contains("x"));
    assert_eq!(plan.line, "[WARNING] 2024-02-21 12:05:51 -> x");
    assert!(!plan.to_stderr);
    assert_eq!(plan.file_path, Some(String::from("p.log")));
}

#[test]
fn info_at_default_level_is_suppressed() {
    let logger = test_logger(LogLevel::Default, "p.log");
    let plan = plan_log_at(&logger, "x", &LogType::Info, None, &test_time());
    assert!(plan.is_none());
}

#[test]
fn errors_only_suppresses_all_but_error() {
    let logger = test_logger(LogLevel::ErrorsOnly, "p.log");
    for t in [LogType::Info, LogType::Debug, LogType::Warning] {
        let plan = plan_log_at(&logger, "x", &t, None, &test_time());
        assert!(plan.is_none());
    }
    let plan = plan_log_at(&logger, "x", &LogType::Error, None, &test_time())
        .expect("an error must pass the errors-only filter");
    assert!(plan.line.contains("[ERROR]"));
    assert_eq!(plan.file_path, Some(String::from("p.log")));
}

#[test]
fn error_goes_to_stderr_others_to_stdout() {
    let logger = test_logger(LogLevel::Verbose, "");
    let error_plan = plan_log_at(&logger, "x", &LogType::Error, None, &test_time()).unwrap();
    assert!(error_plan.to_stderr);
    for t in [LogType::Info, LogType::Debug, LogType::Warning] {
        let plan = plan_log_at(&logger, "x", &t, None, &test_time()).unwrap();
        assert!(!plan.to_stderr);
    }
}

#[test]
fn override_path_wins_over_the_configured_default() {
    let logger = test_logger(LogLevel::Default, "p.log");
    let plan = plan_log_at(&logger, "x", &LogType::Error, Some("q.log"), &test_time()).unwrap();
    assert_eq!(plan.file_path, Some(String::from("q.log")));
}

#[test]
fn empty_override_path_disables_the_file_sink() {
    let logger = test_logger(LogLevel::Default, "p.log");
    let plan = plan_log_at(&logger, "x", &LogType::Error, Some(""), &test_time()).unwrap();
    assert_eq!(plan.file_path, None);
}

#[test]
fn empty_default_path_without_override_disables_the_file_sink() {
    let logger = test_logger(LogLevel::Default, "");
    let plan = plan_log_at(&logger, "x", &LogType::Warning, None, &test_time()).unwrap();
    assert_eq!(plan.file_path, None);
}

#[test]
fn planned_line_matches_the_output_pattern() {
    let logger = test_logger(LogLevel::Verbose, "");
    for t in [LogType::Info, LogType::Debug, LogType::Warning, LogType::Error] {
        let plan = plan_log(&logger, "a message", &t, None).unwrap();
        assert!(matches_line_pattern(&plan.line), "bad line: {}", plan.line);
        assert!(plan.line.ends_with(" -> a message"));
    }
}

#[test]
fn current_time_has_calendar_fields_in_range() {
    let ts = now();
    assert!((1..=12).contains(&ts.month));
    assert!((1..=31).contains(&ts.day));
    assert!(ts.hour < 24);
    assert!(ts.minute < 60);
    assert!(ts.second < 60);
    assert!(ts.year >= 2024);
}
