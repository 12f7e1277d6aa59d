use logger::severity::should_emit;
use logger::LogLevel;
use logger::LogType;

#[test]
fn verbose_emits_every_category() {
    assert!(should_emit(&LogLevel::Verbose, &LogType::Info));
    assert!(should_emit(&LogLevel::Verbose, &LogType::Debug));
    assert!(should_emit(&LogLevel::Verbose, &LogType::Warning));
    assert!(should_emit(&LogLevel::Verbose, &LogType::Error));
}

#[test]
fn debug_suppresses_only_info() {
    assert!(!should_emit(&LogLevel::Debug, &LogType::Info));
    assert!(should_emit(&LogLevel::Debug, &LogType::Debug));
    assert!(should_emit(&LogLevel::Debug, &LogType::Warning));
    assert!(should_emit(&LogLevel::Debug, &LogType::Error));
}

#[test]
fn default_emits_only_warning_and_error() {
    assert!(!should_emit(&LogLevel::Default, &LogType::Info));
    assert!(!should_emit(&LogLevel::Default, &LogType::Debug));
    assert!(should_emit(&LogLevel::Default, &LogType::Warning));
    assert!(should_emit(&LogLevel::Default, &LogType::Error));
}

#[test]
fn errors_only_emits_only_error() {
    assert!(!should_emit(&LogLevel::ErrorsOnly, &LogType::Info));
    assert!(!should_emit(&LogLevel::ErrorsOnly, &LogType::Debug));
    assert!(!should_emit(&LogLevel::ErrorsOnly, &LogType::Warning));
    assert!(should_emit(&LogLevel::ErrorsOnly, &LogType::Error));
}

#[test]
fn display_names_are_the_uppercase_category_names() {
    assert_eq!(LogType::Info.display_name(), "INFO");
    assert_eq!(LogType::Debug.display_name(), "DEBUG");
    assert_eq!(LogType::Warning.display_name(), "WARNING");
    assert_eq!(LogType::Error.display_name(), "ERROR");
}
