use logger::set_level;
use logger::set_path;
use logger::LogLevel;
use logger::Logger;

#[test]
fn calling_set_level_sets_level() {
    let mut logger = Logger::new();
    set_level(&mut logger, LogLevel::Debug);
    assert_eq!(logger.level, LogLevel::Debug);
}

#[test]
fn calling_set_path_sets_path() {
    let mut logger = Logger::new();
    set_path(
        &mut logger,
        String::from("/home/jordan/projects/rust/logger/target/debug/test/test.log"),
    );
    assert_eq!(
        logger.path,
        "/home/jordan/projects/rust/logger/target/debug/test/test.log"
    );
}

#[test]
fn new_logger_has_default_level_and_no_path() {
    let logger = Logger::new();
    assert_eq!(logger.level, LogLevel::Default);
    assert_eq!(logger.path, "");
}

#[test]
fn set_level_returns_each_just_set_value() {
    let mut logger = Logger::new();
    for level in [
        LogLevel::Verbose,
        LogLevel::Debug,
        LogLevel::Default,
        LogLevel::ErrorsOnly,
    ] {
        set_level(&mut logger, level);
        assert_eq!(logger.level, level);
    }
}

#[test]
fn set_level_leaves_path_untouched() {
    let mut logger = Logger::new();
    set_path(&mut logger, String::from("a.log"));
    set_level(&mut logger, LogLevel::Verbose);
    assert_eq!(logger.path, "a.log");
}

#[test]
fn set_path_returns_just_set_value_including_empty() {
    let mut logger = Logger::new();
    set_path(&mut logger, String::from("some/dir/out.log"));
    assert_eq!(logger.path, "some/dir/out.log");
    set_path(&mut logger, String::new());
    assert_eq!(logger.path, "");
}

#[test]
fn set_path_leaves_level_untouched() {
    let mut logger = Logger::new();
    set_level(&mut logger, LogLevel::ErrorsOnly);
    set_path(&mut logger, String::from("b.log"));
    assert_eq!(logger.level, LogLevel::ErrorsOnly);
}
