use windows_record::logger::{
    combine_flushes, combine_writes, file_name_with, line_with, log_file_name, log_line, Level,
    LevelFilter, LoggerConfig, LoggerState,
};

#[test]
fn settings_of_the_logger() {
    let config = LoggerConfig::new();
    assert!(config.enabled);
    assert_eq!(config.log_dir, None);
    assert_eq!(config.log_level, LevelFilter::Debug);
    let config = config.with_log_dir("logs").with_log_level(LevelFilter::Warn).disable_logging();
    assert!(!config.enabled);
    assert_eq!(config.log_dir, Some("logs".to_string()));
    assert_eq!(config.log_level, LevelFilter::Warn);
}

#[test]
fn the_logger_is_set_up_once() {
    let mut state = LoggerState::new();
    match state.setup_logger(LoggerConfig::new().with_log_dir("logs")) {
        Ok(Some(plan)) => {
            assert_eq!(plan.log_dir, Some("logs".to_string()));
            assert_eq!(plan.log_level, LevelFilter::Debug);
        }
        _ => panic!("no plan"),
    }
    assert!(!state.initialized);
    state.complete_setup();
    match state.setup_logger(LoggerConfig::new()) {
        Err(reason) => assert_eq!(reason, "Logger already initialized"),
        _ => panic!("set up twice"),
    }
    assert!(matches!(state.setup_logger(LoggerConfig::new().disable_logging()), Ok(None)));
}

#[test]
fn a_disabled_logger_counts_as_set_up() {
    let mut state = LoggerState::new();
    assert!(matches!(state.setup_logger(LoggerConfig::new().disable_logging()), Ok(None)));
    assert!(state.initialized);
    assert!(state.setup_logger(LoggerConfig::new()).is_err());
}

#[test]
fn log_files_carry_their_time() {
    assert_eq!(
        log_file_name(1431648000, 0),
        Some("application_log_2015-05-15_00-00-00.txt".to_string())
    );
    assert_eq!(log_file_name(i64::MAX, 0), None);
    assert_eq!(file_name_with("T"), "application_log_T.txt");
}

#[test]
fn log_lines_carry_time_level_and_message() {
    assert_eq!(
        log_line(1431648000 + 3661, 45_600_000, Level::Warn, "careful"),
        Some("2015-05-15 01:01:01.045 [WARN] - careful\n".to_string())
    );
    assert_eq!(log_line(0, 2_000_000_000, Level::Warn, "careful"), None);
    let names = [
        (Level::Error, "ERROR"),
        (Level::Warn, "WARN"),
        (Level::Info, "INFO"),
        (Level::Debug, "DEBUG"),
        (Level::Trace, "TRACE"),
    ];
    for (level, name) in names {
        assert_eq!(line_with("T", level, "m"), format!("T [{}] - m\n", name));
    }
}

#[test]
fn the_output_that_took_more_counts() {
    assert_eq!(combine_writes(Some(3), Some(5)), Ok(5));
    assert_eq!(combine_writes(Some(7), Some(5)), Ok(7));
    assert_eq!(combine_writes(None, Some(5)), Ok(5));
    assert_eq!(combine_writes(Some(4), None), Ok(4));
    assert_eq!(combine_writes(None, None), Err("Failed to write to any output".to_string()));
    assert_eq!(combine_writes(Some(0), None), Err("Failed to write to any output".to_string()));
}

#[test]
fn every_output_must_be_flushed() {
    assert_eq!(combine_flushes(false, false), Ok(()));
    let failed = Err("Failed to flush one or more outputs".to_string());
    assert_eq!(combine_flushes(true, false), failed);
    assert_eq!(combine_flushes(false, true), failed);
}
