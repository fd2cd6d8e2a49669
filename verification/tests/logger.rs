use obs_wrapper::log::{
    to_native_level, Level, LevelFilter, LogLine, Logger, LOG_DEBUG, LOG_ERROR, LOG_INFO,
    LOG_WARNING,
};

#[test]
fn new_logger_filters_at_info_and_promotes_nothing() {
    let logger = Logger::new();
    assert_eq!(logger.max_level, LevelFilter::Info);
    assert!(!logger.promote_debug);
    assert_eq!(logger, Logger::default());
}

#[test]
fn builders_change_one_setting() {
    let logger = Logger::new().with_promote_debug(true);
    assert_eq!(logger, Logger { max_level: LevelFilter::Info, promote_debug: true });
    let logger = logger.with_max_level(LevelFilter::Trace);
    assert_eq!(logger, Logger { max_level: LevelFilter::Trace, promote_debug: true });
    let logger = logger.with_promote_debug(false);
    assert_eq!(logger, Logger { max_level: LevelFilter::Trace, promote_debug: false });
}

#[test]
fn native_levels() {
    assert_eq!((LOG_ERROR, LOG_WARNING, LOG_INFO, LOG_DEBUG), (100, 200, 300, 400));
    for promote in [false, true] {
        assert_eq!(to_native_level(Level::Error, promote), 100);
        assert_eq!(to_native_level(Level::Warn, promote), 200);
        assert_eq!(to_native_level(Level::Info, promote), 300);
    }
    assert_eq!(to_native_level(Level::Debug, false), 400);
    assert_eq!(to_native_level(Level::Trace, false), 400);
    assert_eq!(to_native_level(Level::Debug, true), 300);
    assert_eq!(to_native_level(Level::Trace, true), 300);
}

#[test]
fn enabled_compares_the_places_of_level_and_filter() {
    let logger = Logger::new();
    assert!(!logger.enabled(Level::Error));
    assert!(!logger.enabled(Level::Warn));
    assert!(logger.enabled(Level::Info));
    assert!(logger.enabled(Level::Debug));
    assert!(logger.enabled(Level::Trace));
    let off = Logger::new().with_max_level(LevelFilter::Off);
    assert!(off.enabled(Level::Error));
    assert!(off.enabled(Level::Trace));
    let trace = Logger::new().with_max_level(LevelFilter::Trace);
    assert!(!trace.enabled(Level::Debug));
    assert!(trace.enabled(Level::Trace));
    let error = Logger::new().with_max_level(LevelFilter::Error);
    assert!(error.enabled(Level::Error));
}

#[test]
fn line_has_target_message_and_terminator() {
    let logger = Logger::new();
    assert_eq!(
        logger.log(Level::Info, "plugin", None, "started"),
        Some(LogLine { native_level: 300, line: String::from("[plugin] started\0") })
    );
    assert_eq!(
        logger.log(Level::Debug, "plugin", Some("plugin::inner"), "x = 1"),
        Some(LogLine { native_level: 400, line: String::from("[plugin] x = 1\0") })
    );
    assert_eq!(logger.log(Level::Error, "plugin", None, "hidden"), None);
    assert_eq!(logger.log(Level::Warn, "plugin", None, "hidden"), None);
}

#[test]
fn line_falls_back_to_the_module_and_then_to_nothing() {
    let logger = Logger::new();
    assert_eq!(
        logger.log(Level::Info, "", Some("my::module"), "m").unwrap().line,
        "[my::module] m\0"
    );
    assert_eq!(logger.log(Level::Info, "", None, "m").unwrap().line, "[] m\0");
    assert_eq!(logger.log(Level::Info, "", Some(""), "").unwrap().line, "[] \0");
}

#[test]
fn promoted_lines_start_with_the_level_except_for_traces() {
    let logger = Logger::new().with_promote_debug(true).with_max_level(LevelFilter::Off);
    assert_eq!(
        logger.log(Level::Debug, "t", None, "m"),
        Some(LogLine { native_level: 300, line: String::from("(DEBUG) [t] m\0") })
    );
    assert_eq!(logger.log(Level::Error, "t", None, "m").unwrap().line, "(ERROR) [t] m\0");
    assert_eq!(logger.log(Level::Warn, "t", None, "m").unwrap().line, "(WARN) [t] m\0");
    assert_eq!(logger.log(Level::Info, "t", None, "m").unwrap().line, "(INFO) [t] m\0");
    assert_eq!(
        logger.log(Level::Trace, "t", None, "m"),
        Some(LogLine { native_level: 300, line: String::from("[t] m\0") })
    );
    assert_eq!(Level::Trace.as_str(), "TRACE");
}
