use fedistar::logging::{level_named, log_level, LogLevel};

#[test]
fn the_level_is_read_in_any_case() {
    assert_eq!(log_level(Some("error")), LogLevel::Error);
    assert_eq!(log_level(Some("ERROR")), LogLevel::Error);
    assert_eq!(log_level(Some("Warn")), LogLevel::Warn);
    assert_eq!(log_level(Some("info")), LogLevel::Info);
    assert_eq!(log_level(Some("DeBuG")), LogLevel::Debug);
    assert_eq!(log_level(Some("TRACE")), LogLevel::Trace);
}

#[test]
fn an_unknown_or_missing_level_is_info() {
    assert_eq!(log_level(None), LogLevel::Info);
    assert_eq!(log_level(Some("")), LogLevel::Info);
    assert_eq!(log_level(Some("verbose")), LogLevel::Info);
    assert_eq!(log_level(Some(" error")), LogLevel::Info);
}

#[test]
fn a_name_is_taken_as_it_stands() {
    assert_eq!(level_named("error"), LogLevel::Error);
    assert_eq!(level_named("warn"), LogLevel::Warn);
    assert_eq!(level_named("info"), LogLevel::Info);
    assert_eq!(level_named("debug"), LogLevel::Debug);
    assert_eq!(level_named("trace"), LogLevel::Trace);
    assert_eq!(level_named("ERROR"), LogLevel::Info);
    assert_eq!(level_named("other"), LogLevel::Info);
}
