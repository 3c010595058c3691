use shell_scene::logging::level_filter;
use shell_scene::logging::level_name;
use shell_scene::logging::LogLevel;

#[test]
fn verbose_flag_wins() {
    assert_eq!(level_name(true, Some("error".to_string()), Some("trace".to_string())), "debug");
    assert_eq!(level_name(true, None, None), "debug");
}

#[test]
fn command_line_wins_over_environment() {
    assert_eq!(level_name(false, Some("error".to_string()), Some("trace".to_string())), "error");
    assert_eq!(level_name(false, Some("warn".to_string()), None), "warn");
}

#[test]
fn environment_is_used_where_nothing_else_is_given() {
    assert_eq!(level_name(false, None, Some("trace".to_string())), "trace");
}

#[test]
fn level_defaults_to_info() {
    assert_eq!(level_name(false, None, None), "info");
}

#[test]
fn level_names_are_parsed() {
    assert_eq!(level_filter("off"), LogLevel::Off);
    assert_eq!(level_filter("error"), LogLevel::Error);
    assert_eq!(level_filter("warn"), LogLevel::Warn);
    assert_eq!(level_filter("info"), LogLevel::Info);
    assert_eq!(level_filter("debug"), LogLevel::Debug);
    assert_eq!(level_filter("trace"), LogLevel::Trace);
}

#[test]
fn level_names_are_parsed_in_any_case() {
    assert_eq!(level_filter("DEBUG"), LogLevel::Debug);
    assert_eq!(level_filter("TrAcE"), LogLevel::Trace);
    assert_eq!(level_filter("Off"), LogLevel::Off);
}

#[test]
fn unknown_level_name_means_info() {
    assert_eq!(level_filter(""), LogLevel::Info);
    assert_eq!(level_filter("verbose"), LogLevel::Info);
    assert_eq!(level_filter("debug "), LogLevel::Info);
    assert_eq!(level_filter("shell_scene=debug"), LogLevel::Info);
}
