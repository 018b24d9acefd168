use odt2pdf::logger::{format_log_line, level_filter_from_name, level_name, LogLevel};

#[test]
fn level_names_select_levels() {
    assert_eq!(level_filter_from_name("error"), LogLevel::Error);
    assert_eq!(level_filter_from_name("warn"), LogLevel::Warn);
    assert_eq!(level_filter_from_name("info"), LogLevel::Info);
    assert_eq!(level_filter_from_name("debug"), LogLevel::Debug);
    assert_eq!(level_filter_from_name("trace"), LogLevel::Trace);
}

#[test]
fn unknown_level_name_selects_warn() {
    assert_eq!(level_filter_from_name("verbose"), LogLevel::Warn);
    assert_eq!(level_filter_from_name("ERROR"), LogLevel::Warn);
    assert_eq!(level_filter_from_name(""), LogLevel::Warn);
}

#[test]
fn log_line_format() {
    assert_eq!(
        format_log_line("2016-01-02][03:04:05", LogLevel::Info, "started"),
        "[2016-01-02][03:04:05][INFO] started"
    );
    assert_eq!(level_name(LogLevel::Trace), "TRACE");
}
