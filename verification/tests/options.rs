use rudder::options::{LogLevel, Options};
use rudder::path::FilePath;

#[test]
fn an_empty_command_line_has_default_options() {
    let options = Options::default();
    assert_eq!(options.config_file, FilePath::from_text("/opt/rudder/etc/rudderc.conf"));
    assert_eq!(options.input, None);
    assert_eq!(options.output, None);
    assert_eq!(options.log_level, LogLevel::Warn);
    assert!(!options.stdin && !options.stdout && !options.json_logs && !options.backtrace);
    assert_eq!(options.clone(), options);
}

#[test]
fn log_levels_are_found_by_their_names() {
    for (name, level) in [
        ("off", LogLevel::Off),
        ("trace", LogLevel::Trace),
        ("debug", LogLevel::Debug),
        ("info", LogLevel::Info),
        ("warn", LogLevel::Warn),
        ("error", LogLevel::Error),
    ] {
        assert_eq!(LogLevel::from_name(&name.to_owned()), Some(level));
    }
    assert_eq!(LogLevel::from_name(&"verbose".to_owned()), None);
    assert_eq!(LogLevel::from_name(&"Warn".to_owned()), None);
}
