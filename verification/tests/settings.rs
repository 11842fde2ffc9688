use target_backtrace::settings::{InvalidBacktraceOption, DEFAULT_BACKTRACE_LIMIT};
use target_backtrace::{BacktraceOptions, Settings};

#[test]
fn options_are_read_in_lower_case() {
    assert_eq!(BacktraceOptions::parse("auto"), Ok(BacktraceOptions::Auto));
    assert_eq!(BacktraceOptions::parse("never"), Ok(BacktraceOptions::Never));
    assert_eq!(BacktraceOptions::parse("always"), Ok(BacktraceOptions::Always));
}

#[test]
fn options_are_read_with_a_capital() {
    assert_eq!(BacktraceOptions::parse("Auto"), Ok(BacktraceOptions::Auto));
    assert_eq!(BacktraceOptions::parse("Never"), Ok(BacktraceOptions::Never));
    assert_eq!(BacktraceOptions::parse("Always"), Ok(BacktraceOptions::Always));
}

#[test]
fn options_are_read_in_any_case() {
    assert_eq!(BacktraceOptions::parse("AUTO"), Ok(BacktraceOptions::Auto));
    assert_eq!(BacktraceOptions::parse("nEvEr"), Ok(BacktraceOptions::Never));
    assert_eq!(BacktraceOptions::parse("ALWAYs"), Ok(BacktraceOptions::Always));
}

#[test]
fn other_texts_are_no_option() {
    assert_eq!(BacktraceOptions::parse(""), Err(InvalidBacktraceOption));
    assert_eq!(BacktraceOptions::parse("sometimes"), Err(InvalidBacktraceOption));
    assert_eq!(BacktraceOptions::parse("auto "), Err(InvalidBacktraceOption));
    assert_eq!(BacktraceOptions::parse(" auto"), Err(InvalidBacktraceOption));
    assert_eq!(BacktraceOptions::parse("aut"), Err(InvalidBacktraceOption));
    assert_eq!(BacktraceOptions::parse("autos"), Err(InvalidBacktraceOption));
    assert_eq!(BacktraceOptions::parse("nevar"), Err(InvalidBacktraceOption));
    assert_eq!(BacktraceOptions::parse("\u{e4}uto"), Err(InvalidBacktraceOption));
}

#[test]
fn options_convert_from_a_string() {
    assert_eq!(BacktraceOptions::try_from(&"always".to_string()), Ok(BacktraceOptions::Always));
    assert_eq!(BacktraceOptions::try_from(&"Never".to_string()), Ok(BacktraceOptions::Never));
    assert_eq!(BacktraceOptions::try_from(&"off".to_string()), Err(InvalidBacktraceOption));
}

#[test]
fn invalid_option_names_the_valid_ones() {
    assert_eq!(
        InvalidBacktraceOption.message(),
        "options for `--backtrace` are `auto`, `never`, `always`."
    );
}

#[test]
fn default_option_is_auto() {
    assert_eq!(BacktraceOptions::default(), BacktraceOptions::Auto);
}

#[test]
fn default_settings_show_fifty_frames_on_demand() {
    let settings = Settings::new("/home/user/project".to_string());
    assert_eq!(DEFAULT_BACKTRACE_LIMIT, 50);
    assert_eq!(settings.current_dir, "/home/user/project");
    assert_eq!(settings.backtrace, BacktraceOptions::Auto);
    assert_eq!(settings.backtrace_limit, 50);
    assert!(!settings.shorten_paths);
}
