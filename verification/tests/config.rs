use pickme::config::{Config, ConfigError};
use pickme::style::FormatMode;

fn mode(foreground: &str, background: &str, markdown: &[&str]) -> FormatMode {
    FormatMode {
        foreground: foreground.to_string(),
        background: background.to_string(),
        markdown: markdown.iter().map(|w| w.to_string()).collect(),
    }
}

#[test]
fn the_default_configuration() {
    let config = Config::default();
    assert_eq!(config.stop_buttons(), &vec![3, 4, 5]);
    assert_eq!(config.normal(), &mode("bright", "none", &[]));
    assert_eq!(config.selected(), &mode("bright", "none", &["bold"]));
    assert_eq!(config.selected_formatting(), "> {hex} <");
}

#[test]
fn a_configuration_keeps_its_parts() {
    let config = Config::new(
        vec![1, 2],
        mode("dark", "bright", &["italic"]),
        mode("none", "dark", &["bold", "italic"]),
        "picked {hex}".to_string(),
    )
    .unwrap();
    assert_eq!(config.stop_buttons(), &vec![1, 2]);
    assert_eq!(config.normal(), &mode("dark", "bright", &["italic"]));
    assert_eq!(config.selected(), &mode("none", "dark", &["bold", "italic"]));
    assert_eq!(config.selected_formatting(), "picked {hex}");
}

#[test]
fn a_configuration_needs_a_stop_button() {
    let made = Config::new(vec![], FormatMode::default(), FormatMode::default(), "{hex}".to_string());
    assert_eq!(made.err(), Some(ConfigError::NoStopButtons));
}

#[test]
fn a_configuration_needs_one_slot_in_its_template() {
    let none = Config::new(vec![3], FormatMode::default(), FormatMode::default(), "> {} <".to_string());
    assert_eq!(none.err(), Some(ConfigError::BadTemplate));
    let two =
        Config::new(vec![3], FormatMode::default(), FormatMode::default(), "{hex}{hex}".to_string());
    assert_eq!(two.err(), Some(ConfigError::BadTemplate));
}

#[test]
fn a_missing_stop_button_is_reported_first() {
    let made = Config::new(vec![], FormatMode::default(), FormatMode::default(), "".to_string());
    assert_eq!(made.err(), Some(ConfigError::NoStopButtons));
}
