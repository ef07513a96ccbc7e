use pickme::color::Color;
use pickme::style::{emphasis_of, has_keyword, to_display_color, Emphasis, FormatMode, StyleRule, TextStyle};

const COLOR: Color = Color { r: 10, g: 20, b: 30 };
const DARK: Color = Color { r: 3, g: 6, b: 10 };

fn words(list: &[&str]) -> Vec<String> {
    list.iter().map(|w| w.to_string()).collect()
}

fn mode(foreground: &str, background: &str, markdown: &[&str]) -> FormatMode {
    FormatMode {
        foreground: foreground.to_string(),
        background: background.to_string(),
        markdown: words(markdown),
    }
}

fn shown(emphasis: Emphasis) -> Option<Color> {
    match emphasis {
        Emphasis::Bright => Some(COLOR),
        Emphasis::Dark => Some(DARK),
        Emphasis::Plain => None,
    }
}

#[test]
fn display_color_by_emphasis() {
    assert_eq!(to_display_color(COLOR, Emphasis::Bright), Some(COLOR));
    assert_eq!(to_display_color(COLOR, Emphasis::Dark), Some(DARK));
    assert_eq!(to_display_color(COLOR, Emphasis::Plain), None);
}

#[test]
fn dark_foreground_and_bold() {
    let rule = StyleRule {
        foreground: Emphasis::Dark,
        background: Emphasis::Plain,
        bold: true,
        italic: false,
    };
    assert_eq!(
        rule.color_spec(COLOR),
        TextStyle { foreground: Some(DARK), background: None, bold: true, italic: false }
    );
}

#[test]
fn every_rule_maps_to_its_attributes() {
    let all = [Emphasis::Bright, Emphasis::Dark, Emphasis::Plain];
    let mut seen = 0;
    for foreground in all {
        for background in all {
            for bold in [false, true] {
                for italic in [false, true] {
                    let rule = StyleRule { foreground, background, bold, italic };
                    let expected = TextStyle {
                        foreground: shown(foreground),
                        background: shown(background),
                        bold,
                        italic,
                    };
                    assert_eq!(rule.color_spec(COLOR), expected);
                    assert_eq!(rule.color_spec(COLOR), rule.color_spec(COLOR));
                    seen += 1;
                }
            }
        }
    }
    assert_eq!(seen, 36);
}

#[test]
fn every_profile_maps_to_its_attributes() {
    let names = [("bright", Emphasis::Bright), ("dark", Emphasis::Dark), ("none", Emphasis::Plain)];
    let keywords: [(&[&str], bool, bool); 4] = [
        (&[], false, false),
        (&["bold"], true, false),
        (&["italic"], false, true),
        (&["italic", "bold"], true, true),
    ];
    for (foreground, fg) in names {
        for (background, bg) in names {
            for (markdown, bold, italic) in keywords {
                let profile = mode(foreground, background, markdown);
                assert_eq!(
                    profile.style_rule(),
                    StyleRule { foreground: fg, background: bg, bold, italic }
                );
                assert_eq!(
                    profile.color_spec(COLOR),
                    TextStyle { foreground: shown(fg), background: shown(bg), bold, italic }
                );
            }
        }
    }
}

#[test]
fn emphasis_by_name() {
    assert_eq!(emphasis_of(&"bright".to_string()), Emphasis::Bright);
    assert_eq!(emphasis_of(&"dark".to_string()), Emphasis::Dark);
    assert_eq!(emphasis_of(&"none".to_string()), Emphasis::Plain);
}

#[test]
fn an_unknown_or_absent_name_is_no_emphasis() {
    assert_eq!(emphasis_of(&"".to_string()), Emphasis::Plain);
    assert_eq!(emphasis_of(&"Bright".to_string()), Emphasis::Plain);
    assert_eq!(emphasis_of(&"dark ".to_string()), Emphasis::Plain);
    assert_eq!(emphasis_of(&"brigh".to_string()), Emphasis::Plain);
    assert_eq!(emphasis_of(&"darker".to_string()), Emphasis::Plain);
}

#[test]
fn keywords_are_found_as_whole_words() {
    assert!(has_keyword(&words(&["bold"]), "bold"));
    assert!(has_keyword(&words(&["italic", "bold"]), "bold"));
    assert!(has_keyword(&words(&["bold", "bold"]), "bold"));
    assert!(!has_keyword(&words(&[]), "bold"));
    assert!(!has_keyword(&words(&["italic"]), "bold"));
    assert!(!has_keyword(&words(&["bolder", "bol", "BOLD"]), "bold"));
}

#[test]
fn other_keywords_count_for_nothing() {
    let profile = mode("bright", "dark", &["underline", "strike"]);
    assert_eq!(
        profile.color_spec(COLOR),
        TextStyle { foreground: Some(COLOR), background: Some(DARK), bold: false, italic: false }
    );
}

#[test]
fn the_default_profile_is_bright_foreground_only() {
    let profile = FormatMode::default();
    assert_eq!(profile, mode("bright", "none", &[]));
    assert_eq!(
        profile.style_rule(),
        StyleRule {
            foreground: Emphasis::Bright,
            background: Emphasis::Plain,
            bold: false,
            italic: false
        }
    );
}
