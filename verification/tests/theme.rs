use dsh_desktop::theme::{read_theme_preference, theme_changed, theme_preference};

#[test]
fn reads_preference_of_theme_section() {
    let yaml = "model: x\nui-theme:\n  preference: dark\nother: 1\n";
    assert_eq!(theme_preference(yaml), "dark");
}

#[test]
fn strips_quotes_and_whitespace() {
    assert_eq!(theme_preference("ui-theme:\n  preference:   \"light\"  \n"), "light");
    assert_eq!(theme_preference("ui-theme:\r\n\tpreference: dark\r\n"), "dark");
    assert_eq!(theme_preference("  ui-theme:  \n preference:system"), "system");
    assert_eq!(theme_preference("ui-theme:\n  preference: \u{3000}dark\u{3000}\n"), "dark");
}

#[test]
fn missing_section_or_key_means_system() {
    assert_eq!(theme_preference(""), "system");
    assert_eq!(theme_preference("preference: dark\n"), "system");
    assert_eq!(theme_preference("ui-theme:\n  mode: x\nnext:\n  preference: dark\n"), "system");
    assert_eq!(read_theme_preference(None), "system");
}

#[test]
fn comments_and_blank_lines_do_not_end_section() {
    let yaml = "ui-theme:\n\n# note\n  # indented\n  preference: light\n";
    assert_eq!(theme_preference(yaml), "light");
    assert_eq!(read_theme_preference(Some(yaml)), "light");
}

#[test]
fn empty_preference_value() {
    assert_eq!(theme_preference("ui-theme:\n  preference: \"\"\n"), "");
}

#[test]
fn change_detection() {
    assert!(theme_changed(&None, "dark"));
    assert!(!theme_changed(&Some("dark".to_string()), "dark"));
    assert!(theme_changed(&Some("dark".to_string()), "light"));
}
