use common_display::config::{
    bold_headers_from, DisplayConfig, BOLD_TABLE_HEADERS_IN_DISPLAY, DEFAULT_WIDTH_IF_NO_TTY,
};

#[test]
fn headers_are_bold_unless_switched_off() {
    assert!(bold_headers_from(None));
    assert!(bold_headers_from(Some("1")));
    assert!(!bold_headers_from(Some("0")));
    assert!(!bold_headers_from(Some("")));
    assert!(!bold_headers_from(Some("11")));
    assert!(!bold_headers_from(Some("true")));
    assert_eq!(BOLD_TABLE_HEADERS_IN_DISPLAY, "DAFT_BOLD_TABLE_HEADERS");
}

#[test]
fn default_width_applies_without_terminal_and_width() {
    assert_eq!(DEFAULT_WIDTH_IF_NO_TTY, 120);
    let config = DisplayConfig::default();
    assert!(config.bold_headers);
    assert!(!config.interactive);
    assert_eq!(config.width, None);
    assert!(config.has_width());
    assert_eq!(config.terminal_width(), 120);
}

#[test]
fn a_known_width_is_used_as_it_is() {
    let piped = DisplayConfig { bold_headers: true, interactive: false, width: Some(200) };
    assert!(piped.has_width());
    assert_eq!(piped.terminal_width(), 200);
    let terminal = DisplayConfig { bold_headers: false, interactive: true, width: Some(80) };
    assert!(terminal.has_width());
    assert_eq!(terminal.terminal_width(), 80);
}

#[test]
fn an_interactive_output_without_width_has_none() {
    let config = DisplayConfig { bold_headers: true, interactive: true, width: None };
    assert!(!config.has_width());
}
