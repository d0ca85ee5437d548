use owo_colors::{AnsiColors, DynColors};
use punfetch::options::{parse_color, ColorMode, ShowLogo};

#[test]
fn color_modes() {
    assert_eq!(ColorMode::HEX.mode(), Some(true));
    assert_eq!(ColorMode::ANSI.mode(), Some(false));
    assert_eq!(ColorMode::NONE.mode(), None);
}

#[test]
fn logo_shown_by_terminal_width() {
    assert!(ShowLogo::Always.should_show(None));
    assert!(!ShowLogo::Never.should_show(Some(200)));
    assert!(ShowLogo::Auto.should_show(Some(96)));
    assert!(!ShowLogo::Auto.should_show(Some(95)));
    assert!(!ShowLogo::Auto.should_show(None));
}

#[test]
fn colors_parse_from_names_and_hex() {
    assert_eq!(parse_color("red"), Some(DynColors::Ansi(AnsiColors::Red)));
    assert_eq!(parse_color("purple"), Some(DynColors::Ansi(AnsiColors::Magenta)));
    assert_eq!(parse_color("bright cyan"), Some(DynColors::Ansi(AnsiColors::BrightCyan)));
    assert_eq!(parse_color("#1a2B3c"), Some(DynColors::Rgb(0x1a, 0x2b, 0x3c)));
    assert_eq!(parse_color("#fff"), None);
    assert_eq!(parse_color("#12345g"), None);
    assert_eq!(parse_color("Red"), None);
    assert_eq!(parse_color(""), None);
    assert_eq!(parse_color("#1\u{e9}234"), None);
}
