use term_color::Color;
use term_color::NameNotRecognized;

#[test]
fn parse_every_name() {
    assert_eq!(Ok(Color::Black), Color::parse("black"));
    assert_eq!(Ok(Color::Red), Color::parse("red"));
    assert_eq!(Ok(Color::Green), Color::parse("green"));
    assert_eq!(Ok(Color::Yellow), Color::parse("yellow"));
    assert_eq!(Ok(Color::Blue), Color::parse("blue"));
    assert_eq!(Ok(Color::Magenta), Color::parse("magenta"));
    assert_eq!(Ok(Color::Cyan), Color::parse("cyan"));
    assert_eq!(Ok(Color::White), Color::parse("white"));
    assert_eq!(Ok(Color::BrightBlack), Color::parse("bright black"));
    assert_eq!(Ok(Color::BrightRed), Color::parse("bright red"));
    assert_eq!(Ok(Color::BrightGreen), Color::parse("bright green"));
    assert_eq!(Ok(Color::BrightYellow), Color::parse("bright yellow"));
    assert_eq!(Ok(Color::BrightBlue), Color::parse("bright blue"));
    assert_eq!(Ok(Color::BrightMagenta), Color::parse("bright magenta"));
    assert_eq!(Ok(Color::BrightCyan), Color::parse("bright cyan"));
    assert_eq!(Ok(Color::BrightWhite), Color::parse("bright white"));
}

#[test]
fn parse_any_casing() {
    assert_eq!(Ok(Color::Blue), Color::parse("BLUE"));
    assert_eq!(Ok(Color::Blue), Color::parse("bLuE"));
    assert_eq!(Ok(Color::Blue), Color::parse("Blue"));
    assert_eq!(Ok(Color::BrightMagenta), Color::parse("BRIGHT MAGENTA"));
    assert_eq!(Ok(Color::BrightMagenta), Color::parse("BrIgHt MaGeNtA"));
    assert_eq!(Ok(Color::Black), Color::parse("Black"));
}

#[test]
fn parse_purple_synonym() {
    assert_eq!(Ok(Color::Magenta), Color::parse("purple"));
    assert_eq!(Ok(Color::Magenta), Color::parse("PURPLE"));
}

#[test]
fn parse_unknown_rejected() {
    assert_eq!(Err(NameNotRecognized), Color::parse(""));
    assert_eq!(Err(NameNotRecognized), Color::parse("not-a-color"));
    assert_eq!(Err(NameNotRecognized), Color::parse("blue "));
    assert_eq!(Err(NameNotRecognized), Color::parse("bright  blue"));
    assert_eq!(Err(NameNotRecognized), Color::parse("34"));
    assert_eq!(Err(NameNotRecognized), Color::parse("38;5;1"));
}

#[test]
fn default_on_failure_is_white() {
    assert_eq!(Color::White, Color::from_str_or_default(""));
    assert_eq!(Color::White, Color::from_str_or_default("not-a-color"));
    assert_eq!(Color::White, Color::from_str_or_default("blue "));
    assert_eq!(Color::White, Color::from_str_or_default("34"));
    assert_eq!(Color::Blue, Color::from_str_or_default("blue"));
}

#[test]
fn foreground_codes_table() {
    assert_eq!("30", Color::parse("black").unwrap().to_fg_str());
    assert_eq!("31", Color::parse("red").unwrap().to_fg_str());
    assert_eq!("32", Color::parse("green").unwrap().to_fg_str());
    assert_eq!("33", Color::parse("yellow").unwrap().to_fg_str());
    assert_eq!("34", Color::parse("blue").unwrap().to_fg_str());
    assert_eq!("35", Color::parse("magenta").unwrap().to_fg_str());
    assert_eq!("36", Color::parse("cyan").unwrap().to_fg_str());
    assert_eq!("37", Color::parse("white").unwrap().to_fg_str());
    assert_eq!("90", Color::parse("bright black").unwrap().to_fg_str());
    assert_eq!("91", Color::parse("bright red").unwrap().to_fg_str());
    assert_eq!("92", Color::parse("bright green").unwrap().to_fg_str());
    assert_eq!("93", Color::parse("bright yellow").unwrap().to_fg_str());
    assert_eq!("94", Color::parse("bright blue").unwrap().to_fg_str());
    assert_eq!("95", Color::parse("bright magenta").unwrap().to_fg_str());
    assert_eq!("96", Color::parse("bright cyan").unwrap().to_fg_str());
    assert_eq!("97", Color::parse("bright white").unwrap().to_fg_str());
}

#[test]
fn background_codes_table() {
    assert_eq!("40", Color::Black.to_bg_str());
    assert_eq!("41", Color::Red.to_bg_str());
    assert_eq!("42", Color::Green.to_bg_str());
    assert_eq!("43", Color::Yellow.to_bg_str());
    assert_eq!("44", Color::Blue.to_bg_str());
    assert_eq!("45", Color::Magenta.to_bg_str());
    assert_eq!("46", Color::Cyan.to_bg_str());
    assert_eq!("47", Color::White.to_bg_str());
    assert_eq!("100", Color::BrightBlack.to_bg_str());
    assert_eq!("101", Color::BrightRed.to_bg_str());
    assert_eq!("102", Color::BrightGreen.to_bg_str());
    assert_eq!("103", Color::BrightYellow.to_bg_str());
    assert_eq!("104", Color::BrightBlue.to_bg_str());
    assert_eq!("105", Color::BrightMagenta.to_bg_str());
    assert_eq!("106", Color::BrightCyan.to_bg_str());
    assert_eq!("107", Color::BrightWhite.to_bg_str());
}

#[test]
fn codes_nonempty_and_disjoint() {
    let colors = vec![
        Color::Black,
        Color::Red,
        Color::Green,
        Color::Yellow,
        Color::Blue,
        Color::Magenta,
        Color::Cyan,
        Color::White,
        Color::BrightBlack,
        Color::BrightRed,
        Color::BrightGreen,
        Color::BrightYellow,
        Color::BrightBlue,
        Color::BrightMagenta,
        Color::BrightCyan,
        Color::BrightWhite,
        Color::Palette(0),
        Color::Palette(255),
        Color::True(0, 0, 0),
        Color::True(255, 255, 255),
    ];
    for c in colors {
        let fg = c.to_fg_str();
        let bg = c.to_bg_str();
        assert!(!fg.is_empty());
        assert!(!bg.is_empty());
        assert_ne!(fg, bg);
    }
}

#[test]
fn rendering_is_idempotent() {
    let c = Color::Palette(17);
    assert_eq!(c.to_fg_str(), c.to_fg_str());
    assert_eq!(c.to_bg_str(), c.to_bg_str());
    let t = Color::True(1, 2, 3);
    assert_eq!(t.to_fg_str(), t.to_fg_str());
    assert_eq!(t.to_bg_str(), t.to_bg_str());
    let w = Color::White;
    assert_eq!(w.to_fg_str(), w.to_fg_str());
    assert_eq!(w.to_bg_str(), w.to_bg_str());
}

#[test]
fn boundary_payloads() {
    assert_eq!("38;5;0", Color::Palette(0).to_fg_str());
    assert_eq!("38;5;255", Color::Palette(255).to_fg_str());
    assert_eq!("48;5;0", Color::Palette(0).to_bg_str());
    assert_eq!("48;5;255", Color::Palette(255).to_bg_str());
    assert_eq!("38;2;0;0;0", Color::True(0, 0, 0).to_fg_str());
    assert_eq!("38;2;255;255;255", Color::True(255, 255, 255).to_fg_str());
    assert_eq!("48;2;0;0;0", Color::True(0, 0, 0).to_bg_str());
    assert_eq!("48;2;255;255;255", Color::True(255, 255, 255).to_bg_str());
}

#[test]
fn bright_cyan_end_to_end() {
    assert_eq!(Ok(Color::BrightCyan), Color::parse("bright cyan"));
    assert_eq!("96", Color::BrightCyan.to_fg_str());
    assert_eq!("106", Color::BrightCyan.to_bg_str());
}

#[test]
fn true_color_end_to_end() {
    assert_eq!("38;2;10;20;30", Color::True(10, 20, 30).to_fg_str());
}

#[test]
fn default_end_to_end() {
    assert_eq!(Color::White, Color::from_str_or_default("not-a-color"));
    assert_eq!("47", Color::White.to_bg_str());
}

#[test]
fn palette_mid_values() {
    assert_eq!("38;5;7", Color::Palette(7).to_fg_str());
    assert_eq!("38;5;42", Color::Palette(42).to_fg_str());
    assert_eq!("48;5;100", Color::Palette(100).to_bg_str());
    assert_eq!("48;2;12;0;200", Color::True(12, 0, 200).to_bg_str());
}
