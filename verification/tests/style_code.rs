use term_chart::ui::style_code::Style;

#[test]
fn is_foreground() {
    assert!(Style::DefaultForeground.is_foreground());
    assert!(Style::Black.is_foreground());
    assert!(Style::Red.is_foreground());
    assert!(Style::Green.is_foreground());
    assert!(Style::Yellow.is_foreground());
    assert!(Style::Blue.is_foreground());
    assert!(Style::Magenta.is_foreground());
    assert!(Style::Cyan.is_foreground());
    assert!(Style::LightGray.is_foreground());
    assert!(Style::DarkGray.is_foreground());
    assert!(Style::LightRed.is_foreground());
    assert!(Style::LightGreen.is_foreground());
    assert!(Style::LightYellow.is_foreground());
    assert!(Style::LightBlue.is_foreground());
    assert!(Style::LightMagenta.is_foreground());
    assert!(Style::LightCyan.is_foreground());
    assert!(Style::White.is_foreground());
    assert!(!Style::BgDefaultBackground.is_foreground());
    assert!(!Style::BgBlack.is_foreground());
    assert!(!Style::BgRed.is_foreground());
    assert!(!Style::BgGreen.is_foreground());
    assert!(!Style::BgYellow.is_foreground());
    assert!(!Style::BgBlue.is_foreground());
    assert!(!Style::BgMagenta.is_foreground());
    assert!(!Style::BgCyan.is_foreground());
    assert!(!Style::BgLightGray.is_foreground());
    assert!(!Style::BgDarkGray.is_foreground());
    assert!(!Style::BgLightRed.is_foreground());
    assert!(!Style::BgLightGreen.is_foreground());
    assert!(!Style::BgLightYellow.is_foreground());
    assert!(!Style::BgLightBlue.is_foreground());
    assert!(!Style::BgLightMagenta.is_foreground());
    assert!(!Style::BgLightCyan.is_foreground());
    assert!(!Style::BgWhite.is_foreground());
}

#[test]
fn is_background() {
    assert!(Style::BgDefaultBackground.is_background());
    assert!(Style::BgBlack.is_background());
    assert!(Style::BgRed.is_background());
    assert!(Style::BgGreen.is_background());
    assert!(Style::BgYellow.is_background());
    assert!(Style::BgBlue.is_background());
    assert!(Style::BgMagenta.is_background());
    assert!(Style::BgCyan.is_background());
    assert!(Style::BgLightGray.is_background());
    assert!(Style::BgDarkGray.is_background());
    assert!(Style::BgLightRed.is_background());
    assert!(Style::BgLightGreen.is_background());
    assert!(Style::BgLightYellow.is_background());
    assert!(Style::BgLightBlue.is_background());
    assert!(Style::BgLightMagenta.is_background());
    assert!(Style::BgLightCyan.is_background());
    assert!(Style::BgWhite.is_background());
    assert!(!Style::DefaultForeground.is_background());
    assert!(!Style::Black.is_background());
    assert!(!Style::Red.is_background());
    assert!(!Style::Green.is_background());
    assert!(!Style::Yellow.is_background());
    assert!(!Style::Blue.is_background());
    assert!(!Style::Magenta.is_background());
    assert!(!Style::Cyan.is_background());
    assert!(!Style::LightGray.is_background());
    assert!(!Style::DarkGray.is_background());
    assert!(!Style::LightRed.is_background());
    assert!(!Style::LightGreen.is_background());
    assert!(!Style::LightYellow.is_background());
    assert!(!Style::LightBlue.is_background());
    assert!(!Style::LightMagenta.is_background());
    assert!(!Style::LightCyan.is_background());
    assert!(!Style::White.is_background());
}

#[test]
fn is_attribute() {
    assert!(Style::Normal.is_attribute());
    assert!(Style::BoldBright.is_attribute());
    assert!(Style::Dim.is_attribute());
    assert!(Style::Underlined.is_attribute());
    assert!(Style::Blink.is_attribute());
    assert!(Style::Reverse.is_attribute());
    assert!(Style::Hidden.is_attribute());
    assert!(!Style::BgDefaultBackground.is_attribute());
    assert!(!Style::BgBlack.is_attribute());
    assert!(!Style::BgRed.is_attribute());
    assert!(!Style::BgGreen.is_attribute());
    assert!(!Style::BgYellow.is_attribute());
    assert!(!Style::BgBlue.is_attribute());
    assert!(!Style::BgMagenta.is_attribute());
    assert!(!Style::BgCyan.is_attribute());
    assert!(!Style::BgLightGray.is_attribute());
    assert!(!Style::BgDarkGray.is_attribute());
    assert!(!Style::BgLightRed.is_attribute());
    assert!(!Style::BgLightGreen.is_attribute());
    assert!(!Style::BgLightYellow.is_attribute());
    assert!(!Style::BgLightBlue.is_attribute());
    assert!(!Style::BgLightMagenta.is_attribute());
    assert!(!Style::BgLightCyan.is_attribute());
    assert!(!Style::BgWhite.is_attribute());
    assert!(!Style::DefaultForeground.is_attribute());
    assert!(!Style::Black.is_attribute());
    assert!(!Style::Red.is_attribute());
    assert!(!Style::Green.is_attribute());
    assert!(!Style::Yellow.is_attribute());
    assert!(!Style::Blue.is_attribute());
    assert!(!Style::Magenta.is_attribute());
    assert!(!Style::Cyan.is_attribute());
    assert!(!Style::LightGray.is_attribute());
    assert!(!Style::DarkGray.is_attribute());
    assert!(!Style::LightRed.is_attribute());
    assert!(!Style::LightGreen.is_attribute());
    assert!(!Style::LightYellow.is_attribute());
    assert!(!Style::LightBlue.is_attribute());
    assert!(!Style::LightMagenta.is_attribute());
    assert!(!Style::LightCyan.is_attribute());
    assert!(!Style::White.is_attribute());
}

#[test]
fn from_ut8_test() {
    assert_eq!(Some(Style::Normal), Style::from_u8(0));
    assert_eq!(Some(Style::BoldBright), Style::from_u8(1));
    assert_eq!(Some(Style::Dim), Style::from_u8(2));
    assert_eq!(Some(Style::Underlined), Style::from_u8(4));
    assert_eq!(Some(Style::Blink), Style::from_u8(5));
    assert_eq!(Some(Style::Reverse), Style::from_u8(7));
    assert_eq!(Some(Style::Hidden), Style::from_u8(8));
    assert_eq!(Some(Style::DefaultForeground), Style::from_u8(39));
    assert_eq!(Some(Style::Black), Style::from_u8(30));
    assert_eq!(Some(Style::Red), Style::from_u8(31));
    assert_eq!(Some(Style::Green), Style::from_u8(32));
    assert_eq!(Some(Style::Yellow), Style::from_u8(33));
    assert_eq!(Some(Style::Blue), Style::from_u8(34));
    assert_eq!(Some(Style::Magenta), Style::from_u8(35));
    assert_eq!(Some(Style::Cyan), Style::from_u8(36));
    assert_eq!(Some(Style::LightGray), Style::from_u8(37));
    assert_eq!(Some(Style::DarkGray), Style::from_u8(90));
    assert_eq!(Some(Style::LightRed), Style::from_u8(91));
    assert_eq!(Some(Style::LightGreen), Style::from_u8(92));
    assert_eq!(Some(Style::LightYellow), Style::from_u8(93));
    assert_eq!(Some(Style::LightBlue), Style::from_u8(94));
    assert_eq!(Some(Style::LightMagenta), Style::from_u8(95));
    assert_eq!(Some(Style::LightCyan), Style::from_u8(96));
    assert_eq!(Some(Style::White), Style::from_u8(97));
    assert_eq!(Some(Style::BgDefaultBackground), Style::from_u8(49));
    assert_eq!(Some(Style::BgBlack), Style::from_u8(40));
    assert_eq!(Some(Style::BgRed), Style::from_u8(41));
    assert_eq!(Some(Style::BgGreen), Style::from_u8(42));
    assert_eq!(Some(Style::BgYellow), Style::from_u8(43));
    assert_eq!(Some(Style::BgBlue), Style::from_u8(44));
    assert_eq!(Some(Style::BgMagenta), Style::from_u8(45));
    assert_eq!(Some(Style::BgCyan), Style::from_u8(46));
    assert_eq!(Some(Style::BgLightGray), Style::from_u8(47));
    assert_eq!(Some(Style::BgDarkGray), Style::from_u8(100));
    assert_eq!(Some(Style::BgLightRed), Style::from_u8(101));
    assert_eq!(Some(Style::BgLightGreen), Style::from_u8(102));
    assert_eq!(Some(Style::BgLightYellow), Style::from_u8(103));
    assert_eq!(Some(Style::BgLightBlue), Style::from_u8(104));
    assert_eq!(Some(Style::BgLightMagenta), Style::from_u8(105));
    assert_eq!(Some(Style::BgLightCyan), Style::from_u8(106));
    assert_eq!(Some(Style::BgWhite), Style::from_u8(107));
    assert_eq!(None, Style::from_u8(140));
}

#[test]
fn style_from_str_test() {
    assert_eq!(Some(Style::Normal), Style::from_str("0"));
    assert_eq!(Some(Style::BoldBright), Style::from_str("1"));
    assert_eq!(Some(Style::Dim), Style::from_str("2"));
    assert_eq!(Some(Style::Underlined), Style::from_str("4"));
    assert_eq!(Some(Style::Blink), Style::from_str("5"));
    assert_eq!(Some(Style::Reverse), Style::from_str("7"));
    assert_eq!(Some(Style::Hidden), Style::from_str("8"));
    assert_eq!(Some(Style::DefaultForeground), Style::from_str("39"));
    assert_eq!(Some(Style::Black), Style::from_str("30"));
    assert_eq!(Some(Style::Red), Style::from_str("31"));
    assert_eq!(Some(Style::Green), Style::from_str("32"));
    assert_eq!(Some(Style::Yellow), Style::from_str("33"));
    assert_eq!(Some(Style::Blue), Style::from_str("34"));
    assert_eq!(Some(Style::Magenta), Style::from_str("35"));
    assert_eq!(Some(Style::Cyan), Style::from_str("36"));
    assert_eq!(Some(Style::LightGray), Style::from_str("37"));
    assert_eq!(Some(Style::DarkGray), Style::from_str("90"));
    assert_eq!(Some(Style::LightRed), Style::from_str("91"));
    assert_eq!(Some(Style::LightGreen), Style::from_str("92"));
    assert_eq!(Some(Style::LightYellow), Style::from_str("93"));
    assert_eq!(Some(Style::LightBlue), Style::from_str("94"));
    assert_eq!(Some(Style::LightMagenta), Style::from_str("95"));
    assert_eq!(Some(Style::LightCyan), Style::from_str("96"));
    assert_eq!(Some(Style::White), Style::from_str("97"));
    assert_eq!(Some(Style::BgDefaultBackground), Style::from_str("49"));
    assert_eq!(Some(Style::BgBlack), Style::from_str("40"));
    assert_eq!(Some(Style::BgRed), Style::from_str("41"));
    assert_eq!(Some(Style::BgGreen), Style::from_str("42"));
    assert_eq!(Some(Style::BgYellow), Style::from_str("43"));
    assert_eq!(Some(Style::BgBlue), Style::from_str("44"));
    assert_eq!(Some(Style::BgMagenta), Style::from_str("45"));
    assert_eq!(Some(Style::BgCyan), Style::from_str("46"));
    assert_eq!(Some(Style::BgLightGray), Style::from_str("47"));
    assert_eq!(Some(Style::BgDarkGray), Style::from_str("100"));
    assert_eq!(Some(Style::BgLightRed), Style::from_str("101"));
    assert_eq!(Some(Style::BgLightGreen), Style::from_str("102"));
    assert_eq!(Some(Style::BgLightYellow), Style::from_str("103"));
    assert_eq!(Some(Style::BgLightBlue), Style::from_str("104"));
    assert_eq!(Some(Style::BgLightMagenta), Style::from_str("105"));
    assert_eq!(Some(Style::BgLightCyan), Style::from_str("106"));
    assert_eq!(Some(Style::BgWhite), Style::from_str("107"));
    assert_eq!(None, Style::from_str("140"));
}
