use term_chart::chart::mode::Mode;
use term_chart::point::Point;
use term_chart::rate::{Currency, RateSeries};
use term_chart::rate_printer::{
    build_points_from_time_series, compose_footer, get_trend_sign, history_size, trend_fill,
};
use term_chart::rate_provider::{get_all_names, get_all_providers, get_name, Provider, ProviderError};
use term_chart::text::{chars_of, is_control, is_digit, parse_u8, str_equal};
use term_chart::ui::keyboard::KeyboardListener;
use term_chart::ui::style_code::{wrap, wrap_codes, Style};

#[test]
fn push_test() {
    let mut rs = RateSeries::new(2);
    rs.push((0.01f32, 0.02f32));
    rs.push((0.11f32, 0.12f32));

    assert_eq!(2, rs.len());

    rs.push((0.21f32, 0.22f32));
    assert_eq!(2, rs.len());
    assert_eq!(&vec![(0.11f32, 0.12f32), (0.21f32, 0.22f32)], rs.data());
    assert_eq!(Some(&(0.21f32, 0.22f32)), rs.last());
    assert_eq!(None, RateSeries::<u8>::new(1).last());
}

#[test]
fn unknown_currency_test() {
    assert_eq!(None, Currency::new("dollar"));
    assert_eq!(None, Currency::new(""));
    assert_eq!(None, Currency::from_lowercase("BTC"));
    assert_eq!(Some(Currency::Ripple), Currency::from_lowercase("xrp"));
    assert_eq!(1, Currency::Bitcoin.scale_factor());
    assert_eq!(10, Currency::Ethereum.scale_factor());
    assert_eq!(10, Currency::Litecoin.scale_factor());
    assert_eq!(100, Currency::Ripple.scale_factor());
}

#[test]
fn provider_names_test() {
    assert_eq!(Some("CoinDesk"), get_name("coindesk"));
    assert_eq!(Some("CoinDesk"), get_name("Coin_Desk"));
    assert_eq!(Some("CoinMarketCap"), get_name("COINMARKETCAP"));
    assert_eq!(Some("CoinMarketCap"), get_name("coin_market_cap"));
    assert_eq!(Some("BlockchainInfo"), get_name("BlockchainInfo"));
    assert_eq!(Some("BlockchainInfo"), get_name("blockchain_info"));
    assert_eq!(Some("CryptoCompare"), get_name("cryptocompare"));
    assert_eq!(Some("CryptoCompare"), get_name("crypto_compare"));
    assert_eq!(Some("Faker"), get_name("FAKER"));
    assert_eq!(None, get_name("cryptonator"));
    assert_eq!(
        vec!["CoinDesk", "CoinMarketCap", "BlockchainInfo", "CryptoCompare", "Faker"],
        get_all_names()
    );
    assert_eq!(None, Provider::from_lowercase("Faker"));
    assert_eq!("no route", ProviderError::new("no route").message());
}

#[test]
fn trend_sign_test() {
    assert_eq!("\u{1b}[31m\u{25bc}\u{1b}[39m", get_trend_sign(-1, true));
    assert_eq!("\u{1b}[32m\u{25b2}\u{1b}[39m", get_trend_sign(1, true));
    assert_eq!(" ", get_trend_sign(0, true));
    assert_eq!(" ", get_trend_sign(2, true));
    assert_eq!("\u{25bc}", get_trend_sign(-1, false));
    assert_eq!("\u{25b2}", get_trend_sign(1, false));
    assert_eq!(" ", get_trend_sign(0, false));
    assert_eq!("x", get_trend_sign(2, false));
    assert_eq!("\u{1b}[31m#\u{1b}[39m", trend_fill(-1, "#"));
    assert_eq!("\u{1b}[32m#\u{1b}[39m", trend_fill(1, "#"));
    assert_eq!("\u{1b}[90m#\u{1b}[39m", trend_fill(0, "#"));
    assert_eq!("\u{1b}[41m#\u{1b}[49m", trend_fill(2, "#"));
}

#[test]
fn time_series_test() {
    let data = vec![Point::new(9, 4), Point::new(9, 2), Point::new(0, 7)];
    assert_eq!(
        vec![Point::new(0, 4), Point::new(1, 2), Point::new(2, 7)],
        build_points_from_time_series(&data)
    );
    assert_eq!(Some(5), history_size(80, 10, Some(5)));
    assert_eq!(None, history_size(80, 10, Some(0)));
    assert_eq!(Some(70), history_size(80, 10, None));
    assert_eq!(None, history_size(10, 10, None));
}

#[test]
fn listeners_are_called_in_the_order_of_registration_test() {
    let mut listener = KeyboardListener::new();
    listener.add_listener('q', Box::new(|key: char| format!("first {}", key)) as Box<dyn Fn(char) -> String>);
    listener.add_listener('x', Box::new(|key: char| format!("other {}", key)));
    listener.add_listener('q', Box::new(|key: char| format!("second {}", key)));
    assert_eq!(vec!["first q", "second q"], listener.listen(Some('q')));
    assert_eq!(vec!["other x"], listener.listen(Some('x')));
    assert_eq!(Vec::<String>::new(), listener.listen(Some('z')));
    assert_eq!(Vec::<String>::new(), listener.listen(None));
}

#[test]
fn parse_u8_test() {
    assert_eq!(Some(0), parse_u8("0"));
    assert_eq!(Some(7), parse_u8("007"));
    assert_eq!(Some(7), parse_u8("+7"));
    assert_eq!(Some(255), parse_u8("255"));
    assert_eq!(None, parse_u8("256"));
    assert_eq!(None, parse_u8("99999999999999999999999"));
    assert_eq!(None, parse_u8(""));
    assert_eq!(None, parse_u8("+"));
    assert_eq!(None, parse_u8("-1"));
    assert_eq!(None, parse_u8("1 "));
    assert_eq!(None, parse_u8("１"));
    for text in ["0", "31", "+8", "256", "", "x", "1x", "0255"] {
        assert_eq!(text.parse::<u8>().ok(), parse_u8(text));
    }
}

#[test]
fn character_classes_test() {
    for code in 0..0x300u32 {
        let c = char::from_u32(code).unwrap();
        assert_eq!(c.is_control(), is_control(c));
        assert_eq!(c.is_ascii_digit(), is_digit(c));
    }
    assert_eq!(vec!['a', 'ö', '💋'], chars_of("aö💋"));
    assert!(str_equal("scale-x", "scale-x"));
    assert!(!str_equal("scale-x", "scale-y"));
    assert!(!str_equal("scale", "scale-x"));
}

#[test]
fn mode_from_option_str_test() {
    assert_eq!(Ok(Mode::ScaleDown), Mode::from_option_str(Some("scale-down".to_string())));
    assert_eq!(Err(()), Mode::from_option_str(Some("Scale".to_string())));
    assert_eq!(Err(()), Mode::from_option_str(None));
}

#[test]
fn wrap_with_styles_test() {
    assert_eq!("\u{1b}[31mhot\u{1b}[39m", wrap("hot", Style::Red, Style::DefaultForeground));
    assert_eq!("\u{1b}[107m\u{1b}[0m", wrap("", Style::BgWhite, Style::Normal));
    assert_eq!("\u{1b}[255mx\u{1b}[100m", wrap_codes("x", 255, 100));
    assert_eq!(107, Style::BgWhite.code());
    assert_eq!(None, Style::from_str("38"));
}

#[test]
fn footer_test() {
    assert_eq!(
        "T ^ BTC   $1 / €2| 2 ≈ €4       [Faker]",
        compose_footer("T", "^", "BTC   $1 / €2", "| 2 ≈ €4", "Faker", 40)
    );
    assert_eq!("ab c d", compose_footer("ab", "c", "d", "XYZ", "P", 5));
    assert_eq!("ab c dXYZ", compose_footer("ab", "c", "d", "XYZ", "P", 9));
    assert_eq!("ab c dXYZ[P]", compose_footer("ab", "c", "d", "XYZ", "P", 13));
    assert_eq!("ab c dXYZ [P]", compose_footer("ab", "c", "d", "XYZ", "P", 14));
    assert_eq!(
        "ab \u{1b}[31mc\u{1b}[39m dXYZ [P]",
        compose_footer("ab", "\u{1b}[31mc\u{1b}[39m", "d", "XYZ", "P", 14)
    );
    assert_eq!("a b c[]", compose_footer("a", "b", "c", "", "", 8));
}

#[test]
fn all_providers_test() {
    assert_eq!("CoinDesk, CoinMarketCap, BlockchainInfo, CryptoCompare, Faker", get_all_providers());
}
