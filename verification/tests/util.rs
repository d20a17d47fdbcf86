use term_chart::util::{str_left_pad, str_pad};

#[test]
fn str_pad_test() {
    assert_eq!("Hello     ", str_pad("Hello", 10, ' '));
    assert_eq!("Hello.....", str_pad("Hello", 10, '.'));
    assert_eq!(" Hello....", str_pad(" Hello", 10, '.'));
    assert_eq!("Hello💋💋💋💋💋", str_pad("Hello", 10, '💋'));
    assert_eq!("Hello\n\n\n\n\n", str_pad("Hello", 10, '\n'));
    assert_eq!("ö.........", str_pad("ö", 10, '.'));
    assert_eq!("💋.........", str_pad("💋", 10, '.'));

    assert_eq!("x ", str_pad("x ", 2, '.'));
    assert_eq!("x ------", str_pad("x ------", 2, '.'));
    assert_eq!("ö ", str_pad("ö ", 2, '.'));
    assert_eq!("ö ------", str_pad("ö ------", 2, '.'));
    assert_eq!("💋 ", str_pad("💋 ", 2, '.'));
    assert_eq!("💋 ------", str_pad("💋 ------", 2, '.'));
}

#[test]
fn str_left_pad_test() {
    assert_eq!("     Hello", str_left_pad("Hello", 10, ' '));
    assert_eq!(".....Hello", str_left_pad("Hello", 10, '.'));
    assert_eq!(".... Hello", str_left_pad(" Hello", 10, '.'));
    assert_eq!("💋💋💋💋💋Hello", str_left_pad("Hello", 10, '💋'));
    assert_eq!("\n\n\n\n\nHello", str_left_pad("Hello", 10, '\n'));
    assert_eq!(".........ö", str_left_pad("ö", 10, '.'));
    assert_eq!(".........💋", str_left_pad("💋", 10, '.'));

    assert_eq!("x ", str_left_pad("x ", 2, '.'));
    assert_eq!("x ------", str_left_pad("x ------", 2, '.'));
    assert_eq!("ö ", str_left_pad("ö ", 2, '.'));
    assert_eq!("ö ------", str_left_pad("ö ------", 2, '.'));
    assert_eq!("💋 ", str_left_pad("💋 ", 2, '.'));
    assert_eq!("💋 ------", str_left_pad("💋 ------", 2, '.'));
}
