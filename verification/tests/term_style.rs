use term_chart::term_style::{BG_BLACK, BG_BLUE, BG_CYAN, BG_DARK_GRAY, BG_DEFAULT_BACKGROUND, BG_GREEN, BG_LIGHT_BLUE, BG_LIGHT_CYAN, BG_LIGHT_GRAY, BG_LIGHT_GREEN, BG_LIGHT_MAGENTA, BG_LIGHT_RED, BG_LIGHT_YELLOW, BG_MAGENTA, BG_RED, BG_WHITE, BG_YELLOW, GREEN, bg_black, bg_blue, bg_cyan, bg_dark_gray, bg_default_background, bg_green, bg_light_blue, bg_light_cyan, bg_light_gray, bg_light_green, bg_light_magenta, bg_light_red, bg_light_yellow, bg_magenta, bg_red, bg_white, bg_yellow, blue, color, cyan, dark_gray, green, light_blue, light_cyan, light_gray, light_green, light_magenta, light_red, light_yellow, magenta, red, style, white, yellow};

#[test]
fn style_test() {
    assert_eq!("\u{1b}[32mmy message\u{1b}[0m", style("my message", GREEN));
}

#[test]
fn style_color_test() {
    assert_eq!("\u{1b}[32mmy message\u{1b}[39m", color("my message", GREEN));
}

#[test]
fn style_red_test() {
    assert_eq!("\u{1b}[31mmy message\u{1b}[39m", red("my message"));
}

#[test]
fn style_green_test() {
    assert_eq!("\u{1b}[32mmy message\u{1b}[39m", green("my message"));
}

#[test]
fn style_yellow_test() {
    assert_eq!("\u{1b}[33mmy message\u{1b}[39m", yellow("my message"));
}

#[test]
fn style_blue_test() {
    assert_eq!("\u{1b}[34mmy message\u{1b}[39m", blue("my message"));
}

#[test]
fn style_magenta_test() {
    assert_eq!("\u{1b}[35mmy message\u{1b}[39m", magenta("my message"));
}

#[test]
fn style_cyan_test() {
    assert_eq!("\u{1b}[36mmy message\u{1b}[39m", cyan("my message"));
}

#[test]
fn style_light_gray_test() {
    assert_eq!("\u{1b}[37mmy message\u{1b}[39m", light_gray("my message"));
}

#[test]
fn style_dark_gray_test() {
    assert_eq!("\u{1b}[90mmy message\u{1b}[39m", dark_gray("my message"));
}

#[test]
fn style_light_red_test() {
    assert_eq!("\u{1b}[91mmy message\u{1b}[39m", light_red("my message"));
}

#[test]
fn style_light_green_test() {
    assert_eq!("\u{1b}[92mmy message\u{1b}[39m", light_green("my message"));
}

#[test]
fn style_light_yellow_test() {
    assert_eq!("\u{1b}[93mmy message\u{1b}[39m", light_yellow("my message"));
}

#[test]
fn style_light_blue_test() {
    assert_eq!("\u{1b}[94mmy message\u{1b}[39m", light_blue("my message"));
}

#[test]
fn style_light_magenta_test() {
    assert_eq!("\u{1b}[95mmy message\u{1b}[39m", light_magenta("my message"));
}

#[test]
fn style_light_cyan_test() {
    assert_eq!("\u{1b}[96mmy message\u{1b}[39m", light_cyan("my message"));
}

#[test]
fn style_white_test() {
    assert_eq!("\u{1b}[97mmy message\u{1b}[39m", white("my message"));
}

#[test]
fn background_default_background_test() {
    assert_eq!("\u{1b}[49mmy message\u{1b}[49m", bg_default_background("my message"));
    assert_eq!("\u{1b}[49mmy message\u{1b}[0m", style("my message", BG_DEFAULT_BACKGROUND));
}

#[test]
fn background_black_test() {
    assert_eq!("\u{1b}[40mmy message\u{1b}[49m", bg_black("my message"));
    assert_eq!("\u{1b}[40mmy message\u{1b}[0m", style("my message", BG_BLACK));
}

#[test]
fn background_red_test() {
    assert_eq!("\u{1b}[41mmy message\u{1b}[49m", bg_red("my message"));
    assert_eq!("\u{1b}[41mmy message\u{1b}[0m", style("my message", BG_RED));
}

#[test]
fn background_green_test() {
    assert_eq!("\u{1b}[42mmy message\u{1b}[49m", bg_green("my message"));
    assert_eq!("\u{1b}[42mmy message\u{1b}[0m", style("my message", BG_GREEN));
}

#[test]
fn background_yellow_test() {
    assert_eq!("\u{1b}[43mmy message\u{1b}[49m", bg_yellow("my message"));
    assert_eq!("\u{1b}[43mmy message\u{1b}[0m", style("my message", BG_YELLOW));
}

#[test]
fn background_blue_test() {
    assert_eq!("\u{1b}[44mmy message\u{1b}[49m", bg_blue("my message"));
    assert_eq!("\u{1b}[44mmy message\u{1b}[0m", style("my message", BG_BLUE));
}

#[test]
fn background_magenta_test() {
    assert_eq!("\u{1b}[45mmy message\u{1b}[49m", bg_magenta("my message"));
    assert_eq!("\u{1b}[45mmy message\u{1b}[0m", style("my message", BG_MAGENTA));
}

#[test]
fn background_cyan_test() {
    assert_eq!("\u{1b}[46mmy message\u{1b}[49m", bg_cyan("my message"));
    assert_eq!("\u{1b}[46mmy message\u{1b}[0m", style("my message", BG_CYAN));
}

#[test]
fn background_light_gray_test() {
    assert_eq!("\u{1b}[47mmy message\u{1b}[49m", bg_light_gray("my message"));
    assert_eq!("\u{1b}[47mmy message\u{1b}[0m", style("my message", BG_LIGHT_GRAY));
}

#[test]
fn background_dark_gray_test() {
    assert_eq!("\u{1b}[100mmy message\u{1b}[49m", bg_dark_gray("my message"));
    assert_eq!("\u{1b}[100mmy message\u{1b}[0m", style("my message", BG_DARK_GRAY));
}

#[test]
fn background_light_red_test() {
    assert_eq!("\u{1b}[101mmy message\u{1b}[49m", bg_light_red("my message"));
    assert_eq!("\u{1b}[101mmy message\u{1b}[0m", style("my message", BG_LIGHT_RED));
}

#[test]
fn background_light_green_test() {
    assert_eq!("\u{1b}[102mmy message\u{1b}[49m", bg_light_green("my message"));
    assert_eq!("\u{1b}[102mmy message\u{1b}[0m", style("my message", BG_LIGHT_GREEN));
}

#[test]
fn background_light_yellow_test() {
    assert_eq!("\u{1b}[103mmy message\u{1b}[49m", bg_light_yellow("my message"));
    assert_eq!("\u{1b}[103mmy message\u{1b}[0m", style("my message", BG_LIGHT_YELLOW));
}

#[test]
fn background_light_blue_test() {
    assert_eq!("\u{1b}[104mmy message\u{1b}[49m", bg_light_blue("my message"));
    assert_eq!("\u{1b}[104mmy message\u{1b}[0m", style("my message", BG_LIGHT_BLUE));
}

#[test]
fn background_light_magenta_test() {
    assert_eq!("\u{1b}[105mmy message\u{1b}[49m", bg_light_magenta("my message"));
    assert_eq!("\u{1b}[105mmy message\u{1b}[0m", style("my message", BG_LIGHT_MAGENTA));
}

#[test]
fn background_light_cyan_test() {
    assert_eq!("\u{1b}[106mmy message\u{1b}[49m", bg_light_cyan("my message"));
    assert_eq!("\u{1b}[106mmy message\u{1b}[0m", style("my message", BG_LIGHT_CYAN));
}

#[test]
fn background_white_test() {
    assert_eq!("\u{1b}[107mmy message\u{1b}[49m", bg_white("my message"));
    assert_eq!("\u{1b}[107mmy message\u{1b}[0m", style("my message", BG_WHITE));
}
