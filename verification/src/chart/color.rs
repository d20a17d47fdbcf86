//! Text wrapped into a rendition and a full reset.

use vstd::prelude::*;
use crate::ui::style_code::wrap_codes;
use crate::ui::style_code::wrap_spec;

verus! {

/// Bold or bright
pub const BOLD_BRIGHT: u8 = 1;

/// Dim
pub const DIM: u8 = 2;

/// Underlined
pub const UNDERLINED: u8 = 4;

/// Blink
pub const BLINK: u8 = 5;

/// Reverse video: foreground and background swapped
pub const REVERSE: u8 = 7;

/// Hidden
pub const HIDDEN: u8 = 8;

/// Reset of all attributes
pub const RESET_ALL: u8 = 0;

/// Reset of bold or bright
pub const RESET_BOLD: u8 = 21;

/// Reset of dim
pub const RESET_DIM: u8 = 22;

/// Reset of underlined
pub const RESET_UNDERLINED: u8 = 24;

/// Reset of blink
pub const RESET_BLINK: u8 = 25;

/// Reset of reverse video
pub const RESET_REVERSE: u8 = 27;

/// Reset of hidden
pub const RESET_HIDDEN: u8 = 28;

/// Default foreground colour
pub const DEFAULT_FOREGROUND: u8 = 39;

/// Black
pub const BLACK: u8 = 30;

/// Red
pub const RED: u8 = 31;

/// Green
pub const GREEN: u8 = 32;

/// Yellow
pub const YELLOW: u8 = 33;

/// Blue
pub const BLUE: u8 = 34;

/// Magenta
pub const MAGENTA: u8 = 35;

/// Cyan
pub const CYAN: u8 = 36;

/// Light gray
pub const LIGHT_GRAY: u8 = 37;

/// Dark gray
pub const DARK_GRAY: u8 = 90;

/// Light red
pub const LIGHT_RED: u8 = 91;

/// Light green
pub const LIGHT_GREEN: u8 = 92;

/// Light yellow
pub const LIGHT_YELLOW: u8 = 93;

/// Light blue
pub const LIGHT_BLUE: u8 = 94;

/// Light magenta
pub const LIGHT_MAGENTA: u8 = 95;

/// Light cyan
pub const LIGHT_CYAN: u8 = 96;

/// White
pub const WHITE: u8 = 97;

/// Default background colour
pub const BG_DEFAULT_BACKGROUND: u8 = 49;

/// Black background
pub const BG_BLACK: u8 = 40;

/// Red background
pub const BG_RED: u8 = 41;

/// Green background
pub const BG_GREEN: u8 = 42;

/// Yellow background
pub const BG_YELLOW: u8 = 43;

/// Blue background
pub const BG_BLUE: u8 = 44;

/// Magenta background
pub const BG_MAGENTA: u8 = 45;

/// Cyan background
pub const BG_CYAN: u8 = 46;

/// Light gray background
pub const BG_LIGHT_GRAY: u8 = 47;

/// Dark gray background
pub const BG_DARK_GRAY: u8 = 100;

/// Light red background
pub const BG_LIGHT_RED: u8 = 101;

/// Light green background
pub const BG_LIGHT_GREEN: u8 = 102;

/// Light yellow background
pub const BG_LIGHT_YELLOW: u8 = 103;

/// Light blue background
pub const BG_LIGHT_BLUE: u8 = 104;

/// Light magenta background
pub const BG_LIGHT_MAGENTA: u8 = 105;

/// Light cyan background
pub const BG_LIGHT_CYAN: u8 = 106;

/// White background
pub const BG_WHITE: u8 = 107;

/// Wraps the message into the given rendition and resets everything after it.
pub fn style(message: &str, code: u8) -> (r: String)
    ensures
        r@ == wrap_spec(message@, code, RESET_ALL),
{
    wrap_codes(message, code, RESET_ALL)
}

/// Swaps the foreground and the background colour for the message.
pub fn reverse(message: &str) -> (r: String)
    ensures
        r@ == wrap_spec(message@, REVERSE, RESET_ALL),
{
    style(message, REVERSE)
}

/// Writes the message in red.
pub fn red(message: &str) -> (r: String)
    ensures
        r@ == wrap_spec(message@, RED, RESET_ALL),
{
    style(message, RED)
}

/// Writes the message in green.
pub fn green(message: &str) -> (r: String)
    ensures
        r@ == wrap_spec(message@, GREEN, RESET_ALL),
{
    style(message, GREEN)
}

/// Writes the message in yellow.
pub fn yellow(message: &str) -> (r: String)
    ensures
        r@ == wrap_spec(message@, YELLOW, RESET_ALL),
{
    style(message, YELLOW)
}

/// Writes the message in blue.
pub fn blue(message: &str) -> (r: String)
    ensures
        r@ == wrap_spec(message@, BLUE, RESET_ALL),
{
    style(message, BLUE)
}

/// Writes the message in magenta.
pub fn magenta(message: &str) -> (r: String)
    ensures
        r@ == wrap_spec(message@, MAGENTA, RESET_ALL),
{
    style(message, MAGENTA)
}

/// Writes the message in cyan.
pub fn cyan(message: &str) -> (r: String)
    ensures
        r@ == wrap_spec(message@, CYAN, RESET_ALL),
{
    style(message, CYAN)
}

/// Writes the message in light gray.
pub fn light_gray(message: &str) -> (r: String)
    ensures
        r@ == wrap_spec(message@, LIGHT_GRAY, RESET_ALL),
{
    style(message, LIGHT_GRAY)
}

/// Writes the message in dark gray.
pub fn dark_gray(message: &str) -> (r: String)
    ensures
        r@ == wrap_spec(message@, DARK_GRAY, RESET_ALL),
{
    style(message, DARK_GRAY)
}

/// Writes the message in light red.
pub fn light_red(message: &str) -> (r: String)
    ensures
        r@ == wrap_spec(message@, LIGHT_RED, RESET_ALL),
{
    style(message, LIGHT_RED)
}

/// Writes the message in light green.
pub fn light_green(message: &str) -> (r: String)
    ensures
        r@ == wrap_spec(message@, LIGHT_GREEN, RESET_ALL),
{
    style(message, LIGHT_GREEN)
}

/// Writes the message in light yellow.
pub fn light_yellow(message: &str) -> (r: String)
    ensures
        r@ == wrap_spec(message@, LIGHT_YELLOW, RESET_ALL),
{
    style(message, LIGHT_YELLOW)
}

/// Writes the message in light blue.
pub fn light_blue(message: &str) -> (r: String)
    ensures
        r@ == wrap_spec(message@, LIGHT_BLUE, RESET_ALL),
{
    style(message, LIGHT_BLUE)
}

/// Writes the message in light magenta.
pub fn light_magenta(message: &str) -> (r: String)
    ensures
        r@ == wrap_spec(message@, LIGHT_MAGENTA, RESET_ALL),
{
    style(message, LIGHT_MAGENTA)
}

/// Writes the message in light cyan.
pub fn light_cyan(message: &str) -> (r: String)
    ensures
        r@ == wrap_spec(message@, LIGHT_CYAN, RESET_ALL),
{
    style(message, LIGHT_CYAN)
}

/// Writes the message in white.
pub fn white(message: &str) -> (r: String)
    ensures
        r@ == wrap_spec(message@, WHITE, RESET_ALL),
{
    style(message, WHITE)
}

/// Writes the message on default background.
pub fn bg_default_background(message: &str) -> (r: String)
    ensures
        r@ == wrap_spec(message@, BG_DEFAULT_BACKGROUND, RESET_ALL),
{
    style(message, BG_DEFAULT_BACKGROUND)
}

/// Writes the message on black.
pub fn bg_black(message: &str) -> (r: String)
    ensures
        r@ == wrap_spec(message@, BG_BLACK, RESET_ALL),
{
    style(message, BG_BLACK)
}

/// Writes the message on red.
pub fn bg_red(message: &str) -> (r: String)
    ensures
        r@ == wrap_spec(message@, BG_RED, RESET_ALL),
{
    style(message, BG_RED)
}

/// Writes the message on green.
pub fn bg_green(message: &str) -> (r: String)
    ensures
        r@ == wrap_spec(message@, BG_GREEN, RESET_ALL),
{
    style(message, BG_GREEN)
}

/// Writes the message on yellow.
pub fn bg_yellow(message: &str) -> (r: String)
    ensures
        r@ == wrap_spec(message@, BG_YELLOW, RESET_ALL),
{
    style(message, BG_YELLOW)
}

/// Writes the message on blue.
pub fn bg_blue(message: &str) -> (r: String)
    ensures
        r@ == wrap_spec(message@, BG_BLUE, RESET_ALL),
{
    style(message, BG_BLUE)
}

/// Writes the message on magenta.
pub fn bg_magenta(message: &str) -> (r: String)
    ensures
        r@ == wrap_spec(message@, BG_MAGENTA, RESET_ALL),
{
    style(message, BG_MAGENTA)
}

/// Writes the message on cyan.
pub fn bg_cyan(message: &str) -> (r: String)
    ensures
        r@ == wrap_spec(message@, BG_CYAN, RESET_ALL),
{
    style(message, BG_CYAN)
}

/// Writes the message on light gray.
pub fn bg_light_gray(message: &str) -> (r: String)
    ensures
        r@ == wrap_spec(message@, BG_LIGHT_GRAY, RESET_ALL),
{
    style(message, BG_LIGHT_GRAY)
}

/// Writes the message on dark gray.
pub fn bg_dark_gray(message: &str) -> (r: String)
    ensures
        r@ == wrap_spec(message@, BG_DARK_GRAY, RESET_ALL),
{
    style(message, BG_DARK_GRAY)
}

/// Writes the message on light red.
pub fn bg_light_red(message: &str) -> (r: String)
    ensures
        r@ == wrap_spec(message@, BG_LIGHT_RED, RESET_ALL),
{
    style(message, BG_LIGHT_RED)
}

/// Writes the message on light green.
pub fn bg_light_green(message: &str) -> (r: String)
    ensures
        r@ == wrap_spec(message@, BG_LIGHT_GREEN, RESET_ALL),
{
    style(message, BG_LIGHT_GREEN)
}

/// Writes the message on light yellow.
pub fn bg_light_yellow(message: &str) -> (r: String)
    ensures
        r@ == wrap_spec(message@, BG_LIGHT_YELLOW, RESET_ALL),
{
    style(message, BG_LIGHT_YELLOW)
}

/// Writes the message on light blue.
pub fn bg_light_blue(message: &str) -> (r: String)
    ensures
        r@ == wrap_spec(message@, BG_LIGHT_BLUE, RESET_ALL),
{
    style(message, BG_LIGHT_BLUE)
}

/// Writes the message on light magenta.
pub fn bg_light_magenta(message: &str) -> (r: String)
    ensures
        r@ == wrap_spec(message@, BG_LIGHT_MAGENTA, RESET_ALL),
{
    style(message, BG_LIGHT_MAGENTA)
}

/// Writes the message on light cyan.
pub fn bg_light_cyan(message: &str) -> (r: String)
    ensures
        r@ == wrap_spec(message@, BG_LIGHT_CYAN, RESET_ALL),
{
    style(message, BG_LIGHT_CYAN)
}

/// Writes the message on white.
pub fn bg_white(message: &str) -> (r: String)
    ensures
        r@ == wrap_spec(message@, BG_WHITE, RESET_ALL),
{
    style(message, BG_WHITE)
}

} // verus!
