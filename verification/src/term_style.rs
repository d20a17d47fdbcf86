//! Text wrapped into a rendition and the sequence that resets it.

use vstd::prelude::*;
use crate::ui::style_code::wrap_codes;
use crate::ui::style_code::wrap_spec;

verus! {

/// Bold or bright
pub const BOLD_BRIGHT: u8 = 1;

/// Dim
pub const DIM: u8 = 2;

/// Underlined
pub const UNDERLINED: u8 = 4;

/// Blink
pub const BLINK: u8 = 5;

/// Reverse video: foreground and background swapped
pub const REVERSE: u8 = 7;

/// Hidden
pub const HIDDEN: u8 = 8;

/// Reset of all attributes
pub const RESET_ALL: u8 = 0;

/// Reset of bold or bright
pub const RESET_BOLD: u8 = 21;

/// Reset of dim
pub const RESET_DIM: u8 = 22;

/// Reset of underlined
pub const RESET_UNDERLINED: u8 = 24;

/// Reset of blink
pub const RESET_BLINK: u8 = 25;

/// Reset of reverse video
pub const RESET_REVERSE: u8 = 27;

/// Reset of hidden
pub const RESET_HIDDEN: u8 = 28;

/// Default foreground colour
pub const DEFAULT_FOREGROUND: u8 = 39;

/// Black
pub const BLACK: u8 = 30;

/// Red
pub const RED: u8 = 31;

/// Green
pub const GREEN: u8 = 32;

/// Yellow
pub const YELLOW: u8 = 33;

/// Blue
pub const BLUE: u8 = 34;

/// Magenta
pub const MAGENTA: u8 = 35;

/// Cyan
pub const CYAN: u8 = 36;

/// Light gray
pub const LIGHT_GRAY: u8 = 37;

/// Dark gray
pub const DARK_GRAY: u8 = 90;

/// Light red
pub const LIGHT_RED: u8 = 91;

/// Light green
pub const LIGHT_GREEN: u8 = 92;

/// Light yellow
pub const LIGHT_YELLOW: u8 = 93;

/// Light blue
pub const LIGHT_BLUE: u8 = 94;

/// Light magenta
pub const LIGHT_MAGENTA: u8 = 95;

/// Light cyan
pub const LIGHT_CYAN: u8 = 96;

/// White
pub const WHITE: u8 = 97;

/// Default background colour
pub const BG_DEFAULT_BACKGROUND: u8 = 49;

/// Black background
pub const BG_BLACK: u8 = 40;

/// Red background
pub const BG_RED: u8 = 41;

/// Green background
pub const BG_GREEN: u8 = 42;

/// Yellow background
pub const BG_YELLOW: u8 = 43;

/// Blue background
pub const BG_BLUE: u8 = 44;

/// Magenta background
pub const BG_MAGENTA: u8 = 45;

/// Cyan background
pub const BG_CYAN: u8 = 46;

/// Light gray background
pub const BG_LIGHT_GRAY: u8 = 47;

/// Dark gray background
pub const BG_DARK_GRAY: u8 = 100;

/// Light red background
pub const BG_LIGHT_RED: u8 = 101;

/// Light green background
pub const BG_LIGHT_GREEN: u8 = 102;

/// Light yellow background
pub const BG_LIGHT_YELLOW: u8 = 103;

/// Light blue background
pub const BG_LIGHT_BLUE: u8 = 104;

/// Light magenta background
pub const BG_LIGHT_MAGENTA: u8 = 105;

/// Light cyan background
pub const BG_LIGHT_CYAN: u8 = 106;

/// White background
pub const BG_WHITE: u8 = 107;

/// Wraps the message into the given rendition and resets everything after it.
pub fn style(message: &str, code: u8) -> (r: String)
    ensures
        r@ == wrap_spec(message@, code, RESET_ALL),
{
    wrap(message, code, RESET_ALL)
}

/// Sets the foreground colour to the given value and back to the default after the message.
pub fn color(message: &str, code: u8) -> (r: String)
    ensures
        r@ == wrap_spec(message@, code, DEFAULT_FOREGROUND),
{
    wrap(message, code, DEFAULT_FOREGROUND)
}

/// Sets the background colour to the given value and back to the default after the message.
pub fn background(message: &str, code: u8) -> (r: String)
    ensures
        r@ == wrap_spec(message@, code, BG_DEFAULT_BACKGROUND),
{
    wrap(message, code, BG_DEFAULT_BACKGROUND)
}

/// Swaps the foreground and the background colour for the message.
pub fn reverse(message: &str) -> (r: String)
    ensures
        r@ == wrap_spec(message@, REVERSE, RESET_REVERSE),
{
    wrap(message, REVERSE, RESET_REVERSE)
}

/// Sets the foreground colour to red.
pub fn red(message: &str) -> (r: String)
    ensures
        r@ == wrap_spec(message@, RED, DEFAULT_FOREGROUND),
{
    color(message, RED)
}

/// Sets the foreground colour to green.
pub fn green(message: &str) -> (r: String)
    ensures
        r@ == wrap_spec(message@, GREEN, DEFAULT_FOREGROUND),
{
    color(message, GREEN)
}

/// Sets the foreground colour to yellow.
pub fn yellow(message: &str) -> (r: String)
    ensures
        r@ == wrap_spec(message@, YELLOW, DEFAULT_FOREGROUND),
{
    color(message, YELLOW)
}

/// Sets the foreground colour to blue.
pub fn blue(message: &str) -> (r: String)
    ensures
        r@ == wrap_spec(message@, BLUE, DEFAULT_FOREGROUND),
{
    color(message, BLUE)
}

/// Sets the foreground colour to magenta.
pub fn magenta(message: &str) -> (r: String)
    ensures
        r@ == wrap_spec(message@, MAGENTA, DEFAULT_FOREGROUND),
{
    color(message, MAGENTA)
}

/// Sets the foreground colour to cyan.
pub fn cyan(message: &str) -> (r: String)
    ensures
        r@ == wrap_spec(message@, CYAN, DEFAULT_FOREGROUND),
{
    color(message, CYAN)
}

/// Sets the foreground colour to light gray.
pub fn light_gray(message: &str) -> (r: String)
    ensures
        r@ == wrap_spec(message@, LIGHT_GRAY, DEFAULT_FOREGROUND),
{
    color(message, LIGHT_GRAY)
}

/// Sets the foreground colour to dark gray.
pub fn dark_gray(message: &str) -> (r: String)
    ensures
        r@ == wrap_spec(message@, DARK_GRAY, DEFAULT_FOREGROUND),
{
    color(message, DARK_GRAY)
}

/// Sets the foreground colour to light red.
pub fn light_red(message: &str) -> (r: String)
    ensures
        r@ == wrap_spec(message@, LIGHT_RED, DEFAULT_FOREGROUND),
{
    color(message, LIGHT_RED)
}

/// Sets the foreground colour to light green.
pub fn light_green(message: &str) -> (r: String)
    ensures
        r@ == wrap_spec(message@, LIGHT_GREEN, DEFAULT_FOREGROUND),
{
    color(message, LIGHT_GREEN)
}

/// Sets the foreground colour to light yellow.
pub fn light_yellow(message: &str) -> (r: String)
    ensures
        r@ == wrap_spec(message@, LIGHT_YELLOW, DEFAULT_FOREGROUND),
{
    color(message, LIGHT_YELLOW)
}

/// Sets the foreground colour to light blue.
pub fn light_blue(message: &str) -> (r: String)
    ensures
        r@ == wrap_spec(message@, LIGHT_BLUE, DEFAULT_FOREGROUND),
{
    color(message, LIGHT_BLUE)
}

/// Sets the foreground colour to light magenta.
pub fn light_magenta(message: &str) -> (r: String)
    ensures
        r@ == wrap_spec(message@, LIGHT_MAGENTA, DEFAULT_FOREGROUND),
{
    color(message, LIGHT_MAGENTA)
}

/// Sets the foreground colour to light cyan.
pub fn light_cyan(message: &str) -> (r: String)
    ensures
        r@ == wrap_spec(message@, LIGHT_CYAN, DEFAULT_FOREGROUND),
{
    color(message, LIGHT_CYAN)
}

/// Sets the foreground colour to white.
pub fn white(message: &str) -> (r: String)
    ensures
        r@ == wrap_spec(message@, WHITE, DEFAULT_FOREGROUND),
{
    color(message, WHITE)
}

/// Sets the background to default background.
pub fn bg_default_background(message: &str) -> (r: String)
    ensures
        r@ == wrap_spec(message@, BG_DEFAULT_BACKGROUND, BG_DEFAULT_BACKGROUND),
{
    background(message, BG_DEFAULT_BACKGROUND)
}

/// Sets the background to black.
pub fn bg_black(message: &str) -> (r: String)
    ensures
        r@ == wrap_spec(message@, BG_BLACK, BG_DEFAULT_BACKGROUND),
{
    background(message, BG_BLACK)
}

/// Sets the background to red.
pub fn bg_red(message: &str) -> (r: String)
    ensures
        r@ == wrap_spec(message@, BG_RED, BG_DEFAULT_BACKGROUND),
{
    background(message, BG_RED)
}

/// Sets the background to green.
pub fn bg_green(message: &str) -> (r: String)
    ensures
        r@ == wrap_spec(message@, BG_GREEN, BG_DEFAULT_BACKGROUND),
{
    background(message, BG_GREEN)
}

/// Sets the background to yellow.
pub fn bg_yellow(message: &str) -> (r: String)
    ensures
        r@ == wrap_spec(message@, BG_YELLOW, BG_DEFAULT_BACKGROUND),
{
    background(message, BG_YELLOW)
}

/// Sets the background to blue.
pub fn bg_blue(message: &str) -> (r: String)
    ensures
        r@ == wrap_spec(message@, BG_BLUE, BG_DEFAULT_BACKGROUND),
{
    background(message, BG_BLUE)
}

/// Sets the background to magenta.
pub fn bg_magenta(message: &str) -> (r: String)
    ensures
        r@ == wrap_spec(message@, BG_MAGENTA, BG_DEFAULT_BACKGROUND),
{
    background(message, BG_MAGENTA)
}

/// Sets the background to cyan.
pub fn bg_cyan(message: &str) -> (r: String)
    ensures
        r@ == wrap_spec(message@, BG_CYAN, BG_DEFAULT_BACKGROUND),
{
    background(message, BG_CYAN)
}

/// Sets the background to light gray.
pub fn bg_light_gray(message: &str) -> (r: String)
    ensures
        r@ == wrap_spec(message@, BG_LIGHT_GRAY, BG_DEFAULT_BACKGROUND),
{
    background(message, BG_LIGHT_GRAY)
}

/// Sets the background to dark gray.
pub fn bg_dark_gray(message: &str) -> (r: String)
    ensures
        r@ == wrap_spec(message@, BG_DARK_GRAY, BG_DEFAULT_BACKGROUND),
{
    background(message, BG_DARK_GRAY)
}

/// Sets the background to light red.
pub fn bg_light_red(message: &str) -> (r: String)
    ensures
        r@ == wrap_spec(message@, BG_LIGHT_RED, BG_DEFAULT_BACKGROUND),
{
    background(message, BG_LIGHT_RED)
}

/// Sets the background to light green.
pub fn bg_light_green(message: &str) -> (r: String)
    ensures
        r@ == wrap_spec(message@, BG_LIGHT_GREEN, BG_DEFAULT_BACKGROUND),
{
    background(message, BG_LIGHT_GREEN)
}

/// Sets the background to light yellow.
pub fn bg_light_yellow(message: &str) -> (r: String)
    ensures
        r@ == wrap_spec(message@, BG_LIGHT_YELLOW, BG_DEFAULT_BACKGROUND),
{
    background(message, BG_LIGHT_YELLOW)
}

/// Sets the background to light blue.
pub fn bg_light_blue(message: &str) -> (r: String)
    ensures
        r@ == wrap_spec(message@, BG_LIGHT_BLUE, BG_DEFAULT_BACKGROUND),
{
    background(message, BG_LIGHT_BLUE)
}

/// Sets the background to light magenta.
pub fn bg_light_magenta(message: &str) -> (r: String)
    ensures
        r@ == wrap_spec(message@, BG_LIGHT_MAGENTA, BG_DEFAULT_BACKGROUND),
{
    background(message, BG_LIGHT_MAGENTA)
}

/// Sets the background to light cyan.
pub fn bg_light_cyan(message: &str) -> (r: String)
    ensures
        r@ == wrap_spec(message@, BG_LIGHT_CYAN, BG_DEFAULT_BACKGROUND),
{
    background(message, BG_LIGHT_CYAN)
}

/// Sets the background to white.
pub fn bg_white(message: &str) -> (r: String)
    ensures
        r@ == wrap_spec(message@, BG_WHITE, BG_DEFAULT_BACKGROUND),
{
    background(message, BG_WHITE)
}

/// Wraps the message into `style` and closes it with `reset`.
fn wrap(message: &str, style: u8, reset: u8) -> (r: String)
    ensures
        r@ == wrap_spec(message@, style, reset),
{
    wrap_codes(message, style, reset)
}

} // verus!
