//! A single SGR code as one closed enumeration of attributes, foreground
//! colours and background colours.

use vstd::prelude::*;
use vstd::string::StringExecFns;
use crate::text::decimal;
use crate::text::parse_u8;
use crate::text::parse_u8_spec;
use crate::text::push_char;
use crate::text::push_decimal;

verus! {

/// One rendition: an attribute, a foreground colour or a background colour.
#[derive(Debug, Copy, Clone, PartialEq, Eq, Structural)]
pub enum Style {
    /// Normal (code 0)
    Normal,
    /// Bold bright (code 1)
    BoldBright,
    /// Dim (code 2)
    Dim,
    /// Underlined (code 4)
    Underlined,
    /// Blink (code 5)
    Blink,
    /// Reverse (code 7)
    Reverse,
    /// Hidden (code 8)
    Hidden,
    /// Default foreground (code 39)
    DefaultForeground,
    /// Black (code 30)
    Black,
    /// Red (code 31)
    Red,
    /// Green (code 32)
    Green,
    /// Yellow (code 33)
    Yellow,
    /// Blue (code 34)
    Blue,
    /// Magenta (code 35)
    Magenta,
    /// Cyan (code 36)
    Cyan,
    /// Light gray (code 37)
    LightGray,
    /// Dark gray (code 90)
    DarkGray,
    /// Light red (code 91)
    LightRed,
    /// Light green (code 92)
    LightGreen,
    /// Light yellow (code 93)
    LightYellow,
    /// Light blue (code 94)
    LightBlue,
    /// Light magenta (code 95)
    LightMagenta,
    /// Light cyan (code 96)
    LightCyan,
    /// White (code 97)
    White,
    /// Bg default background (code 49)
    BgDefaultBackground,
    /// Bg black (code 40)
    BgBlack,
    /// Bg red (code 41)
    BgRed,
    /// Bg green (code 42)
    BgGreen,
    /// Bg yellow (code 43)
    BgYellow,
    /// Bg blue (code 44)
    BgBlue,
    /// Bg magenta (code 45)
    BgMagenta,
    /// Bg cyan (code 46)
    BgCyan,
    /// Bg light gray (code 47)
    BgLightGray,
    /// Bg dark gray (code 100)
    BgDarkGray,
    /// Bg light red (code 101)
    BgLightRed,
    /// Bg light green (code 102)
    BgLightGreen,
    /// Bg light yellow (code 103)
    BgLightYellow,
    /// Bg light blue (code 104)
    BgLightBlue,
    /// Bg light magenta (code 105)
    BgLightMagenta,
    /// Bg light cyan (code 106)
    BgLightCyan,
    /// Bg white (code 107)
    BgWhite,
}

impl Style {
    /// The SGR code of this rendition.
    pub open spec fn spec_code(self) -> u8 {
        match self {
            Style::Normal => 0u8,
            Style::BoldBright => 1u8,
            Style::Dim => 2u8,
            Style::Underlined => 4u8,
            Style::Blink => 5u8,
            Style::Reverse => 7u8,
            Style::Hidden => 8u8,
            Style::DefaultForeground => 39u8,
            Style::Black => 30u8,
            Style::Red => 31u8,
            Style::Green => 32u8,
            Style::Yellow => 33u8,
            Style::Blue => 34u8,
            Style::Magenta => 35u8,
            Style::Cyan => 36u8,
            Style::LightGray => 37u8,
            Style::DarkGray => 90u8,
            Style::LightRed => 91u8,
            Style::LightGreen => 92u8,
            Style::LightYellow => 93u8,
            Style::LightBlue => 94u8,
            Style::LightMagenta => 95u8,
            Style::LightCyan => 96u8,
            Style::White => 97u8,
            Style::BgDefaultBackground => 49u8,
            Style::BgBlack => 40u8,
            Style::BgRed => 41u8,
            Style::BgGreen => 42u8,
            Style::BgYellow => 43u8,
            Style::BgBlue => 44u8,
            Style::BgMagenta => 45u8,
            Style::BgCyan => 46u8,
            Style::BgLightGray => 47u8,
            Style::BgDarkGray => 100u8,
            Style::BgLightRed => 101u8,
            Style::BgLightGreen => 102u8,
            Style::BgLightYellow => 103u8,
            Style::BgLightBlue => 104u8,
            Style::BgLightMagenta => 105u8,
            Style::BgLightCyan => 106u8,
            Style::BgWhite => 107u8,
        }
    }

    /// The SGR code of this rendition.
    pub fn code(&self) -> (r: u8)
        ensures
            r == self.spec_code(),
    {
        match self {
            Style::Normal => 0,
            Style::BoldBright => 1,
            Style::Dim => 2,
            Style::Underlined => 4,
            Style::Blink => 5,
            Style::Reverse => 7,
            Style::Hidden => 8,
            Style::DefaultForeground => 39,
            Style::Black => 30,
            Style::Red => 31,
            Style::Green => 32,
            Style::Yellow => 33,
            Style::Blue => 34,
            Style::Magenta => 35,
            Style::Cyan => 36,
            Style::LightGray => 37,
            Style::DarkGray => 90,
            Style::LightRed => 91,
            Style::LightGreen => 92,
            Style::LightYellow => 93,
            Style::LightBlue => 94,
            Style::LightMagenta => 95,
            Style::LightCyan => 96,
            Style::White => 97,
            Style::BgDefaultBackground => 49,
            Style::BgBlack => 40,
            Style::BgRed => 41,
            Style::BgGreen => 42,
            Style::BgYellow => 43,
            Style::BgBlue => 44,
            Style::BgMagenta => 45,
            Style::BgCyan => 46,
            Style::BgLightGray => 47,
            Style::BgDarkGray => 100,
            Style::BgLightRed => 101,
            Style::BgLightGreen => 102,
            Style::BgLightYellow => 103,
            Style::BgLightBlue => 104,
            Style::BgLightMagenta => 105,
            Style::BgLightCyan => 106,
            Style::BgWhite => 107,
        }
    }

    /// The rendition that the code `input` stands for, if any.
    pub open spec fn spec_from_u8(input: u8) -> Option<Style> {
        if input == 0 {
            Some(Style::Normal)
        } else if input == 1 {
            Some(Style::BoldBright)
        } else if input == 2 {
            Some(Style::Dim)
        } else if input == 4 {
            Some(Style::Underlined)
        } else if input == 5 {
            Some(Style::Blink)
        } else if input == 7 {
            Some(Style::Reverse)
        } else if input == 8 {
            Some(Style::Hidden)
        } else if input == 39 {
            Some(Style::DefaultForeground)
        } else if input == 30 {
            Some(Style::Black)
        } else if input == 31 {
            Some(Style::Red)
        } else if input == 32 {
            Some(Style::Green)
        } else if input == 33 {
            Some(Style::Yellow)
        } else if input == 34 {
            Some(Style::Blue)
        } else if input == 35 {
            Some(Style::Magenta)
        } else if input == 36 {
            Some(Style::Cyan)
        } else if input == 37 {
            Some(Style::LightGray)
        } else if input == 90 {
            Some(Style::DarkGray)
        } else if input == 91 {
            Some(Style::LightRed)
        } else if input == 92 {
            Some(Style::LightGreen)
        } else if input == 93 {
            Some(Style::LightYellow)
        } else if input == 94 {
            Some(Style::LightBlue)
        } else if input == 95 {
            Some(Style::LightMagenta)
        } else if input == 96 {
            Some(Style::LightCyan)
        } else if input == 97 {
            Some(Style::White)
        } else if input == 49 {
            Some(Style::BgDefaultBackground)
        } else if input == 40 {
            Some(Style::BgBlack)
        } else if input == 41 {
            Some(Style::BgRed)
        } else if input == 42 {
            Some(Style::BgGreen)
        } else if input == 43 {
            Some(Style::BgYellow)
        } else if input == 44 {
            Some(Style::BgBlue)
        } else if input == 45 {
            Some(Style::BgMagenta)
        } else if input == 46 {
            Some(Style::BgCyan)
        } else if input == 47 {
            Some(Style::BgLightGray)
        } else if input == 100 {
            Some(Style::BgDarkGray)
        } else if input == 101 {
            Some(Style::BgLightRed)
        } else if input == 102 {
            Some(Style::BgLightGreen)
        } else if input == 103 {
            Some(Style::BgLightYellow)
        } else if input == 104 {
            Some(Style::BgLightBlue)
        } else if input == 105 {
            Some(Style::BgLightMagenta)
        } else if input == 106 {
            Some(Style::BgLightCyan)
        } else if input == 107 {
            Some(Style::BgWhite)
        } else {
            None
        }
    }

    /// Reads a rendition from a decimal code such as `"31"`.
    pub fn from_str(input: &str) -> (r: Option<Self>)
        ensures
            r == match parse_u8_spec(input@) {
                Some(code) => Self::spec_from_u8(code),
                None => None,
            },
    {
        match parse_u8(input) {
            Some(code) => Self::from_u8(code),
            None => None,
        }
    }

    /// Reads a rendition from its code.
    pub fn from_u8(input: u8) -> (r: Option<Self>)
        ensures
            r == Self::spec_from_u8(input),
    {
        match input {
            0 => Some(Style::Normal),
            1 => Some(Style::BoldBright),
            2 => Some(Style::Dim),
            4 => Some(Style::Underlined),
            5 => Some(Style::Blink),
            7 => Some(Style::Reverse),
            8 => Some(Style::Hidden),
            39 => Some(Style::DefaultForeground),
            30 => Some(Style::Black),
            31 => Some(Style::Red),
            32 => Some(Style::Green),
            33 => Some(Style::Yellow),
            34 => Some(Style::Blue),
            35 => Some(Style::Magenta),
            36 => Some(Style::Cyan),
            37 => Some(Style::LightGray),
            90 => Some(Style::DarkGray),
            91 => Some(Style::LightRed),
            92 => Some(Style::LightGreen),
            93 => Some(Style::LightYellow),
            94 => Some(Style::LightBlue),
            95 => Some(Style::LightMagenta),
            96 => Some(Style::LightCyan),
            97 => Some(Style::White),
            49 => Some(Style::BgDefaultBackground),
            40 => Some(Style::BgBlack),
            41 => Some(Style::BgRed),
            42 => Some(Style::BgGreen),
            43 => Some(Style::BgYellow),
            44 => Some(Style::BgBlue),
            45 => Some(Style::BgMagenta),
            46 => Some(Style::BgCyan),
            47 => Some(Style::BgLightGray),
            100 => Some(Style::BgDarkGray),
            101 => Some(Style::BgLightRed),
            102 => Some(Style::BgLightGreen),
            103 => Some(Style::BgLightYellow),
            104 => Some(Style::BgLightBlue),
            105 => Some(Style::BgLightMagenta),
            106 => Some(Style::BgLightCyan),
            107 => Some(Style::BgWhite),
            _ => None,
        }
    }

    /// Whether this is a foreground colour: a code from 30 to 39 or from 90
    /// to 97.
    pub open spec fn spec_is_foreground(self) -> bool {
        30 <= self.spec_code() <= 39 || 90 <= self.spec_code() <= 97
    }

    /// Whether this is a background colour: a code from 40 to 49 or from
    /// 100 to 107.
    pub open spec fn spec_is_background(self) -> bool {
        40 <= self.spec_code() <= 49 || 100 <= self.spec_code() <= 107
    }

    /// Whether this is neither a foreground nor a background colour.
    pub fn is_attribute(&self) -> (r: bool)
        ensures
            r == (!self.spec_is_foreground() && !self.spec_is_background()),
            r == (self.spec_code() <= 8),
    {
        !self.is_foreground() && !self.is_background()
    }

    /// Whether this is a foreground colour.
    pub fn is_foreground(&self) -> (r: bool)
        ensures
            r == self.spec_is_foreground(),
    {
        match *self {
            Style::DefaultForeground
            | Style::Black
            | Style::Red
            | Style::Green
            | Style::Yellow
            | Style::Blue
            | Style::Magenta
            | Style::Cyan
            | Style::LightGray
            | Style::DarkGray
            | Style::LightRed
            | Style::LightGreen
            | Style::LightYellow
            | Style::LightBlue
            | Style::LightMagenta
            | Style::LightCyan
            | Style::White => true,
            _ => false,
        }
    }

    /// Whether this is a background colour.
    pub fn is_background(&self) -> (r: bool)
        ensures
            r == self.spec_is_background(),
    {
        match *self {
            Style::BgDefaultBackground
            | Style::BgBlack
            | Style::BgRed
            | Style::BgGreen
            | Style::BgYellow
            | Style::BgBlue
            | Style::BgMagenta
            | Style::BgCyan
            | Style::BgLightGray
            | Style::BgDarkGray
            | Style::BgLightRed
            | Style::BgLightGreen
            | Style::BgLightYellow
            | Style::BgLightBlue
            | Style::BgLightMagenta
            | Style::BgLightCyan
            | Style::BgWhite => true,
            _ => false,
        }
    }
}

/// `message` between the sequence that selects `style` and the one that
/// selects `reset`.
pub open spec fn wrap_spec(message: Seq<char>, style: u8, reset: u8) -> Seq<char> {
    seq!['\u{1b}', '['] + decimal(style as nat) + seq!['m'] + message + seq!['\u{1b}', '[']
        + decimal(reset as nat) + seq!['m']
}

/// Wraps the message into the given style and closes it with `reset`.
pub fn wrap(message: &str, style: Style, reset: Style) -> (r: String)
    ensures
        r@ == wrap_spec(message@, style.spec_code(), reset.spec_code()),
{
    wrap_codes(message, style.code(), reset.code())
}

/// Wraps the message into the rendition `style` and closes it with `reset`.
pub fn wrap_codes(message: &str, style: u8, reset: u8) -> (r: String)
    ensures
        r@ == wrap_spec(message@, style, reset),
{
    let mut out = String::new();
    push_char(&mut out, '\u{1b}');
    push_char(&mut out, '[');
    push_decimal(&mut out, style as u128);
    push_char(&mut out, 'm');
    out.append(message);
    push_char(&mut out, '\u{1b}');
    push_char(&mut out, '[');
    push_decimal(&mut out, reset as u128);
    push_char(&mut out, 'm');
    proof {
        assert(out@ =~= wrap_spec(message@, style, reset));
    }
    out
}

/// A rendition is read back from its own code, and a code that is read has
/// the rendition's code.
pub proof fn lemma_style_code_round_trip(style: Style, code: u8)
    ensures
        Style::spec_from_u8(style.spec_code()) == Some(style),
        Style::spec_from_u8(code) matches Some(s) ==> s.spec_code() == code,
{
}

} // verus!
