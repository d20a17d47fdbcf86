//! Text styles: an attribute, a foreground colour and a background colour,
//! each with its SGR code, and the escape sequences that apply them.

use vstd::prelude::*;
use vstd::string::StringExecFns;
use crate::text::decimal;
use crate::text::parse_u8;
use crate::text::parse_u8_spec;
use crate::text::push_char;
use crate::text::push_decimal;

verus! {

/// A value that can be read back from its SGR code.
pub trait StyleTrait: Sized {
    /// The value that the code `input` stands for, if any.
    spec fn spec_from_u8(input: u8) -> Option<Self>;

    /// Reads the value from a decimal code such as `"31"`.
    fn from_str(input: &str) -> (r: Option<Self>)
        ensures
            r == match parse_u8_spec(input@) {
                Some(code) => Self::spec_from_u8(code),
                None => None,
            },
    ;

    /// Reads the value from its code.
    fn from_u8(input: u8) -> (r: Option<Self>)
        ensures
            r == Self::spec_from_u8(input),
    ;
}

/// A font attribute.
#[derive(Debug, Copy, Clone, PartialEq, Eq, Structural)]
pub enum Attribute {
    /// Normal font style (code 0)
    Normal,
    /// Bold or bright (code 1)
    BoldBright,
    /// Dim (code 2)
    Dim,
    /// Underlined (code 4)
    Underlined,
    /// Blink (code 5)
    Blink,
    /// Reverse video: foreground and background swapped (code 7)
    Reverse,
    /// Hidden (code 8)
    Hidden,
}

impl Attribute {
    /// The SGR code of this value.
    pub open spec fn spec_code(self) -> u8 {
        match self {
            Attribute::Normal => 0u8,
            Attribute::BoldBright => 1u8,
            Attribute::Dim => 2u8,
            Attribute::Underlined => 4u8,
            Attribute::Blink => 5u8,
            Attribute::Reverse => 7u8,
            Attribute::Hidden => 8u8,
        }
    }

    /// The SGR code of this value.
    pub fn code(&self) -> (r: u8)
        ensures
            r == self.spec_code(),
    {
        match self {
            Attribute::Normal => 0,
            Attribute::BoldBright => 1,
            Attribute::Dim => 2,
            Attribute::Underlined => 4,
            Attribute::Blink => 5,
            Attribute::Reverse => 7,
            Attribute::Hidden => 8,
        }
    }
}

impl StyleTrait for Attribute {
    open spec fn spec_from_u8(input: u8) -> Option<Self> {
        if input == 0 {
            Some(Attribute::Normal)
        } else if input == 1 {
            Some(Attribute::BoldBright)
        } else if input == 2 {
            Some(Attribute::Dim)
        } else if input == 4 {
            Some(Attribute::Underlined)
        } else if input == 5 {
            Some(Attribute::Blink)
        } else if input == 7 {
            Some(Attribute::Reverse)
        } else if input == 8 {
            Some(Attribute::Hidden)
        } else {
            None
        }
    }

    fn from_u8(input: u8) -> (r: Option<Self>) {
        match input {
            0 => Some(Attribute::Normal),
            1 => Some(Attribute::BoldBright),
            2 => Some(Attribute::Dim),
            4 => Some(Attribute::Underlined),
            5 => Some(Attribute::Blink),
            7 => Some(Attribute::Reverse),
            8 => Some(Attribute::Hidden),
            _ => None,
        }
    }

    fn from_str(input: &str) -> (r: Option<Self>) {
        match parse_u8(input) {
            Some(code) => Self::from_u8(code),
            None => None,
        }
    }
}

/// A foreground colour.
#[derive(Debug, Copy, Clone, PartialEq, Eq, Structural)]
pub enum Foreground {
    /// Default (code 39)
    Default,
    /// Black (code 30)
    Black,
    /// Red (code 31)
    Red,
    /// Green (code 32)
    Green,
    /// Yellow (code 33)
    Yellow,
    /// Blue (code 34)
    Blue,
    /// Magenta (code 35)
    Magenta,
    /// Cyan (code 36)
    Cyan,
    /// Light gray (code 37)
    LightGray,
    /// Dark gray (code 90)
    DarkGray,
    /// Light red (code 91)
    LightRed,
    /// Light green (code 92)
    LightGreen,
    /// Light yellow (code 93)
    LightYellow,
    /// Light blue (code 94)
    LightBlue,
    /// Light magenta (code 95)
    LightMagenta,
    /// Light cyan (code 96)
    LightCyan,
    /// White (code 97)
    White,
}

impl Foreground {
    /// The SGR code of this value.
    pub open spec fn spec_code(self) -> u8 {
        match self {
            Foreground::Default => 39u8,
            Foreground::Black => 30u8,
            Foreground::Red => 31u8,
            Foreground::Green => 32u8,
            Foreground::Yellow => 33u8,
            Foreground::Blue => 34u8,
            Foreground::Magenta => 35u8,
            Foreground::Cyan => 36u8,
            Foreground::LightGray => 37u8,
            Foreground::DarkGray => 90u8,
            Foreground::LightRed => 91u8,
            Foreground::LightGreen => 92u8,
            Foreground::LightYellow => 93u8,
            Foreground::LightBlue => 94u8,
            Foreground::LightMagenta => 95u8,
            Foreground::LightCyan => 96u8,
            Foreground::White => 97u8,
        }
    }

    /// The SGR code of this value.
    pub fn code(&self) -> (r: u8)
        ensures
            r == self.spec_code(),
    {
        match self {
            Foreground::Default => 39,
            Foreground::Black => 30,
            Foreground::Red => 31,
            Foreground::Green => 32,
            Foreground::Yellow => 33,
            Foreground::Blue => 34,
            Foreground::Magenta => 35,
            Foreground::Cyan => 36,
            Foreground::LightGray => 37,
            Foreground::DarkGray => 90,
            Foreground::LightRed => 91,
            Foreground::LightGreen => 92,
            Foreground::LightYellow => 93,
            Foreground::LightBlue => 94,
            Foreground::LightMagenta => 95,
            Foreground::LightCyan => 96,
            Foreground::White => 97,
        }
    }
}

impl StyleTrait for Foreground {
    open spec fn spec_from_u8(input: u8) -> Option<Self> {
        if input == 39 {
            Some(Foreground::Default)
        } else if input == 30 {
            Some(Foreground::Black)
        } else if input == 31 {
            Some(Foreground::Red)
        } else if input == 32 {
            Some(Foreground::Green)
        } else if input == 33 {
            Some(Foreground::Yellow)
        } else if input == 34 {
            Some(Foreground::Blue)
        } else if input == 35 {
            Some(Foreground::Magenta)
        } else if input == 36 {
            Some(Foreground::Cyan)
        } else if input == 37 {
            Some(Foreground::LightGray)
        } else if input == 90 {
            Some(Foreground::DarkGray)
        } else if input == 91 {
            Some(Foreground::LightRed)
        } else if input == 92 {
            Some(Foreground::LightGreen)
        } else if input == 93 {
            Some(Foreground::LightYellow)
        } else if input == 94 {
            Some(Foreground::LightBlue)
        } else if input == 95 {
            Some(Foreground::LightMagenta)
        } else if input == 96 {
            Some(Foreground::LightCyan)
        } else if input == 97 {
            Some(Foreground::White)
        } else {
            None
        }
    }

    fn from_u8(input: u8) -> (r: Option<Self>) {
        match input {
            39 => Some(Foreground::Default),
            30 => Some(Foreground::Black),
            31 => Some(Foreground::Red),
            32 => Some(Foreground::Green),
            33 => Some(Foreground::Yellow),
            34 => Some(Foreground::Blue),
            35 => Some(Foreground::Magenta),
            36 => Some(Foreground::Cyan),
            37 => Some(Foreground::LightGray),
            90 => Some(Foreground::DarkGray),
            91 => Some(Foreground::LightRed),
            92 => Some(Foreground::LightGreen),
            93 => Some(Foreground::LightYellow),
            94 => Some(Foreground::LightBlue),
            95 => Some(Foreground::LightMagenta),
            96 => Some(Foreground::LightCyan),
            97 => Some(Foreground::White),
            _ => None,
        }
    }

    fn from_str(input: &str) -> (r: Option<Self>) {
        match parse_u8(input) {
            Some(code) => Self::from_u8(code),
            None => None,
        }
    }
}

/// A background colour.
#[derive(Debug, Copy, Clone, PartialEq, Eq, Structural)]
pub enum Background {
    /// Default (code 49)
    Default,
    /// Black (code 40)
    Black,
    /// Red (code 41)
    Red,
    /// Green (code 42)
    Green,
    /// Yellow (code 43)
    Yellow,
    /// Blue (code 44)
    Blue,
    /// Magenta (code 45)
    Magenta,
    /// Cyan (code 46)
    Cyan,
    /// Light gray (code 47)
    LightGray,
    /// Dark gray (code 100)
    DarkGray,
    /// Light red (code 101)
    LightRed,
    /// Light green (code 102)
    LightGreen,
    /// Light yellow (code 103)
    LightYellow,
    /// Light blue (code 104)
    LightBlue,
    /// Light magenta (code 105)
    LightMagenta,
    /// Light cyan (code 106)
    LightCyan,
    /// White (code 107)
    White,
}

impl Background {
    /// The SGR code of this value.
    pub open spec fn spec_code(self) -> u8 {
        match self {
            Background::Default => 49u8,
            Background::Black => 40u8,
            Background::Red => 41u8,
            Background::Green => 42u8,
            Background::Yellow => 43u8,
            Background::Blue => 44u8,
            Background::Magenta => 45u8,
            Background::Cyan => 46u8,
            Background::LightGray => 47u8,
            Background::DarkGray => 100u8,
            Background::LightRed => 101u8,
            Background::LightGreen => 102u8,
            Background::LightYellow => 103u8,
            Background::LightBlue => 104u8,
            Background::LightMagenta => 105u8,
            Background::LightCyan => 106u8,
            Background::White => 107u8,
        }
    }

    /// The SGR code of this value.
    pub fn code(&self) -> (r: u8)
        ensures
            r == self.spec_code(),
    {
        match self {
            Background::Default => 49,
            Background::Black => 40,
            Background::Red => 41,
            Background::Green => 42,
            Background::Yellow => 43,
            Background::Blue => 44,
            Background::Magenta => 45,
            Background::Cyan => 46,
            Background::LightGray => 47,
            Background::DarkGray => 100,
            Background::LightRed => 101,
            Background::LightGreen => 102,
            Background::LightYellow => 103,
            Background::LightBlue => 104,
            Background::LightMagenta => 105,
            Background::LightCyan => 106,
            Background::White => 107,
        }
    }
}

impl StyleTrait for Background {
    open spec fn spec_from_u8(input: u8) -> Option<Self> {
        if input == 49 {
            Some(Background::Default)
        } else if input == 40 {
            Some(Background::Black)
        } else if input == 41 {
            Some(Background::Red)
        } else if input == 42 {
            Some(Background::Green)
        } else if input == 43 {
            Some(Background::Yellow)
        } else if input == 44 {
            Some(Background::Blue)
        } else if input == 45 {
            Some(Background::Magenta)
        } else if input == 46 {
            Some(Background::Cyan)
        } else if input == 47 {
            Some(Background::LightGray)
        } else if input == 100 {
            Some(Background::DarkGray)
        } else if input == 101 {
            Some(Background::LightRed)
        } else if input == 102 {
            Some(Background::LightGreen)
        } else if input == 103 {
            Some(Background::LightYellow)
        } else if input == 104 {
            Some(Background::LightBlue)
        } else if input == 105 {
            Some(Background::LightMagenta)
        } else if input == 106 {
            Some(Background::LightCyan)
        } else if input == 107 {
            Some(Background::White)
        } else {
            None
        }
    }

    fn from_u8(input: u8) -> (r: Option<Self>) {
        match input {
            49 => Some(Background::Default),
            40 => Some(Background::Black),
            41 => Some(Background::Red),
            42 => Some(Background::Green),
            43 => Some(Background::Yellow),
            44 => Some(Background::Blue),
            45 => Some(Background::Magenta),
            46 => Some(Background::Cyan),
            47 => Some(Background::LightGray),
            100 => Some(Background::DarkGray),
            101 => Some(Background::LightRed),
            102 => Some(Background::LightGreen),
            103 => Some(Background::LightYellow),
            104 => Some(Background::LightBlue),
            105 => Some(Background::LightMagenta),
            106 => Some(Background::LightCyan),
            107 => Some(Background::White),
            _ => None,
        }
    }

    fn from_str(input: &str) -> (r: Option<Self>) {
        match parse_u8(input) {
            Some(code) => Self::from_u8(code),
            None => None,
        }
    }
}

/// An attribute, a foreground and a background.
#[derive(Debug, Copy, Clone, PartialEq, Eq, Structural)]
pub struct Styles {
    pub foreground: Foreground,
    pub background: Background,
    pub attribute: Attribute,
}

impl Styles {
    /// The style in which nothing is set.
    pub open spec fn spec_normal() -> Styles {
        Styles {
            foreground: Foreground::Default,
            background: Background::Default,
            attribute: Attribute::Normal,
        }
    }

    /// The style in which nothing is set.
    pub fn normal() -> (r: Self)
        ensures
            r == Self::spec_normal(),
    {
        Styles {
            foreground: Foreground::Default,
            background: Background::Default,
            attribute: Attribute::Normal,
        }
    }

    /// This style with another foreground.
    pub fn with_foreground(&self, foreground: Foreground) -> (r: Self)
        ensures
            r == (Styles { foreground, ..*self }),
    {
        Styles { foreground, background: self.background, attribute: self.attribute }
    }

    /// This style with another background.
    pub fn with_background(&self, background: Background) -> (r: Self)
        ensures
            r == (Styles { background, ..*self }),
    {
        Styles { foreground: self.foreground, background, attribute: self.attribute }
    }

    /// This style with another attribute.
    pub fn with_attribute(&self, attribute: Attribute) -> (r: Self)
        ensures
            r == (Styles { attribute, ..*self }),
    {
        Styles { foreground: self.foreground, background: self.background, attribute }
    }

    /// Whether nothing is set in this style.
    pub fn is_normal(&self) -> (r: bool)
        ensures
            r == (*self == Self::spec_normal()),
    {
        self.foreground == Foreground::Default && self.background == Background::Default
            && self.attribute == Attribute::Normal
    }
}

impl StyleTrait for Styles {
    /// A code sets exactly one of the three parts, on top of the normal
    /// style: the attribute, the foreground or the background that has this
    /// code. The three sets of codes do not overlap.
    open spec fn spec_from_u8(input: u8) -> Option<Self> {
        match Attribute::spec_from_u8(input) {
            Some(attribute) => Some(Styles { attribute, ..Styles::spec_normal() }),
            None => match Foreground::spec_from_u8(input) {
                Some(foreground) => Some(Styles { foreground, ..Styles::spec_normal() }),
                None => match Background::spec_from_u8(input) {
                    Some(background) => Some(Styles { background, ..Styles::spec_normal() }),
                    None => None,
                },
            },
        }
    }

    fn from_u8(input: u8) -> (r: Option<Self>) {
        if let Some(style) = Attribute::from_u8(input) {
            Some(Styles::normal().with_attribute(style))
        } else if let Some(style) = Foreground::from_u8(input) {
            Some(Styles::normal().with_foreground(style))
        } else if let Some(style) = Background::from_u8(input) {
            Some(Styles::normal().with_background(style))
        } else {
            None
        }
    }

    fn from_str(input: &str) -> (r: Option<Self>) {
        match parse_u8(input) {
            Some(code) => Self::from_u8(code),
            None => None,
        }
    }
}

/// The escape sequence that selects the rendition `code`: `ESC [ code m`.
pub open spec fn sgr(code: u8) -> Seq<char> {
    seq!['\u{1b}', '['] + decimal(code as nat) + seq!['m']
}

/// `message` between the sequences of `styles` (attribute, background,
/// foreground, in this order) and a closing full reset.
pub open spec fn wrap_spec(message: Seq<char>, styles: Styles) -> Seq<char> {
    sgr(styles.attribute.spec_code()) + sgr(styles.background.spec_code()) + sgr(
        styles.foreground.spec_code(),
    ) + message + sgr(0)
}

/// Appends the escape sequence for `code` to `out`.
pub fn push_sgr(out: &mut String, code: u8)
    ensures
        final(out)@ == old(out)@ + sgr(code),
{
    push_char(out, '\u{1b}');
    push_char(out, '[');
    push_decimal(out, code as u128);
    push_char(out, 'm');
    proof {
        assert(final(out)@ =~= old(out)@ + sgr(code));
    }
}

/// Wraps the message into the given styles and closes with a full reset.
pub fn wrap(message: &str, styles: Styles) -> (r: String)
    ensures
        r@ == wrap_spec(message@, styles),
{
    let mut out = String::new();
    push_sgr(&mut out, styles.attribute.code());
    push_sgr(&mut out, styles.background.code());
    push_sgr(&mut out, styles.foreground.code());
    out.append(message);
    push_sgr(&mut out, 0);
    proof {
        assert(out@ =~= wrap_spec(message@, styles));
    }
    out
}

/// Wraps a single character into the given styles.
pub fn wrap_char(character: char, styles: Styles) -> (r: String)
    ensures
        r@ == wrap_spec(seq![character], styles),
{
    let mut out = String::new();
    push_sgr(&mut out, styles.attribute.code());
    push_sgr(&mut out, styles.background.code());
    push_sgr(&mut out, styles.foreground.code());
    push_char(&mut out, character);
    push_sgr(&mut out, 0);
    proof {
        assert(out@ =~= wrap_spec(seq![character], styles));
    }
    out
}

/// Every attribute, foreground and background is read back from its own code,
/// and the code selects that part alone: a style is recovered part by part
/// from the three codes that `wrap` emits for it.
pub proof fn lemma_code_round_trip(styles: Styles)
    ensures
        Attribute::spec_from_u8(styles.attribute.spec_code()) == Some(styles.attribute),
        Foreground::spec_from_u8(styles.foreground.spec_code()) == Some(styles.foreground),
        Background::spec_from_u8(styles.background.spec_code()) == Some(styles.background),
        Styles::spec_from_u8(styles.attribute.spec_code()) == Some(
            Styles { attribute: styles.attribute, ..Styles::spec_normal() },
        ),
        Styles::spec_from_u8(styles.foreground.spec_code()) == Some(
            Styles { foreground: styles.foreground, ..Styles::spec_normal() },
        ),
        Styles::spec_from_u8(styles.background.spec_code()) == Some(
            Styles { background: styles.background, ..Styles::spec_normal() },
        ),
        styles == (Styles {
            attribute: Styles::spec_from_u8(styles.attribute.spec_code())->0.attribute,
            foreground: Styles::spec_from_u8(styles.foreground.spec_code())->0.foreground,
            background: Styles::spec_from_u8(styles.background.spec_code())->0.background,
        }),
{
}

/// A code stands for at most one value, and that value has this code.
pub proof fn lemma_code_of_parsed(code: u8)
    ensures
        Attribute::spec_from_u8(code) matches Some(a) ==> a.spec_code() == code,
        Foreground::spec_from_u8(code) matches Some(f) ==> f.spec_code() == code,
        Background::spec_from_u8(code) matches Some(b) ==> b.spec_code() == code,
{
}

} // verus!
