//! Reading styled text: characters with the style that the escape sequences
//! before them select.

use vstd::prelude::*;
use crate::text::chars_of;
use crate::text::digit_value;
use crate::text::is_control;
use crate::text::is_control_spec;
use crate::text::is_digit;
use crate::text::parse_u8_chars;
use crate::text::parse_u8_spec;
use crate::ui::element::Element;
use crate::ui::pixel::Pixel;
use crate::ui::style::StyleTrait;
use crate::ui::style::Styles;

verus! {

pub type PixelSequence = Vec<Pixel>;

/// The state of the reader between two characters.
pub ghost struct Scan {
    /// Whether the reader is inside a control sequence.
    pub in_sequence: bool,
    /// The digits met in the control sequence so far.
    pub digits: Seq<char>,
    /// The style that the next character gets.
    pub style: Styles,
    /// The characters read so far, each with its style.
    pub elements: Seq<Element>,
}

/// The style after a control sequence with the given digits: the style that
/// the code stands for, or the current one where the code stands for none.
pub open spec fn style_after(digits: Seq<char>, current: Styles) -> Styles {
    match parse_u8_spec(digits) {
        Some(code) => match Styles::spec_from_u8(code) {
            Some(style) => style,
            None => current,
        },
        None => current,
    }
}

/// One step of the reader. Outside a control sequence, a control character
/// other than the newline opens one, and any other character is read with
/// the current style. Inside, digits are collected, `m` closes the sequence
/// and sets the style, and everything else is skipped.
pub open spec fn scan_step(state: Scan, c: char) -> Scan {
    if state.in_sequence {
        if c == 'm' {
            Scan {
                in_sequence: false,
                digits: Seq::empty(),
                style: style_after(state.digits, state.style),
                elements: state.elements,
            }
        } else if digit_value(c) is Some {
            Scan {
                in_sequence: true,
                digits: state.digits.push(c),
                style: state.style,
                elements: state.elements,
            }
        } else {
            state
        }
    } else if c != '\n' && is_control_spec(c) {
        Scan {
            in_sequence: true,
            digits: Seq::empty(),
            style: state.style,
            elements: state.elements,
        }
    } else {
        Scan {
            in_sequence: false,
            digits: state.digits,
            style: state.style,
            elements: state.elements.push(Element { character: c, styles: state.style }),
        }
    }
}

/// The state after the first `upto` characters of `text`.
pub open spec fn scan(text: Seq<char>, upto: int) -> Scan
    decreases upto,
{
    if upto <= 0 {
        Scan {
            in_sequence: false,
            digits: Seq::empty(),
            style: Styles::spec_normal(),
            elements: Seq::empty(),
        }
    } else {
        scan_step(scan(text, upto - 1), text[upto - 1])
    }
}

/// The characters of `text` that are shown, newlines included, each with
/// its style.
pub open spec fn parsed(text: Seq<char>) -> Seq<Element> {
    scan(text, text.len() as int).elements
}

/// The column and row after the first `upto` elements, counted from the
/// top left corner: a newline starts the next row.
pub open spec fn cursor_after(elements: Seq<Element>, upto: int) -> (int, int)
    decreases upto,
{
    if upto <= 0 {
        (0, 0)
    } else {
        let (x, y) = cursor_after(elements, upto - 1);
        if elements[upto - 1].character == '\n' {
            (0, y + 1)
        } else {
            (x + 1, y)
        }
    }
}

/// The element at place `k`, at the position that the elements before it
/// lead to.
pub open spec fn positioned(elements: Seq<Element>, k: int) -> Pixel {
    Pixel {
        x: cursor_after(elements, k).0 as u16,
        y: cursor_after(elements, k).1 as u16,
        element: elements[k],
        placeholder: false,
    }
}

/// The style that follows a closed control sequence.
pub fn consume_control_sequence(digits: &Vec<char>, current: Styles) -> (r: Styles)
    ensures
        r == style_after(digits@, current),
{
    match parse_u8_chars(digits) {
        Some(code) => match Styles::from_u8(code) {
            Some(style) => style,
            None => current,
        },
        None => current,
    }
}

/// Reads the shown characters of `text`, each with its style.
pub fn parse_elements(text: &str) -> (r: Vec<Element>)
    ensures
        r@ == parsed(text@),
{
    let chars = chars_of(text);
    let mut elements: Vec<Element> = Vec::new();
    let mut digits: Vec<char> = Vec::new();
    let mut in_sequence = false;
    let mut style = Styles::normal();
    let mut index: usize = 0;
    while index < chars.len()
        invariant
            index <= chars.len(),
            chars@ == text@,
            scan(text@, index as int) == (Scan {
                in_sequence,
                digits: digits@,
                style,
                elements: elements@,
            }),
        decreases chars.len() - index,
    {
        let c = chars[index];
        if in_sequence {
            if c == 'm' {
                style = consume_control_sequence(&digits, style);
                digits = Vec::new();
                in_sequence = false;
            } else if is_digit(c) {
                digits.push(c);
            }
        } else if c != '\n' && is_control(c) {
            in_sequence = true;
            digits = Vec::new();
        } else {
            elements.push(Element::new(c, style));
        }
        index += 1;
    }
    elements
}

/// A sequence of pixels read from styled text.
pub trait PixelSequenceTrait: Sized {
    /// The shown characters of `text`, positioned from the top left corner.
    fn from_str(text: &str) -> (r: Self)
        requires
            text@.len() <= u16::MAX,
    ;
}

impl PixelSequenceTrait for PixelSequence {
    fn from_str(text: &str) -> (r: Self)
        ensures
            r@.len() == parsed(text@).len(),
            forall|k: int| 0 <= k < r@.len() ==> r@[k] == positioned(parsed(text@), k),
    {
        let elements = parse_elements(text);
        proof {
            lemma_parsed_len(text@, text@.len() as int);
        }
        let mut sequence: Vec<Pixel> = Vec::new();
        let mut current_x: u16 = 0;
        let mut current_y: u16 = 0;
        let mut index: usize = 0;
        while index < elements.len()
            invariant
                index <= elements.len(),
                elements@ == parsed(text@),
                elements@.len() <= u16::MAX,
                sequence@.len() == index,
                cursor_after(elements@, index as int) == (current_x as int, current_y as int),
                current_x <= index,
                current_y <= index,
                forall|k: int| 0 <= k < index ==> sequence@[k] == positioned(elements@, k),
            decreases elements.len() - index,
        {
            let element = elements[index];
            sequence.push(Pixel::new(element, current_x, current_y));
            if element.character == '\n' {
                current_y += 1;
                current_x = 0;
            } else {
                current_x += 1;
            }
            index += 1;
        }
        sequence
    }
}

/// One step shows at most one more character.
pub proof fn lemma_step_len(state: Scan, c: char)
    ensures
        state.elements.len() <= scan_step(state, c).elements.len() <= state.elements.len() + 1,
{
    let after = scan_step(state, c);
    if state.in_sequence {
        assert(after.elements == state.elements);
    } else if c != '\n' && is_control_spec(c) {
        assert(after.elements == state.elements);
    } else {
        assert(after.elements == state.elements.push(
            Element { character: c, styles: state.style },
        ));
    }
}

/// No more characters are shown than were read.
pub proof fn lemma_parsed_len(text: Seq<char>, upto: int)
    requires
        0 <= upto <= text.len(),
    ensures
        scan(text, upto).elements.len() <= upto,
    decreases upto,
{
    if upto > 0 {
        lemma_parsed_len(text, upto - 1);
        lemma_step_len(scan(text, upto - 1), text[upto - 1]);
    }
}

} // verus!
