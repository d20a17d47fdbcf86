//! A screen: a buffer of pixels, the layout of styled text on it, and the
//! medium it is flushed to.

use vstd::prelude::*;
use vstd::string::StringExecFns;
use crate::matrix::PointTrait;
use crate::text::char_at;
use crate::text::chars_of;
use crate::text::decimal;
use crate::text::is_control_spec;
use crate::text::push_decimal;
use crate::ui::element::Element;
use crate::ui::error::Error;
use crate::ui::medium::MediumTrait;
use crate::ui::pixel::Pixel;
use crate::ui::pixel_sequence::parse_elements;
use crate::ui::pixel_sequence::parsed;
use crate::ui::pixel_sequence::scan;
use crate::ui::pixel_sequence::scan_step;
use crate::ui::pixel_sequence::Scan;
use crate::ui::style::Styles;
use crate::ui::screen_buffer::bound_message;
use crate::ui::screen_buffer::drawn;
use crate::ui::screen_buffer::for_character;
use crate::ui::screen_buffer::size_message;
use crate::ui::screen_buffer::ScreenBuffer;
use crate::ui::size::Size;

verus! {

/// The width assumed where the terminal does not tell its own.
pub const DEFAULT_WIDTH: u16 = 30;

/// The height assumed where the terminal does not tell its own.
pub const DEFAULT_HEIGHT: u16 = 10;

/// The state of the layout between two characters.
pub ghost struct Layout {
    /// The cells stored in the buffer.
    pub cells: Seq<Pixel>,
    /// The column of the cursor.
    pub x: int,
    /// The row of the cursor.
    pub y: int,
    /// The message of the failure that ended the layout, if one did.
    pub failure: Option<Seq<char>>,
}

/// Places one character. After a failure nothing changes any more. With
/// `wrap`, a cursor that has reached the width first moves to the start of
/// the next row, and a newline met there is absorbed. Otherwise a newline
/// moves the cursor to the next row, at the column of the origin, and takes
/// no cell. Any other character is drawn at the cursor, which then moves one
/// column to the right; where the cursor is outside the screen, the layout
/// fails with the message for that position and character.
pub open spec fn layout_step(
    state: Layout,
    size: Size,
    element: Element,
    origin_x: int,
    wrap: bool,
) -> Layout {
    if state.failure is Some {
        state
    } else {
        let wrapped = wrap && state.x >= size.width;
        let x = if wrapped {
            0
        } else {
            state.x
        };
        let y = if wrapped {
            state.y + 1
        } else {
            state.y
        };
        if element.character == '\n' {
            if wrapped {
                Layout { cells: state.cells, x, y, failure: None }
            } else {
                Layout { cells: state.cells, x: origin_x, y: state.y + 1, failure: None }
            }
        } else {
            match bound_message(x as nat, y as nat, size) {
                Some(message) => Layout {
                    cells: state.cells,
                    x,
                    y,
                    failure: Some(for_character(message, element.character)),
                },
                None => Layout {
                    cells: drawn(
                        state.cells,
                        size.width as int,
                        Pixel { x: x as u16, y: y as u16, element, placeholder: false },
                    ),
                    x: x + 1,
                    y,
                    failure: None,
                },
            }
        }
    }
}

/// The state after the first `upto` elements were placed, one after the
/// other, starting with the cursor at the origin.
pub open spec fn layout(
    cells: Seq<Pixel>,
    size: Size,
    elements: Seq<Element>,
    upto: int,
    origin_x: int,
    origin_y: int,
    wrap: bool,
) -> Layout
    decreases upto,
{
    if upto <= 0 {
        Layout { cells, x: origin_x, y: origin_y, failure: None }
    } else {
        layout_step(
            layout(cells, size, elements, upto - 1, origin_x, origin_y, wrap),
            size,
            elements[upto - 1],
            origin_x,
            wrap,
        )
    }
}

/// The state after all of `text` was laid out.
pub open spec fn layout_of(
    cells: Seq<Pixel>,
    size: Size,
    text: Seq<char>,
    origin_x: int,
    origin_y: int,
    wrap: bool,
) -> Layout {
    layout(cells, size, parsed(text), parsed(text).len() as int, origin_x, origin_y, wrap)
}

/// How many newlines are among the first `upto` characters.
pub open spec fn newline_count(text: Seq<char>, upto: int) -> nat
    decreases upto,
{
    if upto <= 0 {
        0
    } else {
        newline_count(text, upto - 1) + if text[upto - 1] == '\n' {
            1nat
        } else {
            0nat
        }
    }
}

/// The message for a text with more lines than the screen has rows.
pub open spec fn lines_message(height: nat, lines: nat) -> Seq<char> {
    "Buffer height is "@ + decimal(height) + " but the input text contains "@ + decimal(lines)
        + " lines"@
}

/// The message for a newline in a text that must be a single line.
pub open spec fn newline_message() -> Seq<char> {
    "Newline character must not appear in `draw_text()`"@
}

/// Once the layout has failed, further elements change nothing.
pub proof fn lemma_failure_is_final(
    cells: Seq<Pixel>,
    size: Size,
    elements: Seq<Element>,
    failed_at: int,
    upto: int,
    origin_x: int,
    origin_y: int,
    wrap: bool,
)
    requires
        0 <= failed_at <= upto,
        layout(cells, size, elements, failed_at, origin_x, origin_y, wrap).failure is Some,
    ensures
        layout(cells, size, elements, upto, origin_x, origin_y, wrap) == layout(
            cells,
            size,
            elements,
            failed_at,
            origin_x,
            origin_y,
            wrap,
        ),
    decreases upto - failed_at,
{
    if failed_at < upto {
        lemma_failure_is_final(cells, size, elements, failed_at, upto - 1, origin_x, origin_y, wrap);
    }
}

/// A single line is laid out completely exactly if it ends within the
/// width of the screen: of elements without a newline, placed without
/// wrapping from a position in a row of the screen, the first `upto` are
/// drawn without failure if and only if they end within the width, and the
/// cursor then stands behind the last of them.
pub proof fn lemma_single_line(
    cells: Seq<Pixel>,
    size: Size,
    elements: Seq<Element>,
    upto: int,
    x0: u16,
    y0: u16,
)
    requires
        0 <= upto <= elements.len(),
        forall|k: int| 0 <= k < elements.len() ==> elements[k].character != '\n',
        y0 < size.height,
    ensures
        ({
            let end = layout(cells, size, elements, upto, x0 as int, y0 as int, false);
            &&& end.failure is None <==> upto == 0 || x0 + upto <= size.width
            &&& end.failure is None ==> end.x == x0 + upto && end.y == y0
        }),
    decreases upto,
{
    if upto > 0 {
        lemma_single_line(cells, size, elements, upto - 1, x0, y0);
        let before = layout(cells, size, elements, upto - 1, x0 as int, y0 as int, false);
        let end = layout_step(before, size, elements[upto - 1], x0 as int, false);
        assert(end == layout(cells, size, elements, upto, x0 as int, y0 as int, false));
        if before.failure is None {
            assert(before.x == x0 + upto - 1 && before.y == y0);
            assert(bound_message(before.x as nat, before.y as nat, size) is Some <==> before.x
                >= size.width);
        }
    }
}

/// A character in the normal style.
pub open spec fn plain() -> spec_fn(char) -> Element {
    |c: char| Element { character: c, styles: Styles::spec_normal() }
}

/// Outside a control sequence, a character that is no control character is
/// read with the current style.
pub proof fn lemma_plain_step(state: Scan, c: char)
    requires
        !is_control_spec(c),
        !state.in_sequence,
    ensures
        scan_step(state, c).elements == state.elements.push(
            Element { character: c, styles: state.style },
        ),
        !scan_step(state, c).in_sequence,
        scan_step(state, c).style == state.style,
{
}

/// A text without control characters is shown as it is, in the normal
/// style.
pub proof fn lemma_plain_text(text: Seq<char>, upto: int)
    requires
        0 <= upto <= text.len(),
        forall|k: int| 0 <= k < text.len() ==> !is_control_spec(text[k]),
    ensures
        scan(text, upto).elements == text.subrange(0, upto).map_values(plain()),
        !scan(text, upto).in_sequence,
        scan(text, upto).style == Styles::spec_normal(),
    decreases upto,
{
    if upto > 0 {
        lemma_plain_text(text, upto - 1);
        let c = char_at(text, upto - 1);
        let state = scan(text, upto - 1);
        lemma_plain_step(state, c);
        assert(scan(text, upto) == scan_step(state, c));
        let before = state.elements;
        let after = scan(text, upto).elements;
        let shorter = text.subrange(0, upto - 1);
        let longer = text.subrange(0, upto);
        assert forall|j: int| 0 <= j < after.len() implies after[j] == longer.map_values(
            plain(),
        )[j] by {
            assert(longer[j] == text[j]);
            if j < upto - 1 {
                assert(shorter[j] == text[j]);
                assert(before[j] == shorter.map_values(plain())[j]);
            }
        }
        assert(after =~= longer.map_values(plain()));
    } else {
        assert(scan(text, upto).elements =~= text.subrange(0, upto).map_values(plain()));
    }
}

/// A text without control characters that ends within the width of the
/// screen, drawn from a position in a row of the screen, is drawn
/// completely.
pub proof fn lemma_plain_line_is_drawn(cells: Seq<Pixel>, size: Size, text: Seq<char>, x0: u16, y0: u16)
    requires
        forall|k: int| 0 <= k < text.len() ==> !is_control_spec(text[k]),
        x0 + text.len() <= size.width,
        y0 < size.height,
    ensures
        !text.contains('\n'),
        layout_of(cells, size, text, x0 as int, y0 as int, false).failure is None,
{
    lemma_plain_text(text, text.len() as int);
    assert(text.subrange(0, text.len() as int) =~= text);
    let elements = parsed(text);
    assert(elements == text.map_values(plain()));
    assert forall|k: int| 0 <= k < elements.len() implies elements[k].character != '\n' by {
        assert(!is_control_spec(text[k]));
    }
    if text.contains('\n') {
        let k = choose|k: int| 0 <= k < text.len() && text[k] == '\n';
        assert(!is_control_spec(text[k]));
    }
    lemma_single_line(cells, size, elements, elements.len() as int, x0, y0);
}

pub struct Screen<T: MediumTrait> {
    buffer: ScreenBuffer,
    medium: T,
}

impl<T: MediumTrait> Screen<T> {
    /// The buffer behind the screen.
    pub closed spec fn spec_buffer(&self) -> ScreenBuffer {
        self.buffer
    }

    /// The medium that the screen is flushed to.
    pub closed spec fn spec_medium(&self) -> T {
        self.medium
    }

    /// The buffer is well formed.
    pub open spec fn wf(&self) -> bool {
        self.spec_buffer().wf()
    }

    /// What holds of a screen after text was laid out on it: size and blank
    /// pixel are kept, the cells are those of the layout, and the result is
    /// the layout's failure as a `SizeError`, or `Ok` where it has none.
    pub open spec fn laid_out(
        before: &Self,
        after: &Self,
        outcome: Layout,
        r: Result<(), Error>,
    ) -> bool {
        &&& after.wf()
        &&& after.spec_buffer().spec_size() == before.spec_buffer().spec_size()
        &&& after.spec_buffer().spec_blank() == before.spec_buffer().spec_blank()
        &&& after.spec_buffer().cells() == outcome.cells
        &&& match outcome.failure {
            Some(message) => r matches Err(Error::SizeError(m)) && m@ == message,
            None => r is Ok,
        }
    }

    /// What holds where a text was refused before anything was drawn.
    pub open spec fn untouched(before: &Self, after: &Self) -> bool {
        &&& after.wf()
        &&& after.spec_buffer().spec_size() == before.spec_buffer().spec_size()
        &&& after.spec_buffer().spec_blank() == before.spec_buffer().spec_blank()
        &&& after.spec_buffer().cells() == before.spec_buffer().cells()
    }

    /// A screen with an empty buffer of the given size.
    pub fn new(size: Size, fill_pixel: Pixel, medium: T) -> (r: Result<Self, Error>)
        ensures
            match r {
                Ok(screen) => size_message(size) is None && screen.wf()
                    && screen.spec_buffer().spec_size() == size
                    && screen.spec_buffer().spec_blank() == fill_pixel
                    && screen.spec_buffer().cells().len() == 0,
                Err(e) => e matches Error::SizeError(m) && size_message(size) == Some(m@),
            },
    {
        match ScreenBuffer::new(size, fill_pixel) {
            Ok(buffer) => Ok(Screen { buffer, medium }),
            Err(e) => Err(e),
        }
    }

    pub fn size(&self) -> (r: Size)
        ensures
            r == self.spec_buffer().spec_size(),
    {
        self.buffer.size()
    }

    /// Draws a single line of text, starting at the point. A text that holds
    /// a newline anywhere is refused with an `InputTextError` before
    /// anything is drawn. A character that does not fit ends the drawing
    /// with a `SizeError`; the characters before it stay drawn.
    pub fn draw_text<P: PointTrait>(&mut self, point: &P, text: &str) -> (r: Result<(), Error>)
        requires
            old(self).wf(),
        ensures
            text@.contains('\n') ==> Self::untouched(old(self), final(self)) && (r matches Err(
                Error::InputTextError(m),
            ) && m@ == newline_message()),
            !text@.contains('\n') ==> Self::laid_out(
                old(self),
                final(self),
                layout_of(
                    old(self).spec_buffer().cells(),
                    old(self).spec_buffer().spec_size(),
                    text@,
                    point.spec_x() as int,
                    point.spec_y() as int,
                    false,
                ),
                r,
            ),
    {
        if count_newlines(text) > 0 {
            proof {
                lemma_newline_count(text@, text@.len() as int);
                assert(text@.subrange(0, text@.len() as int) =~= text@);
            }
            return Err(
                Error::InputTextError(
                    String::from_str("Newline character must not appear in `draw_text()`"),
                ),
            );
        }
        proof {
            lemma_newline_count(text@, text@.len() as int);
            assert(text@.subrange(0, text@.len() as int) =~= text@);
        }
        let elements = parse_elements(text);
        self.place(&elements, point.x(), point.y(), false)
    }

    /// Draws text that may hold newlines, starting at the point, and moves
    /// to the next row where a row is full.
    pub fn draw_text_wrapping<P: PointTrait>(&mut self, point: &P, text: &str) -> (r: Result<
        (),
        Error,
    >)
        requires
            old(self).wf(),
        ensures
            Self::multi_line_drawn(old(self), final(self), point.spec_x(), point.spec_y(), text@, true, r),
    {
        self.draw_multi_line_text_wrapping(point, text, true)
    }

    /// Draws text that may hold newlines, starting at the point. A row that
    /// is full is not continued on the next one.
    pub fn draw_multi_line_text<P: PointTrait>(&mut self, point: &P, text: &str) -> (r: Result<
        (),
        Error,
    >)
        requires
            old(self).wf(),
        ensures
            Self::multi_line_drawn(old(self), final(self), point.spec_x(), point.spec_y(), text@, false, r),
    {
        self.draw_multi_line_text_wrapping(point, text, false)
    }

    /// What holds after a text of several lines was drawn: a text with more
    /// newlines than the screen has rows is refused with a `SizeError`
    /// before anything is drawn; any other text is laid out, and a character
    /// that does not fit ends the drawing with a `SizeError`, the characters
    /// before it staying drawn.
    pub open spec fn multi_line_drawn(
        before: &Self,
        after: &Self,
        x: u16,
        y: u16,
        text: Seq<char>,
        auto_wrap: bool,
        r: Result<(), Error>,
    ) -> bool {
        let height = before.spec_buffer().spec_size().height;
        let lines = newline_count(text, text.len() as int);
        if lines > height {
            Self::untouched(before, after) && (r matches Err(Error::SizeError(m)) && m@
                == lines_message(height as nat, lines))
        } else {
            Self::laid_out(
                before,
                after,
                layout_of(
                    before.spec_buffer().cells(),
                    before.spec_buffer().spec_size(),
                    text,
                    x as int,
                    y as int,
                    auto_wrap,
                ),
                r,
            )
        }
    }

    /// Draws text that may hold newlines, with or without wrapping.
    pub fn draw_multi_line_text_wrapping<P: PointTrait>(
        &mut self,
        point: &P,
        text: &str,
        auto_wrap: bool,
    ) -> (r: Result<(), Error>)
        requires
            old(self).wf(),
        ensures
            Self::multi_line_drawn(
                old(self),
                final(self),
                point.spec_x(),
                point.spec_y(),
                text@,
                auto_wrap,
                r,
            ),
    {
        let lines_count: usize = count_newlines(text);
        let height: u16 = self.buffer.height();
        if lines_count > height as usize {
            let mut message = String::new();
            message.append("Buffer height is ");
            push_decimal(&mut message, height as u128);
            message.append(" but the input text contains ");
            push_decimal(&mut message, lines_count as u128);
            message.append(" lines");
            proof {
                assert(message@ =~= lines_message(height as nat, lines_count as nat));
            }
            return Err(Error::SizeError(message));
        }
        let elements = parse_elements(text);
        self.place(&elements, point.x(), point.y(), auto_wrap)
    }

    /// Places the elements one after the other, up to the first that does
    /// not fit.
    fn place(&mut self, elements: &Vec<Element>, origin_x: u16, origin_y: u16, auto_wrap: bool) -> (r:
        Result<(), Error>)
        requires
            old(self).wf(),
        ensures
            Self::laid_out(
                old(self),
                final(self),
                layout(
                    old(self).spec_buffer().cells(),
                    old(self).spec_buffer().spec_size(),
                    elements@,
                    elements@.len() as int,
                    origin_x as int,
                    origin_y as int,
                    auto_wrap,
                ),
                r,
            ),
    {
        let width: u128 = self.buffer.width() as u128;
        let ghost size = self.buffer.spec_size();
        let ghost start = self.buffer.cells();
        let mut current_x: u128 = origin_x as u128;
        let mut current_y: u128 = origin_y as u128;
        let mut index: usize = 0;
        while index < elements.len()
            invariant
                index <= elements.len(),
                self.wf(),
                self.buffer.spec_size() == size,
                self.buffer.spec_size() == old(self).buffer.spec_size(),
                self.buffer.spec_blank() == old(self).buffer.spec_blank(),
                start == old(self).buffer.cells(),
                width == size.width,
                current_x <= 65535,
                current_y <= origin_y + index,
                layout(
                    start,
                    size,
                    elements@,
                    index as int,
                    origin_x as int,
                    origin_y as int,
                    auto_wrap,
                ) == (Layout {
                    cells: self.buffer.cells(),
                    x: current_x as int,
                    y: current_y as int,
                    failure: None,
                }),
            decreases elements.len() - index,
        {
            let element = elements[index];
            let wrapped = auto_wrap && current_x >= width;
            if wrapped {
                current_y += 1;
                current_x = 0;
            }
            if element.character == '\n' {
                if !wrapped {
                    current_y += 1;
                    current_x = origin_x as u128;
                }
            } else {
                match self.buffer.draw_element(element, current_x, current_y) {
                    Ok(()) => {
                        current_x += 1;
                    },
                    Err(e) => {
                        proof {
                            lemma_failure_is_final(
                                start,
                                size,
                                elements@,
                                index + 1,
                                elements@.len() as int,
                                origin_x as int,
                                origin_y as int,
                                auto_wrap,
                            );
                        }
                        return Err(e);
                    },
                }
            }
            index += 1;
        }
        Ok(())
    }

    /// The whole screen as text.
    pub fn get_contents(&self) -> (r: String)
        requires
            self.wf(),
        ensures
            r@ == self.spec_buffer().spec_contents(true),
    {
        self.buffer.get_contents()
    }

    /// Hands the whole screen to the medium: the medium is asked once to draw
    /// the text of the screen, and what it answers is the result.
    pub fn flush(&self) -> (r: Result<(), Error>)
        requires
            self.wf(),
        ensures
            exists|output: &str|
                output@ == self.spec_buffer().spec_contents(true) && #[trigger] call_ensures(
                    T::draw,
                    (&self.spec_medium(), output),
                    r,
                ),
    {
        let contents = self.buffer.get_contents();
        let output = contents.as_str();
        let result = self.medium.draw(output);
        proof {
            assert(call_ensures(T::draw, (&self.spec_medium(), output), result));
        }
        result
    }
}

/// The number of newlines in `text`.
pub fn count_newlines(text: &str) -> (r: usize)
    ensures
        r == newline_count(text@, text@.len() as int),
{
    let chars = chars_of(text);
    let mut count: usize = 0;
    let mut index: usize = 0;
    while index < chars.len()
        invariant
            index <= chars.len(),
            chars@ == text@,
            count <= index,
            count == newline_count(text@, index as int),
        decreases chars.len() - index,
    {
        if chars[index] == '\n' {
            count += 1;
        }
        index += 1;
    }
    count
}

/// A text holds a newline exactly if its count of newlines is not zero.
pub proof fn lemma_newline_count(text: Seq<char>, upto: int)
    requires
        0 <= upto <= text.len(),
    ensures
        newline_count(text, upto) > 0 <==> text.subrange(0, upto).contains('\n'),
    decreases upto,
{
    if upto > 0 {
        lemma_newline_count(text, upto - 1);
        let shorter = text.subrange(0, upto - 1);
        let longer = text.subrange(0, upto);
        if shorter.contains('\n') {
            let k = choose|k: int| 0 <= k < shorter.len() && shorter[k] == '\n';
            assert(longer[k] == '\n');
        }
        if text[upto - 1] == '\n' {
            assert(longer[upto - 1] == '\n');
        }
        if longer.contains('\n') {
            let k = choose|k: int| 0 <= k < longer.len() && longer[k] == '\n';
            if k < upto - 1 {
                assert(shorter[k] == '\n');
            }
        }
    } else {
        assert(text.subrange(0, 0).len() == 0);
    }
}

} // verus!
