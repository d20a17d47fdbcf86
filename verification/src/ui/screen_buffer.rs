//! A bounded grid of pixels, stored row by row and filled lazily.

use vstd::prelude::*;
use vstd::string::StringExecFns;
use crate::matrix::PointTrait;
use crate::point::Point;
use crate::text::decimal;
use crate::text::push_char;
use crate::text::push_decimal;
use crate::ui::element::Element;
use crate::ui::error::Error;
use crate::ui::pixel::Pixel;
use crate::ui::size::Size;
use crate::ui::style::wrap_char;
use crate::ui::style::wrap_spec;
use crate::ui::style::Styles;

verus! {

/// The message for a column outside the screen.
pub open spec fn x_bound_message(x: nat, width: nat) -> Seq<char> {
    "The point's `x` coordinate ("@ + decimal(x) + ") is bigger than the screen's width ("@
        + decimal(width) + ")"@
}

/// The message for a row outside the screen.
pub open spec fn y_bound_message(y: nat, height: nat) -> Seq<char> {
    "The point's `y` coordinate ("@ + decimal(y) + ") is bigger than the screen's height ("@
        + decimal(height) + ")"@
}

/// The message for a position outside a screen of the given size, if it is
/// outside: the column is checked first.
pub open spec fn bound_message(x: nat, y: nat, size: Size) -> Option<Seq<char>> {
    if x >= size.width {
        Some(x_bound_message(x, size.width as nat))
    } else if y >= size.height {
        Some(y_bound_message(y, size.height as nat))
    } else {
        None
    }
}

/// A message, followed by the character that was to be drawn.
pub open spec fn for_character(message: Seq<char>, character: char) -> Seq<char> {
    message + " for character '"@ + seq![character] + "'"@
}

/// The message for a size that a screen cannot have.
pub open spec fn size_message(size: Size) -> Option<Seq<char>> {
    if size.width == 0 || size.height == 0 {
        Some(
            "The screen size "@ + decimal(size.width as nat) + seq!['x'] + decimal(
                size.height as nat,
            ) + " is too small"@,
        )
    } else if size.width * size.height + size.height > usize::MAX {
        Some(
            "The screen size "@ + decimal(size.width as nat) + seq!['x'] + decimal(
                size.height as nat,
            ) + " is too big"@,
        )
    } else {
        None
    }
}

/// The place of a position in row-major order.
pub open spec fn cell_index(x: int, y: int, width: int) -> int {
    y * width + x
}

/// The cells that fill the places `from`, `from + 1`, ... `from + count - 1`
/// of a screen of the given width: placeholders, each at its own position.
pub open spec fn gap(from: int, count: int, width: int) -> Seq<Pixel> {
    Seq::new(
        count as nat,
        |k: int| Pixel::spec_placeholder(((from + k) % width) as u16, ((from + k) / width) as u16),
    )
}

/// The stored cells after `pixel` was drawn at its place: written over what
/// was there, or appended after the gap that is left before it.
pub open spec fn drawn(cells: Seq<Pixel>, width: int, pixel: Pixel) -> Seq<Pixel> {
    let index = cell_index(pixel.x as int, pixel.y as int, width);
    if index < cells.len() {
        cells.update(index, pixel)
    } else {
        cells + gap(cells.len() as int, index - cells.len(), width) + seq![pixel]
    }
}

/// The cell shown at a position: the stored one, or the blank pixel where
/// nothing is stored yet.
pub open spec fn shown(cells: Seq<Pixel>, blank: Pixel, width: int, x: int, y: int) -> Pixel {
    let index = cell_index(x, y, width);
    if 0 <= index < cells.len() {
        cells[index]
    } else {
        blank
    }
}

/// The text of one cell: the bare character in the normal style or without
/// colours, else the character wrapped into its style.
pub open spec fn pixel_text(pixel: Pixel, with_colors: bool) -> Seq<char> {
    if !with_colors || pixel.element.styles == Styles::spec_normal() {
        seq![pixel.element.character]
    } else {
        wrap_spec(seq![pixel.element.character], pixel.element.styles)
    }
}

/// The text of the first `upto` cells of row `y`.
pub open spec fn row_text(
    cells: Seq<Pixel>,
    blank: Pixel,
    width: int,
    y: int,
    upto: int,
    with_colors: bool,
) -> Seq<char>
    decreases upto,
{
    if upto <= 0 {
        Seq::empty()
    } else {
        row_text(cells, blank, width, y, upto - 1, with_colors) + pixel_text(
            shown(cells, blank, width, upto - 1, y),
            with_colors,
        )
    }
}

/// The text of the first `upto` rows, each closed by a newline.
pub open spec fn rows_text(
    cells: Seq<Pixel>,
    blank: Pixel,
    width: int,
    upto: int,
    with_colors: bool,
) -> Seq<char>
    decreases upto,
{
    if upto <= 0 {
        Seq::empty()
    } else {
        rows_text(cells, blank, width, upto - 1, with_colors) + row_text(
            cells,
            blank,
            width,
            upto - 1,
            width,
            with_colors,
        ) + seq!['\n']
    }
}

#[derive(Debug)]
pub struct ScreenBuffer {
    size: Size,
    buffer: Vec<Pixel>,
    blank_pixel: Pixel,
}

impl ScreenBuffer {
    /// The size of the screen.
    pub closed spec fn spec_size(&self) -> Size {
        self.size
    }

    /// The cells stored so far, in row-major order.
    pub closed spec fn cells(&self) -> Seq<Pixel> {
        self.buffer@
    }

    /// The pixel shown where nothing is stored.
    pub closed spec fn spec_blank(&self) -> Pixel {
        self.blank_pixel
    }

    /// The size is valid and no cell is stored outside it.
    pub open spec fn wf(&self) -> bool {
        &&& size_message(self.spec_size()) is None
        &&& self.cells().len() <= self.spec_size().width * self.spec_size().height
    }

    /// The cell shown at a position.
    pub open spec fn spec_pixel_at(&self, x: u16, y: u16) -> Pixel {
        shown(self.cells(), self.spec_blank(), self.spec_size().width as int, x as int, y as int)
    }

    /// The whole screen as text.
    pub open spec fn spec_contents(&self, with_colors: bool) -> Seq<char> {
        rows_text(
            self.cells(),
            self.spec_blank(),
            self.spec_size().width as int,
            self.spec_size().height as int,
            with_colors,
        )
    }

    /// An empty buffer of the given size; a `SizeError` for a size with a
    /// zero dimension or with more cells and newlines than can be addressed.
    pub fn new(size: Size, blank_pixel: Pixel) -> (r: Result<Self, Error>)
        ensures
            match r {
                Ok(buffer) => size_message(size) is None && buffer.wf() && buffer.spec_size()
                    == size && buffer.spec_blank() == blank_pixel && buffer.cells().len() == 0,
                Err(e) => e matches Error::SizeError(m) && size_message(size) == Some(m@),
            },
    {
        match Self::check_size(&size) {
            Ok(()) => Ok(ScreenBuffer { size, buffer: Vec::new(), blank_pixel }),
            Err(e) => Err(e),
        }
    }

    /// An empty buffer whose blank pixel is a placeholder.
    pub fn with_size(size: Size) -> (r: Result<Self, Error>)
        ensures
            match r {
                Ok(buffer) => size_message(size) is None && buffer.wf() && buffer.spec_size()
                    == size && buffer.spec_blank() == Pixel::spec_placeholder(0, 0)
                    && buffer.cells().len() == 0,
                Err(e) => e matches Error::SizeError(m) && size_message(size) == Some(m@),
            },
    {
        Self::new(size, Pixel::placeholder(0, 0))
    }

    pub fn size(&self) -> (r: Size)
        ensures
            r == self.spec_size(),
    {
        self.size
    }

    pub fn width(&self) -> (r: u16)
        ensures
            r == self.spec_size().width,
    {
        self.size.width
    }

    pub fn height(&self) -> (r: u16)
        ensures
            r == self.spec_size().height,
    {
        self.size.height
    }

    /// The number of cells stored so far.
    pub fn len(&self) -> (r: usize)
        ensures
            r == self.cells().len(),
    {
        self.buffer.len()
    }

    /// Forgets every stored cell.
    pub fn clear(&mut self)
        ensures
            final(self).cells().len() == 0,
            final(self).spec_size() == old(self).spec_size(),
            final(self).spec_blank() == old(self).spec_blank(),
            old(self).wf() ==> final(self).wf(),
    {
        self.buffer.clear();
    }

    /// Draws one pixel at its own position. A position outside the screen is
    /// a `SizeError` that names the coordinate, the dimension and the
    /// character, and leaves the buffer as it was.
    pub fn draw_pixel(&mut self, pixel: Pixel) -> (r: Result<(), Error>)
        requires
            old(self).wf(),
        ensures
            final(self).wf(),
            final(self).spec_size() == old(self).spec_size(),
            final(self).spec_blank() == old(self).spec_blank(),
            match bound_message(pixel.x as nat, pixel.y as nat, old(self).spec_size()) {
                Some(message) => r matches Err(Error::SizeError(m)) && m@ == for_character(
                    message,
                    pixel.element.character,
                ) && final(self).cells() == old(self).cells(),
                None => r is Ok && final(self).cells() == drawn(
                    old(self).cells(),
                    old(self).spec_size().width as int,
                    pixel,
                ),
            },
    {
        let index = match self.get_index_for_point(&pixel) {
            Ok(i) => i,
            Err(e) => {
                let mut message = e.message();
                message.append(" for character '");
                push_char(&mut message, pixel.element.character);
                message.append("'");
                return Err(Error::SizeError(message));
            },
        };
        proof {
            lemma_index_in_bounds(
                pixel.x as int,
                pixel.y as int,
                self.size.width as int,
                self.size.height as int,
            );
        }
        if self.buffer.len() <= index {
            self.fill_buffer_up_to(index);
            self.buffer.push(pixel);
        } else {
            self.buffer.set(index, pixel);
        }
        Ok(())
    }

    /// Draws a styled character at a position that may lie beyond the range
    /// of a coordinate; such a position is outside every screen.
    pub fn draw_element(&mut self, element: Element, x: u128, y: u128) -> (r: Result<(), Error>)
        requires
            old(self).wf(),
        ensures
            final(self).wf(),
            final(self).spec_size() == old(self).spec_size(),
            final(self).spec_blank() == old(self).spec_blank(),
            match bound_message(x as nat, y as nat, old(self).spec_size()) {
                Some(message) => r matches Err(Error::SizeError(m)) && m@ == for_character(
                    message,
                    element.character,
                ) && final(self).cells() == old(self).cells(),
                None => r is Ok && x <= u16::MAX && y <= u16::MAX && final(self).cells() == drawn(
                    old(self).cells(),
                    old(self).spec_size().width as int,
                    Pixel { x: x as u16, y: y as u16, element, placeholder: false },
                ),
            },
    {
        if x <= 65535 && y <= 65535 {
            self.draw_pixel(Pixel::new(element, x as u16, y as u16))
        } else {
            match bounds_text(x, y, &self.size) {
                Some(mut message) => {
                    message.append(" for character '");
                    push_char(&mut message, element.character);
                    message.append("'");
                    Err(Error::SizeError(message))
                },
                None => Ok(()),
            }
        }
    }

    /// Draws `content` in the normal style at the point.
    pub fn draw_point<T: PointTrait>(&mut self, point: &T, content: char) -> (r: Result<(), Error>)
        requires
            old(self).wf(),
        ensures
            final(self).wf(),
            final(self).spec_size() == old(self).spec_size(),
            final(self).spec_blank() == old(self).spec_blank(),
            match bound_message(
                point.spec_x() as nat,
                point.spec_y() as nat,
                old(self).spec_size(),
            ) {
                Some(message) => r matches Err(Error::SizeError(m)) && m@ == for_character(
                    message,
                    content,
                ) && final(self).cells() == old(self).cells(),
                None => r is Ok && final(self).cells() == drawn(
                    old(self).cells(),
                    old(self).spec_size().width as int,
                    Pixel::spec_normal(content, point.spec_x(), point.spec_y()),
                ),
            },
    {
        self.draw_pixel(Pixel::normal(content, point.x(), point.y()))
    }

    /// The cell shown at the point: the stored cell, or the blank pixel as
    /// it is (with its own position) where nothing is stored there yet.
    pub fn get_pixel_at_point<T: PointTrait>(&self, point: &T) -> (r: Result<Pixel, Error>)
        requires
            self.wf(),
        ensures
            match bound_message(point.spec_x() as nat, point.spec_y() as nat, self.spec_size()) {
                Some(message) => r matches Err(Error::SizeError(m)) && m@ == message,
                None => r == Ok::<Pixel, Error>(
                    self.spec_pixel_at(point.spec_x(), point.spec_y()),
                ),
            },
    {
        let index = match self.get_index_for_point(point) {
            Ok(i) => i,
            Err(e) => {
                return Err(e);
            },
        };
        match self.get_pixel_at_index(index) {
            Some(c) => Ok(c),
            None => Ok(self.blank_pixel),
        }
    }

    pub fn get_content_at_point<T: PointTrait>(&self, point: &T) -> (r: Result<char, Error>)
        requires
            self.wf(),
        ensures
            match bound_message(point.spec_x() as nat, point.spec_y() as nat, self.spec_size()) {
                Some(message) => r matches Err(Error::SizeError(m)) && m@ == message,
                None => r == Ok::<char, Error>(
                    self.spec_pixel_at(point.spec_x(), point.spec_y()).element.character,
                ),
            },
    {
        match self.get_pixel_at_point(point) {
            Ok(pixel) => Ok(pixel.element.character),
            Err(e) => Err(e),
        }
    }

    pub fn get_content_at(&self, x: u16, y: u16) -> (r: Result<char, Error>)
        requires
            self.wf(),
        ensures
            match bound_message(x as nat, y as nat, self.spec_size()) {
                Some(message) => r matches Err(Error::SizeError(m)) && m@ == message,
                None => r == Ok::<char, Error>(self.spec_pixel_at(x, y).element.character),
            },
    {
        match self.get_pixel_at(x, y) {
            Ok(pixel) => Ok(pixel.element.character),
            Err(e) => Err(e),
        }
    }

    pub fn get_pixel_at(&self, x: u16, y: u16) -> (r: Result<Pixel, Error>)
        requires
            self.wf(),
        ensures
            match bound_message(x as nat, y as nat, self.spec_size()) {
                Some(message) => r matches Err(Error::SizeError(m)) && m@ == message,
                None => r == Ok::<Pixel, Error>(self.spec_pixel_at(x, y)),
            },
    {
        self.get_pixel_at_point(&Point::new(x, y))
    }

    /// The whole screen as text, row by row, each row closed by a newline;
    /// a cell in another style than the normal one is wrapped into it.
    pub fn get_contents(&self) -> (r: String)
        requires
            self.wf(),
        ensures
            r@ == self.spec_contents(true),
    {
        build_contents(self, true)
    }

    fn get_pixel_at_index(&self, index: usize) -> (r: Option<Pixel>)
        ensures
            r == if index < self.cells().len() {
                Some(self.cells()[index as int])
            } else {
                None::<Pixel>
            },
    {
        if index < self.buffer.len() {
            Some(self.buffer[index])
        } else {
            None
        }
    }

    /// The place of the cell stored last, by its own position; `None` for
    /// an empty buffer and for a last cell whose position is outside the
    /// screen.
    pub fn last_index(&self) -> (r: Option<usize>)
        requires
            self.wf(),
        ensures
            r == if self.cells().len() == 0 {
                None::<usize>
            } else {
                let last = self.cells().last();
                if bound_message(last.x as nat, last.y as nat, self.spec_size()) is Some {
                    None::<usize>
                } else {
                    Some(cell_index(last.x as int, last.y as int, self.spec_size().width as int) as usize)
                }
            },
    {
        let count: usize = self.buffer.len();
        if count == 0 {
            return None;
        }
        match self.get_index_for_point(&self.buffer[count - 1]) {
            Ok(index) => Some(index),
            Err(_) => None,
        }
    }

    /// The number of cells of the screen.
    pub fn max_index(&self) -> (r: usize)
        requires
            self.wf(),
        ensures
            r == self.spec_size().width * self.spec_size().height,
    {
        assert(self.size.width * self.size.height <= usize::MAX) by (nonlinear_arith)
            requires
                self.size.width * self.size.height + self.size.height <= usize::MAX,
                self.size.height >= 0,
        ;
        self.size.width as usize * self.size.height as usize
    }

    fn check_size(size: &Size) -> (r: Result<(), Error>)
        ensures
            match r {
                Ok(_) => size_message(*size) is None,
                Err(e) => e matches Error::SizeError(m) && size_message(*size) == Some(m@),
            },
    {
        let mut message = String::new();
        message.append("The screen size ");
        push_decimal(&mut message, size.width as u128);
        push_char(&mut message, 'x');
        push_decimal(&mut message, size.height as u128);
        if size.width == 0 || size.height == 0 {
            message.append(" is too small");
            proof {
                assert(message@ =~= size_message(*size)->0);
            }
            return Err(Error::SizeError(message));
        }
        let width: usize = size.width as usize;
        let height: usize = size.height as usize;
        if let Some(pixel_count) = width.checked_mul(height) {
            if let Some(_) = pixel_count.checked_add(height) {
                return Ok(());
            }
        }
        message.append(" is too big");
        proof {
            assert(message@ =~= size_message(*size)->0);
        }
        Err(Error::SizeError(message))
    }

    fn fill_buffer_up_to(&mut self, end: usize)
        requires
            old(self).wf(),
            old(self).cells().len() <= end,
            end <= old(self).spec_size().width * old(self).spec_size().height,
        ensures
            final(self).wf(),
            final(self).spec_size() == old(self).spec_size(),
            final(self).spec_blank() == old(self).spec_blank(),
            final(self).cells() == old(self).cells() + gap(
                old(self).cells().len() as int,
                end - old(self).cells().len(),
                old(self).spec_size().width as int,
            ),
    {
        let start: usize = self.buffer.len();
        let width: usize = self.size.width as usize;
        let mut index: usize = start;
        while index < end
            invariant
                start <= index <= end,
                self.wf(),
                self.size == old(self).size,
                self.blank_pixel == old(self).blank_pixel,
                width == self.size.width,
                start == old(self).buffer@.len(),
                end <= self.size.width * self.size.height,
                self.buffer@ == old(self).buffer@ + gap(start as int, index - start, width as int),
            decreases end - index,
        {
            let row: usize = index / width;
            let column: usize = index % width;
            proof {
                lemma_position_in_bounds(
                    index as int,
                    self.size.width as int,
                    self.size.height as int,
                );
            }
            self.buffer.push(Pixel::placeholder(column as u16, row as u16));
            proof {
                assert(self.buffer@ =~= old(self).buffer@ + gap(
                    start as int,
                    index + 1 - start,
                    width as int,
                ));
            }
            index += 1;
        }
    }

    fn check_point_bounds<T: PointTrait>(&self, point: &T) -> (r: Result<(), Error>)
        ensures
            match bound_message(point.spec_x() as nat, point.spec_y() as nat, self.spec_size()) {
                Some(message) => r matches Err(Error::SizeError(m)) && m@ == message,
                None => r is Ok,
            },
    {
        match bounds_text(point.x() as u128, point.y() as u128, &self.size) {
            Some(message) => Err(Error::SizeError(message)),
            None => Ok(()),
        }
    }

    fn get_index_for_point<T: PointTrait>(&self, point: &T) -> (r: Result<usize, Error>)
        requires
            self.wf(),
        ensures
            match bound_message(point.spec_x() as nat, point.spec_y() as nat, self.spec_size()) {
                Some(message) => r matches Err(Error::SizeError(m)) && m@ == message,
                None => r matches Ok(i) && i == cell_index(
                    point.spec_x() as int,
                    point.spec_y() as int,
                    self.spec_size().width as int,
                ),
            },
    {
        match self.check_point_bounds(point) {
            Ok(()) => {},
            Err(e) => {
                return Err(e);
            },
        }
        proof {
            lemma_index_in_bounds(
                point.spec_x() as int,
                point.spec_y() as int,
                self.size.width as int,
                self.size.height as int,
            );
        }
        Ok(point.y() as usize * self.size.width as usize + point.x() as usize)
    }
}

/// The message for a position outside a screen of the given size.
pub fn bounds_text(x: u128, y: u128, size: &Size) -> (r: Option<String>)
    ensures
        match bound_message(x as nat, y as nat, *size) {
            Some(message) => r matches Some(m) && m@ == message,
            None => r is None,
        },
{
    if x >= size.width as u128 {
        let mut message = String::new();
        message.append("The point's `x` coordinate (");
        push_decimal(&mut message, x);
        message.append(") is bigger than the screen's width (");
        push_decimal(&mut message, size.width as u128);
        message.append(")");
        proof {
            assert(message@ =~= x_bound_message(x as nat, size.width as nat));
        }
        return Some(message);
    }
    if y >= size.height as u128 {
        let mut message = String::new();
        message.append("The point's `y` coordinate (");
        push_decimal(&mut message, y);
        message.append(") is bigger than the screen's height (");
        push_decimal(&mut message, size.height as u128);
        message.append(")");
        proof {
            assert(message@ =~= y_bound_message(y as nat, size.height as nat));
        }
        return Some(message);
    }
    None
}

/// A position inside the screen has its place below `width * height`.
pub proof fn lemma_index_in_bounds(x: int, y: int, width: int, height: int)
    requires
        0 <= x < width,
        0 <= y < height,
    ensures
        0 <= y * width <= cell_index(x, y, width) < width * height,
{
    assert(0 <= y * width && y * width + width <= height * width) by (nonlinear_arith)
        requires
            0 <= y < height,
            0 < width,
    ;
    assert(height * width == width * height) by (nonlinear_arith);
}

/// A place below `width * height` is that of a position inside the screen.
pub proof fn lemma_position_in_bounds(index: int, width: int, height: int)
    requires
        0 <= index < width * height,
        0 < width,
    ensures
        0 <= index % width < width,
        0 <= index / width < height,
        cell_index(index % width, index / width, width) == index,
{
    assert(0 <= index % width < width && 0 <= index / width < height && (index / width) * width
        + index % width == index) by (nonlinear_arith)
        requires
            0 <= index < width * height,
            0 < width,
    ;
}

/// What is shown after a pixel was drawn inside a screen: the pixel at its
/// own position; at any other position the cell that was stored there
/// before, a placeholder with that position where the cell fills the gap in
/// front of the pixel, and the blank pixel behind all that is stored.
pub proof fn lemma_drawn_is_shown(
    cells: Seq<Pixel>,
    blank: Pixel,
    width: int,
    pixel: Pixel,
    x: u16,
    y: u16,
)
    requires
        0 < width,
        pixel.x < width,
        x < width,
    ensures
        shown(drawn(cells, width, pixel), blank, width, pixel.x as int, pixel.y as int) == pixel,
        (x, y) != (pixel.x, pixel.y) ==> shown(
            drawn(cells, width, pixel),
            blank,
            width,
            x as int,
            y as int,
        ) == if cell_index(x as int, y as int, width) < cells.len() {
            cells[cell_index(x as int, y as int, width)]
        } else if cell_index(x as int, y as int, width) < cell_index(
            pixel.x as int,
            pixel.y as int,
            width,
        ) {
            Pixel::spec_placeholder(x, y)
        } else {
            blank
        },
{
    let target = cell_index(pixel.x as int, pixel.y as int, width);
    let place = cell_index(x as int, y as int, width);
    assert(0 <= pixel.y * width && 0 <= y * width) by (nonlinear_arith)
        requires
            0 < width,
            0 <= pixel.y,
            0 <= y,
    ;
    vstd::arithmetic::div_mod::lemma_fundamental_div_mod_converse(
        target,
        width,
        pixel.y as int,
        pixel.x as int,
    );
    vstd::arithmetic::div_mod::lemma_fundamental_div_mod_converse(place, width, y as int, x as int);
    let after = drawn(cells, width, pixel);
    if target >= cells.len() {
        assert(after.len() == target + 1);
        assert(after[target] == pixel);
        if cells.len() <= place < target {
            assert(after[place] == gap(cells.len() as int, target - cells.len(), width)[place
                - cells.len()]);
        }
    }
}

/// `count` copies of `piece`, one after the other.
pub open spec fn repeated(piece: Seq<char>, count: int) -> Seq<char>
    decreases count,
{
    if count <= 0 {
        Seq::empty()
    } else {
        repeated(piece, count - 1) + piece
    }
}

/// The column just right of the screen is outside it, whatever the row; the
/// last column of the last row is inside.
pub proof fn lemma_draw_bounds(size: Size, y: u16)
    requires
        size.width > 0,
        size.height > 0,
    ensures
        bound_message(size.width as nat, y as nat, size) is Some,
        bound_message((size.width - 1) as nat, (size.height - 1) as nat, size) is None,
{
}

/// A screen on which nothing was drawn reads as `height` lines, each of
/// `width` times the text of the blank pixel and a newline.
pub proof fn lemma_fresh_contents(blank: Pixel, width: int, height: int, with_colors: bool)
    requires
        0 <= width,
        0 <= height,
    ensures
        rows_text(Seq::empty(), blank, width, height, with_colors) == repeated(
            repeated(pixel_text(blank, with_colors), width) + seq!['\n'],
            height,
        ),
    decreases height,
{
    if height > 0 {
        lemma_fresh_contents(blank, width, height - 1, with_colors);
        lemma_fresh_row(blank, width, height - 1, width, with_colors);
    }
}

/// A buffer without stored cells reads as `height` lines, each of `width`
/// times the text of its blank pixel and a newline.
pub proof fn lemma_fresh_buffer(buffer: &ScreenBuffer, with_colors: bool)
    requires
        buffer.cells().len() == 0,
    ensures
        buffer.spec_contents(with_colors) == repeated(
            repeated(pixel_text(buffer.spec_blank(), with_colors), buffer.spec_size().width as int)
                + seq!['\n'],
            buffer.spec_size().height as int,
        ),
{
    assert(buffer.cells() =~= Seq::<Pixel>::empty());
    lemma_fresh_contents(
        buffer.spec_blank(),
        buffer.spec_size().width as int,
        buffer.spec_size().height as int,
        with_colors,
    );
}

/// One row of a screen on which nothing was drawn.
pub proof fn lemma_fresh_row(blank: Pixel, width: int, y: int, upto: int, with_colors: bool)
    requires
        0 <= upto,
    ensures
        row_text(Seq::empty(), blank, width, y, upto, with_colors) == repeated(
            pixel_text(blank, with_colors),
            upto,
        ),
    decreases upto,
{
    if upto > 0 {
        lemma_fresh_row(blank, width, y, upto - 1, with_colors);
    }
}

/// The text of one cell.
pub fn wrap_pixel(pixel: &Pixel) -> (r: String)
    ensures
        r@ == pixel_text(*pixel, true),
{
    if pixel.element.styles.is_normal() {
        let mut out = String::new();
        push_char(&mut out, pixel.element.character);
        out
    } else {
        wrap_char(pixel.element.character, pixel.element.styles)
    }
}

/// The whole screen as text, with or without the styles of its cells.
pub fn build_contents(buffer: &ScreenBuffer, with_colors: bool) -> (r: String)
    requires
        buffer.wf(),
    ensures
        r@ == buffer.spec_contents(with_colors),
{
    let width: u16 = buffer.size.width;
    let height: u16 = buffer.size.height;
    let mut output = String::new();
    let mut y: u16 = 0;
    while y < height
        invariant
            y <= height,
            buffer.wf(),
            width == buffer.size.width,
            height == buffer.size.height,
            output@ == rows_text(
                buffer.buffer@,
                buffer.blank_pixel,
                width as int,
                y as int,
                with_colors,
            ),
        decreases height - y,
    {
        let ghost before = output@;
        let mut x: u16 = 0;
        while x < width
            invariant
                x <= width,
                y < height,
                buffer.wf(),
                width == buffer.size.width,
                height == buffer.size.height,
                output@ == before + row_text(
                    buffer.buffer@,
                    buffer.blank_pixel,
                    width as int,
                    y as int,
                    x as int,
                    with_colors,
                ),
            decreases width - x,
        {
            let pixel = match buffer.get_pixel_at(x, y) {
                Ok(p) => p,
                Err(_) => buffer.blank_pixel,
            };
            let ghost so_far = output@;
            if with_colors {
                let piece = wrap_pixel(&pixel);
                output.append(piece.as_str());
            } else {
                push_char(&mut output, pixel.element.character);
            }
            proof {
                assert(output@ =~= so_far + pixel_text(pixel, with_colors));
                assert(output@ =~= before + row_text(
                    buffer.buffer@,
                    buffer.blank_pixel,
                    width as int,
                    y as int,
                    x + 1,
                    with_colors,
                ));
            }
            x += 1;
        }
        push_char(&mut output, '\n');
        proof {
            assert(output@ =~= rows_text(
                buffer.buffer@,
                buffer.blank_pixel,
                width as int,
                y + 1,
                with_colors,
            ));
        }
        y += 1;
    }
    output
}

} // verus!
