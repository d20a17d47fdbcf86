//! A window over a matrix, rendered as rows of text: the highest row first.

use vstd::prelude::*;
use vstd::string::StringExecFns;
use crate::chart::configuration::row_cells;
use crate::chart::configuration::CallbackConfiguration;
use crate::chart::configuration::Configuration;
use crate::chart::configuration::SymbolConfiguration;
use crate::chart::padding::Padding;
use crate::matrix::cell_at;
use crate::matrix::cells_in_row;
use crate::matrix::lowest_column;
use crate::matrix::lowest_row;
use crate::matrix::Matrix;
use crate::matrix::PointTrait;
use crate::matrix::Row;
use crate::text::push_char;

verus! {

/// The point at a row and column that may lie beyond the range of a
/// coordinate, where there is none.
pub open spec fn lookup<T: PointTrait>(cells: Seq<T>, row: int, column: int) -> Option<T> {
    if 0 <= row <= u16::MAX && 0 <= column <= u16::MAX {
        cell_at(cells, row as u16, column as u16)
    } else {
        None
    }
}

/// The cells of a row, or `None` for a row without points.
pub open spec fn row_of<T: PointTrait>(cells: Seq<T>, row: int) -> Option<Seq<T>> {
    if 0 <= row <= u16::MAX && cells_in_row(cells, row as u16).len() > 0 {
        Some(cells_in_row(cells, row as u16))
    } else {
        None
    }
}

/// The texts of the cells of one row, from column `from` up to, not
/// including, column `upto`.
pub open spec fn cells_text<T: PointTrait>(
    point_text: spec_fn(Option<T>) -> Seq<char>,
    cells: Seq<T>,
    row: int,
    from: int,
    upto: int,
) -> Seq<char>
    decreases upto - from,
{
    if upto <= from {
        Seq::empty()
    } else {
        cells_text(point_text, cells, row, from, upto - 1) + point_text(
            lookup(cells, row, upto - 1),
        )
    }
}

/// One line: the text in front of the row, its cells and a newline.
pub open spec fn line_text<T: PointTrait>(
    row_text: spec_fn(Option<Seq<T>>, u32) -> Seq<char>,
    point_text: spec_fn(Option<T>) -> Seq<char>,
    cells: Seq<T>,
    row: int,
    x_start: int,
    x_end: int,
) -> Seq<char> {
    row_text(row_of(cells, row), row as u32) + cells_text(point_text, cells, row, x_start, x_end)
        + seq!['\n']
}

/// The lines of the rows below `y_end` down to row `from`, the highest row
/// first.
pub open spec fn lines_text<T: PointTrait>(
    row_text: spec_fn(Option<Seq<T>>, u32) -> Seq<char>,
    point_text: spec_fn(Option<T>) -> Seq<char>,
    cells: Seq<T>,
    from: int,
    y_end: int,
    x_start: int,
    x_end: int,
) -> Seq<char>
    decreases y_end - from,
{
    if y_end <= from {
        Seq::empty()
    } else {
        lines_text(row_text, point_text, cells, from + 1, y_end, x_start, x_end) + line_text(
            row_text,
            point_text,
            cells,
            from,
            x_start,
            x_end,
        )
    }
}

/// The text that a renderer writes in front of a row.
pub open spec fn header_of<T: PointTrait, C: Configuration<T>>(conf: &C) -> spec_fn(
    Option<Seq<T>>,
    u32,
) -> Seq<char> {
    |row: Option<Seq<T>>, row_number: u32| conf.row_text(row, row_number)
}

/// The text that a renderer writes for a cell.
pub open spec fn cell_of<T: PointTrait, C: Configuration<T>>(conf: &C) -> spec_fn(
    Option<T>,
) -> Seq<char> {
    |point: Option<T>| conf.point_text(point)
}

/// Nothing in front of any row.
pub open spec fn no_header<T: PointTrait>() -> spec_fn(Option<Seq<T>>, u32) -> Seq<char> {
    |row: Option<Seq<T>>, row_number: u32| Seq::<char>::empty()
}

/// One text for a cell with a point, another for a cell without.
pub open spec fn symbol_text<T: PointTrait>(
    point_symbol: Seq<char>,
    placeholder: Seq<char>,
) -> spec_fn(Option<T>) -> Seq<char> {
    |point: Option<T>|
        match point {
            Some(_) => point_symbol,
            None => placeholder,
        }
}

/// Whether `callback` returns, for every point, the text that `text` gives.
pub open spec fn computes<T: PointTrait, F: Fn(Option<T>) -> String>(
    callback: &F,
    text: spec_fn(Option<T>) -> Seq<char>,
) -> bool {
    forall|point: Option<T>, drawn: String| #[trigger]
        call_ensures(*callback, (point,), drawn) ==> drawn@ == text(point)
}

/// Whether `callback` returns, for every row, the text that `text` gives.
pub open spec fn computes_row<T: PointTrait, R: Fn(Option<&Row<T>>, u32) -> String>(
    callback: &R,
    text: spec_fn(Option<Seq<T>>, u32) -> Seq<char>,
) -> bool {
    forall|row: Option<&Row<T>>, row_number: u32, drawn: String| #[trigger]
        call_ensures(*callback, (row, row_number), drawn) ==> drawn@ == text(
            row_cells(row),
            row_number,
        )
}

/// The full block that stands for a point.
pub open spec fn block_full() -> Seq<char> {
    seq!['\u{2588}']
}

pub struct Canvas {
    pub width: u16,
    pub height: u16,
    pub padding: Padding,
}

impl Canvas {
    pub fn new(width: u16, height: u16, padding: Padding) -> (r: Self)
        ensures
            r == (Canvas { width, height, padding }),
    {
        Canvas { width, height, padding }
    }

    /// The lowest row of the window: the lowest row with a point, less the
    /// bottom padding, but not below zero.
    pub open spec fn y_start(&self, y_min: u16) -> int {
        if y_min < self.padding.bottom {
            0
        } else {
            y_min - self.padding.bottom
        }
    }

    /// The row above the highest row of the window.
    pub open spec fn y_end(&self, y_min: u16) -> int {
        self.y_start(y_min) + self.height + self.padding.top
    }

    /// The first column of the window: the lowest column with a point, less
    /// the left padding, but not below zero.
    pub open spec fn x_start(&self, x_min: u16) -> int {
        if x_min < self.padding.left {
            0
        } else {
            x_min - self.padding.left
        }
    }

    /// The column behind the last column of the window.
    pub open spec fn x_end(&self, x_min: u16) -> int {
        self.x_start(x_min) + self.width + self.padding.right
    }

    /// The text of the window over the cells of a matrix that is not
    /// empty.
    pub open spec fn rendered<T: PointTrait>(
        &self,
        row_text: spec_fn(Option<Seq<T>>, u32) -> Seq<char>,
        point_text: spec_fn(Option<T>) -> Seq<char>,
        cells: Seq<T>,
    ) -> Seq<char> {
        lines_text(
            row_text,
            point_text,
            cells,
            self.y_start(lowest_row(cells)),
            self.y_end(lowest_row(cells)),
            self.x_start(lowest_column(cells)),
            self.x_end(lowest_column(cells)),
        )
    }

    /// The text drawn for the cells of a matrix: nothing for an empty
    /// matrix, else the rendered window.
    pub open spec fn drawing<T: PointTrait>(
        &self,
        row_text: spec_fn(Option<Seq<T>>, u32) -> Seq<char>,
        point_text: spec_fn(Option<T>) -> Seq<char>,
        cells: Seq<T>,
    ) -> Seq<char> {
        if cells.len() == 0 {
            Seq::empty()
        } else {
            self.rendered(row_text, point_text, cells)
        }
    }

    /// Draws a full block for each point and a space for each free cell.
    pub fn draw_points<T: PointTrait>(&self, matrix: Matrix<T>) -> (r: String)
        requires
            matrix.wf(),
        ensures
            r@ == self.drawing(no_header(), symbol_text(block_full(), seq![' ']), matrix.ordered()),
    {
        proof {
            reveal_strlit("\u{2588}");
            reveal_strlit(" ");
            assert("\u{2588}"@ =~= block_full());
            assert(" "@ =~= seq![' ']);
        }
        self.draw_points_with_symbols(matrix, "\u{2588}", " ")
    }

    /// Draws `symbol` for each point and a space for each free cell.
    pub fn draw_points_with_symbol<T: PointTrait>(&self, matrix: Matrix<T>, symbol: &str) -> (r:
        String)
        requires
            matrix.wf(),
        ensures
            r@ == self.drawing(no_header(), symbol_text(symbol@, seq![' ']), matrix.ordered()),
    {
        proof {
            reveal_strlit(" ");
            assert(" "@ =~= seq![' ']);
        }
        self.draw_points_with_symbols(matrix, symbol, " ")
    }

    /// Draws `point_symbol` for each point and `placeholder` for each free
    /// cell.
    pub fn draw_points_with_symbols<T: PointTrait>(
        &self,
        matrix: Matrix<T>,
        point_symbol: &str,
        placeholder: &str,
    ) -> (r: String)
        requires
            matrix.wf(),
        ensures
            r@ == self.drawing(no_header(), symbol_text(point_symbol@, placeholder@), matrix.ordered()),
    {
        let conf = SymbolConfiguration::new(point_symbol, placeholder);
        proof {
            assert(header_of::<T, SymbolConfiguration>(&conf) =~= no_header::<T>());
            assert(cell_of::<T, SymbolConfiguration>(&conf) =~= symbol_text::<T>(
                point_symbol@,
                placeholder@,
            ));
        }
        self.draw_points_with_configuration(matrix, &conf)
    }

    /// Renders the window row by row, the highest row first: for each row
    /// what the renderer writes in front of it, then what it writes for
    /// each cell, then a newline. An empty matrix gives the empty text.
    pub fn draw_points_with_configuration<T: PointTrait, C: Configuration<T>>(
        &self,
        matrix: Matrix<T>,
        conf: &C,
    ) -> (r: String)
        requires
            matrix.wf(),
        ensures
            r@ == self.drawing(header_of(conf), cell_of(conf), matrix.ordered()),
    {
        if matrix.is_empty() {
            return String::new();
        }
        let (x_min, y_min) = match matrix.x_y_min() {
            Some(found) => found,
            None => {
                return String::new();
            },
        };
        let y_start: u32 = if y_min < self.padding.bottom {
            0
        } else {
            (y_min - self.padding.bottom) as u32
        };
        let y_end: u32 = y_start + self.height as u32 + self.padding.top as u32;
        let mut buffer = String::new();
        let mut row_number: u32 = y_end;
        while row_number > y_start
            invariant
                y_start <= row_number <= y_end,
                matrix.wf(),
                x_min == lowest_column(matrix.ordered()),
                buffer@ == lines_text(
                    header_of(conf),
                    cell_of(conf),
                    matrix.ordered(),
                    row_number as int,
                    y_end as int,
                    self.x_start(x_min),
                    self.x_end(x_min),
                ),
            decreases row_number,
        {
            row_number -= 1;
            let header = if row_number <= 65535 {
                match matrix.get_row(row_number as u16) {
                    Some(found) => conf.draw_row(Some(&found), row_number),
                    None => conf.draw_row(None, row_number),
                }
            } else {
                conf.draw_row(None, row_number)
            };
            let cells = self.draw_row_with_configuration(row_number, &matrix, conf, x_min);
            let ghost before = buffer@;
            buffer.append(header.as_str());
            buffer.append(cells.as_str());
            push_char(&mut buffer, '\n');
            proof {
                assert(buffer@ =~= before + line_text(
                    header_of(conf),
                    cell_of(conf),
                    matrix.ordered(),
                    row_number as int,
                    self.x_start(x_min),
                    self.x_end(x_min),
                ));
            }
        }
        buffer
    }

    /// Renders the window with a function that gives the text of each cell,
    /// and nothing in front of the rows. Of a function that always returns
    /// the text that `text` gives, the result is the window rendered with
    /// `text`.
    pub fn draw_points_with_callback<F: Fn(Option<T>) -> String, T: PointTrait>(
        &self,
        matrix: Matrix<T>,
        draw_callback: F,
    ) -> (r: String)
        requires
            matrix.wf(),
            forall|point: Option<T>| call_requires(draw_callback, (point,)),
        ensures
            forall|text: spec_fn(Option<T>) -> Seq<char>| #[trigger]
                computes(&draw_callback, text) ==> r@ == self.drawing(no_header(), text, matrix.ordered()),
    {
        if matrix.is_empty() {
            return String::new();
        }
        let (x_min, y_min) = match matrix.x_y_min() {
            Some(found) => found,
            None => {
                return String::new();
            },
        };
        let y_start: u32 = if y_min < self.padding.bottom {
            0
        } else {
            (y_min - self.padding.bottom) as u32
        };
        let y_end: u32 = y_start + self.height as u32 + self.padding.top as u32;
        let x_start: u32 = if x_min < self.padding.left {
            0
        } else {
            (x_min - self.padding.left) as u32
        };
        let x_end: u32 = x_start + self.width as u32 + self.padding.right as u32;
        let mut buffer = String::new();
        let mut row_number: u32 = y_end;
        while row_number > y_start
            invariant
                y_start <= row_number <= y_end,
                matrix.wf(),
                x_start == self.x_start(x_min),
                x_end == self.x_end(x_min),
                forall|point: Option<T>| call_requires(draw_callback, (point,)),
                forall|text: spec_fn(Option<T>) -> Seq<char>| #[trigger]
                    computes(&draw_callback, text) ==> buffer@ == lines_text(
                        no_header(),
                        text,
                        matrix.ordered(),
                        row_number as int,
                        y_end as int,
                        x_start as int,
                        x_end as int,
                    ),
            decreases row_number,
        {
            row_number -= 1;
            let ghost before = buffer@;
            let mut column: u32 = x_start;
            while column < x_end
                invariant
                    x_start <= column <= x_end,
                    matrix.wf(),
                    forall|point: Option<T>| call_requires(draw_callback, (point,)),
                    forall|text: spec_fn(Option<T>) -> Seq<char>| #[trigger]
                        computes(&draw_callback, text) ==> buffer@ == before + cells_text(
                            text,
                            matrix.ordered(),
                            row_number as int,
                            x_start as int,
                            column as int,
                        ),
                decreases x_end - column,
            {
                let point = if row_number <= 65535 && column <= 65535 {
                    matrix.get(row_number as u16, column as u16)
                } else {
                    None
                };
                let piece = draw_callback(point);
                buffer.append(piece.as_str());
                proof {
                    assert forall|text: spec_fn(Option<T>) -> Seq<char>| #[trigger]
                        computes(&draw_callback, text) implies buffer@ == before + cells_text(
                        text,
                        matrix.ordered(),
                        row_number as int,
                        x_start as int,
                        column + 1,
                    ) by {
                        assert(piece@ == text(point));
                        assert(buffer@ =~= before + cells_text(
                            text,
                            matrix.ordered(),
                            row_number as int,
                            x_start as int,
                            column + 1,
                        ));
                    }
                }
                column += 1;
            }
            push_char(&mut buffer, '\n');
            proof {
                assert forall|text: spec_fn(Option<T>) -> Seq<char>| #[trigger]
                    computes(&draw_callback, text) implies buffer@ == lines_text(
                    no_header(),
                    text,
                    matrix.ordered(),
                    row_number as int,
                    y_end as int,
                    x_start as int,
                    x_end as int,
                ) by {
                    assert(buffer@ =~= before + line_text(
                        no_header(),
                        text,
                        matrix.ordered(),
                        row_number as int,
                        x_start as int,
                        x_end as int,
                    ));
                }
            }
        }
        buffer
    }

    /// Renders the window with two functions: one gives the text in front
    /// of each row, the other the text of each cell. Of functions that
    /// always return the texts that `row_text` and `point_text` give, the
    /// result is the window rendered with these.
    pub fn draw_points_with_callbacks<R, P, T: PointTrait>(
        &self,
        matrix: Matrix<T>,
        conf: &CallbackConfiguration<R, P, T>,
    ) -> (r: String) where R: Fn(Option<&Row<T>>, u32) -> String, P: Fn(Option<T>) -> String
        requires
            matrix.wf(),
            forall|row: Option<&Row<T>>, row_number: u32|
                call_requires(conf.draw_row, (row, row_number)),
            forall|point: Option<T>| call_requires(conf.draw_point, (point,)),
        ensures
            forall|
                row_text: spec_fn(Option<Seq<T>>, u32) -> Seq<char>,
                point_text: spec_fn(Option<T>) -> Seq<char>,
            |
                #![trigger computes_row(&conf.draw_row, row_text), computes(&conf.draw_point, point_text)]
                computes_row(&conf.draw_row, row_text) && computes(&conf.draw_point, point_text)
                    ==> r@ == self.drawing(row_text, point_text, matrix.ordered()),
    {
        if matrix.is_empty() {
            return String::new();
        }
        let (x_min, y_min) = match matrix.x_y_min() {
            Some(found) => found,
            None => {
                return String::new();
            },
        };
        let y_start: u32 = if y_min < self.padding.bottom {
            0
        } else {
            (y_min - self.padding.bottom) as u32
        };
        let y_end: u32 = y_start + self.height as u32 + self.padding.top as u32;
        let x_start: u32 = if x_min < self.padding.left {
            0
        } else {
            (x_min - self.padding.left) as u32
        };
        let x_end: u32 = x_start + self.width as u32 + self.padding.right as u32;
        let mut buffer = String::new();
        let mut row_number: u32 = y_end;
        while row_number > y_start
            invariant
                y_start <= row_number <= y_end,
                matrix.wf(),
                x_start == self.x_start(x_min),
                x_end == self.x_end(x_min),
                forall|row: Option<&Row<T>>, row_number: u32|
                    call_requires(conf.draw_row, (row, row_number)),
                forall|point: Option<T>| call_requires(conf.draw_point, (point,)),
                forall|
                    row_text: spec_fn(Option<Seq<T>>, u32) -> Seq<char>,
                    point_text: spec_fn(Option<T>) -> Seq<char>,
                |
                    #![trigger computes_row(&conf.draw_row, row_text), computes(&conf.draw_point, point_text)]
                    computes_row(&conf.draw_row, row_text) && computes(&conf.draw_point, point_text)
                        ==> buffer@ == lines_text(
                        row_text,
                        point_text,
                        matrix.ordered(),
                        row_number as int,
                        y_end as int,
                        x_start as int,
                        x_end as int,
                    ),
            decreases row_number,
        {
            row_number -= 1;
            let ghost before = buffer@;
            let found = if row_number <= 65535 {
                matrix.get_row(row_number as u16)
            } else {
                None
            };
            let header = match &found {
                Some(row) => conf.draw_row(Some(row), row_number),
                None => conf.draw_row(None, row_number),
            };
            buffer.append(header.as_str());
            let ghost headed = buffer@;
            let mut column: u32 = x_start;
            while column < x_end
                invariant
                    x_start <= column <= x_end,
                    matrix.wf(),
                    forall|point: Option<T>| call_requires(conf.draw_point, (point,)),
                    forall|point_text: spec_fn(Option<T>) -> Seq<char>| #[trigger]
                        computes(&conf.draw_point, point_text) ==> buffer@ == headed + cells_text(
                            point_text,
                            matrix.ordered(),
                            row_number as int,
                            x_start as int,
                            column as int,
                        ),
                decreases x_end - column,
            {
                let point = if row_number <= 65535 && column <= 65535 {
                    matrix.get(row_number as u16, column as u16)
                } else {
                    None
                };
                let piece = conf.draw_point(point);
                buffer.append(piece.as_str());
                proof {
                    assert forall|point_text: spec_fn(Option<T>) -> Seq<char>| #[trigger]
                        computes(&conf.draw_point, point_text) implies buffer@ == headed
                        + cells_text(
                        point_text,
                        matrix.ordered(),
                        row_number as int,
                        x_start as int,
                        column + 1,
                    ) by {
                        assert(piece@ == point_text(point));
                        assert(buffer@ =~= headed + cells_text(
                            point_text,
                            matrix.ordered(),
                            row_number as int,
                            x_start as int,
                            column + 1,
                        ));
                    }
                }
                column += 1;
            }
            push_char(&mut buffer, '\n');
            proof {
                assert forall|
                    row_text: spec_fn(Option<Seq<T>>, u32) -> Seq<char>,
                    point_text: spec_fn(Option<T>) -> Seq<char>,
                |
                    #![trigger computes_row(&conf.draw_row, row_text), computes(&conf.draw_point, point_text)]
                    computes_row(&conf.draw_row, row_text) && computes(
                        &conf.draw_point,
                        point_text,
                    ) implies buffer@ == lines_text(
                    row_text,
                    point_text,
                    matrix.ordered(),
                    row_number as int,
                    y_end as int,
                    x_start as int,
                    x_end as int,
                ) by {
                    assert(header@ == row_text(row_of(matrix.ordered(), row_number as int), row_number));
                    assert(buffer@ =~= before + line_text(
                        row_text,
                        point_text,
                        matrix.ordered(),
                        row_number as int,
                        x_start as int,
                        x_end as int,
                    ));
                }
            }
        }
        buffer
    }

    /// The texts of the cells of one row of the window.
    pub fn draw_row_with_configuration<T: PointTrait, C: Configuration<T>>(
        &self,
        row_number: u32,
        matrix: &Matrix<T>,
        conf: &C,
        x_min: u16,
    ) -> (r: String)
        requires
            matrix.wf(),
        ensures
            r@ == cells_text(
                cell_of(conf),
                matrix.ordered(),
                row_number as int,
                self.x_start(x_min),
                self.x_end(x_min),
            ),
    {
        let x_start: u32 = if x_min < self.padding.left {
            0
        } else {
            (x_min - self.padding.left) as u32
        };
        let x_end: u32 = x_start + self.width as u32 + self.padding.right as u32;
        let mut buffer = String::new();
        let mut column: u32 = x_start;
        while column < x_end
            invariant
                x_start <= column <= x_end,
                matrix.wf(),
                buffer@ == cells_text(
                    cell_of(conf),
                    matrix.ordered(),
                    row_number as int,
                    x_start as int,
                    column as int,
                ),
            decreases x_end - column,
        {
            let point = if row_number <= 65535 && column <= 65535 {
                matrix.get(row_number as u16, column as u16)
            } else {
                None
            };
            let piece = conf.draw_point(point);
            buffer.append(piece.as_str());
            proof {
                assert(buffer@ =~= cells_text(
                    cell_of(conf),
                    matrix.ordered(),
                    row_number as int,
                    x_start as int,
                    column + 1,
                ));
            }
            column += 1;
        }
        buffer
    }
}

} // verus!
