//! Charts: points scaled into a canvas and rendered as rows of text.

pub mod canvas;
pub mod color;
pub mod configuration;
pub mod mode;
pub mod point_matrix;
pub mod padding;
pub mod transform;

use vstd::prelude::*;
use crate::chart::canvas::cell_of;
use crate::chart::canvas::computes;
use crate::chart::canvas::computes_row;
use crate::chart::canvas::header_of;
use crate::chart::canvas::no_header;
use crate::chart::canvas::symbol_text;
use crate::chart::canvas::block_full;
use crate::chart::canvas::Canvas;
use crate::chart::configuration::CallbackConfiguration;
use crate::chart::configuration::Configuration;
use crate::chart::mode::Mode;
use crate::chart::padding::Padding;
use crate::chart::transform::transform;
use crate::chart::transform::transformed;
use crate::matrix::arranged;
use crate::matrix::Matrix;
use crate::matrix::PointTrait;
use crate::matrix::Row;
use crate::ui::screen::DEFAULT_HEIGHT;
use crate::ui::screen::DEFAULT_WIDTH;
use crate::ui::size::detect_dimensions;

verus! {

/// A chart of a width and a height, either given or taken from the
/// terminal, with space kept free for the scales of its axes.
pub struct Chart {
    pub mode: Mode,
    /// The width, or 0 for the width of the terminal.
    pub _width: u16,
    /// The height, or 0 for the height of the terminal less one line.
    pub _height: u16,
    pub y_scala_width: u16,
    pub x_scala_height: u16,
}

/// The width of a chart: the configured one, or for 0 the detected width of
/// the terminal, or the default where none was detected.
pub open spec fn spec_resolve_width(configured: u16, detected: Option<(usize, usize)>) -> u16 {
    if configured > 0 {
        configured
    } else {
        match detected {
            Some((width, _)) => width as u16,
            None => DEFAULT_WIDTH,
        }
    }
}

/// The height of a chart: the configured one, or for 0 the detected height
/// of the terminal less one line for the status bar, or the default less
/// one where none was detected.
pub open spec fn spec_resolve_height(configured: u16, detected: Option<(usize, usize)>) -> u16 {
    if configured > 0 {
        configured
    } else {
        match detected {
            Some((_, height)) => if height > 0 {
                (height - 1) as u16
            } else {
                0
            },
            None => (DEFAULT_HEIGHT - 1) as u16,
        }
    }
}

pub fn resolve_width(configured: u16, detected: Option<(usize, usize)>) -> (r: u16)
    ensures
        r == spec_resolve_width(configured, detected),
{
    if configured > 0 {
        configured
    } else {
        match detected {
            Some((width, _)) => width as u16,
            None => DEFAULT_WIDTH,
        }
    }
}

pub fn resolve_height(configured: u16, detected: Option<(usize, usize)>) -> (r: u16)
    ensures
        r == spec_resolve_height(configured, detected),
{
    if configured > 0 {
        configured
    } else {
        match detected {
            Some((_, height)) => if height > 0 {
                (height - 1) as u16
            } else {
                0
            },
            None => DEFAULT_HEIGHT - 1,
        }
    }
}

impl Chart {
    pub fn new(width: u16, height: u16, x_scala_height: u16, y_scala_width: u16, mode: Mode) -> (r:
        Self)
        ensures
            r == (Chart { mode, _width: width, _height: height, y_scala_width, x_scala_height }),
    {
        Chart { _width: width, _height: height, mode, x_scala_height, y_scala_width }
    }

    /// Whether the chart may find itself `width` wide and `height` high: a
    /// dimension that is given is what it finds.
    pub open spec fn may_measure(&self, width: u16, height: u16) -> bool {
        &&& self._width > 0 ==> width == self._width
        &&& self._height > 0 ==> height == self._height
    }

    /// The width left for the points of a chart that is `width` wide.
    pub open spec fn available_width(&self, width: u16) -> u16 {
        if width > self.y_scala_width {
            (width - self.y_scala_width) as u16
        } else {
            0
        }
    }

    /// The height left for the points of a chart that is `height` high.
    pub open spec fn available_height(&self, height: u16) -> u16 {
        if height > self.x_scala_height {
            (height - self.x_scala_height) as u16
        } else {
            0
        }
    }

    pub fn usable_width(&self, width: u16) -> (r: u16)
        ensures
            r == self.available_width(width),
    {
        if width > self.y_scala_width {
            width - self.y_scala_width
        } else {
            0
        }
    }

    pub fn usable_height(&self, height: u16) -> (r: u16)
        ensures
            r == self.available_height(height),
    {
        if height > self.x_scala_height {
            height - self.x_scala_height
        } else {
            0
        }
    }

    /// The width of the chart: the given one, or that of the terminal.
    pub fn width(&self) -> (r: u16)
        ensures
            self._width > 0 ==> r == self._width,
            exists|detected: Option<(usize, usize)>|
                r == #[trigger] spec_resolve_width(self._width, detected),
    {
        if self._width > 0 {
            assert(self._width == spec_resolve_width(self._width, None));
            self._width
        } else {
            resolve_width(self._width, detect_dimensions())
        }
    }

    /// The height of the chart: the given one, or that of the terminal less
    /// one line.
    pub fn height(&self) -> (r: u16)
        ensures
            self._height > 0 ==> r == self._height,
            exists|detected: Option<(usize, usize)>|
                r == #[trigger] spec_resolve_height(self._height, detected),
    {
        if self._height > 0 {
            assert(self._height == spec_resolve_height(self._height, None));
            self._height
        } else {
            resolve_height(self._height, detect_dimensions())
        }
    }

    /// The canvas of a chart that is `width` wide and `height` high.
    pub open spec fn spec_canvas(&self, width: u16, height: u16) -> Canvas {
        Canvas {
            width: self.available_width(width),
            height: self.available_height(height),
            padding: Padding { top: 0, right: 0, bottom: 1, left: 1 },
        }
    }

    /// The text of a chart that is `width` wide and `height` high: nothing
    /// where there are no points, else the canvas's drawing of the points
    /// after the chart's mode was applied to them.
    pub open spec fn chart_text<T: PointTrait>(
        &self,
        width: u16,
        height: u16,
        row_text: spec_fn(Option<Seq<T>>, u32) -> Seq<char>,
        point_text: spec_fn(Option<T>) -> Seq<char>,
        points: Seq<T>,
    ) -> Seq<char> {
        if arranged(points).len() == 0 {
            Seq::empty()
        } else {
            self.spec_canvas(width, height).drawing(
                row_text,
                point_text,
                transformed(
                    self.mode,
                    self.available_width(width),
                    self.available_height(height),
                    arranged(points),
                ),
            )
        }
    }

    /// What holds of the text `r` that the chart drew: it is the chart's
    /// text for a width and a height that the chart may have measured.
    pub open spec fn shows<T: PointTrait>(
        &self,
        row_text: spec_fn(Option<Seq<T>>, u32) -> Seq<char>,
        point_text: spec_fn(Option<T>) -> Seq<char>,
        points: Seq<T>,
        r: Seq<char>,
    ) -> bool {
        exists|width: u16, height: u16|
            #![trigger self.may_measure(width, height)]
            self.may_measure(width, height) && r == self.chart_text(
                width,
                height,
                row_text,
                point_text,
                points,
            )
    }

    /// The matrix of the points after the chart's mode was applied, and the
    /// canvas to draw it on; `None` where there are no points.
    fn prepare<T: PointTrait>(&self, width: u16, height: u16, points: Vec<T>) -> (r: Option<
        (Canvas, Matrix<T>),
    >)
        ensures
            match r {
                Some((canvas, matrix)) => arranged(points@).len() > 0 && matrix.wf() && canvas
                    == self.spec_canvas(width, height) && matrix.ordered() == transformed(
                    self.mode,
                    self.available_width(width),
                    self.available_height(height),
                    arranged(points@),
                ),
                None => arranged(points@).len() == 0,
            },
    {
        let matrix = Matrix::from_vec(points);
        match self.get_canvas(&matrix, width, height) {
            Some(canvas) => {
                let shown = transform(
                    self.mode,
                    self.usable_width(width),
                    self.usable_height(height),
                    &matrix,
                );
                Some((canvas, shown))
            },
            None => None,
        }
    }

    /// The canvas for a matrix, or `None` for an empty matrix.
    pub fn get_canvas<T: PointTrait>(&self, point_matrix: &Matrix<T>, width: u16, height: u16) -> (r:
        Option<Canvas>)
        requires
            point_matrix.wf(),
        ensures
            r == if point_matrix.ordered().len() == 0 {
                None::<Canvas>
            } else {
                Some(self.spec_canvas(width, height))
            },
    {
        if point_matrix.is_empty() {
            return None;
        }
        Some(
            Canvas::new(
                self.usable_width(width),
                self.usable_height(height),
                Padding::new(0, 0, 1, 1),
            ),
        )
    }

    /// Draws the points with a full block for each point and a space for
    /// each free cell.
    pub fn draw_points<T: PointTrait>(&self, points: Vec<T>) -> (r: String)
        ensures
            self.shows(no_header(), symbol_text(block_full(), seq![' ']), points@, r@),
    {
        let width: u16 = self.width();
        let height: u16 = self.height();
        assert(self.may_measure(width, height));
        match self.prepare(width, height, points) {
            Some((canvas, matrix)) => canvas.draw_points(matrix),
            None => String::new(),
        }
    }

    /// Draws the points with a renderer.
    pub fn draw_points_with_configuration<T: PointTrait, C: Configuration<T>>(
        &self,
        points: Vec<T>,
        conf: &C,
    ) -> (r: String)
        ensures
            self.shows(header_of(conf), cell_of(conf), points@, r@),
    {
        let width: u16 = self.width();
        let height: u16 = self.height();
        assert(self.may_measure(width, height));
        match self.prepare(width, height, points) {
            Some((canvas, matrix)) => canvas.draw_points_with_configuration(matrix, conf),
            None => String::new(),
        }
    }

    /// Draws the points with `symbol` for each point and a space for each
    /// free cell.
    pub fn draw_points_with_symbol<T: PointTrait>(&self, points: Vec<T>, symbol: &str) -> (r: String)
        ensures
            self.shows(no_header(), symbol_text(symbol@, seq![' ']), points@, r@),
    {
        let width: u16 = self.width();
        let height: u16 = self.height();
        assert(self.may_measure(width, height));
        match self.prepare(width, height, points) {
            Some((canvas, matrix)) => canvas.draw_points_with_symbol(matrix, symbol),
            None => String::new(),
        }
    }

    /// Draws the points with `point_symbol` for each point and
    /// `placeholder` for each free cell.
    pub fn draw_points_with_symbols<T: PointTrait>(
        &self,
        points: Vec<T>,
        point_symbol: &str,
        placeholder: &str,
    ) -> (r: String)
        ensures
            self.shows(no_header(), symbol_text(point_symbol@, placeholder@), points@, r@),
    {
        let width: u16 = self.width();
        let height: u16 = self.height();
        assert(self.may_measure(width, height));
        match self.prepare(width, height, points) {
            Some((canvas, matrix)) => canvas.draw_points_with_symbols(
                matrix,
                point_symbol,
                placeholder,
            ),
            None => String::new(),
        }
    }

    /// Draws the points with two functions: one gives the text in front of
    /// each row, the other the text of each cell. Of functions that always
    /// return the texts that `row_text` and `point_text` give, the result is
    /// the chart's text with these.
    pub fn draw_points_with_callbacks<R, P, T: PointTrait>(
        &self,
        points: Vec<T>,
        conf: &CallbackConfiguration<R, P, T>,
    ) -> (r: String) where R: Fn(Option<&Row<T>>, u32) -> String, P: Fn(Option<T>) -> String
        requires
            forall|row: Option<&Row<T>>, row_number: u32|
                call_requires(conf.draw_row, (row, row_number)),
            forall|point: Option<T>| call_requires(conf.draw_point, (point,)),
        ensures
            exists|width: u16, height: u16|
                #![trigger self.may_measure(width, height)]
                self.may_measure(width, height) && forall|
                    row_text: spec_fn(Option<Seq<T>>, u32) -> Seq<char>,
                    point_text: spec_fn(Option<T>) -> Seq<char>,
                |
                    #![trigger computes_row(&conf.draw_row, row_text), computes(&conf.draw_point, point_text)]
                    computes_row(&conf.draw_row, row_text) && computes(&conf.draw_point, point_text)
                        ==> r@ == self.chart_text(width, height, row_text, point_text, points@),
    {
        let width: u16 = self.width();
        let height: u16 = self.height();
        assert(self.may_measure(width, height));
        match self.prepare(width, height, points) {
            Some((canvas, matrix)) => canvas.draw_points_with_callbacks(matrix, conf),
            None => String::new(),
        }
    }

    /// Draws the points with a function that gives the text of each cell.
    /// Of a function that always returns the text that `text` gives, the
    /// result is the chart's text with `text`.
    pub fn draw_points_with_callback<F: Fn(Option<T>) -> String, T: PointTrait>(
        &self,
        points: Vec<T>,
        draw_callback: F,
    ) -> (r: String)
        requires
            forall|point: Option<T>| call_requires(draw_callback, (point,)),
        ensures
            exists|width: u16, height: u16|
                #![trigger self.may_measure(width, height)]
                self.may_measure(width, height) && forall|text: spec_fn(Option<T>) -> Seq<char>|
                    #[trigger] computes(&draw_callback, text) ==> r@ == self.chart_text(
                        width,
                        height,
                        no_header(),
                        text,
                        points@,
                    ),
    {
        let width: u16 = self.width();
        let height: u16 = self.height();
        assert(self.may_measure(width, height));
        match self.prepare(width, height, points) {
            Some((canvas, matrix)) => canvas.draw_points_with_callback(matrix, draw_callback),
            None => String::new(),
        }
    }
}

} // verus!
