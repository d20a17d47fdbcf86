//! Scaling of the points of a matrix to the space of a chart.

use vstd::prelude::*;
use crate::chart::mode::Mode;
use crate::chart::Chart;
use crate::matrix::arranged;
use crate::matrix::highest_column;
use crate::matrix::highest_row;
use crate::matrix::is_highest_column;
use crate::matrix::is_highest_row;
use crate::matrix::is_lowest_column;
use crate::matrix::is_lowest_row;
use crate::matrix::lowest_column;
use crate::matrix::lowest_row;
use crate::matrix::position;
use crate::matrix::Matrix;
use crate::matrix::PointTrait;

verus! {

/// A scale factor as an exact fraction.
#[derive(Debug, Copy, Clone, PartialEq, Eq, Structural)]
pub struct Factor {
    pub numerator: u32,
    pub denominator: u32,
}

impl Factor {
    /// The denominator is not zero.
    pub open spec fn wf(self) -> bool {
        self.denominator > 0
    }

    /// The factor 1.
    pub open spec fn spec_one() -> Factor {
        Factor { numerator: 1, denominator: 1 }
    }

    /// The factor 1.
    pub fn one() -> (r: Factor)
        ensures
            r == Self::spec_one(),
            r.wf(),
    {
        Factor { numerator: 1, denominator: 1 }
    }

    /// The coordinate times the factor, rounded down, and at most the
    /// highest coordinate.
    pub open spec fn spec_apply(self, coordinate: u16) -> u16 {
        let product = (coordinate as int * self.numerator as int) / (self.denominator as int);
        if product > u16::MAX {
            u16::MAX
        } else {
            product as u16
        }
    }

    /// Scales one coordinate.
    pub fn apply(&self, coordinate: u16) -> (r: u16)
        requires
            self.wf(),
        ensures
            r == self.spec_apply(coordinate),
    {
        assert(coordinate as int * self.numerator as int <= 0xffff * 0xffff_ffff) by (nonlinear_arith)
            requires
                coordinate <= 0xffff,
                self.numerator <= 0xffff_ffff,
        ;
        let product: u64 = (coordinate as u64 * self.numerator as u64) / (self.denominator as u64);
        if product > 65535 {
            65535
        } else {
            product as u16
        }
    }

    /// Whether this factor is less than the other.
    pub open spec fn is_below(self, other: Factor) -> bool {
        self.numerator * other.denominator < other.numerator * self.denominator
    }

    /// Whether this factor is less than the other.
    pub fn below(&self, other: &Factor) -> (r: bool)
        ensures
            r == self.is_below(*other),
    {
        assert(self.numerator * other.denominator <= 0xffff_ffff * 0xffff_ffff) by (nonlinear_arith)
            requires
                self.numerator <= 0xffff_ffff,
                other.denominator <= 0xffff_ffff,
        ;
        assert(other.numerator * self.denominator <= 0xffff_ffff * 0xffff_ffff) by (nonlinear_arith)
            requires
                other.numerator <= 0xffff_ffff,
                self.denominator <= 0xffff_ffff,
        ;
        (self.numerator as u64) * (other.denominator as u64) < (other.numerator as u64) * (
        self.denominator as u64)
    }
}

/// The number of coordinates from `low` to `high`, both included.
pub open spec fn span(low: u16, high: u16) -> int {
    1 + high - low
}

/// The factor `result`, replaced by `max` where it is not less than it.
pub open spec fn clamped(result: Factor, max: Option<Factor>) -> Factor {
    match max {
        None => result,
        Some(limit) => if result.is_below(limit) {
            result
        } else {
            limit
        },
    }
}

/// The factor that brings a span of coordinates to the space available:
/// the space divided by the span, clamped to `max`.
pub open spec fn fitting(available: u16, low: u16, high: u16, max: Option<Factor>) -> Factor {
    clamped(Factor { numerator: available as u32, denominator: span(low, high) as u32 }, max)
}

/// The factor for the columns: 1 for an empty matrix.
pub open spec fn factor_x<T: PointTrait>(
    available: u16,
    cells: Seq<T>,
    max: Option<Factor>,
) -> Factor {
    if cells.len() == 0 {
        Factor::spec_one()
    } else {
        fitting(available, lowest_column(cells), highest_column(cells), max)
    }
}

/// The factor for the rows: 1 for an empty matrix.
pub open spec fn factor_y<T: PointTrait>(
    available: u16,
    cells: Seq<T>,
    max: Option<Factor>,
) -> Factor {
    if cells.len() == 0 {
        Factor::spec_one()
    } else {
        fitting(available, lowest_row(cells), highest_row(cells), max)
    }
}

/// The move of a point to its scaled position.
pub open spec fn moved<T: PointTrait>(fx: Factor, fy: Factor) -> spec_fn(T) -> T {
    |point: T| point.spec_with_x_y(fx.spec_apply(point.spec_x()), fy.spec_apply(point.spec_y()))
}

/// The cells of the matrix of the scaled points: the points are moved in
/// row-major order, and of two that come to lie at the same position the
/// later one stays.
pub open spec fn scaled<T: PointTrait>(cells: Seq<T>, fx: Factor, fy: Factor) -> Seq<T> {
    arranged(cells.map_values(moved::<T>(fx, fy)))
}

/// The cells that a mode makes of the cells of a matrix, for the space
/// available.
pub open spec fn transformed<T: PointTrait>(
    mode: Mode,
    width: u16,
    height: u16,
    cells: Seq<T>,
) -> Seq<T> {
    let one = Some(Factor::spec_one());
    match mode {
        Mode::Truncate => cells,
        Mode::Scale => scaled(cells, factor_x(width, cells, None), factor_y(height, cells, None)),
        Mode::ScaleX => scaled(cells, factor_x(width, cells, None), Factor::spec_one()),
        Mode::ScaleY => scaled(cells, Factor::spec_one(), factor_y(height, cells, None)),
        Mode::ScaleDown => scaled(cells, factor_x(width, cells, one), factor_y(height, cells, one)),
        Mode::ScaleDownX => scaled(cells, factor_x(width, cells, one), Factor::spec_one()),
        Mode::ScaleDownY => scaled(cells, Factor::spec_one(), factor_y(height, cells, one)),
    }
}

/// Moves every point to its scaled position.
pub fn scale_with_factors<T: PointTrait>(matrix: &Matrix<T>, factor_x: Factor, factor_y: Factor) -> (r:
    Matrix<T>)
    requires
        matrix.wf(),
        factor_x.wf(),
        factor_y.wf(),
    ensures
        r.wf(),
        r.ordered() == scaled(matrix.ordered(), factor_x, factor_y),
{
    let callback = |point: T| -> (moved_point: T)
        ensures
            moved_point == point.spec_with_x_y(
                factor_x.spec_apply(point.spec_x()),
                factor_y.spec_apply(point.spec_y()),
            ),
        { point.with_x_y(factor_x.apply(point.x()), factor_y.apply(point.y())) };
    let result = matrix.map(callback);
    proof {
        let mapped = choose|mapped: Seq<T>|
            {
                &&& mapped.len() == matrix.ordered().len()
                &&& forall|k: int|
                    0 <= k < mapped.len() ==> call_ensures(
                        callback,
                        (matrix.ordered()[k],),
                        #[trigger] mapped[k],
                    )
                &&& result@ == crate::matrix::as_map(mapped)
                &&& result.ordered() == arranged(mapped)
            };
        assert(mapped =~= matrix.ordered().map_values(moved::<T>(factor_x, factor_y)));
    }
    result
}

/// The factors for both axes.
pub fn get_factor<T: PointTrait>(
    available_width: u16,
    available_height: u16,
    matrix: &Matrix<T>,
    max: Option<Factor>,
) -> (r: (Factor, Factor))
    requires
        matrix.wf(),
        max matches Some(limit) ==> limit.wf(),
    ensures
        r.0 == factor_x(available_width, matrix.ordered(), max),
        r.1 == factor_y(available_height, matrix.ordered(), max),
        r.0.wf(),
        r.1.wf(),
{
    (get_factor_x(available_width, matrix, max), get_factor_y(available_height, matrix, max))
}

/// The factor for the columns.
pub fn get_factor_x<T: PointTrait>(available_width: u16, matrix: &Matrix<T>, max: Option<Factor>) -> (r:
    Factor)
    requires
        matrix.wf(),
        max matches Some(limit) ==> limit.wf(),
    ensures
        r == factor_x(available_width, matrix.ordered(), max),
        r.wf(),
{
    if matrix.is_empty() {
        return Factor::one();
    }
    match (matrix.x_min(), matrix.x_max()) {
        (Some(low), Some(high)) => fit(available_width, low, high, max),
        _ => Factor::one(),
    }
}

/// The factor for the rows.
pub fn get_factor_y<T: PointTrait>(available_height: u16, matrix: &Matrix<T>, max: Option<Factor>) -> (r:
    Factor)
    requires
        matrix.wf(),
        max matches Some(limit) ==> limit.wf(),
    ensures
        r == factor_y(available_height, matrix.ordered(), max),
        r.wf(),
{
    if matrix.is_empty() {
        return Factor::one();
    }
    match (matrix.y_min(), matrix.y_max()) {
        (Some(low), Some(high)) => fit(available_height, low, high, max),
        _ => Factor::one(),
    }
}

/// The factor that brings the span from `low` to `high` to the space
/// available.
pub fn fit(available: u16, low: u16, high: u16, max: Option<Factor>) -> (r: Factor)
    requires
        low <= high,
        max matches Some(limit) ==> limit.wf(),
    ensures
        r == fitting(available, low, high, max),
        r.wf(),
{
    let result = Factor { numerator: available as u32, denominator: 1 + (high - low) as u32 };
    match max {
        None => result,
        Some(limit) => if result.below(&limit) {
            result
        } else {
            limit
        },
    }
}

/// Applies a mode to a matrix, for the space available.
pub fn transform<T: PointTrait>(
    mode: Mode,
    available_width: u16,
    available_height: u16,
    matrix: &Matrix<T>,
) -> (r: Matrix<T>)
    requires
        matrix.wf(),
    ensures
        r.wf(),
        r.ordered() == transformed(mode, available_width, available_height, matrix.ordered()),
{
    let one = Some(Factor::one());
    match mode {
        Mode::Truncate => matrix.duplicate(),
        Mode::Scale => scale_with_factors(
            matrix,
            get_factor_x(available_width, matrix, None),
            get_factor_y(available_height, matrix, None),
        ),
        Mode::ScaleX => scale_with_factors(
            matrix,
            get_factor_x(available_width, matrix, None),
            Factor::one(),
        ),
        Mode::ScaleY => scale_with_factors(
            matrix,
            Factor::one(),
            get_factor_y(available_height, matrix, None),
        ),
        Mode::ScaleDown => scale_with_factors(
            matrix,
            get_factor_x(available_width, matrix, one),
            get_factor_y(available_height, matrix, one),
        ),
        Mode::ScaleDownX => scale_with_factors(
            matrix,
            get_factor_x(available_width, matrix, one),
            Factor::one(),
        ),
        Mode::ScaleDownY => scale_with_factors(
            matrix,
            Factor::one(),
            get_factor_y(available_height, matrix, one),
        ),
    }
}

/// What holds of the cells `r` that a mode made of a matrix for a chart:
/// for a width and a height that the chart may have measured, they are
/// the transformed cells.
pub open spec fn fits_chart<T: PointTrait>(
    mode: Mode,
    chart: &Chart,
    cells: Seq<T>,
    r: Seq<T>,
) -> bool {
    exists|width: u16, height: u16|
        #![trigger chart.may_measure(width, height)]
        chart.may_measure(width, height) && r == transformed(
            mode,
            chart.available_width(width),
            chart.available_height(height),
            cells,
        )
}

/// Scales both axes to the chart.
pub fn scale<T: PointTrait>(chart: &Chart, matrix: &Matrix<T>) -> (r: Matrix<T>)
    requires
        matrix.wf(),
    ensures
        r.wf(),
        fits_chart(Mode::Scale, chart, matrix.ordered(), r.ordered()),
{
    scale_in_mode(Mode::Scale, chart, matrix)
}

/// Scales the columns to the chart's width.
pub fn scale_x<T: PointTrait>(chart: &Chart, matrix: &Matrix<T>) -> (r: Matrix<T>)
    requires
        matrix.wf(),
    ensures
        r.wf(),
        fits_chart(Mode::ScaleX, chart, matrix.ordered(), r.ordered()),
{
    scale_in_mode(Mode::ScaleX, chart, matrix)
}

/// Scales the rows to the chart's height.
pub fn scale_y<T: PointTrait>(chart: &Chart, matrix: &Matrix<T>) -> (r: Matrix<T>)
    requires
        matrix.wf(),
    ensures
        r.wf(),
        fits_chart(Mode::ScaleY, chart, matrix.ordered(), r.ordered()),
{
    scale_in_mode(Mode::ScaleY, chart, matrix)
}

/// Scales both axes down where the points do not fit, never up.
pub fn scale_down<T: PointTrait>(chart: &Chart, matrix: &Matrix<T>) -> (r: Matrix<T>)
    requires
        matrix.wf(),
    ensures
        r.wf(),
        fits_chart(Mode::ScaleDown, chart, matrix.ordered(), r.ordered()),
{
    scale_in_mode(Mode::ScaleDown, chart, matrix)
}

/// Scales the columns down where they do not fit.
pub fn scale_down_x<T: PointTrait>(chart: &Chart, matrix: &Matrix<T>) -> (r: Matrix<T>)
    requires
        matrix.wf(),
    ensures
        r.wf(),
        fits_chart(Mode::ScaleDownX, chart, matrix.ordered(), r.ordered()),
{
    scale_in_mode(Mode::ScaleDownX, chart, matrix)
}

/// Scales the rows down where they do not fit.
pub fn scale_down_y<T: PointTrait>(chart: &Chart, matrix: &Matrix<T>) -> (r: Matrix<T>)
    requires
        matrix.wf(),
    ensures
        r.wf(),
        fits_chart(Mode::ScaleDownY, chart, matrix.ordered(), r.ordered()),
{
    scale_in_mode(Mode::ScaleDownY, chart, matrix)
}

/// Measures the chart and applies the mode.
fn scale_in_mode<T: PointTrait>(mode: Mode, chart: &Chart, matrix: &Matrix<T>) -> (r: Matrix<T>)
    requires
        matrix.wf(),
    ensures
        r.wf(),
        fits_chart(mode, chart, matrix.ordered(), r.ordered()),
{
    let width: u16 = chart.width();
    let height: u16 = chart.height();
    assert(chart.may_measure(width, height));
    transform(mode, chart.usable_width(width), chart.usable_height(height), matrix)
}

/// A factor that is clamped to 1 never enlarges: where the span fits into
/// the space available, the factor is 1 and every coordinate stays as it is.
pub proof fn lemma_no_upscaling(available: u16, low: u16, high: u16, coordinate: u16)
    requires
        low <= high,
        span(low, high) <= available,
    ensures
        fitting(available, low, high, Some(Factor::spec_one())) == Factor::spec_one(),
        Factor::spec_one().spec_apply(coordinate) == coordinate,
{
}

/// The factors of a matrix fit: for each axis, the factor times the span of
/// the points is at most the space available, clamped to 1 or not.
pub proof fn lemma_factors_of_matrix_fit<T: PointTrait>(
    cells: Seq<T>,
    width: u16,
    height: u16,
    max: Option<Factor>,
    x_low: u16,
    x_high: u16,
    y_low: u16,
    y_high: u16,
)
    requires
        cells.len() > 0,
        max is None || max == Some(Factor::spec_one()),
        is_lowest_column(cells, x_low),
        is_highest_column(cells, x_high),
        is_lowest_row(cells, y_low),
        is_highest_row(cells, y_high),
    ensures
        ({
            let fx = factor_x(width, cells, max);
            let fy = factor_y(height, cells, max);
            &&& fx.wf()
            &&& fy.wf()
            &&& fx.numerator * span(x_low, x_high) <= width * fx.denominator
            &&& fy.numerator * span(y_low, y_high) <= height * fy.denominator
        }),
{
    assert(lowest_column(cells) == x_low);
    assert(highest_column(cells) == x_high);
    assert(lowest_row(cells) == y_low);
    assert(highest_row(cells) == y_high);
    lemma_factor_fits(width, x_low, x_high, max is Some);
    lemma_factor_fits(height, y_low, y_high, max is Some);
}

/// Scaling down never enlarges: where the points of a matrix span no more
/// columns and rows than are available, both factors are 1 and every point
/// stays at its position.
pub proof fn lemma_scale_down_is_identity<T: PointTrait>(
    cells: Seq<T>,
    width: u16,
    height: u16,
    x_low: u16,
    x_high: u16,
    y_low: u16,
    y_high: u16,
    point: T,
)
    requires
        cells.len() > 0,
        is_lowest_column(cells, x_low),
        is_highest_column(cells, x_high),
        is_lowest_row(cells, y_low),
        is_highest_row(cells, y_high),
        span(x_low, x_high) <= width,
        span(y_low, y_high) <= height,
    ensures
        factor_x(width, cells, Some(Factor::spec_one())) == Factor::spec_one(),
        factor_y(height, cells, Some(Factor::spec_one())) == Factor::spec_one(),
        position(
            moved::<T>(
                factor_x(width, cells, Some(Factor::spec_one())),
                factor_y(height, cells, Some(Factor::spec_one())),
            )(point),
        ) == position(point),
{
    assert(lowest_column(cells) == x_low);
    assert(highest_column(cells) == x_high);
    assert(lowest_row(cells) == y_low);
    assert(highest_row(cells) == y_high);
    lemma_no_upscaling(width, x_low, x_high, point.spec_x());
    lemma_no_upscaling(height, y_low, y_high, point.spec_y());
    lemma_one_keeps_positions(point);
}

/// The factor 1 on both axes leaves every point at its position.
pub proof fn lemma_one_keeps_positions<T: PointTrait>(point: T)
    ensures
        position(moved::<T>(Factor::spec_one(), Factor::spec_one())(point)) == position(point),
{
    point.lemma_moved(point.spec_x(), point.spec_y());
}

/// The factor times the span is at most the space available, whether the
/// factor is clamped to 1 or not.
pub proof fn lemma_factor_fits(available: u16, low: u16, high: u16, clamp: bool)
    requires
        low <= high,
    ensures
        ({
            let factor = fitting(
                available,
                low,
                high,
                if clamp {
                    Some(Factor::spec_one())
                } else {
                    None
                },
            );
            factor.wf() && factor.numerator * span(low, high) <= available * factor.denominator
        }),
{
    let result = Factor { numerator: available as u32, denominator: span(low, high) as u32 };
    assert(result.numerator * span(low, high) == available * result.denominator) by (nonlinear_arith)
        requires
            result.numerator == available,
            result.denominator == span(low, high),
    ;
}

} // verus!
