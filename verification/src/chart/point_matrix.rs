//! A matrix of bare points.

use vstd::prelude::*;
use crate::matrix::arranged;
use crate::matrix::cell_at;
use crate::matrix::cells_of_rows;
use crate::matrix::highest_column;
use crate::matrix::highest_row;
use crate::matrix::is_highest_column;
use crate::matrix::is_highest_row;
use crate::matrix::is_lowest_column;
use crate::matrix::is_lowest_row;
use crate::matrix::lowest_column;
use crate::matrix::lowest_row;
use crate::matrix::position;
use crate::matrix::Matrix;
use crate::matrix::Row;
use crate::point::Point;

verus! {

/// The queries of a matrix of bare points.
pub trait PointMatrixTrait {
    /// The points in row-major order.
    spec fn cells(&self) -> Seq<Point>;

    /// Whether the matrix is well formed.
    spec fn valid(&self) -> bool;

    fn get(&self, row: u16, column: u16) -> (r: Option<Point>)
        requires
            self.valid(),
        ensures
            r == cell_at(self.cells(), row, column),
    ;

    fn has(&self, row: u16, column: u16) -> (r: bool)
        requires
            self.valid(),
        ensures
            r == cell_at(self.cells(), row, column) is Some,
    ;

    fn is_empty(&self) -> (r: bool)
        requires
            self.valid(),
        ensures
            r == (self.cells().len() == 0),
    ;

    fn x_max(&self) -> (r: Option<u16>)
        requires
            self.valid(),
        ensures
            match r {
                Some(m) => is_highest_column(self.cells(), m) && m == highest_column(self.cells()),
                None => self.cells().len() == 0,
            },
    ;

    fn y_max(&self) -> (r: Option<u16>)
        requires
            self.valid(),
        ensures
            match r {
                Some(m) => is_highest_row(self.cells(), m) && m == highest_row(self.cells()),
                None => self.cells().len() == 0,
            },
    ;

    fn x_y_max(&self) -> (r: Option<(u16, u16)>)
        requires
            self.valid(),
        ensures
            match r {
                Some((x, y)) => is_highest_column(self.cells(), x) && is_highest_row(
                    self.cells(),
                    y,
                ),
                None => self.cells().len() == 0,
            },
    ;

    fn x_min(&self) -> (r: Option<u16>)
        requires
            self.valid(),
        ensures
            match r {
                Some(m) => is_lowest_column(self.cells(), m) && m == lowest_column(self.cells()),
                None => self.cells().len() == 0,
            },
    ;

    fn y_min(&self) -> (r: Option<u16>)
        requires
            self.valid(),
        ensures
            match r {
                Some(m) => is_lowest_row(self.cells(), m) && m == lowest_row(self.cells()),
                None => self.cells().len() == 0,
            },
    ;

    fn x_y_min(&self) -> (r: Option<(u16, u16)>)
        requires
            self.valid(),
        ensures
            match r {
                Some((x, y)) => is_lowest_column(self.cells(), x) && is_lowest_row(self.cells(), y),
                None => self.cells().len() == 0,
            },
    ;
}

pub struct PointMatrix {
    pub matrix: Matrix<Point>,
}

impl PointMatrix {
    /// The matrix of the cells of the given rows; rows without cells add
    /// nothing.
    pub fn new(rows: Vec<Row<Point>>) -> (r: Self)
        ensures
            r.valid(),
            r.cells() == arranged(cells_of_rows(rows@, rows@.len() as int)),
            r.cells().len() == 0 <==> forall|i: int|
                0 <= i < rows@.len() ==> rows@[i].cells@.len() == 0,
            forall|i: int, j: int|
                0 <= i < rows@.len() && 0 <= j < rows@[i].cells@.len() ==> cell_at(
                    r.cells(),
                    (#[trigger] position(rows@[i].cells@[j])).0,
                    position(rows@[i].cells@[j]).1,
                ) is Some,
    {
        PointMatrix { matrix: Matrix::new(rows) }
    }

    /// The matrix of the given points, a later point replacing an earlier
    /// one at the same position.
    pub fn new_from_vec(points: Vec<Point>) -> (r: Self)
        ensures
            r.valid(),
            r.cells() == arranged(points@),
    {
        PointMatrix { matrix: Matrix::from_vec(points) }
    }
}

impl PointMatrixTrait for PointMatrix {
    open spec fn cells(&self) -> Seq<Point> {
        self.matrix.ordered()
    }

    open spec fn valid(&self) -> bool {
        self.matrix.wf()
    }

    fn get(&self, row: u16, column: u16) -> (r: Option<Point>) {
        self.matrix.get(row, column)
    }

    fn has(&self, row: u16, column: u16) -> (r: bool) {
        self.matrix.has(row, column)
    }

    fn is_empty(&self) -> (r: bool) {
        self.matrix.is_empty()
    }

    fn x_max(&self) -> (r: Option<u16>) {
        self.matrix.x_max()
    }

    fn y_max(&self) -> (r: Option<u16>) {
        self.matrix.y_max()
    }

    fn x_y_max(&self) -> (r: Option<(u16, u16)>) {
        self.matrix.x_y_max()
    }

    fn x_min(&self) -> (r: Option<u16>) {
        self.matrix.x_min()
    }

    fn y_min(&self) -> (r: Option<u16>) {
        self.matrix.y_min()
    }

    fn x_y_min(&self) -> (r: Option<(u16, u16)>) {
        self.matrix.x_y_min()
    }
}

} // verus!
