//! What a canvas writes for a row and for a cell.

use vstd::prelude::*;
use vstd::string::StringExecFns;
use crate::matrix::PointTrait;
use crate::matrix::Row;

verus! {

/// The cells of a row as a sequence, for a row that may be missing.
pub open spec fn row_cells<T: PointTrait>(row: Option<&Row<T>>) -> Option<Seq<T>> {
    match row {
        Some(found) => Some(found.cells@),
        None => None,
    }
}

/// A renderer: the text in front of each row, and the text of each cell.
/// Both are functions of what they are given.
pub trait Configuration<T: PointTrait> {
    /// The text in front of a row: of its cells, if it has any, and its
    /// number.
    spec fn row_text(&self, row: Option<Seq<T>>, row_number: u32) -> Seq<char>;

    /// The text of a cell: of the point in it, if there is one.
    spec fn point_text(&self, point: Option<T>) -> Seq<char>;

    fn draw_row(&self, row: Option<&Row<T>>, row_number: u32) -> (r: String)
        ensures
            r@ == self.row_text(row_cells(row), row_number),
    ;

    fn draw_point(&self, point: Option<T>) -> (r: String)
        ensures
            r@ == self.point_text(point),
    ;
}

/// A renderer that writes one text for a cell with a point, another for a
/// cell without, and nothing in front of a row.
pub struct SymbolConfiguration {
    pub point_symbol: String,
    pub placeholder: String,
}

impl SymbolConfiguration {
    pub fn new(point_symbol: &str, placeholder: &str) -> (r: Self)
        ensures
            r.point_symbol@ == point_symbol@,
            r.placeholder@ == placeholder@,
    {
        SymbolConfiguration {
            point_symbol: String::from_str(point_symbol),
            placeholder: String::from_str(placeholder),
        }
    }
}

impl<T: PointTrait> Configuration<T> for SymbolConfiguration {
    open spec fn row_text(&self, row: Option<Seq<T>>, row_number: u32) -> Seq<char> {
        Seq::empty()
    }

    open spec fn point_text(&self, point: Option<T>) -> Seq<char> {
        match point {
            Some(_) => self.point_symbol@,
            None => self.placeholder@,
        }
    }

    fn draw_row(&self, row: Option<&Row<T>>, row_number: u32) -> (r: String) {
        String::new()
    }

    fn draw_point(&self, point: Option<T>) -> (r: String) {
        match point {
            Some(_) => self.point_symbol.clone(),
            None => self.placeholder.clone(),
        }
    }
}

/// A renderer made of two functions.
pub struct CallbackConfiguration<R, P, T: PointTrait> where
    R: Fn(Option<&Row<T>>, u32) -> String,
    P: Fn(Option<T>) -> String,
 {
    pub draw_row: R,
    pub draw_point: P,
    pub _use_t: Option<T>,
}

impl<R, P, T: PointTrait> CallbackConfiguration<R, P, T> where
    R: Fn(Option<&Row<T>>, u32) -> String,
    P: Fn(Option<T>) -> String,
 {
    pub fn new(draw_row: R, draw_point: P) -> (r: Self)
        ensures
            r.draw_row == draw_row,
            r.draw_point == draw_point,
    {
        CallbackConfiguration { draw_row, draw_point, _use_t: None }
    }

    /// What the row function returns for the row.
    pub fn draw_row(&self, row: Option<&Row<T>>, row_number: u32) -> (r: String)
        requires
            call_requires(self.draw_row, (row, row_number)),
        ensures
            call_ensures(self.draw_row, (row, row_number), r),
    {
        (self.draw_row)(row, row_number)
    }

    /// What the cell function returns for the point.
    pub fn draw_point(&self, point: Option<T>) -> (r: String)
        requires
            call_requires(self.draw_point, (point,)),
        ensures
            call_ensures(self.draw_point, (point,), r),
    {
        (self.draw_point)(point)
    }
}

} // verus!
