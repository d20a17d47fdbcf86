//! A bare coordinate pair.

use vstd::prelude::*;
use crate::matrix::PointTrait;
use crate::text::decimal;
use crate::text::push_char;
use crate::text::push_decimal;
use vstd::string::StringExecFns;

verus! {

/// A column and a row.
#[derive(Debug, Copy, Clone, PartialEq, Eq, Structural)]
pub struct Point {
    pub x: u16,
    pub y: u16,
}

impl Point {
    pub fn new(x: u16, y: u16) -> (r: Self)
        ensures
            r == (Point { x, y }),
    {
        Point { x, y }
    }

    /// The origin.
    pub fn null() -> (r: Self)
        ensures
            r == (Point { x: 0, y: 0 }),
    {
        Point { x: 0, y: 0 }
    }

    /// The text `Point XxY`.
    pub open spec fn spec_to_text(self) -> Seq<char> {
        "Point "@ + decimal(self.x as nat) + seq!['x'] + decimal(self.y as nat)
    }

    /// Describes the point as `Point XxY`.
    pub fn to_text(&self) -> (r: String)
        ensures
            r@ == self.spec_to_text(),
    {
        let mut out = String::new();
        out.append("Point ");
        push_decimal(&mut out, self.x as u128);
        push_char(&mut out, 'x');
        push_decimal(&mut out, self.y as u128);
        proof {
            assert(out@ =~= self.spec_to_text());
        }
        out
    }
}

impl PointTrait for Point {
    open spec fn spec_x(&self) -> u16 {
        self.x
    }

    open spec fn spec_y(&self) -> u16 {
        self.y
    }

    open spec fn spec_with_x_y(&self, x: u16, y: u16) -> Self {
        Point { x, y }
    }

    fn x(&self) -> (r: u16) {
        self.x
    }

    fn y(&self) -> (r: u16) {
        self.y
    }

    fn with_x(&self, new_x: u16) -> (r: Self) {
        Point { x: new_x, y: self.y }
    }

    fn with_y(&self, new_y: u16) -> (r: Self) {
        Point { x: self.x, y: new_y }
    }

    fn with_x_y(&self, new_x: u16, new_y: u16) -> (r: Self) {
        Point { x: new_x, y: new_y }
    }

    proof fn lemma_moved(&self, x: u16, y: u16) {
    }
}

} // verus!
