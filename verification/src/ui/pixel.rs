//! One cell of the screen: a position, a styled character and whether the
//! cell was filled in automatically.

use vstd::prelude::*;
use crate::matrix::PointTrait;
use crate::ui::element::Element;
use crate::ui::style::Styles;

verus! {

/// The type of a coordinate: 0 to 65535.
pub type CoordinatePrecision = u16;

#[derive(Debug, Copy, Clone, PartialEq, Eq, Structural)]
pub struct Pixel {
    pub x: CoordinatePrecision,
    pub y: CoordinatePrecision,
    pub element: Element,
    /// Set on a cell that filled a gap and was not drawn.
    pub placeholder: bool,
}

impl Pixel {
    pub fn new(element: Element, x: CoordinatePrecision, y: CoordinatePrecision) -> (r: Self)
        ensures
            r == (Pixel { x, y, element, placeholder: false }),
    {
        Pixel { element, x, y, placeholder: false }
    }

    pub fn with_element_and_point<T: PointTrait>(element: Element, point: &T) -> (r: Self)
        ensures
            r == (Pixel { x: point.spec_x(), y: point.spec_y(), element, placeholder: false }),
    {
        Pixel::new(element, point.x(), point.y())
    }

    /// A drawn cell with the given character and style at the point.
    pub fn with_point_and_styles<T: PointTrait>(character: char, point: &T, styles: Styles) -> (r:
        Self)
        ensures
            r == (Pixel {
                x: point.spec_x(),
                y: point.spec_y(),
                element: Element { character, styles },
                placeholder: false,
            }),
    {
        Pixel::new(Element::new(character, styles), point.x(), point.y())
    }

    pub fn normal_with_point<T: PointTrait>(character: char, point: &T) -> (r: Self)
        ensures
            r == Self::spec_normal(character, point.spec_x(), point.spec_y()),
    {
        Self::normal(character, point.x(), point.y())
    }

    /// A drawn cell with the character in the normal style.
    pub open spec fn spec_normal(character: char, x: u16, y: u16) -> Pixel {
        Pixel {
            x,
            y,
            element: Element { character, styles: Styles::spec_normal() },
            placeholder: false,
        }
    }

    pub fn normal(character: char, x: CoordinatePrecision, y: CoordinatePrecision) -> (r: Self)
        ensures
            r == Self::spec_normal(character, x, y),
    {
        Self::new(Element::normal(character), x, y)
    }

    /// A blank cell that fills a gap.
    pub open spec fn spec_placeholder(x: u16, y: u16) -> Pixel {
        Pixel { x, y, element: Element::spec_blank(), placeholder: true }
    }

    pub fn placeholder(x: CoordinatePrecision, y: CoordinatePrecision) -> (r: Self)
        ensures
            r == Self::spec_placeholder(x, y),
    {
        Pixel { x, y, element: Element::blank(), placeholder: true }
    }

    /// A gap-filling cell that shows `character` in the normal style.
    pub fn placeholder_with_character(
        x: CoordinatePrecision,
        y: CoordinatePrecision,
        character: char,
    ) -> (r: Self)
        ensures
            r == (Pixel {
                x,
                y,
                element: Element { character, styles: Styles::spec_normal() },
                placeholder: true,
            }),
    {
        Pixel { x, y, element: Element::normal(character), placeholder: true }
    }

    pub fn blank(x: CoordinatePrecision, y: CoordinatePrecision) -> (r: Self)
        ensures
            r == Self::spec_placeholder(x, y),
    {
        Pixel { x, y, element: Element::blank(), placeholder: true }
    }

    pub fn blank_with_point<T: PointTrait>(point: &T) -> (r: Self)
        ensures
            r == Self::spec_placeholder(point.spec_x(), point.spec_y()),
    {
        Self::blank(point.x(), point.y())
    }

    pub fn character(&self) -> (r: char)
        ensures
            r == self.element.character,
    {
        self.element.character
    }

    pub fn styles(&self) -> (r: Styles)
        ensures
            r == self.element.styles,
    {
        self.element.styles
    }
}

impl PointTrait for Pixel {
    open spec fn spec_x(&self) -> u16 {
        self.x
    }

    open spec fn spec_y(&self) -> u16 {
        self.y
    }

    open spec fn spec_with_x_y(&self, x: u16, y: u16) -> Self {
        Pixel { x, y, ..*self }
    }

    fn x(&self) -> (r: u16) {
        self.x
    }

    fn y(&self) -> (r: u16) {
        self.y
    }

    fn with_x(&self, new_x: u16) -> (r: Self) {
        Pixel { x: new_x, y: self.y, element: self.element, placeholder: self.placeholder }
    }

    fn with_y(&self, new_y: u16) -> (r: Self) {
        Pixel { x: self.x, y: new_y, element: self.element, placeholder: self.placeholder }
    }

    fn with_x_y(&self, new_x: u16, new_y: u16) -> (r: Self) {
        Pixel { x: new_x, y: new_y, element: self.element, placeholder: self.placeholder }
    }

    proof fn lemma_moved(&self, x: u16, y: u16) {
    }
}

} // verus!
