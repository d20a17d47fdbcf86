//! A character with its style.

use vstd::prelude::*;
use crate::ui::style::Styles;

verus! {

#[derive(Debug, Copy, Clone, PartialEq, Eq, Structural)]
pub struct Element {
    pub character: char,
    pub styles: Styles,
}

impl Element {
    pub fn new(character: char, styles: Styles) -> (r: Self)
        ensures
            r == (Element { character, styles }),
    {
        Element { character, styles }
    }

    /// The character in the normal style.
    pub fn normal(character: char) -> (r: Self)
        ensures
            r == (Element { character, styles: Styles::spec_normal() }),
    {
        Self::new(character, Styles::normal())
    }

    /// A space in the normal style.
    pub open spec fn spec_blank() -> Element {
        Element { character: ' ', styles: Styles::spec_normal() }
    }

    /// A space in the normal style.
    pub fn blank() -> (r: Self)
        ensures
            r == Self::spec_blank(),
    {
        Element { character: ' ', styles: Styles::normal() }
    }
}

} // verus!
