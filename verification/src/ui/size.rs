//! The width and height of a screen.

use vstd::prelude::*;
use vstd::string::StringExecFns;
use crate::ui::error::Error;

verus! {

/// Asks the terminal for its width and height in cells.
///
/// Trusted: calls `term_size::dimensions`, which queries the terminal that
/// the process is attached to. Nothing is claimed of what it reports.
#[verifier::external_body]
pub(crate) fn detect_dimensions() -> (r: Option<(usize, usize)>) {
    term_size::dimensions()
}

/// A width and a height, both at least 1 when made by `new`.
#[derive(Debug, Copy, Clone, PartialEq, Eq, Structural)]
pub struct Size {
    pub width: u16,
    pub height: u16,
}

impl Size {
    /// A size of `width` columns and `height` rows; neither may be zero.
    pub fn new(width: u16, height: u16) -> (r: Size)
        requires
            width > 0,
            height > 0,
        ensures
            r == (Size { width, height }),
    {
        Size { width, height }
    }

    /// The size for a detected terminal size, each dimension converted to
    /// 16 bits by dropping the higher bits; `None` where nothing was detected
    /// or a converted dimension is zero.
    pub open spec fn spec_from_dimensions(dimensions: Option<(usize, usize)>) -> Option<Size> {
        match dimensions {
            Some((width, height)) => if (width as u16) > 0 && (height as u16) > 0 {
                Some(Size { width: width as u16, height: height as u16 })
            } else {
                None
            },
            None => None,
        }
    }

    /// The size of the terminal, or a `SizeError` where it cannot be
    /// determined.
    pub fn auto() -> (r: Result<Size, Error>)
        ensures
            match r {
                Ok(size) => size.width > 0 && size.height > 0 && exists|
                    detected: Option<(usize, usize)>,
                | #[trigger] Self::spec_from_dimensions(detected) == Some(size),
                Err(e) => e matches Error::SizeError(m) && m@
                    == "Could not determine the screen size"@,
            },
    {
        match Self::from_dimensions(detect_dimensions()) {
            Some(size) => Ok(size),
            None => Err(Error::SizeError(String::from_str("Could not determine the screen size"))),
        }
    }

    /// The size for a detected terminal size.
    pub fn from_dimensions(dimensions: Option<(usize, usize)>) -> (r: Option<Size>)
        ensures
            r == Self::spec_from_dimensions(dimensions),
    {
        match dimensions {
            Some((width, height)) => {
                let w: u16 = width as u16;
                let h: u16 = height as u16;
                if w > 0 && h > 0 {
                    Some(Size::new(w, h))
                } else {
                    None
                }
            },
            None => None,
        }
    }
}

} // verus!
