//! How a chart fits its points into the space it has.

use vstd::prelude::*;
use crate::text::str_equal;

verus! {

#[derive(Debug, Copy, Clone, PartialEq, Eq, Structural)]
pub enum Mode {
    /// Points outside the chart are cut off.
    Truncate,
    /// Both axes are scaled to the chart.
    Scale,
    /// The columns are scaled to the chart's width.
    ScaleX,
    /// The rows are scaled to the chart's height.
    ScaleY,
    /// Both axes are scaled down where the points do not fit, never up.
    ScaleDown,
    /// The columns are scaled down where they do not fit.
    ScaleDownX,
    /// The rows are scaled down where they do not fit.
    ScaleDownY,
}

impl Mode {
    /// The mode with the given name, if there is one.
    pub open spec fn spec_from_str(mode: Seq<char>) -> Option<Mode> {
        if mode == "truncate"@ {
            Some(Mode::Truncate)
        } else if mode == "scale"@ {
            Some(Mode::Scale)
        } else if mode == "scale-x"@ {
            Some(Mode::ScaleX)
        } else if mode == "scale-y"@ {
            Some(Mode::ScaleY)
        } else if mode == "scale-down"@ {
            Some(Mode::ScaleDown)
        } else if mode == "scale-down-x"@ {
            Some(Mode::ScaleDownX)
        } else if mode == "scale-down-y"@ {
            Some(Mode::ScaleDownY)
        } else {
            None
        }
    }

    /// Reads a mode from its name; any other text is an error.
    pub fn from_str(mode: &str) -> (r: Result<Self, ()>)
        ensures
            r == match Self::spec_from_str(mode@) {
                Some(m) => Ok::<Mode, ()>(m),
                None => Err::<Mode, ()>(()),
            },
    {
        if str_equal(mode, "truncate") {
            Ok(Mode::Truncate)
        } else if str_equal(mode, "scale") {
            Ok(Mode::Scale)
        } else if str_equal(mode, "scale-x") {
            Ok(Mode::ScaleX)
        } else if str_equal(mode, "scale-y") {
            Ok(Mode::ScaleY)
        } else if str_equal(mode, "scale-down") {
            Ok(Mode::ScaleDown)
        } else if str_equal(mode, "scale-down-x") {
            Ok(Mode::ScaleDownX)
        } else if str_equal(mode, "scale-down-y") {
            Ok(Mode::ScaleDownY)
        } else {
            Err(())
        }
    }

    /// Reads a mode from a name that may be missing; a missing name is an
    /// error too.
    pub fn from_option_str(mode: Option<String>) -> (r: Result<Self, ()>)
        ensures
            r == match mode {
                Some(name) => match Self::spec_from_str(name@) {
                    Some(m) => Ok::<Mode, ()>(m),
                    None => Err::<Mode, ()>(()),
                },
                None => Err::<Mode, ()>(()),
            },
    {
        match mode {
            Some(mode) => Mode::from_str(mode.as_str()),
            None => Err(()),
        }
    }
}

} // verus!
