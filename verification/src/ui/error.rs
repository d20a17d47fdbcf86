//! The failures of the screen side, each with a message.

use vstd::prelude::*;

verus! {

#[derive(Debug, PartialEq, Eq)]
pub enum Error {
    Misc(String),
    /// The input text cannot be drawn as given.
    InputTextError(String),
    /// A size or a coordinate is out of range.
    SizeError(String),
    /// The output medium failed.
    OutputError(String),
}

impl Error {
    /// The message that the failure carries.
    pub open spec fn spec_message(&self) -> Seq<char> {
        match self {
            Error::Misc(message) => message@,
            Error::InputTextError(message) => message@,
            Error::SizeError(message) => message@,
            Error::OutputError(message) => message@,
        }
    }

    /// The message that the failure carries.
    pub fn message(&self) -> (r: String)
        ensures
            r@ == self.spec_message(),
    {
        match self {
            Error::Misc(message) => message.clone(),
            Error::InputTextError(message) => message.clone(),
            Error::SizeError(message) => message.clone(),
            Error::OutputError(message) => message.clone(),
        }
    }
}

} // verus!
