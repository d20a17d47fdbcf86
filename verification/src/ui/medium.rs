//! Where a finished screen is written to.

use vstd::prelude::*;
use vstd::string::StringExecFns;
use crate::text::push_char;
use crate::ui::error::Error;

verus! {

/// An output device. Implementations decide what drawing and flushing do
/// and when they fail.
pub trait MediumTrait {
    /// Writes the text to the device.
    fn draw(&self, output: &str) -> Result<(), Error>;

    /// Forces out what was written.
    fn flush(&self) -> Result<(), Error>;
}

/// The escape sequence that moves the cursor to the top left corner.
pub open spec fn cursor_home() -> Seq<char> {
    seq!['\u{1b}'] + "[0;0H"@
}

/// The text that a terminal is sent to show `output` from the top left
/// corner.
pub fn terminal_frame(output: &str) -> (r: String)
    ensures
        r@ == cursor_home() + output@,
{
    let mut buffer = String::new();
    push_char(&mut buffer, '\u{1b}');
    buffer.append("[0;0H");
    buffer.append(output);
    proof {
        assert(buffer@ =~= cursor_home() + output@);
    }
    buffer
}

} // verus!
