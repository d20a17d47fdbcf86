//! Padding of text to a length.

use vstd::prelude::*;
use vstd::string::StringExecFns;
use vstd::string::StrSliceExecFns;
use crate::text::push_repeated;

verus! {

/// `count` copies of `fill`.
pub open spec fn filling(fill: char, count: int) -> Seq<char> {
    Seq::new(
        if count > 0 {
            count as nat
        } else {
            0nat
        },
        |k: int| fill,
    )
}

/// `input`, followed by as many `fill` as bring it to `length` characters;
/// `input` itself where it is that long already.
pub open spec fn padded(input: Seq<char>, length: int, fill: char) -> Seq<char> {
    input + filling(fill, length - input.len())
}

/// `input`, preceded by as many `fill` as bring it to `length` characters;
/// `input` itself where it is that long already.
pub open spec fn left_padded(input: Seq<char>, length: int, fill: char) -> Seq<char> {
    filling(fill, length - input.len()) + input
}

/// Pads the text on the right to `length` characters.
pub fn str_pad(input: &str, length: usize, fill: char) -> (r: String)
    ensures
        r@ == padded(input@, length as int, fill),
{
    let input_length: usize = input.unicode_len();
    let mut buf = String::from_str(input);
    if input_length >= length {
        proof {
            assert(buf@ =~= padded(input@, length as int, fill));
        }
        return buf;
    }
    push_repeated(&mut buf, fill, length - input_length);
    proof {
        assert(buf@ =~= padded(input@, length as int, fill));
    }
    buf
}

/// Pads the text on the left to `length` characters.
pub fn str_left_pad(input: &str, length: usize, fill: char) -> (r: String)
    ensures
        r@ == left_padded(input@, length as int, fill),
{
    let input_length: usize = input.unicode_len();
    let mut buf = String::new();
    if input_length < length {
        push_repeated(&mut buf, fill, length - input_length);
    }
    buf.append(input);
    proof {
        assert(buf@ =~= left_padded(input@, length as int, fill));
    }
    buf
}

} // verus!
