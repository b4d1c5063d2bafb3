//! The code points of a string.

use vstd::prelude::*;

verus! {

/// The code points of the characters of `text`, in order. A character map
/// is asked for the whole code point, also where it is above 65535.
pub open spec fn code_points(text: Seq<char>) -> Seq<u32> {
    Seq::new(text.len(), |i: int| text[i] as u32)
}

/// Computes `code_points`.
pub fn points_of(text: &str) -> (codes: Vec<u32>)
    ensures
        codes@ == code_points(text@),
{
    let mut codes: Vec<u32> = Vec::new();
    for c in it: text.chars()
        invariant
            it.seq() == text@,
            codes@ == code_points(text@.take(it.index())),
    {
        codes.push(c as u32);
    }
    codes
}

} // verus!
