//! The part of the JSON reader that works on text alone.
use vstd::prelude::*;

verus! {

/// Whether `c` has the Unicode `White_Space` property.
pub open spec fn is_white_space(c: char) -> bool {
    let u = c as u32;
    (9 <= u <= 13) || u == 32 || u == 0x85 || u == 0xA0 || u == 0x1680 || (0x2000 <= u <= 0x200A)
        || u == 0x2028 || u == 0x2029 || u == 0x202F || u == 0x205F || u == 0x3000
}

fn white_space(c: char) -> (r: bool)
    ensures
        r == is_white_space(c),
{
    let u = c as u32;
    (9 <= u && u <= 13) || u == 32 || u == 0x85 || u == 0xA0 || u == 0x1680 || (0x2000 <= u && u
        <= 0x200A) || u == 0x2028 || u == 0x2029 || u == 0x202F || u == 0x205F || u == 0x3000
}

/// A reader of JSON text.
pub struct JsonParser;

impl JsonParser {
    /// The position of the first character at or after `pos` that is not
    /// white space; the length of `data` when there is none.
    pub fn skip_whitespace(data: &Vec<char>, pos: usize) -> (r: usize)
        ensures
            pos <= data@.len() ==> pos <= r <= data@.len(),
            pos > data@.len() ==> r == pos,
            forall|k: int| pos <= k < r ==> is_white_space(#[trigger] data@[k]),
            r < data@.len() ==> !is_white_space(data@[r as int]),
    {
        let mut i = pos;
        while i < data.len() && white_space(data[i])
            invariant
                pos <= i,
                pos <= data@.len() ==> i <= data@.len(),
                pos > data@.len() ==> i == pos,
                forall|k: int| pos <= k < i ==> is_white_space(#[trigger] data@[k]),
            decreases data@.len() - i,
        {
            i = i + 1;
        }
        i
    }
}

} // verus!
