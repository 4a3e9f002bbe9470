//! How much room a text takes in a stored record.

use vstd::prelude::*;

verus! {

/// The number of bytes that a text takes in a stored record: the length of
/// its UTF-8 encoding.
pub open spec fn byte_len(text: Seq<char>) -> nat {
    vstd::utf8::encode_utf8(text).len()
}

/// Whether a text takes at most `limit` bytes in a stored record.
pub fn fits(text: &String, limit: usize) -> (within: bool)
    ensures
        within == (byte_len(text@) <= limit),
{
    text.as_str().as_bytes().len() <= limit
}

} // verus!
