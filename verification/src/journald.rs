//! Framing of line-delimited journal output into one JSON array body.
//!
//! The log query tool prints one JSON object per line. The gateway turns
//! that byte stream into a JSON array in place: every newline byte becomes
//! a comma, and the whole stream is wrapped in square brackets. Reading the
//! tool's output is the caller's business; this transformation is not.
use vstd::prelude::*;

verus! {

/// The byte that the framing writes in place of one input byte: a newline
/// becomes a comma, every other byte stays itself.
pub open spec fn framed_byte(b: u8) -> u8 {
    if b == 10 {
        44
    } else {
        b
    }
}

/// Rewrites line-delimited output as one JSON array body: an opening
/// bracket, then every byte with newlines replaced by commas, then a
/// closing bracket. Nothing is dropped and nothing is reordered.
pub fn frame_journal_lines(bytes: &Vec<u8>) -> (r: Vec<u8>)
    ensures
        r@.len() == bytes@.len() + 2,
        r@[0] == 91u8,
        r@[r@.len() - 1] == 93u8,
        forall|i: int| 0 <= i < bytes@.len() ==> r@[i + 1] == framed_byte(#[trigger] bytes@[i]),
{
    let mut r: Vec<u8> = Vec::new();
    r.push(91);
    let n: usize = bytes.len();
    let mut i: usize = 0;
    while i < n
        invariant
            n == bytes@.len(),
            0 <= i <= n,
            r@.len() == i + 1,
            r@[0] == 91u8,
            forall|k: int| 0 <= k < i ==> r@[k + 1] == framed_byte(#[trigger] bytes@[k]),
        decreases n - i,
    {
        let b = bytes[i];
        if b == 10 {
            r.push(44);
        } else {
            r.push(b);
        }
        i = i + 1;
    }
    r.push(93);
    r
}

} // verus!
