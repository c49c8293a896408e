//! Line extraction for a byte-at-a-time reader: from the bytes such a reader
//! would yield, the one line it accumulates, trailing newline discarded.

use crate::capture::NEWLINE;
use crate::capture::line_len;
use crate::capture::lemma_line_len_at;
use crate::capture::strip_newline;
use vstd::prelude::*;

verus! {

/// Reads one line out of `bytes`, the stream's contents: every byte before
/// the first newline, or all of them when the stream holds none. The newline
/// itself is discarded.
pub fn unbuffered_readline(bytes: &Vec<u8>) -> (line: Vec<u8>)
    ensures
        line@ == strip_newline(bytes@.take(line_len(bytes@))),
{
    let mut line: Vec<u8> = Vec::new();
    let mut i: usize = 0;
    let len = bytes.len();
    while i < len && bytes[i] != NEWLINE
        invariant
            i <= len,
            len == bytes@.len(),
            line@ == bytes@.take(i as int),
            forall|k: int| 0 <= k < i ==> bytes@[k] != NEWLINE,
        decreases len - i,
    {
        line.push(bytes[i]);
        i = i + 1;
        proof {
            assert(line@ =~= bytes@.take(i as int));
        }
    }
    proof {
        lemma_line_len_at(bytes@, i as int);
        assert(strip_newline(bytes@.take(line_len(bytes@))) =~= bytes@.take(i as int));
    }
    line
}

} // verus!
