//! The input capture engine: which bytes of standard input end up in the
//! workspace file.
//!
//! Two mutually exclusive modes exist. Binary mode copies the whole input
//! without interpretation. Text mode reads the input as newline-delimited
//! lines and writes them, newline included, until it meets the line that —
//! with its trailing newline stripped — equals the logical end-of-input
//! marker; that line and everything after it are never written.
//!
//! A line is any run of bytes ended by the newline byte, or the final
//! partial run of the stream. Text mode assumes nothing about character
//! encoding and validates none: lines and the marker are compared byte for
//! byte, and every non-matching line is written exactly as read.

use crate::bytes::copy_bytes;
use vstd::prelude::*;

verus! {

/// The byte that ends a line in text mode.
pub const NEWLINE: u8 = 10;

/// How standard input is drained into the workspace file. The mode is picked
/// once, from the configuration, before any byte is read.
pub enum CaptureMode {
    /// Copy the input byte for byte, to its natural end.
    Binary,
    /// Write whole lines until the line equal to `marker` is met.
    Text { marker: Vec<u8> },
}

impl CaptureMode {
    /// The logical end-of-input marker, when the mode has one.
    pub open spec fn spec_marker(self) -> Option<Seq<u8>> {
        match self {
            CaptureMode::Binary => None,
            CaptureMode::Text { marker } => Some(marker@),
        }
    }
}

/// Length, newline included, of the first line of `input`: everything up to
/// and including the first newline byte, or all of `input` when no newline
/// is left (the final partial line).
pub open spec fn line_len(input: Seq<u8>) -> int
    decreases input.len(),
{
    if input.len() == 0 {
        0
    } else if input[0] == NEWLINE {
        1
    } else {
        1 + line_len(input.skip(1))
    }
}

/// The first line of a nonempty input is nonempty and lies within the input.
pub proof fn lemma_line_len_bounds(input: Seq<u8>)
    ensures
        input.len() == 0 ==> line_len(input) == 0,
        input.len() > 0 ==> 1 <= line_len(input) <= input.len(),
    decreases input.len(),
{
    if input.len() > 0 && input[0] != NEWLINE {
        lemma_line_len_bounds(input.skip(1));
    }
}

/// Pins the first line's end: when no byte before `i` is a newline and `i`
/// is either a newline position or the end of the input, the first line runs
/// exactly to `i`, newline included.
pub proof fn lemma_line_len_at(input: Seq<u8>, i: int)
    requires
        0 <= i <= input.len(),
        forall|k: int| 0 <= k < i ==> input[k] != NEWLINE,
        i == input.len() || input[i] == NEWLINE,
    ensures
        line_len(input) == if i < input.len() { i + 1 } else { i },
    decreases i,
{
    if input.len() == 0 {
    } else if input[0] == NEWLINE {
        assert(i == 0);
    } else {
        assert(i > 0);
        assert(forall|k: int| 0 <= k < i - 1 ==> input.skip(1)[k] == input[k + 1]);
        lemma_line_len_at(input.skip(1), i - 1);
    }
}

/// A line with its one trailing newline removed; a line without one (the
/// final partial line of a stream) is left as it is.
pub open spec fn strip_newline(line: Seq<u8>) -> Seq<u8> {
    if line.len() > 0 && line.last() == NEWLINE {
        line.drop_last()
    } else {
        line
    }
}

/// The bytes text mode writes for `input`: whole lines, newline included, up
/// to but not including the first line that equals `marker` once its
/// trailing newline is stripped. The marker line itself is never written.
pub open spec fn text_captured(input: Seq<u8>, marker: Seq<u8>) -> Seq<u8>
    decreases input.len(),
    via text_captured_decreases
{
    if input.len() == 0 {
        Seq::empty()
    } else {
        let n = line_len(input);
        let line = input.take(n);
        if strip_newline(line) == marker {
            Seq::empty()
        } else {
            line + text_captured(input.skip(n), marker)
        }
    }
}

#[via_fn]
proof fn text_captured_decreases(input: Seq<u8>, marker: Seq<u8>) {
    lemma_line_len_bounds(input);
}

/// The lines of `s`, trailing newlines stripped, each compared to `marker`:
/// whether any of them equals it.
pub open spec fn has_marker_line(s: Seq<u8>, marker: Seq<u8>) -> bool
    decreases s.len(),
    via has_marker_line_decreases
{
    if s.len() == 0 {
        false
    } else {
        let n = line_len(s);
        strip_newline(s.take(n)) == marker || has_marker_line(s.skip(n), marker)
    }
}

#[via_fn]
proof fn has_marker_line_decreases(s: Seq<u8>, marker: Seq<u8>) {
    lemma_line_len_bounds(s);
}

/// The first line in detail: every byte before its end differs from the
/// newline, and the line either ends with the newline or runs to the end of
/// the input.
pub proof fn lemma_line_len_chars(s: Seq<u8>)
    requires
        s.len() > 0,
    ensures
        1 <= line_len(s) <= s.len(),
        forall|k: int| 0 <= k < line_len(s) - 1 ==> s[k] != NEWLINE,
        s[line_len(s) - 1] == NEWLINE || line_len(s) == s.len(),
    decreases s.len(),
{
    lemma_line_len_bounds(s);
    if s[0] != NEWLINE && s.len() > 1 {
        lemma_line_len_chars(s.skip(1));
        assert forall|k: int| 0 <= k < line_len(s) - 1 implies s[k] != NEWLINE by {
            if k > 0 {
                assert(s[k] == s.skip(1)[k - 1]);
            }
        }
        assert(s[line_len(s) - 1] == s.skip(1)[line_len(s.skip(1)) - 1]);
    }
}

/// Capture stops early only at a marker line: when no line of the input —
/// trailing newline stripped — equals the marker, text mode writes the whole
/// input.
pub proof fn lemma_text_captured_whole(s: Seq<u8>, marker: Seq<u8>)
    requires
        !has_marker_line(s, marker),
    ensures
        text_captured(s, marker) == s,
    decreases s.len(),
{
    if s.len() == 0 {
        assert(text_captured(s, marker) =~= s);
    } else {
        let n = line_len(s);
        lemma_line_len_bounds(s);
        lemma_text_captured_whole(s.skip(n), marker);
        assert(s.take(n) + s.skip(n) =~= s);
    }
}

/// Once the marker line is read, nothing further is written: for an input
/// that begins with complete lines, none of which is the marker, followed by
/// the marker line itself, the captured bytes are exactly that prefix — the
/// marker line and whatever follows it, even further complete lines, are
/// never persisted.
pub proof fn lemma_text_captured_stops_at_marker(prefix: Seq<u8>, marker: Seq<u8>, rest: Seq<u8>)
    requires
        prefix.len() == 0 || prefix.last() == NEWLINE,
        !has_marker_line(prefix, marker),
        forall|k: int| 0 <= k < marker.len() ==> marker[k] != NEWLINE,
    ensures
        text_captured(prefix + marker.push(NEWLINE) + rest, marker) == prefix,
    decreases prefix.len(),
{
    let input = prefix + marker.push(NEWLINE) + rest;
    if prefix.len() == 0 {
        assert(forall|k: int| 0 <= k < marker.len() ==> input[k] == marker[k]);
        assert(input[marker.len() as int] == NEWLINE);
        lemma_line_len_at(input, marker.len() as int);
        assert(input.take(marker.len() as int + 1) =~= marker.push(NEWLINE));
        assert(strip_newline(marker.push(NEWLINE)) =~= marker);
        assert(text_captured(input, marker) =~= prefix);
    } else {
        let n = line_len(prefix);
        lemma_line_len_chars(prefix);
        assert(prefix[n - 1] == NEWLINE);
        assert(forall|k: int| 0 <= k < n - 1 ==> input[k] == prefix[k]);
        assert(input[n - 1] == prefix[n - 1]);
        lemma_line_len_at(input, n - 1);
        assert(line_len(input) == n);
        assert(input.take(n) =~= prefix.take(n));
        assert(strip_newline(prefix.take(n)) != marker);
        assert(input.skip(n) =~= prefix.skip(n) + marker.push(NEWLINE) + rest);
        if prefix.skip(n).len() > 0 {
            assert(prefix.skip(n).last() == prefix.last());
        }
        lemma_text_captured_stops_at_marker(prefix.skip(n), marker, rest);
        assert(text_captured(input, marker) == input.take(n) + text_captured(
            input.skip(n),
            marker,
        ));
        assert(input.take(n) + prefix.skip(n) =~= prefix);
    }
}

/// The bytes the capture engine writes for `input`: the input itself in
/// binary mode, the lines before the marker line in text mode.
pub open spec fn captured(input: Seq<u8>, marker: Option<Seq<u8>>) -> Seq<u8> {
    match marker {
        None => input,
        Some(m) => text_captured(input, m),
    }
}

/// Whether `v` between `start` and `end` equals `pat` exactly.
pub fn range_matches(v: &Vec<u8>, start: usize, end: usize, pat: &Vec<u8>) -> (r: bool)
    requires
        start <= end <= v@.len(),
    ensures
        r == (v@.subrange(start as int, end as int) == pat@),
{
    if end - start != pat.len() {
        proof {
            assert(v@.subrange(start as int, end as int).len() != pat@.len());
        }
        return false;
    }
    let mut k: usize = 0;
    while k < pat.len()
        invariant
            k <= pat@.len(),
            start <= end <= v@.len(),
            end - start == pat@.len(),
            forall|j: int| 0 <= j < k ==> v@[start + j] == pat@[j],
        decreases pat@.len() - k,
    {
        if v[start + k] != pat[k] {
            proof {
                assert(v@.subrange(start as int, end as int)[k as int] != pat@[k as int]);
            }
            return false;
        }
        k = k + 1;
    }
    proof {
        assert(v@.subrange(start as int, end as int) =~= pat@);
    }
    true
}

/// The capture engine's whole effect, as a function from the drained input
/// to the workspace file's final contents. In binary mode the contents equal
/// the input exactly; in text mode they are `text_captured`: every line
/// before the marker line, newline preserved, and nothing from the marker
/// line on.
pub fn capture_contents(input: &Vec<u8>, mode: &CaptureMode) -> (out: Vec<u8>)
    ensures
        out@ == captured(input@, mode.spec_marker()),
{
    match mode {
        CaptureMode::Binary => copy_bytes(input),
        CaptureMode::Text { marker } => capture_text(input, marker),
    }
}

/// Text-mode capture: scans line by line, comparing each line — trailing
/// newline stripped — against the marker, and writes the non-matching lines
/// exactly as read until the marker line or the end of the input.
fn capture_text(input: &Vec<u8>, marker: &Vec<u8>) -> (out: Vec<u8>)
    ensures
        out@ == text_captured(input@, marker@),
{
    let len = input.len();
    let mut out: Vec<u8> = Vec::new();
    let mut pos: usize = 0;
    proof {
        assert(input@.skip(0) =~= input@);
        assert(out@ + text_captured(input@, marker@) =~= text_captured(input@, marker@));
    }
    loop
        invariant
            pos <= len,
            len == input@.len(),
            text_captured(input@, marker@) == out@ + text_captured(
                input@.skip(pos as int),
                marker@,
            ),
        ensures
            out@ == text_captured(input@, marker@),
        decreases len - pos,
    {
        if pos >= len {
            proof {
                assert(input@.skip(pos as int) =~= Seq::<u8>::empty());
                assert(out@ =~= out@ + Seq::<u8>::empty());
            }
            break;
        }
        let ghost rest = input@.skip(pos as int);
        // Find the end of the current line.
        let mut end: usize = pos;
        while end < len && input[end] != NEWLINE
            invariant
                pos <= end <= len,
                len == input@.len(),
                forall|k: int| pos <= k < end ==> input@[k] != NEWLINE,
            decreases len - end,
        {
            end = end + 1;
        }
        proof {
            assert(forall|k: int| 0 <= k < end - pos ==> rest[k] == input@[pos + k]);
            lemma_line_len_at(rest, end - pos);
        }
        // `line_end` is the line's end with its newline included.
        let line_end = if end < len {
            end + 1
        } else {
            end
        };
        proof {
            assert(line_len(rest) == line_end - pos);
            assert(rest.take(line_end - pos) =~= input@.subrange(pos as int, line_end as int));
            assert(strip_newline(rest.take(line_end - pos)) =~= input@.subrange(
                pos as int,
                end as int,
            ));
        }
        // The line, trailing newline stripped, runs from `pos` to `end`.
        if range_matches(input, pos, end, marker) {
            proof {
                assert(text_captured(rest, marker@) =~= Seq::<u8>::empty());
                assert(out@ =~= out@ + Seq::<u8>::empty());
            }
            break;
        }
        // Not the marker: write the line exactly as read, newline included.
        let ghost out_before = out@;
        let mut k: usize = pos;
        while k < line_end
            invariant
                pos <= k <= line_end <= len,
                len == input@.len(),
                out@ == out_before + input@.subrange(pos as int, k as int),
            decreases line_end - k,
        {
            out.push(input[k]);
            k = k + 1;
            proof {
                assert(out@ =~= out_before + input@.subrange(pos as int, k as int));
            }
        }
        proof {
            assert(text_captured(rest, marker@) == rest.take(line_end - pos) + text_captured(
                rest.skip(line_end - pos),
                marker@,
            ));
            assert(rest.skip(line_end - pos) =~= input@.skip(line_end as int));
            assert(out_before + rest.take(line_end - pos) =~= out@);
            assert(out@ + text_captured(input@.skip(line_end as int), marker@) =~= out_before
                + text_captured(rest, marker@));
        }
        pos = line_end;
    }
    out
}

} // verus!
