//! The cursor-read primitive's decision core.
//!
//! A read loops: snapshot a slice at the cursor, decide, and either return
//! or suspend until new data or a deadline.  The waiting itself is the
//! caller's concern; `read_step` makes the decision for one fresh snapshot,
//! so that chained reads never gap or overlap: the returned `next_cursor`
//! is always the exact position after the last returned byte.

use vstd::prelude::*;

use crate::buffer::BufferSlice;
use crate::pattern::{regex_find_range, Pattern};

verus! {

/// The outcome of one cursor read.
#[derive(Debug)]
pub struct ReadResult {
    pub slice: BufferSlice,
    pub matched: bool,
    pub idle_reached: bool,
    pub timed_out: bool,
    pub eof: bool,
    pub waiting_for_input: Option<bool>,
    pub next_cursor: u64,
}

/// The resolved parameters of a cursor read.
#[derive(Debug)]
pub struct ReadParams {
    pub cursor: Option<u64>,
    pub timeout_ms: u64,
    pub max_bytes: usize,
    pub until_regex: Option<Pattern>,
    pub include_match: bool,
    pub until_idle_ms: Option<u64>,
    pub input_hints: Option<Vec<Pattern>>,
}

/// What one snapshot decides: return to the caller, or wait for new data
/// and re-snapshot from `cursor`.
#[derive(Debug)]
pub enum ReadStep {
    Done(ReadResult),
    Wait { cursor: u64 },
}

/// Where the next snapshot resumes: a cursor that fell behind an eviction
/// and read nothing advances to the oldest surviving byte.
pub open spec fn resume_cursor_spec(slice: BufferSlice, cursor: u64) -> u64 {
    if slice.truncated && slice.bytes@.len() == 0 {
        slice.start_cursor
    } else {
        cursor
    }
}

/// The bytes handed back and whether the terminator matched: the slice is
/// cut at the match end (or start, when the match itself is excluded).
pub open spec fn read_chunk_spec(bytes: Seq<u8>, until: Option<Seq<char>>, include_match: bool) -> (
    Seq<u8>,
    bool,
) {
    match until {
        None => (bytes, false),
        Some(pat) => match regex_find_range(pat, bytes) {
            Some(range) => (
                bytes.take(
                    if include_match {
                        range.1 as int
                    } else {
                        range.0 as int
                    },
                ),
                true,
            ),
            None => (bytes, false),
        },
    }
}

/// The pattern view of an optional compiled pattern.
pub open spec fn pattern_view(p: Option<Pattern>) -> Option<Seq<char>> {
    match p {
        Some(pat) => Some(pat@),
        None => None,
    }
}

/// Whether any hint pattern matches the returned chunk; absent when no
/// hints were given.
pub open spec fn waiting_spec(hints: Option<Seq<Pattern>>, chunk: Seq<u8>) -> Option<bool> {
    match hints {
        None => None,
        Some(hs) => Some(
            exists|k: int|
                0 <= k < hs.len() && regex_find_range(#[trigger] hs[k]@, chunk) is Some,
        ),
    }
}

/// The cursor the returned bytes start at: the slice start when the read
/// was truncated by eviction, the caller's cursor otherwise.
pub open spec fn effective_cursor_spec(slice: BufferSlice, cursor: u64) -> u64 {
    if slice.truncated {
        slice.start_cursor
    } else {
        cursor
    }
}

/// Decide one read iteration from a fresh snapshot.  With data in the
/// slice the read returns it (cut at the terminator); on an empty slice
/// EOF, the idle gap and the deadline are checked in that order; otherwise
/// the caller should wait and re-snapshot.
pub fn read_step(
    slice: BufferSlice,
    cursor: u64,
    eof: bool,
    idle_expired: bool,
    deadline_expired: bool,
    until_regex: &Option<Pattern>,
    include_match: bool,
    input_hints: &Option<Vec<Pattern>>,
) -> (r: ReadStep)
    requires
        effective_cursor_spec(slice, cursor) + slice.bytes@.len() <= u64::MAX,
    ensures
        ({
            let chunk = read_chunk_spec(
                slice.bytes@,
                pattern_view(*until_regex),
                include_match,
            );
            let hints_view = match *input_hints {
                Some(ref hs) => Some(hs@),
                None => None::<Seq<Pattern>>,
            };
            match r {
                ReadStep::Done(res) => {
                    &&& (slice.bytes@.len() > 0 ==> {
                        &&& res.slice.bytes@ == chunk.0
                        &&& res.matched == chunk.1
                        &&& res.next_cursor == effective_cursor_spec(slice, cursor)
                            + chunk.0.len()
                        &&& res.eof == eof
                        &&& !res.idle_reached
                        &&& !res.timed_out
                        &&& res.waiting_for_input == waiting_spec(hints_view, chunk.0)
                    })
                    &&& (slice.bytes@.len() == 0 ==> {
                        &&& res.slice.bytes@ == slice.bytes@
                        &&& !res.matched
                        &&& res.waiting_for_input is None
                        &&& res.next_cursor == resume_cursor_spec(slice, cursor)
                        &&& res.eof == eof
                        &&& res.idle_reached == (!eof && idle_expired)
                        &&& res.timed_out == (!eof && !idle_expired && deadline_expired)
                        &&& (eof || idle_expired || deadline_expired)
                    })
                    &&& res.slice.start_cursor == slice.start_cursor
                    &&& res.slice.end_cursor == slice.end_cursor
                    &&& res.slice.truncated == slice.truncated
                    &&& res.slice.dropped_bytes == slice.dropped_bytes
                    &&& res.slice.buffered_bytes == slice.buffered_bytes
                    &&& res.slice.buffer_limit_bytes == slice.buffer_limit_bytes
                },
                ReadStep::Wait { cursor: c } => {
                    &&& slice.bytes@.len() == 0
                    &&& !eof
                    &&& !idle_expired
                    &&& !deadline_expired
                    &&& c == resume_cursor_spec(slice, cursor)
                },
            }
        }),
{
    let new_cursor = if slice.truncated && slice.bytes.len() == 0 {
        slice.start_cursor
    } else {
        cursor
    };
    if slice.bytes.len() > 0 {
        let mut bytes = slice.bytes;
        let mut matched = false;
        match until_regex {
            Some(regex) => {
                match regex.find_in(bytes.as_slice()) {
                    Some(range) => {
                        matched = true;
                        let end = if include_match {
                            range.1
                        } else {
                            range.0
                        };
                        bytes.truncate(end);
                        proof {
                            assert(bytes@ =~= slice.bytes@.take(
                                if include_match {
                                    range.1 as int
                                } else {
                                    range.0 as int
                                },
                            ));
                        }
                    },
                    None => {},
                }
            },
            None => {},
        }
        let waiting_for_input = match input_hints {
            Some(hints) => {
                let mut any = false;
                let mut k: usize = 0;
                while k < hints.len()
                    invariant
                        k <= hints@.len(),
                        any == exists|j: int|
                            0 <= j < k && regex_find_range(#[trigger] hints@[j]@, bytes@) is Some,
                    decreases hints@.len() - k,
                {
                    if hints[k].is_match_bytes(bytes.as_slice()) {
                        any = true;
                    }
                    k = k + 1;
                }
                Some(any)
            },
            None => None,
        };
        let effective_cursor = if slice.truncated {
            slice.start_cursor
        } else {
            cursor
        };
        let next_cursor = effective_cursor + bytes.len() as u64;
        let result = ReadResult {
            slice: BufferSlice {
                bytes,
                truncated: slice.truncated,
                dropped_bytes: slice.dropped_bytes,
                start_cursor: slice.start_cursor,
                end_cursor: slice.end_cursor,
                buffered_bytes: slice.buffered_bytes,
                buffer_limit_bytes: slice.buffer_limit_bytes,
            },
            matched,
            idle_reached: false,
            timed_out: false,
            eof,
            waiting_for_input,
            next_cursor,
        };
        return ReadStep::Done(result);
    }
    if eof {
        return ReadStep::Done(
            ReadResult {
                slice,
                matched: false,
                idle_reached: false,
                timed_out: false,
                eof: true,
                waiting_for_input: None,
                next_cursor: new_cursor,
            },
        );
    }
    if idle_expired {
        return ReadStep::Done(
            ReadResult {
                slice,
                matched: false,
                idle_reached: true,
                timed_out: false,
                eof: false,
                waiting_for_input: None,
                next_cursor: new_cursor,
            },
        );
    }
    if deadline_expired {
        return ReadStep::Done(
            ReadResult {
                slice,
                matched: false,
                idle_reached: false,
                timed_out: true,
                eof: false,
                waiting_for_input: None,
                next_cursor: new_cursor,
            },
        );
    }
    ReadStep::Wait { cursor: new_cursor }
}

} // verus!
