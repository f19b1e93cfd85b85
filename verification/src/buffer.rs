//! Bounded ring of session output bytes with monotonic 64-bit cursors.
//!
//! The buffer retains a suffix of the append stream.  `start_cursor` is the
//! offset of the oldest retained byte; `end_cursor = start_cursor + length`.
//! Appending advances `end_cursor` by exactly the number of bytes appended;
//! when a capacity limit is exceeded, bytes are evicted from the front and
//! `start_cursor` advances by the evicted count.

use vstd::prelude::*;

verus! {

/// Number of newline (0x0a) bytes in `s`.
pub open spec fn newline_count(s: Seq<u8>) -> int
    decreases s.len(),
{
    if s.len() == 0 {
        0
    } else {
        (if s[0] == 10u8 {
            1int
        } else {
            0int
        }) + newline_count(s.drop_first())
    }
}

/// How many bytes the line limit evicts from the front of `s`: bytes are
/// dropped one at a time until at most `max_lines` newlines remain.
pub open spec fn evict_for_lines(s: Seq<u8>, max_lines: int) -> int
    decreases s.len(),
{
    if s.len() == 0 || newline_count(s) <= max_lines {
        0
    } else {
        1 + evict_for_lines(s.drop_first(), max_lines)
    }
}

/// Index where a tail capped to `budget` lines begins: scanning backwards,
/// the scan stops at the newline that would exceed the budget, and the tail
/// begins at the byte after it (or at 0 when there are too few newlines).
pub open spec fn tail_line_start(s: Seq<u8>, budget: int) -> int
    decreases s.len(),
{
    if s.len() == 0 {
        0
    } else if s.last() == 10u8 {
        if budget <= 0 {
            s.len() as int
        } else {
            tail_line_start(s.drop_last(), budget - 1)
        }
    } else {
        tail_line_start(s.drop_last(), budget)
    }
}

pub proof fn lemma_newline_count_bounds(s: Seq<u8>)
    ensures
        0 <= newline_count(s) <= s.len(),
    decreases s.len(),
{
    if s.len() > 0 {
        lemma_newline_count_bounds(s.drop_first());
    }
}

pub proof fn lemma_newline_count_concat(a: Seq<u8>, b: Seq<u8>)
    ensures
        newline_count(a + b) == newline_count(a) + newline_count(b),
    decreases a.len(),
{
    if a.len() == 0 {
        assert(a + b =~= b);
    } else {
        assert((a + b).drop_first() =~= a.drop_first() + b);
        lemma_newline_count_concat(a.drop_first(), b);
    }
}

pub proof fn lemma_newline_count_push(s: Seq<u8>, x: u8)
    ensures
        newline_count(s.push(x)) == newline_count(s) + if x == 10u8 {
            1int
        } else {
            0int
        },
{
    let single = seq![x];
    assert(single.len() == 1);
    assert(single[0] == x);
    assert(single.drop_first() =~= Seq::<u8>::empty());
    assert(newline_count(Seq::<u8>::empty()) == 0);
    assert(newline_count(single) == if x == 10u8 {
        1int
    } else {
        0int
    });
    lemma_newline_count_concat(s, single);
    assert(s.push(x) =~= s + single);
}

pub proof fn lemma_evict_for_lines_bounds(s: Seq<u8>, max_lines: int)
    requires
        max_lines >= 0,
    ensures
        0 <= evict_for_lines(s, max_lines) <= s.len(),
        newline_count(s.skip(evict_for_lines(s, max_lines))) <= max_lines,
    decreases s.len(),
{
    if s.len() == 0 || newline_count(s) <= max_lines {
        assert(s.skip(0) =~= s);
    } else {
        lemma_evict_for_lines_bounds(s.drop_first(), max_lines);
        assert(s.drop_first().skip(evict_for_lines(s.drop_first(), max_lines)) =~= s.skip(
            1 + evict_for_lines(s.drop_first(), max_lines),
        ));
    }
}

pub proof fn lemma_tail_line_start_bounds(s: Seq<u8>, budget: int)
    ensures
        0 <= tail_line_start(s, budget) <= s.len(),
    decreases s.len(),
{
    if s.len() > 0 {
        lemma_tail_line_start_bounds(s.drop_last(), budget);
        lemma_tail_line_start_bounds(s.drop_last(), budget - 1);
    }
}

/// A line-capped tail begins at the start of a line: at index 0 when there
/// are at most `budget` newlines, otherwise just after a newline, and the
/// returned block never contains more than `budget` newlines.
pub proof fn lemma_tail_line_start_characterization(s: Seq<u8>, budget: int)
    requires
        budget >= 0,
    ensures
        ({
            let r = tail_line_start(s, budget);
            &&& (r == 0 || s[r - 1] == 10u8)
            &&& newline_count(s.skip(r)) <= budget
        }),
    decreases s.len(),
{
    lemma_tail_line_start_bounds(s, budget);
    let r = tail_line_start(s, budget);
    if s.len() == 0 {
        assert(s.skip(0) =~= s);
    } else if s.last() == 10u8 && budget <= 0 {
        assert(s.skip(s.len() as int) =~= Seq::<u8>::empty());
    } else {
        let head = s.drop_last();
        let inner_budget = if s.last() == 10u8 {
            budget - 1
        } else {
            budget
        };
        lemma_tail_line_start_characterization(head, inner_budget);
        lemma_tail_line_start_bounds(head, inner_budget);
        assert(r == tail_line_start(head, inner_budget));
        if r > 0 {
            assert(s[r - 1] == head[r - 1]);
        }
        assert(s.skip(r) =~= head.skip(r).push(s.last()));
        lemma_newline_count_push(head.skip(r), s.last());
    }
}

/// Mathematical model of an `OutputBuffer`: the history of every byte ever
/// appended, the cursor of the oldest retained byte, and the two limits.
pub struct BufferModel {
    pub hist: Seq<u8>,
    pub start: u64,
    pub max_bytes: usize,
    pub max_lines: usize,
}

impl BufferModel {
    /// The bytes currently retained: the suffix of the history from `start`.
    pub open spec fn contents(self) -> Seq<u8> {
        self.hist.skip(self.start as int)
    }

    /// Cursor one past the newest byte.
    pub open spec fn end(self) -> int {
        self.hist.len() as int
    }

    pub open spec fn wf(self) -> bool {
        &&& self.max_bytes >= 1
        &&& self.max_lines >= 1
        &&& self.start <= self.hist.len()
        &&& self.hist.len() <= u64::MAX
        &&& self.contents().len() <= self.max_bytes
        &&& newline_count(self.contents()) <= self.max_lines
    }
}

/// Bounded ring of output bytes.  Evicts from the front to keep at most
/// `max_bytes` bytes and `max_lines` newlines.
pub struct OutputBuffer {
    data: std::collections::VecDeque<u8>,
    start_cursor: u64,
    max_bytes: usize,
    max_lines: usize,
    line_count: usize,
    dropped_bytes_total: u64,
    hist: Ghost<Seq<u8>>,
}

/// One cursor-addressed read out of the buffer.
#[derive(Debug, Clone)]
pub struct BufferSlice {
    pub bytes: Vec<u8>,
    pub truncated: bool,
    pub dropped_bytes: u64,
    pub start_cursor: u64,
    pub end_cursor: u64,
    pub buffered_bytes: usize,
    pub buffer_limit_bytes: usize,
}

/// A snapshot of the end of the stream, bounded by lines then by bytes.
#[derive(Debug, Clone)]
pub struct TailSlice {
    pub bytes: Vec<u8>,
    pub start_cursor: u64,
    pub end_cursor: u64,
    pub truncated: bool,
    pub buffered_bytes: usize,
    pub buffer_limit_bytes: usize,
}

impl View for OutputBuffer {
    type V = BufferModel;

    closed spec fn view(&self) -> BufferModel {
        BufferModel {
            hist: self.hist@,
            start: self.start_cursor,
            max_bytes: self.max_bytes,
            max_lines: self.max_lines,
        }
    }
}

impl OutputBuffer {
    /// The representation matches the model: the deque holds exactly the
    /// retained suffix and `line_count` counts its newlines.
    closed spec fn inv(self) -> bool {
        &&& self@.wf()
        &&& self.data@ == self@.contents()
        &&& self.line_count == newline_count(self.data@)
        &&& self.dropped_bytes_total == self.start_cursor
    }

    /// Public well-formedness: both capacity limits are at least 1, the
    /// retained bytes fit them, and the cursors fit in 64 bits.
    pub closed spec fn wf(self) -> bool {
        self.inv()
    }

    /// Both limits clamp to 1 so that a zero-capacity buffer cannot arise.
    pub fn new(max_bytes: usize, max_lines: usize) -> (r: Self)
        ensures
            r.wf(),
            r@.wf(),
            r@.hist == Seq::<u8>::empty(),
            r@.start == 0,
            r@.max_bytes == if max_bytes >= 1 {
                max_bytes as int
            } else {
                1int
            },
            r@.max_lines == if max_lines >= 1 {
                max_lines as int
            } else {
                1int
            },
    {
        let r = Self {
            data: std::collections::VecDeque::new(),
            start_cursor: 0,
            max_bytes: if max_bytes >= 1 {
                max_bytes
            } else {
                1
            },
            max_lines: if max_lines >= 1 {
                max_lines
            } else {
                1
            },
            line_count: 0,
            dropped_bytes_total: 0,
            hist: Ghost(Seq::empty()),
        };
        proof {
            assert(r@.contents() =~= Seq::<u8>::empty());
        }
        r
    }

    /// Cursor of the oldest retained byte.
    pub fn buffer_start(&self) -> (r: u64)
        requires
            self.wf(),
        ensures
            r == self@.start,
    {
        self.start_cursor
    }

    /// Cursor one past the newest byte.
    pub fn buffer_end(&self) -> (r: u64)
        requires
            self.wf(),
        ensures
            r == self@.end(),
    {
        self.start_cursor + self.data.len() as u64
    }

    /// Number of retained bytes.
    pub fn buffered_bytes(&self) -> (r: usize)
        requires
            self.wf(),
        ensures
            r == self@.contents().len(),
    {
        self.data.len()
    }

    /// Append `bytes` at the end of the stream, then evict from the front
    /// until both limits hold again.  Returns the number of bytes evicted.
    /// The end cursor advances by exactly `bytes.len()` and the start cursor
    /// never moves backwards.  Cursors are 64-bit offsets into the append
    /// stream, so the stream as a whole must stay below 2^64 bytes.
    pub fn append(&mut self, bytes: &[u8]) -> (dropped: u64)
        requires
            old(self).wf(),
            old(self)@.hist.len() + bytes@.len() <= u64::MAX,
        ensures
            final(self).wf(),
            final(self)@.wf(),
            final(self)@.hist == old(self)@.hist + bytes@,
            final(self)@.max_bytes == old(self)@.max_bytes,
            final(self)@.max_lines == old(self)@.max_lines,
            final(self)@.start >= old(self)@.start,
            dropped == final(self)@.start - old(self)@.start,
            final(self)@ == appended(old(self)@, bytes@),
            final(self)@.contents() == ({
                let combined = old(self)@.contents() + bytes@;
                let by_bytes = if combined.len() > old(self)@.max_bytes {
                    combined.len() - old(self)@.max_bytes
                } else {
                    0int
                };
                combined.skip(by_bytes).skip(
                    evict_for_lines(combined.skip(by_bytes), old(self)@.max_lines as int),
                )
            }),
    {
        let ghost old_hist = self.hist@;
        let mut i: usize = 0;
        while i < bytes.len()
            invariant
                i <= bytes@.len(),
                self.data@ == old(self).data@ + bytes@.take(i as int),
                self.line_count == newline_count(self.data@),
                self.start_cursor == old(self).start_cursor,
                self.max_bytes == old(self).max_bytes,
                self.max_lines == old(self).max_lines,
                self.dropped_bytes_total == old(self).dropped_bytes_total,
                self.hist@ == old(self).hist@,
            decreases bytes@.len() - i,
        {
            let b = bytes[i];
            let ghost pre = self.data@;
            self.data.push_back(b);
            proof {
                lemma_newline_count_push(pre, b);
                lemma_newline_count_bounds(self.data@);
                vstd::std_specs::vecdeque::axiom_spec_len(&self.data);
            }
            if b == 10u8 {
                self.line_count = self.line_count + 1;
            }
            i = i + 1;
            proof {
                assert(old(self).data@ + bytes@.take(i as int) =~= pre.push(b));
            }
        }
        proof {
            assert(bytes@.take(bytes@.len() as int) =~= bytes@);
            self.hist@ = old_hist + bytes@;
            assert(self.hist@.skip(self.start_cursor as int) =~= self.data@);
        }
        let dropped = self.enforce_limits();
        proof {
            let combined = old(self)@.contents() + bytes@;
            let by_bytes: int = if combined.len() > old(self)@.max_bytes {
                combined.len() - old(self)@.max_bytes
            } else {
                0int
            };
            let for_lines = evict_for_lines(combined.skip(by_bytes), old(self)@.max_lines as int);
            lemma_evict_for_lines_bounds(combined.skip(by_bytes), old(self)@.max_lines as int);
            assert(self@.contents().len() == self@.hist.len() - self@.start);
            assert(self@.contents().len() == combined.len() - by_bytes - for_lines);
            assert(self@.start == old(self)@.start + by_bytes + for_lines);
            assert(self@ == appended(old(self)@, bytes@));
        }
        dropped
    }

    /// Evict from the front until `max_bytes` holds, then until `max_lines`
    /// holds.  Returns the number of bytes evicted; the start cursor advances
    /// by exactly that count.
    fn enforce_limits(&mut self) -> (dropped: u64)
        requires
            old(self).max_bytes >= 1,
            old(self).max_lines >= 1,
            old(self).line_count == newline_count(old(self).data@),
            old(self).start_cursor + old(self).data@.len() <= u64::MAX,
            old(self).hist@.skip(old(self).start_cursor as int) == old(self).data@,
            old(self).start_cursor + old(self).data@.len() == old(self).hist@.len(),
            old(self).dropped_bytes_total == old(self).start_cursor,
        ensures
            final(self).wf(),
            final(self).hist@ == old(self).hist@,
            final(self).max_bytes == old(self).max_bytes,
            final(self).max_lines == old(self).max_lines,
            final(self).start_cursor >= old(self).start_cursor,
            dropped == final(self).start_cursor - old(self).start_cursor,
            final(self).data@ == ({
                let s = old(self).data@;
                let by_bytes = if s.len() > old(self).max_bytes {
                    s.len() - old(self).max_bytes
                } else {
                    0int
                };
                s.skip(by_bytes).skip(
                    evict_for_lines(s.skip(by_bytes), old(self).max_lines as int),
                )
            }),
    {
        let ghost s0 = self.data@;
        let ghost by_bytes: int = if s0.len() > self.max_bytes {
            s0.len() - self.max_bytes
        } else {
            0int
        };
        let mut dropped: u64 = 0;
        proof {
            assert(s0.skip(0) =~= s0);
        }
        while self.data.len() > self.max_bytes
            invariant
                self.max_bytes == old(self).max_bytes,
                self.max_lines == old(self).max_lines,
                s0 == old(self).data@,
                by_bytes == if s0.len() > self.max_bytes {
                    s0.len() - self.max_bytes
                } else {
                    0int
                },
                dropped <= by_bytes,
                self.data@ == s0.skip(dropped as int),
                self.line_count == newline_count(self.data@),
                self.start_cursor == old(self).start_cursor + dropped,
                self.start_cursor + self.data@.len() == self.hist@.len(),
                self.hist@.len() <= u64::MAX,
                self.hist@ == old(self).hist@,
                self.hist@.skip(self.start_cursor as int) == self.data@,
                self.dropped_bytes_total == self.start_cursor,
            decreases self.data@.len(),
        {
            let ghost pre = self.data@;
            proof {
                lemma_newline_count_bounds(pre);
                lemma_newline_count_bounds(pre.drop_first());
            }
            let popped = self.data.pop_front();
            proof {
                assert(pre.subrange(1, pre.len() as int) =~= pre.drop_first());
                assert(s0.skip(dropped as int).drop_first() =~= s0.skip(dropped + 1));
                assert(self.hist@.skip(self.start_cursor as int).drop_first() =~= self.hist@.skip(
                    self.start_cursor + 1,
                ));
            }
            if let Some(byte) = popped {
                dropped = dropped + 1;
                self.start_cursor = self.start_cursor + 1;
                self.dropped_bytes_total = self.dropped_bytes_total + 1;
                if byte == 10u8 {
                    self.line_count = self.line_count - 1;
                }
            }
        }
        proof {
            assert(dropped == by_bytes);
        }
        let ghost s1 = s0.skip(by_bytes);
        let ghost for_lines: int = evict_for_lines(s1, self.max_lines as int);
        proof {
            lemma_evict_for_lines_bounds(s1, self.max_lines as int);
            assert(s1.skip(0) =~= s1);
        }
        let ghost dropped_at_cap = dropped;
        while self.line_count > self.max_lines
            invariant
                self.max_bytes == old(self).max_bytes,
                self.max_lines == old(self).max_lines,
                s0 == old(self).data@,
                s1 == s0.skip(by_bytes),
                s1.len() <= self.max_bytes,
                for_lines == evict_for_lines(s1, self.max_lines as int),
                for_lines <= s1.len(),
                dropped_at_cap <= dropped,
                dropped - dropped_at_cap <= for_lines,
                for_lines == dropped - dropped_at_cap + evict_for_lines(
                    self.data@,
                    self.max_lines as int,
                ),
                dropped_at_cap == by_bytes,
                self.data@ == s1.skip(dropped - dropped_at_cap),
                self.line_count == newline_count(self.data@),
                self.start_cursor == old(self).start_cursor + dropped,
                self.start_cursor + self.data@.len() == self.hist@.len(),
                self.hist@.len() <= u64::MAX,
                self.hist@ == old(self).hist@,
                self.hist@.skip(self.start_cursor as int) == self.data@,
                self.dropped_bytes_total == self.start_cursor,
            decreases self.data@.len(),
        {
            let ghost pre = self.data@;
            proof {
                lemma_newline_count_bounds(pre);
                lemma_newline_count_bounds(pre.drop_first());
                lemma_evict_for_lines_bounds(pre.drop_first(), self.max_lines as int);
            }
            let popped = self.data.pop_front();
            proof {
                assert(pre.subrange(1, pre.len() as int) =~= pre.drop_first());
                assert(s1.skip(dropped - dropped_at_cap).drop_first() =~= s1.skip(
                    dropped - dropped_at_cap + 1,
                ));
                assert(self.hist@.skip(self.start_cursor as int).drop_first() =~= self.hist@.skip(
                    self.start_cursor + 1,
                ));
            }
            if let Some(byte) = popped {
                dropped = dropped + 1;
                self.start_cursor = self.start_cursor + 1;
                self.dropped_bytes_total = self.dropped_bytes_total + 1;
                if byte == 10u8 {
                    self.line_count = self.line_count - 1;
                }
            }
        }
        proof {
            assert(evict_for_lines(self.data@, self.max_lines as int) == 0);
            assert(dropped - dropped_at_cap == for_lines);
            assert(self.data@ =~= self@.contents());
        }
        dropped
    }

    /// Read up to `max_bytes` bytes starting at `cursor`.  A cursor behind
    /// `start_cursor` reports `truncated` with the exact number of bytes the
    /// caller missed; a cursor past the end reads nothing.
    pub fn slice_from(&self, cursor: u64, max_bytes: usize) -> (r: BufferSlice)
        requires
            self.wf(),
        ensures
            r.start_cursor == self@.start,
            r.end_cursor == self@.end(),
            r.buffered_bytes == self@.contents().len(),
            r.buffer_limit_bytes == self@.max_bytes,
            r.truncated == (cursor < self@.start),
            r.dropped_bytes == if cursor < self@.start {
                self@.start - cursor
            } else {
                0int
            },
            r.bytes@ == slice_bytes_spec(self@, cursor, max_bytes as int),
    {
        let end_cursor = self.buffer_end();
        let truncated = cursor < self.start_cursor;
        let dropped_bytes = if cursor < self.start_cursor {
            self.start_cursor - cursor
        } else {
            0
        };
        let effective_cursor = if cursor < self.start_cursor {
            self.start_cursor
        } else if cursor > end_cursor {
            end_cursor
        } else {
            cursor
        };
        let start_index = (effective_cursor - self.start_cursor) as usize;
        let available = self.data.len() - start_index;
        let read_len = if available < max_bytes {
            available
        } else {
            max_bytes
        };
        let mut bytes: Vec<u8> = Vec::new();
        let mut i: usize = 0;
        while i < read_len
            invariant
                i <= read_len,
                start_index + read_len <= self.data@.len(),
                self.data@.len() <= usize::MAX,
                bytes@ == self.data@.subrange(start_index as int, start_index + i),
            decreases read_len - i,
        {
            let value = self.data[start_index + i];
            bytes.push(value);
            i = i + 1;
            proof {
                assert(self.data@.subrange(start_index as int, start_index + i)
                    =~= self.data@.subrange(start_index as int, start_index + i - 1).push(
                    self.data@[start_index + i - 1],
                ));
            }
        }
        proof {
            assert(bytes@ =~= slice_bytes_spec(self@, cursor, max_bytes as int));
        }
        BufferSlice {
            bytes,
            truncated,
            dropped_bytes,
            start_cursor: self.start_cursor,
            end_cursor,
            buffered_bytes: self.data.len(),
            buffer_limit_bytes: self.max_bytes,
        }
    }

    /// The last `max_lines` lines of the stream (all of it when `None`),
    /// narrowed to at most `max_bytes` bytes from the end.
    pub fn tail(&self, max_bytes: usize, max_lines: Option<usize>) -> (r: TailSlice)
        requires
            self.wf(),
        ensures
            r.end_cursor == self@.end(),
            r.buffered_bytes == self@.contents().len(),
            r.buffer_limit_bytes == self@.max_bytes,
            r.bytes@ == ({
                let s = self@.contents();
                s.skip(tail_start_spec(s, max_bytes as int, max_lines))
            }),
            r.start_cursor == self@.start + tail_start_spec(
                self@.contents(),
                max_bytes as int,
                max_lines,
            ),
            r.truncated == (r.bytes@.len() < self@.contents().len()),
    {
        let ghost s = self.data@;
        let end_cursor = self.buffer_end();
        let mut start_index: usize = 0;
        if let Some(ml) = max_lines {
            let mut lines: usize = 0;
            let mut idx = self.data.len();
            proof {
                assert(s.take(idx as int) =~= s);
            }
            loop
                invariant_except_break
                    s == self.data@,
                    idx <= s.len(),
                    lines <= ml,
                    tail_line_start(s, ml as int) == tail_line_start(
                        s.take(idx as int),
                        ml - lines,
                    ),
                ensures
                    start_index == tail_line_start(s, ml as int),
                decreases idx,
            {
                if idx == 0 {
                    proof {
                        assert(s.take(0) =~= Seq::<u8>::empty());
                    }
                    start_index = 0;
                    break ;
                }
                idx = idx - 1;
                let byte = self.data[idx];
                proof {
                    assert(s.take(idx + 1).last() == s[idx as int]);
                    assert(s.take(idx + 1).drop_last() =~= s.take(idx as int));
                }
                if byte == 10u8 {
                    if lines == ml {
                        start_index = idx + 1;
                        break ;
                    }
                    lines = lines + 1;
                }
            }
        }
        proof {
            lemma_tail_line_start_bounds(s, match max_lines {
                Some(ml) => ml as int,
                None => 0,
            });
        }
        let available = self.data.len() - start_index;
        let bytes_to_take = if available < max_bytes {
            available
        } else {
            max_bytes
        };
        if bytes_to_take < available {
            start_index = self.data.len() - bytes_to_take;
        }
        let mut bytes: Vec<u8> = Vec::new();
        let mut i: usize = 0;
        while i < bytes_to_take
            invariant
                s == self.data@,
                i <= bytes_to_take,
                start_index + bytes_to_take <= s.len(),
                s.len() <= usize::MAX,
                bytes@ == s.subrange(start_index as int, start_index + i),
            decreases bytes_to_take - i,
        {
            let value = self.data[start_index + i];
            bytes.push(value);
            i = i + 1;
            proof {
                assert(s.subrange(start_index as int, start_index + i) =~= s.subrange(
                    start_index as int,
                    start_index + i - 1,
                ).push(s[start_index + i - 1]));
            }
        }
        let start_cursor = self.start_cursor + start_index as u64;
        let truncated = bytes_to_take < self.data.len();
        proof {
            assert(start_index == tail_start_spec(s, max_bytes as int, max_lines));
            assert(bytes@ =~= s.skip(start_index as int));
        }
        TailSlice {
            bytes,
            start_cursor,
            end_cursor,
            truncated,
            buffered_bytes: self.data.len(),
            buffer_limit_bytes: self.max_bytes,
        }
    }
}

/// The bytes `slice_from(cursor, max_bytes)` returns: the cursor clamped into
/// the retained range, then at most `max_bytes` bytes from there.
pub open spec fn slice_bytes_spec(m: BufferModel, cursor: u64, max_bytes: int) -> Seq<u8> {
    let s = m.contents();
    let eff = if cursor < m.start {
        m.start as int
    } else if cursor > m.end() {
        m.end()
    } else {
        cursor as int
    };
    let si = eff - m.start;
    let take = if s.len() - si < max_bytes {
        s.len() - si
    } else {
        max_bytes
    };
    s.subrange(si, si + take)
}

/// The model after one append: the bytes join the history and the start
/// cursor advances over exactly the evicted prefix (the byte cap first,
/// then the line cap).
pub open spec fn appended(m: BufferModel, bytes: Seq<u8>) -> BufferModel {
    let combined = m.contents() + bytes;
    let by_bytes = if combined.len() > m.max_bytes {
        combined.len() - m.max_bytes
    } else {
        0int
    };
    let dropped = by_bytes + evict_for_lines(combined.skip(by_bytes), m.max_lines as int);
    BufferModel {
        hist: m.hist + bytes,
        start: (m.start + dropped) as u64,
        max_bytes: m.max_bytes,
        max_lines: m.max_lines,
    }
}

/// One append keeps the model well-formed, never moves the start cursor
/// backwards, and advances the end cursor by exactly the appended length.
pub proof fn lemma_appended_step(m: BufferModel, bytes: Seq<u8>)
    requires
        m.wf(),
        m.hist.len() + bytes.len() <= u64::MAX,
    ensures
        appended(m, bytes).wf(),
        appended(m, bytes).start >= m.start,
        appended(m, bytes).contents().len() <= m.max_bytes,
        appended(m, bytes).end() == m.end() + bytes.len(),
        appended(m, bytes).max_bytes == m.max_bytes,
        appended(m, bytes).max_lines == m.max_lines,
{
    let combined = m.contents() + bytes;
    let by_bytes: int = if combined.len() > m.max_bytes {
        combined.len() - m.max_bytes
    } else {
        0int
    };
    let for_lines = evict_for_lines(combined.skip(by_bytes), m.max_lines as int);
    lemma_evict_for_lines_bounds(combined.skip(by_bytes), m.max_lines as int);
    let post = appended(m, bytes);
    assert(post.contents() =~= combined.skip(by_bytes).skip(for_lines));
    assert(combined.skip(by_bytes).skip(for_lines).len() <= m.max_bytes);
    assert(newline_count(post.contents()) <= m.max_lines);
}

/// The total length of a sequence of appends.
pub open spec fn total_len(chunks: Seq<Seq<u8>>) -> int
    decreases chunks.len(),
{
    if chunks.len() == 0 {
        0
    } else {
        chunks[0].len() + total_len(chunks.drop_first())
    }
}

pub proof fn lemma_total_len_nonneg(chunks: Seq<Seq<u8>>)
    ensures
        total_len(chunks) >= 0,
    decreases chunks.len(),
{
    if chunks.len() > 0 {
        lemma_total_len_nonneg(chunks.drop_first());
    }
}

/// The model after a whole sequence of appends, in order.
pub open spec fn appended_all(m: BufferModel, chunks: Seq<Seq<u8>>) -> BufferModel
    decreases chunks.len(),
{
    if chunks.len() == 0 {
        m
    } else {
        appended_all(appended(m, chunks[0]), chunks.drop_first())
    }
}

/// Eviction monotonicity over any sequence of appends: the start cursor
/// never decreases, the retained bytes always fit `max_bytes`, and the end
/// cursor advances by exactly the appended lengths.  Instantiating the
/// lemma on a prefix of the sequence gives the same facts after each
/// individual append.
pub proof fn lemma_eviction_monotonic(m: BufferModel, chunks: Seq<Seq<u8>>)
    requires
        m.wf(),
        m.hist.len() + total_len(chunks) <= u64::MAX,
    ensures
        appended_all(m, chunks).wf(),
        appended_all(m, chunks).start >= m.start,
        appended_all(m, chunks).contents().len() <= m.max_bytes,
        appended_all(m, chunks).end() == m.end() + total_len(chunks),
        appended_all(m, chunks).max_bytes == m.max_bytes,
    decreases chunks.len(),
{
    if chunks.len() > 0 {
        lemma_total_len_nonneg(chunks.drop_first());
        lemma_appended_step(m, chunks[0]);
        lemma_eviction_monotonic(appended(m, chunks[0]), chunks.drop_first());
    }
}

/// The concatenation of a chain of cursor reads: each read starts at a cut
/// point and asks for exactly the bytes up to the next cut point.
pub open spec fn chained_read_bytes(m: BufferModel, cuts: Seq<u64>) -> Seq<u8>
    decreases cuts.len(),
{
    if cuts.len() <= 1 {
        Seq::empty()
    } else {
        slice_bytes_spec(m, cuts[0], cuts[1] - cuts[0]) + chained_read_bytes(m, cuts.drop_first())
    }
}

proof fn lemma_subrange_concat(s: Seq<u8>, a: int, b: int, c: int)
    requires
        0 <= a <= b <= c <= s.len(),
    ensures
        s.subrange(a, b) + s.subrange(b, c) == s.subrange(a, c),
{
    assert(s.subrange(a, b) + s.subrange(b, c) =~= s.subrange(a, c));
}

proof fn lemma_sorted_chain(cuts: Seq<u64>, i: int, j: int)
    requires
        forall|k: int| 0 <= k < cuts.len() - 1 ==> #[trigger] cuts[k] <= cuts[k + 1],
        0 <= i <= j < cuts.len(),
    ensures
        cuts[i] <= cuts[j],
    decreases j - i,
{
    if i < j {
        lemma_sorted_chain(cuts, i + 1, j);
    }
}

/// A chain of reads between monotone cut points returns exactly the bytes
/// of the history between the first and the last cut.
pub proof fn lemma_chained_reads(m: BufferModel, cuts: Seq<u64>)
    requires
        m.wf(),
        m.start == 0,
        cuts.len() >= 1,
        forall|i: int| 0 <= i < cuts.len() ==> #[trigger] cuts[i] <= m.end(),
        forall|i: int| 0 <= i < cuts.len() - 1 ==> #[trigger] cuts[i] <= cuts[i + 1],
    ensures
        chained_read_bytes(m, cuts) == m.hist.subrange(cuts[0] as int, cuts.last() as int),
    decreases cuts.len(),
{
    assert(m.contents() =~= m.hist);
    if cuts.len() == 1 {
        assert(chained_read_bytes(m, cuts) =~= m.hist.subrange(
            cuts[0] as int,
            cuts.last() as int,
        ));
    } else {
        let rest = cuts.drop_first();
        let a = cuts[0] as int;
        let b = cuts[1] as int;
        let c = cuts.last() as int;
        assert(forall|i: int| 0 <= i < rest.len() ==> #[trigger] rest[i] == cuts[i + 1]);
        assert(rest.last() == cuts.last());
        lemma_chained_reads(m, rest);
        lemma_sorted_chain(cuts, 1, cuts.len() - 1);
        assert(slice_bytes_spec(m, cuts[0], cuts[1] - cuts[0]) =~= m.hist.subrange(a, b));
        lemma_subrange_concat(m.hist, a, b, c);
    }
}

/// Append/read roundtrip: while nothing has been evicted, non-overlapping
/// reads that start at cursor 0 and chain through every cut up to the end
/// cursor return, concatenated, exactly the concatenation of the appends.
pub proof fn lemma_append_read_roundtrip(m: BufferModel, cuts: Seq<u64>)
    requires
        m.wf(),
        m.start == 0,
        cuts.len() >= 1,
        cuts[0] == 0,
        cuts.last() == m.end(),
        forall|i: int| 0 <= i < cuts.len() ==> #[trigger] cuts[i] <= m.end(),
        forall|i: int| 0 <= i < cuts.len() - 1 ==> #[trigger] cuts[i] <= cuts[i + 1],
    ensures
        chained_read_bytes(m, cuts) == m.hist,
{
    lemma_chained_reads(m, cuts);
    assert(m.hist.subrange(0, m.hist.len() as int) =~= m.hist);
}

/// Index in the retained bytes where `tail(max_bytes, max_lines)` begins:
/// the line cap first, then the byte cap from the end.
pub open spec fn tail_start_spec(s: Seq<u8>, max_bytes: int, max_lines: Option<usize>) -> int {
    let ls = match max_lines {
        Some(ml) => tail_line_start(s, ml as int),
        None => 0,
    };
    let avail = s.len() - ls;
    let take = if avail < max_bytes {
        avail
    } else {
        max_bytes
    };
    s.len() - take
}

} // verus!
