//! Fixed-capacity line framer: accumulates raw read chunks and yields complete
//! newline-terminated lines, keeping a trailing partial line across calls.

use vstd::prelude::*;

verus! {

/// Number of bytes a framer holds; data beyond it is dropped, never grown into.
pub const CAPACITY: usize = 1024;

/// The byte that terminates a line.
pub const NEWLINE: u8 = 10;

/// Index of the first newline byte in `s`, or `s.len()` when none is present.
pub open spec fn first_nl(s: Seq<u8>) -> nat
    decreases s.len(),
{
    if s.len() == 0 {
        0
    } else if s.first() == NEWLINE {
        0
    } else {
        1 + first_nl(s.skip(1))
    }
}

/// Whether `s` holds at least one complete (newline-terminated) line.
pub open spec fn has_line(s: Seq<u8>) -> bool {
    first_nl(s) < s.len()
}

/// The complete lines of `s`, in order, each including its trailing newline.
pub open spec fn split_lines(s: Seq<u8>) -> Seq<Seq<u8>>
    decreases s.len(),
{
    if first_nl(s) < s.len() {
        seq![s.take(first_nl(s) as int + 1)] + split_lines(s.skip(first_nl(s) as int + 1))
    } else {
        Seq::empty()
    }
}

/// The bytes of `s` after its last newline: the partial line still pending.
pub open spec fn line_remainder(s: Seq<u8>) -> Seq<u8>
    decreases s.len(),
{
    if first_nl(s) < s.len() {
        line_remainder(s.skip(first_nl(s) as int + 1))
    } else {
        s
    }
}

/// The lines of `ls` concatenated back into one byte sequence.
pub open spec fn concat_lines(ls: Seq<Seq<u8>>) -> Seq<u8>
    decreases ls.len(),
{
    if ls.len() == 0 {
        Seq::empty()
    } else {
        ls.first() + concat_lines(ls.skip(1))
    }
}

/// How many of `size` offered bytes fit into `free` remaining bytes.
pub open spec fn written_len(free: int, size: int) -> int {
    if size <= free {
        size
    } else {
        free
    }
}

/// `first_nl` really is the first newline: it stays in bounds, lands on a
/// newline when one exists, and everything before it is not a newline.
pub proof fn lemma_first_nl(s: Seq<u8>)
    ensures
        first_nl(s) <= s.len(),
        first_nl(s) < s.len() ==> s[first_nl(s) as int] == NEWLINE,
        forall|k: int| 0 <= k < first_nl(s) ==> s[k] != NEWLINE,
    decreases s.len(),
{
    if s.len() == 0 {
    } else if s.first() == NEWLINE {
    } else {
        lemma_first_nl(s.skip(1));
        assert forall|k: int| 0 <= k < first_nl(s) implies s[k] != NEWLINE by {
            if k > 0 {
                assert(s.skip(1)[k - 1] == s[k]);
            }
        }
        if first_nl(s) < s.len() {
            assert(s[first_nl(s) as int] == s.skip(1)[first_nl(s) - 1]);
        }
    }
}

/// Law: splitting buffered bytes into complete lines loses and duplicates
/// nothing. The lines concatenated in order, followed by the remainder, are
/// exactly the original bytes, and the remainder holds no newline, so it can
/// only be completed by bytes still to come.
pub proof fn lemma_split_lines_partition(s: Seq<u8>)
    ensures
        concat_lines(split_lines(s)) + line_remainder(s) == s,
        forall|k: int| 0 <= k < line_remainder(s).len() ==> line_remainder(s)[k] != NEWLINE,
    decreases s.len(),
{
    lemma_first_nl(s);
    if first_nl(s) < s.len() {
        let n = first_nl(s) as int + 1;
        lemma_split_lines_partition(s.skip(n as int));
        assert(split_lines(s) == seq![s.take(n as int)] + split_lines(s.skip(n as int)));
        assert(split_lines(s).len() > 0);
        assert(split_lines(s).first() == s.take(n as int));
        assert(split_lines(s).skip(1) =~= split_lines(s.skip(n as int)));
        assert(concat_lines(split_lines(s)) == s.take(n as int) + concat_lines(
            split_lines(s.skip(n as int)),
        ));
        assert(s.take(n as int) + (concat_lines(split_lines(s.skip(n as int))) + line_remainder(
            s.skip(n as int),
        )) =~= s);
        assert(concat_lines(split_lines(s)) + line_remainder(s) =~= s);
    } else {
        assert(concat_lines(split_lines(s)) + line_remainder(s) =~= s);
    }
}

/// Law: a write that arrives once the buffer is already full appends nothing;
/// the offered bytes are dropped silently, and the pending bytes stay as they
/// were, until compaction frees space.
pub proof fn lemma_write_at_capacity_drops_all(b: Buffer, data: Seq<u8>, size: int)
    requires
        b.wf(),
        b.free_space() == 0,
        0 <= size,
    ensures
        b.pending() + data.take(written_len(b.free_space(), size)) == b.pending(),
{
    assert(data.take(written_len(b.free_space(), size)) =~= Seq::<u8>::empty());
    assert(b.pending() + data.take(written_len(b.free_space(), size)) =~= b.pending());
}

/// Fixed-size byte accumulator with a write cursor (`index`, first free byte)
/// and a read cursor (`line_index`, first byte not yet returned as a line).
pub struct Buffer {
    buffer: Vec<u8>,
    index: usize,
    line_index: usize,
}

impl Buffer {
    /// The storage holds exactly `CAPACITY` bytes and the cursors stay ordered.
    pub closed spec fn wf(self) -> bool {
        &&& self.buffer@.len() == CAPACITY
        &&& self.line_index <= self.index
        &&& self.index <= CAPACITY
    }

    /// Bytes received but not yet returned as part of a complete line.
    pub closed spec fn pending(self) -> Seq<u8> {
        self.buffer@.subrange(self.line_index as int, self.index as int)
    }

    /// Free bytes left after the write cursor.
    pub closed spec fn free_space(self) -> int {
        CAPACITY - self.index
    }

    /// A fresh framer: empty, with the whole capacity free.
    pub fn new() -> (b: Buffer)
        ensures
            b.wf(),
            b.pending() == Seq::<u8>::empty(),
            b.free_space() == CAPACITY as int,
    {
        let mut v: Vec<u8> = Vec::new();
        while v.len() < CAPACITY
            invariant
                v@.len() <= CAPACITY,
            decreases CAPACITY - v@.len(),
        {
            v.push(0);
        }
        let b = Buffer { buffer: v, index: 0, line_index: 0 };
        proof {
            assert(b.pending() =~= Seq::<u8>::empty());
        }
        b
    }

    /// Append the first `data_size` bytes of `data_buffer`, truncated silently
    /// to the space that is left: overflow drops the excess, never grows.
    pub fn write(&mut self, data_buffer: &[u8], data_size: usize)
        requires
            old(self).wf(),
            data_size <= data_buffer@.len(),
        ensures
            final(self).wf(),
            final(self).pending() == old(self).pending() + data_buffer@.take(
                written_len(old(self).free_space(), data_size as int),
            ),
            final(self).free_space() == old(self).free_space() - written_len(
                old(self).free_space(),
                data_size as int,
            ),
    {
        let remaining_buffer_space: usize = CAPACITY - self.index;
        let num_bytes: usize = if data_size < remaining_buffer_space {
            data_size
        } else {
            remaining_buffer_space
        };
        let mut i: usize = 0;
        while i < num_bytes
            invariant
                old(self).wf(),
                i <= num_bytes,
                num_bytes == written_len(old(self).free_space(), data_size as int),
                num_bytes <= data_buffer@.len(),
                old(self).index + num_bytes <= CAPACITY,
                self.line_index == old(self).line_index,
                self.index == old(self).index,
                self.buffer@.len() == CAPACITY,
                forall|k: int| 0 <= k < old(self).index ==> self.buffer@[k] == old(self).buffer@[k],
                forall|k: int| 0 <= k < i ==> self.buffer@[old(self).index + k] == data_buffer@[k],
            decreases num_bytes - i,
        {
            self.buffer.set(self.index + i, data_buffer[i]);
            i += 1;
        }
        self.index = self.index + num_bytes;
        proof {
            assert(self.pending() =~= old(self).pending() + data_buffer@.take(
                written_len(old(self).free_space(), data_size as int),
            ));
        }
    }

    /// Scan the pending bytes for the first newline. When one is found, return
    /// the line through it (newline included) and move the read cursor past
    /// it; otherwise return nothing and change nothing, so the call can be
    /// repeated as a drain.
    pub fn get_line(&mut self) -> (r: Option<Vec<u8>>)
        requires
            old(self).wf(),
        ensures
            final(self).wf(),
            final(self).free_space() == old(self).free_space(),
            has_line(old(self).pending()) ==> (r matches Some(l)
                && l@ == old(self).pending().take(first_nl(old(self).pending()) as int + 1)
                && final(self).pending() == old(self).pending().skip(
                first_nl(old(self).pending()) as int + 1,
            )),
            !has_line(old(self).pending()) ==> r is None && *final(self) == *old(self),
    {
        let ghost p = self.pending();
        proof {
            lemma_first_nl(p);
        }
        let mut j: usize = self.line_index;
        let mut found: bool = false;
        while !found && j < self.index
            invariant
                *self == *old(self),
                old(self).wf(),
                old(self).line_index <= j <= old(self).index,
                forall|k: int| old(self).line_index <= k < j ==> self.buffer@[k] != NEWLINE,
                found ==> j < old(self).index && self.buffer@[j as int] == NEWLINE,
            decreases old(self).index - j + (if found { 0int } else { 1int }),
        {
            if self.buffer[j] == NEWLINE {
                found = true;
            } else {
                j += 1;
            }
        }
        if found {
            proof {
                assert(p[j - old(self).line_index] == NEWLINE);
                assert forall|k: int| 0 <= k < j - old(self).line_index implies p[k] != NEWLINE by {
                    assert(self.buffer@[old(self).line_index + k] != NEWLINE);
                }
                if first_nl(p) < j - old(self).line_index {
                    assert(p[first_nl(p) as int] == NEWLINE);
                    assert(false);
                }
                if first_nl(p) > j - old(self).line_index {
                    assert(false);
                }
                assert(first_nl(p) == j - old(self).line_index);
            }
            let line_end: usize = j + 1;
            let mut line: Vec<u8> = Vec::new();
            let mut k: usize = self.line_index;
            while k < line_end
                invariant
                    *self == *old(self),
                    old(self).wf(),
                    old(self).line_index <= k <= line_end,
                    line_end <= old(self).index,
                    line@.len() == k - old(self).line_index,
                    forall|m: int| 0 <= m < line@.len() ==> line@[m] == self.buffer@[
                        old(self).line_index + m
                    ],
                decreases line_end - k,
            {
                line.push(self.buffer[k]);
                k += 1;
            }
            self.line_index = line_end;
            proof {
                assert(line@ =~= p.take(first_nl(p) as int + 1));
                assert(self.pending() =~= p.skip(first_nl(p) as int + 1));
            }
            Some(line)
        } else {
            proof {
                assert forall|k: int| 0 <= k < p.len() implies p[k] != NEWLINE by {
                    assert(self.buffer@[old(self).line_index + k] != NEWLINE);
                }
                if has_line(p) {
                    assert(p[first_nl(p) as int] == NEWLINE);
                }
            }
            None
        }
    }

    /// Compact after a drain pass: shift the unconsumed remainder down to
    /// offset zero, so the space before it is free for the next write.
    pub fn shift_remaining(&mut self)
        requires
            old(self).wf(),
        ensures
            final(self).wf(),
            final(self).pending() == old(self).pending(),
            final(self).free_space() == CAPACITY - old(self).pending().len(),
    {
        let remaining_bytes: usize = self.index - self.line_index;
        let mut i: usize = 0;
        while i < remaining_bytes
            invariant
                old(self).wf(),
                self.line_index == old(self).line_index,
                self.index == old(self).index,
                self.buffer@.len() == CAPACITY,
                i <= remaining_bytes,
                remaining_bytes == self.index - self.line_index,
                forall|k: int| 0 <= k < i ==> self.buffer@[k] == old(self).buffer@[
                    old(self).line_index + k
                ],
                forall|k: int| old(self).line_index + i <= k < old(self).index ==> self.buffer@[k]
                    == old(self).buffer@[k],
            decreases remaining_bytes - i,
        {
            let b = self.buffer[self.line_index + i];
            self.buffer.set(i, b);
            i += 1;
        }
        self.line_index = 0;
        self.index = remaining_bytes;
        proof {
            assert(self.pending() =~= old(self).pending());
        }
    }
}

} // verus!
