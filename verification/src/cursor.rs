//! The stream the decoder reads from: an in-memory byte buffer with a read
//! cursor, supporting buffered line reads, byte-offset seeks, and position
//! queries.

use vstd::prelude::*;

verus! {

/// The position just past one line starting at `pos`: past the first line
/// feed, or the end of the data.
pub open spec fn line_end(data: Seq<u8>, pos: int) -> int {
    let k = crate::decimal::find_byte(data.skip(pos), 0x0a);
    if 0 <= k && pos + k < data.len() {
        pos + k + 1
    } else {
        data.len() as int
    }
}

/// The bytes of one line starting at `pos`: up to and including the first
/// line feed, or to the end of the data.
pub open spec fn line_at(data: Seq<u8>, pos: int) -> Seq<u8> {
    data.subrange(pos, line_end(data, pos))
}

/// An in-memory, seekable byte stream.
#[derive(Debug, Clone, PartialEq, Eq)]
pub struct ByteCursor {
    pub data: Vec<u8>,
    pub pos: usize,
}

impl ByteCursor {
    /// The cursor never points past the end of the data.
    pub open spec fn wf(&self) -> bool {
        self.pos <= self.data@.len()
    }

    /// A stream over `data`, positioned at byte 0.
    pub fn new(data: Vec<u8>) -> (r: ByteCursor)
        ensures
            r.data@ == data@,
            r.pos == 0,
            r.wf(),
    {
        ByteCursor { data, pos: 0 }
    }

    /// The current read position.
    pub fn stream_position(&self) -> (r: usize)
        ensures
            r == self.pos,
    {
        self.pos
    }

    /// Moves the read position to `pos`, clamped to the end of the data.
    pub fn seek(&mut self, pos: usize)
        ensures
            final(self).data == old(self).data,
            final(self).pos == (if pos <= old(self).data@.len() {
                pos as int
            } else {
                old(self).data@.len() as int
            }),
            final(self).wf(),
    {
        if pos <= self.data.len() {
            self.pos = pos;
        } else {
            self.pos = self.data.len();
        }
    }

    /// Reads one line into `buffer` (replacing its contents) and advances the
    /// position past it; reads zero bytes exactly at the end of the data.
    #[verifier::loop_isolation(false)]
    pub fn read_line(&mut self, buffer: &mut Vec<u8>) -> (n: usize)
        requires
            old(self).wf(),
        ensures
            final(self).data == old(self).data,
            final(self).wf(),
            final(buffer)@ == line_at(old(self).data@, old(self).pos as int),
            n == final(buffer)@.len(),
            final(self).pos == old(self).pos + n,
            n == 0 <==> old(self).pos == old(self).data@.len(),
    {
        buffer.clear();
        let ghost data = self.data@;
        let ghost start = self.pos as int;
        let ghost rest = data.skip(start);
        proof {
            crate::decimal::lemma_find_byte(rest, 0x0a);
        }
        let len = self.data.len();
        let mut i = self.pos;
        while i < len && self.data[i] != 0x0a
            invariant
                start <= i <= len,
                len == data.len(),
                self.data@ == data,
                self.pos == start,
                forall|m: int| start <= m < i ==> data[m] != 0x0a,
                buffer@ =~= data.subrange(start, i as int),
            decreases len - i,
        {
            buffer.push(self.data[i]);
            proof {
                assert(data.subrange(start, i + 1) =~= data.subrange(start, i as int).push(
                    data[i as int],
                ));
            }
            i += 1;
        }
        proof {
            assert forall|m: int| 0 <= m < i - start implies #[trigger] rest[m] != 0x0a by {
                assert(rest[m] == data[start + m]);
            }
        }
        if i < len {
            buffer.push(self.data[i]);
            i += 1;
            proof {
                assert(rest[i - 1 - start] == data[i - 1]);
                assert(crate::decimal::find_byte(rest, 0x0a) == i - 1 - start) by {
                    lemma_find_byte_at(rest, 0x0a, i - 1 - start);
                }
                assert(buffer@ =~= data.subrange(start, i as int));
                assert(buffer@ =~= line_at(data, start));
            }
        } else {
            proof {
                assert(crate::decimal::find_byte(rest, 0x0a) == rest.len()) by {
                    crate::decimal::lemma_find_byte(rest, 0x0a);
                    if crate::decimal::find_byte(rest, 0x0a) < rest.len() {
                        assert(rest[crate::decimal::find_byte(rest, 0x0a)] == 0x0a);
                    }
                }
                assert(buffer@ =~= line_at(data, start));
            }
        }
        self.pos = i;
        buffer.len()
    }
}

/// Converse direction of `lemma_find_byte`: a witness pins the position.
pub proof fn lemma_find_byte_at(s: Seq<u8>, b: u8, j: int)
    requires
        0 <= j < s.len(),
        s[j] == b,
        forall|i: int| 0 <= i < j ==> s[i] != b,
    ensures
        crate::decimal::find_byte(s, b) == j,
    decreases s.len(),
{
    if s.len() > 0 && s[0] != b {
        assert(s.skip(1)[j - 1] == s[j]);
        assert forall|i: int| 0 <= i < j - 1 implies s.skip(1)[i] != b by {
            assert(s.skip(1)[i] == s[i + 1]);
        }
        lemma_find_byte_at(s.skip(1), b, j - 1);
    }
}

} // verus!
