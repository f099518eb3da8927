//! A peekable, position-tracking byte cursor.
//!
//! The cursor maintains a FIFO of already-fetched-but-unconsumed bytes (the
//! "peek buffer") in front of the not-yet-fetched part of the byte source, so
//! that independent lookaheads never lose a byte: a byte reported by
//! `peek_nth` is guaranteed to be returned later by `next_byte`.

use vstd::prelude::*;

verus! {

/// A peekable cursor over an in-memory byte source.
///
/// The unconsumed input is the peek buffer followed by the unfetched part of
/// the source; `next_byte` always drains the peek buffer first.
pub struct IoQueue {
    /// Bytes fetched ahead of consumption, oldest first.
    peeked: Vec<u8>,
    /// Bytes of the source not yet fetched into the peek buffer.
    source: Vec<u8>,
    /// Number of bytes consumed via `next_byte` so far.
    bytes_read: usize,
}

impl IoQueue {
    /// The bytes that have not been consumed yet, in the order `next_byte`
    /// will return them.
    pub closed spec fn remaining(self) -> Seq<u8> {
        self.peeked@ + self.source@
    }

    /// Length of the peek buffer.
    pub closed spec fn spec_peek_len(self) -> nat {
        self.peeked@.len()
    }

    /// Number of bytes consumed so far.
    pub closed spec fn spec_bytes_read(self) -> nat {
        self.bytes_read as nat
    }

    /// The consumed count plus what is left never exceeds the count of bytes
    /// the cursor was created with, so the consumed counter cannot overflow.
    pub closed spec fn wf(self) -> bool {
        self.bytes_read + self.remaining().len() <= usize::MAX
    }

    pub fn new(stream: Vec<u8>) -> (q: IoQueue)
        ensures
            q.wf(),
            q.remaining() == stream@,
            q.spec_peek_len() == 0,
            q.spec_bytes_read() == 0,
    {
        proof {
            broadcast use vstd::std_specs::vec::axiom_spec_len;

            assert(vstd::std_specs::vec::spec_vec_len(&stream) == stream@.len());
        }
        let q = IoQueue { peeked: Vec::new(), source: stream, bytes_read: 0 };
        assert(q.remaining() =~= q.source@);
        q
    }

    /// How many bytes have been consumed via `next_byte`.
    pub fn bytes_read(&self) -> (n: usize)
        ensures
            n == self.spec_bytes_read(),
    {
        self.bytes_read
    }

    /// Consumes and returns the oldest unconsumed byte, draining the peek
    /// buffer before touching the source.
    pub fn next_byte(&mut self) -> (r: Option<u8>)
        requires
            old(self).wf(),
        ensures
            final(self).wf(),
            old(self).remaining().len() == 0 ==> r is None && *final(self) == *old(self),
            old(self).remaining().len() > 0 ==> {
                &&& r == Some(old(self).remaining()[0])
                &&& final(self).remaining() == old(self).remaining().skip(1)
                &&& final(self).spec_bytes_read() == old(self).spec_bytes_read() + 1
            },
    {
        if self.peeked.len() > 0 {
            let b = self.peeked.remove(0);
            self.bytes_read = self.bytes_read + 1;
            assert(self.remaining() =~= old(self).remaining().skip(1));
            Some(b)
        } else if self.source.len() > 0 {
            let b = self.source.remove(0);
            self.bytes_read = self.bytes_read + 1;
            assert(old(self).remaining() =~= old(self).source@);
            assert(self.remaining() =~= old(self).remaining().skip(1));
            Some(b)
        } else {
            assert(self.remaining() =~= Seq::<u8>::empty());
            None
        }
    }

    /// Non-consuming lookahead at the `n`-th unconsumed byte.
    pub fn peek_nth(&self, n: usize) -> (r: Option<u8>)
        ensures
            r == (if n < self.remaining().len() {
                Some(self.remaining()[n as int])
            } else {
                None::<u8>
            }),
    {
        if n < self.peeked.len() {
            Some(self.peeked[n])
        } else {
            let off = n - self.peeked.len();
            if off < self.source.len() {
                Some(self.source[off])
            } else {
                None
            }
        }
    }

    /// Non-consuming lookahead at the oldest unconsumed byte.
    pub fn peek(&self) -> (r: Option<u8>)
        ensures
            r == (if self.remaining().len() > 0 {
                Some(self.remaining()[0])
            } else {
                None::<u8>
            }),
    {
        self.peek_nth(0)
    }

    /// Best-effort lookahead of up to `n` bytes, shorter at end of stream.
    #[verifier::loop_isolation(false)]
    pub fn peek_arr(&self, n: usize) -> (r: Vec<u8>)
        ensures
            r@ == self.remaining().take(if n <= self.remaining().len() {
                n as int
            } else {
                self.remaining().len() as int
            }),
    {
        let mut res: Vec<u8> = Vec::new();
        let mut i: usize = 0;
        loop
            invariant
                i <= n,
                i <= self.remaining().len(),
                res@ == self.remaining().take(i as int),
            decreases n - i,
        {
            if i >= n {
                return res;
            }
            match self.peek_nth(i) {
                Some(b) => {
                    res.push(b);
                    assert(res@ =~= self.remaining().take(i + 1));
                    i = i + 1;
                },
                None => {
                    return res;
                },
            }
        }
    }

    /// Whether at least one unconsumed byte is left.
    pub fn has_next(&self) -> (r: bool)
        ensures
            r == (self.remaining().len() > 0),
    {
        self.peek().is_some()
    }

    /// Whether at least `n + 1` unconsumed bytes are left.
    pub fn has_next_nth(&self, n: usize) -> (r: bool)
        ensures
            r == (n < self.remaining().len()),
    {
        self.peek_nth(n).is_some()
    }

    /// Fetches bytes into the peek buffer until it holds `max` bytes or the
    /// source is exhausted. The unconsumed bytes are unchanged.
    #[verifier::loop_isolation(false)]
    pub fn peek_max(&mut self, max: usize)
        requires
            old(self).wf(),
        ensures
            final(self).wf(),
            final(self).remaining() == old(self).remaining(),
            final(self).spec_bytes_read() == old(self).spec_bytes_read(),
            final(self).spec_peek_len() == (if old(self).spec_peek_len() >= max as nat {
                old(self).spec_peek_len()
            } else if max as nat <= old(self).remaining().len() {
                max as nat
            } else {
                old(self).remaining().len()
            }),
    {
        while self.peeked.len() < max && self.source.len() > 0
            invariant
                self.wf(),
                self.remaining() == old(self).remaining(),
                self.bytes_read == old(self).bytes_read,
                old(self).spec_peek_len() >= max as nat ==> self.peeked@ == old(self).peeked@,
                self.peeked@.len() <= max || self.peeked@ == old(self).peeked@,
                self.peeked@.len() >= old(self).peeked@.len(),
            decreases self.source@.len(),
        {
            let b = self.source.remove(0);
            self.peeked.push(b);
            assert(self.remaining() =~= old(self).remaining());
        }
    }

    /// Current length of the peek buffer.
    pub fn peek_len(&self) -> (n: usize)
        ensures
            n == self.spec_peek_len(),
            n <= self.remaining().len(),
    {
        self.peeked.len()
    }

    /// Whether the unconsumed bytes hold exactly `bytes` starting at offset
    /// `start_pos`.
    #[verifier::loop_isolation(false)]
    pub fn contains_bytes(&self, start_pos: usize, bytes: &[u8]) -> (r: bool)
        requires
            start_pos + bytes@.len() <= usize::MAX,
        ensures
            r == contains_bytes_at(self.remaining(), start_pos as int, bytes@),
    {
        let me: &IoQueue = self;
        let n = bytes.len();
        let mut i: usize = 0;
        while i < n
            invariant
                n == bytes@.len(),
                i <= bytes@.len(),
                start_pos + bytes@.len() <= usize::MAX,
                i == 0 || start_pos + i <= me.remaining().len(),
                forall|j: int| #![trigger bytes@[j]]
                    0 <= j < i ==> me.remaining()[start_pos + j] == bytes@[j],
            decreases bytes@.len() - i,
        {
            match me.peek_nth(start_pos + i) {
                Some(b) => {
                    if b != bytes[i] {
                        return false;
                    }
                },
                None => {
                    proof {
                        assert(!(start_pos + i < self.remaining().len()) && bytes@[i as int]
                            == bytes@[i as int]);
                    }
                    return false;
                },
            }
            i = i + 1;
        }
        proof {
            assert forall|j: int| 0 <= j < bytes@.len() implies me.remaining()[start_pos + j]
                == #[trigger] bytes@[j] by {
                assert(0 <= j < i);
            }
            assert(contains_bytes_at(me.remaining(), start_pos as int, bytes@));
        }
        true
    }

    /// Whether, starting at offset `start_pos`, each unconsumed byte is one of
    /// the candidate bytes supplied for its position.
    #[verifier::loop_isolation(false)]
    pub fn matches_sequence(&self, start_pos: usize, sequence: &[Vec<u8>]) -> (r: bool)
        requires
            start_pos + sequence@.len() <= usize::MAX,
        ensures
            r == matches_sequence_at(self.remaining(), start_pos as int, sequence@),
    {
        let me: &IoQueue = self;
        let n = sequence.len();
        let mut i: usize = 0;
        while i < n
            invariant
                n == sequence@.len(),
                i <= sequence@.len(),
                start_pos + sequence@.len() <= usize::MAX,
                i == 0 || start_pos + i <= me.remaining().len(),
                forall|j: int| #![trigger sequence@[j]]
                    0 <= j < i ==> sequence@[j]@.contains(me.remaining()[start_pos + j]),
            decreases sequence@.len() - i,
        {
            match me.peek_nth(start_pos + i) {
                Some(b) => {
                    let alternatives = &sequence[i];
                    let alt_n = alternatives.len();
                    let mut k: usize = 0;
                    let mut found = false;
                    while k < alt_n
                        invariant
                            alt_n == alternatives@.len(),
                            k <= alternatives@.len(),
                            found == exists|m: int| 0 <= m < k && alternatives@[m] == b,
                        decreases alternatives@.len() - k,
                    {
                        if alternatives[k] == b {
                            found = true;
                        }
                        k = k + 1;
                    }
                    if !found {
                        return false;
                    }
                },
                None => {
                    proof {
                        assert(!(start_pos + i < self.remaining().len()));
                        assert(sequence@[i as int] == sequence@[i as int]);
                    }
                    return false;
                },
            }
            i = i + 1;
        }
        proof {
            assert forall|j: int| 0 <= j < sequence@.len() implies (#[trigger] sequence@[j])@.contains(
                me.remaining()[start_pos + j],
            ) by {
                assert(0 <= j < i);
            }
            assert(matches_sequence_at(me.remaining(), start_pos as int, sequence@));
        }
        true
    }
}

impl IoQueue {
    /// The peek buffer is a prefix of the unconsumed bytes.
    pub proof fn lemma_peek_len_le_remaining(self)
        ensures
            self.spec_peek_len() <= self.remaining().len(),
    {
    }

    /// A well-formed cursor holds boundedly many unconsumed bytes.
    pub proof fn lemma_remaining_bounded(self)
        requires
            self.wf(),
        ensures
            self.remaining().len() <= usize::MAX,
    {
    }
}

/// Whether `s` holds exactly `pattern` starting at offset `pos`.
pub open spec fn contains_bytes_at(s: Seq<u8>, pos: int, pattern: Seq<u8>) -> bool {
    pattern.len() == 0 || {
        &&& pos + pattern.len() <= s.len()
        &&& forall|i: int| 0 <= i < pattern.len() ==> s[pos + i] == #[trigger] pattern[i]
    }
}

/// Whether, starting at offset `pos`, each byte of `s` is one of the
/// candidates supplied for its position.
pub open spec fn matches_sequence_at(s: Seq<u8>, pos: int, alternatives: Seq<Vec<u8>>) -> bool {
    alternatives.len() == 0 || {
        &&& pos + alternatives.len() <= s.len()
        &&& forall|i: int|
            0 <= i < alternatives.len() ==> (#[trigger] alternatives[i])@.contains(s[pos + i])
    }
}

} // verus!
