//! Accumulation of a newline-terminated response line.
//!
//! The backend answers with one JSON document per line. Bytes arrive in
//! chunks of arbitrary size; the reader appends each chunk to a buffer and
//! stops at the first newline byte. Everything up to and including that
//! newline is the response; whatever follows it in the same burst is
//! discarded and never carried over to a later call.

use vstd::prelude::*;

verus! {

/// Whether a byte sequence contains a newline byte.
pub open spec fn has_newline(s: Seq<u8>) -> bool {
    exists|i: int| 0 <= i < s.len() && s[i] == crate::wire::NEWLINE
}

/// Index of the first newline byte, or the length when there is none.
pub open spec fn first_newline(s: Seq<u8>) -> int
    decreases s.len(),
{
    if s.len() == 0 {
        0
    } else if s[0] == crate::wire::NEWLINE {
        0
    } else {
        1 + first_newline(s.drop_first())
    }
}

/// What the first newline index means: it points at a newline preceded by
/// none, and it equals the length exactly when the sequence has no newline.
pub proof fn lemma_first_newline(s: Seq<u8>)
    ensures
        0 <= first_newline(s) <= s.len(),
        has_newline(s) ==> first_newline(s) < s.len() && s[first_newline(s)]
            == crate::wire::NEWLINE,
        !has_newline(s) ==> first_newline(s) == s.len(),
        forall|j: int| 0 <= j < first_newline(s) ==> s[j] != crate::wire::NEWLINE,
    decreases s.len(),
{
    if s.len() > 0 && s[0] != crate::wire::NEWLINE {
        let t = s.drop_first();
        lemma_first_newline(t);
        assert(forall|i: int| 0 <= i < t.len() ==> t[i] == s[i + 1]);
        if has_newline(s) {
            let w = choose|i: int| 0 <= i < s.len() && s[i] == crate::wire::NEWLINE;
            assert(t[w - 1] == crate::wire::NEWLINE);
        }
        if has_newline(t) {
            let w = choose|i: int| 0 <= i < t.len() && t[i] == crate::wire::NEWLINE;
            assert(s[w + 1] == crate::wire::NEWLINE);
        }
        assert forall|j: int| 0 <= j < first_newline(s) implies s[j] != crate::wire::NEWLINE by {
            if j > 0 {
                assert(s[j] == t[j - 1]);
            }
        }
    }
}

/// Accumulates chunks of backend output until a line is complete.
pub struct LineReader {
    pub buf: Vec<u8>,
    pub complete: bool,
}

impl LineReader {
    /// An incomplete reader has seen no newline yet; a complete one holds
    /// a buffer whose one newline is its last byte.
    pub open spec fn wf(self) -> bool {
        if self.complete {
            self.buf@.len() > 0 && self.buf@.last() == crate::wire::NEWLINE && forall|j: int|
                0 <= j < self.buf@.len() - 1 ==> self.buf@[j] != crate::wire::NEWLINE
        } else {
            !has_newline(self.buf@)
        }
    }

    pub fn new() -> (r: LineReader)
        ensures
            r.buf@ == Seq::<u8>::empty(),
            !r.complete,
            r.wf(),
    {
        let r = LineReader { buf: Vec::new(), complete: false };
        proof {
            assert(!has_newline(r.buf@));
        }
        r
    }

    /// Append one chunk of backend output. Returns true exactly when the
    /// accumulated bytes now contain a newline; the buffer is then cut to
    /// end at the first newline, and the rest of the burst is discarded.
    pub fn feed(&mut self, chunk: &[u8]) -> (done: bool)
        requires
            old(self).wf(),
            !old(self).complete,
        ensures
            final(self).wf(),
            done == final(self).complete,
            done == has_newline(old(self).buf@ + chunk@),
            done ==> final(self).buf@ == (old(self).buf@ + chunk@).take(
                first_newline(old(self).buf@ + chunk@) + 1,
            ),
            !done ==> final(self).buf@ == old(self).buf@ + chunk@,
    {
        let ghost whole = old(self).buf@ + chunk@;
        let ghost base = old(self).buf@.len() as int;
        let mut i: usize = 0;
        let mut found: bool = false;
        let mut cut: usize = 0;
        while i < chunk.len() && !found
            invariant
                0 <= i <= chunk@.len(),
                forall|j: int| 0 <= j < i ==> chunk@[j] != crate::wire::NEWLINE,
                found ==> i < chunk@.len() && cut == i && chunk@[cut as int]
                    == crate::wire::NEWLINE,
            decreases chunk@.len() - i, (if found {
                0int
            } else {
                1int
            }),
        {
            if chunk[i] == 10 {
                found = true;
                cut = i;
            } else {
                i = i + 1;
            }
        }
        proof {
            lemma_first_newline(whole);
            lemma_first_newline(chunk@);
            assert(forall|j: int| 0 <= j < base ==> whole[j] == old(self).buf@[j]);
            assert(forall|j: int| 0 <= j < chunk@.len() ==> whole[base + j] == chunk@[j]);
        }
        if found {
            proof {
                // The first newline of the whole buffer sits inside the new
                // chunk, at the offset the scan found.
                assert(whole[base + cut] == crate::wire::NEWLINE);
                assert(has_newline(whole));
                assert forall|j: int| 0 <= j < base + cut implies whole[j]
                    != crate::wire::NEWLINE by {
                    if j < base {
                        assert(whole[j] == old(self).buf@[j]);
                        assert(!has_newline(old(self).buf@));
                    } else {
                        assert(whole[j] == chunk@[j - base]);
                    }
                }
                if first_newline(whole) < base + cut {
                    assert(whole[first_newline(whole)] == crate::wire::NEWLINE);
                }
                if first_newline(whole) > base + cut {
                    assert(whole[base + cut] != crate::wire::NEWLINE);
                }
                assert(first_newline(whole) == base + cut);
            }
            let clen = chunk.len();
            assert(cut < clen);
            let keep = cut + 1;
            let mut k: usize = 0;
            while k < keep
                invariant
                    0 <= k <= keep,
                    keep <= chunk@.len(),
                    self.complete == old(self).complete,
                    self.buf@ == old(self).buf@ + chunk@.take(k as int),
                decreases keep - k,
            {
                let b = chunk[k];
                self.buf.push(b);
                proof {
                    assert(self.buf@ =~= old(self).buf@ + chunk@.take(k + 1));
                }
                k = k + 1;
            }
            self.complete = true;
            proof {
                assert(self.buf@ =~= whole.take(first_newline(whole) + 1));
                assert(self.buf@.last() == whole[base + cut]);
                assert forall|j: int| 0 <= j < self.buf@.len() - 1 implies self.buf@[j]
                    != crate::wire::NEWLINE by {
                    assert(self.buf@[j] == whole[j]);
                }
            }
            true
        } else {
            self.buf.extend_from_slice(chunk);
            proof {
                assert forall|j: int| 0 <= j < self.buf@.len() implies self.buf@[j] == whole[j] by {
                    if j < base {
                        assert(self.buf@[j] == old(self).buf@[j]);
                    } else {
                        assert(cloned::<u8>(chunk@[j - base], self.buf@[j]));
                    }
                }
                assert(self.buf@ =~= whole);
                assert forall|j: int| 0 <= j < whole.len() implies whole[j]
                    != crate::wire::NEWLINE by {
                    if j < base {
                        assert(whole[j] == old(self).buf@[j]);
                        assert(!has_newline(old(self).buf@));
                    } else {
                        assert(whole[j] == chunk@[j - base]);
                    }
                }
                assert(!has_newline(whole));
            }
            false
        }
    }
}

} // verus!
