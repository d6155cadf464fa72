//! Capture of an output stream under two caps: a byte budget and a line
//! budget, whichever binds first. Once a cap is hit later bytes are dropped,
//! but every chunk is still accepted, so a reader can keep draining the pipe.

use vstd::prelude::*;

verus! {

/// The number of newline bytes in `s`.
pub open spec fn count_newlines(s: Seq<u8>) -> nat
    decreases s.len(),
{
    if s.len() == 0 {
        0
    } else {
        count_newlines(s.drop_last()) + if s.last() == 10u8 {
            1nat
        } else {
            0nat
        }
    }
}

/// Whether text `p` has used up one of the two budgets.
pub open spec fn cap_reached(p: Seq<u8>, max_bytes: nat, max_lines: nat) -> bool {
    p.len() >= max_bytes || count_newlines(p) >= max_lines
}

/// How many leading bytes of `stream` are kept: bytes are kept one by one
/// for as long as no budget is used up.
pub open spec fn capped_len(stream: Seq<u8>, max_bytes: nat, max_lines: nat) -> nat
    decreases stream.len(),
{
    if stream.len() == 0 {
        0
    } else {
        let before = stream.drop_last();
        let kept = capped_len(before, max_bytes, max_lines);
        if kept == before.len() && !cap_reached(before, max_bytes, max_lines) {
            stream.len()
        } else {
            kept
        }
    }
}

/// What is kept of `stream` under the two caps.
pub open spec fn capped(stream: Seq<u8>, max_bytes: nat, max_lines: nat) -> Seq<u8> {
    stream.take(capped_len(stream, max_bytes, max_lines) as int)
}

/// Counting newlines of a text with one more byte.
pub proof fn lemma_count_newlines_push(s: Seq<u8>, b: u8)
    ensures
        count_newlines(s.push(b)) == count_newlines(s) + if b == 10u8 {
            1nat
        } else {
            0nat
        },
{
    assert(s.push(b).drop_last() == s);
}

/// The kept text is a prefix of the stream, it stays within both caps, and
/// it stops short of the stream only where a cap is used up exactly.
pub proof fn lemma_capped_bounds(stream: Seq<u8>, max_bytes: nat, max_lines: nat)
    ensures
        capped_len(stream, max_bytes, max_lines) <= stream.len(),
        capped(stream, max_bytes, max_lines).len() <= max_bytes,
        count_newlines(capped(stream, max_bytes, max_lines)) <= max_lines,
        capped_len(stream, max_bytes, max_lines) < stream.len() ==> cap_reached(
            capped(stream, max_bytes, max_lines),
            max_bytes,
            max_lines,
        ),
        forall|k: int|
            0 <= k < capped_len(stream, max_bytes, max_lines) ==> !cap_reached(
                #[trigger] stream.take(k),
                max_bytes,
                max_lines,
            ),
    decreases stream.len(),
{
    if stream.len() > 0 {
        let before = stream.drop_last();
        let kept = capped_len(before, max_bytes, max_lines);
        lemma_capped_bounds(before, max_bytes, max_lines);
        assert(before.take(kept as int) == stream.take(kept as int));
        if kept == before.len() && !cap_reached(before, max_bytes, max_lines) {
            assert(stream.take(stream.len() as int) == stream);
            assert(before.take(kept as int) == before);
            lemma_count_newlines_push(before, stream.last());
            assert(before.push(stream.last()) == stream);
            assert forall|k: int| 0 <= k < stream.len() implies !cap_reached(
                #[trigger] stream.take(k),
                max_bytes,
                max_lines,
            ) by {
                assert(before.take(k) == stream.take(k));
                if k == before.len() {
                    assert(before.take(k) == before);
                }
            }
        } else {
            assert forall|k: int| 0 <= k < kept implies !cap_reached(
                #[trigger] stream.take(k),
                max_bytes,
                max_lines,
            ) by {
                assert(before.take(k) == stream.take(k));
            }
        }
    } else {
        assert(stream.take(0) == Seq::<u8>::empty());
    }
}

/// Once a cap is used up, nothing that follows is kept.
pub proof fn lemma_capped_saturates(
    stream: Seq<u8>,
    more: Seq<u8>,
    max_bytes: nat,
    max_lines: nat,
)
    requires
        cap_reached(capped(stream, max_bytes, max_lines), max_bytes, max_lines),
    ensures
        capped(stream + more, max_bytes, max_lines) == capped(stream, max_bytes, max_lines),
    decreases more.len(),
{
    if more.len() == 0 {
        assert(stream + more == stream);
    } else {
        let shorter = stream + more.drop_last();
        lemma_capped_saturates(stream, more.drop_last(), max_bytes, max_lines);
        lemma_capped_bounds(shorter, max_bytes, max_lines);
        lemma_capped_bounds(stream, max_bytes, max_lines);
        assert((stream + more).drop_last() == shorter);
        let kept = capped_len(shorter, max_bytes, max_lines);
        if kept == shorter.len() {
            assert(shorter.take(kept as int) == shorter);
        }
        assert(capped_len(stream + more, max_bytes, max_lines) == kept);
        assert((stream + more).take(kept as int) == shorter.take(kept as int));
    }
}

/// What is kept does not depend on how the stream arrives in pieces: the
/// kept text of `a + b` is the kept text of `a`, followed by what the
/// budgets left over by `a` keep of `b`.
pub proof fn lemma_capped_split(a: Seq<u8>, b: Seq<u8>, max_bytes: nat, max_lines: nat)
    ensures
        ({
            let first = capped(a, max_bytes, max_lines);
            capped(a + b, max_bytes, max_lines) == first + capped(
                b,
                (max_bytes - first.len()) as nat,
                (max_lines - count_newlines(first)) as nat,
            )
        }),
    decreases b.len(),
{
    let first = capped(a, max_bytes, max_lines);
    let rest_bytes = (max_bytes - first.len()) as nat;
    let rest_lines = (max_lines - count_newlines(first)) as nat;
    lemma_capped_bounds(a, max_bytes, max_lines);
    if b.len() == 0 {
        assert(a + b == a);
        assert(capped(b, rest_bytes, rest_lines) == Seq::<u8>::empty());
        assert(first + Seq::<u8>::empty() == first);
    } else {
        let b0 = b.drop_last();
        lemma_capped_split(a, b0, max_bytes, max_lines);
        lemma_capped_bounds(a + b0, max_bytes, max_lines);
        lemma_capped_bounds(b0, rest_bytes, rest_lines);
        assert((a + b).drop_last() == a + b0);
        let kept_ab0 = capped_len(a + b0, max_bytes, max_lines);
        let kept_b0 = capped_len(b0, rest_bytes, rest_lines);
        assert(capped(a + b0, max_bytes, max_lines).len() == first.len() + kept_b0);
        if capped_len(a, max_bytes, max_lines) < a.len() {
            // a cap was used up inside `a`
            lemma_capped_saturates(a, b, max_bytes, max_lines);
            assert(rest_bytes == 0 || rest_lines == 0);
            lemma_capped_bounds(b, rest_bytes, rest_lines);
            if capped_len(b, rest_bytes, rest_lines) > 0 {
                assert(!cap_reached(b.take(0), rest_bytes, rest_lines));
                assert(b.take(0) == Seq::<u8>::empty());
            }
            assert(capped(b, rest_bytes, rest_lines) == Seq::<u8>::empty());
            assert(first + Seq::<u8>::empty() == first);
        } else {
            assert(first == a) by {
                assert(a.take(a.len() as int) == a);
            }
            if kept_ab0 == (a + b0).len() {
                assert(kept_b0 == b0.len());
                assert((a + b0).take(kept_ab0 as int) == a + b0);
                assert(b0.take(kept_b0 as int) == b0);
                lemma_count_newlines_add(a, b0);
                assert(cap_reached(a + b0, max_bytes, max_lines) == cap_reached(
                    b0,
                    rest_bytes,
                    rest_lines,
                ));
                if !cap_reached(b0, rest_bytes, rest_lines) {
                    assert((a + b).take((a + b).len() as int) == a + b);
                    assert(b.take(b.len() as int) == b);
                } else {
                    assert((a + b).take(kept_ab0 as int) == (a + b0).take(kept_ab0 as int));
                    assert(b.take(kept_b0 as int) == b0.take(kept_b0 as int));
                }
            } else {
                assert(kept_b0 < b0.len());
                assert((a + b).take(kept_ab0 as int) == (a + b0).take(kept_ab0 as int));
                assert(b.take(kept_b0 as int) == b0.take(kept_b0 as int));
            }
        }
    }
}

/// Cutting what was cut already changes nothing.
pub proof fn lemma_capped_idempotent(stream: Seq<u8>, max_bytes: nat, max_lines: nat)
    ensures
        capped(capped(stream, max_bytes, max_lines), max_bytes, max_lines) == capped(
            stream,
            max_bytes,
            max_lines,
        ),
{
    let k = capped_len(stream, max_bytes, max_lines);
    lemma_capped_bounds(stream, max_bytes, max_lines);
    lemma_prefix_below_caps_is_kept(stream, max_bytes, max_lines, k as int);
    assert(stream.take(k as int).take(k as int) == stream.take(k as int));
}

/// A prefix none of whose proper prefixes has used up a budget is kept
/// whole.
proof fn lemma_prefix_below_caps_is_kept(stream: Seq<u8>, max_bytes: nat, max_lines: nat, j: int)
    requires
        0 <= j <= stream.len(),
        forall|k: int| 0 <= k < j ==> !cap_reached(#[trigger] stream.take(k), max_bytes, max_lines),
    ensures
        capped_len(stream.take(j), max_bytes, max_lines) == j,
    decreases j,
{
    if j > 0 {
        lemma_prefix_below_caps_is_kept(stream, max_bytes, max_lines, j - 1);
        assert(stream.take(j).drop_last() == stream.take(j - 1));
    }
}

/// Newlines of a concatenation.
pub proof fn lemma_count_newlines_add(a: Seq<u8>, b: Seq<u8>)
    ensures
        count_newlines(a + b) == count_newlines(a) + count_newlines(b),
    decreases b.len(),
{
    if b.len() == 0 {
        assert(a + b == a);
    } else {
        lemma_count_newlines_add(a, b.drop_last());
        assert((a + b).drop_last() == a + b.drop_last());
    }
}

/// One stream being captured under a byte cap and a line cap.
pub struct OutputCollector {
    buf: Vec<u8>,
    remaining_bytes: usize,
    remaining_lines: usize,
    max_bytes: Ghost<nat>,
    max_lines: Ghost<nat>,
    seen: Ghost<Seq<u8>>,
}

impl OutputCollector {
    /// Everything that was handed to the collector so far, kept or not.
    pub closed spec fn seen(&self) -> Seq<u8> {
        self.seen@
    }

    /// What the collector holds.
    pub closed spec fn captured(&self) -> Seq<u8> {
        self.buf@
    }

    /// The byte cap the collector was made with.
    pub closed spec fn max_bytes(&self) -> nat {
        self.max_bytes@
    }

    /// The line cap the collector was made with.
    pub closed spec fn max_lines(&self) -> nat {
        self.max_lines@
    }

    /// The collector holds exactly what the caps keep of what it has seen,
    /// and its budgets are what the kept text has left over.
    pub closed spec fn wf(&self) -> bool {
        &&& self.buf@ == capped(self.seen@, self.max_bytes@, self.max_lines@)
        &&& self.remaining_bytes as nat + self.buf@.len() == self.max_bytes@
        &&& self.remaining_lines as nat + count_newlines(self.buf@) == self.max_lines@
    }

    /// A collector that has seen nothing.
    pub fn new(max_bytes: usize, max_lines: usize) -> (r: OutputCollector)
        ensures
            r.wf(),
            r.seen() == Seq::<u8>::empty(),
            r.captured() == Seq::<u8>::empty(),
            r.max_bytes() == max_bytes,
            r.max_lines() == max_lines,
    {
        proof {
            assert(Seq::<u8>::empty().take(0) == Seq::<u8>::empty());
        }
        OutputCollector {
            buf: Vec::new(),
            remaining_bytes: max_bytes,
            remaining_lines: max_lines,
            max_bytes: Ghost(max_bytes as nat),
            max_lines: Ghost(max_lines as nat),
            seen: Ghost(Seq::empty()),
        }
    }

    /// Takes the next chunk of the stream. Every chunk is accepted, whatever
    /// the state of the budgets; what exceeds them is dropped.
    pub fn push_chunk(&mut self, chunk: &[u8])
        requires
            old(self).wf(),
        ensures
            final(self).wf(),
            final(self).seen() == old(self).seen() + chunk@,
            final(self).max_bytes() == old(self).max_bytes(),
            final(self).max_lines() == old(self).max_lines(),
            final(self).captured() == capped(
                old(self).seen() + chunk@,
                old(self).max_bytes(),
                old(self).max_lines(),
            ),
    {
        let ghost start = self.seen@;
        let ghost mb = self.max_bytes@;
        let ghost ml = self.max_lines@;
        let mut j: usize = 0;
        while j < chunk.len() && self.remaining_bytes > 0 && self.remaining_lines > 0
            invariant
                j <= chunk.len(),
                self.max_bytes@ == mb,
                self.max_lines@ == ml,
                self.seen@ == start + chunk@.take(j as int),
                self.wf(),
            decreases chunk.len() - j,
        {
            let b = chunk[j];
            proof {
                let s = self.seen@;
                lemma_capped_bounds(s, mb, ml);
                assert(self.buf@ == s) by {
                    assert(s.take(s.len() as int) == s);
                }
                assert(s.push(b).drop_last() == s);
                assert(s.push(b).take(s.len() as int + 1) == s.push(b));
                lemma_count_newlines_push(s, b);
                assert(chunk@.take(j as int + 1) == chunk@.take(j as int).push(b));
                assert(start + chunk@.take(j as int).push(b) == s.push(b));
            }
            self.buf.push(b);
            self.remaining_bytes = self.remaining_bytes - 1;
            if b == 10u8 {
                self.remaining_lines = self.remaining_lines - 1;
            }
            self.seen = Ghost(self.seen@.push(b));
            j = j + 1;
        }
        proof {
            let s = self.seen@;
            let rest = chunk@.skip(j as int);
            assert(chunk@.take(j as int) + rest == chunk@);
            assert(s + rest == start + chunk@);
            if j < chunk.len() {
                lemma_capped_saturates(s, rest, mb, ml);
            } else {
                assert(s + rest == s);
            }
        }
        self.seen = Ghost(start + chunk@);
    }

    /// Whether a budget is used up, so that nothing more will be kept.
    pub fn is_full(&self) -> (r: bool)
        requires
            self.wf(),
        ensures
            r == cap_reached(self.captured(), self.max_bytes(), self.max_lines()),
    {
        self.remaining_bytes == 0 || self.remaining_lines == 0
    }

    /// Ends the capture and hands out what was kept.
    pub fn into_bytes(self) -> (r: Vec<u8>)
        requires
            self.wf(),
        ensures
            r@ == capped(self.seen(), self.max_bytes(), self.max_lines()),
            r@.len() <= self.max_bytes(),
            count_newlines(r@) <= self.max_lines(),
    {
        proof {
            lemma_capped_bounds(self.seen@, self.max_bytes@, self.max_lines@);
        }
        self.buf
    }
}

/// All chunks of a stream, one after the other.
pub open spec fn concat_chunks(chunks: Seq<Vec<u8>>) -> Seq<u8>
    decreases chunks.len(),
{
    if chunks.len() == 0 {
        Seq::empty()
    } else {
        concat_chunks(chunks.drop_last()) + chunks.last()@
    }
}

/// Captures a stream that arrived in the given chunks: the result is what
/// the caps keep of the whole stream, however it was cut into chunks.
pub fn read_capped(chunks: &Vec<Vec<u8>>, max_output: usize, max_lines: usize) -> (r: Vec<u8>)
    ensures
        r@ == capped(concat_chunks(chunks@), max_output as nat, max_lines as nat),
        r@.len() <= max_output,
        count_newlines(r@) <= max_lines,
{
    let mut collector = OutputCollector::new(max_output, max_lines);
    let mut i: usize = 0;
    while i < chunks.len()
        invariant
            i <= chunks.len(),
            collector.wf(),
            collector.max_bytes() == max_output,
            collector.max_lines() == max_lines,
            collector.seen() == concat_chunks(chunks@.take(i as int)),
        decreases chunks.len() - i,
    {
        proof {
            assert(chunks@.take(i as int + 1).drop_last() == chunks@.take(i as int));
        }
        collector.push_chunk(chunks[i].as_slice());
        i = i + 1;
    }
    proof {
        assert(chunks@.take(chunks.len() as int) == chunks@);
    }
    collector.into_bytes()
}

} // verus!
