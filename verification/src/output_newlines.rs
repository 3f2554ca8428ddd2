//! Newline normalization for process output shown in a terminal view.
//!
//! Captured (non-PTY) output uses bare `\n` line endings; the terminal view
//! needs `\r\n`. A lone `\n` gets a `\r` in front of it unless the byte before
//! it, possibly in the previous chunk, already was `\r`.
use vstd::prelude::*;

verus! {

/// The output for one byte `b`, given whether the previous byte was `\r`.
pub open spec fn normalize_step(b: u8, prev_cr: bool) -> Seq<u8> {
    if b == 0x0au8 && !prev_cr {
        seq![0x0du8, 0x0au8]
    } else {
        seq![b]
    }
}

/// Whether the last byte seen after `s` is `\r` (`prev_cr` if `s` is empty).
pub open spec fn ends_with_cr(s: Seq<u8>, prev_cr: bool) -> bool {
    if s.len() == 0 {
        prev_cr
    } else {
        s.last() == 0x0du8
    }
}

/// The normalized form of `s` when the byte before `s` was `\r` iff `prev_cr`.
pub open spec fn normalized(s: Seq<u8>, prev_cr: bool) -> Seq<u8>
    decreases s.len(),
{
    if s.len() == 0 {
        Seq::empty()
    } else {
        normalized(s.drop_last(), prev_cr) + normalize_step(
            s.last(),
            ends_with_cr(s.drop_last(), prev_cr),
        )
    }
}

/// Normalize one chunk; `previous_ended_with_cr` carries the state to the next chunk.
pub fn normalize_managed_output_newlines(bytes: &[u8], previous_ended_with_cr: &mut bool) -> (out: Vec<u8>)
    ensures
        out@ == normalized(bytes@, *old(previous_ended_with_cr)),
        *final(previous_ended_with_cr) == ends_with_cr(bytes@, *old(previous_ended_with_cr)),
{
    let mut normalized_bytes: Vec<u8> = Vec::new();
    let mut ended_with_cr = *previous_ended_with_cr;
    let ghost prev = *previous_ended_with_cr;
    let mut k: usize = 0;
    while k < bytes.len()
        invariant
            k <= bytes@.len(),
            normalized_bytes@ == normalized(bytes@.subrange(0, k as int), prev),
            ended_with_cr == ends_with_cr(bytes@.subrange(0, k as int), prev),
        decreases bytes.len() - k,
    {
        let byte = bytes[k];
        let ghost before = normalized_bytes@;
        if byte == 0x0a && !ended_with_cr {
            normalized_bytes.push(0x0d);
        }
        normalized_bytes.push(byte);
        ended_with_cr = byte == 0x0d;
        k += 1;
        proof {
            let pre = bytes@.subrange(0, k as int);
            assert(pre.drop_last() =~= bytes@.subrange(0, k - 1));
            assert(normalized_bytes@ =~= before + normalize_step(byte, ends_with_cr(pre.drop_last(), prev)));
        }
    }
    assert(bytes@.subrange(0, bytes@.len() as int) =~= bytes@);
    *previous_ended_with_cr = ended_with_cr;
    normalized_bytes
}

/// Carries the newline state of a captured output stream from chunk to chunk.
pub struct CapturedOutputNewlineNormalizer {
    pub previous_byte_was_carriage_return: bool,
}

impl CapturedOutputNewlineNormalizer {
    /// A normalizer at the start of a stream.
    pub fn new() -> (n: Self)
        ensures
            !n.previous_byte_was_carriage_return,
    {
        CapturedOutputNewlineNormalizer { previous_byte_was_carriage_return: false }
    }
}

/// Normalize the next chunk of a captured output stream.
pub fn normalize_captured_output_chunk(normalizer: &mut CapturedOutputNewlineNormalizer, bytes: &[u8]) -> (out: Vec<u8>)
    ensures
        out@ == normalized(bytes@, old(normalizer).previous_byte_was_carriage_return),
        final(normalizer).previous_byte_was_carriage_return == ends_with_cr(
            bytes@,
            old(normalizer).previous_byte_was_carriage_return,
        ),
{
    normalize_managed_output_newlines(bytes, &mut normalizer.previous_byte_was_carriage_return)
}

/// Splitting a stream into chunks does not change its normalized form: the
/// output for `a` followed by `b` is the output for `a`, then the output for `b`
/// continued from the state that `a` left.
pub proof fn lemma_normalize_chunks_compose(a: Seq<u8>, b: Seq<u8>, prev_cr: bool)
    ensures
        normalized(a + b, prev_cr) == normalized(a, prev_cr) + normalized(b, ends_with_cr(a, prev_cr)),
        ends_with_cr(a + b, prev_cr) == ends_with_cr(b, ends_with_cr(a, prev_cr)),
    decreases b.len(),
{
    if b.len() == 0 {
        assert(a + b =~= a);
        assert(normalized(a, prev_cr) + Seq::<u8>::empty() =~= normalized(a, prev_cr));
    } else {
        lemma_normalize_chunks_compose(a, b.drop_last(), prev_cr);
        assert((a + b).drop_last() =~= a + b.drop_last());
        assert((a + b).last() == b.last());
        let c = ends_with_cr(a, prev_cr);
        assert(ends_with_cr(a + b.drop_last(), prev_cr) == ends_with_cr(b.drop_last(), c)) by {
            if b.drop_last().len() == 0 {
                assert(a + b.drop_last() =~= a);
            }
        }
        assert(normalized(a + b, prev_cr) =~= normalized(a, prev_cr) + normalized(b, c));
    }
}

/// Every `\n` of the output is preceded by `\r`: the output never holds a
/// bare line feed, whatever the input and whatever the state before it, as
/// long as a `\n` at the very start is only allowed after a `\r`.
pub proof fn lemma_normalized_has_no_bare_lf(s: Seq<u8>, prev_cr: bool)
    ensures
        forall|i: int|
            0 < i < normalized(s, prev_cr).len() && #[trigger] normalized(s, prev_cr)[i] == 0x0au8
                ==> normalized(s, prev_cr)[i - 1] == 0x0du8,
        normalized(s, prev_cr).len() > 0 && normalized(s, prev_cr)[0] == 0x0au8 ==> prev_cr,
        s.len() > 0 ==> normalized(s, prev_cr).len() > 0 && normalized(s, prev_cr).last() == s.last(),
    decreases s.len(),
{
    if s.len() > 0 {
        lemma_normalized_has_no_bare_lf(s.drop_last(), prev_cr);
        let head = normalized(s.drop_last(), prev_cr);
        let step = normalize_step(s.last(), ends_with_cr(s.drop_last(), prev_cr));
        let all = normalized(s, prev_cr);
        assert(all =~= head + step);
        assert forall|i: int| 0 < i < all.len() && #[trigger] all[i] == 0x0au8 implies all[i - 1]
            == 0x0du8 by {
            if i < head.len() {
                assert(all[i] == head[i]);
                assert(all[i - 1] == head[i - 1]);
            } else if i == head.len() {
                assert(all[i] == step[0]);
                if s.last() == 0x0au8 && !ends_with_cr(s.drop_last(), prev_cr) {
                    assert(false);
                } else {
                    assert(ends_with_cr(s.drop_last(), prev_cr));
                    if s.drop_last().len() == 0 {
                        assert(head.len() == 0);
                    } else {
                        assert(all[i - 1] == head.last());
                    }
                }
            } else {
                assert(i == head.len() + 1);
            }
        }
    }
}

} // verus!
