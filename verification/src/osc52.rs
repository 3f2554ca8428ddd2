//! OSC 52 clipboard sequence extraction from PTY output.
//!
//! OSC 52 format: `ESC ] 52 ; <selection> ; <base64-data> BEL` or
//! `ESC ] 52 ; <selection> ; <base64-data> ESC \`.
//! A partial sequence that is cut by a read boundary is kept in a caller-owned
//! buffer and completed by the next chunk.
use vstd::prelude::*;

verus! {

/// A pending partial sequence is dropped once it grows past this many bytes.
pub const OSC_PENDING_LIMIT: usize = 100_000;

/// A terminator (BEL, or the two-byte ST `ESC \`) starts at `i`.
pub open spec fn is_osc_terminator_at(s: Seq<u8>, i: int) -> bool {
    0 <= i < s.len() && (s[i] == 0x07u8 || (s[i] == 0x1bu8 && i + 1 < s.len() && s[i + 1] == 0x5cu8))
}

/// Number of bytes of the terminator that starts at `i`.
pub open spec fn osc_terminator_width(s: Seq<u8>, i: int) -> int {
    if s[i] == 0x07u8 { 1 } else { 2 }
}

/// The first terminator at or after `i`.
pub open spec fn first_osc_terminator_from(s: Seq<u8>, i: int) -> Option<int>
    decreases s.len() - i,
{
    if i < 0 || i >= s.len() {
        None
    } else if is_osc_terminator_at(s, i) {
        Some(i)
    } else {
        first_osc_terminator_from(s, i + 1)
    }
}

/// Position just after the first terminator of `s`, if any.
pub open spec fn spec_osc_end(s: Seq<u8>) -> Option<int> {
    match first_osc_terminator_from(s, 0) {
        Some(i) => Some(i + osc_terminator_width(s, i)),
        None => None,
    }
}

/// The first terminator at or after `i` is at `t`, and nothing between `i` and `t` is one.
pub proof fn lemma_first_osc_terminator(s: Seq<u8>, i: int)
    requires
        0 <= i,
    ensures
        match first_osc_terminator_from(s, i) {
            Some(t) => i <= t < s.len() && is_osc_terminator_at(s, t) && forall|j: int|
                i <= j < t ==> !#[trigger] is_osc_terminator_at(s, j),
            None => forall|j: int| i <= j ==> !#[trigger] is_osc_terminator_at(s, j),
        },
    decreases s.len() - i,
{
    if i < s.len() && !is_osc_terminator_at(s, i) {
        lemma_first_osc_terminator(s, i + 1);
    }
}

/// An OSC 52 introducer `ESC ] 5 2 ;` starts at `i`.
pub open spec fn osc52_start_at(s: Seq<u8>, i: int) -> bool {
    0 <= i && i + 5 <= s.len() && s[i] == 0x1bu8 && s[i + 1] == 0x5du8 && s[i + 2] == 0x35u8
        && s[i + 3] == 0x32u8 && s[i + 4] == 0x3bu8
}

/// Scanning `s` from `i` on: the complete OSC 52 sequences found, and the
/// unterminated sequence left at the end (empty if none).
pub open spec fn scan_osc52_from(s: Seq<u8>, i: int) -> (Seq<Seq<u8>>, Seq<u8>)
    decreases s.len() - i,
{
    if i < 0 || i >= s.len() {
        (Seq::empty(), Seq::empty())
    } else if osc52_start_at(s, i) {
        match spec_osc_end(s.subrange(i, s.len() as int)) {
            Some(off) => if 0 < off <= s.len() - i {
                let rest = scan_osc52_from(s, i + off);
                (seq![s.subrange(i, i + off)] + rest.0, rest.1)
            } else {
                (Seq::empty(), Seq::empty())
            },
            None => (Seq::empty(), s.subrange(i, s.len() as int)),
        }
    } else {
        scan_osc52_from(s, i + 1)
    }
}

/// The forwarded sequences and the new pending buffer after one chunk `data`
/// arrives while `pending` holds an unterminated sequence.
pub open spec fn spec_collect_osc52(data: Seq<u8>, pending: Seq<u8>) -> (Seq<Seq<u8>>, Seq<u8>) {
    if pending.len() == 0 {
        scan_osc52_from(data, 0)
    } else {
        let joined = pending + data;
        match spec_osc_end(joined) {
            Some(end) => {
                let rest = scan_osc52_from(joined.subrange(end, joined.len() as int), 0);
                (seq![joined.subrange(0, end)] + rest.0, rest.1)
            },
            None => (Seq::empty(), if joined.len() > OSC_PENDING_LIMIT { Seq::empty() } else { joined }),
        }
    }
}

/// The contents of each vector of `v`.
pub open spec fn byte_rows(v: Seq<Vec<u8>>) -> Seq<Seq<u8>> {
    v.map_values(|x: Vec<u8>| x@)
}

/// Find the end of an OSC sequence (after BEL or ST terminator), returning
/// the byte position after the terminator.
pub fn find_osc_end(data: &[u8]) -> (r: Option<usize>)
    ensures
        r matches Some(e) ==> spec_osc_end(data@) == Some(e as int),
        r is None ==> spec_osc_end(data@) is None,
        match r {
            Some(e) => exists|t: int|
                #![trigger is_osc_terminator_at(data@, t)]
                0 <= t < data@.len() && is_osc_terminator_at(data@, t) && e == t
                    + osc_terminator_width(data@, t) && forall|j: int|
                    0 <= j < t ==> !#[trigger] is_osc_terminator_at(data@, j),
            None => forall|j: int| !#[trigger] is_osc_terminator_at(data@, j),
        },
{
    proof {
        lemma_first_osc_terminator(data@, 0);
    }
    let mut byte_idx: usize = 0;
    while byte_idx < data.len()
        invariant
            byte_idx <= data@.len(),
            forall|j: int| 0 <= j < byte_idx ==> !#[trigger] is_osc_terminator_at(data@, j),
            first_osc_terminator_from(data@, 0) == first_osc_terminator_from(data@, byte_idx as int),
        decreases data.len() - byte_idx,
    {
        if data[byte_idx] == 0x07 {
            assert(is_osc_terminator_at(data@, byte_idx as int));
            return Some(byte_idx + 1);
        }
        if data[byte_idx] == 0x1b && byte_idx + 1 < data.len() && data[byte_idx + 1] == 0x5c {
            assert(is_osc_terminator_at(data@, byte_idx as int));
            return Some(byte_idx + 2);
        }
        byte_idx += 1;
    }
    None
}

/// Append `src[from..to]` to `dst`.
fn push_range(dst: &mut Vec<u8>, src: &[u8], from: usize, to: usize)
    requires
        from <= to <= src@.len(),
    ensures
        final(dst)@ == old(dst)@ + src@.subrange(from as int, to as int),
{
    let mut k = from;
    while k < to
        invariant
            from <= k <= to <= src@.len(),
            dst@ == old(dst)@ + src@.subrange(from as int, k as int),
        decreases to - k,
    {
        dst.push(src[k]);
        k += 1;
        assert(src@.subrange(from as int, k as int) == src@.subrange(from as int, k - 1)
            + seq![src@[k - 1]]);
    }
}

/// The bytes `src[from..to]` as a new vector.
fn copy_range(src: &[u8], from: usize, to: usize) -> (out: Vec<u8>)
    requires
        from <= to <= src@.len(),
    ensures
        out@ == src@.subrange(from as int, to as int),
{
    let mut out: Vec<u8> = Vec::new();
    push_range(&mut out, src, from, to);
    out
}

/// Whether `ESC ] 5 2 ;` starts at `i`.
fn starts_osc52(input: &[u8], i: usize) -> (r: bool)
    requires
        i <= input@.len(),
    ensures
        r == osc52_start_at(input@, i as int),
{
    input.len() - i >= 5 && input[i] == 0x1b && input[i + 1] == 0x5d && input[i + 2] == 0x35
        && input[i + 3] == 0x32 && input[i + 4] == 0x3b
}

proof fn lemma_osc_end_positive(s: Seq<u8>)
    ensures
        spec_osc_end(s) matches Some(e) ==> 0 < e <= s.len(),
{
    lemma_first_osc_terminator(s, 0);
}

/// Scan `input` for complete OSC 52 sequences; an unterminated trailing one is
/// stored in `osc_buf`, which is empty on entry.
fn scan_osc52(input: &[u8], forwarded: &mut Vec<Vec<u8>>, osc_buf: &mut Vec<u8>)
    requires
        old(osc_buf)@.len() == 0,
    ensures
        byte_rows(final(forwarded)@) == byte_rows(old(forwarded)@) + scan_osc52_from(input@, 0).0,
        final(osc_buf)@ == scan_osc52_from(input@, 0).1,
{
    let mut scan_idx: usize = 0;
    while scan_idx < input.len()
        invariant
            scan_idx <= input@.len(),
            osc_buf@.len() == 0,
            byte_rows(forwarded@) + scan_osc52_from(input@, scan_idx as int).0 == byte_rows(
                old(forwarded)@,
            ) + scan_osc52_from(input@, 0).0,
            scan_osc52_from(input@, scan_idx as int).1 == scan_osc52_from(input@, 0).1,
        decreases input.len() - scan_idx,
    {
        if starts_osc52(input, scan_idx) {
            let seq_start = scan_idx;
            let tail = vstd::slice::slice_subrange(input, seq_start, input.len());
            proof {
                lemma_osc_end_positive(tail@);
            }
            match find_osc_end(tail) {
                Some(end_offset) => {
                    let piece = copy_range(input, seq_start, seq_start + end_offset);
                    let ghost before = byte_rows(forwarded@);
                    forwarded.push(piece);
                    assert(byte_rows(forwarded@) == before.push(piece@));
                    assert(scan_osc52_from(input@, seq_start as int).0 == seq![piece@]
                        + scan_osc52_from(input@, (seq_start + end_offset) as int).0);
                    assert(before.push(piece@) + scan_osc52_from(
                        input@,
                        (seq_start + end_offset) as int,
                    ).0 == before + (seq![piece@] + scan_osc52_from(
                        input@,
                        (seq_start + end_offset) as int,
                    ).0));
                    scan_idx = seq_start + end_offset;
                },
                None => {
                    push_range(osc_buf, input, seq_start, input.len());
                    assert(scan_osc52_from(input@, seq_start as int).0 == Seq::<Seq<u8>>::empty());
                    assert(byte_rows(forwarded@) + Seq::<Seq<u8>>::empty()
                        == byte_rows(forwarded@));
                    return ;
                },
            }
        } else {
            scan_idx += 1;
        }
    }
    assert(byte_rows(forwarded@) + Seq::<Seq<u8>>::empty() == byte_rows(forwarded@));
}

/// Collect the complete OSC 52 sequences of one chunk of PTY output.
/// `osc_buf` carries an unterminated sequence from one chunk to the next;
/// a pending sequence longer than [`OSC_PENDING_LIMIT`] is dropped.
pub fn collect_osc52_sequences(data: &[u8], osc_buf: &mut Vec<u8>) -> (forwarded: Vec<Vec<u8>>)
    ensures
        (byte_rows(forwarded@), final(osc_buf)@) == spec_collect_osc52(data@, old(osc_buf)@),
        pending_ok(old(osc_buf)@) ==> pending_ok(final(osc_buf)@),
{
    proof {
        if pending_ok(old(osc_buf)@) {
            lemma_pending_stays_unterminated(data@, old(osc_buf)@);
        }
    }
    let mut forwarded: Vec<Vec<u8>> = Vec::new();
    if osc_buf.len() == 0 {
        scan_osc52(data, &mut forwarded, osc_buf);
        assert(Seq::<Seq<u8>>::empty() + scan_osc52_from(data@, 0).0 == scan_osc52_from(
            data@,
            0,
        ).0);
        return forwarded;
    }
    push_range(osc_buf, data, 0, data.len());
    assert(data@.subrange(0, data@.len() as int) == data@);
    proof {
        lemma_osc_end_positive(osc_buf@);
    }
    match find_osc_end(osc_buf.as_slice()) {
        Some(end) => {
            let joined = osc_buf.as_slice();
            let piece = copy_range(joined, 0, end);
            let rest = copy_range(joined, end, joined.len());
            forwarded.push(piece);
            osc_buf.clear();
            let ghost before = byte_rows(forwarded@);
            assert(before == seq![piece@]);
            scan_osc52(rest.as_slice(), &mut forwarded, osc_buf);
            forwarded
        },
        None => {
            if osc_buf.len() > OSC_PENDING_LIMIT {
                osc_buf.clear();
            }
            forwarded
        },
    }
}

/// A terminator found in `x` is found at the same place in `x + y`.
proof fn lemma_terminator_in_prefix(x: Seq<u8>, y: Seq<u8>, j: int)
    requires
        0 <= j,
        first_osc_terminator_from(x, j) is Some,
    ensures
        first_osc_terminator_from(x + y, j) == first_osc_terminator_from(x, j),
    decreases x.len() - j,
{
    let s = x + y;
    if j < x.len() {
        assert(s[j] == x[j]);
        if j + 1 < x.len() {
            assert(s[j + 1] == x[j + 1]);
        }
        if !is_osc_terminator_at(x, j) {
            if j + 1 >= x.len() {
                assert(first_osc_terminator_from(x, j + 1) is None);
            }
            lemma_terminator_in_prefix(x, y, j + 1);
        }
    }
}

/// The end of the first OSC sequence of `x` is also that of `x + y`.
proof fn lemma_osc_end_in_prefix(x: Seq<u8>, y: Seq<u8>)
    requires
        spec_osc_end(x) is Some,
    ensures
        spec_osc_end(x + y) == spec_osc_end(x),
{
    lemma_terminator_in_prefix(x, y, 0);
    lemma_first_osc_terminator(x, 0);
    let t = first_osc_terminator_from(x, 0)->0;
    assert((x + y)[t] == x[t]);
}

/// Scanning `s` from `k + j` is scanning the suffix of `s` from `k` on,
/// from `j`.
proof fn lemma_scan_shift(s: Seq<u8>, k: int, j: int)
    requires
        0 <= k <= s.len(),
        0 <= j,
    ensures
        scan_osc52_from(s, k + j) == scan_osc52_from(s.subrange(k, s.len() as int), j),
    decreases s.len() - (k + j),
{
    let t = s.subrange(k, s.len() as int);
    if k + j < s.len() {
        assert(osc52_start_at(s, k + j) == osc52_start_at(t, j)) by {
            if k + j + 5 <= s.len() {
                assert(s[k + j] == t[j] && s[k + j + 1] == t[j + 1] && s[k + j + 2] == t[j + 2]
                    && s[k + j + 3] == t[j + 3] && s[k + j + 4] == t[j + 4]);
            }
        }
        assert(s.subrange(k + j, s.len() as int) =~= t.subrange(j, t.len() as int));
        if osc52_start_at(s, k + j) {
            match spec_osc_end(s.subrange(k + j, s.len() as int)) {
                Some(off) => {
                    if 0 < off <= s.len() - (k + j) {
                        assert(s.subrange(k + j, k + j + off) =~= t.subrange(j, j + off));
                        lemma_scan_shift(s, k, j + off);
                    }
                },
                None => {},
            }
        } else {
            lemma_scan_shift(s, k, j + 1);
        }
    }
}

/// No OSC 52 introducer of `a + b` straddles the end of `a`.
pub open spec fn no_introducer_across(a: Seq<u8>, b: Seq<u8>) -> bool {
    forall|j: int| j < a.len() < j + 5 ==> !#[trigger] osc52_start_at(a + b, j)
}

/// Scanning `a` from `i`, against scanning `a + b` from `i`: the sequences
/// complete in `a` come first; then either `a` was scanned to its end, or an
/// unterminated sequence of `a` starts at some `k` and is what `a` leaves
/// pending.
proof fn lemma_scan_prefix(a: Seq<u8>, b: Seq<u8>, i: int)
    requires
        0 <= i <= a.len(),
        no_introducer_across(a, b),
    ensures
        ({
            let s = a + b;
            let (sa, pa) = scan_osc52_from(a, i);
            &&& pa.len() == 0 ==> scan_osc52_from(s, i) == (sa + scan_osc52_from(s, a.len() as int).0, scan_osc52_from(s, a.len() as int).1)
            &&& pa.len() > 0 ==> exists|k: int| #![trigger osc52_start_at(s, k)]
                i <= k < a.len() && pa == a.subrange(k, a.len() as int) && osc52_start_at(s, k)
                && spec_osc_end(a.subrange(k, a.len() as int)) is None
                && scan_osc52_from(s, i) == (sa + scan_osc52_from(s, k).0, scan_osc52_from(s, k).1)
        }),
    decreases a.len() - i,
{
    let s = a + b;
    if i < a.len() {
        if osc52_start_at(a, i) {
            assert(osc52_start_at(s, i)) by {
                assert(s[i] == a[i] && s[i + 1] == a[i + 1] && s[i + 2] == a[i + 2] && s[i + 3] == a[i + 3] && s[i + 4] == a[i + 4]);
            }
            let ai = a.subrange(i, a.len() as int);
            assert(s.subrange(i, s.len() as int) =~= ai + b);
            lemma_osc_end_positive(ai);
            match spec_osc_end(ai) {
                Some(off) => {
                    lemma_osc_end_in_prefix(ai, b);
                    assert(s.subrange(i, i + off) =~= a.subrange(i, i + off));
                    lemma_scan_prefix(a, b, i + off);
                    let (sa, pa) = scan_osc52_from(a, i);
                    let (sa2, pa2) = scan_osc52_from(a, i + off);
                    assert(sa == seq![a.subrange(i, i + off)] + sa2);
                    if pa.len() == 0 {
                        assert(sa + scan_osc52_from(s, a.len() as int).0 =~= seq![a.subrange(i, i + off)] + (sa2 + scan_osc52_from(s, a.len() as int).0));
                    } else {
                        let k = choose|k: int| #![trigger osc52_start_at(s, k)]
                            i + off <= k < a.len() && pa2 == a.subrange(k, a.len() as int) && osc52_start_at(s, k)
                            && spec_osc_end(a.subrange(k, a.len() as int)) is None
                            && scan_osc52_from(s, i + off) == (sa2 + scan_osc52_from(s, k).0, scan_osc52_from(s, k).1);
                        assert(sa + scan_osc52_from(s, k).0 =~= seq![a.subrange(i, i + off)] + (sa2 + scan_osc52_from(s, k).0));
                    }
                },
                None => {
                    assert(Seq::<Seq<u8>>::empty() + scan_osc52_from(s, i).0 =~= scan_osc52_from(s, i).0);
                },
            }
        } else {
            assert(!osc52_start_at(s, i)) by {
                if i + 5 <= a.len() {
                    assert(s[i] == a[i] && s[i + 1] == a[i + 1] && s[i + 2] == a[i + 2] && s[i + 3] == a[i + 3] && s[i + 4] == a[i + 4]);
                }
            }
            lemma_scan_prefix(a, b, i + 1);
        }
    } else {
        assert(Seq::<Seq<u8>>::empty() + scan_osc52_from(s, i).0 =~= scan_osc52_from(s, i).0);
    }
}

/// Splitting the PTY output across two reads changes nothing: starting with
/// no pending sequence, collecting `a` and then `b` forwards the same
/// sequences, and leaves the same pending bytes, as collecting `a + b` at
/// once, provided no introducer is cut by the split and the output stays
/// within the pending limit.
pub proof fn lemma_osc52_split_reads(a: Seq<u8>, b: Seq<u8>)
    requires
        no_introducer_across(a, b),
        a.len() + b.len() <= OSC_PENDING_LIMIT,
    ensures
        ({
            let r1 = spec_collect_osc52(a, Seq::empty());
            let r2 = spec_collect_osc52(b, r1.1);
            let whole = spec_collect_osc52(a + b, Seq::empty());
            r1.0 + r2.0 == whole.0 && r2.1 == whole.1
        }),
{
    let s = a + b;
    lemma_scan_prefix(a, b, 0);
    let (sa, pa) = scan_osc52_from(a, 0);
    assert(s.subrange(a.len() as int, s.len() as int) =~= b);
    if pa.len() == 0 {
        lemma_scan_shift(s, a.len() as int, 0);
    } else {
        let k = choose|k: int| #![trigger osc52_start_at(s, k)]
            0 <= k < a.len() && pa == a.subrange(k, a.len() as int) && osc52_start_at(s, k)
            && spec_osc_end(a.subrange(k, a.len() as int)) is None
            && scan_osc52_from(s, 0) == (sa + scan_osc52_from(s, k).0, scan_osc52_from(s, k).1);
        let joined = pa + b;
        assert(joined =~= s.subrange(k, s.len() as int));
        lemma_osc_end_positive(joined);
        match spec_osc_end(joined) {
            Some(end) => {
                assert(joined.subrange(0, end) =~= s.subrange(k, k + end));
                assert(joined.subrange(end, joined.len() as int) =~= s.subrange(k + end, s.len() as int));
                lemma_scan_shift(s, k + end, 0);
                let tail = scan_osc52_from(s, k + end);
                assert(sa + (seq![s.subrange(k, k + end)] + tail.0) =~= sa + scan_osc52_from(s, k).0);
            },
            None => {
                assert(sa + Seq::<Seq<u8>>::empty() =~= sa);
            },
        }
    }
}

/// What may be pending between reads: nothing, or one OSC 52 sequence that
/// is not yet terminated.
pub open spec fn pending_ok(p: Seq<u8>) -> bool {
    p.len() == 0 || (osc52_start_at(p, 0) && spec_osc_end(p) is None)
}

/// Scanning leaves at most one unterminated OSC 52 sequence pending.
proof fn lemma_scan_pending_ok(s: Seq<u8>, i: int)
    ensures
        pending_ok(scan_osc52_from(s, i).1),
    decreases s.len() - i,
{
    if 0 <= i < s.len() {
        if osc52_start_at(s, i) {
            let t = s.subrange(i, s.len() as int);
            match spec_osc_end(t) {
                Some(off) => {
                    if 0 < off <= s.len() - i {
                        lemma_scan_pending_ok(s, i + off);
                    }
                },
                None => {
                    assert(t[0] == s[i] && t[1] == s[i + 1] && t[2] == s[i + 2] && t[3] == s[i + 3] && t[4] == s[i + 4]);
                },
            }
        } else {
            lemma_scan_pending_ok(s, i + 1);
        }
    }
}

/// The pending buffer only ever holds one unterminated OSC 52 sequence:
/// if it held nothing or such a sequence before a chunk is collected, it
/// holds nothing or such a sequence after, never a complete sequence.
pub proof fn lemma_pending_stays_unterminated(data: Seq<u8>, pending: Seq<u8>)
    requires
        pending_ok(pending),
    ensures
        pending_ok(spec_collect_osc52(data, pending).1),
{
    if pending.len() == 0 {
        lemma_scan_pending_ok(data, 0);
    } else {
        let joined = pending + data;
        match spec_osc_end(joined) {
            Some(end) => {
                lemma_scan_pending_ok(joined.subrange(end, joined.len() as int), 0);
            },
            None => {
                assert(joined[0] == pending[0] && joined[1] == pending[1] && joined[2] == pending[2]
                    && joined[3] == pending[3] && joined[4] == pending[4]);
            },
        }
    }
}

} // verus!
