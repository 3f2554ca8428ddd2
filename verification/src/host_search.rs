//! Fuzzy search and host filtering scores.
//!
//! A query first tries strict contiguous matching against each host's name,
//! hostname and user; only when no host matches strictly does it fall back to
//! fuzzy (subsequence) matching.
use std::collections::HashMap;
use vstd::prelude::*;
use vstd::string::StringSliceAdditionalSpecFns;
use vstd::utf8::*;

verus! {

broadcast use vstd::std_specs::hash::group_hash_axioms;

/// Lower-cased search keys of one host.
#[derive(Debug)]
pub struct HostSearchEntry {
    pub name_lower: String,
    pub hostname_lower: Option<String>,
    pub user_lower: Option<String>,
}

/// Longest searched text, in bytes, whose match positions and strict
/// scores, with the largest field bonus added, fit in `i32`.
pub const MAX_TEXT_BYTES: usize = 2_147_482_347;

/// Greedy subsequence score of `pat` in `text`: each matched character scores
/// one plus the length of the run of consecutive matches before it.
pub open spec fn fuzzy_score(text: Seq<char>, pat: Seq<char>, consecutive: int) -> Option<int>
    decreases text.len(),
{
    if pat.len() == 0 {
        Some(0)
    } else if text.len() == 0 {
        None
    } else if text[0] == pat[0] {
        match fuzzy_score(text.drop_first(), pat.drop_first(), consecutive + 1) {
            Some(s) => Some(s + 1 + consecutive),
            None => None,
        }
    } else {
        fuzzy_score(text.drop_first(), pat, 0)
    }
}

/// The fuzzy score of `pattern` in `text`.
pub open spec fn spec_fuzzy_match(text: Seq<char>, pattern: Seq<char>) -> Option<int> {
    fuzzy_score(text, pattern, 0)
}

/// The score that greedy fuzzy matching of `pat` in `text` has added up
/// when it stops, whether it matched the whole pattern or ran out of text.
/// The score only grows along the way, so the scoring stays within `i32`
/// exactly when this total does.
pub open spec fn fuzzy_partial(text: Seq<char>, pat: Seq<char>, consecutive: int) -> int
    decreases text.len(),
{
    if pat.len() == 0 || text.len() == 0 {
        0
    } else if text[0] == pat[0] {
        1 + consecutive + fuzzy_partial(text.drop_first(), pat.drop_first(), consecutive + 1)
    } else {
        fuzzy_partial(text.drop_first(), pat, 0)
    }
}

/// Fuzzy scoring of `pat` in `text` stays within `i32`, the field's
/// `bonus` added to a match included.
pub open spec fn fuzzy_fits(text: Seq<char>, pat: Seq<char>, bonus: int) -> bool {
    match spec_fuzzy_match(text, pat) {
        Some(s) => s + bonus <= i32::MAX,
        None => fuzzy_partial(text, pat, 0) <= i32::MAX,
    }
}

/// `idx` places each character of `pat` in `text`, at increasing positions.
pub open spec fn embeds(idx: Seq<int>, pat: Seq<char>, text: Seq<char>) -> bool {
    &&& idx.len() == pat.len()
    &&& forall|k: int| 0 <= k < idx.len() ==> 0 <= #[trigger] idx[k] < text.len() && text[idx[k]] == pat[k]
    &&& forall|a: int, b: int| 0 <= a < b < idx.len() ==> #[trigger] idx[a] < #[trigger] idx[b]
}

/// `pat` is a subsequence of `text`.
pub open spec fn is_subsequence(pat: Seq<char>, text: Seq<char>) -> bool {
    exists|idx: Seq<int>| embeds(idx, pat, text)
}

proof fn lemma_embed_shift_up(idx: Seq<int>, pat: Seq<char>, text: Seq<char>)
    requires
        embeds(idx, pat, text.drop_first()),
        text.len() > 0,
    ensures
        embeds(idx.map_values(|v: int| v + 1), pat, text),
{
    let up = idx.map_values(|v: int| v + 1);
    assert forall|k: int| 0 <= k < up.len() implies 0 <= #[trigger] up[k] < text.len() && text[up[k]] == pat[k] by {
        assert(text.drop_first()[idx[k]] == text[idx[k] + 1]);
    }
    assert forall|a: int, b: int| 0 <= a < b < up.len() implies #[trigger] up[a] < #[trigger] up[b] by {
        assert(idx[a] < idx[b]);
    }
}

proof fn lemma_embed_shift_down(idx: Seq<int>, pat: Seq<char>, text: Seq<char>)
    requires
        embeds(idx, pat, text),
        forall|k: int| 0 <= k < idx.len() ==> #[trigger] idx[k] >= 1,
    ensures
        embeds(idx.map_values(|v: int| v - 1), pat, text.drop_first()),
{
    let down = idx.map_values(|v: int| v - 1);
    assert forall|k: int| 0 <= k < down.len() implies 0 <= #[trigger] down[k] < text.drop_first().len()
        && text.drop_first()[down[k]] == pat[k] by {
        assert(idx[k] >= 1);
    }
    assert forall|a: int, b: int| 0 <= a < b < down.len() implies #[trigger] down[a] < #[trigger] down[b] by {
        assert(idx[a] < idx[b]);
    }
}

/// Greedy fuzzy matching succeeds exactly when the pattern is a
/// subsequence of the text, and a match scores at least one per pattern
/// character.
pub proof fn lemma_fuzzy_match_is_subsequence(text: Seq<char>, pat: Seq<char>, consecutive: int)
    requires
        consecutive >= 0,
    ensures
        fuzzy_score(text, pat, consecutive) is Some <==> is_subsequence(pat, text),
        fuzzy_score(text, pat, consecutive) matches Some(v) ==> v >= pat.len(),
    decreases text.len(),
{
    if pat.len() == 0 {
        assert(embeds(Seq::<int>::empty(), pat, text));
    } else if text.len() == 0 {
        if is_subsequence(pat, text) {
            let idx = choose|idx: Seq<int>| embeds(idx, pat, text);
            assert(0 <= idx[0] < text.len());
        }
    } else if text[0] == pat[0] {
        let rest_t = text.drop_first();
        let rest_p = pat.drop_first();
        lemma_fuzzy_match_is_subsequence(rest_t, rest_p, consecutive + 1);
        if is_subsequence(rest_p, rest_t) {
            let idx = choose|idx: Seq<int>| embeds(idx, rest_p, rest_t);
            lemma_embed_shift_up(idx, rest_p, text);
            let up = idx.map_values(|v: int| v + 1);
            let full = seq![0int] + up;
            assert forall|k: int| 0 <= k < full.len() implies 0 <= #[trigger] full[k] < text.len() && text[full[k]] == pat[k] by {
                if k > 0 {
                    assert(full[k] == up[k - 1]);
                    assert(pat[k] == rest_p[k - 1]);
                }
            }
            assert forall|a: int, b: int| 0 <= a < b < full.len() implies #[trigger] full[a] < #[trigger] full[b] by {
                if a > 0 {
                    assert(full[a] == up[a - 1] && full[b] == up[b - 1]);
                } else {
                    assert(full[b] == up[b - 1]);
                    assert(up[b - 1] == idx[b - 1] + 1);
                }
            }
            assert(embeds(full, pat, text));
        }
        if is_subsequence(pat, text) {
            let idx = choose|idx: Seq<int>| embeds(idx, pat, text);
            let tail = idx.subrange(1, idx.len() as int);
            assert forall|k: int| 0 <= k < tail.len() implies #[trigger] tail[k] >= 1 by {
                assert(tail[k] == idx[k + 1]);
                assert(idx[0] < idx[k + 1]);
            }
            assert(embeds(tail, rest_p, text)) by {
                assert forall|k: int| 0 <= k < tail.len() implies 0 <= #[trigger] tail[k] < text.len() && text[tail[k]] == rest_p[k] by {
                    assert(tail[k] == idx[k + 1]);
                }
                assert forall|a: int, b: int| 0 <= a < b < tail.len() implies #[trigger] tail[a] < #[trigger] tail[b] by {
                    assert(tail[a] == idx[a + 1] && tail[b] == idx[b + 1]);
                }
            }
            lemma_embed_shift_down(tail, rest_p, text);
        }
    } else {
        let rest_t = text.drop_first();
        lemma_fuzzy_match_is_subsequence(rest_t, pat, 0);
        if is_subsequence(pat, rest_t) {
            let idx = choose|idx: Seq<int>| embeds(idx, pat, rest_t);
            lemma_embed_shift_up(idx, pat, text);
        }
        if is_subsequence(pat, text) {
            let idx = choose|idx: Seq<int>| embeds(idx, pat, text);
            assert forall|k: int| 0 <= k < idx.len() implies #[trigger] idx[k] >= 1 by {
                if k > 0 {
                    assert(idx[0] < idx[k]);
                }
                assert(idx[0] != 0);
            }
            lemma_embed_shift_down(idx, pat, text);
        }
    }
}

/// The fuzzy match law: the empty pattern matches any text with score
/// zero; a pattern matches exactly when it is a subsequence of the text;
/// a match scores at least the pattern's length.
pub proof fn lemma_fuzzy_match_law(text: Seq<char>, pat: Seq<char>)
    ensures
        spec_fuzzy_match(text, Seq::<char>::empty()) == Some(0int),
        spec_fuzzy_match(text, pat) is Some <==> is_subsequence(pat, text),
        spec_fuzzy_match(text, pat) matches Some(v) ==> v >= pat.len(),
{
    lemma_fuzzy_match_is_subsequence(text, pat, 0);
}

/// A partial fuzzy score is never negative.
proof fn lemma_fuzzy_partial_nonneg(text: Seq<char>, pat: Seq<char>, consecutive: int)
    requires
        consecutive >= 0,
    ensures
        fuzzy_partial(text, pat, consecutive) >= 0,
    decreases text.len(),
{
    if pat.len() > 0 && text.len() > 0 {
        if text[0] == pat[0] {
            lemma_fuzzy_partial_nonneg(text.drop_first(), pat.drop_first(), consecutive + 1);
        } else {
            lemma_fuzzy_partial_nonneg(text.drop_first(), pat, 0);
        }
    }
}

/// A completed fuzzy match scores exactly the partial total.
proof fn lemma_fuzzy_score_is_partial(text: Seq<char>, pat: Seq<char>, consecutive: int)
    ensures
        fuzzy_score(text, pat, consecutive) matches Some(v) ==> v == fuzzy_partial(text, pat, consecutive),
    decreases text.len(),
{
    if pat.len() > 0 && text.len() > 0 {
        if text[0] == pat[0] {
            lemma_fuzzy_score_is_partial(text.drop_first(), pat.drop_first(), consecutive + 1);
        } else {
            lemma_fuzzy_score_is_partial(text.drop_first(), pat, 0);
        }
    }
}

/// `pat` occurs in `text` at byte position `i`.
pub open spec fn occurs_at(text: Seq<u8>, pat: Seq<u8>, i: int) -> bool {
    0 <= i && i + pat.len() <= text.len() && text.subrange(i, i + pat.len()) == pat
}

/// The first position at or after `i` where `pat` occurs in `text`.
pub open spec fn find_from(text: Seq<u8>, pat: Seq<u8>, i: int) -> Option<int>
    decreases text.len() - i,
{
    if i < 0 || i + pat.len() > text.len() {
        None
    } else if occurs_at(text, pat, i) {
        Some(i)
    } else if i < text.len() {
        find_from(text, pat, i + 1)
    } else {
        None
    }
}

/// Strict score: 300 plus the pattern length for a prefix match, otherwise
/// 200 minus the match position (at least 1). Positions and lengths count
/// UTF-8 bytes.
pub open spec fn spec_strict_match_score(text: Seq<char>, pattern: Seq<char>) -> Option<int> {
    let t = encode_utf8(text);
    let p = encode_utf8(pattern);
    match find_from(t, p, 0) {
        Some(pos) => Some(
            if pos == 0 {
                300 + p.len() as int
            } else if 200 - pos >= 1 {
                200 - pos
            } else {
                1
            },
        ),
        None => None,
    }
}

/// Fold a candidate score with a bonus into the best score so far.
pub open spec fn combine_score(best: Option<int>, cand: Option<int>, bonus: int) -> Option<int> {
    match cand {
        Some(s) => Some(
            {
                let b = match best {
                    Some(v) => v,
                    None => 0,
                };
                if b >= s + bonus {
                    b
                } else {
                    s + bonus
                }
            },
        ),
        None => best,
    }
}

pub open spec fn opt_view(s: Option<String>) -> Option<Seq<char>> {
    match s {
        Some(v) => Some(v@),
        None => None,
    }
}

pub open spec fn score_opt(
    f: spec_fn(Seq<char>, Seq<char>) -> Option<int>,
    text: Option<Seq<char>>,
    q: Seq<char>,
) -> Option<int> {
    match text {
        Some(t) => f(t, q),
        None => None,
    }
}

/// Best strict score of one host: name +1000, hostname +500, user +300.
pub open spec fn strict_entry_score(e: HostSearchEntry, q: Seq<char>) -> Option<int> {
    let f = |t: Seq<char>, p: Seq<char>| spec_strict_match_score(t, p);
    combine_score(
        combine_score(
            combine_score(None, f(e.name_lower@, q), 1000),
            score_opt(f, opt_view(e.hostname_lower), q),
            500,
        ),
        score_opt(f, opt_view(e.user_lower), q),
        300,
    )
}

/// Best fuzzy score of one host: name +100, hostname +50, user +30.
pub open spec fn fuzzy_entry_score(e: HostSearchEntry, q: Seq<char>) -> Option<int> {
    let f = |t: Seq<char>, p: Seq<char>| spec_fuzzy_match(t, p);
    combine_score(
        combine_score(
            combine_score(None, f(e.name_lower@, q), 100),
            score_opt(f, opt_view(e.hostname_lower), q),
            50,
        ),
        score_opt(f, opt_view(e.user_lower), q),
        30,
    )
}

/// Scores of the entries `0..n` that `score` accepts, by index.
pub open spec fn scores_upto(
    entries: Seq<HostSearchEntry>,
    q: Seq<char>,
    strict: bool,
    n: int,
) -> Map<usize, i32> {
    Map::new(
        |i: usize|
            0 <= i < n && i < entries.len() && (if strict {
                strict_entry_score(entries[i as int], q)
            } else {
                fuzzy_entry_score(entries[i as int], q)
            }) is Some,
        |i: usize|
            (if strict {
                strict_entry_score(entries[i as int], q)
            } else {
                fuzzy_entry_score(entries[i as int], q)
            }).unwrap() as i32,
    )
}

/// The match scores of a query: strict scores when some host matches
/// strictly, fuzzy scores otherwise.
pub open spec fn spec_match_scores(entries: Seq<HostSearchEntry>, q: Seq<char>) -> Map<usize, i32> {
    let strict = scores_upto(entries, q, true, entries.len() as int);
    if !strict.dom().is_empty() {
        strict
    } else {
        scores_upto(entries, q, false, entries.len() as int)
    }
}

/// The characters of `s`.
pub fn chars_of(s: &str) -> (v: Vec<char>)
    ensures
        v@ == s@,
{
    let mut v: Vec<char> = Vec::new();
    for c in it: s.chars()
        invariant
            v@ == it.seq().subrange(0, it.index() as int),
    {
        v.push(c);
    }
    v
}


/// Shift an optional score by `d`.
pub open spec fn shift_score(o: Option<int>, d: int) -> Option<int> {
    match o {
        Some(s) => Some(s + d),
        None => None,
    }
}

/// A UTF-8 encoding is at least as long as the text it encodes.
pub proof fn lemma_encode_utf8_len(chars: Seq<char>)
    ensures
        chars.len() <= encode_utf8(chars).len(),
    decreases chars.len(),
{
    if chars.len() > 0 {
        lemma_encode_utf8_len(chars.drop_first());
    }
}

/// Fuzzy match scoring for host search.
///
/// Returns a score if `pattern_lower` fuzzy-matches against `text_lower`, or
/// `None` if there is no match. Consecutive character matches score higher.
pub fn fuzzy_match(text_lower: &str, pattern_lower: &str) -> (r: Option<i32>)
    requires
        fuzzy_partial(text_lower@, pattern_lower@, 0) <= i32::MAX,
    ensures
        match r {
            Some(v) => spec_fuzzy_match(text_lower@, pattern_lower@) == Some(v as int),
            None => spec_fuzzy_match(text_lower@, pattern_lower@) is None,
        },
        r matches Some(v) ==> 0 <= v,
{
    let text = chars_of(text_lower);
    let pattern = chars_of(pattern_lower);
    let ghost t = text@;
    let ghost p = pattern@;
    let ghost total = fuzzy_partial(t, p, 0);
    let mut ti: usize = 0;
    let mut pi: usize = 0;
    assert(t.skip(0) =~= t && p.skip(0) =~= p);
    let mut score: i32 = 0;
    let mut consecutive: i32 = 0;
    while pi < pattern.len() && ti < text.len()
        invariant
            t == text@,
            p == pattern@,
            ti <= t.len(),
            pi <= p.len(),
            0 <= consecutive <= score,
            total == fuzzy_partial(t, p, 0),
            total <= i32::MAX,
            total == score + fuzzy_partial(t.skip(ti as int), p.skip(pi as int), consecutive as int),
            fuzzy_score(t, p, 0) == shift_score(
                fuzzy_score(t.skip(ti as int), p.skip(pi as int), consecutive as int),
                score as int,
            ),
        decreases text.len() - ti,
    {
        let ghost ts = t.skip(ti as int);
        let ghost ps = p.skip(pi as int);
        assert(ts[0] == t[ti as int] && ps[0] == p[pi as int]);
        assert(ts.drop_first() =~= t.skip(ti + 1));
        assert(ps.drop_first() =~= p.skip(pi + 1));
        if text[ti] == pattern[pi] {
            proof {
                lemma_fuzzy_partial_nonneg(ts.drop_first(), ps.drop_first(), consecutive + 1);
            }
            score = score + 1 + consecutive;
            consecutive = consecutive + 1;
            pi = pi + 1;
        } else {
            consecutive = 0;
        }
        ti = ti + 1;
    }
    if pi < pattern.len() {
        assert(t.skip(ti as int).len() == 0);
        None
    } else {
        assert(p.skip(pi as int).len() == 0);
        Some(score)
    }
}

/// Whether fuzzy scoring of `pattern_lower` in `text_lower` stays within
/// `i32`, with `bonus` added to a match.
pub fn fuzzy_fits_i32(text_lower: &str, pattern_lower: &str, bonus: i32) -> (r: bool)
    requires
        0 <= bonus,
    ensures
        r == fuzzy_fits(text_lower@, pattern_lower@, bonus as int),
{
    let text = chars_of(text_lower);
    let pattern = chars_of(pattern_lower);
    let ghost t = text@;
    let ghost p = pattern@;
    let ghost total = fuzzy_partial(t, p, 0);
    proof {
        lemma_fuzzy_score_is_partial(t, p, 0);
    }
    let mut ti: usize = 0;
    let mut pi: usize = 0;
    assert(t.skip(0) =~= t && p.skip(0) =~= p);
    let mut score: i64 = 0;
    let mut consecutive: i64 = 0;
    while pi < pattern.len() && ti < text.len()
        invariant
            t == text_lower@,
            p == pattern_lower@,
            bonus >= 0,
            t == text@,
            p == pattern@,
            ti <= t.len(),
            pi <= p.len(),
            0 <= consecutive <= score <= i32::MAX,
            fuzzy_score(t, p, 0) matches Some(v) ==> v == total,
            total == fuzzy_partial(t, p, 0),
            total == score + fuzzy_partial(t.skip(ti as int), p.skip(pi as int), consecutive as int),
            fuzzy_score(t, p, 0) == shift_score(
                fuzzy_score(t.skip(ti as int), p.skip(pi as int), consecutive as int),
                score as int,
            ),
        decreases text.len() - ti,
    {
        let ghost ts = t.skip(ti as int);
        let ghost ps = p.skip(pi as int);
        assert(ts[0] == t[ti as int] && ps[0] == p[pi as int]);
        assert(ts.drop_first() =~= t.skip(ti + 1));
        assert(ps.drop_first() =~= p.skip(pi + 1));
        if text[ti] == pattern[pi] {
            proof {
                lemma_fuzzy_partial_nonneg(ts.drop_first(), ps.drop_first(), consecutive + 1);
            }
            score = score + 1 + consecutive;
            consecutive = consecutive + 1;
            pi = pi + 1;
            if score > 0x7fff_ffff {
                proof {
                    assert(fuzzy_partial(ts, ps, consecutive - 1) == consecutive
                        + fuzzy_partial(ts.drop_first(), ps.drop_first(), consecutive as int));
                    assert(total > i32::MAX);
                    match spec_fuzzy_match(t, p) {
                        Some(v) => assert(v == total),
                        None => {},
                    }
                }
                return false;
            }
        } else {
            consecutive = 0;
        }
        ti = ti + 1;
    }
    if pi < pattern.len() {
        assert(t.skip(ti as int).len() == 0);
        assert(spec_fuzzy_match(t, p) is None);
        true
    } else {
        assert(p.skip(pi as int).len() == 0);
        score + bonus as i64 <= 0x7fff_ffff
    }
}

/// The bytes of `pat` occur in `text` at position `i`.
fn bytes_occur_at(text: &[u8], pat: &[u8], i: usize) -> (r: bool)
    requires
        i + pat@.len() <= text@.len(),
    ensures
        r == occurs_at(text@, pat@, i as int),
{
    let mut k: usize = 0;
    assert(text@.len() == text.len());
    while k < pat.len()
        invariant
            k <= pat@.len(),
            text@.len() == text.len(),
            i + pat@.len() <= text@.len(),
            forall|j: int| 0 <= j < k ==> text@[i + j] == pat@[j],
        decreases pat.len() - k,
    {
        if text[i + k] != pat[k] {
            assert(text@.subrange(i as int, i + pat@.len())[k as int] != pat@[k as int]);
            return false;
        }
        k += 1;
    }
    assert(text@.subrange(i as int, i + pat@.len()) =~= pat@);
    true
}

/// Strict contiguous match scoring.
///
/// Higher score for prefix matches, then earlier substring positions.
pub fn strict_match_score(text_lower: &str, pattern_lower: &str) -> (r: Option<i32>)
    requires
        text_lower.spec_bytes().len() <= MAX_TEXT_BYTES,
    ensures
        match r {
            Some(v) => spec_strict_match_score(text_lower@, pattern_lower@) == Some(v as int),
            None => spec_strict_match_score(text_lower@, pattern_lower@) is None,
        },
        r matches Some(v) ==> 1 <= v <= 300 + MAX_TEXT_BYTES,
{
    let text = text_lower.as_bytes();
    let pat = pattern_lower.as_bytes();
    if pat.len() > text.len() {
        return None;
    }
    let mut i: usize = 0;
    let last = text.len() - pat.len();
    while i <= last
        invariant
            pat@.len() <= text@.len() <= MAX_TEXT_BYTES,
            last == text@.len() - pat@.len(),
            i <= last + 1,
            text@ == text_lower.spec_bytes(),
            pat@ == pattern_lower.spec_bytes(),
            find_from(text@, pat@, 0) == find_from(text@, pat@, i as int),
        decreases last + 1 - i,
    {
        if bytes_occur_at(text, pat, i) {
            if i == 0 {
                return Some(300 + pat.len() as i32);
            }
            let pos = i as i32;
            let score = 200 - pos;
            return Some(if score >= 1 { score } else { 1 });
        }
        i += 1;
    }
    assert(i + pat@.len() > text@.len());
    None
}

/// `find_from` finds the first occurrence at or after `i`.
proof fn lemma_find_from(text: Seq<u8>, pat: Seq<u8>, i: int)
    requires
        0 <= i,
    ensures
        find_from(text, pat, i) is Some <==> exists|j: int| j >= i && occurs_at(text, pat, j),
        find_from(text, pat, i) matches Some(k) ==> k >= i && occurs_at(text, pat, k),
    decreases text.len() - i,
{
    if i + pat.len() > text.len() {
        assert forall|j: int| j >= i implies !occurs_at(text, pat, j) by {}
    } else if occurs_at(text, pat, i) {
    } else if i < text.len() {
        lemma_find_from(text, pat, i + 1);
        assert forall|j: int| j >= i && occurs_at(text, pat, j) implies j >= i + 1 by {}
    } else {
        assert(pat.len() == 0);
        assert(occurs_at(text, pat, i)) by {
            assert(text.subrange(i, i) =~= pat);
        }
    }
}

/// The strict score orders matches as documented: a text scores exactly
/// when the pattern occurs in it (as UTF-8 bytes), every score is at least
/// one, a prefix match scores above any later match, and an earlier match
/// scores at least as high as a later one.
pub proof fn lemma_strict_score_order(t1: Seq<char>, t2: Seq<char>, p: Seq<char>)
    ensures
        spec_strict_match_score(t1, p) is Some <==> exists|j: int| occurs_at(encode_utf8(t1), encode_utf8(p), j),
        spec_strict_match_score(t1, p) matches Some(v) ==> v >= 1,
        (find_from(encode_utf8(t1), encode_utf8(p), 0) == Some(0int)
            && (find_from(encode_utf8(t2), encode_utf8(p), 0) matches Some(j) && j > 0))
            ==> spec_strict_match_score(t1, p).unwrap() > spec_strict_match_score(t2, p).unwrap(),
        ((find_from(encode_utf8(t1), encode_utf8(p), 0) matches Some(i)
            && (find_from(encode_utf8(t2), encode_utf8(p), 0) matches Some(j) && 0 < i <= j)))
            ==> spec_strict_match_score(t1, p).unwrap() >= spec_strict_match_score(t2, p).unwrap(),
{
    lemma_find_from(encode_utf8(t1), encode_utf8(p), 0);
    lemma_find_from(encode_utf8(t2), encode_utf8(p), 0);
    assert forall|j: int| occurs_at(encode_utf8(t1), encode_utf8(p), j) implies j >= 0 by {}
}

/// The strict score of `q` in an optional field, with the field's bonus.
pub open spec fn field_score(text: Option<Seq<char>>, q: Seq<char>, bonus: int) -> Option<int> {
    match text {
        Some(t) => match spec_strict_match_score(t, q) {
            Some(v) => Some(v + bonus),
            None => None,
        },
        None => None,
    }
}

/// `q` occurs (as UTF-8 bytes) in the optional field.
pub open spec fn field_contains(text: Option<Seq<char>>, q: Seq<char>) -> bool {
    match text {
        Some(t) => exists|j: int| occurs_at(encode_utf8(t), encode_utf8(q), j),
        None => false,
    }
}

proof fn lemma_field_contains_scores(text: Option<Seq<char>>, q: Seq<char>, bonus: int)
    ensures
        field_contains(text, q) <==> field_score(text, q, bonus) is Some,
{
    match text {
        Some(t) => lemma_strict_score_order(t, t, q),
        None => {},
    }
}

/// A host matches strictly exactly when the query occurs in its name, its
/// host name or its user; its strict score is then the best of those
/// fields' strict scores with the field's bonus (name 1000, host name 500,
/// user 300): at least each of them, and equal to one of them. A host that
/// matches strictly is among the search results.
pub proof fn lemma_strict_entry_law(entries: Seq<HostSearchEntry>, q: Seq<char>, i: usize)
    requires
        i < entries.len(),
    ensures
        ({
            let e = entries[i as int];
            let n = field_score(Some(e.name_lower@), q, 1000);
            let h = field_score(opt_view(e.hostname_lower), q, 500);
            let u = field_score(opt_view(e.user_lower), q, 300);
            let any = field_contains(Some(e.name_lower@), q) || field_contains(opt_view(e.hostname_lower), q)
                || field_contains(opt_view(e.user_lower), q);
            &&& strict_entry_score(e, q) is Some <==> any
            &&& any ==> spec_match_scores(entries, q).dom().contains(i)
            &&& strict_entry_score(e, q) matches Some(v) ==> {
                &&& (n matches Some(x) ==> v >= x)
                &&& (h matches Some(x) ==> v >= x)
                &&& (u matches Some(x) ==> v >= x)
                &&& (n == Some(v) || h == Some(v) || u == Some(v))
            }
        }),
{
    let e = entries[i as int];
    lemma_field_contains_scores(Some(e.name_lower@), q, 1000);
    lemma_field_contains_scores(opt_view(e.hostname_lower), q, 500);
    lemma_field_contains_scores(opt_view(e.user_lower), q, 300);
    let strict = scores_upto(entries, q, true, entries.len() as int);
    if strict_entry_score(e, q) is Some {
        assert(strict.dom().contains(i));
        assert(!strict.dom().is_empty());
    }
}

/// Fold a candidate score with a bonus into the best score so far.
fn combine(best: Option<i32>, cand: Option<i32>, bonus: i32) -> (r: Option<i32>)
    requires
        0 <= bonus <= 1000,
        best matches Some(b) ==> 0 <= b,
        cand matches Some(c) ==> 0 <= c && c + bonus <= i32::MAX,
    ensures
        opt_int(r) == combine_score(opt_int(best), opt_int(cand), bonus as int),
        r matches Some(v) ==> 0 <= v,
{
    match cand {
        Some(score) => {
            let b = match best {
                Some(v) => v,
                None => 0,
            };
            let candidate = score + bonus;
            Some(if b >= candidate { b } else { candidate })
        },
        None => best,
    }
}


/// An optional `i32` score as an integer.
pub open spec fn opt_int(o: Option<i32>) -> Option<int> {
    match o {
        Some(v) => Some(v as int),
        None => None,
    }
}

pub open spec fn opt_bytes_within(s: Option<String>, limit: nat) -> bool {
    match s {
        Some(v) => v@.len() <= limit && encode_utf8(v@).len() <= limit,
        None => true,
    }
}

/// The searched texts of an entry are short enough for exact scores.
pub open spec fn entry_within_limits(e: HostSearchEntry) -> bool {
    &&& encode_utf8(e.name_lower@).len() <= MAX_TEXT_BYTES
    &&& opt_bytes_within(e.hostname_lower, MAX_TEXT_BYTES as nat)
    &&& opt_bytes_within(e.user_lower, MAX_TEXT_BYTES as nat)
}

fn opt_strict(text: &Option<String>, q: &str) -> (r: Option<i32>)
    requires
        opt_bytes_within(*text, MAX_TEXT_BYTES as nat),
    ensures
        opt_int(r) == (score_opt(|t: Seq<char>, p: Seq<char>| spec_strict_match_score(t, p), opt_view(*text), q@)),
        r matches Some(v) ==> 1 <= v <= 300 + MAX_TEXT_BYTES,
{
    match text {
        Some(t) => strict_match_score(t.as_str(), q),
        None => None,
    }
}

/// Fuzzy scoring of `q` in an optional field stays within `i32`.
pub open spec fn opt_fuzzy_fits(text: Option<String>, q: Seq<char>, bonus: int) -> bool {
    match text {
        Some(t) => fuzzy_fits(t@, q, bonus),
        None => true,
    }
}

/// Fuzzy scoring of an entry stays within `i32`: the name with its bonus
/// of 100, the host name with 50, the user with 30.
pub open spec fn entry_fuzzy_fits(e: HostSearchEntry, q: Seq<char>) -> bool {
    &&& fuzzy_fits(e.name_lower@, q, 100)
    &&& opt_fuzzy_fits(e.hostname_lower, q, 50)
    &&& opt_fuzzy_fits(e.user_lower, q, 30)
}

fn opt_fuzzy(text: &Option<String>, q: &str, Ghost(bonus): Ghost<int>) -> (r: Option<i32>)
    requires
        opt_fuzzy_fits(*text, q@, bonus),
        0 <= bonus,
    ensures
        opt_int(r) == (score_opt(|t: Seq<char>, p: Seq<char>| spec_fuzzy_match(t, p), opt_view(*text), q@)),
        r matches Some(v) ==> 0 <= v && v + bonus <= i32::MAX,
{
    match text {
        Some(t) => {
            proof {
                lemma_fuzzy_score_is_partial(t@, q@, 0);
                lemma_fuzzy_partial_nonneg(t@, q@, 0);
            }
            fuzzy_match(t.as_str(), q)
        },
        None => None,
    }
}

fn opt_fuzzy_fits_i32(text: &Option<String>, q: &str, bonus: i32) -> (r: bool)
    requires
        0 <= bonus,
    ensures
        r == opt_fuzzy_fits(*text, q@, bonus as int),
{
    match text {
        Some(t) => fuzzy_fits_i32(t.as_str(), q, bonus),
        None => true,
    }
}

/// Whether fuzzy scoring of `q` against an entry stays within `i32`.
fn entry_fuzzy_fits_i32(e: &HostSearchEntry, q: &str) -> (r: bool)
    ensures
        r == entry_fuzzy_fits(*e, q@),
{
    fuzzy_fits_i32(e.name_lower.as_str(), q, 100) && opt_fuzzy_fits_i32(&e.hostname_lower, q, 50)
        && opt_fuzzy_fits_i32(&e.user_lower, q, 30)
}

/// The strict score of one entry.
fn strict_entry(e: &HostSearchEntry, q: &str) -> (r: Option<i32>)
    requires
        entry_within_limits(*e),
    ensures
        opt_int(r) == (strict_entry_score(*e, q@)),
        r matches Some(v) ==> 0 <= v,
{
    let s1 = strict_match_score(e.name_lower.as_str(), q);
    let b1 = combine(None, s1, 1000);
    let s2 = opt_strict(&e.hostname_lower, q);
    let b2 = combine(b1, s2, 500);
    let s3 = opt_strict(&e.user_lower, q);
    let b3 = combine(b2, s3, 300);
    b3
}

/// The fuzzy score of one entry.
fn fuzzy_entry(e: &HostSearchEntry, q: &str) -> (r: Option<i32>)
    requires
        entry_fuzzy_fits(*e, q@),
    ensures
        opt_int(r) == (fuzzy_entry_score(*e, q@)),
        r matches Some(v) ==> 0 <= v,
{
    proof {
        lemma_fuzzy_score_is_partial(e.name_lower@, q@, 0);
        lemma_fuzzy_partial_nonneg(e.name_lower@, q@, 0);
    }
    let s1 = fuzzy_match(e.name_lower.as_str(), q);
    let b1 = combine(None, s1, 100);
    let s2 = opt_fuzzy(&e.hostname_lower, q, Ghost(50));
    let b2 = combine(b1, s2, 50);
    let s3 = opt_fuzzy(&e.user_lower, q, Ghost(30));
    let b3 = combine(b2, s3, 30);
    b3
}

/// Fuzzy scoring of `q` stays within `i32` for every entry.
pub open spec fn fuzzy_pass_fits(entries: Seq<HostSearchEntry>, q: Seq<char>) -> bool {
    forall|i: int| 0 <= i < entries.len() ==> entry_fuzzy_fits(#[trigger] entries[i], q)
}

/// The scores of `q` can be computed within `i32`: some entry matches
/// strictly (strict scores always fit), or the fuzzy fallback fits.
pub open spec fn scores_computable(entries: Seq<HostSearchEntry>, q: Seq<char>) -> bool {
    !scores_upto(entries, q, true, entries.len() as int).dom().is_empty() || fuzzy_pass_fits(entries, q)
}

/// The strict scores of all entries.
fn strict_scores(search_entries: &[HostSearchEntry], query_lower: &str) -> (scores: HashMap<usize, i32>)
    requires
        forall|i: int| 0 <= i < search_entries@.len() ==> entry_within_limits(#[trigger] search_entries@[i]),
    ensures
        scores@ == scores_upto(search_entries@, query_lower@, true, search_entries@.len() as int),
{
    let mut match_scores: HashMap<usize, i32> = HashMap::new();
    let n = search_entries.len();
    let ghost entries = search_entries@;
    let ghost q = query_lower@;
    for idx in 0..n
        invariant
            n == entries.len(),
            entries == search_entries@,
            q == query_lower@,
            forall|i: int| 0 <= i < entries.len() ==> entry_within_limits(#[trigger] entries[i]),
            match_scores@ == scores_upto(entries, q, true, idx as int),
    {
        let best = strict_entry(&search_entries[idx], query_lower);
        if let Some(score) = best {
            match_scores.insert(idx, score);
        }
        assert(match_scores@ =~= scores_upto(entries, q, true, idx + 1));
    }
    match_scores
}

/// The fuzzy scores of all entries.
fn fuzzy_scores(search_entries: &[HostSearchEntry], query_lower: &str) -> (scores: HashMap<usize, i32>)
    requires
        fuzzy_pass_fits(search_entries@, query_lower@),
    ensures
        scores@ == scores_upto(search_entries@, query_lower@, false, search_entries@.len() as int),
{
    let mut fuzzy_scores: HashMap<usize, i32> = HashMap::new();
    let n = search_entries.len();
    let ghost entries = search_entries@;
    let ghost q = query_lower@;
    for idx in 0..n
        invariant
            n == entries.len(),
            entries == search_entries@,
            q == query_lower@,
            fuzzy_pass_fits(entries, q),
            fuzzy_scores@ == scores_upto(entries, q, false, idx as int),
    {
        assert(entry_fuzzy_fits(entries[idx as int], q));
        let best = fuzzy_entry(&search_entries[idx], query_lower);
        if let Some(score) = best {
            fuzzy_scores.insert(idx, score);
        }
        assert(fuzzy_scores@ =~= scores_upto(entries, q, false, idx + 1));
    }
    fuzzy_scores
}

/// Whether fuzzy scoring of `query_lower` fits `i32` for every entry.
fn fuzzy_pass_fits_i32(search_entries: &[HostSearchEntry], query_lower: &str) -> (r: bool)
    ensures
        r == fuzzy_pass_fits(search_entries@, query_lower@),
{
    let mut i: usize = 0;
    while i < search_entries.len()
        invariant
            i <= search_entries@.len(),
            forall|k: int| 0 <= k < i ==> entry_fuzzy_fits(#[trigger] search_entries@[k], query_lower@),
        decreases search_entries.len() - i,
    {
        if !entry_fuzzy_fits_i32(&search_entries[i], query_lower) {
            return false;
        }
        i += 1;
    }
    true
}

/// Scores of the hosts that match the query, by host index: strict
/// contiguous matches when there are any, otherwise fuzzy matches.
pub fn compute_match_scores(search_entries: &[HostSearchEntry], query_lower: &str) -> (scores: HashMap<usize, i32>)
    requires
        forall|i: int| 0 <= i < search_entries@.len() ==> entry_within_limits(#[trigger] search_entries@[i]),
        scores_computable(search_entries@, query_lower@),
    ensures
        scores@ == spec_match_scores(search_entries@, query_lower@),
{
    let match_scores = strict_scores(search_entries, query_lower);
    if !match_scores.is_empty() {
        return match_scores;
    }
    fuzzy_scores(search_entries, query_lower)
}

/// The match scores of `query_lower`, or `None` when the fuzzy fallback
/// would leave `i32` (a score past `i32::MAX`, where the scoring itself
/// cannot go on).
pub fn try_compute_match_scores(search_entries: &[HostSearchEntry], query_lower: &str) -> (r: Option<HashMap<usize, i32>>)
    requires
        forall|i: int| 0 <= i < search_entries@.len() ==> entry_within_limits(#[trigger] search_entries@[i]),
    ensures
        r is Some <==> scores_computable(search_entries@, query_lower@),
        r matches Some(m) ==> m@ == spec_match_scores(search_entries@, query_lower@),
{
    let match_scores = strict_scores(search_entries, query_lower);
    if !match_scores.is_empty() {
        return Some(match_scores);
    }
    if fuzzy_pass_fits_i32(search_entries, query_lower) {
        Some(fuzzy_scores(search_entries, query_lower))
    } else {
        None
    }
}

/// Unicode lower case of a text, as `str::to_lowercase` computes it.
pub uninterp spec fn lowercase(s: Seq<char>) -> Seq<char>;

/// Calls `str::to_lowercase` (std): the text in Unicode lower case. The
/// result is a function of the text alone, and is named rather than stated.
#[verifier::external_body]
pub(crate) fn to_lowercase(s: &str) -> (r: String)
    ensures
        r@ == lowercase(s@),
{
    s.to_lowercase()
}

/// What a host is searched by: its name, host name and user.
#[derive(Debug)]
pub struct HostIdentity {
    pub name: String,
    pub hostname: Option<String>,
    pub user: Option<String>,
}

/// The lower-cased search keys of one host.
pub open spec fn spec_search_entry(h: HostIdentity) -> (Seq<char>, Option<Seq<char>>, Option<Seq<char>>) {
    (
        lowercase(h.name@),
        match h.hostname {
            Some(x) => Some(lowercase(x@)),
            None => None,
        },
        match h.user {
            Some(x) => Some(lowercase(x@)),
            None => None,
        },
    )
}

/// The search keys of an entry.
pub open spec fn entry_keys(e: HostSearchEntry) -> (Seq<char>, Option<Seq<char>>, Option<Seq<char>>) {
    (e.name_lower@, opt_view(e.hostname_lower), opt_view(e.user_lower))
}

fn lower_opt(s: &Option<String>) -> (r: Option<String>)
    ensures
        opt_view(r) == match *s {
            Some(x) => Some(lowercase(x@)),
            None => None,
        },
{
    match s {
        Some(x) => Some(to_lowercase(x.as_str())),
        None => None,
    }
}

/// The search index of the hosts: their keys in lower case, in host order.
pub fn build_host_search_index(hosts: &[HostIdentity]) -> (index: Vec<HostSearchEntry>)
    ensures
        index@.len() == hosts@.len(),
        forall|i: int| 0 <= i < hosts@.len() ==> entry_keys(#[trigger] index@[i]) == spec_search_entry(hosts@[i]),
{
    let mut index: Vec<HostSearchEntry> = Vec::new();
    let mut i: usize = 0;
    while i < hosts.len()
        invariant
            i <= hosts@.len(),
            index@.len() == i,
            forall|k: int| 0 <= k < i ==> entry_keys(#[trigger] index@[k]) == spec_search_entry(hosts@[k]),
        decreases hosts.len() - i,
    {
        let h = &hosts[i];
        let entry = HostSearchEntry {
            name_lower: to_lowercase(h.name.as_str()),
            hostname_lower: lower_opt(&h.hostname),
            user_lower: lower_opt(&h.user),
        };
        index.push(entry);
        i += 1;
    }
    index
}

} // verus!


