//! Small text formats shown in the UI: the vault's time left, folder paths,
//! and the search match counter.
use vstd::prelude::*;
use crate::host_search::chars_of;
use crate::text_edit::{string_from_chars, string_push};

verus! {

/// Decimal digits of `n`, most significant first.
pub open spec fn digits(n: nat) -> Seq<char>
    decreases n,
{
    if n < 10 {
        seq![digit_char(n)]
    } else {
        digits(n / 10).push(digit_char(n % 10))
    }
}

/// The character of a digit below ten.
pub open spec fn digit_char(d: nat) -> char {
    (('0' as nat) + d) as char
}

/// Two digits, with a leading zero below ten.
pub open spec fn two_digits(n: nat) -> Seq<char> {
    if n < 10 {
        seq!['0'] + digits(n)
    } else {
        digits(n)
    }
}

/// The vault's time left as `H:MM:SS`, or `M:SS` under an hour; `n/a`
/// when unknown.
pub open spec fn spec_vault_time_left(seconds: Option<u64>) -> Seq<char> {
    match seconds {
        None => seq!['n', '/', 'a'],
        Some(total) => {
            let hours = total / 3600;
            let minutes = (total % 3600) / 60;
            let secs = total % 60;
            if hours > 0 {
                digits(hours as nat) + seq![':'] + two_digits(minutes as nat) + seq![':'] + two_digits(secs as nat)
            } else {
                digits(minutes as nat) + seq![':'] + two_digits(secs as nat)
            }
        },
    }
}

fn push_digit(out: &mut String, d: u64)
    requires
        d < 10,
    ensures
        final(out)@ == old(out)@.push(digit_char(d as nat)),
{
    let c: char = match d {
        0 => '0',
        1 => '1',
        2 => '2',
        3 => '3',
        4 => '4',
        5 => '5',
        6 => '6',
        7 => '7',
        8 => '8',
        _ => '9',
    };
    string_push(out, c);
}

/// Append the decimal digits of `n`.
pub fn push_decimal_text(out: &mut String, n: u64)
    ensures
        final(out)@ == old(out)@ + digits(n as nat),
    decreases n,
{
    if n < 10 {
        push_digit(out, n);
        assert(final(out)@ =~= old(out)@ + digits(n as nat));
    } else {
        push_decimal_text(out, n / 10);
        push_digit(out, n % 10);
        assert(final(out)@ =~= old(out)@ + digits(n as nat));
    }
}

fn push_two_digits(out: &mut String, n: u64)
    ensures
        final(out)@ == old(out)@ + two_digits(n as nat),
{
    if n < 10 {
        string_push(out, '0');
    }
    push_decimal_text(out, n);
    assert(final(out)@ =~= old(out)@ + two_digits(n as nat));
}

/// The vault's time left, for the status modal.
pub fn format_vault_time_left(seconds: Option<u64>) -> (s: String)
    ensures
        s@ == spec_vault_time_left(seconds),
{
    let mut out = String::new();
    match seconds {
        None => {
            string_push(&mut out, 'n');
            string_push(&mut out, '/');
            string_push(&mut out, 'a');
            assert(out@ =~= seq!['n', '/', 'a']);
        },
        Some(total) => {
            let hours = total / 3600;
            let minutes = (total % 3600) / 60;
            let secs = total % 60;
            if hours > 0 {
                push_decimal_text(&mut out, hours);
                string_push(&mut out, ':');
                push_two_digits(&mut out, minutes);
            } else {
                push_decimal_text(&mut out, minutes);
            }
            string_push(&mut out, ':');
            push_two_digits(&mut out, secs);
            assert(out@ =~= spec_vault_time_left(seconds));
        },
    }
    out
}

/// The match counter of the terminal search: `current/count` with the
/// current match counted from one, or `0/0` without matches.
pub open spec fn spec_match_counter(current: usize, count: usize) -> Seq<char> {
    if count == 0 {
        seq!['0', '/', '0']
    } else {
        digits((current + 1) as nat) + seq!['/'] + digits(count as nat)
    }
}

/// The match counter of the terminal search.
pub fn match_counter(current: usize, count: usize) -> (s: String)
    requires
        current < usize::MAX,
    ensures
        s@ == spec_match_counter(current, count),
{
    let mut out = String::new();
    if count == 0 {
        string_push(&mut out, '0');
        string_push(&mut out, '/');
        string_push(&mut out, '0');
        assert(out@ =~= seq!['0', '/', '0']);
    } else {
        push_decimal_text(&mut out, (current + 1) as u64);
        string_push(&mut out, '/');
        push_decimal_text(&mut out, count as u64);
        assert(out@ =~= spec_match_counter(current, count));
    }
    out
}

/// The scrollback indicator of the status line: ` +N` when scrolled back.
pub open spec fn spec_scroll_indicator(scroll_offset: usize) -> Seq<char> {
    if scroll_offset > 0 {
        seq![' ', '+'] + digits(scroll_offset as nat)
    } else {
        seq![]
    }
}

/// The scrollback indicator of the status line.
pub fn scroll_indicator(scroll_offset: usize) -> (s: String)
    ensures
        s@ == spec_scroll_indicator(scroll_offset),
{
    let mut out = String::new();
    if scroll_offset > 0 {
        string_push(&mut out, ' ');
        string_push(&mut out, '+');
        push_decimal_text(&mut out, scroll_offset as u64);
        assert(out@ =~= spec_scroll_indicator(scroll_offset));
    } else {
        assert(out@ =~= spec_scroll_indicator(scroll_offset));
    }
    out
}

/// Segments joined with `/`.
pub open spec fn joined(segments: Seq<Seq<char>>) -> Seq<char>
    decreases segments.len(),
{
    if segments.len() == 0 {
        seq![]
    } else if segments.len() == 1 {
        segments[0]
    } else {
        joined(segments.drop_last()) + seq!['/'] + segments.last()
    }
}

/// A folder path as shown: `/` for the root, otherwise `/a/b/`.
pub open spec fn spec_format_folder_path(segments: Seq<Seq<char>>) -> Seq<char> {
    if segments.len() == 0 {
        seq!['/']
    } else {
        seq!['/'] + joined(segments) + seq!['/']
    }
}

/// The views of a list of strings.
pub open spec fn string_views(v: Seq<String>) -> Seq<Seq<char>> {
    v.map_values(|s: String| s@)
}

/// Appends the characters of `s`.
pub fn push_str_chars(out: &mut String, s: &str)
    ensures
        final(out)@ == old(out)@ + s@,
{
    let ghost start = out@;
    for c in it: s.chars()
        invariant
            out@ == start + it.seq().subrange(0, it.index() as int),
    {
        string_push(out, c);
        assert(out@ =~= start + it.seq().subrange(0, it.index() + 1));
    }
    assert(out@ =~= start + s@);
}

/// A folder path as shown in the folder picker and editor.
pub fn format_folder_path(folder_path: &[String]) -> (s: String)
    ensures
        s@ == spec_format_folder_path(string_views(folder_path@)),
{
    let mut out = String::new();
    string_push(&mut out, '/');
    if folder_path.len() == 0 {
        assert(out@ =~= seq!['/']);
        return out;
    }
    let ghost segs = string_views(folder_path@);
    let mut i: usize = 0;
    while i < folder_path.len()
        invariant
            i <= folder_path@.len(),
            folder_path@.len() > 0,
            segs == string_views(folder_path@),
            i == 0 ==> out@ == seq!['/'],
            i > 0 ==> out@ == seq!['/'] + joined(segs.subrange(0, i as int)),
        decreases folder_path.len() - i,
    {
        if i > 0 {
            string_push(&mut out, '/');
        }
        push_str_chars(&mut out, folder_path[i].as_str());
        proof {
            let sub = segs.subrange(0, i + 1);
            assert(sub.drop_last() =~= segs.subrange(0, i as int));
            assert(sub.last() == folder_path@[i as int]@);
            if i == 0 {
                assert(joined(sub) == sub[0]);
            }
        }
        i += 1;
        assert(out@ =~= seq!['/'] + joined(segs.subrange(0, i as int)));
    }
    string_push(&mut out, '/');
    assert(segs.subrange(0, folder_path@.len() as int) =~= segs);
    assert(out@ =~= spec_format_folder_path(segs));
    out
}

/// Unicode `White_Space`, the characters that `str::trim` removes.
pub open spec fn is_white_space(c: char) -> bool {
    ||| '\u{9}' <= c <= '\u{d}'
    ||| c == ' '
    ||| c == '\u{85}'
    ||| c == '\u{a0}'
    ||| c == '\u{1680}'
    ||| '\u{2000}' <= c <= '\u{200a}'
    ||| c == '\u{2028}'
    ||| c == '\u{2029}'
    ||| c == '\u{202f}'
    ||| c == '\u{205f}'
    ||| c == '\u{3000}'
}

/// Whether `c` is Unicode white space.
pub fn white_space(c: char) -> (r: bool)
    ensures
        r == is_white_space(c),
{
    ('\u{9}' <= c && c <= '\u{d}') || c == ' ' || c == '\u{85}' || c == '\u{a0}' || c == '\u{1680}'
        || ('\u{2000}' <= c && c <= '\u{200a}') || c == '\u{2028}' || c == '\u{2029}' || c == '\u{202f}'
        || c == '\u{205f}' || c == '\u{3000}'
}

/// `s` without leading white space.
pub open spec fn trim_start(s: Seq<char>) -> Seq<char>
    decreases s.len(),
{
    if s.len() > 0 && is_white_space(s[0]) {
        trim_start(s.drop_first())
    } else {
        s
    }
}

/// `s` without trailing white space.
pub open spec fn trim_end(s: Seq<char>) -> Seq<char>
    decreases s.len(),
{
    if s.len() > 0 && is_white_space(s.last()) {
        trim_end(s.drop_last())
    } else {
        s
    }
}

/// `s` without leading or trailing white space.
pub open spec fn trim(s: Seq<char>) -> Seq<char> {
    trim_end(trim_start(s))
}

/// The parts of `s` between slashes (one more than the slashes in it).
pub open spec fn split_slash(s: Seq<char>) -> Seq<Seq<char>>
    decreases s.len(),
{
    if s.len() == 0 {
        seq![seq![]]
    } else {
        let rest = split_slash(s.drop_last());
        if s.last() == '/' {
            rest.push(seq![])
        } else {
            rest.update(rest.len() - 1, rest.last().push(s.last()))
        }
    }
}

/// The non-empty trimmed parts, in order.
pub open spec fn kept_segments(parts: Seq<Seq<char>>) -> Seq<Seq<char>>
    decreases parts.len(),
{
    if parts.len() == 0 {
        seq![]
    } else {
        let t = trim(parts.last());
        kept_segments(parts.drop_last()) + if t.len() > 0 { seq![t] } else { seq![] }
    }
}

/// The folder path typed by the user: its `/`-separated segments, trimmed,
/// leaving out empty ones (so `/`, an empty path and stray slashes give none).
pub open spec fn spec_parse_folder_path(path: Seq<char>) -> Seq<Seq<char>> {
    kept_segments(split_slash(path))
}

proof fn lemma_split_nonempty(s: Seq<char>)
    ensures
        split_slash(s).len() >= 1,
    decreases s.len(),
{
    if s.len() > 0 {
        lemma_split_nonempty(s.drop_last());
    }
}

/// Trim of a part given as `chars[lo..hi]`.
fn trimmed_part(chars: &Vec<char>, lo: usize, hi: usize) -> (r: Vec<char>)
    requires
        lo <= hi <= chars@.len(),
    ensures
        r@ == trim(chars@.subrange(lo as int, hi as int)),
{
    let mut a = lo;
    while a < hi && white_space(chars[a])
        invariant
            lo <= a <= hi <= chars@.len(),
            trim_start(chars@.subrange(lo as int, hi as int)) == trim_start(chars@.subrange(a as int, hi as int)),
        decreases hi - a,
    {
        assert(chars@.subrange(a as int, hi as int).drop_first() =~= chars@.subrange(a + 1, hi as int));
        a += 1;
    }
    assert(trim_start(chars@.subrange(a as int, hi as int)) == chars@.subrange(a as int, hi as int));
    let mut b = hi;
    while b > a && white_space(chars[b - 1])
        invariant
            lo <= a <= b <= hi <= chars@.len(),
            trim_end(chars@.subrange(a as int, hi as int)) == trim_end(chars@.subrange(a as int, b as int)),
        decreases b - a,
    {
        assert(chars@.subrange(a as int, b as int).drop_last() =~= chars@.subrange(a as int, b - 1));
        b -= 1;
    }
    let mut r: Vec<char> = Vec::new();
    let mut k = a;
    while k < b
        invariant
            a <= k <= b <= chars@.len(),
            r@ == chars@.subrange(a as int, k as int),
        decreases b - k,
    {
        r.push(chars[k]);
        k += 1;
        assert(r@ =~= chars@.subrange(a as int, k as int));
    }
    r
}

/// `text` without leading or trailing white space.
pub fn trim_text(text: &str) -> (r: String)
    ensures
        r@ == trim(text@),
{
    let chars = chars_of(text);
    let part = trimmed_part(&chars, 0, chars.len());
    assert(chars@.subrange(0, chars@.len() as int) =~= text@);
    string_from_chars(&part)
}

/// The segments of a folder path typed by the user.
pub fn parse_folder_path_display(path: &str) -> (segments: Vec<String>)
    ensures
        string_views(segments@) == spec_parse_folder_path(path@),
{
    let chars = chars_of(path);
    let mut out: Vec<String> = Vec::new();
    let mut start: usize = 0;
    let mut i: usize = 0;
    while i < chars.len()
        invariant
            chars@ == path@,
            start <= i <= chars@.len(),
            split_slash(chars@.subrange(0, i as int)).len() >= 1,
            split_slash(chars@.subrange(0, i as int)).last() == chars@.subrange(start as int, i as int),
            string_views(out@) == kept_segments(split_slash(chars@.subrange(0, i as int)).drop_last()),
        decreases chars.len() - i,
    {
        let ghost before = split_slash(chars@.subrange(0, i as int));
        assert(chars@.subrange(0, i + 1).drop_last() =~= chars@.subrange(0, i as int));
        if chars[i] == '/' {
            let part = trimmed_part(&chars, start, i);
            if part.len() > 0 {
                out.push(string_from_chars(&part));
            }
            proof {
                let after = split_slash(chars@.subrange(0, i + 1));
                assert(after == before.push(seq![]));
                assert(after.drop_last() =~= before);
                assert(before.drop_last() =~= before.drop_last());
                assert(string_views(out@) =~= kept_segments(before));
            }
            start = i + 1;
        } else {
            proof {
                let after = split_slash(chars@.subrange(0, i + 1));
                assert(after == before.update(before.len() - 1, before.last().push(chars@[i as int])));
                assert(after.drop_last() =~= before.drop_last());
                assert(after.last() =~= chars@.subrange(start as int, i + 1));
            }
        }
        i += 1;
    }
    let part = trimmed_part(&chars, start, chars.len());
    if part.len() > 0 {
        out.push(string_from_chars(&part));
    }
    proof {
        let all = split_slash(chars@.subrange(0, chars@.len() as int));
        assert(chars@.subrange(0, chars@.len() as int) =~= path@);
        assert(all.drop_last().push(all.last()) =~= all);
        assert(string_views(out@) =~= kept_segments(all));
    }
    out
}

/// Empty parts are left out.
proof fn lemma_kept_empty_parts()
    ensures
        kept_segments(seq![Seq::<char>::empty()]) == Seq::<Seq<char>>::empty(),
        kept_segments(seq![Seq::<char>::empty(), Seq::<char>::empty()]) == Seq::<Seq<char>>::empty(),
{
    let empty = Seq::<char>::empty();
    assert(trim_start(empty) == empty);
    assert(trim_end(empty) == empty);
    assert(trim(empty) == empty);
    let one = seq![empty];
    let two = seq![empty, empty];
    assert(one.drop_last() =~= Seq::<Seq<char>>::empty());
    assert(kept_segments(Seq::<Seq<char>>::empty()) == Seq::<Seq<char>>::empty());
    assert(kept_segments(one) =~= Seq::<Seq<char>>::empty());
    assert(two.drop_last() =~= one);
    assert(kept_segments(two) =~= Seq::<Seq<char>>::empty());
}

/// A folder name that a path round trip keeps as it is: non-empty, without
/// a slash, and without white space at either end.
pub open spec fn plain_segment(s: Seq<char>) -> bool {
    s.len() > 0 && !s.contains('/') && trim(s) == s
}

proof fn lemma_split_join_slash(a: Seq<char>, b: Seq<char>)
    ensures
        split_slash(a + seq!['/'] + b) == split_slash(a) + split_slash(b),
    decreases b.len(),
{
    let s = a + seq!['/'] + b;
    if b.len() == 0 {
        assert(s.drop_last() =~= a);
        assert(split_slash(a) + split_slash(b) =~= split_slash(a).push(seq![]));
    } else {
        lemma_split_join_slash(a, b.drop_last());
        lemma_split_nonempty(b.drop_last());
        lemma_split_nonempty(a);
        assert(s.drop_last() =~= a + seq!['/'] + b.drop_last());
        assert(s.last() == b.last());
        let x = split_slash(b.drop_last());
        if b.last() == '/' {
            assert(split_slash(a) + x.push(seq![]) =~= (split_slash(a) + x).push(seq![]));
        } else {
            let y = split_slash(a) + x;
            assert(y.update(y.len() - 1, y.last().push(b.last())) =~= split_slash(a) + x.update(
                x.len() - 1,
                x.last().push(b.last()),
            ));
        }
    }
}

proof fn lemma_split_without_slash(s: Seq<char>)
    requires
        !s.contains('/'),
    ensures
        split_slash(s) == seq![s],
    decreases s.len(),
{
    if s.len() > 0 {
        assert(!s.drop_last().contains('/')) by {
            if s.drop_last().contains('/') {
                let k = choose|k: int| 0 <= k < s.drop_last().len() && s.drop_last()[k] == '/';
                assert(s[k] == '/');
            }
        }
        lemma_split_without_slash(s.drop_last());
        assert(s.last() != '/') by {
            assert(s[s.len() - 1] == s.last());
        }
        assert(s.drop_last().push(s.last()) =~= s);
        assert(seq![s.drop_last()].update(0, s.drop_last().push(s.last())) =~= seq![s]);
    } else {
        assert(s =~= Seq::<char>::empty());
        assert(seq![s] =~= seq![Seq::<char>::empty()]);
    }
}

proof fn lemma_split_joined(segments: Seq<Seq<char>>)
    requires
        segments.len() > 0,
        forall|i: int| 0 <= i < segments.len() ==> !(#[trigger] segments[i]).contains('/'),
    ensures
        split_slash(joined(segments)) == segments,
    decreases segments.len(),
{
    if segments.len() == 1 {
        lemma_split_without_slash(segments[0]);
        assert(seq![segments[0]] =~= segments);
    } else {
        let front = segments.drop_last();
        assert forall|i: int| 0 <= i < front.len() implies !(#[trigger] front[i]).contains('/') by {
            assert(front[i] == segments[i]);
        }
        lemma_split_joined(front);
        lemma_split_join_slash(joined(front), segments.last());
        lemma_split_without_slash(segments.last());
        assert(front + seq![segments.last()] =~= segments);
    }
}

proof fn lemma_kept_concat(x: Seq<Seq<char>>, y: Seq<Seq<char>>)
    ensures
        kept_segments(x + y) == kept_segments(x) + kept_segments(y),
    decreases y.len(),
{
    if y.len() == 0 {
        assert(x + y =~= x);
        assert(kept_segments(x) + kept_segments(y) =~= kept_segments(x));
    } else {
        lemma_kept_concat(x, y.drop_last());
        assert((x + y).drop_last() =~= x + y.drop_last());
        assert((x + y).last() == y.last());
        let t = trim(y.last());
        let tail: Seq<Seq<char>> = if t.len() > 0 { seq![t] } else { seq![] };
        assert(kept_segments(x) + kept_segments(y.drop_last()) + tail =~= kept_segments(x) + (kept_segments(y.drop_last()) + tail));
    }
}

proof fn lemma_kept_plain(segments: Seq<Seq<char>>)
    requires
        forall|i: int| 0 <= i < segments.len() ==> plain_segment(#[trigger] segments[i]),
    ensures
        kept_segments(segments) == segments,
    decreases segments.len(),
{
    if segments.len() > 0 {
        let front = segments.drop_last();
        assert forall|i: int| 0 <= i < front.len() implies plain_segment(#[trigger] front[i]) by {
            assert(front[i] == segments[i]);
        }
        lemma_kept_plain(front);
        assert(plain_segment(segments[segments.len() - 1]));
        assert(front.push(segments.last()) =~= segments);
    }
}

/// Showing a folder path and reading it back gives the same folders, as
/// long as every folder name is non-empty, holds no slash and has no white
/// space at either end.
pub proof fn lemma_folder_path_round_trip(segments: Seq<Seq<char>>)
    requires
        forall|i: int| 0 <= i < segments.len() ==> plain_segment(#[trigger] segments[i]),
    ensures
        spec_parse_folder_path(spec_format_folder_path(segments)) == segments,
{
    let empty: Seq<char> = seq![];
    if segments.len() == 0 {
        let slash: Seq<char> = seq!['/'];
        assert(slash =~= empty + seq!['/'] + empty);
        lemma_split_join_slash(empty, empty);
        lemma_kept_empty_parts();
        assert(split_slash(empty) + split_slash(empty) =~= seq![empty, empty]);
    } else {
        assert forall|i: int| 0 <= i < segments.len() implies !(#[trigger] segments[i]).contains('/') by {
            assert(plain_segment(segments[i]));
        }
        let j = joined(segments);
        let shown = spec_format_folder_path(segments);
        assert(shown =~= (empty + seq!['/'] + j) + seq!['/'] + empty);
        lemma_split_join_slash(empty + seq!['/'] + j, empty);
        lemma_split_join_slash(empty, j);
        lemma_split_joined(segments);
        let edge: Seq<Seq<char>> = seq![empty];
        assert(split_slash(shown) =~= edge + segments + edge);
        lemma_kept_concat(edge + segments, edge);
        lemma_kept_concat(edge, segments);
        lemma_kept_plain(segments);
        lemma_kept_empty_parts();
        assert(kept_segments(edge) + segments + kept_segments(edge) =~= segments);
    }
}

} // verus!
