//! The profiles offered by the quick-connect form, from the names of the
//! files in the configuration directory: `default` and every
//! `<name>.cossh-config.yaml`, once each, `default` first and the others
//! in alphabetical order ignoring case.
use vstd::prelude::*;
use crate::host_search::{chars_of, lowercase, to_lowercase};
use crate::quick_connect::{default_profile, eq_ignore_ascii_case, spec_eq_ignore_ascii_case, views};
use crate::text_edit::{string_from_chars, text_equal};

verus! {

/// The suffix of a profile's configuration file.
pub open spec fn config_suffix() -> Seq<char> {
    ".cossh-config.yaml"@
}

/// The profile a file of the configuration directory stands for: the
/// default configuration `.cossh-config.yaml` for `default`, and
/// `<name>.cossh-config.yaml` for `<name>` when the name is not empty and
/// does not start with a dot.
pub open spec fn spec_profile_of_file(f: Seq<char>) -> Option<Seq<char>> {
    let n = config_suffix().len();
    if f == config_suffix() {
        Some(default_profile())
    } else if f.len() > n && f.subrange(f.len() - n, f.len() as int) == config_suffix() && f[0] != '.' {
        Some(f.subrange(0, f.len() - n))
    } else {
        None
    }
}

/// The profile a file of the configuration directory stands for.
pub fn profile_of_file(file_name: &str) -> (r: Option<String>)
    ensures
        match r {
            Some(p) => spec_profile_of_file(file_name@) == Some(p@),
            None => spec_profile_of_file(file_name@) is None,
        },
{
    let f = chars_of(file_name);
    let suffix = chars_of(".cossh-config.yaml");
    proof {
        reveal_strlit(".cossh-config.yaml");
        reveal_strlit("default");
    }
    let n = suffix.len();
    if f.len() < n {
        return None;
    }
    let stem_len = f.len() - n;
    let mut k: usize = 0;
    while k < n
        invariant
            stem_len + n <= usize::MAX,
            f@ == file_name@,
            suffix@ == config_suffix(),
            n == suffix@.len(),
            stem_len + n == f@.len(),
            k <= n,
            forall|j: int| 0 <= j < k ==> f@[stem_len + j] == #[trigger] suffix@[j],
        decreases n - k,
    {
        if f[stem_len + k] != suffix[k] {
            assert(f@.subrange(stem_len as int, f@.len() as int)[k as int] != suffix@[k as int]);
            return None;
        }
        k += 1;
    }
    assert(f@.subrange(stem_len as int, f@.len() as int) =~= suffix@);
    if stem_len == 0 {
        assert(f@ =~= suffix@);
        return Some("default".to_owned());
    }
    if f[0] == '.' {
        return None;
    }
    let mut stem: Vec<char> = Vec::new();
    let mut i: usize = 0;
    while i < stem_len
        invariant
            stem_len < f@.len(),
            i <= stem_len,
            stem@ == f@.subrange(0, i as int),
        decreases stem_len - i,
    {
        stem.push(f[i]);
        i += 1;
        assert(stem@ =~= f@.subrange(0, i as int));
    }
    Some(string_from_chars(&stem))
}

/// Code-point order of texts, a prefix first.
pub open spec fn lex_le(a: Seq<char>, b: Seq<char>) -> bool
    decreases a.len(),
{
    if a.len() == 0 {
        true
    } else if b.len() == 0 {
        false
    } else if a[0] != b[0] {
        a[0] < b[0]
    } else {
        lex_le(a.drop_first(), b.drop_first())
    }
}

/// Of two texts, one comes first or both are equal.
pub proof fn lemma_lex_total(a: Seq<char>, b: Seq<char>)
    ensures
        lex_le(a, b) || lex_le(b, a),
    decreases a.len(),
{
    if a.len() > 0 && b.len() > 0 && a[0] == b[0] {
        lemma_lex_total(a.drop_first(), b.drop_first());
    }
}

/// Code-point order is transitive.
pub proof fn lemma_lex_transitive(a: Seq<char>, b: Seq<char>, c: Seq<char>)
    requires
        lex_le(a, b),
        lex_le(b, c),
    ensures
        lex_le(a, c),
    decreases a.len(),
{
    if a.len() > 0 && b.len() > 0 && c.len() > 0 && a[0] == b[0] && b[0] == c[0] {
        lemma_lex_transitive(a.drop_first(), b.drop_first(), c.drop_first());
    }
}

fn lex_le_exec(a: &Vec<char>, b: &Vec<char>) -> (r: bool)
    ensures
        r == lex_le(a@, b@),
{
    let mut i: usize = 0;
    assert(a@.subrange(0, a@.len() as int) =~= a@);
    assert(b@.subrange(0, b@.len() as int) =~= b@);
    while i < a.len()
        invariant
            i <= a@.len(),
            i <= b@.len(),
            forall|j: int| 0 <= j < i ==> a@[j] == b@[j],
            lex_le(a@, b@) == lex_le(a@.subrange(i as int, a@.len() as int), b@.subrange(i as int, b@.len() as int)),
        decreases a.len() - i,
    {
        if i >= b.len() {
            assert(b@.subrange(i as int, b@.len() as int).len() == 0);
            return false;
        }
        let ghost sa = a@.subrange(i as int, a@.len() as int);
        let ghost sb = b@.subrange(i as int, b@.len() as int);
        assert(sa[0] == a@[i as int] && sb[0] == b@[i as int]);
        if a[i] != b[i] {
            return a[i] < b[i];
        }
        assert(sa.drop_first() =~= a@.subrange(i + 1, a@.len() as int));
        assert(sb.drop_first() =~= b@.subrange(i + 1, b@.len() as int));
        i += 1;
    }
    true
}

/// A profile named `default` in any case of its ASCII letters.
pub open spec fn is_default(p: Seq<char>) -> bool {
    spec_eq_ignore_ascii_case(p, default_profile())
}

/// `a` may come before `b`: a default profile before any other, otherwise
/// by the code-point order of their lower case.
pub open spec fn profile_le(a: Seq<char>, b: Seq<char>) -> bool {
    if is_default(a) != is_default(b) {
        is_default(a)
    } else {
        lex_le(lowercase(a), lowercase(b))
    }
}

proof fn lemma_profile_total(a: Seq<char>, b: Seq<char>)
    ensures
        profile_le(a, b) || profile_le(b, a),
{
    lemma_lex_total(lowercase(a), lowercase(b));
}

proof fn lemma_profile_transitive(a: Seq<char>, b: Seq<char>, c: Seq<char>)
    requires
        profile_le(a, b),
        profile_le(b, c),
    ensures
        profile_le(a, c),
{
    if is_default(a) == is_default(b) && is_default(b) == is_default(c) {
        lemma_lex_transitive(lowercase(a), lowercase(b), lowercase(c));
    }
}

/// In order: each profile may come before every later one.
pub open spec fn profiles_sorted(s: Seq<Seq<char>>) -> bool {
    forall|i: int, j: int| 0 <= i < j < s.len() ==> profile_le(#[trigger] s[i], #[trigger] s[j])
}

/// No profile twice.
pub open spec fn distinct(s: Seq<Seq<char>>) -> bool {
    forall|i: int, j: int| 0 <= i < j < s.len() ==> #[trigger] s[i] != #[trigger] s[j]
}

/// The profiles that the files `files` stand for, and `default`.
pub open spec fn offered(files: Seq<Seq<char>>, p: Seq<char>) -> bool {
    p == default_profile() || exists|i: int| 0 <= i < files.len() && spec_profile_of_file(#[trigger] files[i]) == Some(p)
}

/// A profile, the key it is ordered by, and whether it is a default one.
struct Entry {
    name: String,
    lower: Vec<char>,
    is_default_profile: bool,
}

spec fn entry_ok(e: Entry) -> bool {
    e.lower@ == lowercase(e.name@) && e.is_default_profile == is_default(e.name@)
}

fn entry(name: String) -> (e: Entry)
    ensures
        e.name@ == name@,
        entry_ok(e),
{
    let lower = chars_of(to_lowercase(name.as_str()).as_str());
    let is_default_profile = eq_ignore_ascii_case(name.as_str(), "default");
    proof {
        reveal_strlit("default");
    }
    Entry { name, lower, is_default_profile }
}

fn entry_le(a: &Entry, b: &Entry) -> (r: bool)
    requires
        entry_ok(*a),
        entry_ok(*b),
    ensures
        r == profile_le(a.name@, b.name@),
{
    if a.is_default_profile != b.is_default_profile {
        a.is_default_profile
    } else {
        lex_le_exec(&a.lower, &b.lower)
    }
}

spec fn entry_names(v: Seq<Entry>) -> Seq<Seq<char>> {
    v.map_values(|e: Entry| e.name@)
}

/// Put `e` after every entry that may come before it.
fn insert_sorted(list: &mut Vec<Entry>, e: Entry)
    requires
        forall|i: int| 0 <= i < old(list)@.len() ==> entry_ok(#[trigger] old(list)@[i]),
        profiles_sorted(entry_names(old(list)@)),
        entry_ok(e),
    ensures
        forall|i: int| 0 <= i < final(list)@.len() ==> entry_ok(#[trigger] final(list)@[i]),
        profiles_sorted(entry_names(final(list)@)),
        exists|k: int| 0 <= k <= old(list)@.len() && entry_names(final(list)@) == entry_names(old(list)@).insert(k, e.name@),
{
    let ghost names = entry_names(list@);
    let mut k: usize = 0;
    while k < list.len() && entry_le(&list[k], &e)
        invariant
            k <= list@.len(),
            names == entry_names(list@),
            forall|i: int| 0 <= i < list@.len() ==> entry_ok(#[trigger] list@[i]),
            entry_ok(e),
            forall|j: int| 0 <= j < k ==> profile_le(#[trigger] names[j], e.name@),
        decreases list.len() - k,
    {
        k += 1;
    }
    proof {
        assert forall|j: int| k <= j < names.len() implies profile_le(e.name@, #[trigger] names[j]) by {
            assert(names[k as int] == list@[k as int].name@);
            assert(!profile_le(names[k as int], e.name@));
            lemma_profile_total(names[k as int], e.name@);
            if j > k {
                lemma_profile_transitive(e.name@, names[k as int], names[j]);
            }
        }
    }
    let ghost x = e.name@;
    list.insert(k, e);
    proof {
        let now = entry_names(list@);
        assert(now =~= names.insert(k as int, x));
        assert forall|i: int, j: int| 0 <= i < j < now.len() implies profile_le(#[trigger] now[i], #[trigger] now[j]) by {
            if j < k {
                assert(now[i] == names[i] && now[j] == names[j]);
            } else if j == k {
                assert(now[i] == names[i]);
            } else if i < k {
                assert(now[i] == names[i] && now[j] == names[j - 1]);
                lemma_profile_transitive(names[i], x, names[j - 1]);
            } else if i == k {
                assert(now[j] == names[j - 1]);
            } else {
                assert(now[i] == names[i - 1] && now[j] == names[j - 1]);
            }
        }
        assert forall|i: int| 0 <= i < list@.len() implies entry_ok(#[trigger] list@[i]) by {
            if i < k {
            } else if i > k {
                assert(list@[i] == old(list)@[i - 1]);
            }
        }
    }
}

/// The profiles that the quick-connect form offers, given the names of the
/// files in the configuration directory: `default` and the profile of each
/// profile file, each once, in order (`default` first, then the others by
/// the code-point order of their lower case; profiles equal in that order
/// may come either way).
pub fn discover_quick_connect_profiles(file_names: &Vec<String>) -> (profiles: Vec<String>)
    ensures
        distinct(views(profiles@)),
        profiles_sorted(views(profiles@)),
        forall|p: Seq<char>| views(profiles@).contains(p) <==> offered(views(file_names@), p),
        profiles@.len() > 0 && is_default(views(profiles@)[0]),
{
    let ghost files = views(file_names@);
    let mut list: Vec<Entry> = Vec::new();
    proof {
        reveal_strlit("default");
        assert("default"@ =~= default_profile());
    }
    let ghost empty = entry_names(list@);
    assert(empty =~= Seq::<Seq<char>>::empty());
    insert_sorted(&mut list, entry("default".to_owned()));
    proof {
        let k = choose|k: int| 0 <= k <= empty.len() && entry_names(list@) == empty.insert(k, default_profile());
        assert(entry_names(list@) =~= seq![default_profile()]);
        assert forall|p: Seq<char>| entry_names(list@).contains(p) <==> p == default_profile() by {
            if p == default_profile() {
                assert(entry_names(list@)[0] == p);
            }
        }
    }
    let mut i: usize = 0;
    while i < file_names.len()
        invariant
            i <= file_names@.len(),
            files == views(file_names@),
            forall|k: int| 0 <= k < list@.len() ==> entry_ok(#[trigger] list@[k]),
            profiles_sorted(entry_names(list@)),
            distinct(entry_names(list@)),
            forall|p: Seq<char>| entry_names(list@).contains(p) <==> (p == default_profile()
                || exists|j: int| 0 <= j < i && spec_profile_of_file(#[trigger] files[j]) == Some(p)),
        decreases file_names.len() - i,
    {
        let ghost before = entry_names(list@);
        assert(files[i as int] == file_names@[i as int]@);
        if let Some(p) = profile_of_file(file_names[i].as_str()) {
            let mut seen = false;
            let mut j: usize = 0;
            while j < list.len()
                invariant
                    j <= list@.len(),
                    before == entry_names(list@),
                    seen <==> exists|m: int| 0 <= m < j && before[m] == p@,
                decreases list.len() - j,
            {
                assert(before[j as int] == list@[j as int].name@);
                if text_equal(list[j].name.as_str(), p.as_str()) {
                    seen = true;
                }
                j += 1;
            }
            if !seen {
                let ghost pv = p@;
                insert_sorted(&mut list, entry(p));
                proof {
                    let now = entry_names(list@);
                    let k = choose|k: int| 0 <= k <= before.len() && now == before.insert(k, pv);
                    assert forall|a: int, b: int| 0 <= a < b < now.len() implies #[trigger] now[a] != #[trigger] now[b] by {
                        if a < k && b < k {
                            assert(now[a] == before[a] && now[b] == before[b]);
                        } else if a < k && b == k {
                            assert(now[a] == before[a]);
                        } else if a < k {
                            assert(now[a] == before[a] && now[b] == before[b - 1]);
                        } else if a == k {
                            assert(now[b] == before[b - 1]);
                        } else {
                            assert(now[a] == before[a - 1] && now[b] == before[b - 1]);
                        }
                    }
                    assert forall|q: Seq<char>| now.contains(q) <==> (before.contains(q) || q == pv) by {
                        if now.contains(q) {
                            let w = choose|w: int| 0 <= w < now.len() && now[w] == q;
                            if w < k {
                                assert(before[w] == q);
                            } else if w > k {
                                assert(before[w - 1] == q);
                            }
                        }
                        if before.contains(q) {
                            let w = choose|w: int| 0 <= w < before.len() && before[w] == q;
                            if w < k {
                                assert(now[w] == q);
                            } else {
                                assert(now[w + 1] == q);
                            }
                        }
                        if q == pv {
                            assert(now[k] == q);
                        }
                    }
                }
            } else {
                proof {
                    let m = choose|m: int| 0 <= m < list@.len() && before[m] == p@;
                    assert(before.contains(p@));
                }
            }
        }
        proof {
            let now = entry_names(list@);
            assert forall|q: Seq<char>| now.contains(q) <==> (q == default_profile()
                || exists|j: int| 0 <= j < i + 1 && spec_profile_of_file(#[trigger] files[j]) == Some(q)) by {
                if exists|j: int| 0 <= j < i + 1 && spec_profile_of_file(#[trigger] files[j]) == Some(q) {
                    let j = choose|j: int| 0 <= j < i + 1 && spec_profile_of_file(#[trigger] files[j]) == Some(q);
                    if j < i {
                        assert(before.contains(q));
                    }
                }
            }
        }
        i += 1;
    }
    let mut out: Vec<String> = Vec::new();
    let ghost names = entry_names(list@);
    let mut k: usize = 0;
    while k < list.len()
        invariant
            k <= list@.len(),
            names == entry_names(list@),
            views(out@) == names.subrange(0, k as int),
        decreases list.len() - k,
    {
        let name = list[k].name.clone();
        assert(name@ == names[k as int]);
        let ghost prev = out@;
        out.push(name);
        assert(out@ == prev.push(name));
        assert(views(out@) =~= views(prev).push(names[k as int]));
        k += 1;
        assert(views(out@) =~= names.subrange(0, k as int));
    }
    assert(names.subrange(0, names.len() as int) =~= names);
    proof {
        let v = views(out@);
        assert(v.contains(default_profile()));
        let w = choose|w: int| 0 <= w < v.len() && v[w] == default_profile();
        assert(is_default(default_profile()));
        if w > 0 {
            assert(profile_le(v[0], v[w]));
        }
    }
    out
}

} // verus!
