//! Search inside a terminal tab's scrollback: match navigation, highlight
//! ranges, viewport sync, and when to rescan.
use vstd::prelude::*;
use std::collections::HashMap;
use crate::key_encoding::{KeyCode, KeyInput};
use crate::key_routing::pop_char;
use crate::text_edit::{string_push, edit_query_key, spec_query_edit, Selection};
use crate::paste::{paste_into, pasted_chars, spec_paste};

verus! {

broadcast use vstd::std_specs::hash::group_hash_axioms;

/// Search state of one terminal tab. Each match is
/// `(absolute row, start column, length in cells)`; negative rows lie in
/// the scrollback.
#[derive(Debug)]
pub struct TerminalSearchState {
    pub active: bool,
    pub query: String,
    pub matches: Vec<(i64, u16, usize)>,
    pub current: usize,
}

impl TerminalSearchState {
    /// An inactive search with no query and no matches.
    pub fn new() -> (s: Self)
        ensures
            !s.active,
            s.query@.len() == 0,
            s.matches@.len() == 0,
            s.current == 0,
    {
        TerminalSearchState { active: false, query: String::new(), matches: Vec::new(), current: 0 }
    }

    /// Step to the next match, wrapping around (Enter / Down).
    pub fn select_next_match(&mut self)
        ensures
            final(self).matches@ == old(self).matches@,
            final(self).active == old(self).active,
            final(self).query@ == old(self).query@,
            old(self).matches@.len() == 0 ==> final(self).current == old(self).current,
            old(self).matches@.len() > 0 ==> final(self).current == next_index(old(self).current as int, old(self).matches@.len() as int),
    {
        let n = self.matches.len();
        if n == 0 {
            return;
        }
        let ghost c = self.current as int;
        self.current = if self.current < n - 1 { self.current + 1 } else { (self.current - (n - 1)) % n };
        assert(c >= n - 1 ==> (c + 1) % (n as int) == (c - (n - 1)) % (n as int)) by (nonlinear_arith)
            requires
                n > 0,
        ;
        assert(0 <= c < n - 1 ==> (c + 1) % (n as int) == c + 1) by (nonlinear_arith)
            requires
                n > 0,
        ;
    }

    /// Step to the previous match, wrapping around (Up).
    pub fn select_prev_match(&mut self)
        ensures
            final(self).matches@ == old(self).matches@,
            final(self).active == old(self).active,
            final(self).query@ == old(self).query@,
            old(self).matches@.len() == 0 ==> final(self).current == old(self).current,
            old(self).matches@.len() > 0 ==> final(self).current == prev_index(old(self).current as int, old(self).matches@.len() as int),
    {
        let n = self.matches.len();
        if n == 0 {
            return;
        }
        if self.current == 0 {
            self.current = n - 1;
        } else {
            self.current -= 1;
        }
    }

    /// Highlight range `(row, start column, end column)` of the current match.
    pub fn current_highlight_range(&self) -> (r: Option<(i64, u16, u16)>)
        ensures
            self.current < self.matches@.len() ==> {
                let (row, col, len) = self.matches@[self.current as int];
                r == Some((row, col, if col + (len as u16) > 0xffff { 0xffffu16 } else { (col + (len as u16)) as u16 }))
            },
            self.current >= self.matches@.len() ==> r is None,
    {
        if self.current < self.matches.len() {
            let (row, col, len) = self.matches[self.current];
            Some((row, col, col.saturating_add(len as u16)))
        } else {
            None
        }
    }

    /// Whether the cell `(abs_row, col)` is covered by some match.
    pub fn is_cell_in_search_match(&self, abs_row: i64, col: u16) -> (r: bool)
        ensures
            r == (self.active && exists|i: int|
                0 <= i < self.matches@.len() && #[trigger] cell_in_match(self.matches@[i], abs_row, col)),
    {
        if !self.active || self.matches.len() == 0 {
            return false;
        }
        let mut i: usize = 0;
        while i < self.matches.len()
            invariant
                self.active,
                i <= self.matches@.len(),
                forall|j: int| 0 <= j < i ==> !#[trigger] cell_in_match(self.matches@[j], abs_row, col),
            decreases self.matches.len() - i,
        {
            let (match_row, match_col, match_len) = self.matches[i];
            if match_row == abs_row && col >= match_col && ((col - match_col) as usize) < match_len {
                assert(cell_in_match(self.matches@[i as int], abs_row, col));
                return true;
            }
            i += 1;
        }
        false
    }

    /// Whether the cell `(abs_row, col)` is covered by the current match.
    pub fn is_cell_in_current_search_match(&self, abs_row: i64, col: u16) -> (r: bool)
        requires
            self.matches@.len() > 0 ==> self.current < self.matches@.len(),
        ensures
            r == (self.active && self.matches@.len() > 0 && cell_in_match(self.matches@[self.current as int], abs_row, col)),
    {
        if !self.active || self.matches.len() == 0 {
            return false;
        }
        let (match_row, match_col, match_len) = self.matches[self.current];
        match_row == abs_row && col >= match_col && ((col - match_col) as usize) < match_len
    }
}

/// The match after match `c` of `n`, wrapping around.
pub open spec fn next_index(c: int, n: int) -> int {
    (c + 1) % n
}

/// The match before match `c` of `n`, wrapping around.
pub open spec fn prev_index(c: int, n: int) -> int {
    if c == 0 {
        n - 1
    } else {
        c - 1
    }
}

/// Going to the next match and then the previous one (or the other way
/// round) comes back to the same match.
pub proof fn lemma_next_prev_inverse(c: int, n: int)
    requires
        0 <= c < n,
    ensures
        prev_index(next_index(c, n), n) == c,
        next_index(prev_index(c, n), n) == c,
        0 <= next_index(c, n) < n,
        0 <= prev_index(c, n) < n,
{
    assert(c + 1 < n ==> (c + 1) % n == c + 1) by (nonlinear_arith)
        requires
            0 <= c,
            n > 0,
    ;
    assert(c + 1 == n ==> (c + 1) % n == 0) by (nonlinear_arith)
        requires
            n > 0,
    ;
    assert(c == 0 ==> (n - 1 + 1) % n == 0) by (nonlinear_arith)
        requires
            n > 0,
    ;
    assert(c > 0 ==> (c - 1 + 1) % n == c) by (nonlinear_arith)
        requires
            0 <= c < n,
    ;
}

/// The match `m` covers the cell `(row, col)`.
pub open spec fn cell_in_match(m: (i64, u16, usize), row: i64, col: u16) -> bool {
    m.0 == row && m.1 <= col && col < m.1 + m.2
}

/// Scroll offset that shows the match on absolute row `abs_row` a third of
/// the way down a view `tab_height` rows tall, within the available scrollback.
pub open spec fn spec_search_scroll_offset(abs_row: int, tab_height: int, max_scrollback: int) -> int {
    let needed = tab_height / 3 - abs_row;
    if needed < 0 {
        0
    } else if needed <= max_scrollback {
        needed
    } else {
        max_scrollback
    }
}

/// The scroll offset that keeps the current match visible.
pub fn search_scroll_offset(abs_row: i64, tab_height: u16, max_scrollback: usize) -> (r: usize)
    requires
        abs_row > i64::MIN + 0x10000,
    ensures
        r == spec_search_scroll_offset(abs_row as int, tab_height as int, max_scrollback as int),
{
    let tab_height = tab_height as i64;
    let target_screen_row = tab_height / 3;
    let needed_scroll = target_screen_row - abs_row;
    if needed_scroll < 0 {
        0
    } else if (needed_scroll as u64) <= (max_scrollback as u64) {
        needed_scroll as usize
    } else {
        max_scrollback
    }
}

/// What a search update has to do.
#[derive(Clone, Copy, Debug, PartialEq, Eq)]
pub enum SearchDecision {
    /// Nothing changed since the last scan.
    Skip,
    /// The query is empty: drop all matches.
    Clear,
    /// Scan again; `query_changed` tells whether the query differs from the last scan's.
    Recompute { query_changed: bool },
}

/// Decide whether the search must rescan: only when it is active with a
/// non-empty query, and the query or the terminal contents (its render
/// epoch) changed since the last scan.
pub fn terminal_search_decision(
    active: bool,
    query: &str,
    last_search_query: &str,
    last_scanned_epoch: u64,
    current_epoch: u64,
) -> (d: SearchDecision)
    ensures
        d == if !active {
            SearchDecision::Skip
        } else if query@.len() == 0 {
            SearchDecision::Clear
        } else if query@ == last_search_query@ && last_scanned_epoch == current_epoch {
            SearchDecision::Skip
        } else {
            SearchDecision::Recompute { query_changed: query@ != last_search_query@ }
        },
{
    if !active {
        return SearchDecision::Skip;
    }
    if query.is_empty() {
        return SearchDecision::Clear;
    }
    let query_changed = !crate::text_edit::text_equal(query, last_search_query);
    let epoch_changed = last_scanned_epoch != current_epoch;
    if !query_changed && !epoch_changed {
        SearchDecision::Skip
    } else {
        SearchDecision::Recompute { query_changed }
    }
}

/// The current match after a rescan: the first one for a new query or when
/// nothing matches, otherwise the previous one kept in range.
pub fn current_after_rescan(previous_current: usize, match_count: usize, query_changed: bool) -> (c: usize)
    ensures
        c == if match_count == 0 || query_changed {
            0
        } else if previous_current <= match_count - 1 {
            previous_current as int
        } else {
            match_count - 1
        },
{
    if match_count == 0 || query_changed {
        0
    } else if previous_current <= match_count - 1 {
        previous_current
    } else {
        match_count - 1
    }
}

/// What the caller does after a key in the terminal search.
#[derive(Clone, Copy, Debug, PartialEq, Eq)]
pub enum SearchKeyOutcome {
    /// Nothing more.
    Done,
    /// Scroll the tab so that the current match shows.
    ScrollToMatch,
    /// The query changed: scan the terminal again.
    Rescan,
}

impl TerminalSearchState {
    /// Close the search and forget its query and matches.
    pub fn clear(&mut self)
        ensures
            !final(self).active,
            final(self).query@.len() == 0,
            final(self).matches@.len() == 0,
            final(self).current == 0,
    {
        self.active = false;
        self.query = String::new();
        self.matches = Vec::new();
        self.current = 0;
    }

    /// Handle a key while the search is open: Esc closes it, Enter and Down
    /// go to the next match, Up to the previous one, Backspace and
    /// characters edit the query.
    pub fn handle_key(&mut self, key: KeyInput) -> (outcome: SearchKeyOutcome)
        ensures
            match key.code {
                KeyCode::Esc => !final(self).active && final(self).query@.len() == 0 && final(self).matches@.len() == 0
                    && final(self).current == 0 && outcome == SearchKeyOutcome::Done,
                KeyCode::Enter | KeyCode::Down => {
                    &&& final(self).matches@ == old(self).matches@
                    &&& final(self).query@ == old(self).query@
                    &&& final(self).active == old(self).active
                    &&& old(self).matches@.len() == 0 ==> final(self).current == old(self).current && outcome == SearchKeyOutcome::Done
                    &&& old(self).matches@.len() > 0 ==> final(self).current == (old(self).current + 1) % (old(self).matches@.len() as int)
                        && outcome == SearchKeyOutcome::ScrollToMatch
                },
                KeyCode::Up => {
                    &&& final(self).matches@ == old(self).matches@
                    &&& final(self).query@ == old(self).query@
                    &&& final(self).active == old(self).active
                    &&& old(self).matches@.len() == 0 ==> final(self).current == old(self).current && outcome == SearchKeyOutcome::Done
                    &&& old(self).matches@.len() > 0 ==> final(self).current == (if old(self).current == 0 {
                        old(self).matches@.len() - 1
                    } else {
                        old(self).current - 1
                    }) && outcome == SearchKeyOutcome::ScrollToMatch
                },
                KeyCode::Backspace => {
                    &&& final(self).query@ == if old(self).query@.len() > 0 { old(self).query@.drop_last() } else { old(self).query@ }
                    &&& final(self).matches@ == old(self).matches@
                    &&& final(self).current == old(self).current
                    &&& final(self).active == old(self).active
                    &&& outcome == SearchKeyOutcome::Rescan
                },
                KeyCode::Char(c) => {
                    &&& final(self).query@ == old(self).query@.push(c)
                    &&& final(self).matches@ == old(self).matches@
                    &&& final(self).current == old(self).current
                    &&& final(self).active == old(self).active
                    &&& outcome == SearchKeyOutcome::Rescan
                },
                _ => final(self).query@ == old(self).query@ && final(self).matches@ == old(self).matches@
                    && final(self).current == old(self).current && final(self).active == old(self).active
                    && outcome == SearchKeyOutcome::Done,
            },
    {
        match key.code {
            KeyCode::Esc => {
                self.clear();
                SearchKeyOutcome::Done
            },
            KeyCode::Enter | KeyCode::Down => {
                if self.matches.len() == 0 {
                    return SearchKeyOutcome::Done;
                }
                self.select_next_match();
                SearchKeyOutcome::ScrollToMatch
            },
            KeyCode::Up => {
                if self.matches.len() == 0 {
                    return SearchKeyOutcome::Done;
                }
                self.select_prev_match();
                SearchKeyOutcome::ScrollToMatch
            },
            KeyCode::Backspace => {
                pop_char(&mut self.query);
                SearchKeyOutcome::Rescan
            },
            KeyCode::Char(c) => {
                string_push(&mut self.query, c);
                SearchKeyOutcome::Rescan
            },
            _ => SearchKeyOutcome::Done,
        }
    }

    /// Take the matches of a new scan and start from the first one; with
    /// an empty query there is nothing to scan and no match. Returns
    /// whether there is a match to scroll to.
    pub fn apply_scan(&mut self, matches: Vec<(i64, u16, usize)>) -> (scroll: bool)
        ensures
            final(self).current == 0,
            final(self).matches@ == if old(self).query@.len() == 0 { Seq::<(i64, u16, usize)>::empty() } else { matches@ },
            scroll == (old(self).query@.len() > 0 && matches@.len() > 0),
            final(self).query@ == old(self).query@,
            final(self).active == old(self).active,
    {
        self.current = 0;
        if self.query.as_str().unicode_len() == 0 {
            self.matches = Vec::new();
            return false;
        }
        let found = matches.len() > 0;
        self.matches = matches;
        found
    }
}

impl TerminalSearchState {
    /// Handle a key while the search is open, its query being edited at
    /// `cursor` with `selection`: Esc closes the search, Enter and Down go
    /// to the next match, Up to the previous one, and the editing keys of a
    /// search box edit the query, asking for a rescan when it changed.
    pub fn handle_query_key(&mut self, cursor: &mut usize, selection: &mut Selection, key: KeyInput) -> (outcome: SearchKeyOutcome)
        requires
            old(self).query@.len() < usize::MAX,
        ensures
            match key.code {
                KeyCode::Esc => {
                    &&& !final(self).active && final(self).query@.len() == 0 && final(self).matches@.len() == 0
                    &&& final(self).current == 0 && *final(cursor) == 0 && *final(selection) is None
                    &&& outcome == SearchKeyOutcome::Done
                },
                KeyCode::Enter | KeyCode::Down | KeyCode::Up => {
                    let n = old(self).matches@.len() as int;
                    &&& final(self).matches@ == old(self).matches@
                    &&& final(self).query@ == old(self).query@
                    &&& final(self).active == old(self).active
                    &&& *final(cursor) == *old(cursor) && *final(selection) == *old(selection)
                    &&& n == 0 ==> final(self).current == old(self).current && outcome == SearchKeyOutcome::Done
                    &&& n > 0 ==> outcome == SearchKeyOutcome::ScrollToMatch && final(self).current == if key.code == KeyCode::Up {
                        prev_index(old(self).current as int, n)
                    } else {
                        next_index(old(self).current as int, n)
                    }
                },
                _ => {
                    let ((t, c, sel), changed) = spec_query_edit((old(self).query@, *old(cursor), *old(selection)), key);
                    &&& final(self).query@ == t && *final(cursor) == c && *final(selection) == sel
                    &&& final(self).matches@ == old(self).matches@
                    &&& final(self).current == old(self).current
                    &&& final(self).active == old(self).active
                    &&& outcome == if changed { SearchKeyOutcome::Rescan } else { SearchKeyOutcome::Done }
                },
            },
    {
        match key.code {
            KeyCode::Esc => {
                self.clear();
                *cursor = 0;
                *selection = None;
                SearchKeyOutcome::Done
            },
            KeyCode::Enter | KeyCode::Down => {
                if self.matches.len() == 0 {
                    return SearchKeyOutcome::Done;
                }
                self.select_next_match();
                SearchKeyOutcome::ScrollToMatch
            },
            KeyCode::Up => {
                if self.matches.len() == 0 {
                    return SearchKeyOutcome::Done;
                }
                self.select_prev_match();
                SearchKeyOutcome::ScrollToMatch
            },
            _ => {
                if edit_query_key(&mut self.query, cursor, selection, key) {
                    SearchKeyOutcome::Rescan
                } else {
                    SearchKeyOutcome::Done
                }
            },
        }
    }

    /// Paste into the query at `cursor`, replacing `selection`; control
    /// characters are dropped. Returns whether the query changed, which
    /// calls for a rescan.
    pub fn paste_query(&mut self, cursor: &mut usize, selection: &mut Selection, pasted: &str) -> (changed: bool)
        requires
            old(self).query@.len() + pasted@.len() < usize::MAX,
        ensures
            changed == (pasted_chars(pasted@, false).len() > 0),
            !changed ==> final(self).query@ == old(self).query@ && *final(cursor) == *old(cursor) && *final(selection) == *old(selection),
            changed ==> ({
                let (t, c) = spec_paste(old(self).query@, *old(cursor) as int, *old(selection), pasted_chars(pasted@, false));
                &&& final(self).query@ == t
                &&& *final(cursor) == c
                &&& *final(selection) is None
            }),
            final(self).matches@ == old(self).matches@,
            final(self).current == old(self).current,
            final(self).active == old(self).active,
    {
        paste_into(&mut self.query, cursor, selection, pasted, false)
    }
}

/// The column ranges `(start, end)` of the matches on `row`, in the order
/// of the matches.
pub open spec fn ranges_on_row(matches: Seq<(i64, u16, u16)>, row: i64) -> Seq<(u16, u16)>
    decreases matches.len(),
{
    if matches.len() == 0 {
        Seq::empty()
    } else if matches.last().0 == row {
        ranges_on_row(matches.drop_last(), row).push((matches.last().1, matches.last().2))
    } else {
        ranges_on_row(matches.drop_last(), row)
    }
}

/// Some match lies on `row`.
pub open spec fn has_row(matches: Seq<(i64, u16, u16)>, row: i64) -> bool {
    exists|i: int| 0 <= i < matches.len() && #[trigger] matches[i].0 == row
}

proof fn lemma_no_row_no_ranges(matches: Seq<(i64, u16, u16)>, row: i64)
    requires
        !has_row(matches, row),
    ensures
        ranges_on_row(matches, row) == Seq::<(u16, u16)>::empty(),
    decreases matches.len(),
{
    if matches.len() > 0 {
        assert(matches.last() == matches[matches.len() - 1]);
        assert forall|i: int| 0 <= i < matches.drop_last().len() implies #[trigger] matches.drop_last()[i].0 != row by {
            assert(matches.drop_last()[i] == matches[i]);
        }
        lemma_no_row_no_ranges(matches.drop_last(), row);
    }
}

/// Ranges in order of their start column.
pub open spec fn starts_sorted(s: Seq<(u16, u16)>) -> bool {
    forall|i: int, j: int| 0 <= i <= j < s.len() ==> #[trigger] s[i].0 <= #[trigger] s[j].0
}

/// Insert `x` after the ranges that start at or before it.
fn insert_by_start(v: &mut Vec<(u16, u16)>, x: (u16, u16))
    requires
        starts_sorted(old(v)@),
    ensures
        final(v)@.to_multiset() == old(v)@.to_multiset().insert(x),
        starts_sorted(final(v)@),
{
    let mut k: usize = 0;
    while k < v.len() && v[k].0 <= x.0
        invariant
            k <= v@.len(),
            forall|j: int| 0 <= j < k ==> #[trigger] v@[j].0 <= x.0,
        decreases v.len() - k,
    {
        k += 1;
    }
    let ghost before = v@;
    proof {
        assert(forall|j: int| k <= j < before.len() ==> #[trigger] before[j].0 > x.0) by {
            if k < before.len() {
                assert(before[k as int].0 > x.0);
            }
        }
        vstd::seq_lib::to_multiset_insert(before, k as int, x);
    }
    v.insert(k, x);
    assert(v@ == before.insert(k as int, x));
    assert forall|i: int, j: int| 0 <= i <= j < v@.len() implies #[trigger] v@[i].0 <= #[trigger] v@[j].0 by {
        if i < k && j < k {
        } else if i < k && j == k {
        } else if i < k {
            assert(v@[j] == before[j - 1]);
        } else if i == k && j == k {
        } else if i == k {
            assert(v@[j] == before[j - 1]);
        } else {
            assert(v@[i] == before[i - 1]);
            assert(v@[j] == before[j - 1]);
        }
    }
}

/// The highlight ranges of a terminal search: the column ranges of the
/// matches grouped by row, each row's ranges in order of their start
/// column, and the current match (none when there is no such match).
pub fn build_search_row_ranges_from_matches(matches: &[(i64, u16, u16)], current: usize) -> (r: (HashMap<i64, Vec<(u16, u16)>>, Option<(i64, u16, u16)>))
    ensures
        forall|row: i64| r.0@.contains_key(row) <==> has_row(matches@, row),
        forall|row: i64| #[trigger] r.0@.contains_key(row) ==> starts_sorted(r.0@[row]@)
            && r.0@[row]@.to_multiset() == ranges_on_row(matches@, row).to_multiset(),
        r.1 == if current < matches@.len() { Some(matches@[current as int]) } else { None },
{
    let mut map: HashMap<i64, Vec<(u16, u16)>> = HashMap::new();
    let mut i: usize = 0;
    while i < matches.len()
        invariant
            i <= matches@.len(),
            forall|row: i64| map@.contains_key(row) <==> has_row(matches@.subrange(0, i as int), row),
            forall|row: i64| #[trigger] map@.contains_key(row) ==> starts_sorted(map@[row]@)
                && map@[row]@.to_multiset() == ranges_on_row(matches@.subrange(0, i as int), row).to_multiset(),
        decreases matches.len() - i,
    {
        let (row, start, end) = matches[i];
        let ghost old_map = map@;
        let ghost pre = matches@.subrange(0, i as int);
        let ghost next = matches@.subrange(0, i + 1);
        let existing = map.remove(&row);
        let mut ranges = match existing {
            Some(v) => v,
            None => Vec::new(),
        };
        proof {
            assert(next.drop_last() =~= pre);
            assert(next.last() == (row, start, end));
            if !old_map.contains_key(row) {
                assert(ranges@ =~= Seq::<(u16, u16)>::empty());
                lemma_no_row_no_ranges(pre, row);
            }
        }
        insert_by_start(&mut ranges, (start, end));
        map.insert(row, ranges);
        proof {
            broadcast use vstd::seq_lib::group_to_multiset_ensures;
            assert(ranges_on_row(next, row) == ranges_on_row(pre, row).push((start, end)));
            assert forall|r: i64| r != row implies ranges_on_row(next, r) == ranges_on_row(pre, r) by {}
            assert forall|r: i64| map@.contains_key(r) <==> has_row(next, r) by {
                if has_row(next, r) && r != row {
                    let w = choose|j: int| 0 <= j < next.len() && #[trigger] next[j].0 == r;
                    assert(pre[w] == next[w]);
                }
                if has_row(pre, r) {
                    let w = choose|j: int| 0 <= j < pre.len() && #[trigger] pre[j].0 == r;
                    assert(next[w] == pre[w]);
                }
                assert(next[i as int].0 == row);
            }
        }
        i += 1;
    }
    assert(matches@.subrange(0, matches@.len() as int) =~= matches@);
    let cur = if current < matches.len() { Some(matches[current]) } else { None };
    (map, cur)
}

} // verus!
