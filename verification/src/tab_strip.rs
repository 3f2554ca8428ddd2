//! Tab-bar geometry: horizontal scrolling of the tab strip, hit testing,
//! and reordering of tabs.
//!
//! The strip is described by the display width of each tab (its title's
//! display width plus three cells of padding and close marker). Scroll
//! offsets snap to tab boundaries; when the tabs overflow, a one-cell
//! marker on each scrolled side shows that more tabs are hidden.
use vstd::prelude::*;

verus! {

/// Display width of a tab whose title is `title_width` cells wide.
pub fn tab_display_width(title_width: usize) -> (w: usize)
    requires
        title_width <= usize::MAX - 3,
    ensures
        w == title_width + 3,
{
    title_width + 3
}

/// Sum of the first `i` widths: the start offset of tab `i`.
pub open spec fn prefix_width(w: Seq<usize>, i: int) -> int
    decreases i,
{
    if i <= 0 || w.len() == 0 {
        0
    } else if i > w.len() {
        prefix_width(w, w.len() as int)
    } else {
        prefix_width(w, i - 1) + w[i - 1]
    }
}

/// Width of the whole strip.
pub open spec fn total_width(w: Seq<usize>) -> int {
    prefix_width(w, w.len() as int)
}

/// The strip, plus one terminal width (a `u16` column count), fits in
/// `usize`: the hit test adds a column of the bar to a tab's start, and the
/// router keeps this for every tab list it builds.
pub open spec fn strip_fits(w: Seq<usize>) -> bool {
    total_width(w) + 0x10000 <= usize::MAX
}

/// The strip's total width fits in `usize`.
pub open spec fn total_fits(w: Seq<usize>) -> bool {
    total_width(w) <= usize::MAX
}

/// Every tab start lies between zero and the strip's total width.
pub proof fn lemma_prefix_bounded(w: Seq<usize>)
    ensures
        forall|k: int| 0 <= k <= w.len() ==> 0 <= #[trigger] prefix_width(w, k) <= total_width(w),
        forall|k: int|
            0 <= k < w.len() ==> #[trigger] w[k] <= total_width(w) && prefix_width(w, k + 1)
                == prefix_width(w, k) + w[k],
{
    assert forall|k: int| 0 <= k <= w.len() implies 0 <= #[trigger] prefix_width(w, k) <= total_width(w) by {
        lemma_prefix_monotone(w, k, w.len() as int);
    }
    assert forall|k: int| 0 <= k < w.len() implies #[trigger] w[k] <= total_width(w) && prefix_width(w, k + 1)
        == prefix_width(w, k) + w[k] by {
        lemma_prefix_monotone(w, k, w.len() as int);
        lemma_prefix_monotone(w, k + 1, w.len() as int);
    }
}

pub proof fn lemma_prefix_monotone(w: Seq<usize>, i: int, j: int)
    requires
        0 <= i <= j <= w.len(),
    ensures
        0 <= prefix_width(w, i) <= prefix_width(w, j),
    decreases j - i,
{
    if i < j {
        lemma_prefix_monotone(w, i, j - 1);
    } else {
        lemma_prefix_nonneg(w, i);
    }
}

proof fn lemma_prefix_nonneg(w: Seq<usize>, i: int)
    requires
        0 <= i <= w.len(),
    ensures
        0 <= prefix_width(w, i),
    decreases i,
{
    if i > 0 {
        lemma_prefix_nonneg(w, i - 1);
    }
}

/// The first tab start in `i..n` that is at least `thr`, if any.
pub open spec fn first_start_at_least(w: Seq<usize>, thr: int, i: int) -> Option<int>
    decreases w.len() - i,
{
    if i < 0 || i >= w.len() {
        None
    } else if prefix_width(w, i) >= thr {
        Some(prefix_width(w, i))
    } else {
        first_start_at_least(w, thr, i + 1)
    }
}

/// The first tab start in `i..n` that is greater than `v`, if any.
pub open spec fn first_start_above(w: Seq<usize>, v: int, i: int) -> Option<int>
    decreases w.len() - i,
{
    if i < 0 || i >= w.len() {
        None
    } else if prefix_width(w, i) > v {
        Some(prefix_width(w, i))
    } else {
        first_start_above(w, v, i + 1)
    }
}

/// The last tab start before the first one that exceeds `v`, scanning `i..n`
/// with `snapped` the start kept so far.
pub open spec fn last_start_at_most(w: Seq<usize>, v: int, i: int, snapped: int) -> int
    decreases w.len() - i,
{
    if i < 0 || i >= w.len() || prefix_width(w, i) > v {
        snapped
    } else {
        last_start_at_most(w, v, i + 1, prefix_width(w, i))
    }
}

/// The last tab start before the first one that is at least `v`.
pub open spec fn last_start_below(w: Seq<usize>, v: int, i: int, prev: int) -> int
    decreases w.len() - i,
{
    if i < 0 || i >= w.len() || prefix_width(w, i) >= v {
        prev
    } else {
        last_start_below(w, v, i + 1, prefix_width(w, i))
    }
}

/// Right-most snap point: the first tab start from which the rest of the
/// strip fits next to a left marker (the last tab's start if none does).
pub open spec fn spec_final_right_offset(w: Seq<usize>, available: int) -> int {
    if w.len() == 0 || available == 0 || total_width(w) <= available {
        0
    } else {
        let threshold = total_width(w) - (available - 1);
        match first_start_at_least(w, threshold, 0) {
            Some(s) => s,
            None => prefix_width(w, w.len() - 1),
        }
    }
}

/// A raw offset clamped to the right-most snap point and snapped down to a tab start.
pub open spec fn spec_normalize_offset(w: Seq<usize>, raw: int, available: int) -> int {
    if w.len() == 0 || available == 0 {
        0
    } else {
        let f = spec_final_right_offset(w, available);
        let clamped = if raw <= f { raw } else { f };
        last_start_at_most(w, clamped, 0, 0)
    }
}

/// `v` is the start of one of the tabs.
pub open spec fn is_tab_start(w: Seq<usize>, v: int) -> bool {
    exists|j: int| 0 <= j < w.len() && #[trigger] prefix_width(w, j) == v
}

proof fn lemma_first_start_at_least_nonneg(w: Seq<usize>, thr: int, i: int)
    ensures
        first_start_at_least(w, thr, i) matches Some(v) ==> v >= 0,
    decreases w.len() - i,
{
    if 0 <= i < w.len() {
        lemma_prefix_nonneg(w, i);
        lemma_first_start_at_least_nonneg(w, thr, i + 1);
    }
}

/// `last_start_at_most` gives the largest tab start that is at most `v`.
proof fn lemma_last_start_at_most(w: Seq<usize>, v: int, i: int, snapped: int)
    requires
        0 <= i <= w.len(),
        w.len() > 0,
        0 <= snapped <= v,
        i == 0 ==> snapped == 0,
        i > 0 ==> snapped == prefix_width(w, i - 1),
    ensures
        ({
            let r = last_start_at_most(w, v, i, snapped);
            &&& snapped <= r <= v
            &&& is_tab_start(w, r)
            &&& forall|j: int| 0 <= j < w.len() && #[trigger] prefix_width(w, j) <= v ==> prefix_width(w, j) <= r
        }),
    decreases w.len() - i,
{
    let r = last_start_at_most(w, v, i, snapped);
    if i == 0 {
        assert(prefix_width(w, 0) == 0);
    } else {
        assert(prefix_width(w, i - 1) == snapped);
    }
    if i >= w.len() || prefix_width(w, i) > v {
        assert forall|j: int| 0 <= j < w.len() && #[trigger] prefix_width(w, j) <= v implies prefix_width(w, j) <= r by {
            if j < i {
                lemma_prefix_monotone(w, j, i - 1);
            } else {
                lemma_prefix_monotone(w, i, j);
            }
        }
    } else {
        lemma_prefix_nonneg(w, i);
        if i > 0 {
            lemma_prefix_monotone(w, i - 1, i);
        }
        lemma_last_start_at_most(w, v, i + 1, prefix_width(w, i));
    }
}

/// The tab scroll offset is clamped, snapped and stable: normalising gives
/// the largest tab start that is at most both the raw offset and the
/// right-most snap point, and normalising that again changes nothing.
pub proof fn lemma_normalize_offset_snaps(w: Seq<usize>, raw: int, available: int)
    requires
        w.len() > 0,
        available > 0,
        raw >= 0,
    ensures
        ({
            let f = spec_final_right_offset(w, available);
            let bound = if raw <= f { raw } else { f };
            let r = spec_normalize_offset(w, raw, available);
            &&& 0 <= r <= bound
            &&& is_tab_start(w, r)
            &&& forall|j: int| 0 <= j < w.len() && #[trigger] prefix_width(w, j) <= bound ==> prefix_width(w, j) <= r
            &&& spec_normalize_offset(w, r, available) == r
        }),
{
    let f = spec_final_right_offset(w, available);
    lemma_prefix_nonneg(w, w.len() - 1);
    lemma_first_start_at_least_nonneg(w, total_width(w) - (available - 1), 0);
    assert(f >= 0);
    let bound = if raw <= f { raw } else { f };
    lemma_last_start_at_most(w, bound, 0, 0);
    let r = spec_normalize_offset(w, raw, available);
    let j = choose|j: int| 0 <= j < w.len() && #[trigger] prefix_width(w, j) == r;
    lemma_last_start_at_most(w, r, 0, 0);
    let r2 = last_start_at_most(w, r, 0, 0);
    assert(prefix_width(w, j) <= r);
    assert(r2 >= r);
}

/// The snap point before the current one, if the strip is scrolled at all.
pub open spec fn spec_prev_offset(w: Seq<usize>, raw: int, available: int) -> Option<int> {
    if w.len() == 0 || available == 0 {
        None
    } else {
        let current = spec_normalize_offset(w, raw, available);
        if current == 0 {
            None
        } else {
            Some(last_start_below(w, current, 0, 0))
        }
    }
}

/// The snap point after the current one, if the strip can scroll further right.
pub open spec fn spec_next_offset(w: Seq<usize>, raw: int, available: int) -> Option<int> {
    if w.len() == 0 || available == 0 || total_width(w) <= available {
        None
    } else {
        let current = spec_normalize_offset(w, raw, available);
        let f = spec_final_right_offset(w, available);
        if current >= f {
            None
        } else {
            match first_start_above(w, current, 0) {
                Some(s) => Some(if s <= f { s } else { f }),
                None => Some(f),
            }
        }
    }
}

/// Aggregate tab strip width.
pub fn total_tab_width(widths: &[usize]) -> (t: usize)
    requires
        total_fits(widths@),
    ensures
        t == total_width(widths@),
{
    let mut total: usize = 0;
    let mut idx: usize = 0;
    while idx < widths.len()
        invariant
            idx <= widths@.len(),
            total == prefix_width(widths@, idx as int),
            total_fits(widths@),
        decreases widths.len() - idx,
    {
        proof {
            lemma_prefix_monotone(widths@, idx + 1, widths@.len() as int);
        }
        total = total + widths[idx];
        idx += 1;
    }
    total
}

/// Right-most snap point when tabs overflow.
pub fn final_right_tab_scroll_offset(widths: &[usize], available_width: usize) -> (r: usize)
    requires
        total_fits(widths@),
    ensures
        r == spec_final_right_offset(widths@, available_width as int),
{
    if widths.len() == 0 || available_width == 0 {
        return 0;
    }
    let total = total_tab_width(widths);
    if total <= available_width {
        return 0;
    }
    let visible_with_left_marker = available_width - 1;
    let threshold = total - visible_with_left_marker;
    let mut start: usize = 0;
    let mut last_start: usize = 0;
    let mut idx: usize = 0;
    while idx < widths.len()
        invariant
            0 < widths@.len(),
            idx <= widths@.len(),
            total == total_width(widths@),
            available_width > 0,
            total > available_width,
            threshold == total - (available_width - 1),
            total_fits(widths@),
            start == prefix_width(widths@, idx as int),
            idx > 0 ==> last_start == prefix_width(widths@, idx - 1),
            first_start_at_least(widths@, threshold as int, 0) == first_start_at_least(
                widths@,
                threshold as int,
                idx as int,
            ),
        decreases widths.len() - idx,
    {
        if start >= threshold {
            assert(first_start_at_least(widths@, threshold as int, idx as int) == Some(start as int));
            return start;
        }
        proof {
            lemma_prefix_monotone(widths@, idx + 1, widths@.len() as int);
        }
        last_start = start;
        start = start + widths[idx];
        idx += 1;
    }
    last_start
}

/// Clamp and snap an arbitrary scroll offset to a tab boundary.
pub fn normalize_tab_scroll_offset(widths: &[usize], raw_offset: usize, available_width: usize) -> (r: usize)
    requires
        total_fits(widths@),
    ensures
        r == spec_normalize_offset(widths@, raw_offset as int, available_width as int),
{
    if widths.len() == 0 || available_width == 0 {
        return 0;
    }
    let final_offset = final_right_tab_scroll_offset(widths, available_width);
    let clamped = if raw_offset <= final_offset { raw_offset } else { final_offset };
    let mut snapped: usize = 0;
    let mut start: usize = 0;
    let mut idx: usize = 0;
    while idx < widths.len() && start <= clamped
        invariant
            idx <= widths@.len(),
            total_fits(widths@),
            start == prefix_width(widths@, idx as int),
            last_start_at_most(widths@, clamped as int, 0, 0) == last_start_at_most(
                widths@,
                clamped as int,
                idx as int,
                snapped as int,
            ),
        decreases widths.len() - idx,
    {
        proof {
            lemma_prefix_monotone(widths@, idx + 1, widths@.len() as int);
        }
        snapped = start;
        start = start + widths[idx];
        idx += 1;
    }
    snapped
}

/// The previous snap point, for a click on the left overflow marker.
pub fn prev_tab_scroll_offset(widths: &[usize], raw_offset: usize, available_width: usize) -> (r: Option<usize>)
    requires
        total_fits(widths@),
    ensures
        match r {
            Some(v) => spec_prev_offset(widths@, raw_offset as int, available_width as int) == Some(
                v as int,
            ),
            None => spec_prev_offset(widths@, raw_offset as int, available_width as int) is None,
        },
{
    if widths.len() == 0 || available_width == 0 {
        return None;
    }
    let current = normalize_tab_scroll_offset(widths, raw_offset, available_width);
    if current == 0 {
        return None;
    }
    let mut previous: usize = 0;
    let mut start: usize = 0;
    let mut idx: usize = 0;
    while idx < widths.len() && start < current
        invariant
            idx <= widths@.len(),
            total_fits(widths@),
            start == prefix_width(widths@, idx as int),
            last_start_below(widths@, current as int, 0, 0) == last_start_below(
                widths@,
                current as int,
                idx as int,
                previous as int,
            ),
        decreases widths.len() - idx,
    {
        proof {
            lemma_prefix_monotone(widths@, idx + 1, widths@.len() as int);
        }
        previous = start;
        start = start + widths[idx];
        idx += 1;
    }
    Some(previous)
}

/// The next snap point, for a click on the right overflow marker.
pub fn next_tab_scroll_offset(widths: &[usize], raw_offset: usize, available_width: usize) -> (r: Option<usize>)
    requires
        total_fits(widths@),
    ensures
        match r {
            Some(v) => spec_next_offset(widths@, raw_offset as int, available_width as int) == Some(
                v as int,
            ),
            None => spec_next_offset(widths@, raw_offset as int, available_width as int) is None,
        },
{
    if widths.len() == 0 || available_width == 0 {
        return None;
    }
    let total = total_tab_width(widths);
    if total <= available_width {
        return None;
    }
    let current = normalize_tab_scroll_offset(widths, raw_offset, available_width);
    let final_offset = final_right_tab_scroll_offset(widths, available_width);
    if current >= final_offset {
        return None;
    }
    let mut start: usize = 0;
    let mut idx: usize = 0;
    while idx < widths.len()
        invariant
            idx <= widths@.len(),
            total_fits(widths@),
            widths@.len() > 0,
            available_width > 0,
            total == total_width(widths@),
            total > available_width,
            current == spec_normalize_offset(widths@, raw_offset as int, available_width as int),
            final_offset == spec_final_right_offset(widths@, available_width as int),
            current < final_offset,
            start == prefix_width(widths@, idx as int),
            first_start_above(widths@, current as int, 0) == first_start_above(
                widths@,
                current as int,
                idx as int,
            ),
        decreases widths.len() - idx,
    {
        if start > current {
            assert(first_start_above(widths@, current as int, idx as int) == Some(start as int));
            return Some(if start <= final_offset { start } else { final_offset });
        }
        proof {
            lemma_prefix_monotone(widths@, idx + 1, widths@.len() as int);
        }
        start = start + widths[idx];
        idx += 1;
    }
    Some(final_offset)
}


/// What a click on the tab bar hit.
#[derive(Clone, Copy, Debug, PartialEq, Eq)]
pub enum TabBarHit {
    LeftOverflow,
    RightOverflow,
    TabTitle(usize),
    TabClose(usize),
}

/// Index of the first tab not entirely scrolled out to the left.
pub open spec fn first_visible_index(w: Seq<usize>, scroll: int, i: int, running: int) -> (int, int)
    decreases w.len() - i,
{
    if 0 <= i < w.len() && running + w[i] <= scroll {
        first_visible_index(w, scroll, i + 1, running + w[i])
    } else {
        (i, running)
    }
}

/// The tab under local column `local` of the visible part, scanning tabs from `idx`
/// with `used` cells already taken.
pub open spec fn hit_from(w: Seq<usize>, local: int, visible: int, idx: int, used: int) -> Option<TabBarHit>
    decreases w.len() - idx,
{
    if idx < 0 || idx >= w.len() || used >= visible {
        None
    } else {
        let end = if used + w[idx] <= visible { used + w[idx] } else { visible };
        if local < end {
            let close_pos = used + (w[idx] - 3) + 1;
            if close_pos < end && local == close_pos {
                Some(TabBarHit::TabClose(idx as usize))
            } else {
                Some(TabBarHit::TabTitle(idx as usize))
            }
        } else {
            hit_from(w, local, visible, idx + 1, used + w[idx])
        }
    }
}

/// What a click at `column` hits, given the bar's left edge and width and
/// the (already normalized) scroll offset.
pub open spec fn spec_tab_bar_hit(w: Seq<usize>, bar_x: int, bar_width: int, scroll: int, column: int) -> Option<TabBarHit> {
    let visual = if column >= bar_x { column - bar_x } else { 0 };
    let left = spec_prev_offset(w, scroll, bar_width) is Some;
    let right = spec_next_offset(w, scroll, bar_width) is Some;
    let left_slot: int = if left { 1 } else { 0 };
    let right_slot: int = if right { 1 } else { 0 };
    let visible = if bar_width >= left_slot + right_slot { bar_width - (left_slot + right_slot) } else { 0 };
    if left && visual == 0 {
        Some(TabBarHit::LeftOverflow)
    } else if right && visual == bar_width - 1 {
        Some(TabBarHit::RightOverflow)
    } else if visual < left_slot || visual >= left_slot + visible {
        None
    } else {
        let (first, running) = first_visible_index(w, scroll, 0, 0);
        hit_from(w, visual - left_slot, visible, first, 0)
    }
}

/// Every tab is at least as wide as its padding.
pub open spec fn tabs_padded(w: Seq<usize>) -> bool {
    forall|i: int| 0 <= i < w.len() ==> #[trigger] w[i] >= 3
}


/// Scanning from tab `i` for the first tab still showing when the strip is
/// scrolled to the start of tab `k` stops at tab `k`.
proof fn lemma_first_visible_at_start(w: Seq<usize>, k: int, i: int)
    requires
        tabs_padded(w),
        0 <= i <= k < w.len(),
    ensures
        first_visible_index(w, prefix_width(w, k), i, prefix_width(w, i)) == (k, prefix_width(w, k)),
    decreases k - i,
{
    assert(w[i] >= 3);
    assert(prefix_width(w, i + 1) == prefix_width(w, i) + w[i]);
    if i < k {
        lemma_prefix_monotone(w, i + 1, k);
        lemma_first_visible_at_start(w, k, i + 1);
    }
}

/// Scanning the drawn tabs from tab `idx` (with `used` columns before it,
/// the strip scrolled to the start of tab `k`), a column inside tab `j`
/// names tab `j`: its close marker two columns before the tab's end, its
/// title elsewhere.
proof fn lemma_hit_inside_tab(w: Seq<usize>, k: int, local: int, visible: int, idx: int, j: int)
    requires
        tabs_padded(w),
        0 <= k <= idx <= j < w.len(),
        prefix_width(w, j) - prefix_width(w, k) <= local < prefix_width(w, j + 1) - prefix_width(w, k),
        local < visible,
    ensures
        hit_from(w, local, visible, idx, prefix_width(w, idx) - prefix_width(w, k)) == if local == prefix_width(w, j + 1) - prefix_width(w, k) - 2 {
            Some(TabBarHit::TabClose(j as usize))
        } else {
            Some(TabBarHit::TabTitle(j as usize))
        },
    decreases j - idx,
{
    assert(w[idx] >= 3);
    assert(prefix_width(w, idx + 1) == prefix_width(w, idx) + w[idx]);
    assert(prefix_width(w, j + 1) == prefix_width(w, j) + w[j]);
    lemma_prefix_monotone(w, idx, j);
    lemma_prefix_monotone(w, k, idx);
    if idx < j {
        lemma_prefix_monotone(w, idx + 1, j);
        lemma_hit_inside_tab(w, k, local, visible, idx + 1, j);
    }
}

/// A click inside a drawn tab names that tab: with the strip scrolled to
/// the start of tab `k`, a click `c` columns into the drawn part of the bar
/// (after the left arrow, when there is one), within tab `j`'s columns,
/// hits tab `j`: its close marker on the tab's second-to-last column, its
/// title elsewhere. In particular the first drawn column hits tab `k`.
pub proof fn lemma_click_inside_tab(w: Seq<usize>, bar_x: int, bar_width: int, k: int, j: int, c: int)
    requires
        tabs_padded(w),
        0 <= k <= j < w.len(),
        0 <= bar_x,
        0 <= c,
        ({
            let scroll = prefix_width(w, k);
            let l: int = if spec_prev_offset(w, scroll, bar_width) is Some { 1 } else { 0 };
            let r: int = if spec_next_offset(w, scroll, bar_width) is Some { 1 } else { 0 };
            c < bar_width - l - r
        }),
        prefix_width(w, j) - prefix_width(w, k) <= c < prefix_width(w, j + 1) - prefix_width(w, k),
    ensures
        ({
            let scroll = prefix_width(w, k);
            let l: int = if spec_prev_offset(w, scroll, bar_width) is Some { 1 } else { 0 };
            spec_tab_bar_hit(w, bar_x, bar_width, scroll, bar_x + l + c) == if c == prefix_width(w, j + 1) - prefix_width(w, k) - 2 {
                Some(TabBarHit::TabClose(j as usize))
            } else {
                Some(TabBarHit::TabTitle(j as usize))
            }
        }),
{
    let scroll = prefix_width(w, k);
    lemma_first_visible_at_start(w, k, 0);
    assert(prefix_width(w, 0) == 0);
    let l: int = if spec_prev_offset(w, scroll, bar_width) is Some { 1 } else { 0 };
    let r: int = if spec_next_offset(w, scroll, bar_width) is Some { 1 } else { 0 };
    let visible = bar_width - (l + r);
    lemma_hit_inside_tab(w, k, c, visible, k, j);
}

#[verifier::loop_isolation(false)]
/// Hit-test a click on the tab bar. The stored scroll offset is normalized
/// first, as the bar is drawn from the normalized offset.
pub fn tab_bar_hit_test(widths: &[usize], bar_x: u16, bar_width: u16, tab_scroll_offset: &mut usize, column: u16) -> (r: Option<TabBarHit>)
    requires
        strip_fits(widths@),
        tabs_padded(widths@),
    ensures
        widths@.len() == 0 || bar_width == 0 ==> r is None && *final(tab_scroll_offset) == *old(tab_scroll_offset),
        widths@.len() > 0 && bar_width > 0 ==> {
            &&& *final(tab_scroll_offset) == spec_normalize_offset(widths@, *old(tab_scroll_offset) as int, bar_width as int)
            &&& r == spec_tab_bar_hit(widths@, bar_x as int, bar_width as int, *final(tab_scroll_offset) as int, column as int)
        },
{
    if widths.len() == 0 || bar_width == 0 {
        return None;
    }
    let visual_col: usize = if column >= bar_x { (column - bar_x) as usize } else { 0 };
    let available_width = bar_width as usize;
    *tab_scroll_offset = normalize_tab_scroll_offset(widths, *tab_scroll_offset, available_width);
    let scroll = *tab_scroll_offset;
    let has_left_overflow = prev_tab_scroll_offset(widths, scroll, available_width).is_some();
    let left_slot: usize = if has_left_overflow { 1 } else { 0 };
    let has_right_overflow = next_tab_scroll_offset(widths, scroll, available_width).is_some();
    let right_slot: usize = if has_right_overflow { 1 } else { 0 };
    let visible_tab_width = if available_width >= left_slot + right_slot { available_width - (left_slot + right_slot) } else { 0 };
    if has_left_overflow && visual_col == 0 {
        return Some(TabBarHit::LeftOverflow);
    }
    if has_right_overflow && visual_col == available_width - 1 {
        return Some(TabBarHit::RightOverflow);
    }
    if visual_col < left_slot || visual_col >= left_slot + visible_tab_width {
        return None;
    }
    let local_col = visual_col - left_slot;
    let mut running_start: usize = 0;
    let mut first_visible_idx: usize = 0;
    proof {
        lemma_prefix_bounded(widths@);
    }
    while first_visible_idx < widths.len() && running_start + widths[first_visible_idx] <= scroll
        invariant
            first_visible_idx <= widths@.len(),
            strip_fits(widths@),
            running_start == prefix_width(widths@, first_visible_idx as int),
            first_visible_index(widths@, scroll as int, 0, 0) == first_visible_index(
                widths@,
                scroll as int,
                first_visible_idx as int,
                running_start as int,
            ),
        decreases widths.len() - first_visible_idx,
    {
        proof {
            lemma_prefix_monotone(widths@, first_visible_idx + 1, widths@.len() as int);
        }
        running_start = running_start + widths[first_visible_idx];
        first_visible_idx += 1;
    }
    let mut used: usize = 0;
    let mut idx = first_visible_idx;
    while idx < widths.len() && used < visible_tab_width
        invariant
            first_visible_idx <= idx <= widths@.len(),
            strip_fits(widths@),
            tabs_padded(widths@),
            used <= visible_tab_width,
            visible_tab_width <= 0xffff,
            hit_from(widths@, local_col as int, visible_tab_width as int, first_visible_idx as int, 0)
                == hit_from(widths@, local_col as int, visible_tab_width as int, idx as int, used as int),
        decreases widths.len() - idx,
    {
        let tab_width = widths[idx];
        let visible_end = if tab_width <= visible_tab_width - used { used + tab_width } else { visible_tab_width };
        if local_col < visible_end {
            let close_pos = used + (tab_width - 3) + 1;
            if close_pos < visible_end && local_col == close_pos {
                return Some(TabBarHit::TabClose(idx));
            }
            return Some(TabBarHit::TabTitle(idx));
        }
        if tab_width > visible_tab_width - used {
            used = visible_tab_width;
            idx += 1;
            assert(hit_from(widths@, local_col as int, visible_tab_width as int, idx as int, used as int) is None);
            assert(false) by {
                assert(local_col < visible_tab_width);
            };
        } else {
            used = used + tab_width;
            idx += 1;
        }
    }
    None
}

/// Move the tab at `from_idx` to `to_idx`, keeping the same tab selected.
/// Returns whether anything moved.
pub fn move_tab<T>(tabs: &mut Vec<T>, selected_tab: &mut usize, from_idx: usize, to_idx: usize) -> (moved: bool)
    ensures
        moved == (from_idx < old(tabs)@.len() && to_idx < old(tabs)@.len() && from_idx != to_idx),
        !moved ==> final(tabs)@ == old(tabs)@ && *final(selected_tab) == *old(selected_tab),
        moved ==> {
            let sel = if *old(selected_tab) < old(tabs)@.len() { *old(selected_tab) as int } else { old(tabs)@.len() - 1 };
            &&& final(tabs)@ == old(tabs)@.remove(from_idx as int).insert(to_idx as int, old(tabs)@[from_idx as int])
            &&& *final(selected_tab) == if sel == from_idx {
                to_idx as int
            } else if from_idx < sel && to_idx >= sel {
                sel - 1
            } else if from_idx > sel && to_idx <= sel {
                sel + 1
            } else {
                sel
            }
        },
{
    if from_idx >= tabs.len() || to_idx >= tabs.len() || from_idx == to_idx {
        return false;
    }
    let last = tabs.len() - 1;
    let selected_before = if *selected_tab < last { *selected_tab } else { last };
    let moved_tab = tabs.remove(from_idx);
    tabs.insert(to_idx, moved_tab);
    *selected_tab = if selected_before == from_idx {
        to_idx
    } else if from_idx < selected_before && to_idx >= selected_before {
        selected_before - 1
    } else if from_idx > selected_before && to_idx <= selected_before {
        if selected_before + 1 < last { selected_before + 1 } else { last }
    } else {
        selected_before
    };
    true
}

/// The selected tab stays the same tab when another one is moved: after a
/// move, the new selected index points at the tab the old one pointed at.
pub proof fn lemma_move_tab_keeps_selection<T>(tabs: Seq<T>, sel: int, from_idx: int, to_idx: int)
    requires
        0 <= sel < tabs.len(),
        0 <= from_idx < tabs.len(),
        0 <= to_idx < tabs.len(),
        from_idx != to_idx,
    ensures
        ({
            let moved = tabs.remove(from_idx).insert(to_idx, tabs[from_idx]);
            let new_sel = if sel == from_idx {
                to_idx
            } else if from_idx < sel && to_idx >= sel {
                sel - 1
            } else if from_idx > sel && to_idx <= sel {
                sel + 1
            } else {
                sel
            };
            &&& moved.len() == tabs.len()
            &&& 0 <= new_sel < moved.len()
            &&& moved[new_sel] == tabs[sel]
        }),
{
    let removed = tabs.remove(from_idx);
    let moved = removed.insert(to_idx, tabs[from_idx]);
    assert(moved.len() == tabs.len());
}

/// Close the selected tab; the selection moves back when it was the last one.
/// Returns whether a tab was closed.
pub fn close_current_tab<T>(tabs: &mut Vec<T>, selected_tab: &mut usize) -> (closed: bool)
    ensures
        closed == (*old(selected_tab) < old(tabs)@.len()),
        !closed ==> final(tabs)@ == old(tabs)@ && *final(selected_tab) == *old(selected_tab),
        closed ==> final(tabs)@ == old(tabs)@.remove(*old(selected_tab) as int) && *final(selected_tab)
            == if *old(selected_tab) >= final(tabs)@.len() && *old(selected_tab) > 0 {
            *old(selected_tab) - 1
        } else {
            *old(selected_tab) as int
        },
{
    if tabs.len() == 0 || *selected_tab >= tabs.len() {
        return false;
    }
    let idx = *selected_tab;
    let _ = tabs.remove(idx);
    if *selected_tab >= tabs.len() && *selected_tab > 0 {
        *selected_tab -= 1;
    }
    true
}

/// Tab starts after inserting a tab of width `x` at position `j`.
pub proof fn lemma_prefix_insert(w: Seq<usize>, j: int, x: usize, k: int)
    requires
        0 <= j <= w.len(),
        0 <= k <= w.len() + 1,
    ensures
        prefix_width(w.insert(j, x), k) == if k <= j {
            prefix_width(w, k)
        } else {
            prefix_width(w, k - 1) + x
        },
    decreases k,
{
    if k > 0 {
        lemma_prefix_insert(w, j, x, k - 1);
    }
}

/// Tab starts after removing the tab at position `i`.
pub proof fn lemma_prefix_remove(w: Seq<usize>, i: int, k: int)
    requires
        0 <= i < w.len(),
        0 <= k < w.len(),
    ensures
        prefix_width(w.remove(i), k) == if k <= i {
            prefix_width(w, k)
        } else {
            prefix_width(w, k + 1) - w[i]
        },
    decreases k,
{
    if k > 0 {
        lemma_prefix_remove(w, i, k - 1);
        if k - 1 == i {
            assert(prefix_width(w, k + 1) == prefix_width(w, k) + w[k]);
        }
    }
}

/// Removing a tab leaves a strip no wider than before, and moving a tab
/// keeps its width.
pub proof fn lemma_total_remove_insert(w: Seq<usize>, i: int, j: int)
    requires
        0 <= i < w.len(),
        0 <= j < w.len(),
    ensures
        total_width(w.remove(i)) == total_width(w) - w[i],
        total_width(w.remove(i).insert(j, w[i])) == total_width(w),
{
    lemma_prefix_remove(w, i, w.len() - 1);
    if w.len() - 1 <= i {
        assert(prefix_width(w, w.len() as int) == prefix_width(w, w.len() - 1) + w[w.len() - 1]);
    }
    lemma_prefix_insert(w.remove(i), j, w[i], w.len() as int);
    if w.len() as int <= j {
    } else {
        assert(w.remove(i).len() == w.len() - 1);
    }
}

/// Keep the selected tab visible: scroll to its start when it begins before
/// the offset or ends past the bar's right edge.
pub open spec fn spec_ensure_tab_visible(w: Seq<usize>, selected: int, offset: int, bar_width: int) -> int {
    if w.len() == 0 {
        0
    } else if bar_width == 0 {
        offset
    } else {
        let start = prefix_width(w, selected);
        let end = start + if 0 <= selected < w.len() { w[selected] as int } else { 0 };
        if start < offset || end > offset + bar_width {
            start
        } else {
            offset
        }
    }
}

/// The tab scroll offset that shows the selected tab.
pub fn ensure_tab_visible(widths: &[usize], selected_tab: usize, tab_scroll_offset: usize, bar_width: u16) -> (r: usize)
    requires
        total_fits(widths@),
    ensures
        r == spec_ensure_tab_visible(widths@, selected_tab as int, tab_scroll_offset as int, bar_width as int),
{
    if widths.len() == 0 {
        return 0;
    }
    if bar_width == 0 {
        return tab_scroll_offset;
    }
    proof {
        lemma_prefix_bounded(widths@);
    }
    let mut start_pos: usize = 0;
    let mut i: usize = 0;
    let upto = if selected_tab < widths.len() { selected_tab } else { widths.len() };
    while i < upto
        invariant
            upto <= widths@.len(),
            i <= upto,
            total_fits(widths@),
            start_pos == prefix_width(widths@, i as int),
            forall|k: int| 0 <= k <= widths@.len() ==> 0 <= #[trigger] prefix_width(widths@, k) <= total_width(widths@),
            forall|k: int| 0 <= k < widths@.len() ==> #[trigger] widths@[k] <= total_width(widths@) && prefix_width(widths@, k + 1) == prefix_width(widths@, k) + widths@[k],
        decreases upto - i,
    {
        start_pos = start_pos + widths[i];
        i += 1;
    }
    assert(start_pos == prefix_width(widths@, selected_tab as int));
    let end_pos = if selected_tab < widths.len() { start_pos + widths[selected_tab] } else { start_pos };
    if start_pos < tab_scroll_offset || (end_pos >= tab_scroll_offset && end_pos - tab_scroll_offset > bar_width as usize) {
        start_pos
    } else {
        tab_scroll_offset
    }
}

} // verus!

