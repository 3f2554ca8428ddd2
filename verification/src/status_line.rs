//! The bottom status line: a context section on the left and key hints on
//! the right, for the host panel, a terminal tab, and the two searches.
use vstd::prelude::*;
use crate::text_format::{match_counter, scroll_indicator, spec_match_counter, spec_scroll_indicator};
use crate::text_edit::char_len;

verus! {

/// How a piece of the status line is drawn.
#[derive(Clone, Copy, Debug, PartialEq, Eq)]
pub enum Tone {
    /// The context's title.
    Title,
    /// Separators and hint descriptions.
    Muted,
    /// The context's value (host name, query).
    Value,
    /// A key name, by color.
    KeyCyan,
    KeyYellow,
    KeyGreen,
    KeyRed,
    /// A session indicator: running or exited.
    Running,
    Exited,
    /// A count or scroll position.
    Counter,
}

/// A piece of the status line.
#[derive(Debug)]
pub struct StatusSpan {
    pub text: String,
    pub tone: Tone,
}

/// The text and tone of a span.
pub open spec fn span_model(s: StatusSpan) -> (Seq<char>, Tone) {
    (s.text@, s.tone)
}

/// The texts and tones of spans.
pub open spec fn spans_model(v: Seq<StatusSpan>) -> Seq<(Seq<char>, Tone)> {
    v.map_values(|s: StatusSpan| span_model(s))
}

fn push_span(v: &mut Vec<StatusSpan>, text: &str, tone: Tone)
    ensures
        spans_model(final(v)@) == spans_model(old(v)@).push((text@, tone)),
{
    v.push(StatusSpan { text: text.to_owned(), tone });
    assert(spans_model(final(v)@) =~= spans_model(old(v)@).push((text@, tone)));
}

fn push_owned(v: &mut Vec<StatusSpan>, text: String, tone: Tone)
    ensures
        spans_model(final(v)@) == spans_model(old(v)@).push((text@, tone)),
{
    let ghost t = text@;
    v.push(StatusSpan { text, tone });
    assert(spans_model(final(v)@) =~= spans_model(old(v)@).push((t, tone)));
}

/// The right-hand hints while the host panel has the focus.
pub open spec fn host_hints(has_tabs: bool) -> Seq<(Seq<char>, Tone)> {
    seq![
        ("^F"@, Tone::KeyYellow), (":find | "@, Tone::Muted),
        ("↑/↓"@, Tone::KeyCyan), (":move | "@, Tone::Muted),
        ("PgUp/Dn"@, Tone::KeyCyan), (":page | "@, Tone::Muted),
        ("Home/End"@, Tone::KeyCyan), (":edge | "@, Tone::Muted),
        ("Enter"@, Tone::KeyGreen), (":open | "@, Tone::Muted),
        ("^←/^→"@, Tone::KeyCyan), (":resize | "@, Tone::Muted),
    ] + (if has_tabs { seq![("S-Tab"@, Tone::KeyCyan), (":tabs | "@, Tone::Muted)] } else { seq![] }) + seq![
        ("Esc"@, Tone::KeyRed), (":quit"@, Tone::Muted),
    ]
}

/// The status line while the host panel has the focus: the selected host
/// or folder (`none` without one) and the panel's key hints.
pub fn build_manager_status_spans(selected_name: Option<&str>, has_tabs: bool) -> (r: (Vec<StatusSpan>, Vec<StatusSpan>))
    ensures
        spans_model(r.0@) == seq![
            ("Host"@, Tone::Title),
            (" || "@, Tone::Muted),
            (match selected_name { Some(n) => n@, None => "none"@ }, Tone::Value),
        ],
        spans_model(r.1@) == host_hints(has_tabs),
{
    let mut left: Vec<StatusSpan> = Vec::new();
    push_span(&mut left, "Host", Tone::Title);
    push_span(&mut left, " || ", Tone::Muted);
    match selected_name {
        Some(n) => push_span(&mut left, n, Tone::Value),
        None => push_span(&mut left, "none", Tone::Value),
    }
    let mut right: Vec<StatusSpan> = Vec::new();
    push_span(&mut right, "^F", Tone::KeyYellow);
    push_span(&mut right, ":find | ", Tone::Muted);
    push_span(&mut right, "↑/↓", Tone::KeyCyan);
    push_span(&mut right, ":move | ", Tone::Muted);
    push_span(&mut right, "PgUp/Dn", Tone::KeyCyan);
    push_span(&mut right, ":page | ", Tone::Muted);
    push_span(&mut right, "Home/End", Tone::KeyCyan);
    push_span(&mut right, ":edge | ", Tone::Muted);
    push_span(&mut right, "Enter", Tone::KeyGreen);
    push_span(&mut right, ":open | ", Tone::Muted);
    push_span(&mut right, "^←/^→", Tone::KeyCyan);
    push_span(&mut right, ":resize | ", Tone::Muted);
    if has_tabs {
        push_span(&mut right, "S-Tab", Tone::KeyCyan);
        push_span(&mut right, ":tabs | ", Tone::Muted);
    }
    push_span(&mut right, "Esc", Tone::KeyRed);
    push_span(&mut right, ":quit", Tone::Muted);
    assert(spans_model(left@) =~= seq![
        ("Host"@, Tone::Title),
        (" || "@, Tone::Muted),
        (match selected_name { Some(n) => n@, None => "none"@ }, Tone::Value),
    ]);
    assert(spans_model(right@) =~= host_hints(has_tabs));
    (left, right)
}

/// The right-hand hints of a running terminal tab.
pub open spec fn terminal_hints() -> Seq<(Seq<char>, Tone)> {
    seq![
        ("S-Tab"@, Tone::KeyCyan), (":host | "@, Tone::Muted),
        ("A-←/→"@, Tone::KeyCyan), (":tab | "@, Tone::Muted),
        ("^W"@, Tone::KeyRed), (":close | "@, Tone::Muted),
        ("^B"@, Tone::KeyCyan), (":panel | "@, Tone::Muted),
        ("^F"@, Tone::KeyCyan), (":find | "@, Tone::Muted),
        ("A-c"@, Tone::KeyYellow), (":copy | "@, Tone::Muted),
        ("S-PgUp/Dn"@, Tone::KeyYellow), (":scroll"@, Tone::Muted),
    ]
}

/// The right-hand hints of an exited terminal tab.
pub open spec fn exited_hints() -> Seq<(Seq<char>, Tone)> {
    seq![
        ("Enter"@, Tone::KeyGreen), (":reconnect | "@, Tone::Muted),
        ("^W"@, Tone::KeyRed), (":close | "@, Tone::Muted),
        ("S-Tab"@, Tone::KeyCyan), (":host"@, Tone::Muted),
    ]
}

/// The status line of a terminal tab: its session's state, its host, how
/// far it is scrolled back, and the hints that apply. Without a tab, a
/// notice that there is none.
pub fn build_terminal_status_spans(tab: Option<(&str, bool, usize)>) -> (r: (Vec<StatusSpan>, Vec<StatusSpan>))
    ensures
        match tab {
            None => spans_model(r.0@) == seq![
                ("Terminal"@, Tone::Title),
                (" | "@, Tone::Muted),
                ("No active terminal"@, Tone::Muted),
            ] && r.1@.len() == 0,
            Some((host, exited, scroll)) => {
                &&& spans_model(r.0@) == seq![
                    ("Terminal"@, Tone::Title),
                    (" || "@, Tone::Muted),
                    ("●"@, if exited { Tone::Exited } else { Tone::Running }),
                    (" "@, Tone::Value),
                    (host@, Tone::Value),
                ] + if scroll > 0 {
                    seq![(" sb:"@, Tone::Muted), (spec_scroll_indicator(scroll), Tone::Counter)]
                } else {
                    seq![]
                }
                &&& spans_model(r.1@) == if exited { exited_hints() } else { terminal_hints() }
            },
        },
{
    let mut left: Vec<StatusSpan> = Vec::new();
    let mut right: Vec<StatusSpan> = Vec::new();
    match tab {
        None => {
            push_span(&mut left, "Terminal", Tone::Title);
            push_span(&mut left, " | ", Tone::Muted);
            push_span(&mut left, "No active terminal", Tone::Muted);
            assert(spans_model(left@) =~= seq![
                ("Terminal"@, Tone::Title),
                (" | "@, Tone::Muted),
                ("No active terminal"@, Tone::Muted),
            ]);
        },
        Some((host, exited, scroll)) => {
            push_span(&mut left, "Terminal", Tone::Title);
            push_span(&mut left, " || ", Tone::Muted);
            push_span(&mut left, "●", if exited { Tone::Exited } else { Tone::Running });
            push_span(&mut left, " ", Tone::Value);
            push_span(&mut left, host, Tone::Value);
            if scroll > 0 {
                push_span(&mut left, " sb:", Tone::Muted);
                push_owned(&mut left, scroll_indicator(scroll), Tone::Counter);
            }
            if exited {
                push_span(&mut right, "Enter", Tone::KeyGreen);
                push_span(&mut right, ":reconnect | ", Tone::Muted);
                push_span(&mut right, "^W", Tone::KeyRed);
                push_span(&mut right, ":close | ", Tone::Muted);
                push_span(&mut right, "S-Tab", Tone::KeyCyan);
                push_span(&mut right, ":host", Tone::Muted);
                assert(spans_model(right@) =~= exited_hints());
            } else {
                push_span(&mut right, "S-Tab", Tone::KeyCyan);
                push_span(&mut right, ":host | ", Tone::Muted);
                push_span(&mut right, "A-←/→", Tone::KeyCyan);
                push_span(&mut right, ":tab | ", Tone::Muted);
                push_span(&mut right, "^W", Tone::KeyRed);
                push_span(&mut right, ":close | ", Tone::Muted);
                push_span(&mut right, "^B", Tone::KeyCyan);
                push_span(&mut right, ":panel | ", Tone::Muted);
                push_span(&mut right, "^F", Tone::KeyCyan);
                push_span(&mut right, ":find | ", Tone::Muted);
                push_span(&mut right, "A-c", Tone::KeyYellow);
                push_span(&mut right, ":copy | ", Tone::Muted);
                push_span(&mut right, "S-PgUp/Dn", Tone::KeyYellow);
                push_span(&mut right, ":scroll", Tone::Muted);
                assert(spans_model(right@) =~= terminal_hints());
            }
            assert(spans_model(left@) =~= seq![
                ("Terminal"@, Tone::Title),
                (" || "@, Tone::Muted),
                ("●"@, if exited { Tone::Exited } else { Tone::Running }),
                (" "@, Tone::Value),
                (host@, Tone::Value),
            ] + if scroll > 0 {
                seq![(" sb:"@, Tone::Muted), (spec_scroll_indicator(scroll), Tone::Counter)]
            } else {
                seq![]
            });
        },
    }
    (left, right)
}

/// The status line while the host search prompt is open.
pub fn build_search_mode_status_spans(query: &str) -> (r: (Vec<StatusSpan>, Vec<StatusSpan>))
    ensures
        spans_model(r.0@) == seq![
            ("Host Search"@, Tone::Title),
            (" || "@, Tone::Muted),
            (query@, Tone::Value),
            ("_"@, Tone::Value),
        ],
        spans_model(r.1@) == seq![
            ("Enter"@, Tone::KeyGreen),
            (" | "@, Tone::Muted),
            ("Esc"@, Tone::KeyRed),
            (":clear"@, Tone::Muted),
        ],
{
    let mut left: Vec<StatusSpan> = Vec::new();
    push_span(&mut left, "Host Search", Tone::Title);
    push_span(&mut left, " || ", Tone::Muted);
    push_span(&mut left, query, Tone::Value);
    push_span(&mut left, "_", Tone::Value);
    let mut right: Vec<StatusSpan> = Vec::new();
    push_span(&mut right, "Enter", Tone::KeyGreen);
    push_span(&mut right, " | ", Tone::Muted);
    push_span(&mut right, "Esc", Tone::KeyRed);
    push_span(&mut right, ":clear", Tone::Muted);
    assert(spans_model(left@) =~= seq![
        ("Host Search"@, Tone::Title),
        (" || "@, Tone::Muted),
        (query@, Tone::Value),
        ("_"@, Tone::Value),
    ]);
    assert(spans_model(right@) =~= seq![
        ("Enter"@, Tone::KeyGreen),
        (" | "@, Tone::Muted),
        ("Esc"@, Tone::KeyRed),
        (":clear"@, Tone::Muted),
    ]);
    (left, right)
}

/// The status line while a terminal search is open: the query and which
/// match of how many is current.
pub fn build_terminal_search_status_spans(query: &str, current: usize, match_count: usize) -> (r: (Vec<StatusSpan>, Vec<StatusSpan>))
    requires
        current < usize::MAX,
    ensures
        spans_model(r.0@) == seq![
            ("Terminal Search"@, Tone::Title),
            (" || "@, Tone::Muted),
            (query@, Tone::Value),
            ("_"@, Tone::Value),
            (" "@, Tone::Value),
            (seq!['('] + spec_match_counter(current, match_count) + seq![')'], Tone::Counter),
        ],
        spans_model(r.1@) == seq![
            ("Enter"@, Tone::KeyGreen),
            (" | "@, Tone::Muted),
            ("Esc"@, Tone::KeyRed),
            (":clear | "@, Tone::Muted),
            ("↑/↓"@, Tone::KeyCyan),
            (":next/prev"@, Tone::Muted),
        ],
{
    let mut left: Vec<StatusSpan> = Vec::new();
    push_span(&mut left, "Terminal Search", Tone::Title);
    push_span(&mut left, " || ", Tone::Muted);
    push_span(&mut left, query, Tone::Value);
    push_span(&mut left, "_", Tone::Value);
    push_span(&mut left, " ", Tone::Value);
    let mut counter = String::new();
    crate::text_edit::string_push(&mut counter, '(');
    let info = match_counter(current, match_count);
    for ch in it: info.as_str().chars()
        invariant
            counter@ == seq!['('] + it.seq().subrange(0, it.index() as int),
    {
        crate::text_edit::string_push(&mut counter, ch);
        assert(counter@ =~= seq!['('] + it.seq().subrange(0, it.index() + 1));
    }
    crate::text_edit::string_push(&mut counter, ')');
    assert(counter@ =~= seq!['('] + spec_match_counter(current, match_count) + seq![')']);
    push_owned(&mut left, counter, Tone::Counter);
    let mut right: Vec<StatusSpan> = Vec::new();
    push_span(&mut right, "Enter", Tone::KeyGreen);
    push_span(&mut right, " | ", Tone::Muted);
    push_span(&mut right, "Esc", Tone::KeyRed);
    push_span(&mut right, ":clear | ", Tone::Muted);
    push_span(&mut right, "↑/↓", Tone::KeyCyan);
    push_span(&mut right, ":next/prev", Tone::Muted);
    assert(spans_model(left@) =~= seq![
        ("Terminal Search"@, Tone::Title),
        (" || "@, Tone::Muted),
        (query@, Tone::Value),
        ("_"@, Tone::Value),
        (" "@, Tone::Value),
        (seq!['('] + spec_match_counter(current, match_count) + seq![')'], Tone::Counter),
    ]);
    assert(spans_model(right@) =~= seq![
        ("Enter"@, Tone::KeyGreen),
        (" | "@, Tone::Muted),
        ("Esc"@, Tone::KeyRed),
        (":clear | "@, Tone::Muted),
        ("↑/↓"@, Tone::KeyCyan),
        (":next/prev"@, Tone::Muted),
    ]);
    (left, right)
}

/// Total characters of spans.
pub open spec fn spans_width(v: Seq<StatusSpan>) -> int
    decreases v.len(),
{
    if v.len() == 0 {
        0
    } else {
        spans_width(v.drop_last()) + v.last().text@.len()
    }
}

/// Width of spans in characters, for laying out the right-hand section
/// (saturating at the largest `usize`).
pub fn spans_display_width(spans: &[StatusSpan]) -> (w: usize)
    ensures
        w == if spans_width(spans@) <= usize::MAX { spans_width(spans@) } else { usize::MAX as int },
{
    let mut total: usize = 0;
    let mut saturated = false;
    let mut i: usize = 0;
    while i < spans.len()
        invariant
            i <= spans@.len(),
            !saturated ==> total == spans_width(spans@.subrange(0, i as int)),
            saturated ==> total == usize::MAX && spans_width(spans@.subrange(0, i as int)) > usize::MAX,
        decreases spans.len() - i,
    {
        assert(spans@.subrange(0, i + 1).drop_last() =~= spans@.subrange(0, i as int));
        let n = char_len(spans[i].text.as_str());
        if saturated || total > usize::MAX - n {
            saturated = true;
            total = usize::MAX;
        } else {
            total = total + n;
        }
        i += 1;
    }
    assert(spans@.subrange(0, spans@.len() as int) =~= spans@);
    total
}

} // verus!
