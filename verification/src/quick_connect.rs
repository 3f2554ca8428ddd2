//! Quick-connect form: field focus cycling, profile choice, and mouse hit
//! tests on the modal.
use vstd::prelude::*;

use crate::layout::sat_add_u16;
use crate::text_edit::{char_len, string_from_chars, string_push};
use crate::text_format::{trim, trim_text};
use crate::key_encoding::{KeyCode, KeyInput};
use crate::key_routing::pop_char;

verus! {

/// The focusable fields of the quick-connect form, in tab order.
#[derive(Clone, Copy, Debug, PartialEq, Eq)]
pub enum QuickConnectField {
    User,
    Host,
    Profile,
    Logging,
    Connect,
}

pub open spec fn field_index(f: QuickConnectField) -> int {
    match f {
        QuickConnectField::User => 0,
        QuickConnectField::Host => 1,
        QuickConnectField::Profile => 2,
        QuickConnectField::Logging => 3,
        QuickConnectField::Connect => 4,
    }
}

impl QuickConnectField {
    /// The field after this one, wrapping around.
    pub fn next(self) -> (r: Self)
        ensures
            field_index(r) == (field_index(self) + 1) % 5,
    {
        match self {
            Self::User => Self::Host,
            Self::Host => Self::Profile,
            Self::Profile => Self::Logging,
            Self::Logging => Self::Connect,
            Self::Connect => Self::User,
        }
    }

    /// The field before this one, wrapping around.
    pub fn prev(self) -> (r: Self)
        ensures
            field_index(r) == (field_index(self) + 4) % 5,
    {
        match self {
            Self::User => Self::Connect,
            Self::Host => Self::User,
            Self::Profile => Self::Host,
            Self::Logging => Self::Profile,
            Self::Connect => Self::Logging,
        }
    }
}

/// Moving focus forward then back (or back then forward) returns to the same
/// field, and five steps forward go all the way round.
pub proof fn lemma_field_cycle(f: QuickConnectField, g: QuickConnectField)
    ensures
        field_index(f) == field_index(g) ==> f == g,
        0 <= field_index(f) < 5,
{
}

/// ASCII lower-case of one character.
pub open spec fn ascii_lower(c: char) -> char {
    if 'A' <= c <= 'Z' {
        ((c as u32) + 32) as char
    } else {
        c
    }
}

/// Equality of two texts ignoring ASCII case.
pub open spec fn spec_eq_ignore_ascii_case(a: Seq<char>, b: Seq<char>) -> bool {
    a.len() == b.len() && forall|i: int| 0 <= i < a.len() ==> ascii_lower(#[trigger] a[i]) == ascii_lower(b[i])
}

fn lower_char(c: char) -> (r: char)
    ensures
        r == ascii_lower(c),
{
    if 'A' <= c && c <= 'Z' {
        let b = (c as u8) + 32;
        b as char
    } else {
        c
    }
}

/// Whether two texts are equal ignoring ASCII case.
pub fn eq_ignore_ascii_case(a: &str, b: &str) -> (r: bool)
    ensures
        r == spec_eq_ignore_ascii_case(a@, b@),
{
    let ac = crate::host_search::chars_of(a);
    let bc = crate::host_search::chars_of(b);
    if ac.len() != bc.len() {
        return false;
    }
    let mut i: usize = 0;
    while i < ac.len()
        invariant
            ac@ == a@,
            bc@ == b@,
            ac@.len() == bc@.len(),
            i <= ac@.len(),
            forall|j: int| 0 <= j < i ==> ascii_lower(#[trigger] ac@[j]) == ascii_lower(bc@[j]),
        decreases ac.len() - i,
    {
        if lower_char(ac[i]) != lower_char(bc[i]) {
            return false;
        }
        i += 1;
    }
    true
}

/// The text `default`.
pub open spec fn default_profile() -> Seq<char> {
    seq!['d', 'e', 'f', 'a', 'u', 'l', 't']
}

fn default_profile_name() -> (s: String)
    ensures
        s@ == default_profile(),
{
    let chars = vec!['d', 'e', 'f', 'a', 'u', 'l', 't'];
    let s = string_from_chars(&chars);
    assert(chars@ =~= default_profile());
    s
}

/// The quick-connect form.
pub struct QuickConnectState {
    pub user: String,
    pub host: String,
    pub profile_options: Vec<String>,
    pub profile_index: usize,
    pub ssh_logging: bool,
    pub selected: QuickConnectField,
    pub error: Option<String>,
}

pub open spec fn views(v: Seq<String>) -> Seq<Seq<char>> {
    v.map_values(|s: String| s@)
}

/// Index of the first profile named `default` (any ASCII case) from `i` on.
pub open spec fn first_default_from(p: Seq<Seq<char>>, i: int) -> Option<int>
    decreases p.len() - i,
{
    if i < 0 || i >= p.len() {
        None
    } else if spec_eq_ignore_ascii_case(p[i], default_profile()) {
        Some(i)
    } else {
        first_default_from(p, i + 1)
    }
}

impl QuickConnectState {
    /// An empty form. The profile list gets `default` when it is empty, and
    /// the `default` profile is preselected when present.
    pub fn new(default_ssh_logging: bool, profile_options: Vec<String>) -> (s: Self)
        ensures
            s.user@.len() == 0,
            s.host@.len() == 0,
            views(s.profile_options@) == if profile_options@.len() == 0 {
                seq![default_profile()]
            } else {
                views(profile_options@)
            },
            s.profile_index == match first_default_from(views(s.profile_options@), 0) {
                Some(i) => i,
                None => 0,
            },
            s.ssh_logging == default_ssh_logging,
            s.selected == QuickConnectField::User,
            s.error is None,
    {
        let mut profile_options = profile_options;
        if profile_options.len() == 0 {
            profile_options.push(default_profile_name());
            assert(views(profile_options@) =~= seq![default_profile()]);
        }
        let ghost p = views(profile_options@);
        let default_name = default_profile_name();
        let mut profile_index: usize = 0;
        let mut i: usize = 0;
        let mut found = false;
        while i < profile_options.len() && !found
            invariant
                p == views(profile_options@),
                p.len() == profile_options@.len(),
                default_name@ == default_profile(),
                i <= profile_options@.len(),
                !found ==> first_default_from(p, 0) == first_default_from(p, i as int) && profile_index == 0,
                found ==> first_default_from(p, 0) == Some(profile_index as int),
            decreases profile_options.len() - i + (if found { 0int } else { 1 }),
        {
            assert(p[i as int] == profile_options@[i as int]@);
            if eq_ignore_ascii_case(profile_options[i].as_str(), default_name.as_str()) {
                profile_index = i;
                found = true;
            } else {
                i += 1;
            }
        }
        if !found {
            assert(first_default_from(p, i as int) is None);
        }
        QuickConnectState {
            user: String::new(),
            host: String::new(),
            profile_options,
            profile_index,
            ssh_logging: default_ssh_logging,
            selected: QuickConnectField::User,
            error: None,
        }
    }

    /// The chosen profile's name (`default` when the index is out of range).
    pub fn selected_profile_label(&self) -> (r: String)
        ensures
            r@ == if self.profile_index < self.profile_options@.len() {
                self.profile_options@[self.profile_index as int]@
            } else {
                default_profile()
            },
    {
        if self.profile_index < self.profile_options.len() {
            self.profile_options[self.profile_index].clone()
        } else {
            default_profile_name()
        }
    }

    /// The profile to pass on the command line: none for `default`.
    pub fn selected_profile_for_cli(&self) -> (r: Option<String>)
        ensures
            ({
                let label = if self.profile_index < self.profile_options@.len() {
                    self.profile_options@[self.profile_index as int]@
                } else {
                    default_profile()
                };
                match r {
                    Some(s) => !spec_eq_ignore_ascii_case(label, default_profile()) && s@ == label,
                    None => spec_eq_ignore_ascii_case(label, default_profile()),
                }
            }),
    {
        let profile = self.selected_profile_label();
        let default_name = default_profile_name();
        if eq_ignore_ascii_case(profile.as_str(), default_name.as_str()) {
            None
        } else {
            Some(profile)
        }
    }

    /// Choose the next profile, wrapping around.
    pub fn select_next_profile(&mut self)
        ensures
            old(self).profile_options@.len() == 0 ==> *final(self) == *old(self),
            old(self).profile_options@.len() > 0 ==> final(self).profile_index == (old(
                self,
            ).profile_index + 1) % (old(self).profile_options@.len() as int),
            final(self).profile_options == old(self).profile_options,
            final(self).user == old(self).user,
            final(self).host == old(self).host,
            final(self).ssh_logging == old(self).ssh_logging,
            final(self).selected == old(self).selected,
            final(self).error == old(self).error,
    {
        if self.profile_options.len() == 0 {
            return;
        }
        let n = self.profile_options.len();
        let ghost pi = self.profile_index as int;
        self.profile_index = if self.profile_index < n - 1 { self.profile_index + 1 } else {
            (self.profile_index - (n - 1)) % n
        };
        assert(pi >= n - 1 ==> (pi + 1) % (n as int) == (pi - (n - 1)) % (n as int)) by (nonlinear_arith)
            requires
                n > 0,
        ;
        assert(0 <= pi < n - 1 ==> (pi + 1) % (n as int) == pi + 1) by (nonlinear_arith)
            requires
                n > 0,
        ;
    }

    /// Choose the previous profile, wrapping around.
    pub fn select_prev_profile(&mut self)
        ensures
            old(self).profile_options@.len() == 0 ==> *final(self) == *old(self),
            old(self).profile_options@.len() > 0 ==> final(self).profile_index == if old(
                self,
            ).profile_index == 0 {
                old(self).profile_options@.len() - 1
            } else {
                old(self).profile_index - 1
            },
            final(self).profile_options == old(self).profile_options,
            final(self).user == old(self).user,
            final(self).host == old(self).host,
            final(self).ssh_logging == old(self).ssh_logging,
            final(self).selected == old(self).selected,
            final(self).error == old(self).error,
    {
        if self.profile_options.len() == 0 {
            return;
        }
        if self.profile_index == 0 {
            self.profile_index = self.profile_options.len() - 1;
        } else {
            self.profile_index -= 1;
        }
    }
}

/// The profile under column `mouse_col` of the profile list, which starts at
/// `start_col` and separates names by three cells.
pub open spec fn profile_at_column(widths: Seq<u16>, start: int, col: int, idx: int, cursor: int) -> Option<usize>
    decreases widths.len() - idx,
{
    if idx < 0 || idx >= widths.len() {
        None
    } else {
        let end = sat_add_u16(cursor, widths[idx] as int);
        if cursor <= col < end {
            Some(idx as usize)
        } else {
            let next = if idx + 1 < widths.len() { sat_add_u16(end, 3) } else { end };
            profile_at_column(widths, start, col, idx + 1, next)
        }
    }
}

/// Display width (character count, cut to `u16`) of each profile name.
pub open spec fn profile_widths(p: Seq<String>) -> Seq<u16> {
    p.map_values(|s: String| s@.len() as u16)
}

/// Which profile of the profile list a click at `mouse_col` lands on.
pub fn quick_connect_profile_index_at_column(profile_options: &[String], start_col: u16, mouse_col: u16) -> (r: Option<usize>)
    ensures
        mouse_col < start_col ==> r is None,
        mouse_col >= start_col ==> r == profile_at_column(
            profile_widths(profile_options@),
            start_col as int,
            mouse_col as int,
            0,
            start_col as int,
        ),
{
    if mouse_col < start_col {
        return None;
    }
    let ghost w = profile_widths(profile_options@);
    let mut cursor = start_col;
    let mut idx: usize = 0;
    while idx < profile_options.len()
        invariant
            w == profile_widths(profile_options@),
            w.len() == profile_options@.len(),
            mouse_col >= start_col,
            idx <= profile_options@.len(),
            profile_at_column(w, start_col as int, mouse_col as int, 0, start_col as int)
                == profile_at_column(w, start_col as int, mouse_col as int, idx as int, cursor as int),
        decreases profile_options.len() - idx,
    {
        let width = char_len(profile_options[idx].as_str()) as u16;
        assert(width == w[idx as int]);
        let end = cursor.saturating_add(width);
        if mouse_col >= cursor && mouse_col < end {
            return Some(idx);
        }
        cursor = end;
        if idx + 1 < profile_options.len() {
            cursor = cursor.saturating_add(3);
        }
        idx += 1;
    }
    None
}

/// Width of the `[ Enter ] Connect` action label.
pub const CONNECT_LABEL_WIDTH: u16 = 17;
/// Width of the ` | ` separator between action labels.
pub const ACTION_SEPARATOR_WIDTH: u16 = 3;
/// Width of the `[ Esc ] Cancel` action label.
pub const CANCEL_LABEL_WIDTH: u16 = 14;

/// What a click on the action row of the form hits.
#[derive(Clone, Copy, Debug, PartialEq, Eq)]
pub enum QuickConnectAction {
    Connect,
    Cancel,
}

/// Which action label a click at `col` hits on the action row that starts at `inner_x`.
pub fn quick_connect_action_hit(inner_x: u16, col: u16) -> (r: Option<QuickConnectAction>)
    ensures
        ({
            let connect_end = sat_add_u16(inner_x as int, CONNECT_LABEL_WIDTH as int);
            let cancel_start = sat_add_u16(connect_end, ACTION_SEPARATOR_WIDTH as int);
            let cancel_end = sat_add_u16(cancel_start, CANCEL_LABEL_WIDTH as int);
            r == if inner_x <= col < connect_end {
                Some(QuickConnectAction::Connect)
            } else if cancel_start <= col < cancel_end {
                Some(QuickConnectAction::Cancel)
            } else {
                None
            }
        }),
{
    let connect_start_col = inner_x;
    let connect_end_col = connect_start_col.saturating_add(CONNECT_LABEL_WIDTH);
    if col >= connect_start_col && col < connect_end_col {
        return Some(QuickConnectAction::Connect);
    }
    let cancel_start_col = connect_end_col.saturating_add(ACTION_SEPARATOR_WIDTH);
    let cancel_end_col = cancel_start_col.saturating_add(CANCEL_LABEL_WIDTH);
    if col >= cancel_start_col && col < cancel_end_col {
        return Some(QuickConnectAction::Cancel);
    }
    None
}

/// What the quick-connect form asks for after a key.
#[derive(Clone, Copy, Debug, PartialEq, Eq)]
pub enum QuickConnectOutcome {
    /// Keep the form open.
    Stay,
    /// Close the form.
    Close,
    /// Try to connect with the form's values.
    Submit,
}

/// The form's editable values: user, host, profile index, logging flag,
/// focused field.
pub type QuickConnectValues = (Seq<char>, Seq<char>, usize, bool, QuickConnectField);

/// The values of a form.
pub open spec fn qc_values(s: QuickConnectState) -> QuickConnectValues {
    (s.user@, s.host@, s.profile_index, s.ssh_logging, s.selected)
}

/// The next profile index in a list of `n`, wrapping around.
pub open spec fn next_profile_index(i: usize, n: int) -> usize {
    if n == 0 {
        i
    } else {
        ((i + 1) % n) as usize
    }
}

/// The previous profile index in a list of `n`, wrapping around.
pub open spec fn prev_profile_index(i: usize, n: int) -> usize {
    if n == 0 {
        i
    } else if i == 0 {
        (n - 1) as usize
    } else {
        (i - 1) as usize
    }
}

/// Choosing the next profile and then the previous one (or the other way
/// round) comes back to the same profile.
pub proof fn lemma_profile_cycle(i: usize, n: int)
    requires
        0 <= i < n,
        n <= usize::MAX,
    ensures
        prev_profile_index(next_profile_index(i, n), n) == i,
        next_profile_index(prev_profile_index(i, n), n) == i,
{
    crate::terminal_search::lemma_next_prev_inverse(i as int, n);
}

/// How a key changes the form: its new values, whether the error message
/// is cleared, and what the form asks for.
pub open spec fn spec_quick_connect_key(v: QuickConnectValues, n: int, key: KeyInput) -> (QuickConnectValues, bool, QuickConnectOutcome) {
    let (user, host, idx, logging, sel) = v;
    match key.code {
        KeyCode::Esc => (v, false, QuickConnectOutcome::Close),
        KeyCode::Tab | KeyCode::Down => ((user, host, idx, logging, sel.spec_next()), false, QuickConnectOutcome::Stay),
        KeyCode::BackTab | KeyCode::Up => ((user, host, idx, logging, sel.spec_prev()), false, QuickConnectOutcome::Stay),
        KeyCode::Enter => match sel {
            QuickConnectField::Profile => ((user, host, next_profile_index(idx, n), logging, sel), true, QuickConnectOutcome::Stay),
            QuickConnectField::Logging => ((user, host, idx, !logging, sel), false, QuickConnectOutcome::Stay),
            QuickConnectField::Connect => (v, false, QuickConnectOutcome::Submit),
            _ => ((user, host, idx, logging, sel.spec_next()), false, QuickConnectOutcome::Stay),
        },
        KeyCode::Char(' ') => (
            if sel == QuickConnectField::Logging { (user, host, idx, !logging, sel) } else { v },
            false,
            QuickConnectOutcome::Stay,
        ),
        KeyCode::Left => if sel == QuickConnectField::Profile {
            ((user, host, prev_profile_index(idx, n), logging, sel), true, QuickConnectOutcome::Stay)
        } else {
            (v, false, QuickConnectOutcome::Stay)
        },
        KeyCode::Right => if sel == QuickConnectField::Profile {
            ((user, host, next_profile_index(idx, n), logging, sel), true, QuickConnectOutcome::Stay)
        } else {
            (v, false, QuickConnectOutcome::Stay)
        },
        KeyCode::Backspace => (
            match sel {
                QuickConnectField::User => (if user.len() > 0 { user.drop_last() } else { user }, host, idx, logging, sel),
                QuickConnectField::Host => (user, if host.len() > 0 { host.drop_last() } else { host }, idx, logging, sel),
                _ => v,
            },
            true,
            QuickConnectOutcome::Stay,
        ),
        KeyCode::Char(c) => if !key.modifiers.control && !key.modifiers.alt {
            (
                match sel {
                    QuickConnectField::User => (user.push(c), host, idx, logging, sel),
                    QuickConnectField::Host => (user, host.push(c), idx, logging, sel),
                    _ => v,
                },
                true,
                QuickConnectOutcome::Stay,
            )
        } else {
            (v, false, QuickConnectOutcome::Stay)
        },
        _ => (v, false, QuickConnectOutcome::Stay),
    }
}

impl QuickConnectField {
    /// The field after this one.
    pub open spec fn spec_next(self) -> QuickConnectField {
        match self {
            QuickConnectField::User => QuickConnectField::Host,
            QuickConnectField::Host => QuickConnectField::Profile,
            QuickConnectField::Profile => QuickConnectField::Logging,
            QuickConnectField::Logging => QuickConnectField::Connect,
            QuickConnectField::Connect => QuickConnectField::User,
        }
    }

    /// The field before this one.
    pub open spec fn spec_prev(self) -> QuickConnectField {
        match self {
            QuickConnectField::User => QuickConnectField::Connect,
            QuickConnectField::Host => QuickConnectField::User,
            QuickConnectField::Profile => QuickConnectField::Host,
            QuickConnectField::Logging => QuickConnectField::Profile,
            QuickConnectField::Connect => QuickConnectField::Logging,
        }
    }
}

/// A connection request made from the quick-connect form.
#[derive(Debug)]
pub struct QuickConnectSubmission {
    pub user: String,
    pub host: String,
    /// The profile for the command line; none for `default`.
    pub profile: Option<String>,
    pub force_ssh_logging: bool,
}

/// The message shown when the host field is blank.
pub open spec fn host_required_message() -> Seq<char> {
    "Host is required"@
}

impl QuickConnectState {
    /// Handle a key on the open form.
    pub fn handle_key(&mut self, key: KeyInput) -> (outcome: QuickConnectOutcome)
        ensures
            ({
                let (v, cleared, o) = spec_quick_connect_key(qc_values(*old(self)), old(self).profile_options@.len() as int, key);
                &&& qc_values(*final(self)) == v
                &&& outcome == o
                &&& final(self).error == if cleared { None } else { old(self).error }
                &&& final(self).profile_options == old(self).profile_options
            }),
    {
        let is_profile = match self.selected {
            QuickConnectField::Profile => true,
            _ => false,
        };
        let is_logging = match self.selected {
            QuickConnectField::Logging => true,
            _ => false,
        };
        match key.code {
            KeyCode::Esc => QuickConnectOutcome::Close,
            KeyCode::Tab | KeyCode::Down => {
                self.selected = self.selected.next();
                QuickConnectOutcome::Stay
            },
            KeyCode::BackTab | KeyCode::Up => {
                self.selected = self.selected.prev();
                QuickConnectOutcome::Stay
            },
            KeyCode::Enter => match self.selected {
                QuickConnectField::Profile => {
                    self.error = None;
                    self.select_next_profile();
                    QuickConnectOutcome::Stay
                },
                QuickConnectField::Logging => {
                    self.ssh_logging = !self.ssh_logging;
                    QuickConnectOutcome::Stay
                },
                QuickConnectField::Connect => QuickConnectOutcome::Submit,
                _ => {
                    self.selected = self.selected.next();
                    QuickConnectOutcome::Stay
                },
            },
            KeyCode::Left => {
                if is_profile {
                    self.error = None;
                    self.select_prev_profile();
                }
                QuickConnectOutcome::Stay
            },
            KeyCode::Right => {
                if is_profile {
                    self.error = None;
                    self.select_next_profile();
                }
                QuickConnectOutcome::Stay
            },
            KeyCode::Backspace => {
                self.error = None;
                match self.selected {
                    QuickConnectField::User => pop_char(&mut self.user),
                    QuickConnectField::Host => pop_char(&mut self.host),
                    _ => {},
                }
                QuickConnectOutcome::Stay
            },
            KeyCode::Char(c) => {
                if c == ' ' {
                    if is_logging {
                        self.ssh_logging = !self.ssh_logging;
                    }
                } else if !key.modifiers.control && !key.modifiers.alt {
                    self.error = None;
                    match self.selected {
                        QuickConnectField::User => string_push(&mut self.user, c),
                        QuickConnectField::Host => string_push(&mut self.host, c),
                        _ => {},
                    }
                }
                QuickConnectOutcome::Stay
            },
            _ => QuickConnectOutcome::Stay,
        }
    }

    /// Submit the form: the trimmed user and host, the profile for the
    /// command line and the logging flag. A blank host is refused with an
    /// error message and focus on the host field.
    pub fn submission(&mut self) -> (r: Option<QuickConnectSubmission>)
        ensures
            trim(old(self).host@).len() == 0 ==> {
                &&& r is None
                &&& final(self).error matches Some(e) && e@ == host_required_message()
                &&& final(self).selected == QuickConnectField::Host
                &&& qc_values(*final(self)) == (old(self).user@, old(self).host@, old(self).profile_index, old(self).ssh_logging, QuickConnectField::Host)
            },
            trim(old(self).host@).len() > 0 ==> {
                &&& *final(self) == *old(self)
                &&& r matches Some(sub) && {
                    let label = if old(self).profile_index < old(self).profile_options@.len() {
                        old(self).profile_options@[old(self).profile_index as int]@
                    } else {
                        default_profile()
                    };
                    &&& sub.user@ == trim(old(self).user@)
                    &&& sub.host@ == trim(old(self).host@)
                    &&& sub.force_ssh_logging == old(self).ssh_logging
                    &&& match sub.profile {
                        Some(p) => !spec_eq_ignore_ascii_case(label, default_profile()) && p@ == label,
                        None => spec_eq_ignore_ascii_case(label, default_profile()),
                    }
                }
            },
            final(self).profile_options == old(self).profile_options,
    {
        let user = trim_text(self.user.as_str());
        let host = trim_text(self.host.as_str());
        let profile = self.selected_profile_for_cli();
        let force_ssh_logging = self.ssh_logging;
        if host.as_str().unicode_len() == 0 {
            self.error = Some("Host is required".to_owned());
            self.selected = QuickConnectField::Host;
            return None;
        }
        Some(QuickConnectSubmission { user, host, profile, force_ssh_logging })
    }
}

} // verus!
