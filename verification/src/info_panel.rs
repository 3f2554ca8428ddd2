//! The host panel's info pane and the host details pane: which lines they
//! show for the selected host or folder, and in which tone each piece is
//! drawn.
use vstd::prelude::*;
use crate::text_format::{digits, push_decimal_text, push_str_chars};
use crate::text_edit::string_push;
use crate::host_tree::{HostBrowser, HostTreeRowKind, TreeFolder, find_folder};

verus! {

/// How a piece of a pane is drawn.
#[derive(Clone, Copy, Debug, PartialEq, Eq)]
pub enum InfoTone {
    /// A field's label.
    Label,
    /// A field's value.
    Value,
    /// The host's description.
    Description,
    /// Less important text (key file, notices).
    Faint,
    /// A profile name.
    Profile,
    /// A warning (password via sshpass).
    Warning,
    /// The name of the host or folder the details pane is about.
    Name,
}

/// A piece of a line of a pane.
#[derive(Debug)]
pub struct InfoSpan {
    pub text: String,
    pub tone: InfoTone,
}

/// What the panes show of a host.
#[derive(Debug)]
pub struct HostRecord {
    pub name: String,
    pub description: Option<String>,
    pub hostname: Option<String>,
    pub user: Option<String>,
    pub port: Option<u16>,
    pub identity_file: Option<String>,
    pub proxy_jump: Option<String>,
    pub local_forward: Vec<String>,
    pub remote_forward: Vec<String>,
    pub profile: Option<String>,
    pub use_sshpass: bool,
}

/// A line as text and tone of each piece.
pub type LineModel = Seq<(Seq<char>, InfoTone)>;

pub open spec fn line_model(line: Vec<InfoSpan>) -> LineModel {
    line@.map_values(|s: InfoSpan| (s.text@, s.tone))
}

pub open spec fn lines_model(lines: Seq<Vec<InfoSpan>>) -> Seq<LineModel> {
    lines.map_values(|l: Vec<InfoSpan>| line_model(l))
}

pub open spec fn opt_view(o: Option<String>) -> Option<Seq<char>> {
    match o {
        Some(s) => Some(s@),
        None => None,
    }
}

/// The part of a path after its last `/` (all of it without one).
pub open spec fn after_last_slash(s: Seq<char>) -> Seq<char>
    decreases s.len(),
{
    if s.len() == 0 {
        s
    } else if s.last() == '/' {
        Seq::empty()
    } else {
        after_last_slash(s.drop_last()).push(s.last())
    }
}

/// A line `label` + `value`, when there is a value.
pub open spec fn opt_line(label: Seq<char>, value: Option<Seq<char>>, tone: InfoTone) -> Seq<LineModel> {
    match value {
        Some(v) => seq![seq![(label, InfoTone::Label), (v, tone)]],
        None => seq![],
    }
}

/// One line `label` + value for each of `values`.
pub open spec fn each_line(label: Seq<char>, values: Seq<String>) -> Seq<LineModel> {
    values.map_values(|v: String| seq![(label, InfoTone::Label), (v@, InfoTone::Value)])
}

/// The info pane's lines for a host: its description and a blank line,
/// then host, user, port, key file name, jump host, forwards, profile and
/// sshpass use, each only when set.
pub open spec fn spec_host_info_lines(h: HostRecord) -> Seq<LineModel> {
    (match h.description {
        Some(d) => seq![seq![(d@, InfoTone::Description)], seq![]],
        None => seq![],
    })
        + opt_line("Host: "@, opt_view(h.hostname), InfoTone::Value)
        + opt_line("User: "@, opt_view(h.user), InfoTone::Value)
        + opt_line("Port: "@, match h.port { Some(p) => Some(digits(p as nat)), None => None }, InfoTone::Value)
        + opt_line("Key:  "@, match h.identity_file { Some(i) => Some(after_last_slash(i@)), None => None }, InfoTone::Faint)
        + opt_line("Jump: "@, opt_view(h.proxy_jump), InfoTone::Value)
        + each_line("LFwd: "@, h.local_forward@)
        + each_line("RFwd: "@, h.remote_forward@)
        + opt_line("Prof: "@, opt_view(h.profile), InfoTone::Profile)
        + (if h.use_sshpass { seq![seq![("Pass: "@, InfoTone::Label), ("sshpass"@, InfoTone::Warning)]] } else { seq![] })
}

/// The name of a file from its path: the part after the last `/`.
pub fn file_name_part(path: &str) -> (r: String)
    ensures
        r@ == after_last_slash(path@),
{
    let chars = crate::host_search::chars_of(path);
    let mut start: usize = chars.len();
    assert(chars@.subrange(0, start as int) =~= chars@);
    assert(chars@.subrange(start as int, start as int) =~= Seq::<char>::empty());
    while start > 0 && chars[start - 1] != '/'
        invariant
            start <= chars@.len(),
            chars@ == path@,
            after_last_slash(path@) == after_last_slash(chars@.subrange(0, start as int)) + chars@.subrange(start as int, chars@.len() as int),
        decreases start,
    {
        let ghost pre = chars@.subrange(0, start as int);
        assert(pre.drop_last() =~= chars@.subrange(0, start - 1));
        assert(chars@.subrange(start - 1, chars@.len() as int) =~= seq![pre.last()] + chars@.subrange(start as int, chars@.len() as int));
        start -= 1;
    }
    proof {
        assert(after_last_slash(chars@.subrange(0, start as int)) =~= Seq::<char>::empty()) by {
            if start > 0 {
                assert(chars@.subrange(0, start as int).last() == '/');
            }
        }
    }
    let mut out = String::new();
    let mut k = start;
    while k < chars.len()
        invariant
            start <= k <= chars@.len(),
            out@ == chars@.subrange(start as int, k as int),
        decreases chars.len() - k,
    {
        string_push(&mut out, chars[k]);
        k += 1;
        assert(out@ =~= chars@.subrange(start as int, k as int));
    }
    assert(after_last_slash(path@) =~= out@);
    out
}

fn span(text: String, tone: InfoTone) -> (s: InfoSpan)
    ensures
        s.text@ == text@ && s.tone == tone,
{
    InfoSpan { text, tone }
}

fn push_line(lines: &mut Vec<Vec<InfoSpan>>, line: Vec<InfoSpan>)
    ensures
        lines_model(final(lines)@) == lines_model(old(lines)@).push(line_model(line)),
{
    let ghost m = line_model(line);
    lines.push(line);
    assert(lines_model(final(lines)@) =~= lines_model(old(lines)@).push(m));
}

/// A line of a label and a value.
fn labeled(label: &str, value: String, tone: InfoTone) -> (line: Vec<InfoSpan>)
    ensures
        line_model(line) == seq![(label@, InfoTone::Label), (value@, tone)],
{
    let mut line: Vec<InfoSpan> = Vec::new();
    line.push(span(label.to_owned(), InfoTone::Label));
    let ghost v = value@;
    line.push(span(value, tone));
    assert(line_model(line) =~= seq![(label@, InfoTone::Label), (v, tone)]);
    line
}

fn push_opt(lines: &mut Vec<Vec<InfoSpan>>, label: &str, value: &Option<String>, tone: InfoTone)
    ensures
        lines_model(final(lines)@) == lines_model(old(lines)@) + opt_line(label@, opt_view(*value), tone),
{
    match value {
        Some(v) => {
            push_line(lines, labeled(label, v.clone(), tone));
            assert(lines_model(final(lines)@) =~= lines_model(old(lines)@) + opt_line(label@, opt_view(*value), tone));
        },
        None => {
            assert(lines_model(final(lines)@) =~= lines_model(old(lines)@) + opt_line(label@, opt_view(*value), tone));
        },
    }
}

fn push_each(lines: &mut Vec<Vec<InfoSpan>>, label: &str, values: &Vec<String>)
    ensures
        lines_model(final(lines)@) == lines_model(old(lines)@) + each_line(label@, values@),
{
    let ghost start = lines_model(lines@);
    let mut k: usize = 0;
    while k < values.len()
        invariant
            k <= values@.len(),
            lines_model(lines@) == start + each_line(label@, values@.subrange(0, k as int)),
        decreases values.len() - k,
    {
        push_line(lines, labeled(label, values[k].clone(), InfoTone::Value));
        k += 1;
        assert(each_line(label@, values@.subrange(0, k as int)) =~= each_line(label@, values@.subrange(0, k - 1)).push(
            seq![(label@, InfoTone::Label), (values@[k - 1]@, InfoTone::Value)],
        ));
        assert(lines_model(lines@) =~= start + each_line(label@, values@.subrange(0, k as int)));
    }
    assert(values@.subrange(0, values@.len() as int) =~= values@);
}

/// The info pane's lines for a host.
pub fn host_info_lines(h: &HostRecord) -> (lines: Vec<Vec<InfoSpan>>)
    ensures
        lines_model(lines@) == spec_host_info_lines(*h),
{
    let mut lines: Vec<Vec<InfoSpan>> = Vec::new();
    if let Some(d) = &h.description {
        let mut first: Vec<InfoSpan> = Vec::new();
        first.push(span(d.clone(), InfoTone::Description));
        assert(line_model(first) =~= seq![(d@, InfoTone::Description)]);
        push_line(&mut lines, first);
        let blank: Vec<InfoSpan> = Vec::new();
        assert(line_model(blank) =~= Seq::<(Seq<char>, InfoTone)>::empty());
        push_line(&mut lines, blank);
    }
    let ghost after_desc = lines_model(lines@);
    assert(after_desc =~= match h.description {
        Some(d) => seq![seq![(d@, InfoTone::Description)], seq![]],
        None => Seq::<LineModel>::empty(),
    });
    push_opt(&mut lines, "Host: ", &h.hostname, InfoTone::Value);
    push_opt(&mut lines, "User: ", &h.user, InfoTone::Value);
    let ghost before_port = lines_model(lines@);
    if let Some(p) = h.port {
        let mut text = String::new();
        push_decimal_text(&mut text, p as u64);
        assert(text@ =~= digits(p as nat));
        push_line(&mut lines, labeled("Port: ", text, InfoTone::Value));
    }
    assert(lines_model(lines@) =~= before_port + opt_line("Port: "@, match h.port { Some(p) => Some(digits(p as nat)), None => None }, InfoTone::Value));
    let ghost before_key = lines_model(lines@);
    if let Some(i) = &h.identity_file {
        push_line(&mut lines, labeled("Key:  ", file_name_part(i.as_str()), InfoTone::Faint));
    }
    assert(lines_model(lines@) =~= before_key + opt_line("Key:  "@, match h.identity_file { Some(i) => Some(after_last_slash(i@)), None => None }, InfoTone::Faint));
    push_opt(&mut lines, "Jump: ", &h.proxy_jump, InfoTone::Value);
    push_each(&mut lines, "LFwd: ", &h.local_forward);
    push_each(&mut lines, "RFwd: ", &h.remote_forward);
    push_opt(&mut lines, "Prof: ", &h.profile, InfoTone::Profile);
    let ghost before_pass = lines_model(lines@);
    if h.use_sshpass {
        push_line(&mut lines, labeled("Pass: ", "sshpass".to_owned(), InfoTone::Warning));
    }
    assert(lines_model(lines@) =~= before_pass + (if h.use_sshpass { seq![seq![("Pass: "@, InfoTone::Label), ("sshpass"@, InfoTone::Warning)]] } else { Seq::<LineModel>::empty() }));
    assert(lines_model(lines@) =~= spec_host_info_lines(*h));
    lines
}

/// `N direct / M total`.
pub open spec fn host_counts_text(direct: usize, total: usize) -> Seq<char> {
    digits(direct as nat) + " direct / "@ + digits(total as nat) + " total"@
}

fn counts_text(direct: usize, total: usize) -> (s: String)
    ensures
        s@ == host_counts_text(direct, total),
{
    let mut s = String::new();
    push_decimal_text(&mut s, direct as u64);
    push_str_chars(&mut s, " direct / ");
    push_decimal_text(&mut s, total as u64);
    push_str_chars(&mut s, " total");
    assert(s@ =~= host_counts_text(direct, total));
    s
}


fn decimal(n: usize) -> (s: String)
    ensures
        s@ == digits(n as nat),
{
    let mut s = String::new();
    push_decimal_text(&mut s, n as u64);
    assert(s@ =~= digits(n as nat));
    s
}

/// The info pane's lines for a folder: its path, how many folders it
/// holds, and its hosts directly in it and in all.
pub open spec fn spec_folder_info_lines(path: Seq<char>, child_folders: usize, direct: usize, total: usize) -> Seq<LineModel> {
    seq![
        seq![("Path: "@, InfoTone::Label), (path, InfoTone::Value)],
        seq![("Folders: "@, InfoTone::Label), (digits(child_folders as nat), InfoTone::Value)],
        seq![("Hosts: "@, InfoTone::Label), (host_counts_text(direct, total), InfoTone::Value)],
    ]
}

/// The info pane's lines for a folder.
pub fn folder_info_lines(path: &str, child_folders: usize, direct: usize, total: usize) -> (lines: Vec<Vec<InfoSpan>>)
    ensures
        lines_model(lines@) == spec_folder_info_lines(path@, child_folders, direct, total),
{
    let mut lines: Vec<Vec<InfoSpan>> = Vec::new();
    push_line(&mut lines, labeled("Path: ", path.to_owned(), InfoTone::Value));
    push_line(&mut lines, labeled("Folders: ", decimal(child_folders), InfoTone::Value));
    push_line(&mut lines, labeled("Hosts: ", counts_text(direct, total), InfoTone::Value));
    assert(lines_model(lines@) =~= spec_folder_info_lines(path@, child_folders, direct, total));
    lines
}

/// The header of the info pane: `Info` and the selected host's or
/// folder's name, or `Info` alone.
pub fn info_header(name: Option<&str>) -> (s: String)
    ensures
        s@ == match name { Some(n) => "Info "@ + n@, None => "Info"@ },
{
    match name {
        Some(n) => {
            let mut s = "Info ".to_owned();
            push_str_chars(&mut s, n);
            s
        },
        None => "Info".to_owned(),
    }
}

/// The details pane's lines for a host: its name, then host name, user,
/// port, identity file and jump host, each only when set.
pub open spec fn spec_host_details_lines(h: HostRecord) -> Seq<LineModel> {
    seq![seq![], seq![("Host: "@, InfoTone::Label), (h.name@, InfoTone::Name)], seq![]]
        + opt_line("  Hostname: "@, opt_view(h.hostname), InfoTone::Value)
        + opt_line("  User: "@, opt_view(h.user), InfoTone::Value)
        + opt_line("  Port: "@, match h.port { Some(p) => Some(digits(p as nat)), None => None }, InfoTone::Value)
        + opt_line("  IdentityFile: "@, opt_view(h.identity_file), InfoTone::Faint)
        + opt_line("  ProxyJump: "@, opt_view(h.proxy_jump), InfoTone::Value)
}

fn blank_line() -> (line: Vec<InfoSpan>)
    ensures
        line_model(line) == Seq::<(Seq<char>, InfoTone)>::empty(),
{
    let line: Vec<InfoSpan> = Vec::new();
    assert(line_model(line) =~= Seq::<(Seq<char>, InfoTone)>::empty());
    line
}

/// The details pane's lines for a host.
pub fn host_details_lines(h: &HostRecord) -> (lines: Vec<Vec<InfoSpan>>)
    ensures
        lines_model(lines@) == spec_host_details_lines(*h),
{
    let mut lines: Vec<Vec<InfoSpan>> = Vec::new();
    push_line(&mut lines, blank_line());
    push_line(&mut lines, labeled("Host: ", h.name.clone(), InfoTone::Name));
    push_line(&mut lines, blank_line());
    push_opt(&mut lines, "  Hostname: ", &h.hostname, InfoTone::Value);
    push_opt(&mut lines, "  User: ", &h.user, InfoTone::Value);
    let ghost before_port = lines_model(lines@);
    if let Some(p) = h.port {
        push_line(&mut lines, labeled("  Port: ", decimal(p as usize), InfoTone::Value));
    }
    assert(lines_model(lines@) =~= before_port + opt_line("  Port: "@, match h.port { Some(p) => Some(digits(p as nat)), None => None }, InfoTone::Value));
    push_opt(&mut lines, "  IdentityFile: ", &h.identity_file, InfoTone::Faint);
    push_opt(&mut lines, "  ProxyJump: ", &h.proxy_jump, InfoTone::Value);
    assert(lines_model(lines@) =~= spec_host_details_lines(*h));
    lines
}

/// The details pane's lines for a folder: its name, path, how many folders
/// it holds, and its hosts directly in it and in all.
pub open spec fn spec_folder_details_lines(name: Seq<char>, path: Seq<char>, child_folders: usize, direct: usize, total: usize) -> Seq<LineModel> {
    seq![
        seq![],
        seq![("Folder: "@, InfoTone::Label), (name, InfoTone::Name)],
        seq![],
        seq![("  Path: "@, InfoTone::Label), (path, InfoTone::Value)],
        seq![("  Child Folders: "@, InfoTone::Label), (digits(child_folders as nat), InfoTone::Value)],
        seq![("  Hosts: "@, InfoTone::Label), (host_counts_text(direct, total), InfoTone::Value)],
    ]
}

/// The details pane's lines for a folder.
pub fn folder_details_lines(name: &str, path: &str, child_folders: usize, direct: usize, total: usize) -> (lines: Vec<Vec<InfoSpan>>)
    ensures
        lines_model(lines@) == spec_folder_details_lines(name@, path@, child_folders, direct, total),
{
    let mut lines: Vec<Vec<InfoSpan>> = Vec::new();
    push_line(&mut lines, blank_line());
    push_line(&mut lines, labeled("Folder: ", name.to_owned(), InfoTone::Name));
    push_line(&mut lines, blank_line());
    push_line(&mut lines, labeled("  Path: ", path.to_owned(), InfoTone::Value));
    push_line(&mut lines, labeled("  Child Folders: ", decimal(child_folders), InfoTone::Value));
    push_line(&mut lines, labeled("  Hosts: ", counts_text(direct, total), InfoTone::Value));
    assert(lines_model(lines@) =~= spec_folder_details_lines(name@, path@, child_folders, direct, total));
    lines
}

/// A pane's notice on its own line after a blank one (`No selection`,
/// `No folder selected`).
pub fn notice_lines(notice: &str) -> (lines: Vec<Vec<InfoSpan>>)
    ensures
        lines_model(lines@) == seq![Seq::<(Seq<char>, InfoTone)>::empty(), seq![(notice@, InfoTone::Faint)]],
{
    let mut lines: Vec<Vec<InfoSpan>> = Vec::new();
    push_line(&mut lines, blank_line());
    let mut line: Vec<InfoSpan> = Vec::new();
    line.push(span(notice.to_owned(), InfoTone::Faint));
    assert(line_model(line) =~= seq![(notice@, InfoTone::Faint)]);
    push_line(&mut lines, line);
    assert(lines_model(lines@) =~= seq![Seq::<(Seq<char>, InfoTone)>::empty(), seq![(notice@, InfoTone::Faint)]]);
    lines
}

/// What a pane is about.
#[derive(Clone, Copy, Debug, PartialEq, Eq)]
pub enum InfoSubject {
    /// Nothing is selected (or the selection names nothing known).
    Nothing,
    /// The host with this index.
    Host(usize),
    /// The folder with this id.
    Folder(usize),
}

/// The kind of the selected row, if a row is selected.
pub open spec fn selected_kind(b: HostBrowser) -> Option<HostTreeRowKind> {
    if b.selected_row < b.visible_rows@.len() { Some(b.visible_rows@[b.selected_row as int].kind) } else { None }
}

/// The folder with id `id` in the browser's tree.
pub open spec fn folder_in(b: HostBrowser, id: usize) -> Option<TreeFolder> {
    if b.root.id == id { Some(b.root) } else { find_folder(b.root.children@, id) }
}

/// What the info pane is about: the selected host when there are
/// `host_count` hosts and it is one of them, else the selected folder when
/// the tree has it, else nothing.
pub open spec fn spec_info_subject(b: HostBrowser, host_count: usize) -> InfoSubject {
    match selected_kind(b) {
        Some(HostTreeRowKind::Host(i)) => if i < host_count { InfoSubject::Host(i) } else { InfoSubject::Nothing },
        Some(HostTreeRowKind::Folder(id)) => if folder_in(b, id) is Some { InfoSubject::Folder(id) } else { InfoSubject::Nothing },
        None => InfoSubject::Nothing,
    }
}

impl HostBrowser {
    /// What the info pane shows.
    pub fn info_subject(&self, host_count: usize) -> (r: InfoSubject)
        ensures
            r == spec_info_subject(*self, host_count),
    {
        if self.visible_rows.len() == 0 {
            return InfoSubject::Nothing;
        }
        if let Some(i) = self.selected_host_idx() {
            if i < host_count {
                return InfoSubject::Host(i);
            }
        }
        if let Some(id) = self.selected_folder_id() {
            if self.folder_by_id(id).is_some() {
                return InfoSubject::Folder(id);
            }
        }
        InfoSubject::Nothing
    }
}

} // verus!
