//! The host panel's folder tree and the rows it shows: folders with their
//! hosts, collapsed folders hiding their contents, and search mode showing
//! only matching hosts and the folders above them.
use std::collections::{HashMap, HashSet};
use vstd::prelude::*;
use vstd::string::StringSliceAdditionalSpecFns;
use crate::host_search::{
    HostSearchEntry, try_compute_match_scores, entry_within_limits, spec_match_scores, scores_computable, lowercase,
    to_lowercase,
};
use crate::layout::update_host_scroll;
use crate::text_edit::text_equal;

verus! {

broadcast use vstd::std_specs::hash::group_hash_axioms;

/// A folder of hosts. The root folder of the tree is not shown itself.
#[derive(Debug)]
pub struct TreeFolder {
    pub id: usize,
    pub name: String,
    /// The inventory file that defines this folder, by its index in the
    /// list of inventory files (included files start their own folders).
    pub source: usize,
    /// Indices, into the host list, of the hosts directly in this folder.
    pub host_indices: Vec<usize>,
    pub children: Vec<TreeFolder>,
}

/// What a row of the host panel shows.
#[derive(Clone, Copy, Debug, PartialEq, Eq, Structural)]
pub enum HostTreeRowKind {
    Folder(usize),
    Host(usize),
}

/// A row of the host panel.
#[derive(Debug)]
pub struct HostTreeRow {
    pub kind: HostTreeRowKind,
    pub depth: usize,
    pub display_name: String,
    pub expanded: bool,
}

/// A row as a value: kind, depth, name, expanded.
pub type RowModel = (HostTreeRowKind, int, Seq<char>, bool);

/// The value of a row.
pub open spec fn row_model(r: HostTreeRow) -> RowModel {
    (r.kind, r.depth as int, r.display_name@, r.expanded)
}

/// The values of rows.
pub open spec fn row_models(rows: Seq<HostTreeRow>) -> Seq<RowModel> {
    rows.map_values(|r: HostTreeRow| row_model(r))
}

/// Rows for the hosts at `indices` that exist and pass the filter
/// (`None` keeps every host).
pub open spec fn host_rows(indices: Seq<usize>, names: Seq<Seq<char>>, depth: int, filter: Option<Set<usize>>) -> Seq<RowModel>
    decreases indices.len(),
{
    if indices.len() == 0 {
        seq![]
    } else {
        let idx = indices.last();
        let keep = idx < names.len() && match filter {
            Some(m) => m.contains(idx),
            None => true,
        };
        host_rows(indices.drop_last(), names, depth, filter) + if keep {
            seq![(HostTreeRowKind::Host(idx), depth, names[idx as int], false)]
        } else {
            seq![]
        }
    }
}

/// Height of a forest of folders (one for a folder without subfolders).
pub open spec fn forest_height(fs: Seq<TreeFolder>) -> nat
    decreases fs,
{
    if fs.len() == 0 {
        0
    } else {
        let below = forest_height(fs[0].children@) + 1;
        let rest = forest_height(fs.drop_first());
        if below >= rest { below } else { rest }
    }
}

/// Rows of folders outside search: each folder, then (when expanded) its
/// hosts and its subfolders one level deeper.
pub open spec fn normal_rows(fs: Seq<TreeFolder>, depth: int, collapsed: Set<usize>, names: Seq<Seq<char>>) -> Seq<RowModel>
    decreases fs,
{
    if fs.len() == 0 {
        seq![]
    } else {
        let f = fs[0];
        let expanded = !collapsed.contains(f.id);
        let own = seq![(HostTreeRowKind::Folder(f.id), depth, f.name@, expanded)] + if expanded {
            host_rows(f.host_indices@, names, depth + 1, None) + normal_rows(f.children@, depth + 1, collapsed, names)
        } else {
            seq![]
        };
        own + normal_rows(fs.drop_first(), depth, collapsed, names)
    }
}

/// Rows of folders in search mode: a folder shows, expanded, with its
/// matching hosts and matching subfolders, when it has any of them.
pub open spec fn search_rows(fs: Seq<TreeFolder>, depth: int, matched: Set<usize>, names: Seq<Seq<char>>) -> Seq<RowModel>
    decreases fs,
{
    if fs.len() == 0 {
        seq![]
    } else {
        let f = fs[0];
        let hosts = host_rows(f.host_indices@, names, depth + 1, Some(matched));
        let below = search_rows(f.children@, depth + 1, matched, names);
        let own = if hosts.len() > 0 || below.len() > 0 {
            seq![(HostTreeRowKind::Folder(f.id), depth, f.name@, true)] + hosts + below
        } else {
            seq![]
        };
        own + search_rows(fs.drop_first(), depth, matched, names)
    }
}

/// The rows of the host panel: the root's own hosts and then its folders,
/// all hosts outside search, and only the matching ones in search.
pub open spec fn visible_rows(root: TreeFolder, searching: bool, collapsed: Set<usize>, matched: Set<usize>, names: Seq<Seq<char>>) -> Seq<RowModel> {
    if !searching {
        host_rows(root.host_indices@, names, 0, None) + normal_rows(root.children@, 0, collapsed, names)
    } else {
        host_rows(root.host_indices@, names, 0, Some(matched)) + search_rows(root.children@, 0, matched, names)
    }
}

/// The views of a list of strings.
pub open spec fn name_views(names: Seq<String>) -> Seq<Seq<char>> {
    names.map_values(|s: String| s@)
}

fn push_row(rows: &mut Vec<HostTreeRow>, kind: HostTreeRowKind, depth: usize, name: &String, expanded: bool)
    ensures
        row_models(final(rows)@) == row_models(old(rows)@).push((kind, depth as int, name@, expanded)),
{
    rows.push(HostTreeRow { kind, depth, display_name: name.clone(), expanded });
    assert(row_models(final(rows)@) =~= row_models(old(rows)@).push((kind, depth as int, name@, expanded)));
}

fn collect_host_rows(
    indices: &Vec<usize>,
    names: &[String],
    depth: usize,
    matched: Option<&HashMap<usize, i32>>,
    rows: &mut Vec<HostTreeRow>,
)
    ensures
        row_models(final(rows)@) == row_models(old(rows)@) + host_rows(
            indices@,
            name_views(names@),
            depth as int,
            match matched {
                Some(m) => Some(m@.dom()),
                None => None,
            },
        ),
{
    let ghost filter = match matched {
        Some(m) => Some(m@.dom()),
        None => None,
    };
    let ghost nv = name_views(names@);
    let mut i: usize = 0;
    while i < indices.len()
        invariant
            i <= indices@.len(),
            nv == name_views(names@),
            filter == match matched {
                Some(m) => Some(m@.dom()),
                None => None,
            },
            row_models(rows@) == row_models(old(rows)@) + host_rows(indices@.subrange(0, i as int), nv, depth as int, filter),
        decreases indices.len() - i,
    {
        let idx = indices[i];
        let keep = idx < names.len() && match matched {
            Some(m) => m.contains_key(&idx),
            None => true,
        };
        assert(indices@.subrange(0, i + 1).drop_last() =~= indices@.subrange(0, i as int));
        if keep {
            push_row(rows, HostTreeRowKind::Host(idx), depth, &names[idx], false);
            assert(row_models(rows@) =~= row_models(old(rows)@) + host_rows(indices@.subrange(0, i + 1), nv, depth as int, filter));
        } else {
            assert(row_models(rows@) =~= row_models(old(rows)@) + host_rows(indices@.subrange(0, i + 1), nv, depth as int, filter));
        }
        i += 1;
    }
    assert(indices@.subrange(0, indices@.len() as int) =~= indices@);
}

/// Every folder of a forest is at least one level below its height.
proof fn lemma_forest_height(fs: Seq<TreeFolder>, i: int)
    requires
        0 <= i < fs.len(),
    ensures
        forest_height(fs[i].children@) + 1 <= forest_height(fs),
        forest_height(fs.subrange(i, fs.len() as int)) <= forest_height(fs),
    decreases fs.len(),
{
    if i > 0 {
        lemma_forest_height(fs.drop_first(), i - 1);
        assert(fs.drop_first()[i - 1] == fs[i]);
        assert(fs.drop_first().subrange(i - 1, fs.len() - 1) =~= fs.subrange(i, fs.len() as int));
    } else {
        assert(fs.subrange(0, fs.len() as int) =~= fs);
    }
}

/// Collect the rows of folders outside search.
pub fn collect_normal_rows(
    fs: &Vec<TreeFolder>,
    depth: usize,
    collapsed: &HashSet<usize>,
    names: &[String],
    rows: &mut Vec<HostTreeRow>,
)
    requires
        depth + forest_height(fs@) <= usize::MAX,
    ensures
        row_models(final(rows)@) == row_models(old(rows)@) + normal_rows(fs@, depth as int, collapsed@, name_views(names@)),
    decreases fs@,
{
    let ghost nv = name_views(names@);
    let ghost total = row_models(old(rows)@) + normal_rows(fs@, depth as int, collapsed@, nv);
    let mut i: usize = 0;
    assert(fs@.subrange(0, fs@.len() as int) =~= fs@);
    while i < fs.len()
        invariant
            i <= fs@.len(),
            depth + forest_height(fs@) <= usize::MAX,
            nv == name_views(names@),
            total == row_models(old(rows)@) + normal_rows(fs@, depth as int, collapsed@, nv),
            total == row_models(rows@) + normal_rows(fs@.subrange(i as int, fs@.len() as int), depth as int, collapsed@, nv),
        decreases fs.len() - i,
    {
        let f = &fs[i];
        let ghost tail = fs@.subrange(i as int, fs@.len() as int);
        assert(tail[0] == fs@[i as int]);
        assert(tail.drop_first() =~= fs@.subrange(i + 1, fs@.len() as int));
        let ghost before = row_models(rows@);
        let expanded = !collapsed.contains(&f.id);
        push_row(rows, HostTreeRowKind::Folder(f.id), depth, &f.name, expanded);
        if expanded {
            proof {
                lemma_forest_height(fs@, i as int);
            }
            collect_host_rows(&f.host_indices, names, depth + 1, None, rows);
            proof {
                assert(decreases_to!(fs@ => fs@[i as int]));
                assert(decreases_to!(fs@[i as int] => fs@[i as int].children));
                assert(decreases_to!(fs@[i as int].children => fs@[i as int].children@));
            }
            collect_normal_rows(&f.children, depth + 1, collapsed, names, rows);
        }
        proof {
            let own = seq![(HostTreeRowKind::Folder(f.id), depth as int, f.name@, expanded)] + if expanded {
                host_rows(f.host_indices@, nv, depth + 1, None) + normal_rows(f.children@, depth + 1, collapsed@, nv)
            } else {
                seq![]
            };
            assert(row_models(rows@) =~= before + own);
            assert(normal_rows(tail, depth as int, collapsed@, nv) == own + normal_rows(tail.drop_first(), depth as int, collapsed@, nv));
        }
        i += 1;
    }
    assert(fs@.subrange(i as int, fs@.len() as int) =~= Seq::<TreeFolder>::empty());
}

/// Collect the rows of folders in search mode; returns whether any folder
/// matched.
pub fn collect_search_rows(
    fs: &Vec<TreeFolder>,
    depth: usize,
    matched: &HashMap<usize, i32>,
    names: &[String],
    rows: &mut Vec<HostTreeRow>,
) -> (any: bool)
    requires
        depth + forest_height(fs@) <= usize::MAX,
    ensures
        row_models(final(rows)@) == row_models(old(rows)@) + search_rows(fs@, depth as int, matched@.dom(), name_views(names@)),
        any == (search_rows(fs@, depth as int, matched@.dom(), name_views(names@)).len() > 0),
    decreases fs@,
{
    let ghost nv = name_views(names@);
    let ghost m = matched@.dom();
    let ghost total = row_models(old(rows)@) + search_rows(fs@, depth as int, m, nv);
    let mut any = false;
    let mut i: usize = 0;
    assert(fs@.subrange(0, fs@.len() as int) =~= fs@);
    while i < fs.len()
        invariant
            i <= fs@.len(),
            depth + forest_height(fs@) <= usize::MAX,
            nv == name_views(names@),
            m == matched@.dom(),
            total == row_models(old(rows)@) + search_rows(fs@, depth as int, m, nv),
            total == row_models(rows@) + search_rows(fs@.subrange(i as int, fs@.len() as int), depth as int, m, nv),
            any == (row_models(rows@).len() > row_models(old(rows)@).len()),
            row_models(rows@).len() >= row_models(old(rows)@).len(),
        decreases fs.len() - i,
    {
        let f = &fs[i];
        let ghost tail = fs@.subrange(i as int, fs@.len() as int);
        assert(tail[0] == fs@[i as int]);
        assert(tail.drop_first() =~= fs@.subrange(i + 1, fs@.len() as int));
        let ghost before = row_models(rows@);
        proof {
            lemma_forest_height(fs@, i as int);
            assert(decreases_to!(fs@ => fs@[i as int]));
            assert(decreases_to!(fs@[i as int] => fs@[i as int].children));
            assert(decreases_to!(fs@[i as int].children => fs@[i as int].children@));
        }
        let mut below: Vec<HostTreeRow> = Vec::new();
        let child_any = collect_search_rows(&f.children, depth + 1, matched, names, &mut below);
        let mut hosts: Vec<HostTreeRow> = Vec::new();
        collect_host_rows(&f.host_indices, names, depth + 1, Some(matched), &mut hosts);
        assert(row_models(below@) =~= search_rows(f.children@, depth + 1, m, nv));
        assert(row_models(hosts@) =~= host_rows(f.host_indices@, nv, depth + 1, Some(m)));
        if hosts.len() > 0 || child_any {
            push_row(rows, HostTreeRowKind::Folder(f.id), depth, &f.name, true);
            let ghost with_folder = row_models(rows@);
            append_rows(rows, hosts);
            append_rows(rows, below);
            any = true;
            proof {
                assert(row_models(rows@) =~= before + (seq![(HostTreeRowKind::Folder(f.id), depth as int, f.name@, true)]
                    + host_rows(f.host_indices@, nv, depth + 1, Some(m)) + search_rows(f.children@, depth + 1, m, nv)));
            }
        } else {
            assert(row_models(rows@) =~= before + Seq::<RowModel>::empty());
        }
        proof {
            let hs = host_rows(f.host_indices@, nv, depth + 1, Some(m));
            let bl = search_rows(f.children@, depth + 1, m, nv);
            let own = if hs.len() > 0 || bl.len() > 0 {
                seq![(HostTreeRowKind::Folder(f.id), depth as int, f.name@, true)] + hs + bl
            } else {
                seq![]
            };
            assert(search_rows(tail, depth as int, m, nv) == own + search_rows(tail.drop_first(), depth as int, m, nv));
        }
        i += 1;
    }
    assert(fs@.subrange(i as int, fs@.len() as int) =~= Seq::<TreeFolder>::empty());
    any
}

fn append_rows(rows: &mut Vec<HostTreeRow>, more: Vec<HostTreeRow>)
    ensures
        row_models(final(rows)@) == row_models(old(rows)@) + row_models(more@),
{
    let mut more = more;
    let ghost m0 = more@;
    rows.append(&mut more);
    assert(row_models(rows@) =~= row_models(old(rows)@) + row_models(m0));
}

/// Length in UTF-8 bytes of the lower case of a text.
pub open spec fn lowercase_bytes(s: Seq<char>) -> int {
    vstd::utf8::encode_utf8(lowercase(s)).len() as int
}

/// Build the rows of the host panel.
pub fn build_visible_rows(
    root: &TreeFolder,
    searching: bool,
    collapsed: &HashSet<usize>,
    matched: &HashMap<usize, i32>,
    names: &[String],
) -> (rows: Vec<HostTreeRow>)
    requires
        forest_height(root.children@) <= usize::MAX,
    ensures
        row_models(rows@) == visible_rows(*root, searching, collapsed@, matched@.dom(), name_views(names@)),
{
    let mut rows: Vec<HostTreeRow> = Vec::new();
    if !searching {
        collect_host_rows(&root.host_indices, names, 0, None, &mut rows);
        collect_normal_rows(&root.children, 0, collapsed, names, &mut rows);
    } else {
        collect_host_rows(&root.host_indices, names, 0, Some(matched), &mut rows);
        let _ = collect_search_rows(&root.children, 0, matched, names, &mut rows);
    }
    assert(row_models(rows@) =~= visible_rows(*root, searching, collapsed@, matched@.dom(), name_views(names@)));
    rows
}

/// Index of the first row showing `key`.
pub open spec fn first_row_with(rows: Seq<RowModel>, key: HostTreeRowKind, i: int) -> Option<int>
    decreases rows.len() - i,
{
    if i < 0 || i >= rows.len() {
        None
    } else if rows[i].0 == key {
        Some(i)
    } else {
        first_row_with(rows, key, i + 1)
    }
}

/// Index of the first row showing `key`.
pub fn first_row_index(rows: &Vec<HostTreeRow>, key: HostTreeRowKind) -> (r: Option<usize>)
    ensures
        match r {
            Some(i) => first_row_with(row_models(rows@), key, 0) == Some(i as int),
            None => first_row_with(row_models(rows@), key, 0) is None,
        },
{
    let ghost models = row_models(rows@);
    let n = rows.len();
    let mut i: usize = 0;
    while i < n
        invariant
            n == rows@.len(),
            models == row_models(rows@),
            i <= n,
            first_row_with(models, key, 0) == first_row_with(models, key, i as int),
        decreases n - i,
    {
        if rows[i].kind == key {
            assert(models[i as int].0 == key);
            return Some(i);
        }
        i += 1;
    }
    None
}

/// The host panel: its folder tree, the rows shown, the selection and
/// scroll position, search scores and collapsed folders.
#[derive(Debug)]
pub struct HostBrowser {
    pub root: TreeFolder,
    /// Host names, by host index.
    pub host_names: Vec<String>,
    pub visible_rows: Vec<HostTreeRow>,
    pub selected_row: usize,
    pub scroll_offset: usize,
    /// Search scores by host index; empty outside search.
    pub match_scores: HashMap<usize, i32>,
    pub collapsed_folders: HashSet<usize>,
    pub search_query: String,
}

/// The row selected after the rows were rebuilt: the first showing
/// `preferred` when there is one, else the first row (0 with no rows too).
pub open spec fn reselected_row(rows: Seq<HostTreeRow>, preferred: Option<HostTreeRowKind>) -> usize {
    match preferred {
        Some(k) => match first_row_with(row_models(rows), k, 0) {
            Some(i) => i as usize,
            None => 0,
        },
        None => 0,
    }
}

/// The kind of row `row` of `rows`, if there is such a row.
pub open spec fn row_key_at(rows: Seq<HostTreeRow>, row: usize) -> Option<HostTreeRowKind> {
    if row < rows.len() { Some(rows[row as int].kind) } else { None }
}

impl HostBrowser {
    /// The tree is shallow enough for row depths to fit.
    pub open spec fn tree_ok(&self) -> bool {
        forest_height(self.root.children@) <= usize::MAX
    }

    /// The rows the panel shows for its tree, search state and collapsed folders.
    pub open spec fn expected_rows(&self) -> Seq<RowModel> {
        visible_rows(self.root, self.search_query@.len() > 0, self.collapsed_folders@, self.match_scores@.dom(), name_views(self.host_names@))
    }

    /// The kind of the selected row, if a row is selected.
    pub fn selected_row_key(&self) -> (r: Option<HostTreeRowKind>)
        ensures
            r == if self.selected_row < self.visible_rows@.len() {
                Some(self.visible_rows@[self.selected_row as int].kind)
            } else {
                None
            },
    {
        if self.selected_row < self.visible_rows.len() {
            Some(self.visible_rows[self.selected_row].kind)
        } else {
            None
        }
    }

    /// The host index of the selected row, when it shows a host.
    pub fn selected_host_idx(&self) -> (r: Option<usize>)
        ensures
            r == match (if self.selected_row < self.visible_rows@.len() { Some(self.visible_rows@[self.selected_row as int].kind) } else { None }) {
                Some(HostTreeRowKind::Host(i)) => Some(i),
                _ => None,
            },
    {
        match self.selected_row_key() {
            Some(HostTreeRowKind::Host(i)) => Some(i),
            _ => None,
        }
    }

    /// The folder id of the selected row, when it shows a folder.
    pub fn selected_folder_id(&self) -> (r: Option<usize>)
        ensures
            r == match (if self.selected_row < self.visible_rows@.len() { Some(self.visible_rows@[self.selected_row as int].kind) } else { None }) {
                Some(HostTreeRowKind::Folder(i)) => Some(i),
                _ => None,
            },
    {
        match self.selected_row_key() {
            Some(HostTreeRowKind::Folder(i)) => Some(i),
            _ => None,
        }
    }

    /// Select row `row`, kept within the rows.
    pub fn set_selected_row(&mut self, row: usize)
        ensures
            final(self).selected_row == if old(self).visible_rows@.len() == 0 {
                0
            } else if row >= old(self).visible_rows@.len() {
                (old(self).visible_rows@.len() - 1) as usize
            } else {
                row
            },
            final(self).visible_rows == old(self).visible_rows,
            final(self).scroll_offset == old(self).scroll_offset,
            final(self).root == old(self).root,
            final(self).host_names == old(self).host_names,
            final(self).match_scores == old(self).match_scores,
            final(self).collapsed_folders == old(self).collapsed_folders,
            final(self).search_query == old(self).search_query,
    {
        let n = self.visible_rows.len();
        self.selected_row = if n == 0 { 0 } else if row >= n { n - 1 } else { row };
    }

    /// Show the rows for the current tree, search state and collapsed folders.
    pub fn rebuild_visible_rows(&mut self)
        requires
            old(self).tree_ok(),
        ensures
            row_models(final(self).visible_rows@) == final(self).expected_rows(),
            final(self).selected_row == old(self).selected_row,
            final(self).scroll_offset == old(self).scroll_offset,
            final(self).root == old(self).root,
            final(self).host_names == old(self).host_names,
            final(self).match_scores == old(self).match_scores,
            final(self).collapsed_folders == old(self).collapsed_folders,
            final(self).search_query == old(self).search_query,
    {
        let searching = self.search_query.as_str().unicode_len() > 0;
        self.visible_rows = build_visible_rows(&self.root, searching, &self.collapsed_folders, &self.match_scores, self.host_names.as_slice());
    }

    /// After the rows were rebuilt: select the row showing `preferred` when
    /// there is one, else the first row; with no rows, reset the scroll too.
    pub fn repair_selection_after_rebuild(&mut self, preferred: Option<HostTreeRowKind>)
        ensures
            old(self).visible_rows@.len() == 0 ==> final(self).selected_row == 0 && final(self).scroll_offset == 0,
            old(self).visible_rows@.len() > 0 ==> {
                &&& final(self).scroll_offset == old(self).scroll_offset
                &&& final(self).selected_row == match preferred {
                    Some(k) => match first_row_with(row_models(old(self).visible_rows@), k, 0) {
                        Some(i) => i as usize,
                        None => 0,
                    },
                    None => 0,
                }
            },
            final(self).visible_rows == old(self).visible_rows,
            final(self).root == old(self).root,
            final(self).host_names == old(self).host_names,
            final(self).match_scores == old(self).match_scores,
            final(self).collapsed_folders == old(self).collapsed_folders,
            final(self).search_query == old(self).search_query,
    {
        let n = self.visible_rows.len();
        if n == 0 {
            self.selected_row = 0;
            self.scroll_offset = 0;
            return;
        }
        self.selected_row = match preferred {
            Some(key) => match first_row_index(&self.visible_rows, key) {
                Some(i) => i,
                None => 0,
            },
            None => 0,
        };
    }

    /// Whether a folder shows expanded: always while searching.
    pub fn is_folder_expanded(&self, folder_id: usize) -> (r: bool)
        ensures
            r == (self.search_query@.len() > 0 || !self.collapsed_folders@.contains(folder_id)),
    {
        if self.search_query.as_str().unicode_len() > 0 {
            return true;
        }
        !self.collapsed_folders.contains(&folder_id)
    }

    /// Expand or collapse a folder (not while searching), then rebuild the
    /// rows keeping the folder selected.
    pub fn set_folder_expanded(&mut self, folder_id: usize, expanded: bool)
        requires
            old(self).tree_ok(),
        ensures
            old(self).search_query@.len() > 0 ==> *final(self) == *old(self),
            old(self).search_query@.len() == 0 ==> {
                &&& final(self).collapsed_folders@ == if expanded {
                    old(self).collapsed_folders@.remove(folder_id)
                } else {
                    old(self).collapsed_folders@.insert(folder_id)
                }
                &&& row_models(final(self).visible_rows@) == final(self).expected_rows()
                &&& final(self).selected_row == reselected_row(final(self).visible_rows@, Some(HostTreeRowKind::Folder(folder_id)))
                &&& final(self).scroll_offset == if final(self).visible_rows@.len() == 0 { 0 } else { old(self).scroll_offset }
                &&& final(self).root == old(self).root
                &&& final(self).host_names == old(self).host_names
                &&& final(self).match_scores == old(self).match_scores
                &&& final(self).search_query == old(self).search_query
            },
    {
        if self.search_query.as_str().unicode_len() > 0 {
            return;
        }
        if expanded {
            self.collapsed_folders.remove(&folder_id);
        } else {
            self.collapsed_folders.insert(folder_id);
        }
        self.rebuild_visible_rows();
        self.repair_selection_after_rebuild(Some(HostTreeRowKind::Folder(folder_id)));
    }

    /// Flip a folder between expanded and collapsed.
    pub fn toggle_folder(&mut self, folder_id: usize)
        requires
            old(self).tree_ok(),
        ensures
            old(self).search_query@.len() > 0 ==> *final(self) == *old(self),
            old(self).search_query@.len() == 0 ==> {
                &&& final(self).collapsed_folders@ == if old(self).collapsed_folders@.contains(folder_id) {
                    old(self).collapsed_folders@.remove(folder_id)
                } else {
                    old(self).collapsed_folders@.insert(folder_id)
                }
                &&& row_models(final(self).visible_rows@) == final(self).expected_rows()
                &&& final(self).selected_row == reselected_row(final(self).visible_rows@, Some(HostTreeRowKind::Folder(folder_id)))
                &&& final(self).scroll_offset == if final(self).visible_rows@.len() == 0 { 0 } else { old(self).scroll_offset }
                &&& final(self).root == old(self).root
                &&& final(self).host_names == old(self).host_names
                &&& final(self).match_scores == old(self).match_scores
                &&& final(self).search_query == old(self).search_query
            },
    {
        let expanded = self.is_folder_expanded(folder_id);
        self.set_folder_expanded(folder_id, !expanded);
    }

    /// Keep the selected row inside a viewport `viewport_height` rows tall.
    pub fn update_host_scroll(&mut self, viewport_height: usize)
        ensures
            final(self).scroll_offset == if old(self).visible_rows@.len() == 0 || viewport_height == 0 {
                old(self).scroll_offset as int
            } else if old(self).selected_row < old(self).scroll_offset {
                old(self).selected_row as int
            } else if old(self).selected_row >= old(self).scroll_offset + viewport_height {
                old(self).selected_row - (viewport_height - 1)
            } else {
                old(self).scroll_offset as int
            },
            final(self).selected_row == old(self).selected_row,
            final(self).visible_rows == old(self).visible_rows,
            final(self).root == old(self).root,
            final(self).host_names == old(self).host_names,
            final(self).match_scores == old(self).match_scores,
            final(self).collapsed_folders == old(self).collapsed_folders,
            final(self).search_query == old(self).search_query,
    {
        self.scroll_offset = update_host_scroll(self.selected_row, self.scroll_offset, self.visible_rows.len(), viewport_height);
    }

    /// Filter the host list by the search text: score the hosts against the
    /// lower-cased text, rebuild the rows from the top, and keep the
    /// previously selected host or folder selected when it is still shown.
    /// Returns `false`, leaving no host matched, when the fuzzy fallback's
    /// scores would not fit in `i32`.
    pub fn update_filtered_hosts(&mut self, search_entries: &[HostSearchEntry]) -> (scored: bool)
        requires
            old(self).tree_ok(),
            forall|i: int| 0 <= i < search_entries@.len() ==> entry_within_limits(#[trigger] search_entries@[i]),
        ensures
            scored == (old(self).search_query@.len() == 0 || scores_computable(search_entries@, lowercase(old(self).search_query@))),
            old(self).search_query@.len() == 0 ==> final(self).match_scores@ == Map::<usize, i32>::empty(),
            old(self).search_query@.len() > 0 && scored ==> final(self).match_scores@ == spec_match_scores(search_entries@, lowercase(old(self).search_query@)),
            !scored ==> final(self).match_scores@ == Map::<usize, i32>::empty(),
            row_models(final(self).visible_rows@) == final(self).expected_rows(),
            final(self).scroll_offset == 0,
            final(self).selected_row == reselected_row(final(self).visible_rows@, row_key_at(old(self).visible_rows@, old(self).selected_row)),
            final(self).root == old(self).root,
            final(self).host_names == old(self).host_names,
            final(self).collapsed_folders == old(self).collapsed_folders,
            final(self).search_query == old(self).search_query,
    {
        let previous = self.selected_row_key();
        self.match_scores = HashMap::new();
        let mut scored = true;
        if self.search_query.as_str().unicode_len() > 0 {
            let query_lower = to_lowercase(self.search_query.as_str());
            match try_compute_match_scores(search_entries, query_lower.as_str()) {
                Some(scores) => self.match_scores = scores,
                None => scored = false,
            }
        }
        self.rebuild_visible_rows();
        self.scroll_offset = 0;
        self.repair_selection_after_rebuild(previous);
        scored
    }
}

/// The first folder with id `id` in a preorder walk of the forest.
pub open spec fn find_folder(fs: Seq<TreeFolder>, id: usize) -> Option<TreeFolder>
    decreases fs,
{
    if fs.len() == 0 {
        None
    } else if fs[0].id == id {
        Some(fs[0])
    } else {
        match find_folder(fs[0].children@, id) {
            Some(f) => Some(f),
            None => find_folder(fs.drop_first(), id),
        }
    }
}

/// Number of hosts in a forest of folders, counting every level.
pub open spec fn host_count(fs: Seq<TreeFolder>) -> nat
    decreases fs,
{
    if fs.len() == 0 {
        0
    } else {
        fs[0].host_indices@.len() + host_count(fs[0].children@) + host_count(fs.drop_first())
    }
}

/// Ids of every folder in a forest, at every level.
pub open spec fn folder_ids(fs: Seq<TreeFolder>) -> Set<usize>
    decreases fs,
{
    if fs.len() == 0 {
        Set::empty()
    } else {
        set![fs[0].id] + folder_ids(fs[0].children@) + folder_ids(fs.drop_first())
    }
}

/// Find a folder by id in a forest.
pub fn find_folder_in<'a>(fs: &'a Vec<TreeFolder>, id: usize) -> (r: Option<&'a TreeFolder>)
    ensures
        match r {
            Some(f) => find_folder(fs@, id) == Some(*f),
            None => find_folder(fs@, id) is None,
        },
    decreases fs@,
{
    let mut i: usize = 0;
    assert(fs@.subrange(0, fs@.len() as int) =~= fs@);
    while i < fs.len()
        invariant
            i <= fs@.len(),
            find_folder(fs@, id) == find_folder(fs@.subrange(i as int, fs@.len() as int), id),
        decreases fs.len() - i,
    {
        let ghost tail = fs@.subrange(i as int, fs@.len() as int);
        assert(tail[0] == fs@[i as int]);
        assert(tail.drop_first() =~= fs@.subrange(i + 1, fs@.len() as int));
        if fs[i].id == id {
            return Some(&fs[i]);
        }
        proof {
            assert(decreases_to!(fs@ => fs@[i as int]));
            assert(decreases_to!(fs@[i as int] => fs@[i as int].children));
            assert(decreases_to!(fs@[i as int].children => fs@[i as int].children@));
        }
        if let Some(found) = find_folder_in(&fs[i].children, id) {
            return Some(found);
        }
        i += 1;
    }
    assert(fs@.subrange(i as int, fs@.len() as int) =~= Seq::<TreeFolder>::empty());
    None
}

/// Count the hosts of a forest.
pub fn count_hosts_in(fs: &Vec<TreeFolder>) -> (n: usize)
    requires
        host_count(fs@) <= usize::MAX,
    ensures
        n == host_count(fs@),
    decreases fs@,
{
    let mut n: usize = 0;
    let mut i: usize = 0;
    assert(fs@.subrange(0, fs@.len() as int) =~= fs@);
    while i < fs.len()
        invariant
            i <= fs@.len(),
            host_count(fs@) <= usize::MAX,
            host_count(fs@) == n + host_count(fs@.subrange(i as int, fs@.len() as int)),
        decreases fs.len() - i,
    {
        let ghost tail = fs@.subrange(i as int, fs@.len() as int);
        assert(tail[0] == fs@[i as int]);
        assert(tail.drop_first() =~= fs@.subrange(i + 1, fs@.len() as int));
        proof {
            assert(decreases_to!(fs@ => fs@[i as int]));
            assert(decreases_to!(fs@[i as int] => fs@[i as int].children));
            assert(decreases_to!(fs@[i as int].children => fs@[i as int].children@));
        }
        let below = count_hosts_in(&fs[i].children);
        n = n + fs[i].host_indices.len() + below;
        i += 1;
    }
    assert(fs@.subrange(i as int, fs@.len() as int) =~= Seq::<TreeFolder>::empty());
    n
}

/// Hosts in a folder and all its subfolders.
pub fn count_hosts_recursive(folder: &TreeFolder) -> (n: usize)
    requires
        folder.host_indices@.len() + host_count(folder.children@) <= usize::MAX,
    ensures
        n == folder.host_indices@.len() + host_count(folder.children@),
{
    folder.host_indices.len() + count_hosts_in(&folder.children)
}

/// Add the ids of every folder of the forest to `out`.
pub fn collect_folder_ids(fs: &Vec<TreeFolder>, out: &mut HashSet<usize>)
    ensures
        final(out)@ == old(out)@ + folder_ids(fs@),
    decreases fs@,
{
    let mut i: usize = 0;
    assert(fs@.subrange(0, fs@.len() as int) =~= fs@);
    let ghost start = out@;
    while i < fs.len()
        invariant
            i <= fs@.len(),
            start + folder_ids(fs@) == out@ + folder_ids(fs@.subrange(i as int, fs@.len() as int)),
        decreases fs.len() - i,
    {
        let ghost tail = fs@.subrange(i as int, fs@.len() as int);
        assert(tail[0] == fs@[i as int]);
        assert(tail.drop_first() =~= fs@.subrange(i + 1, fs@.len() as int));
        let ghost before = out@;
        out.insert(fs[i].id);
        proof {
            assert(decreases_to!(fs@ => fs@[i as int]));
            assert(decreases_to!(fs@[i as int] => fs@[i as int].children));
            assert(decreases_to!(fs@[i as int].children => fs@[i as int].children@));
        }
        collect_folder_ids(&fs[i].children, out);
        proof {
            assert(folder_ids(tail) == set![fs@[i as int].id] + folder_ids(fs@[i as int].children@) + folder_ids(tail.drop_first()));
            assert(before + folder_ids(tail) =~= out@ + folder_ids(tail.drop_first()));
        }
        i += 1;
    }
    assert(fs@.subrange(i as int, fs@.len() as int) =~= Seq::<TreeFolder>::empty());
    assert(out@ =~= start + folder_ids(fs@));
}

impl HostBrowser {
    /// The folder with id `folder_id`: the root itself or the first match
    /// below it.
    pub fn folder_by_id(&self, folder_id: usize) -> (r: Option<&TreeFolder>)
        ensures
            match r {
                Some(f) => (if self.root.id == folder_id { Some(self.root) } else { find_folder(self.root.children@, folder_id) }) == Some(*f),
                None => self.root.id != folder_id && find_folder(self.root.children@, folder_id) is None,
            },
    {
        if self.root.id == folder_id {
            return Some(&self.root);
        }
        find_folder_in(&self.root.children, folder_id)
    }

    /// Hosts in the folder with id `folder_id` and its subfolders; zero
    /// when there is no such folder.
    pub fn folder_descendant_host_count(&self, folder_id: usize) -> (n: usize)
        requires
            self.root.host_indices@.len() + host_count(self.root.children@) <= usize::MAX,
        ensures
            n == match (if self.root.id == folder_id { Some(self.root) } else { find_folder(self.root.children@, folder_id) }) {
                Some(f) => f.host_indices@.len() + host_count(f.children@),
                None => 0,
            },
    {
        match self.folder_by_id(folder_id) {
            Some(f) => {
                proof {
                    if self.root.id != folder_id {
                        lemma_found_count_bounded(self.root.children@, folder_id);
                    }
                }
                count_hosts_recursive(f)
            },
            None => 0,
        }
    }

    /// Collapse every folder when one is shown expanded, otherwise expand
    /// them all; then filter the rows again.
    pub fn toggle_all_folders(&mut self, search_entries: &[HostSearchEntry]) -> (scored: bool)
        requires
            old(self).tree_ok(),
            forall|i: int| 0 <= i < search_entries@.len() ==> entry_within_limits(#[trigger] search_entries@[i]),
        ensures
            final(self).collapsed_folders@ == if exists|i: int| 0 <= i < old(self).visible_rows@.len()
                && (#[trigger] old(self).visible_rows@[i]).kind is Folder && old(self).visible_rows@[i].expanded {
                folder_ids(old(self).root.children@)
            } else {
                Set::<usize>::empty()
            },
            scored == (old(self).search_query@.len() == 0 || scores_computable(search_entries@, lowercase(old(self).search_query@))),
            old(self).search_query@.len() == 0 ==> final(self).match_scores@ == Map::<usize, i32>::empty(),
            old(self).search_query@.len() > 0 && scored ==> final(self).match_scores@ == spec_match_scores(search_entries@, lowercase(old(self).search_query@)),
            !scored ==> final(self).match_scores@ == Map::<usize, i32>::empty(),
            row_models(final(self).visible_rows@) == final(self).expected_rows(),
            final(self).scroll_offset == 0,
            final(self).selected_row == reselected_row(final(self).visible_rows@, row_key_at(old(self).visible_rows@, old(self).selected_row)),
            final(self).root == old(self).root,
            final(self).search_query == old(self).search_query,
            final(self).host_names == old(self).host_names,
    {
        let mut any_expanded = false;
        let mut i: usize = 0;
        while i < self.visible_rows.len()
            invariant
                i <= self.visible_rows@.len(),
                any_expanded == exists|k: int| 0 <= k < i && (#[trigger] self.visible_rows@[k]).kind is Folder
                    && self.visible_rows@[k].expanded,
            decreases self.visible_rows.len() - i,
        {
            let is_folder = match self.visible_rows[i].kind {
                HostTreeRowKind::Folder(_) => true,
                _ => false,
            };
            if is_folder && self.visible_rows[i].expanded {
                any_expanded = true;
            }
            i += 1;
        }
        self.collapsed_folders = HashSet::new();
        if any_expanded {
            collect_folder_ids(&self.root.children, &mut self.collapsed_folders);
        }
        assert(self.collapsed_folders@ =~= if any_expanded { folder_ids(self.root.children@) } else { Set::<usize>::empty() });
        self.update_filtered_hosts(search_entries)
    }
}

/// A folder found in a forest has no more hosts than the forest.
proof fn lemma_found_count_bounded(fs: Seq<TreeFolder>, id: usize)
    ensures
        find_folder(fs, id) matches Some(f) ==> f.host_indices@.len() + host_count(f.children@) <= host_count(fs),
    decreases fs,
{
    if fs.len() > 0 && fs[0].id != id {
        lemma_found_count_bounded(fs[0].children@, id);
        lemma_found_count_bounded(fs.drop_first(), id);
    }
}

/// The row shows a host that exists and matched the search.
pub open spec fn shows_matching_host(r: RowModel, matched: Set<usize>, host_count: int) -> bool {
    match r.0 {
        HostTreeRowKind::Host(i) => matched.contains(i) && i < host_count,
        HostTreeRowKind::Folder(_) => true,
    }
}

/// Every row of `rows` shows a folder or a matching, existing host.
pub open spec fn all_rows_match(rows: Seq<RowModel>, matched: Set<usize>, host_count: int) -> bool {
    forall|k: int| 0 <= k < rows.len() ==> shows_matching_host(#[trigger] rows[k], matched, host_count)
}

proof fn lemma_all_rows_match_concat(a: Seq<RowModel>, b: Seq<RowModel>, matched: Set<usize>, n: int)
    requires
        all_rows_match(a, matched, n),
        all_rows_match(b, matched, n),
    ensures
        all_rows_match(a + b, matched, n),
{
    assert forall|k: int| 0 <= k < (a + b).len() implies shows_matching_host(#[trigger] (a + b)[k], matched, n) by {
        if k < a.len() {
            assert((a + b)[k] == a[k]);
        } else {
            assert((a + b)[k] == b[k - a.len()]);
        }
    }
}

proof fn lemma_host_rows_match(indices: Seq<usize>, names: Seq<Seq<char>>, depth: int, matched: Set<usize>)
    ensures
        all_rows_match(host_rows(indices, names, depth, Some(matched)), matched, names.len() as int),
    decreases indices.len(),
{
    if indices.len() > 0 {
        lemma_host_rows_match(indices.drop_last(), names, depth, matched);
        let idx = indices.last();
        let keep = idx < names.len() && matched.contains(idx);
        let tail: Seq<RowModel> = if keep {
            seq![(HostTreeRowKind::Host(idx), depth, names[idx as int], false)]
        } else {
            seq![]
        };
        assert(all_rows_match(tail, matched, names.len() as int));
        lemma_all_rows_match_concat(host_rows(indices.drop_last(), names, depth, Some(matched)), tail, matched, names.len() as int);
    }
}

proof fn lemma_search_rows_match(fs: Seq<TreeFolder>, depth: int, matched: Set<usize>, names: Seq<Seq<char>>)
    ensures
        all_rows_match(search_rows(fs, depth, matched, names), matched, names.len() as int),
    decreases fs,
{
    let n = names.len() as int;
    if fs.len() > 0 {
        let f = fs[0];
        lemma_host_rows_match(f.host_indices@, names, depth + 1, matched);
        lemma_search_rows_match(f.children@, depth + 1, matched, names);
        lemma_search_rows_match(fs.drop_first(), depth, matched, names);
        let hosts = host_rows(f.host_indices@, names, depth + 1, Some(matched));
        let below = search_rows(f.children@, depth + 1, matched, names);
        let head: Seq<RowModel> = seq![(HostTreeRowKind::Folder(f.id), depth, f.name@, true)];
        assert(all_rows_match(head, matched, n));
        lemma_all_rows_match_concat(head, hosts, matched, n);
        lemma_all_rows_match_concat(head + hosts, below, matched, n);
        let own: Seq<RowModel> = if hosts.len() > 0 || below.len() > 0 { head + hosts + below } else { seq![] };
        assert(all_rows_match(own, matched, n));
        lemma_all_rows_match_concat(own, search_rows(fs.drop_first(), depth, matched, names), matched, n);
    }
}

/// While searching, every host row the panel shows is a host that matched
/// the search.
pub proof fn lemma_search_shows_only_matches(root: TreeFolder, collapsed: Set<usize>, matched: Set<usize>, names: Seq<Seq<char>>)
    ensures
        all_rows_match(visible_rows(root, true, collapsed, matched, names), matched, names.len() as int),
{
    lemma_host_rows_match(root.host_indices@, names, 0, matched);
    lemma_search_rows_match(root.children@, 0, matched, names);
    lemma_all_rows_match_concat(
        host_rows(root.host_indices@, names, 0, Some(matched)),
        search_rows(root.children@, 0, matched, names),
        matched,
        names.len() as int,
    );
}

/// The host with index `h` sits in some folder of the forest `fs`.
pub open spec fn host_in_forest(fs: Seq<TreeFolder>, h: usize) -> bool
    decreases fs,
{
    fs.len() > 0 && (fs[0].host_indices@.contains(h) || host_in_forest(fs[0].children@, h) || host_in_forest(fs.drop_first(), h))
}

/// Some row shows the host with index `h`.
pub open spec fn shows_host(rows: Seq<RowModel>, h: usize) -> bool {
    exists|i: int| 0 <= i < rows.len() && (#[trigger] rows[i]).0 == HostTreeRowKind::Host(h)
}

proof fn lemma_shows_host_concat(a: Seq<RowModel>, b: Seq<RowModel>, h: usize)
    ensures
        shows_host(a, h) || shows_host(b, h) ==> shows_host(a + b, h),
{
    if shows_host(a, h) {
        let i = choose|i: int| 0 <= i < a.len() && (#[trigger] a[i]).0 == HostTreeRowKind::Host(h);
        assert((a + b)[i] == a[i]);
    } else if shows_host(b, h) {
        let i = choose|i: int| 0 <= i < b.len() && (#[trigger] b[i]).0 == HostTreeRowKind::Host(h);
        assert((a + b)[a.len() + i] == b[i]);
    }
}

proof fn lemma_host_rows_show(indices: Seq<usize>, names: Seq<Seq<char>>, depth: int, filter: Option<Set<usize>>, h: usize)
    requires
        indices.contains(h),
        h < names.len(),
        filter matches Some(m) ==> m.contains(h),
    ensures
        shows_host(host_rows(indices, names, depth, filter), h),
    decreases indices.len(),
{
    let rest = indices.drop_last();
    let last_rows: Seq<RowModel> = if indices.last() < names.len() && match filter { Some(m) => m.contains(indices.last()), None => true } {
        seq![(HostTreeRowKind::Host(indices.last()), depth, names[indices.last() as int], false)]
    } else {
        seq![]
    };
    if indices.last() == h {
        assert(last_rows[0].0 == HostTreeRowKind::Host(h));
        lemma_shows_host_concat(host_rows(rest, names, depth, filter), last_rows, h);
    } else {
        let k = choose|k: int| 0 <= k < indices.len() && indices[k] == h;
        assert(k < indices.len() - 1);
        assert(rest[k] == h);
        lemma_host_rows_show(rest, names, depth, filter, h);
        lemma_shows_host_concat(host_rows(rest, names, depth, filter), last_rows, h);
    }
}

proof fn lemma_search_rows_show(fs: Seq<TreeFolder>, depth: int, matched: Set<usize>, names: Seq<Seq<char>>, h: usize)
    requires
        host_in_forest(fs, h),
        matched.contains(h),
        h < names.len(),
    ensures
        shows_host(search_rows(fs, depth, matched, names), h),
    decreases fs,
{
    let f = fs[0];
    let hosts = host_rows(f.host_indices@, names, depth + 1, Some(matched));
    let below = search_rows(f.children@, depth + 1, matched, names);
    let rest = search_rows(fs.drop_first(), depth, matched, names);
    let head = seq![(HostTreeRowKind::Folder(f.id), depth, f.name@, true)];
    assert(decreases_to!(fs => fs[0]));
    assert(decreases_to!(fs[0] => fs[0].children));
    assert(decreases_to!(fs[0].children => fs[0].children@));
    if f.host_indices@.contains(h) || host_in_forest(f.children@, h) {
        if f.host_indices@.contains(h) {
            lemma_host_rows_show(f.host_indices@, names, depth + 1, Some(matched), h);
            assert(hosts.len() > 0);
        } else {
            lemma_search_rows_show(f.children@, depth + 1, matched, names, h);
            assert(below.len() > 0);
        }
        lemma_shows_host_concat(head, hosts, h);
        lemma_shows_host_concat(head + hosts, below, h);
        let own = head + hosts + below;
        lemma_shows_host_concat(own, rest, h);
    } else {
        lemma_search_rows_show(fs.drop_first(), depth, matched, names, h);
        let own = if hosts.len() > 0 || below.len() > 0 { head + hosts + below } else { seq![] };
        lemma_shows_host_concat(own, rest, h);
    }
}

/// Search hides no match: while searching, every matched host that exists,
/// whether directly under the root or in any folder, is shown as a host row.
pub proof fn lemma_search_shows_every_match(root: TreeFolder, collapsed: Set<usize>, matched: Set<usize>, names: Seq<Seq<char>>, h: usize)
    requires
        matched.contains(h),
        h < names.len(),
        root.host_indices@.contains(h) || host_in_forest(root.children@, h),
    ensures
        shows_host(visible_rows(root, true, collapsed, matched, names), h),
{
    let a = host_rows(root.host_indices@, names, 0, Some(matched));
    let b = search_rows(root.children@, 0, matched, names);
    if root.host_indices@.contains(h) {
        lemma_host_rows_show(root.host_indices@, names, 0, Some(matched), h);
    } else {
        lemma_search_rows_show(root.children@, 0, matched, names, h);
    }
    lemma_shows_host_concat(a, b, h);
}

impl HostBrowser {
    /// What the status line names as selected: the selected host's name, or
    /// `Folder: ` and the selected folder's name.
    pub fn selected_host_name(&self) -> (r: Option<String>)
        ensures
            ({
                let key = if self.selected_row < self.visible_rows@.len() { Some(self.visible_rows@[self.selected_row as int].kind) } else { None };
                match key {
                    Some(HostTreeRowKind::Host(i)) => match r {
                        Some(n) => i < self.host_names@.len() && n@ == self.host_names@[i as int]@,
                        None => i >= self.host_names@.len(),
                    },
                    Some(HostTreeRowKind::Folder(id)) => {
                        let found = if self.root.id == id { Some(self.root) } else { find_folder(self.root.children@, id) };
                        match found {
                            Some(f) => r matches Some(n) && n@ == "Folder: "@ + f.name@,
                            None => r is None,
                        }
                    },
                    None => r is None,
                }
            }),
    {
        if let Some(i) = self.selected_host_idx() {
            if i < self.host_names.len() {
                return Some(self.host_names[i].clone());
            }
            return None;
        }
        if let Some(id) = self.selected_folder_id() {
            if let Some(f) = self.folder_by_id(id) {
                let mut name = "Folder: ".to_owned();
                let ghost start = name@;
                for ch in it: f.name.as_str().chars()
                    invariant
                        name@ == start + it.seq().subrange(0, it.index() as int),
                {
                    crate::text_edit::string_push(&mut name, ch);
                    assert(name@ =~= start + it.seq().subrange(0, it.index() + 1));
                }
                assert(name@ =~= "Folder: "@ + f.name@);
                return Some(name);
            }
        }
        None
    }
}

/// The first row, from `i` on, that shows the host with index `host_idx`.
pub open spec fn first_host_row_from(rows: Seq<HostTreeRow>, host_idx: usize, i: int) -> Option<int>
    decreases rows.len() - i,
{
    if i < 0 || i >= rows.len() {
        None
    } else if rows[i].kind == HostTreeRowKind::Host(host_idx) {
        Some(i)
    } else {
        first_host_row_from(rows, host_idx, i + 1)
    }
}

/// The row shows a host whose name is `name`.
pub open spec fn row_names(row: HostTreeRow, names: Seq<String>, name: Seq<char>) -> bool {
    match row.kind {
        HostTreeRowKind::Host(h) => h < names.len() && names[h as int]@ == name,
        HostTreeRowKind::Folder(_) => false,
    }
}

/// The first row, from `i` on, that shows a host named `name`.
pub open spec fn first_named_row_from(rows: Seq<HostTreeRow>, names: Seq<String>, name: Seq<char>, i: int) -> Option<int>
    decreases rows.len() - i,
{
    if i < 0 || i >= rows.len() {
        None
    } else if row_names(rows[i], names, name) {
        Some(i)
    } else {
        first_named_row_from(rows, names, name, i + 1)
    }
}

impl HostBrowser {
    /// Select the first visible row of the host with index `host_idx`.
    /// Returns whether one is shown; nothing changes otherwise.
    pub fn select_visible_host_row_for_host_idx(&mut self, host_idx: usize) -> (found: bool)
        ensures
            found == first_host_row_from(old(self).visible_rows@, host_idx, 0) is Some,
            found ==> final(self).selected_row == first_host_row_from(old(self).visible_rows@, host_idx, 0)->0,
            !found ==> final(self).selected_row == old(self).selected_row,
            final(self).visible_rows == old(self).visible_rows,
            final(self).scroll_offset == old(self).scroll_offset,
            final(self).root == old(self).root,
            final(self).host_names == old(self).host_names,
            final(self).match_scores == old(self).match_scores,
            final(self).collapsed_folders == old(self).collapsed_folders,
            final(self).search_query == old(self).search_query,
    {
        let mut i: usize = 0;
        while i < self.visible_rows.len()
            invariant
                i <= self.visible_rows@.len(),
                *self == *old(self),
                first_host_row_from(self.visible_rows@, host_idx, 0) == first_host_row_from(self.visible_rows@, host_idx, i as int),
            decreases self.visible_rows.len() - i,
        {
            if self.visible_rows[i].kind == HostTreeRowKind::Host(host_idx) {
                self.set_selected_row(i);
                return true;
            }
            i += 1;
        }
        false
    }

    /// Select the first visible row of a host named `name`. Returns whether
    /// one is shown; nothing changes otherwise.
    pub fn select_host_row_by_name(&mut self, name: &str) -> (found: bool)
        ensures
            found == first_named_row_from(old(self).visible_rows@, old(self).host_names@, name@, 0) is Some,
            found ==> final(self).selected_row == first_named_row_from(old(self).visible_rows@, old(self).host_names@, name@, 0)->0,
            !found ==> final(self).selected_row == old(self).selected_row,
            final(self).visible_rows == old(self).visible_rows,
            final(self).scroll_offset == old(self).scroll_offset,
            final(self).root == old(self).root,
            final(self).host_names == old(self).host_names,
            final(self).match_scores == old(self).match_scores,
            final(self).collapsed_folders == old(self).collapsed_folders,
            final(self).search_query == old(self).search_query,
    {
        let mut i: usize = 0;
        while i < self.visible_rows.len()
            invariant
                i <= self.visible_rows@.len(),
                *self == *old(self),
                first_named_row_from(self.visible_rows@, self.host_names@, name@, 0)
                    == first_named_row_from(self.visible_rows@, self.host_names@, name@, i as int),
            decreases self.visible_rows.len() - i,
        {
            let matches = match self.visible_rows[i].kind {
                HostTreeRowKind::Host(h) => h < self.host_names.len() && text_equal(self.host_names[h].as_str(), name),
                HostTreeRowKind::Folder(_) => false,
            };
            if matches {
                self.set_selected_row(i);
                return true;
            }
            i += 1;
        }
        false
    }
}

/// The names of the folders from the top of the forest `fs` down to the
/// folder with id `id`, that folder's own name last; none when no folder
/// of the forest has that id. The first match in tree order counts.
pub open spec fn folder_segments(fs: Seq<TreeFolder>, id: usize) -> Option<Seq<Seq<char>>>
    decreases fs,
{
    if fs.len() == 0 {
        None
    } else if fs[0].id == id {
        Some(seq![fs[0].name@])
    } else {
        match folder_segments(fs[0].children@, id) {
            Some(rest) => Some(seq![fs[0].name@] + rest),
            None => folder_segments(fs.drop_first(), id),
        }
    }
}

pub open spec fn names_of(v: Seq<String>) -> Seq<Seq<char>> {
    v.map_values(|s: String| s@)
}

fn prepend_name(name: &String, rest: Vec<String>) -> (r: Vec<String>)
    ensures
        names_of(r@) == seq![name@] + names_of(rest@),
{
    let mut r: Vec<String> = Vec::new();
    r.push(name.clone());
    let mut k: usize = 0;
    while k < rest.len()
        invariant
            k <= rest@.len(),
            names_of(r@) == seq![name@] + names_of(rest@).subrange(0, k as int),
        decreases rest.len() - k,
    {
        let item = rest[k].clone();
        let ghost prev = r@;
        r.push(item);
        assert(names_of(r@) =~= names_of(prev).push(rest@[k as int]@));
        k += 1;
        assert(names_of(r@) =~= seq![name@] + names_of(rest@).subrange(0, k as int));
    }
    assert(names_of(rest@).subrange(0, rest@.len() as int) =~= names_of(rest@));
    r
}

/// The names of the folders from the top of `fs` down to the folder `id`.
pub fn folder_segments_for_folder_id(fs: &Vec<TreeFolder>, id: usize) -> (r: Option<Vec<String>>)
    ensures
        match r {
            Some(v) => folder_segments(fs@, id) == Some(names_of(v@)),
            None => folder_segments(fs@, id) is None,
        },
    decreases fs@,
{
    let mut i: usize = 0;
    assert(fs@.subrange(0, fs@.len() as int) =~= fs@);
    while i < fs.len()
        invariant
            i <= fs@.len(),
            folder_segments(fs@, id) == folder_segments(fs@.subrange(i as int, fs@.len() as int), id),
        decreases fs.len() - i,
    {
        let ghost tail = fs@.subrange(i as int, fs@.len() as int);
        assert(tail[0] == fs@[i as int]);
        assert(tail.drop_first() =~= fs@.subrange(i + 1, fs@.len() as int));
        if fs[i].id == id {
            let mut v: Vec<String> = Vec::new();
            v.push(fs[i].name.clone());
            assert(names_of(v@) =~= seq![fs@[i as int].name@]);
            return Some(v);
        }
        proof {
            assert(decreases_to!(fs@ => fs@[i as int]));
            assert(decreases_to!(fs@[i as int] => fs@[i as int].children));
            assert(decreases_to!(fs@[i as int].children => fs@[i as int].children@));
        }
        if let Some(rest) = folder_segments_for_folder_id(&fs[i].children, id) {
            return Some(prepend_name(&fs[i].name, rest));
        }
        i += 1;
    }
    assert(fs@.subrange(i as int, fs@.len() as int) =~= Seq::<TreeFolder>::empty());
    None
}

/// A folder path without the segments of the folder where a source file's
/// folders start: unchanged when that prefix is empty or the path does not
/// start with it.
pub open spec fn spec_strip_prefix(prefix: Seq<Seq<char>>, path: Seq<Seq<char>>) -> Seq<Seq<char>> {
    if prefix.len() > 0 && prefix.len() <= path.len() && path.subrange(0, prefix.len() as int) == prefix {
        path.subrange(prefix.len() as int, path.len() as int)
    } else {
        path
    }
}

/// A folder path relative to the folder where a source file's folders start.
pub fn strip_source_file_folder_prefix(prefix: &Vec<String>, path: &Vec<String>) -> (r: Vec<String>)
    ensures
        names_of(r@) == spec_strip_prefix(names_of(prefix@), names_of(path@)),
{
    let ghost pv = names_of(prefix@);
    let ghost qv = names_of(path@);
    let mut starts = prefix.len() > 0 && prefix.len() <= path.len();
    let mut k: usize = 0;
    if starts {
        while k < prefix.len()
            invariant
                pv == names_of(prefix@),
                qv == names_of(path@),
                prefix@.len() <= path@.len(),
                k <= prefix@.len(),
                starts ==> forall|j: int| 0 <= j < k ==> pv[j] == qv[j],
                !starts ==> pv != qv.subrange(0, pv.len() as int),
            decreases prefix.len() - k,
        {
            if starts && !text_equal(prefix[k].as_str(), path[k].as_str()) {
                assert(pv[k as int] != qv.subrange(0, pv.len() as int)[k as int]);
                starts = false;
            }
            k += 1;
        }
        if starts {
            assert(qv.subrange(0, pv.len() as int) =~= pv);
        }
    }
    let from = if starts { prefix.len() } else { 0 };
    let mut r: Vec<String> = Vec::new();
    let mut i = from;
    while i < path.len()
        invariant
            from <= i <= path@.len(),
            qv == names_of(path@),
            names_of(r@) == qv.subrange(from as int, i as int),
        decreases path.len() - i,
    {
        let item = path[i].clone();
        let ghost prev = r@;
        r.push(item);
        assert(names_of(r@) =~= names_of(prev).push(path@[i as int]@));
        i += 1;
        assert(names_of(r@) =~= qv.subrange(from as int, i as int));
    }
    assert(qv.subrange(0, qv.len() as int) =~= qv);
    r
}

/// The first folder of the forest `fs` (in tree order) that is defined by
/// the inventory file `src` while its parent is not: the folder where the
/// file's own folders start. `parent_matches` says whether the parent of
/// the forest is defined by `src`.
pub open spec fn source_root_in(fs: Seq<TreeFolder>, src: usize, parent_matches: bool) -> Option<TreeFolder>
    decreases fs,
{
    if fs.len() == 0 {
        None
    } else {
        let m = fs[0].source == src;
        if m && !parent_matches {
            Some(fs[0])
        } else {
            match source_root_in(fs[0].children@, src, m) {
                Some(found) => Some(found),
                None => source_root_in(fs.drop_first(), src, parent_matches),
            }
        }
    }
}

/// The folder where the folders of the inventory file `src` start: the root
/// itself when the root comes from `src`.
pub open spec fn source_root(root: TreeFolder, src: usize) -> Option<TreeFolder> {
    if root.source == src {
        Some(root)
    } else {
        source_root_in(root.children@, src, false)
    }
}

/// The folder of `fs` where the folders of the inventory file `src` start.
pub fn find_source_root_folder<'a>(fs: &'a Vec<TreeFolder>, src: usize, parent_matches: bool) -> (r: Option<&'a TreeFolder>)
    ensures
        match r {
            Some(f) => source_root_in(fs@, src, parent_matches) == Some(*f),
            None => source_root_in(fs@, src, parent_matches) is None,
        },
    decreases fs@,
{
    let mut i: usize = 0;
    assert(fs@.subrange(0, fs@.len() as int) =~= fs@);
    while i < fs.len()
        invariant
            i <= fs@.len(),
            source_root_in(fs@, src, parent_matches) == source_root_in(fs@.subrange(i as int, fs@.len() as int), src, parent_matches),
        decreases fs.len() - i,
    {
        let ghost tail = fs@.subrange(i as int, fs@.len() as int);
        assert(tail[0] == fs@[i as int]);
        assert(tail.drop_first() =~= fs@.subrange(i + 1, fs@.len() as int));
        let f = &fs[i];
        let m = f.source == src;
        if m && !parent_matches {
            return Some(f);
        }
        proof {
            assert(decreases_to!(fs@ => fs@[i as int]));
            assert(decreases_to!(fs@[i as int] => fs@[i as int].children));
            assert(decreases_to!(fs@[i as int].children => fs@[i as int].children@));
        }
        let found = find_source_root_folder(&f.children, src, m);
        if found.is_some() {
            return found;
        }
        i += 1;
    }
    assert(fs@.subrange(i as int, fs@.len() as int) =~= Seq::<TreeFolder>::empty());
    None
}

/// The folder of the tree where the folders of the inventory file `src`
/// start, if any.
pub fn source_root_folder(root: &TreeFolder, src: usize) -> (r: Option<&TreeFolder>)
    ensures
        match r {
            Some(f) => source_root(*root, src) == Some(*f),
            None => source_root(*root, src) is None,
        },
{
    if root.source == src {
        Some(root)
    } else {
        find_source_root_folder(&root.children, src, false)
    }
}

/// The names of the folders from the top of the forest `fs` down to the
/// folder where the folders of the file `src` start (its own name last).
pub open spec fn source_prefix_in(fs: Seq<TreeFolder>, src: usize, parent_matches: bool) -> Option<Seq<Seq<char>>>
    decreases fs,
{
    if fs.len() == 0 {
        None
    } else {
        let m = fs[0].source == src;
        if m && !parent_matches {
            Some(seq![fs[0].name@])
        } else {
            match source_prefix_in(fs[0].children@, src, m) {
                Some(rest) => Some(seq![fs[0].name@] + rest),
                None => source_prefix_in(fs.drop_first(), src, parent_matches),
            }
        }
    }
}

/// The folder path, from the top of the tree, at which the folders of the
/// file `src` start: empty for the root's own file or a file not found.
pub open spec fn source_prefix(root: TreeFolder, src: usize) -> Seq<Seq<char>> {
    if root.source == src {
        seq![]
    } else {
        match source_prefix_in(root.children@, src, false) {
            Some(p) => p,
            None => seq![],
        }
    }
}

fn source_prefix_in_forest(fs: &Vec<TreeFolder>, src: usize, parent_matches: bool) -> (r: Option<Vec<String>>)
    ensures
        match r {
            Some(v) => source_prefix_in(fs@, src, parent_matches) == Some(names_of(v@)),
            None => source_prefix_in(fs@, src, parent_matches) is None,
        },
    decreases fs@,
{
    let mut i: usize = 0;
    assert(fs@.subrange(0, fs@.len() as int) =~= fs@);
    while i < fs.len()
        invariant
            i <= fs@.len(),
            source_prefix_in(fs@, src, parent_matches) == source_prefix_in(fs@.subrange(i as int, fs@.len() as int), src, parent_matches),
        decreases fs.len() - i,
    {
        let ghost tail = fs@.subrange(i as int, fs@.len() as int);
        assert(tail[0] == fs@[i as int]);
        assert(tail.drop_first() =~= fs@.subrange(i + 1, fs@.len() as int));
        let m = fs[i].source == src;
        if m && !parent_matches {
            let mut v: Vec<String> = Vec::new();
            v.push(fs[i].name.clone());
            assert(names_of(v@) =~= seq![fs@[i as int].name@]);
            return Some(v);
        }
        proof {
            assert(decreases_to!(fs@ => fs@[i as int]));
            assert(decreases_to!(fs@[i as int] => fs@[i as int].children));
            assert(decreases_to!(fs@[i as int].children => fs@[i as int].children@));
        }
        if let Some(rest) = source_prefix_in_forest(&fs[i].children, src, m) {
            return Some(prepend_name(&fs[i].name, rest));
        }
        i += 1;
    }
    assert(fs@.subrange(i as int, fs@.len() as int) =~= Seq::<TreeFolder>::empty());
    None
}

/// The folder path at which the folders of the inventory file `src` start.
pub fn source_file_folder_prefix_segments(root: &TreeFolder, src: usize) -> (r: Vec<String>)
    ensures
        names_of(r@) == source_prefix(*root, src),
{
    if root.source == src {
        let v: Vec<String> = Vec::new();
        assert(names_of(v@) =~= Seq::<Seq<char>>::empty());
        return v;
    }
    match source_prefix_in_forest(&root.children, src, false) {
        Some(v) => v,
        None => {
            let v: Vec<String> = Vec::new();
            assert(names_of(v@) =~= Seq::<Seq<char>>::empty());
            v
        },
    }
}

/// The folder with id `id`: the root itself or the first match below it.
pub open spec fn folder_lookup(root: TreeFolder, id: usize) -> Option<TreeFolder> {
    if root.id == id { Some(root) } else { find_folder(root.children@, id) }
}

/// The path of the folder `id` within the inventory file `src`: its path
/// from the top of the tree without the folders above where `src` starts.
pub open spec fn folder_path_in_source(root: TreeFolder, id: usize, src: usize) -> Option<Seq<Seq<char>>> {
    match folder_segments(root.children@, id) {
        Some(global) => Some(spec_strip_prefix(source_prefix(root, src), global)),
        None => None,
    }
}

/// The row shows a folder defined by the file `src` whose path within that
/// file is `path`.
pub open spec fn row_is_folder_at(root: TreeFolder, row: HostTreeRow, src: usize, path: Seq<Seq<char>>) -> bool {
    match row.kind {
        HostTreeRowKind::Folder(fid) => {
            &&& folder_lookup(root, fid) matches Some(f) && f.source == src
            &&& folder_path_in_source(root, fid, src) == Some(path)
        },
        HostTreeRowKind::Host(_) => false,
    }
}

/// The first row, from `i` on, that shows the folder of `src` at `path`.
pub open spec fn first_folder_row_from(root: TreeFolder, rows: Seq<HostTreeRow>, src: usize, path: Seq<Seq<char>>, i: int) -> Option<int>
    decreases rows.len() - i,
{
    if i < 0 || i >= rows.len() {
        None
    } else if row_is_folder_at(root, rows[i], src, path) {
        Some(i)
    } else {
        first_folder_row_from(root, rows, src, path, i + 1)
    }
}

impl HostBrowser {
    /// The path of the folder `id` within the inventory file `src`.
    pub fn folder_path_segments_by_id_in_source(&self, id: usize, src: usize) -> (r: Option<Vec<String>>)
        ensures
            match r {
                Some(v) => folder_path_in_source(self.root, id, src) == Some(names_of(v@)),
                None => folder_path_in_source(self.root, id, src) is None,
            },
    {
        match folder_segments_for_folder_id(&self.root.children, id) {
            Some(global) => {
                let prefix = source_file_folder_prefix_segments(&self.root, src);
                Some(strip_source_file_folder_prefix(&prefix, &global))
            },
            None => None,
        }
    }

    /// Select the first visible row of the folder of `src` at `path` (a
    /// path within that file). Returns whether one is shown; nothing changes
    /// otherwise.
    pub fn select_folder_row_by_source_and_path(&mut self, src: usize, path: &Vec<String>) -> (found: bool)
        ensures
            found == first_folder_row_from(old(self).root, old(self).visible_rows@, src, names_of(path@), 0) is Some,
            found ==> final(self).selected_row == first_folder_row_from(old(self).root, old(self).visible_rows@, src, names_of(path@), 0)->0,
            !found ==> final(self).selected_row == old(self).selected_row,
            final(self).visible_rows == old(self).visible_rows,
            final(self).scroll_offset == old(self).scroll_offset,
            final(self).root == old(self).root,
            final(self).host_names == old(self).host_names,
            final(self).match_scores == old(self).match_scores,
            final(self).collapsed_folders == old(self).collapsed_folders,
            final(self).search_query == old(self).search_query,
    {
        let ghost target = names_of(path@);
        let mut i: usize = 0;
        while i < self.visible_rows.len()
            invariant
                i <= self.visible_rows@.len(),
                *self == *old(self),
                target == names_of(path@),
                first_folder_row_from(self.root, self.visible_rows@, src, target, 0)
                    == first_folder_row_from(self.root, self.visible_rows@, src, target, i as int),
            decreases self.visible_rows.len() - i,
        {
            let matches = match self.visible_rows[i].kind {
                HostTreeRowKind::Folder(fid) => {
                    let of_source = match self.folder_by_id(fid) {
                        Some(f) => f.source == src,
                        None => false,
                    };
                    of_source && match self.folder_path_segments_by_id_in_source(fid, src) {
                        Some(segments) => crate::folder_picker::paths_equal(&segments, path),
                        None => false,
                    }
                },
                HostTreeRowKind::Host(_) => false,
            };
            if matches {
                self.set_selected_row(i);
                return true;
            }
            i += 1;
        }
        false
    }
}

} // verus!
