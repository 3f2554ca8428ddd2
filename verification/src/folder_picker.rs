//! The rows of the folder picker: the folders of one inventory file, as a
//! tree under a `/` row for the file's top level.

use vstd::prelude::*;
use crate::text_edit::text_equal;
use crate::host_tree::{TreeFolder, forest_height, names_of, source_root, source_root_in, source_root_folder};

verus! {

/// A row of the folder picker: the folder's path within its inventory
/// file, its depth in the picker and its label.
#[derive(Debug)]
pub struct FolderPickerRow {
    pub folder_path: Vec<String>,
    pub depth: usize,
    pub label: String,
}

/// A picker row as values.
pub type PickerRowModel = (Seq<Seq<char>>, int, Seq<char>);

pub open spec fn picker_row_model(r: FolderPickerRow) -> PickerRowModel {
    (names_of(r.folder_path@), r.depth as int, r.label@)
}

pub open spec fn picker_row_models(rows: Seq<FolderPickerRow>) -> Seq<PickerRowModel> {
    rows.map_values(|r: FolderPickerRow| picker_row_model(r))
}

/// The rows of the folders of the forest `fs` that the file `src` defines,
/// in tree order, each followed by its own subfolders one level deeper;
/// `path` is the path of the forest's parent. A folder of another file is
/// left out with everything below it.
pub open spec fn picker_rows_in(fs: Seq<TreeFolder>, src: usize, depth: int, path: Seq<Seq<char>>) -> Seq<PickerRowModel>
    decreases fs,
{
    if fs.len() == 0 {
        seq![]
    } else {
        let rest = picker_rows_in(fs.drop_first(), src, depth, path);
        if fs[0].source != src {
            rest
        } else {
            let own = path.push(fs[0].name@);
            seq![(own, depth, fs[0].name@)] + picker_rows_in(fs[0].children@, src, depth + 1, own) + rest
        }
    }
}

/// The picker's rows for the file `src`: `/` for its top level, then its
/// folders below the folder where they start.
pub open spec fn picker_rows(root: TreeFolder, src: usize) -> Seq<PickerRowModel> {
    seq![(Seq::<Seq<char>>::empty(), 0int, "/"@)] + match source_root(root, src) {
        Some(top) => picker_rows_in(top.children@, src, 1, seq![]),
        None => seq![],
    }
}

fn clone_path(path: &Vec<String>) -> (r: Vec<String>)
    ensures
        names_of(r@) == names_of(path@),
{
    let mut r: Vec<String> = Vec::new();
    let mut i: usize = 0;
    while i < path.len()
        invariant
            i <= path@.len(),
            names_of(r@) == names_of(path@.subrange(0, i as int)),
        decreases path.len() - i,
    {
        let segment = path[i].clone();
        let ghost prev = r@;
        r.push(segment);
        proof {
            assert(path@.subrange(0, i + 1) =~= path@.subrange(0, i as int).push(path@[i as int]));
            assert(names_of(r@) =~= names_of(prev).push(segment@));
            assert(names_of(path@.subrange(0, i + 1)) =~= names_of(path@.subrange(0, i as int)).push(path@[i as int]@));
        }
        i += 1;
    }
    assert(path@.subrange(0, path@.len() as int) =~= path@);
    r
}

/// Every folder of a forest is at least one level below its height.
proof fn lemma_child_height(fs: Seq<TreeFolder>, i: int)
    requires
        0 <= i < fs.len(),
    ensures
        forest_height(fs[i].children@) + 1 <= forest_height(fs),
    decreases fs.len(),
{
    if i > 0 {
        lemma_child_height(fs.drop_first(), i - 1);
        assert(fs.drop_first()[i - 1] == fs[i]);
    }
}

/// The folder where a file's folders start lies inside the forest, so its
/// subfolders are lower than the forest.
proof fn lemma_source_root_height(fs: Seq<TreeFolder>, src: usize, parent_matches: bool)
    ensures
        match source_root_in(fs, src, parent_matches) {
            Some(f) => forest_height(f.children@) < forest_height(fs),
            None => true,
        },
    decreases fs,
{
    if fs.len() > 0 {
        let m = fs[0].source == src;
        lemma_child_height(fs, 0);
        assert(decreases_to!(fs => fs[0]));
        assert(decreases_to!(fs[0] => fs[0].children));
        assert(decreases_to!(fs[0].children => fs[0].children@));
        lemma_source_root_height(fs[0].children@, src, m);
        lemma_source_root_height(fs.drop_first(), src, parent_matches);
    }
}

/// Append the picker rows of the forest `fs` for the file `src`; `path`
/// is the path of the forest's parent and is left as it was.
pub fn collect_folder_picker_rows(
    fs: &Vec<TreeFolder>,
    src: usize,
    depth: usize,
    path: &mut Vec<String>,
    rows: &mut Vec<FolderPickerRow>,
)
    requires
        depth + forest_height(fs@) <= usize::MAX,
    ensures
        names_of(final(path)@) == names_of(old(path)@),
        picker_row_models(final(rows)@) == picker_row_models(old(rows)@) + picker_rows_in(fs@, src, depth as int, names_of(old(path)@)),
    decreases fs@,
{
    let ghost p0 = names_of(path@);
    let ghost total = picker_row_models(old(rows)@) + picker_rows_in(fs@, src, depth as int, p0);
    let mut i: usize = 0;
    assert(fs@.subrange(0, fs@.len() as int) =~= fs@);
    while i < fs.len()
        invariant
            i <= fs@.len(),
            depth + forest_height(fs@) <= usize::MAX,
            names_of(path@) == p0,
            total == picker_row_models(rows@) + picker_rows_in(fs@.subrange(i as int, fs@.len() as int), src, depth as int, p0),
        decreases fs.len() - i,
    {
        let ghost tail = fs@.subrange(i as int, fs@.len() as int);
        assert(tail[0] == fs@[i as int]);
        assert(tail.drop_first() =~= fs@.subrange(i + 1, fs@.len() as int));
        let child = &fs[i];
        if child.source == src {
            let ghost before = picker_row_models(rows@);
            let ghost own = p0.push(child.name@);
            let ghost path_before = path@;
            path.push(child.name.clone());
            assert(names_of(path@) =~= own);
            let row = FolderPickerRow { folder_path: clone_path(path), depth, label: child.name.clone() };
            let ghost rows_before = rows@;
            rows.push(row);
            assert(picker_row_models(rows@) =~= before.push((own, depth as int, child.name@)));
            proof {
                lemma_child_height(fs@, i as int);
                assert(decreases_to!(fs@ => fs@[i as int]));
                assert(decreases_to!(fs@[i as int] => fs@[i as int].children));
                assert(decreases_to!(fs@[i as int].children => fs@[i as int].children@));
            }
            collect_folder_picker_rows(&child.children, src, depth + 1, path, rows);
            let _ = path.pop();
            proof {
                assert(names_of(path@) =~= p0) by {
                    assert(path@.len() == path_before.len());
                    assert forall|k: int| 0 <= k < path@.len() implies path@[k]@ == p0[k] by {
                        assert(names_of(path@.push(child.name))[k] == names_of(path_before.push(child.name))[k]);
                    }
                }
                assert(picker_row_models(rows@) =~= before + seq![(own, depth as int, child.name@)]
                    + picker_rows_in(child.children@, src, depth + 1, own));
            }
        }
        i += 1;
    }
    assert(fs@.subrange(i as int, fs@.len() as int) =~= Seq::<TreeFolder>::empty());
}

/// The folder picker's rows for the inventory file `src`.
pub fn folder_picker_rows_for_source_file(root: &TreeFolder, src: usize) -> (rows: Vec<FolderPickerRow>)
    requires
        forest_height(root.children@) < usize::MAX,
    ensures
        picker_row_models(rows@) == picker_rows(*root, src),
{
    let mut rows: Vec<FolderPickerRow> = Vec::new();
    let top_path: Vec<String> = Vec::new();
    assert(names_of(top_path@) =~= Seq::<Seq<char>>::empty());
    let label = "/".to_owned();
    assert(label@ == "/"@);
    let first = FolderPickerRow { folder_path: top_path, depth: 0, label };
    assert(picker_row_model(first) == (Seq::<Seq<char>>::empty(), 0int, "/"@));
    rows.push(first);
    assert(picker_row_models(rows@) =~= seq![(Seq::<Seq<char>>::empty(), 0int, "/"@)]);
    match source_root_folder(root, src) {
        Some(top) => {
            let mut path: Vec<String> = Vec::new();
            assert(names_of(path@) =~= Seq::<Seq<char>>::empty());
            proof {
                if root.source != src {
                    lemma_source_root_height(root.children@, src, false);
                }
            }
            collect_folder_picker_rows(&top.children, src, 1, &mut path, &mut rows);
        },
        None => {
            assert(picker_row_models(rows@) =~= picker_rows(*root, src));
        },
    }
    rows
}

/// `prefix` is the start of `path` (or all of it).
pub open spec fn is_path_prefix(prefix: Seq<Seq<char>>, path: Seq<Seq<char>>) -> bool {
    prefix.len() <= path.len() && path.subrange(0, prefix.len() as int) == prefix
}

/// Whether `path` starts with `prefix`.
pub fn path_starts_with(path: &Vec<String>, prefix: &Vec<String>) -> (r: bool)
    ensures
        r == is_path_prefix(names_of(prefix@), names_of(path@)),
{
    let ghost p = names_of(prefix@);
    let ghost q = names_of(path@);
    if prefix.len() > path.len() {
        return false;
    }
    let mut k: usize = 0;
    while k < prefix.len()
        invariant
            p == names_of(prefix@),
            q == names_of(path@),
            prefix@.len() <= path@.len(),
            k <= prefix@.len(),
            forall|j: int| 0 <= j < k ==> p[j] == q[j],
        decreases prefix.len() - k,
    {
        if !text_equal(prefix[k].as_str(), path[k].as_str()) {
            assert(q.subrange(0, p.len() as int)[k as int] != p[k as int]);
            return false;
        }
        k += 1;
    }
    assert(q.subrange(0, p.len() as int) =~= p);
    true
}

/// Whether two paths are the same.
pub fn paths_equal(a: &Vec<String>, b: &Vec<String>) -> (r: bool)
    ensures
        r == (names_of(a@) == names_of(b@)),
{
    let r = a.len() == b.len() && path_starts_with(a, b);
    proof {
        assert(names_of(a@).len() == a@.len());
        assert(names_of(b@).len() == b@.len());
        if a@.len() == b@.len() {
            assert(names_of(a@).subrange(0, names_of(b@).len() as int) =~= names_of(a@));
        }
    }
    r
}

/// The rows that are not `exclude` or below it.
pub open spec fn rows_outside(rows: Seq<PickerRowModel>, exclude: Seq<Seq<char>>) -> Seq<PickerRowModel>
    decreases rows.len(),
{
    if rows.len() == 0 {
        seq![]
    } else {
        rows_outside(rows.drop_last(), exclude) + if is_path_prefix(exclude, rows.last().0) {
            seq![]
        } else {
            seq![rows.last()]
        }
    }
}

fn clone_row(row: &FolderPickerRow) -> (r: FolderPickerRow)
    ensures
        picker_row_model(r) == picker_row_model(*row),
{
    FolderPickerRow { folder_path: clone_path(&row.folder_path), depth: row.depth, label: row.label.clone() }
}

/// The picker rows for a folder that is being moved: the folder itself and
/// the folders below it cannot be its new parent, so their rows go.
pub fn rows_without_folder(rows: &Vec<FolderPickerRow>, folder_path: &Vec<String>) -> (r: Vec<FolderPickerRow>)
    ensures
        picker_row_models(r@) == rows_outside(picker_row_models(rows@), names_of(folder_path@)),
{
    let ghost models = picker_row_models(rows@);
    let ghost ex = names_of(folder_path@);
    let mut out: Vec<FolderPickerRow> = Vec::new();
    let mut i: usize = 0;
    while i < rows.len()
        invariant
            i <= rows@.len(),
            models == picker_row_models(rows@),
            ex == names_of(folder_path@),
            picker_row_models(out@) == rows_outside(models.subrange(0, i as int), ex),
        decreases rows.len() - i,
    {
        assert(models.subrange(0, i + 1).drop_last() =~= models.subrange(0, i as int));
        assert(models.subrange(0, i + 1).last() == models[i as int]);
        let row = &rows[i];
        if !path_starts_with(&row.folder_path, folder_path) {
            let c = clone_row(row);
            let ghost prev = out@;
            out.push(c);
            assert(picker_row_models(out@) =~= picker_row_models(prev).push(picker_row_model(*row)));
        }
        assert(picker_row_models(out@) =~= rows_outside(models.subrange(0, i + 1), ex));
        i += 1;
    }
    assert(models.subrange(0, rows@.len() as int) =~= models);
    out
}

/// The row the picker opens on: the first row of `initial`, else the top.
pub open spec fn initial_row(rows: Seq<PickerRowModel>, initial: Seq<Seq<char>>) -> int {
    if exists|i: int| 0 <= i < rows.len() && rows[i].0 == initial {
        choose|i: int| 0 <= i < rows.len() && rows[i].0 == initial && forall|j: int| 0 <= j < i ==> rows[j].0 != initial
    } else {
        0
    }
}

/// The row the picker opens on.
pub fn picker_initial_selection(rows: &Vec<FolderPickerRow>, initial: &Vec<String>) -> (r: usize)
    ensures
        r == initial_row(picker_row_models(rows@), names_of(initial@)),
        rows@.len() > 0 ==> r < rows@.len(),
{
    let ghost models = picker_row_models(rows@);
    let ghost target = names_of(initial@);
    let mut i: usize = 0;
    while i < rows.len()
        invariant
            i <= rows@.len(),
            models == picker_row_models(rows@),
            target == names_of(initial@),
            forall|j: int| 0 <= j < i ==> models[j].0 != target,
        decreases rows.len() - i,
    {
        if paths_equal(&rows[i].folder_path, initial) {
            assert(models[i as int].0 == target);
            proof {
                let w = choose|k: int| 0 <= k < models.len() && models[k].0 == target && forall|j: int| 0 <= j < k ==> models[j].0 != target;
                assert(0 <= i < models.len() && models[i as int].0 == target && forall|j: int| 0 <= j < i ==> models[j].0 != target);
                if w < i {
                } else if w > i {
                    assert(models[i as int].0 != target);
                }
            }
            return i;
        }
        i += 1;
    }
    assert(!exists|k: int| 0 <= k < models.len() && models[k].0 == target);
    0
}

/// A folder being moved is never offered as its own new parent: no row
/// left by `rows_outside` is that folder or lies below it, and every row
/// left was a row before.
pub proof fn lemma_moved_folder_not_offered(rows: Seq<PickerRowModel>, exclude: Seq<Seq<char>>)
    ensures
        forall|k: int| 0 <= k < rows_outside(rows, exclude).len() ==> !is_path_prefix(exclude, #[trigger] rows_outside(rows, exclude)[k].0),
        forall|k: int| 0 <= k < rows_outside(rows, exclude).len() ==> rows.contains(#[trigger] rows_outside(rows, exclude)[k]),
    decreases rows.len(),
{
    if rows.len() > 0 {
        let init = rows.drop_last();
        lemma_moved_folder_not_offered(init, exclude);
        let kept = rows_outside(init, exclude);
        let out = rows_outside(rows, exclude);
        assert forall|k: int| 0 <= k < out.len() implies !is_path_prefix(exclude, #[trigger] out[k].0) && rows.contains(out[k]) by {
            if k < kept.len() {
                assert(out[k] == kept[k]);
                let j = choose|j: int| 0 <= j < init.len() && init[j] == kept[k];
                assert(rows[j] == init[j]);
            } else {
                assert(out[k] == rows.last());
                assert(rows[rows.len() - 1] == rows.last());
            }
        }
    }
}

} // verus!
