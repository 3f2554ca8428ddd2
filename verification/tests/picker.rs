use color_ssh::folder_picker::{
    folder_picker_rows_for_source_file, path_starts_with, picker_initial_selection, rows_without_folder, FolderPickerRow,
};
use color_ssh::host_tree::{source_file_folder_prefix_segments, source_root_folder, HostBrowser, HostTreeRowKind, TreeFolder};
use std::collections::{HashMap, HashSet};

fn dir(id: usize, name: &str, source: usize, children: Vec<TreeFolder>) -> TreeFolder {
    TreeFolder { id, name: name.to_string(), source, host_indices: vec![], children }
}

fn tree() -> TreeFolder {
    dir(
        0,
        "",
        0,
        vec![
            dir(1, "prod", 0, vec![dir(2, "db", 0, vec![])]),
            dir(3, "inc", 1, vec![dir(4, "a", 1, vec![dir(5, "b", 1, vec![])]), dir(6, "x", 2, vec![])]),
            dir(7, "lab", 0, vec![]),
        ],
    )
}

fn path(parts: &[&str]) -> Vec<String> {
    parts.iter().map(|p| p.to_string()).collect()
}

fn view(rows: &[FolderPickerRow]) -> Vec<(Vec<String>, usize, String)> {
    rows.iter().map(|r| (r.folder_path.clone(), r.depth, r.label.clone())).collect()
}

#[test]
fn picker_rows_list_one_files_folders() {
    let root = tree();
    let rows = folder_picker_rows_for_source_file(&root, 0);
    assert_eq!(
        view(&rows),
        vec![
            (path(&[]), 0, "/".to_string()),
            (path(&["prod"]), 1, "prod".to_string()),
            (path(&["prod", "db"]), 2, "db".to_string()),
            (path(&["lab"]), 1, "lab".to_string()),
        ]
    );
    let rows = folder_picker_rows_for_source_file(&root, 1);
    assert_eq!(
        view(&rows),
        vec![(path(&[]), 0, "/".to_string()), (path(&["a"]), 1, "a".to_string()), (path(&["a", "b"]), 2, "b".to_string())]
    );
    let rows = folder_picker_rows_for_source_file(&root, 9);
    assert_eq!(view(&rows), vec![(path(&[]), 0, "/".to_string())]);
}

#[test]
fn source_roots_and_prefixes() {
    let root = tree();
    assert_eq!(source_root_folder(&root, 0).map(|f| f.id), Some(0));
    assert_eq!(source_root_folder(&root, 1).map(|f| f.id), Some(3));
    assert_eq!(source_root_folder(&root, 2).map(|f| f.id), Some(6));
    assert!(source_root_folder(&root, 9).is_none());
    assert_eq!(source_file_folder_prefix_segments(&root, 0), path(&[]));
    assert_eq!(source_file_folder_prefix_segments(&root, 1), path(&["inc"]));
    assert_eq!(source_file_folder_prefix_segments(&root, 2), path(&["inc", "x"]));
    assert_eq!(source_file_folder_prefix_segments(&root, 9), path(&[]));
}

#[test]
fn moving_a_folder_hides_it_and_its_subfolders() {
    let root = tree();
    let rows = folder_picker_rows_for_source_file(&root, 0);
    let left = rows_without_folder(&rows, &path(&["prod"]));
    assert_eq!(view(&left), vec![(path(&[]), 0, "/".to_string()), (path(&["lab"]), 1, "lab".to_string())]);
    assert!(rows_without_folder(&rows, &path(&[])).is_empty());
    assert_eq!(picker_initial_selection(&rows, &path(&["prod", "db"])), 2);
    assert_eq!(picker_initial_selection(&rows, &path(&["nope"])), 0);
    assert!(path_starts_with(&path(&["a", "b"]), &path(&["a"])));
    assert!(!path_starts_with(&path(&["a"]), &path(&["a", "b"])));
}

#[test]
fn folder_rows_are_found_by_source_and_path() {
    let mut b = HostBrowser {
        root: tree(),
        host_names: Vec::new(),
        visible_rows: Vec::new(),
        selected_row: 0,
        scroll_offset: 0,
        match_scores: HashMap::new(),
        collapsed_folders: HashSet::new(),
        search_query: String::new(),
    };
    b.rebuild_visible_rows();
    assert_eq!(b.folder_path_segments_by_id_in_source(5, 1), Some(path(&["a", "b"])));
    assert_eq!(b.folder_path_segments_by_id_in_source(2, 0), Some(path(&["prod", "db"])));
    assert_eq!(b.folder_path_segments_by_id_in_source(42, 0), None);

    assert!(b.select_folder_row_by_source_and_path(1, &path(&["a", "b"])));
    assert_eq!(b.visible_rows[b.selected_row].kind, HostTreeRowKind::Folder(5));
    assert!(b.select_folder_row_by_source_and_path(0, &path(&["lab"])));
    assert_eq!(b.visible_rows[b.selected_row].kind, HostTreeRowKind::Folder(7));
    let before = b.selected_row;
    assert!(!b.select_folder_row_by_source_and_path(0, &path(&["a"])));
    assert_eq!(b.selected_row, before);
}
