use color_ssh::host_search::{build_host_search_index, HostIdentity};
use color_ssh::host_tree::{build_visible_rows, folder_segments_for_folder_id, strip_source_file_folder_prefix, HostBrowser, HostTreeRowKind, TreeFolder};
use color_ssh::info_panel::InfoSubject;
use color_ssh::key_encoding::{KeyCode, KeyInput, KeyModifiers};
use color_ssh::quick_connect::{QuickConnectField, QuickConnectOutcome, QuickConnectState};
use color_ssh::terminal_scan::{find_row_matches, row_search_text, search_row};
use color_ssh::terminal_search::{search_scroll_offset, SearchKeyOutcome, TerminalSearchState};
use color_ssh::vault_modal::{vault_status_modal_action_at, vault_unlock_modal_action_at, VaultStatusMouseAction, VaultUnlockMouseAction};
use std::collections::{HashMap, HashSet};

fn folder(id: usize, name: &str, hosts: Vec<usize>, children: Vec<TreeFolder>) -> TreeFolder {
    TreeFolder { id, name: name.to_string(), source: 0, host_indices: hosts, children }
}

fn tree() -> TreeFolder {
    folder(0, "", vec![0], vec![folder(1, "prod", vec![1, 2], vec![folder(2, "db", vec![3], vec![])]), folder(3, "lab", vec![4], vec![])])
}

fn names() -> Vec<String> {
    ["bastion", "web1", "web2", "pg", "pi"].iter().map(|s| s.to_string()).collect()
}

fn kinds(rows: &[color_ssh::host_tree::HostTreeRow]) -> Vec<(HostTreeRowKind, usize)> {
    rows.iter().map(|r| (r.kind, r.depth)).collect()
}

#[test]
fn rows_follow_the_tree_and_hide_collapsed_folders() {
    let root = tree();
    let mut collapsed = HashSet::new();
    let rows = build_visible_rows(&root, false, &collapsed, &HashMap::new(), &names());
    assert_eq!(
        kinds(&rows),
        vec![
            (HostTreeRowKind::Host(0), 0),
            (HostTreeRowKind::Folder(1), 0),
            (HostTreeRowKind::Host(1), 1),
            (HostTreeRowKind::Host(2), 1),
            (HostTreeRowKind::Folder(2), 1),
            (HostTreeRowKind::Host(3), 2),
            (HostTreeRowKind::Folder(3), 0),
            (HostTreeRowKind::Host(4), 1),
        ]
    );
    collapsed.insert(1);
    let rows = build_visible_rows(&root, false, &collapsed, &HashMap::new(), &names());
    assert_eq!(kinds(&rows), vec![(HostTreeRowKind::Host(0), 0), (HostTreeRowKind::Folder(1), 0), (HostTreeRowKind::Folder(3), 0), (HostTreeRowKind::Host(4), 1)]);
    assert!(!rows[1].expanded);
}

#[test]
fn search_shows_matching_hosts_and_their_folders_only() {
    let root = tree();
    let mut scores = HashMap::new();
    scores.insert(3usize, 10i32);
    let rows = build_visible_rows(&root, true, &HashSet::new(), &scores, &names());
    assert_eq!(kinds(&rows), vec![(HostTreeRowKind::Folder(1), 0), (HostTreeRowKind::Folder(2), 1), (HostTreeRowKind::Host(3), 2)]);
    assert!(rows.iter().all(|r| r.expanded || matches!(r.kind, HostTreeRowKind::Host(_))));
}

fn browser() -> HostBrowser {
    let mut b = HostBrowser {
        root: tree(),
        host_names: names(),
        visible_rows: Vec::new(),
        selected_row: 0,
        scroll_offset: 0,
        match_scores: HashMap::new(),
        collapsed_folders: HashSet::new(),
        search_query: String::new(),
    };
    b.rebuild_visible_rows();
    b
}

#[test]
fn collapsing_a_folder_keeps_it_selected() {
    let mut b = browser();
    b.set_selected_row(4);
    assert_eq!(b.selected_folder_id(), Some(2));
    b.toggle_folder(2);
    assert!(!b.is_folder_expanded(2));
    assert_eq!(b.selected_folder_id(), Some(2));
    b.toggle_folder(2);
    assert!(b.is_folder_expanded(2));
}

#[test]
fn filtering_selects_the_same_host_again() {
    let hosts: Vec<HostIdentity> = names().into_iter().map(|n| HostIdentity { name: n, hostname: None, user: None }).collect();
    let index = build_host_search_index(&hosts);
    let mut b = browser();
    b.set_selected_row(5);
    assert_eq!(b.selected_host_idx(), Some(3));
    b.search_query = "PG".to_string();
    assert!(b.update_filtered_hosts(&index));
    assert_eq!(b.visible_rows.len(), 3);
    assert_eq!(b.selected_host_idx(), Some(3));
    b.search_query.clear();
    assert!(b.update_filtered_hosts(&index));
    assert_eq!(b.visible_rows.len(), 8);
    assert_eq!(b.selected_host_idx(), Some(3));
}

#[test]
fn collapse_all_then_expand_all() {
    let hosts: Vec<HostIdentity> = names().into_iter().map(|n| HostIdentity { name: n, hostname: None, user: None }).collect();
    let index = build_host_search_index(&hosts);
    let mut b = browser();
    b.toggle_all_folders(&index);
    assert_eq!(b.collapsed_folders.len(), 3);
    assert_eq!(b.visible_rows.len(), 3);
    b.toggle_all_folders(&index);
    assert!(b.collapsed_folders.is_empty());
    assert_eq!(b.visible_rows.len(), 8);
}

#[test]
fn folder_lookup_and_host_counts() {
    let b = browser();
    assert_eq!(b.folder_by_id(2).map(|f| f.name.clone()), Some("db".to_string()));
    assert!(b.folder_by_id(9).is_none());
    assert_eq!(b.folder_descendant_host_count(1), 3);
    assert_eq!(b.folder_descendant_host_count(0), 5);
    assert_eq!(b.folder_descendant_host_count(9), 0);
}

#[test]
fn host_search_index_is_lower_case() {
    let index = build_host_search_index(&[HostIdentity { name: "Web-ÄÖ".to_string(), hostname: Some("EXAMPLE.com".to_string()), user: None }]);
    assert_eq!(index[0].name_lower, "web-äö");
    assert_eq!(index[0].hostname_lower.as_deref(), Some("example.com"));
    assert_eq!(index[0].user_lower, None);
}

fn key(code: KeyCode) -> KeyInput {
    KeyInput::new(code, KeyModifiers::none())
}

#[test]
fn quick_connect_form_keys() {
    let mut form = QuickConnectState::new(false, vec!["work".to_string(), "Default".to_string()]);
    assert_eq!(form.profile_index, 1);
    for c in "root".chars() {
        assert_eq!(form.handle_key(key(KeyCode::Char(c))), QuickConnectOutcome::Stay);
    }
    assert_eq!(form.user, "root");
    assert_eq!(form.handle_key(key(KeyCode::Enter)), QuickConnectOutcome::Stay);
    assert_eq!(form.selected, QuickConnectField::Host);
    for c in " host.example ".chars() {
        form.handle_key(key(KeyCode::Char(c)));
    }
    assert_eq!(form.host, "host.example");
    form.handle_key(key(KeyCode::Tab));
    form.handle_key(key(KeyCode::Right));
    assert_eq!(form.profile_index, 0);
    form.handle_key(key(KeyCode::Down));
    form.handle_key(key(KeyCode::Char(' ')));
    assert!(form.ssh_logging);
    form.handle_key(key(KeyCode::Down));
    assert_eq!(form.handle_key(key(KeyCode::Enter)), QuickConnectOutcome::Submit);
    let sub = form.submission().unwrap();
    assert_eq!(sub.user, "root");
    assert_eq!(sub.host, "host.example");
    assert_eq!(sub.profile, Some("work".to_string()));
    assert!(sub.force_ssh_logging);
    assert_eq!(form.handle_key(key(KeyCode::Esc)), QuickConnectOutcome::Close);
}

#[test]
fn quick_connect_requires_a_host() {
    let mut form = QuickConnectState::new(true, Vec::new());
    assert_eq!(form.profile_options, vec!["default".to_string()]);
    assert!(form.submission().is_none());
    assert_eq!(form.error.as_deref(), Some("Host is required"));
    assert_eq!(form.selected, QuickConnectField::Host);
    form.handle_key(key(KeyCode::Char('h')));
    assert_eq!(form.error, None);
    let sub = form.submission().unwrap();
    assert_eq!(sub.profile, None);
}

#[test]
fn terminal_search_keys_step_through_matches() {
    let mut s = TerminalSearchState::new();
    s.active = true;
    assert_eq!(s.handle_key(key(KeyCode::Char('a'))), SearchKeyOutcome::Rescan);
    assert_eq!(s.query, "a");
    assert!(s.apply_scan(vec![(0, 1, 1), (2, 0, 1), (-3, 4, 1)]));
    assert_eq!(s.handle_key(key(KeyCode::Up)), SearchKeyOutcome::ScrollToMatch);
    assert_eq!(s.current, 2);
    assert_eq!(s.handle_key(key(KeyCode::Down)), SearchKeyOutcome::ScrollToMatch);
    assert_eq!(s.current, 0);
    assert_eq!(s.current_highlight_range(), Some((0, 1, 2)));
    assert!(s.is_cell_in_search_match(-3, 4));
    assert!(!s.is_cell_in_current_search_match(-3, 4));
    assert_eq!(s.handle_key(key(KeyCode::Esc)), SearchKeyOutcome::Done);
    assert!(!s.active && s.query.is_empty() && s.matches.is_empty());
    assert_eq!(search_scroll_offset(-30, 24, 100), 38);
    assert_eq!(search_scroll_offset(20, 24, 100), 0);
    assert_eq!(search_scroll_offset(-500, 24, 100), 100);
}

#[test]
fn row_matches_map_to_columns() {
    let cells: Vec<Option<String>> = vec![Some("a".into()), Some("界".into()), None, Some("A".into()), Some("b".into()), Some(String::new())];
    let (text, starts) = row_search_text(&cells);
    assert_eq!(text, "a界 Ab ");
    assert_eq!(starts, vec![0, 1, 4, 5, 6, 7]);
    assert_eq!(find_row_matches(&text.to_lowercase(), &starts, "ab", -2), vec![(-2, 3, 2)]);
    assert_eq!(search_row(&cells, "a", 7), Some(vec![(7, 0, 1), (7, 3, 1)]));
    assert_eq!(search_row(&cells, "界", 0), None);
    assert_eq!(search_row(&cells, "ö", 0), Some(vec![]));
}

#[test]
fn vault_modal_action_rows() {
    // 80x24 terminal: the status dialog is 80 wide and 7 tall at (0, 8); its action row is y = 13.
    assert_eq!(vault_status_modal_action_at(80, 24, true, 1, 13), Some(VaultStatusMouseAction::Lock));
    assert_eq!(vault_status_modal_action_at(80, 24, false, 1, 13), Some(VaultStatusMouseAction::Unlock));
    assert_eq!(vault_status_modal_action_at(80, 24, true, 1 + 8 + 5, 13), Some(VaultStatusMouseAction::Close));
    assert_eq!(vault_status_modal_action_at(80, 24, true, 1, 12), None);
    // The unlock prompt is 72 wide and 6 tall at (4, 9); its action row is y = 13.
    assert_eq!(vault_unlock_modal_action_at(80, 24, "[Enter] Unlock", "[Esc] Cancel", 5, 13), Some(VaultUnlockMouseAction::Submit));
    assert_eq!(vault_unlock_modal_action_at(80, 24, "[Enter] Unlock", "[Esc] Cancel", 5 + 14 + 5, 13), Some(VaultUnlockMouseAction::Close));
    assert_eq!(vault_unlock_modal_action_at(80, 24, "[Enter] Unlock", "[Esc] Cancel", 5 + 14, 13), None);
}

fn strings(v: &[&str]) -> Vec<String> {
    v.iter().map(|s| s.to_string()).collect()
}

#[test]
fn folder_paths_by_id() {
    let root = tree();
    assert_eq!(folder_segments_for_folder_id(&root.children, 2), Some(strings(&["prod", "db"])));
    assert_eq!(folder_segments_for_folder_id(&root.children, 3), Some(strings(&["lab"])));
    assert_eq!(folder_segments_for_folder_id(&root.children, 0), None);
    assert_eq!(folder_segments_for_folder_id(&root.children, 9), None);
    let path = strings(&["team", "prod", "db"]);
    assert_eq!(strip_source_file_folder_prefix(&strings(&["team"]), &path), strings(&["prod", "db"]));
    assert_eq!(strip_source_file_folder_prefix(&strings(&["lab"]), &path), path);
    assert_eq!(strip_source_file_folder_prefix(&Vec::new(), &path), path);
    assert_eq!(strip_source_file_folder_prefix(&strings(&["team", "prod", "db", "x"]), &path), path);
}

#[test]
fn selecting_rows_by_host_and_pane_subjects() {
    let mut b = browser();
    assert_eq!(b.info_subject(5), InfoSubject::Host(0));
    assert_eq!(b.info_subject(0), InfoSubject::Nothing);
    assert!(b.select_visible_host_row_for_host_idx(3));
    assert_eq!(b.selected_row, 5);
    assert!(!b.select_visible_host_row_for_host_idx(9));
    assert_eq!(b.selected_row, 5);
    assert!(b.select_host_row_by_name("pi"));
    assert_eq!(b.selected_row, 7);
    assert!(!b.select_host_row_by_name("nope"));
    b.set_selected_row(1);
    assert_eq!(b.info_subject(5), InfoSubject::Folder(1));
}

#[test]
fn toggling_a_folder_rebuilds_rows_and_selects_it() {
    let mut b = browser();
    b.set_selected_row(0);
    b.scroll_offset = 1;
    b.toggle_folder(1);
    assert_eq!(b.visible_rows.len(), 4);
    assert_eq!(b.selected_folder_id(), Some(1));
    assert_eq!(b.scroll_offset, 1);
    b.toggle_folder(1);
    assert_eq!(b.visible_rows.len(), 8);
    assert_eq!(b.selected_folder_id(), Some(1));
}

#[test]
fn collapse_all_keeps_the_selected_folder_and_resets_scroll() {
    let hosts: Vec<HostIdentity> = names().into_iter().map(|n| HostIdentity { name: n, hostname: None, user: None }).collect();
    let index = build_host_search_index(&hosts);
    let mut b = browser();
    b.set_selected_row(1);
    b.scroll_offset = 2;
    assert_eq!(b.selected_folder_id(), Some(1));
    assert!(b.toggle_all_folders(&index));
    assert_eq!(b.selected_folder_id(), Some(1));
    assert_eq!(b.scroll_offset, 0);
    assert!(b.match_scores.is_empty());
}
