use color_ssh::layout::{initial_panel_sizes, split_host_panel, Rect};
use color_ssh::host_list_view::{host_list_scrollbar_thumb, host_list_title, host_row_line, visible_host_lines, RowSpan, RowTone};
use color_ssh::host_tree::{HostTreeRow, HostTreeRowKind};
use color_ssh::info_panel::{
    file_name_part, folder_details_lines, folder_info_lines, host_details_lines, host_info_lines, info_header, notice_lines,
    HostRecord, InfoSpan, InfoTone,
};

fn record() -> HostRecord {
    HostRecord {
        name: "web".to_string(),
        description: Some("front end".to_string()),
        hostname: Some("10.0.0.5".to_string()),
        user: None,
        port: Some(2222),
        identity_file: Some("/home/me/.ssh/id_web".to_string()),
        proxy_jump: None,
        local_forward: vec!["8080:localhost:80".to_string()],
        remote_forward: Vec::new(),
        profile: Some("prod".to_string()),
        use_sshpass: true,
    }
}

fn texts(lines: &[Vec<InfoSpan>]) -> Vec<Vec<(String, InfoTone)>> {
    lines.iter().map(|l| l.iter().map(|s| (s.text.clone(), s.tone)).collect()).collect()
}

fn pair(label: &str, value: &str, tone: InfoTone) -> Vec<(String, InfoTone)> {
    vec![(label.to_string(), InfoTone::Label), (value.to_string(), tone)]
}

#[test]
fn info_pane_lists_the_set_fields() {
    let lines = host_info_lines(&record());
    assert_eq!(
        texts(&lines),
        vec![
            vec![("front end".to_string(), InfoTone::Description)],
            vec![],
            pair("Host: ", "10.0.0.5", InfoTone::Value),
            pair("Port: ", "2222", InfoTone::Value),
            pair("Key:  ", "id_web", InfoTone::Faint),
            pair("LFwd: ", "8080:localhost:80", InfoTone::Value),
            pair("Prof: ", "prod", InfoTone::Profile),
            pair("Pass: ", "sshpass", InfoTone::Warning),
        ]
    );
    let bare = HostRecord {
        description: None,
        hostname: None,
        port: None,
        identity_file: None,
        local_forward: Vec::new(),
        profile: None,
        use_sshpass: false,
        ..record()
    };
    assert!(host_info_lines(&bare).is_empty());
}

#[test]
fn key_files_show_their_file_name() {
    assert_eq!(file_name_part("/a/b/key"), "key");
    assert_eq!(file_name_part("key"), "key");
    assert_eq!(file_name_part("dir/"), "");
}

#[test]
fn folder_panes_count_hosts() {
    let lines = folder_info_lines("/etc/ssh/config", 2, 3, 7);
    assert_eq!(
        texts(&lines),
        vec![
            pair("Path: ", "/etc/ssh/config", InfoTone::Value),
            pair("Folders: ", "2", InfoTone::Value),
            pair("Hosts: ", "3 direct / 7 total", InfoTone::Value),
        ]
    );
    let details = folder_details_lines("prod", "/etc/ssh/config", 0, 1, 1);
    assert_eq!(details.len(), 6);
    assert_eq!(texts(&details)[1], vec![("Folder: ".to_string(), InfoTone::Label), ("prod".to_string(), InfoTone::Name)]);
    assert_eq!(texts(&details)[5], pair("  Hosts: ", "1 direct / 1 total", InfoTone::Value));
}

#[test]
fn details_pane_for_a_host() {
    let lines = host_details_lines(&record());
    assert_eq!(
        texts(&lines),
        vec![
            vec![],
            vec![("Host: ".to_string(), InfoTone::Label), ("web".to_string(), InfoTone::Name)],
            vec![],
            pair("  Hostname: ", "10.0.0.5", InfoTone::Value),
            pair("  Port: ", "2222", InfoTone::Value),
            pair("  IdentityFile: ", "/home/me/.ssh/id_web", InfoTone::Faint),
        ]
    );
    assert_eq!(texts(&notice_lines("No selection")), vec![vec![], vec![("No selection".to_string(), InfoTone::Faint)]]);
    assert_eq!(info_header(Some("web")), "Info web");
    assert_eq!(info_header(None), "Info");
}

fn row(kind: HostTreeRowKind, depth: usize, name: &str, expanded: bool) -> HostTreeRow {
    HostTreeRow { kind, depth, display_name: name.to_string(), expanded }
}

fn line_texts(line: &[RowSpan]) -> Vec<(String, RowTone)> {
    line.iter().map(|s| (s.text.clone(), s.tone)).collect()
}

#[test]
fn host_list_lines_and_scrollbar() {
    assert_eq!(host_list_title(false, 0, 12), "Hosts - 12");
    assert_eq!(host_list_title(true, 3, 12), "Hosts - 3/12");
    let folder = row(HostTreeRowKind::Folder(1), 1, "prod", true);
    assert_eq!(
        line_texts(&host_row_line(&folder)),
        vec![
            ("  ".to_string(), RowTone::Plain),
            ("▾".to_string(), RowTone::Glyph),
            (" ".to_string(), RowTone::Plain),
            ("prod".to_string(), RowTone::FolderName),
        ]
    );
    let host = row(HostTreeRowKind::Host(0), 2, "web", false);
    assert_eq!(line_texts(&host_row_line(&host)), vec![("    ".to_string(), RowTone::Plain), ("web".to_string(), RowTone::HostName)]);
    let rows = vec![folder, host, row(HostTreeRowKind::Folder(2), 0, "lab", false)];
    let lines = visible_host_lines(&rows, 1, 5);
    assert_eq!(lines.len(), 2);
    assert_eq!(lines[1][1].text, "▸");
    assert!(visible_host_lines(&rows, 4, 5).is_empty());
    assert_eq!(visible_host_lines(&rows, 0, 1).len(), 1);
    assert_eq!(host_list_scrollbar_thumb(10, 40, 15), Some((3, 2)));
    assert_eq!(host_list_scrollbar_thumb(10, 40, 39), Some((8, 2)));
    assert_eq!(host_list_scrollbar_thumb(10, 8, 0), None);
    assert_eq!(host_list_scrollbar_thumb(10, 400, 0), Some((0, 1)));
}

#[test]
fn host_panel_split_clamps_info_height() {
    let panel = Rect::new(0, 0, 30, 20);
    let (list, info, stored) = split_host_panel(panel, true, 2);
    assert_eq!(list, Rect::new(0, 0, 29, 17));
    assert_eq!(info, Rect::new(0, 17, 29, 3));
    assert_eq!(stored, 3);

    let (list, info, stored) = split_host_panel(panel, true, 50);
    assert_eq!(list, Rect::new(0, 0, 29, 4));
    assert_eq!(info, Rect::new(0, 4, 29, 16));
    assert_eq!(stored, 16);

    let (list, info, stored) = split_host_panel(panel, false, 7);
    assert_eq!(list, Rect::new(0, 0, 29, 20));
    assert_eq!(info, Rect::new(0, 0, 0, 0));
    assert_eq!(stored, 7);
}

#[test]
fn initial_panel_sizes_follow_percentages() {
    assert_eq!(initial_panel_sizes(100, 30, 25, 40), (25, 11));
    assert_eq!(initial_panel_sizes(40, 6, 25, 40), (15, 3));
    assert_eq!(initial_panel_sizes(400, 10, 25, 90), (80, 4));
}
