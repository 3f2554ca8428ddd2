use color_ssh::inventory_changes::{
    change_report, changed_folder_path, duplicate_host_message, root_folder_refusal, FolderAction, FollowUp, InventoryChange, MessageTarget,
    WriteOutcome,
};

#[test]
fn failed_save_stays_in_editor() {
    let r = change_report(InventoryChange::SaveHost, &WriteOutcome::WriteFailed("disk full".to_string()));
    assert_eq!(r.message, Some((MessageTarget::Editor, "Failed to save entry: disk full".to_string())));
    assert_eq!(r.follow_up, FollowUp::Nothing);
    assert!(!r.close_dialog);

    let r = change_report(InventoryChange::SaveHost, &WriteOutcome::ReloadFailed("bad yaml".to_string()));
    assert_eq!(r.message, Some((MessageTarget::Editor, "Entry saved, but reload failed: bad yaml".to_string())));
    assert!(!r.close_dialog);

    let r = change_report(InventoryChange::SaveHost, &WriteOutcome::Done);
    assert_eq!(r.message, None);
    assert_eq!(r.follow_up, FollowUp::SelectHostAndCloseEditor);
}

#[test]
fn host_delete_reports_where_it_was_asked() {
    let err = WriteOutcome::WriteFailed("locked".to_string());
    let r = change_report(InventoryChange::DeleteHost { from_editor: true }, &err);
    assert_eq!(r.message, Some((MessageTarget::Editor, "Failed to delete entry: locked".to_string())));
    assert!(r.close_dialog);
    let r = change_report(InventoryChange::DeleteHost { from_editor: false }, &err);
    assert_eq!(r.message, Some((MessageTarget::Toast, "Failed to delete entry: locked".to_string())));

    let r = change_report(InventoryChange::DeleteHost { from_editor: true }, &WriteOutcome::Done);
    assert_eq!(r.follow_up, FollowUp::CloseEditor);
    let r = change_report(InventoryChange::DeleteHost { from_editor: false }, &WriteOutcome::Done);
    assert_eq!(r.follow_up, FollowUp::Nothing);
    let r = change_report(InventoryChange::DeleteHost { from_editor: false }, &WriteOutcome::ReloadFailed("x".to_string()));
    assert_eq!(r.message, Some((MessageTarget::Toast, "Deleted entry, but reload failed: x".to_string())));
}

#[test]
fn folder_changes_report_in_dialog_or_toast() {
    let r = change_report(InventoryChange::RenameFolder, &WriteOutcome::WriteFailed("exists".to_string()));
    assert_eq!(r.message, Some((MessageTarget::Dialog, "Failed to rename folder: exists".to_string())));
    assert!(!r.close_dialog);
    let r = change_report(InventoryChange::CreateFolder, &WriteOutcome::ReloadFailed("e".to_string()));
    assert_eq!(r.message, Some((MessageTarget::Toast, "Folder created, but reload failed: e".to_string())));
    assert!(r.close_dialog);
    let r = change_report(InventoryChange::CreateFolder, &WriteOutcome::Done);
    assert_eq!(r.follow_up, FollowUp::SelectFolder);
    let r = change_report(InventoryChange::DeleteFolder, &WriteOutcome::WriteFailed("e".to_string()));
    assert_eq!(r.message, Some((MessageTarget::Toast, "Failed to delete folder: e".to_string())));
    let r = change_report(InventoryChange::MoveHost, &WriteOutcome::ReloadFailed("e".to_string()));
    assert_eq!(r.message, Some((MessageTarget::Toast, "Moved entry, but reload failed: e".to_string())));
    let r = change_report(InventoryChange::MoveHost, &WriteOutcome::Done);
    assert_eq!(r.follow_up, FollowUp::SelectHost);
}

#[test]
fn changed_folder_path_appends_trimmed_name() {
    let parent = vec!["prod".to_string(), "web".to_string()];
    assert_eq!(changed_folder_path(&parent, "  api "), vec!["prod".to_string(), "web".to_string(), "api".to_string()]);
    assert_eq!(changed_folder_path(&Vec::new(), "x"), vec!["x".to_string()]);
    assert_eq!(duplicate_host_message("db"), "Host 'db' already exists.");
}

#[test]
fn the_root_folder_cannot_be_renamed_or_deleted() {
    assert_eq!(root_folder_refusal(FolderAction::Rename, &Vec::new()), Some("Cannot rename the inventory root folder.".to_string()));
    assert_eq!(root_folder_refusal(FolderAction::Delete, &Vec::new()), Some("Cannot delete the inventory root folder.".to_string()));
    assert_eq!(root_folder_refusal(FolderAction::Delete, &vec!["prod".to_string()]), None);
}
