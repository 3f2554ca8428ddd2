//! What the UI does after a change to the inventory files: the write itself
//! and the reload of the tree happen outside; here is decided which message
//! is shown, where, and what is selected or closed afterwards.

use vstd::prelude::*;
use crate::text_format::{push_str_chars, trim, trim_text};
use crate::host_tree::names_of;

verus! {

/// A change to the inventory that the UI asked for.
#[derive(Clone, Copy, Debug, PartialEq, Eq, Structural)]
pub enum InventoryChange {
    /// Saving the host editor (a new entry or an edited one).
    SaveHost,
    /// Deleting a host, from its editor or from the host list.
    DeleteHost { from_editor: bool },
    /// Moving a host to another folder.
    MoveHost,
    /// Renaming (or moving) a folder.
    RenameFolder,
    /// Creating a folder.
    CreateFolder,
    /// Deleting a folder.
    DeleteFolder,
}

/// How the write and the reload after it went.
#[derive(Clone, Debug, PartialEq, Eq)]
pub enum WriteOutcome {
    /// The write failed, with this error.
    WriteFailed(String),
    /// The write succeeded, the reload failed with this error.
    ReloadFailed(String),
    /// Both succeeded.
    Done,
}

/// Where a message is shown.
#[derive(Clone, Copy, Debug, PartialEq, Eq, Structural)]
pub enum MessageTarget {
    /// The error line of the host editor.
    Editor,
    /// The error line of the open folder dialog.
    Dialog,
    /// A notice toast over the UI.
    Toast,
}

/// What is selected or closed once the change went through.
#[derive(Clone, Copy, Debug, PartialEq, Eq, Structural)]
pub enum FollowUp {
    Nothing,
    /// Select the host's row in the reloaded tree.
    SelectHost,
    /// Select the folder's row in the reloaded tree.
    SelectFolder,
    /// Close the host editor tab.
    CloseEditor,
    /// Select the host's row, then close the host editor tab.
    SelectHostAndCloseEditor,
}

/// The UI's answer to a change.
#[derive(Clone, Debug)]
pub struct ChangeReport {
    /// The message to show, and where.
    pub message: Option<(MessageTarget, String)>,
    pub follow_up: FollowUp,
    /// The dialog that asked for the change closes.
    pub close_dialog: bool,
}

/// A report as values.
pub type ReportModel = (Option<(MessageTarget, Seq<char>)>, FollowUp, bool);

pub open spec fn report_model(r: ChangeReport) -> ReportModel {
    (
        match r.message {
            Some((t, m)) => Some((t, m@)),
            None => None,
        },
        r.follow_up,
        r.close_dialog,
    )
}

/// The message after a failed write.
pub open spec fn write_failed_text(change: InventoryChange) -> Seq<char> {
    match change {
        InventoryChange::SaveHost => "Failed to save entry: "@,
        InventoryChange::DeleteHost { .. } => "Failed to delete entry: "@,
        InventoryChange::MoveHost => "Failed to move entry: "@,
        InventoryChange::RenameFolder => "Failed to rename folder: "@,
        InventoryChange::CreateFolder => "Failed to create folder: "@,
        InventoryChange::DeleteFolder => "Failed to delete folder: "@,
    }
}

/// The message after a write whose reload failed.
pub open spec fn reload_failed_text(change: InventoryChange) -> Seq<char> {
    match change {
        InventoryChange::SaveHost => "Entry saved, but reload failed: "@,
        InventoryChange::DeleteHost { .. } => "Deleted entry, but reload failed: "@,
        InventoryChange::MoveHost => "Moved entry, but reload failed: "@,
        InventoryChange::RenameFolder => "Folder renamed, but reload failed: "@,
        InventoryChange::CreateFolder => "Folder created, but reload failed: "@,
        InventoryChange::DeleteFolder => "Folder deleted, but reload failed: "@,
    }
}

/// Where the messages of a change go: the editor for a save or a delete
/// from the editor; a failed folder rename or creation stays in its dialog;
/// everything else is a toast.
pub open spec fn message_target(change: InventoryChange, write_failed: bool) -> MessageTarget {
    match change {
        InventoryChange::SaveHost => MessageTarget::Editor,
        InventoryChange::DeleteHost { from_editor } => if from_editor { MessageTarget::Editor } else { MessageTarget::Toast },
        InventoryChange::RenameFolder | InventoryChange::CreateFolder => if write_failed { MessageTarget::Dialog } else { MessageTarget::Toast },
        _ => MessageTarget::Toast,
    }
}

/// What follows a change that went through.
pub open spec fn done_follow_up(change: InventoryChange) -> FollowUp {
    match change {
        InventoryChange::SaveHost => FollowUp::SelectHostAndCloseEditor,
        InventoryChange::DeleteHost { from_editor } => if from_editor { FollowUp::CloseEditor } else { FollowUp::Nothing },
        InventoryChange::MoveHost => FollowUp::SelectHost,
        InventoryChange::RenameFolder | InventoryChange::CreateFolder => FollowUp::SelectFolder,
        InventoryChange::DeleteFolder => FollowUp::Nothing,
    }
}

/// The report on `change` given `outcome`. The dialog that asked stays open
/// only where a save, a folder rename or a folder creation could not be
/// written (the message is shown in it).
pub open spec fn spec_change_report(change: InventoryChange, outcome: WriteOutcome) -> ReportModel {
    let keeps_dialog = change is SaveHost || change is RenameFolder || change is CreateFolder;
    match outcome {
        WriteOutcome::WriteFailed(e) => (
            Some((message_target(change, true), write_failed_text(change) + e@)),
            FollowUp::Nothing,
            !keeps_dialog,
        ),
        WriteOutcome::ReloadFailed(e) => (
            Some((message_target(change, false), reload_failed_text(change) + e@)),
            FollowUp::Nothing,
            !(change is SaveHost),
        ),
        WriteOutcome::Done => (None, done_follow_up(change), true),
    }
}

fn write_failed_prefix(change: InventoryChange) -> (s: &'static str)
    ensures
        s@ == write_failed_text(change),
{
    match change {
        InventoryChange::SaveHost => "Failed to save entry: ",
        InventoryChange::DeleteHost { .. } => "Failed to delete entry: ",
        InventoryChange::MoveHost => "Failed to move entry: ",
        InventoryChange::RenameFolder => "Failed to rename folder: ",
        InventoryChange::CreateFolder => "Failed to create folder: ",
        InventoryChange::DeleteFolder => "Failed to delete folder: ",
    }
}

fn reload_failed_prefix(change: InventoryChange) -> (s: &'static str)
    ensures
        s@ == reload_failed_text(change),
{
    match change {
        InventoryChange::SaveHost => "Entry saved, but reload failed: ",
        InventoryChange::DeleteHost { .. } => "Deleted entry, but reload failed: ",
        InventoryChange::MoveHost => "Moved entry, but reload failed: ",
        InventoryChange::RenameFolder => "Folder renamed, but reload failed: ",
        InventoryChange::CreateFolder => "Folder created, but reload failed: ",
        InventoryChange::DeleteFolder => "Folder deleted, but reload failed: ",
    }
}

fn target_of(change: InventoryChange, write_failed: bool) -> (t: MessageTarget)
    ensures
        t == message_target(change, write_failed),
{
    match change {
        InventoryChange::SaveHost => MessageTarget::Editor,
        InventoryChange::DeleteHost { from_editor } => if from_editor { MessageTarget::Editor } else { MessageTarget::Toast },
        InventoryChange::RenameFolder | InventoryChange::CreateFolder => if write_failed { MessageTarget::Dialog } else { MessageTarget::Toast },
        _ => MessageTarget::Toast,
    }
}

fn prefixed(prefix: &str, err: &str) -> (s: String)
    ensures
        s@ == prefix@ + err@,
{
    let mut s = prefix.to_owned();
    push_str_chars(&mut s, err);
    s
}

/// The UI's answer to `change` once the write and reload went as `outcome`.
pub fn change_report(change: InventoryChange, outcome: &WriteOutcome) -> (r: ChangeReport)
    ensures
        report_model(r) == spec_change_report(change, *outcome),
{
    let keeps_dialog = match change {
        InventoryChange::SaveHost | InventoryChange::RenameFolder | InventoryChange::CreateFolder => true,
        _ => false,
    };
    match outcome {
        WriteOutcome::WriteFailed(e) => ChangeReport {
            message: Some((target_of(change, true), prefixed(write_failed_prefix(change), e.as_str()))),
            follow_up: FollowUp::Nothing,
            close_dialog: !keeps_dialog,
        },
        WriteOutcome::ReloadFailed(e) => ChangeReport {
            message: Some((target_of(change, false), prefixed(reload_failed_prefix(change), e.as_str()))),
            follow_up: FollowUp::Nothing,
            close_dialog: match change { InventoryChange::SaveHost => false, _ => true },
        },
        WriteOutcome::Done => {
            let follow_up = match change {
                InventoryChange::SaveHost => FollowUp::SelectHostAndCloseEditor,
                InventoryChange::DeleteHost { from_editor } => if from_editor { FollowUp::CloseEditor } else { FollowUp::Nothing },
                InventoryChange::MoveHost => FollowUp::SelectHost,
                InventoryChange::RenameFolder | InventoryChange::CreateFolder => FollowUp::SelectFolder,
                InventoryChange::DeleteFolder => FollowUp::Nothing,
            };
            ChangeReport { message: None, follow_up, close_dialog: true }
        },
    }
}

/// The editor's message for a name that another entry already has.
pub fn duplicate_host_message(name: &str) -> (s: String)
    ensures
        s@ == "Host '"@ + name@ + "' already exists."@,
{
    let mut s = "Host '".to_owned();
    push_str_chars(&mut s, name);
    push_str_chars(&mut s, "' already exists.");
    s
}

/// The path of a folder renamed or created under `parent` with the name
/// typed in its dialog: `parent` and the name, trimmed.
pub fn changed_folder_path(parent: &Vec<String>, name: &str) -> (r: Vec<String>)
    ensures
        names_of(r@) == names_of(parent@).push(trim(name@)),
{
    let mut r: Vec<String> = Vec::new();
    let mut i: usize = 0;
    while i < parent.len()
        invariant
            i <= parent@.len(),
            names_of(r@) == names_of(parent@.subrange(0, i as int)),
        decreases parent@.len() - i,
    {
        let segment = parent[i].clone();
        let ghost prev = r@;
        r.push(segment);
        proof {
            assert(parent@.subrange(0, i + 1) =~= parent@.subrange(0, i as int).push(parent@[i as int]));
            assert(names_of(r@) =~= names_of(prev).push(segment@));
            assert(names_of(parent@.subrange(0, i + 1)) =~= names_of(parent@.subrange(0, i as int)).push(parent@[i as int]@));
        }
        i += 1;
    }
    proof {
        assert(parent@.subrange(0, parent@.len() as int) =~= parent@);
    }
    let t = trim_text(name);
    let ghost prev = r@;
    r.push(t);
    proof {
        assert(names_of(r@) =~= names_of(prev).push(t@));
    }
    r
}

/// A change asked for on a folder of the tree.
#[derive(Clone, Copy, Debug, PartialEq, Eq, Structural)]
pub enum FolderAction {
    Rename,
    Delete,
}

/// The top level of an inventory file (the empty path) can be neither
/// renamed nor deleted: the notice for that, and nothing for any other
/// folder.
pub fn root_folder_refusal(action: FolderAction, folder_path: &Vec<String>) -> (r: Option<String>)
    ensures
        folder_path@.len() > 0 ==> r is None,
        folder_path@.len() == 0 ==> (r matches Some(m) && m@ == match action {
            FolderAction::Rename => "Cannot rename the inventory root folder."@,
            FolderAction::Delete => "Cannot delete the inventory root folder."@,
        }),
{
    if folder_path.len() > 0 {
        return None;
    }
    match action {
        FolderAction::Rename => Some("Cannot rename the inventory root folder.".to_owned()),
        FolderAction::Delete => Some("Cannot delete the inventory root folder.".to_owned()),
    }
}

} // verus!
