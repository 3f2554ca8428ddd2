//! The password vault prompts: keys on the unlock prompt and the status
//! dialog, and what follows an unlock or lock attempt, with the notices
//! shown when a launch goes on without the vault.
use vstd::prelude::*;
use crate::key_encoding::{KeyCode, KeyInput};
use crate::text_format::push_str_chars;

verus! {

/// The protocol of the session waiting for the vault.
#[derive(Debug)]
pub enum LaunchProtocol {
    Ssh,
    Rdp,
    /// A protocol that cannot be launched, by name.
    Other(String),
}

/// `detail` and how the launch goes on without the vault: with FreeRDP's
/// own prompt, not at all for an unsupported protocol, else with the
/// standard SSH password prompt (also when no session waits).
pub open spec fn spec_fallback_notice(protocol: Option<LaunchProtocol>, detail: Seq<char>) -> Seq<char> {
    match protocol {
        Some(LaunchProtocol::Rdp) => detail + "; continuing with the FreeRDP password prompt."@,
        Some(LaunchProtocol::Other(p)) => detail + "; protocol '"@ + p@ + "' is not supported for launch."@,
        _ => detail + "; continuing with the standard SSH password prompt."@,
    }
}

/// The notice shown when a launch goes on without the vault.
pub fn vault_unlock_fallback_notice(protocol: &Option<LaunchProtocol>, detail: &str) -> (s: String)
    ensures
        s@ == spec_fallback_notice(*protocol, detail@),
{
    let mut s = detail.to_owned();
    match protocol {
        Some(LaunchProtocol::Rdp) => push_str_chars(&mut s, "; continuing with the FreeRDP password prompt."),
        Some(LaunchProtocol::Other(p)) => {
            push_str_chars(&mut s, "; protocol '");
            push_str_chars(&mut s, p.as_str());
            push_str_chars(&mut s, "' is not supported for launch.");
        },
        _ => push_str_chars(&mut s, "; continuing with the standard SSH password prompt."),
    }
    s
}

/// `prefix`, the text of an error, and `suffix`.
fn wrapped(prefix: &str, err: &str, suffix: &str) -> (s: String)
    ensures
        s@ == prefix@ + err@ + suffix@,
{
    let mut s = prefix.to_owned();
    push_str_chars(&mut s, err);
    push_str_chars(&mut s, suffix);
    s
}

/// What an unlock attempt came to.
#[derive(Debug)]
pub enum UnlockOutcome {
    /// The vault agent could not be started; its error.
    AgentUnavailable(String),
    /// The typed password could not be processed; the error.
    InputUnreadable(String),
    Unlocked,
    InvalidMasterPassword,
    NotInitialized,
    /// Any other failure; its error.
    Failed(String),
}

/// The unlock prompt as the next step depends on it.
#[derive(Debug)]
pub struct UnlockPrompt {
    /// The vault was opened by hand (not to log in to a host).
    pub manual: bool,
    /// Opened from the vault status dialog, which comes back afterwards.
    pub return_to_vault_status: bool,
    /// The vault entry holding the host's password.
    pub entry_name: String,
    pub attempts: u32,
    pub max_attempts: u32,
}

/// What happens after an unlock attempt or a cancel.
#[derive(Debug)]
pub enum UnlockStep {
    /// Keep the prompt open with this error, the typed password cleared.
    Retry(String),
    /// Close the prompt and reopen the vault status dialog, with this
    /// error message if any.
    BackToStatus(Option<String>),
    /// Close the prompt and go on with the launch: the vault entry to use,
    /// and the notice when going on without the vault.
    Complete { pass_entry: Option<String>, notice: Option<String> },
    /// Close the prompt.
    Close,
}

/// The step as values.
pub enum StepModel {
    Retry(Seq<char>),
    BackToStatus(Option<Seq<char>>),
    Complete(Option<Seq<char>>, Option<Seq<char>>),
    Close,
}

pub open spec fn step_model(s: UnlockStep) -> StepModel {
    match s {
        UnlockStep::Retry(e) => StepModel::Retry(e@),
        UnlockStep::BackToStatus(m) => StepModel::BackToStatus(match m { Some(t) => Some(t@), None => None }),
        UnlockStep::Complete { pass_entry, notice } => StepModel::Complete(
            match pass_entry { Some(t) => Some(t@), None => None },
            match notice { Some(t) => Some(t@), None => None },
        ),
        UnlockStep::Close => StepModel::Close,
    }
}

pub open spec fn invalid_password_notice() -> Seq<char> {
    "Invalid master password. Try again."@
}

pub open spec fn attempt_limit_notice() -> Seq<char> {
    "Vault unlock failed after multiple attempts. Try again."@
}

pub open spec fn not_initialized_notice() -> Seq<char> {
    "Password vault is not initialized. Run `cossh vault init` or `cossh vault add <name>` first."@
}

/// After an unlock attempt on `prompt` (its attempts counted before this
/// one), the step that follows. A manual unlock keeps the prompt open on
/// errors and gives up after the last allowed wrong password; an unlock
/// for a launch goes on without the vault instead, with a notice.
pub open spec fn spec_unlock_step(prompt: UnlockPrompt, protocol: Option<LaunchProtocol>, outcome: UnlockOutcome) -> StepModel {
    let manual = prompt.manual;
    match outcome {
        UnlockOutcome::AgentUnavailable(e) => if manual {
            StepModel::Retry("Password vault agent could not be started ("@ + e@ + ")."@)
        } else {
            StepModel::Complete(None, Some(spec_fallback_notice(protocol,
                "Password auto-login is unavailable because the password vault agent could not be started ("@ + e@ + ")"@)))
        },
        UnlockOutcome::InputUnreadable(e) => if manual {
            StepModel::Retry("Password vault input could not be processed ("@ + e@ + ")."@)
        } else {
            StepModel::Complete(None, Some(spec_fallback_notice(protocol,
                "Password auto-login is unavailable because the password vault input could not be processed ("@ + e@ + ")"@)))
        },
        UnlockOutcome::Unlocked => if manual && prompt.return_to_vault_status {
            StepModel::BackToStatus(None)
        } else {
            StepModel::Complete(if manual { None } else { Some(prompt.entry_name@) }, None)
        },
        UnlockOutcome::InvalidMasterPassword => if prompt.attempts + 1 >= prompt.max_attempts {
            if manual {
                if prompt.return_to_vault_status { StepModel::BackToStatus(Some(attempt_limit_notice())) } else { StepModel::Close }
            } else {
                StepModel::Complete(None, Some(spec_fallback_notice(protocol,
                    "Password auto-login is unavailable because vault unlock failed after multiple attempts"@)))
            }
        } else {
            StepModel::Retry(invalid_password_notice())
        },
        UnlockOutcome::NotInitialized => if manual {
            StepModel::Retry(not_initialized_notice())
        } else {
            StepModel::Complete(None, Some(spec_fallback_notice(protocol, not_initialized_notice())))
        },
        UnlockOutcome::Failed(e) => if manual {
            StepModel::Retry("Password vault could not be unlocked ("@ + e@ + ")."@)
        } else {
            StepModel::Complete(None, Some(spec_fallback_notice(protocol,
                "Password auto-login is unavailable because the password vault could not be unlocked ("@ + e@ + ")"@)))
        },
    }
}

/// The step after an unlock attempt; a wrong password counts as an
/// attempt.
pub fn submit_vault_unlock(prompt: &mut UnlockPrompt, protocol: &Option<LaunchProtocol>, outcome: UnlockOutcome) -> (step: UnlockStep)
    requires
        old(prompt).attempts < u32::MAX,
    ensures
        step_model(step) == spec_unlock_step(*old(prompt), *protocol, outcome),
        final(prompt).attempts == if outcome is InvalidMasterPassword { old(prompt).attempts + 1 } else { old(prompt).attempts as int },
        final(prompt).manual == old(prompt).manual,
        final(prompt).return_to_vault_status == old(prompt).return_to_vault_status,
        final(prompt).entry_name == old(prompt).entry_name,
        final(prompt).max_attempts == old(prompt).max_attempts,
{
    let manual = prompt.manual;
    match outcome {
        UnlockOutcome::AgentUnavailable(e) => if manual {
            UnlockStep::Retry(wrapped("Password vault agent could not be started (", e.as_str(), ")."))
        } else {
            let detail = wrapped("Password auto-login is unavailable because the password vault agent could not be started (", e.as_str(), ")");
            UnlockStep::Complete { pass_entry: None, notice: Some(vault_unlock_fallback_notice(protocol, detail.as_str())) }
        },
        UnlockOutcome::InputUnreadable(e) => if manual {
            UnlockStep::Retry(wrapped("Password vault input could not be processed (", e.as_str(), ")."))
        } else {
            let detail = wrapped("Password auto-login is unavailable because the password vault input could not be processed (", e.as_str(), ")");
            UnlockStep::Complete { pass_entry: None, notice: Some(vault_unlock_fallback_notice(protocol, detail.as_str())) }
        },
        UnlockOutcome::Unlocked => if manual && prompt.return_to_vault_status {
            UnlockStep::BackToStatus(None)
        } else {
            UnlockStep::Complete { pass_entry: if manual { None } else { Some(prompt.entry_name.clone()) }, notice: None }
        },
        UnlockOutcome::InvalidMasterPassword => {
            prompt.attempts = prompt.attempts + 1;
            if prompt.attempts >= prompt.max_attempts {
                if manual {
                    if prompt.return_to_vault_status {
                        UnlockStep::BackToStatus(Some("Vault unlock failed after multiple attempts. Try again.".to_owned()))
                    } else {
                        UnlockStep::Close
                    }
                } else {
                    UnlockStep::Complete {
                        pass_entry: None,
                        notice: Some(vault_unlock_fallback_notice(
                            protocol,
                            "Password auto-login is unavailable because vault unlock failed after multiple attempts",
                        )),
                    }
                }
            } else {
                UnlockStep::Retry("Invalid master password. Try again.".to_owned())
            }
        },
        UnlockOutcome::NotInitialized => {
            let message = "Password vault is not initialized. Run `cossh vault init` or `cossh vault add <name>` first.";
            if manual {
                UnlockStep::Retry(message.to_owned())
            } else {
                UnlockStep::Complete { pass_entry: None, notice: Some(vault_unlock_fallback_notice(protocol, message)) }
            }
        },
        UnlockOutcome::Failed(e) => if manual {
            UnlockStep::Retry(wrapped("Password vault could not be unlocked (", e.as_str(), ")."))
        } else {
            let detail = wrapped("Password auto-login is unavailable because the password vault could not be unlocked (", e.as_str(), ")");
            UnlockStep::Complete { pass_entry: None, notice: Some(vault_unlock_fallback_notice(protocol, detail.as_str())) }
        },
    }
}

/// The step when the unlock prompt is dismissed: back to the status dialog
/// if it came from there, else on with the launch without the vault (with
/// a notice, unless the vault was opened by hand).
pub open spec fn spec_cancel_step(prompt: UnlockPrompt, protocol: Option<LaunchProtocol>) -> StepModel {
    if prompt.return_to_vault_status {
        StepModel::BackToStatus(None)
    } else {
        StepModel::Complete(None, if prompt.manual { None } else { Some(spec_fallback_notice(protocol, "Password vault unlock canceled"@)) })
    }
}

/// The step when the unlock prompt is dismissed.
pub fn cancel_vault_unlock(prompt: &UnlockPrompt, protocol: &Option<LaunchProtocol>) -> (step: UnlockStep)
    ensures
        step_model(step) == spec_cancel_step(*prompt, *protocol),
{
    if prompt.return_to_vault_status {
        return UnlockStep::BackToStatus(None);
    }
    let notice = if prompt.manual { None } else { Some(vault_unlock_fallback_notice(protocol, "Password vault unlock canceled")) };
    UnlockStep::Complete { pass_entry: None, notice }
}

/// What a key on the unlock prompt does.
#[derive(Clone, Copy, Debug, PartialEq, Eq)]
pub enum UnlockKeyEffect {
    Nothing,
    Cancel,
    Submit,
    CursorLeft,
    CursorRight,
    CursorHome,
    CursorEnd,
    /// Delete before the cursor and clear the error.
    Backspace,
    /// Delete at the cursor and clear the error.
    DeleteForward,
    /// Type a character and clear the error.
    Insert(char),
}

/// A key on the unlock prompt: Esc cancels, Enter unlocks, cursor keys
/// (and Ctrl+A, Ctrl+E) move, Backspace, Delete and characters typed
/// without Control or Alt edit the password.
pub open spec fn spec_unlock_key(key: KeyInput) -> UnlockKeyEffect {
    let ctrl = key.modifiers.control;
    let alt = key.modifiers.alt;
    match key.code {
        KeyCode::Esc => UnlockKeyEffect::Cancel,
        KeyCode::Enter => UnlockKeyEffect::Submit,
        KeyCode::Left => UnlockKeyEffect::CursorLeft,
        KeyCode::Right => UnlockKeyEffect::CursorRight,
        KeyCode::Home => UnlockKeyEffect::CursorHome,
        KeyCode::End => UnlockKeyEffect::CursorEnd,
        KeyCode::Backspace => UnlockKeyEffect::Backspace,
        KeyCode::Delete => UnlockKeyEffect::DeleteForward,
        KeyCode::Char('a') if ctrl => UnlockKeyEffect::CursorHome,
        KeyCode::Char('e') if ctrl => UnlockKeyEffect::CursorEnd,
        KeyCode::Char(c) if !ctrl && !alt => UnlockKeyEffect::Insert(c),
        _ => UnlockKeyEffect::Nothing,
    }
}

/// A key on the unlock prompt.
pub fn handle_vault_unlock_key(key: KeyInput) -> (e: UnlockKeyEffect)
    ensures
        e == spec_unlock_key(key),
{
    let ctrl = key.modifiers.control;
    let alt = key.modifiers.alt;
    match key.code {
        KeyCode::Esc => UnlockKeyEffect::Cancel,
        KeyCode::Enter => UnlockKeyEffect::Submit,
        KeyCode::Left => UnlockKeyEffect::CursorLeft,
        KeyCode::Right => UnlockKeyEffect::CursorRight,
        KeyCode::Home => UnlockKeyEffect::CursorHome,
        KeyCode::End => UnlockKeyEffect::CursorEnd,
        KeyCode::Backspace => UnlockKeyEffect::Backspace,
        KeyCode::Delete => UnlockKeyEffect::DeleteForward,
        KeyCode::Char('a') if ctrl => UnlockKeyEffect::CursorHome,
        KeyCode::Char('e') if ctrl => UnlockKeyEffect::CursorEnd,
        KeyCode::Char(c) if !ctrl && !alt => UnlockKeyEffect::Insert(c),
        _ => UnlockKeyEffect::Nothing,
    }
}

/// What a key on the vault status dialog does.
#[derive(Clone, Copy, Debug, PartialEq, Eq)]
pub enum StatusKeyEffect {
    Nothing,
    Close,
    /// Open the unlock prompt, returning to this dialog afterwards.
    OpenUnlock,
    /// Tell that the vault is already locked.
    AlreadyLocked,
    /// Lock the vault.
    Lock,
}

/// A key on the status dialog: Esc and Enter close it, `v` unlocks (or
/// closes when unlocked), `l` locks (or tells that it is locked).
pub open spec fn spec_status_key(unlocked: bool, key: KeyInput) -> StatusKeyEffect {
    let typed = !key.modifiers.control && !key.modifiers.alt;
    match key.code {
        KeyCode::Esc | KeyCode::Enter => StatusKeyEffect::Close,
        KeyCode::Char('v') if typed => if unlocked { StatusKeyEffect::Close } else { StatusKeyEffect::OpenUnlock },
        KeyCode::Char('l') if typed => if unlocked { StatusKeyEffect::Lock } else { StatusKeyEffect::AlreadyLocked },
        _ => StatusKeyEffect::Nothing,
    }
}

/// A key on the vault status dialog.
pub fn handle_vault_status_modal_key(unlocked: bool, key: KeyInput) -> (e: StatusKeyEffect)
    ensures
        e == spec_status_key(unlocked, key),
{
    let typed = !key.modifiers.control && !key.modifiers.alt;
    match key.code {
        KeyCode::Esc | KeyCode::Enter => StatusKeyEffect::Close,
        KeyCode::Char('v') if typed => if unlocked { StatusKeyEffect::Close } else { StatusKeyEffect::OpenUnlock },
        KeyCode::Char('l') if typed => if unlocked { StatusKeyEffect::Lock } else { StatusKeyEffect::AlreadyLocked },
        _ => StatusKeyEffect::Nothing,
    }
}

/// What a lock request came to.
#[derive(Debug)]
pub enum LockOutcome {
    /// The agent locked the vault.
    Locked,
    /// The agent could not be reached: the vault is locked anyway.
    AgentUnreachable,
    /// Another failure; its error.
    Failed(String),
}

/// The vault state the status dialog shows after a lock request.
#[derive(Clone, Copy, Debug, PartialEq, Eq)]
pub enum StatusUpdate {
    /// Take the status the agent reported.
    Reported,
    /// Show the vault as locked.
    Locked,
    /// Leave the status as it was.
    Unchanged,
}

/// After a lock request: the status to show and the dialog's message, with
/// whether it is an error.
pub open spec fn spec_lock_result(outcome: LockOutcome) -> (StatusUpdate, Seq<char>, bool) {
    match outcome {
        LockOutcome::Locked => (StatusUpdate::Reported, "Vault locked."@, false),
        LockOutcome::AgentUnreachable => (StatusUpdate::Locked, "Vault already locked."@, false),
        LockOutcome::Failed(e) => (StatusUpdate::Unchanged, "Failed to lock vault: "@ + e@, true),
    }
}

/// The status dialog's state after a lock request.
pub fn apply_vault_status_modal_lock_result(outcome: LockOutcome) -> (r: (StatusUpdate, String, bool))
    ensures
        (r.0, r.1@, r.2) == spec_lock_result(outcome),
{
    match outcome {
        LockOutcome::Locked => (StatusUpdate::Reported, "Vault locked.".to_owned(), false),
        LockOutcome::AgentUnreachable => (StatusUpdate::Locked, "Vault already locked.".to_owned(), false),
        LockOutcome::Failed(e) => {
            let mut m = "Failed to lock vault: ".to_owned();
            push_str_chars(&mut m, e.as_str());
            (StatusUpdate::Unchanged, m, true)
        },
    }
}

} // verus!
