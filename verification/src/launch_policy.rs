//! Decisions taken when a host tab is opened: how the session will log in
//! (vault auto-login, a password prompt, or the RDP credentials prompt),
//! and the new tab's title.
use vstd::prelude::*;
use crate::rdp_prompt::PassResolution;
use crate::text_edit::text_equal;
use crate::text_format::{digits, push_decimal_text, push_str_chars, trim, trim_text};
use crate::text_edit::char_len;
use crate::vault_prompt::{LaunchProtocol, spec_fallback_notice, vault_unlock_fallback_notice, not_initialized_notice};

verus! {

/// The login as values: entry override, notice, auto-login off, typed
/// RDP password.
pub type ResolutionModel = (Option<Seq<char>>, Option<Seq<char>>, bool, Option<Seq<char>>);

pub open spec fn opt_chars(o: Option<String>) -> Option<Seq<char>> {
    match o {
        Some(s) => Some(s@),
        None => None,
    }
}

pub open spec fn resolution_model(r: PassResolution) -> ResolutionModel {
    (opt_chars(r.pass_entry_override), opt_chars(r.pass_fallback_notice), r.disable_vault_autologin, opt_chars(r.manual_rdp_password))
}

/// `Protocol '<name>' is not supported for launch.`
pub open spec fn unsupported_notice(name: Seq<char>) -> Seq<char> {
    "Protocol '"@ + name + "' is not supported for launch."@
}

fn unsupported(name: &str) -> (s: String)
    ensures
        s@ == unsupported_notice(name@),
{
    let mut s = "Protocol '".to_owned();
    push_str_chars(&mut s, name);
    push_str_chars(&mut s, "' is not supported for launch.");
    s
}

/// What to do first: log in without the vault, or ask the vault agent
/// about the host's entry.
#[derive(Debug)]
pub enum PassStep {
    Done(PassResolution),
    /// Ask the vault agent about this entry.
    QueryVault(String),
}

/// The login of a host launched with the protocol `protocol`, when vault
/// auto-login is `autologin` and the host names the vault entry
/// `vault_pass`: without auto-login or an entry, the vault is left out
/// (auto-login marked off only when it is disabled), with a notice for a
/// protocol that cannot be launched; otherwise the agent is asked.
pub open spec fn spec_start_pass(protocol: LaunchProtocol, autologin: bool, vault_pass: Option<Seq<char>>) -> Option<ResolutionModel> {
    if autologin && vault_pass is Some {
        None
    } else {
        Some((None, match protocol {
            LaunchProtocol::Other(p) => Some(unsupported_notice(p@)),
            _ => None,
        }, !autologin, None))
    }
}

/// The first step of working out how a host logs in.
pub fn resolve_host_pass_start(protocol: &LaunchProtocol, autologin: bool, vault_pass: Option<&str>) -> (step: PassStep)
    ensures
        match step {
            PassStep::Done(r) => spec_start_pass(*protocol, autologin, opt_str(vault_pass)) == Some(resolution_model(r)),
            PassStep::QueryVault(e) => spec_start_pass(*protocol, autologin, opt_str(vault_pass)) is None
                && opt_str(vault_pass) == Some(e@),
        },
{
    if autologin {
        if let Some(entry) = vault_pass {
            return PassStep::QueryVault(entry.to_owned());
        }
    }
    let notice = match protocol {
        LaunchProtocol::Other(p) => Some(unsupported(p.as_str())),
        _ => None,
    };
    PassStep::Done(PassResolution {
        pass_entry_override: None,
        pass_fallback_notice: notice,
        disable_vault_autologin: !autologin,
        manual_rdp_password: None,
    })
}

pub open spec fn opt_str(o: Option<&str>) -> Option<Seq<char>> {
    match o {
        Some(s) => Some(s@),
        None => None,
    }
}

/// What the vault agent said about the host's entry.
#[derive(Debug)]
pub enum VaultQuery {
    /// The agent could not be started; its error.
    AgentUnavailable(String),
    Entry { exists: bool, unlocked: bool },
    NotInitialized,
    /// Any other failure; its error.
    Failed(String),
}

/// After asking the agent.
#[derive(Debug)]
pub enum PassOutcome {
    Resolved(PassResolution),
    /// Open the unlock prompt for this entry.
    Unlock(String),
}

/// The login once the agent answered about `entry`: an existing entry of
/// an unlocked vault is used; a locked vault asks to be unlocked;
/// otherwise the launch goes on without the vault, with a notice.
pub open spec fn spec_finish_pass(protocol: LaunchProtocol, entry: Seq<char>, query: VaultQuery) -> Result<ResolutionModel, Seq<char>> {
    match query {
        VaultQuery::AgentUnavailable(e) => Ok((None, Some(spec_fallback_notice(Some(protocol),
            "Password auto-login is unavailable because the password vault agent could not be started ("@ + e@ + ")"@)), true, None)),
        VaultQuery::Entry { exists, unlocked } => if exists && unlocked {
            Ok((Some(entry), None, false, None))
        } else if !exists {
            Ok((None, Some(spec_fallback_notice(Some(protocol),
                "Password auto-login is unavailable because vault entry '"@ + entry + "' was not found"@)), true, None))
        } else {
            Err(entry)
        },
        VaultQuery::NotInitialized => Ok((None, Some(match protocol {
            LaunchProtocol::Ssh => not_initialized_notice(),
            LaunchProtocol::Rdp => spec_fallback_notice(Some(protocol),
                "the password vault is not initialized. Run `cossh vault init` or `cossh vault add <name>` first"@),
            LaunchProtocol::Other(p) => unsupported_notice(p@),
        }), true, None)),
        VaultQuery::Failed(e) => Ok((None, Some(spec_fallback_notice(Some(protocol),
            "Password auto-login is unavailable because the password vault could not be queried ("@ + e@ + ")"@)), true, None)),
    }
}

fn notice_resolution(notice: String) -> (r: PassResolution)
    ensures
        resolution_model(r) == (None::<Seq<char>>, Some(notice@), true, None::<Seq<char>>),
{
    PassResolution { pass_entry_override: None, pass_fallback_notice: Some(notice), disable_vault_autologin: true, manual_rdp_password: None }
}

fn detail_with(prefix: &str, middle: &str, suffix: &str) -> (s: String)
    ensures
        s@ == prefix@ + middle@ + suffix@,
{
    let mut s = prefix.to_owned();
    push_str_chars(&mut s, middle);
    push_str_chars(&mut s, suffix);
    s
}

/// The login of a host once the vault agent answered about its entry.
pub fn resolve_host_pass_finish(protocol: &LaunchProtocol, entry: &str, query: VaultQuery) -> (r: PassOutcome)
    ensures
        match r {
            PassOutcome::Resolved(res) => spec_finish_pass(*protocol, entry@, query) == Ok::<ResolutionModel, Seq<char>>(resolution_model(res)),
            PassOutcome::Unlock(e) => spec_finish_pass(*protocol, entry@, query) == Err::<ResolutionModel, Seq<char>>(e@),
        },
{
    match query {
        VaultQuery::AgentUnavailable(e) => {
            let detail = detail_with("Password auto-login is unavailable because the password vault agent could not be started (", e.as_str(), ")");
            PassOutcome::Resolved(notice_resolution(notice_for(protocol, detail.as_str())))
        },
        VaultQuery::Entry { exists, unlocked } => {
            if exists && unlocked {
                PassOutcome::Resolved(PassResolution {
                    pass_entry_override: Some(entry.to_owned()),
                    pass_fallback_notice: None,
                    disable_vault_autologin: false,
                    manual_rdp_password: None,
                })
            } else if !exists {
                let detail = detail_with("Password auto-login is unavailable because vault entry '", entry, "' was not found");
                PassOutcome::Resolved(notice_resolution(notice_for(protocol, detail.as_str())))
            } else {
                PassOutcome::Unlock(entry.to_owned())
            }
        },
        VaultQuery::NotInitialized => {
            let notice = match protocol {
                LaunchProtocol::Ssh => "Password vault is not initialized. Run `cossh vault init` or `cossh vault add <name>` first.".to_owned(),
                LaunchProtocol::Rdp => notice_for(
                    protocol,
                    "the password vault is not initialized. Run `cossh vault init` or `cossh vault add <name>` first",
                ),
                LaunchProtocol::Other(p) => unsupported(p.as_str()),
            };
            PassOutcome::Resolved(notice_resolution(notice))
        },
        VaultQuery::Failed(e) => {
            let detail = detail_with("Password auto-login is unavailable because the password vault could not be queried (", e.as_str(), ")");
            PassOutcome::Resolved(notice_resolution(notice_for(protocol, detail.as_str())))
        },
    }
}

/// The auto-login notice for a launch with `protocol`.
fn notice_for(protocol: &LaunchProtocol, detail: &str) -> (s: String)
    ensures
        s@ == spec_fallback_notice(Some(*protocol), detail@),
{
    let s = match protocol {
        LaunchProtocol::Ssh => vault_unlock_fallback_notice(&None, detail),
        LaunchProtocol::Rdp => {
            let mut t = detail.to_owned();
            push_str_chars(&mut t, "; continuing with the FreeRDP password prompt.");
            t
        },
        LaunchProtocol::Other(p) => {
            let mut t = detail.to_owned();
            push_str_chars(&mut t, "; protocol '");
            push_str_chars(&mut t, p.as_str());
            push_str_chars(&mut t, "' is not supported for launch.");
            t
        },
    };
    s
}

/// An RDP launch asks for credentials first when the host has no user
/// name (or a blank one) or no vault entry will supply the password.
pub open spec fn spec_needs_rdp_prompt(protocol: LaunchProtocol, user: Option<Seq<char>>, has_entry: bool) -> bool {
    protocol is Rdp && (match user { Some(u) => trim(u).len() == 0, None => true } || !has_entry)
}

/// Whether an RDP launch asks for credentials first.
pub fn should_open_rdp_credentials_modal(protocol: &LaunchProtocol, user: Option<&str>, resolution: &PassResolution) -> (r: bool)
    ensures
        r == spec_needs_rdp_prompt(*protocol, opt_str(user), resolution.pass_entry_override is Some),
{
    match protocol {
        LaunchProtocol::Rdp => {
            let blank_user = match user {
                Some(u) => char_len(trim_text(u).as_str()) == 0,
                None => true,
            };
            blank_user || resolution.pass_entry_override.is_none()
        },
        _ => false,
    }
}

/// How many of `names` equal `name`.
pub open spec fn count_named(names: Seq<Seq<char>>, name: Seq<char>) -> nat
    decreases names.len(),
{
    if names.len() == 0 {
        0
    } else {
        count_named(names.drop_last(), name) + if names.last() == name { 1nat } else { 0 }
    }
}

/// The title of a new tab for the host `name`, with `tab_hosts` the hosts
/// of the open tabs: the name, or the name, `_` and how many tabs already
/// show that host.
pub open spec fn spec_next_tab_title(tab_hosts: Seq<Seq<char>>, name: Seq<char>) -> Seq<char> {
    let n = count_named(tab_hosts, name);
    if n == 0 { name } else { name + seq!['_'] + digits(n) }
}

/// The title of a new tab for the host `name`.
pub fn next_tab_title(tab_hosts: &Vec<String>, name: &str) -> (t: String)
    ensures
        t@ == spec_next_tab_title(tab_hosts@.map_values(|s: String| s@), name@),
{
    let ghost views = tab_hosts@.map_values(|s: String| s@);
    let mut count: usize = 0;
    let mut i: usize = 0;
    while i < tab_hosts.len()
        invariant
            i <= tab_hosts@.len(),
            views == tab_hosts@.map_values(|s: String| s@),
            count == count_named(views.subrange(0, i as int), name@),
            count <= i,
        decreases tab_hosts.len() - i,
    {
        assert(views.subrange(0, i + 1).drop_last() =~= views.subrange(0, i as int));
        if text_equal(tab_hosts[i].as_str(), name) {
            count += 1;
        }
        i += 1;
    }
    assert(views.subrange(0, views.len() as int) =~= views);
    let mut t = name.to_owned();
    if count > 0 {
        crate::text_edit::string_push(&mut t, '_');
        push_decimal_text(&mut t, count as u64);
    }
    t
}

/// The size of a new terminal: the tab's content area, at least one row
/// and one column.
pub fn initial_pty_size(height: u16, width: u16) -> (r: (u16, u16))
    ensures
        r == initial_pty_size_spec(height, width),
{
    (if height >= 1 { height } else { 1 }, if width >= 1 { width } else { 1 })
}

/// The size to resize a session's PTY to for a content area of
/// `height` x `width`, or `None` where the PTY already has that size.
pub fn pty_resize_target(last_size: Option<(u16, u16)>, height: u16, width: u16) -> (r: Option<(u16, u16)>)
    ensures
        r == (if last_size == Some(initial_pty_size_spec(height, width)) { None } else { Some(initial_pty_size_spec(height, width)) }),
{
    let size = initial_pty_size(height, width);
    match last_size {
        Some(last) => {
            if last.0 == size.0 && last.1 == size.1 {
                None
            } else {
                Some(size)
            }
        },
        None => Some(size),
    }
}

/// A terminal size of at least one row and one column.
pub open spec fn initial_pty_size_spec(height: u16, width: u16) -> (u16, u16) {
    ((if height >= 1 { height } else { 1 }), (if width >= 1 { width } else { 1 }))
}

/// The login of a launch that waited for the vault to unlock: the entry
/// found (if any) and the notice (if any) as the unlock left them; vault
/// auto-login is off exactly when there is a notice.
pub fn unlock_resolution(pass_entry_override: Option<String>, pass_fallback_notice: Option<String>) -> (r: PassResolution)
    ensures
        resolution_model(r) == (opt_chars(pass_entry_override), opt_chars(pass_fallback_notice),
            pass_fallback_notice is Some, None::<Seq<char>>),
{
    let disable_vault_autologin = pass_fallback_notice.is_some();
    PassResolution { pass_entry_override, pass_fallback_notice, disable_vault_autologin, manual_rdp_password: None }
}

/// The login of an RDP launch from the quick-connect form: no vault, and
/// the password typed there, if any.
pub fn quick_connect_rdp_resolution(manual_rdp_password: Option<String>) -> (r: PassResolution)
    ensures
        resolution_model(r) == (None::<Seq<char>>, None::<Seq<char>>, true, opt_chars(manual_rdp_password)),
{
    PassResolution { pass_entry_override: None, pass_fallback_notice: None, disable_vault_autologin: true, manual_rdp_password }
}

/// The arguments of the `cossh` command run for a host picked in the
/// session manager: `-l` when session logging is forced, `-P` and the
/// profile when there is one, then the target.
pub open spec fn spec_connect_args(force_ssh_logging: bool, profile: Option<Seq<char>>, target: Seq<char>) -> Seq<Seq<char>> {
    (if force_ssh_logging { seq!["-l"@] } else { seq![] })
        + (match profile { Some(p) => seq!["-P"@, p], None => seq![] })
        + seq![target]
}

/// The arguments of the `cossh` command for a host picked in the manager.
pub fn connect_command_args(force_ssh_logging: bool, profile: Option<&str>, target: &str) -> (args: Vec<String>)
    ensures
        args@.map_values(|a: String| a@) == spec_connect_args(force_ssh_logging, opt_str(profile), target@),
{
    let mut args: Vec<String> = Vec::new();
    if force_ssh_logging {
        args.push("-l".to_owned());
    }
    let ghost after_log = args@;
    match profile {
        Some(p) => {
            args.push("-P".to_owned());
            args.push(p.to_owned());
        },
        None => {},
    }
    let ghost after_profile = args@;
    args.push(target.to_owned());
    proof {
        let log_part: Seq<Seq<char>> = if force_ssh_logging { seq!["-l"@] } else { seq![] };
        let profile_part: Seq<Seq<char>> = match opt_str(profile) { Some(p) => seq!["-P"@, p], None => seq![] };
        assert(after_log.map_values(|a: String| a@) =~= log_part);
        assert(after_profile.map_values(|a: String| a@) =~= log_part + profile_part);
        assert(args@.map_values(|a: String| a@) =~= log_part + profile_part + seq![target@]);
    }
    args
}

/// The arguments of the `cossh` command a session tab runs in its PTY:
/// `-l` when session logging is forced, `--pass-entry` and the vault entry
/// when one is used, `-P` and the host's profile when it has one, then
/// `ssh` and the host's name.
pub open spec fn spec_session_args(force_ssh_logging: bool, pass_entry: Option<Seq<char>>, profile: Option<Seq<char>>, host_name: Seq<char>) -> Seq<Seq<char>> {
    (if force_ssh_logging { seq!["-l"@] } else { seq![] })
        + (match pass_entry { Some(e) => seq!["--pass-entry"@, e], None => seq![] })
        + (match profile { Some(p) => seq!["-P"@, p], None => seq![] })
        + seq!["ssh"@, host_name]
}

/// The arguments of the `cossh` command of a session tab.
pub fn session_command_args(force_ssh_logging: bool, pass_entry: Option<&str>, profile: Option<&str>, host_name: &str) -> (args: Vec<String>)
    ensures
        args@.map_values(|a: String| a@) == spec_session_args(force_ssh_logging, opt_str(pass_entry), opt_str(profile), host_name@),
{
    let mut args: Vec<String> = Vec::new();
    if force_ssh_logging {
        args.push("-l".to_owned());
    }
    let ghost after_log = args@;
    match pass_entry {
        Some(e) => {
            args.push("--pass-entry".to_owned());
            args.push(e.to_owned());
        },
        None => {},
    }
    let ghost after_entry = args@;
    match profile {
        Some(p) => {
            args.push("-P".to_owned());
            args.push(p.to_owned());
        },
        None => {},
    }
    let ghost after_profile = args@;
    args.push("ssh".to_owned());
    args.push(host_name.to_owned());
    proof {
        let log_part: Seq<Seq<char>> = if force_ssh_logging { seq!["-l"@] } else { seq![] };
        let entry_part: Seq<Seq<char>> = match opt_str(pass_entry) { Some(e) => seq!["--pass-entry"@, e], None => seq![] };
        let profile_part: Seq<Seq<char>> = match opt_str(profile) { Some(p) => seq!["-P"@, p], None => seq![] };
        assert(after_log.map_values(|a: String| a@) =~= log_part);
        assert(after_entry.map_values(|a: String| a@) =~= log_part + entry_part);
        assert(after_profile.map_values(|a: String| a@) =~= log_part + entry_part + profile_part);
        assert(args@.map_values(|a: String| a@) =~= log_part + entry_part + profile_part + seq!["ssh"@, host_name@]);
    }
    args
}

} // verus!
