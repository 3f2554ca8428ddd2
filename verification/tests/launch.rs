use color_ssh::launch_policy::{
    connect_command_args, session_command_args, initial_pty_size, pty_resize_target, quick_connect_rdp_resolution, unlock_resolution, next_tab_title, resolve_host_pass_finish, resolve_host_pass_start, should_open_rdp_credentials_modal,
    PassOutcome, PassStep, VaultQuery,
};
use color_ssh::rdp_prompt::PassResolution;
use color_ssh::vault_prompt::LaunchProtocol;

fn notice_of(outcome: PassOutcome) -> Option<String> {
    match outcome {
        PassOutcome::Resolved(r) => r.pass_fallback_notice,
        PassOutcome::Unlock(_) => None,
    }
}

#[test]
fn login_without_the_vault() {
    match resolve_host_pass_start(&LaunchProtocol::Ssh, false, Some("web")) {
        PassStep::Done(r) => assert!(r.disable_vault_autologin && r.pass_fallback_notice.is_none()),
        PassStep::QueryVault(_) => panic!("auto-login is off"),
    }
    match resolve_host_pass_start(&LaunchProtocol::Other("vnc".to_string()), true, None) {
        PassStep::Done(r) => {
            assert!(!r.disable_vault_autologin);
            assert_eq!(r.pass_fallback_notice.as_deref(), Some("Protocol 'vnc' is not supported for launch."));
        }
        PassStep::QueryVault(_) => panic!("no vault entry"),
    }
    assert!(matches!(resolve_host_pass_start(&LaunchProtocol::Rdp, true, Some("web")), PassStep::QueryVault(ref e) if e == "web"));
}

#[test]
fn login_after_asking_the_vault() {
    match resolve_host_pass_finish(&LaunchProtocol::Ssh, "web", VaultQuery::Entry { exists: true, unlocked: true }) {
        PassOutcome::Resolved(r) => {
            assert_eq!(r.pass_entry_override.as_deref(), Some("web"));
            assert!(!r.disable_vault_autologin);
        }
        PassOutcome::Unlock(_) => panic!("the vault is open"),
    }
    assert!(matches!(
        resolve_host_pass_finish(&LaunchProtocol::Ssh, "web", VaultQuery::Entry { exists: true, unlocked: false }),
        PassOutcome::Unlock(ref e) if e == "web"
    ));
    assert_eq!(
        notice_of(resolve_host_pass_finish(&LaunchProtocol::Rdp, "web", VaultQuery::Entry { exists: false, unlocked: true })),
        Some("Password auto-login is unavailable because vault entry 'web' was not found; continuing with the FreeRDP password prompt.".to_string())
    );
    assert_eq!(
        notice_of(resolve_host_pass_finish(&LaunchProtocol::Ssh, "web", VaultQuery::NotInitialized)),
        Some("Password vault is not initialized. Run `cossh vault init` or `cossh vault add <name>` first.".to_string())
    );
    assert_eq!(
        notice_of(resolve_host_pass_finish(&LaunchProtocol::Rdp, "web", VaultQuery::NotInitialized)),
        Some("the password vault is not initialized. Run `cossh vault init` or `cossh vault add <name>` first; continuing with the FreeRDP password prompt.".to_string())
    );
    assert_eq!(
        notice_of(resolve_host_pass_finish(&LaunchProtocol::Ssh, "web", VaultQuery::Failed("boom".to_string()))),
        Some("Password auto-login is unavailable because the password vault could not be queried (boom); continuing with the standard SSH password prompt.".to_string())
    );
}

fn resolution(entry: Option<&str>) -> PassResolution {
    PassResolution {
        pass_entry_override: entry.map(|e| e.to_string()),
        pass_fallback_notice: None,
        disable_vault_autologin: false,
        manual_rdp_password: None,
    }
}

#[test]
fn rdp_credentials_are_asked_when_missing() {
    assert!(!should_open_rdp_credentials_modal(&LaunchProtocol::Rdp, Some("admin"), &resolution(Some("web"))));
    assert!(should_open_rdp_credentials_modal(&LaunchProtocol::Rdp, Some("  "), &resolution(Some("web"))));
    assert!(should_open_rdp_credentials_modal(&LaunchProtocol::Rdp, None, &resolution(Some("web"))));
    assert!(should_open_rdp_credentials_modal(&LaunchProtocol::Rdp, Some("admin"), &resolution(None)));
    assert!(!should_open_rdp_credentials_modal(&LaunchProtocol::Ssh, None, &resolution(None)));
}

#[test]
fn tab_titles_count_open_tabs_of_a_host() {
    let tabs = vec!["web".to_string(), "db".to_string(), "web".to_string()];
    assert_eq!(next_tab_title(&tabs, "web"), "web_2");
    assert_eq!(next_tab_title(&tabs, "db"), "db_1");
    assert_eq!(next_tab_title(&tabs, "cache"), "cache");
    assert_eq!(initial_pty_size(0, 80), (1, 80));
}

#[test]
fn pty_resizes_only_when_size_changes() {
    assert_eq!(pty_resize_target(None, 24, 80), Some((24, 80)));
    assert_eq!(pty_resize_target(Some((24, 80)), 24, 80), None);
    assert_eq!(pty_resize_target(Some((24, 80)), 0, 80), Some((1, 80)));
    assert_eq!(pty_resize_target(Some((1, 1)), 0, 0), None);
}

#[test]
fn unlock_and_quick_connect_resolutions() {
    let r = unlock_resolution(Some("hosts/web".to_string()), None);
    assert_eq!(r.pass_entry_override.as_deref(), Some("hosts/web"));
    assert!(!r.disable_vault_autologin);
    assert!(r.manual_rdp_password.is_none());
    let r = unlock_resolution(None, Some("vault locked".to_string()));
    assert!(r.disable_vault_autologin);
    assert_eq!(r.pass_fallback_notice.as_deref(), Some("vault locked"));
    let r = quick_connect_rdp_resolution(Some("pw".to_string()));
    assert!(r.disable_vault_autologin);
    assert!(r.pass_entry_override.is_none() && r.pass_fallback_notice.is_none());
    assert_eq!(r.manual_rdp_password.as_deref(), Some("pw"));
}

#[test]
fn connect_command_arguments() {
    assert_eq!(connect_command_args(false, None, "web"), vec!["web".to_string()]);
    assert_eq!(
        connect_command_args(true, Some("network"), "admin@fw"),
        vec!["-l".to_string(), "-P".to_string(), "network".to_string(), "admin@fw".to_string()]
    );
    assert_eq!(connect_command_args(false, Some("lab"), "pi"), vec!["-P".to_string(), "lab".to_string(), "pi".to_string()]);
}

#[test]
fn session_command_arguments() {
    assert_eq!(session_command_args(false, None, None, "web"), vec!["ssh".to_string(), "web".to_string()]);
    assert_eq!(
        session_command_args(true, Some("hosts/web"), Some("net"), "web"),
        vec!["-l", "--pass-entry", "hosts/web", "-P", "net", "ssh", "web"].into_iter().map(String::from).collect::<Vec<_>>()
    );
}
