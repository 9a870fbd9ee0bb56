use oryxis_app::settings_security::{change_password_confirm, lock_card, logging_rows, manual_lock_options, privacy_rows, LockCard, LoggingRow, PrivacyRow};
use oryxis_app::agent_ai::{
    agent_roster, agent_snippets, ai_key_field, ai_url_field_shown, openssh_pipe_toggle_shown, AgentRoster, AgentSnippet,
    KeyFieldState, ProviderKind,
};
use oryxis_app::connection_defaults::{
    default_encoding, defaults_rows, entity_picker, group_picker, DefaultsRow, GroupRef, NamedRef,
};
use oryxis_app::settings_mcp::{
    copy_button, guide_message, install_button, mcp_config_path, mcp_path_hint, token_actions, token_display,
    vault_password_block, wsl_controls, GuideMessage, InstallStatus, McpConfigFile, StripStatus, TokenActions,
    TokenDisplay, VaultPasswordBlock,
};
use oryxis_app::settings_security::{
    log_size_cap_label, manual_lock_label_key, parse_u64, password_card, retention_label_key, retention_selected,
    sftp_backup_confirm, size_cap_selected, PasswordSection, SizeCapLabel,
};
use oryxis_app::settings_sync::{
    git_card_state, mode_for_label, selected_transport, sync_cards, sync_engine_state, sync_options_action,
    transport_config, transport_for_label, transport_label_key, transport_token_at, GitCardState, OptionsAction,
    SyncCard, Tone, TransportConfig,
};
use oryxis_app::sftp_menu::Platform;
use oryxis_app::state::SshKey;
use oryxis_app::sync_devices::{discovered_label, last_synced_line, pairing_items, DevicesCard, DiscoveredPeer, PairingItem, PairingState};
use oryxis_app::vault_transfer::{
    backup_host_index, backup_selected_host, export_keys_toggle_shown, import_dialog, CategoryRow, ImportEnter,
};
use oryxis_app::state::{Connection, ConnectionProtocol};

fn named(id: u128, label: &str) -> NamedRef {
    NamedRef { id, label: label.to_string() }
}

fn conn(id: u128, label: &str) -> Connection {
    Connection {
        id,
        label: label.to_string(),
        hostname: String::new(),
        protocol: ConnectionProtocol::Ssh,
        mac_address: None,
        cloud_ref: None,
        sftp_initial_path: None,
        tags: Vec::new(),
        identity_id: None,
    }
}

#[test]
fn entity_pickers_select_the_default_or_none() {
    let items = vec![named(1, "ops"), named(2, "dev"), named(2, "dev-dup")];
    let p = entity_picker("(none)", &items, Some(2));
    assert_eq!(p.options, vec!["(none)", "ops", "dev", "dev-dup"]);
    assert_eq!(p.selected, "dev");
    assert_eq!(entity_picker("(none)", &items, Some(9)).selected, "(none)");
    assert_eq!(entity_picker("(none)", &items, None).selected, "(none)");
    assert_eq!(entity_picker("-", &Vec::new(), None).options, vec!["-"]);
}

#[test]
fn group_picker_lists_visible_paths_but_selects_any_default() {
    let groups = vec![
        GroupRef { id: 1, path: "prod".to_string(), visible: true },
        GroupRef { id: 2, path: "prod / db".to_string(), visible: false },
        GroupRef { id: 3, path: "lab".to_string(), visible: true },
    ];
    let p = group_picker("(none)", &groups, Some(2));
    assert_eq!(p.options, vec!["(none)", "prod", "lab"]);
    assert_eq!(p.selected, "prod / db");
    assert_eq!(group_picker("(none)", &groups, Some(7)).selected, "(none)");
}

#[test]
fn connection_defaults_card_rows_and_encoding() {
    assert_eq!(defaults_rows(true, 3), vec![DefaultsRow::Header]);
    let rows = defaults_rows(false, 2);
    assert_eq!(rows.len(), 16);
    assert_eq!(rows[0], DefaultsRow::Header);
    assert_eq!(rows[12], DefaultsRow::Encoding);
    assert_eq!(rows[13], DefaultsRow::EnvHeader);
    assert_eq!(rows[14..].to_vec(), vec![DefaultsRow::EnvVar(0), DefaultsRow::EnvVar(1)]);
    assert_eq!(default_encoding(&None), "UTF-8");
    assert_eq!(default_encoding(&Some("Big5".to_string())), "Big5");
}

fn card(state: PairingState) -> DevicesCard {
    DevicesCard {
        state,
        discovered: Vec::new(),
        has_code: false,
        has_link: false,
        has_status: true,
        peers_synced: Vec::new(),
    }
}

#[test]
fn pairing_section_follows_the_pairing_state() {
    let mut idle = card(PairingState::Idle);
    idle.discovered = vec![
        DiscoveredPeer { device_id: 1, device_name: String::new(), addr: "10.0.0.2:7000".to_string() },
        DiscoveredPeer { device_id: 2, device_name: "laptop".to_string(), addr: "10.0.0.3:7000".to_string() },
    ];
    idle.peers_synced = vec![true, false];
    assert_eq!(
        pairing_items(&idle),
        vec![
            PairingItem::HostButton,
            PairingItem::JoinButton,
            PairingItem::DiscoveredHeader,
            PairingItem::Discovered { index: 0, unnamed: true },
            PairingItem::Discovered { index: 1, unnamed: false },
            PairingItem::PairedHeader,
            PairingItem::Paired { index: 0, synced: true },
            PairingItem::Paired { index: 1, synced: false },
        ]
    );
    let mut hosting = card(PairingState::Hosting);
    hosting.has_code = true;
    hosting.has_link = true;
    assert_eq!(
        pairing_items(&hosting),
        vec![
            PairingItem::ShowCodeHint,
            PairingItem::Code,
            PairingItem::LinkLabel,
            PairingItem::Link,
            PairingItem::CopyLinkButton,
            PairingItem::CancelHosting,
            PairingItem::StatusBanner,
        ]
    );
    let joining = pairing_items(&card(PairingState::Joining));
    assert_eq!(joining.first(), Some(&PairingItem::CodeInput));
    assert_eq!(joining.last(), Some(&PairingItem::StatusBanner));
    assert_eq!(joining.len(), 8);
    assert_eq!(discovered_label("", "Unnamed device"), "Unnamed device");
    assert_eq!(discovered_label("desk", "Unnamed device"), "desk");
}

#[test]
fn import_dialog_has_two_phases() {
    let first = import_dialog(&None);
    assert_eq!(first.enter, ImportEnter::Inspect);
    assert!(first.categories.is_empty());
    let second = import_dialog(&Some(vec![3, 0, 12]));
    assert_eq!(second.enter, ImportEnter::Confirm);
    assert_eq!(
        second.categories,
        vec![
            CategoryRow::Present { index: 0, count: 3 },
            CategoryRow::Absent { index: 1 },
            CategoryRow::Present { index: 2, count: 12 },
        ]
    );
    assert!(export_keys_toggle_shown(true));
    assert!(!export_keys_toggle_shown(false));
}

#[test]
fn backup_host_picker_resolves_labels_the_last_host_winning() {
    let conns = vec![conn(1, "db"), conn(2, "web"), conn(3, "db")];
    assert_eq!(backup_host_index(&conns, "db"), 2);
    assert_eq!(backup_host_index(&conns, "web"), 1);
    assert_eq!(backup_host_index(&conns, "cache"), 0);
    assert_eq!(backup_selected_host(&conns, Some(1)), Some("web".to_string()));
    assert_eq!(backup_selected_host(&conns, Some(5)), None);
    assert_eq!(backup_selected_host(&conns, None), None);
}

fn key(expose: bool) -> SshKey {
    SshKey { id: 1, label: "k".to_string(), is_security_key: false, expose_via_agent: expose, has_certificate: false }
}

#[test]
fn agent_page_counts_and_platform_rows() {
    let keys = vec![key(true), key(false), key(true)];
    assert_eq!(
        agent_roster(&keys, true, Some(0)),
        AgentRoster { vault_served: 2, external_held: Some(0), external_muted: true }
    );
    assert_eq!(
        agent_roster(&keys, false, Some(4)),
        AgentRoster { vault_served: 2, external_held: None, external_muted: false }
    );
    assert_eq!(agent_roster(&keys, true, Some(4)).external_muted, false);
    assert_eq!(agent_snippets(Platform::Windows), vec![AgentSnippet::SshConfig]);
    assert_eq!(agent_snippets(Platform::Linux), vec![AgentSnippet::SshConfig, AgentSnippet::ShellEnv]);
    assert!(openssh_pipe_toggle_shown(Platform::Windows));
    assert!(!openssh_pipe_toggle_shown(Platform::MacOs));
    assert_eq!(ai_key_field(true), KeyFieldState::Saved);
    assert_eq!(ai_key_field(false), KeyFieldState::Missing);
    assert!(ai_url_field_shown(ProviderKind::Custom));
    assert!(!ai_url_field_shown(ProviderKind::Hosted));
}

#[test]
fn mcp_panel_states() {
    assert_eq!(mcp_config_path(Platform::Linux), vec![McpConfigFile::UserScopeJson]);
    assert_eq!(
        mcp_config_path(Platform::Windows),
        vec![McpConfigFile::UserScopeJson, McpConfigFile::DesktopConfigAppData]
    );
    assert_eq!(
        mcp_config_path(Platform::MacOs),
        vec![McpConfigFile::UserScopeJson, McpConfigFile::DesktopConfigLibrary]
    );
    assert_eq!(mcp_path_hint(true, Platform::Windows), vec![McpConfigFile::WslUserScopeJson]);
    assert_eq!(mcp_path_hint(false, Platform::Windows), mcp_config_path(Platform::Windows));
    assert_eq!(token_display(true, true), TokenDisplay::Unset);
    assert_eq!(token_display(false, true), TokenDisplay::Plain);
    assert_eq!(token_display(false, false), TokenDisplay::Masked);
    assert_eq!(token_actions(true, true), TokenActions { reveal: true, copy: false, regenerate: true });
    assert_eq!(token_actions(true, false), TokenActions { reveal: false, copy: false, regenerate: true });
    assert_eq!(install_button(InstallStatus::Failed), ("mcp_install_failed", Tone::Error));
    assert_eq!(install_button(InstallStatus::Installed), ("mcp_installed", Tone::Success));
    assert_eq!(copy_button(true), ("mcp_copied", Tone::Success));
    assert_eq!(copy_button(false), ("mcp_info_copy", Tone::Accent));
    assert_eq!(vault_password_block(false, true, true, true, StripStatus::NotRun), VaultPasswordBlock::Note);
    assert_eq!(vault_password_block(true, true, true, true, StripStatus::NotRun), VaultPasswordBlock::Included);
    assert_eq!(
        vault_password_block(true, false, true, true, StripStatus::NotRun),
        VaultPasswordBlock::Prompt { wrong: true }
    );
    assert_eq!(
        vault_password_block(true, false, false, false, StripStatus::Removed),
        VaultPasswordBlock::Offer { strip: StripStatus::Removed }
    );
    assert_eq!(wsl_controls(Platform::Windows, true), (true, true));
    assert_eq!(wsl_controls(Platform::Linux, true), (false, false));
    assert_eq!(guide_message(true), GuideMessage::HideMcpInfo);
    assert_eq!(guide_message(false), GuideMessage::ShowMcpInfo);
}

#[test]
fn security_pickers_and_cards() {
    assert_eq!(parse_u64("536870912"), Some(536870912));
    assert_eq!(parse_u64("+7"), Some(7));
    assert_eq!(parse_u64("18446744073709551615"), Some(u64::MAX));
    assert_eq!(parse_u64("18446744073709551616"), None);
    assert_eq!(parse_u64(""), None);
    assert_eq!(parse_u64("+"), None);
    assert_eq!(parse_u64("-1"), None);
    assert_eq!(parse_u64("1 "), None);
    assert_eq!(log_size_cap_label("off"), SizeCapLabel::Off);
    assert_eq!(log_size_cap_label("0"), SizeCapLabel::Off);
    assert_eq!(log_size_cap_label("1073741824"), SizeCapLabel::Bytes(1073741824));
    assert_eq!(retention_selected("30d"), "30d");
    assert_eq!(retention_selected("45d"), "off");
    assert_eq!(retention_label_key("7d"), "log_retention_7d");
    assert_eq!(retention_label_key("bogus"), "log_retention_off");
    assert_eq!(size_cap_selected(Some(5368709120)), "5368709120");
    assert_eq!(size_cap_selected(Some(12)), "off");
    assert_eq!(size_cap_selected(None), "off");
    assert_eq!(password_card(false, false, false, true), (false, PasswordSection::Importance));
    assert_eq!(password_card(false, true, false, true), (true, PasswordSection::SetupForm { offer_biometric: true }));
    assert_eq!(password_card(true, false, true, false), (true, PasswordSection::RemoveConfirm));
    assert_eq!(password_card(true, false, false, false), (true, PasswordSection::Protected));
    assert_eq!(manual_lock_label_key("sleep"), "lock_vault_sleep");
    assert_eq!(manual_lock_label_key("lock"), "lock_vault");
    assert_eq!(manual_lock_label_key("ask"), "manual_lock_ask");
    let b = sftp_backup_confirm(true, true);
    assert!(!b.enabled);
    assert_eq!(b.label_key, "sftp_backup_working");
    assert_eq!(sftp_backup_confirm(false, true).label_key, "sftp_backup_restore_confirm");
    assert_eq!(sftp_backup_confirm(false, false).label_key, "sftp_backup_confirm");
}

#[test]
fn sync_transport_mode_and_cards() {
    assert_eq!(transport_token_at(3), "git");
    assert_eq!(transport_label_key(4), "sync_transport_webdav");
    assert_eq!(selected_transport("folder"), 2);
    assert_eq!(selected_transport("carrier-pigeon"), 0);
    let labels: Vec<String> = ["P2P", "SFTP", "Folder", "Git", "WebDAV"].iter().map(|s| s.to_string()).collect();
    assert_eq!(transport_for_label(&labels, "Git"), "git");
    assert_eq!(transport_for_label(&labels, "Nope"), "p2p");
    assert_eq!(mode_for_label("Automatique", "Automatique"), "auto");
    assert_eq!(mode_for_label("Auto", "Automatique"), "auto");
    assert_eq!(mode_for_label("Manuel", "Automatique"), "manual");
    assert_eq!(transport_config("git", true), Some(TransportConfig::Sftp));
    assert_eq!(transport_config("webdav", false), Some(TransportConfig::Webdav));
    assert_eq!(transport_config("p2p", false), None);
    assert_eq!(sync_engine_state(false, true, "sftp", false), ("sftp_sync_active_label", Tone::Success));
    assert_eq!(sync_engine_state(false, true, "git", false), ("snapshot_sync_active_label", Tone::Success));
    assert_eq!(sync_engine_state(true, true, "p2p", true), ("sync_engine_running_label", Tone::Success));
    assert_eq!(sync_engine_state(true, true, "p2p", false), ("sync_engine_stopped_label", Tone::Muted));
    assert_eq!(sync_options_action("auto", true, false, false, false), None);
    assert_eq!(sync_options_action("manual", true, false, true, false), Some(OptionsAction::SftpRunning));
    assert_eq!(sync_options_action("manual", false, true, false, true), Some(OptionsAction::P2pCancel));
    assert_eq!(sync_options_action("manual", false, false, false, false), None);
    assert_eq!(git_card_state(false, None), GitCardState { sync_enabled: false, warn_no_git: false });
    assert_eq!(git_card_state(false, Some(false)), GitCardState { sync_enabled: false, warn_no_git: true });
    assert_eq!(git_card_state(false, Some(true)), GitCardState { sync_enabled: true, warn_no_git: false });
    assert_eq!(git_card_state(true, Some(true)).sync_enabled, false);
    assert_eq!(sync_cards(false, true), vec![SyncCard::EngineState, SyncCard::HowItWorks]);
    assert_eq!(
        sync_cards(true, true),
        vec![
            SyncCard::EngineState,
            SyncCard::HowItWorks,
            SyncCard::Transport,
            SyncCard::Options,
            SyncCard::Devices,
            SyncCard::Advanced,
        ]
    );
}

#[test]
fn security_lock_privacy_and_logging_cards() {
    assert_eq!(
        lock_card(false, true, true),
        LockCard { biometric: false, lock_buttons: false, change_form: false, manual_action: false, auto_lock_field: false }
    );
    assert_eq!(
        lock_card(true, true, true),
        LockCard { biometric: true, lock_buttons: true, change_form: true, manual_action: true, auto_lock_field: true }
    );
    assert!(!lock_card(true, false, false).change_form);
    let c = change_password_confirm(true);
    assert!(!c.enabled);
    assert_eq!(c.label_key, "kdf_calibrating");
    assert_eq!(change_password_confirm(false).label_key, "update_password");
    assert_eq!(manual_lock_options(), vec!["ask", "sleep", "lock"]);
    assert_eq!(privacy_rows(false), vec![PrivacyRow::Mode]);
    assert_eq!(privacy_rows(true).len(), 7);
    assert_eq!(
        logging_rows(false, true),
        vec![LoggingRow::SessionLogging, LoggingRow::ConnectionHistory, LoggingRow::Retention, LoggingRow::SizeCap]
    );
    assert_eq!(
        logging_rows(true, true),
        vec![
            LoggingRow::SessionLogging,
            LoggingRow::FullRecording,
            LoggingRow::Compress,
            LoggingRow::PlainTextFile,
            LoggingRow::FileFolder,
            LoggingRow::ConnectionHistory,
            LoggingRow::Retention,
            LoggingRow::SizeCap,
        ]
    );
    assert!(!logging_rows(true, false).contains(&LoggingRow::FileFolder));
}

#[test]
fn last_sync_line_falls_back_to_never() {
    // Unix time 0 seen one hour east of UTC.
    assert_eq!(last_synced_line(Some(0), 3600, "never"), "1970-01-01 01:00");
    // 2024-02-29 23:59:00 UTC, five hours west.
    assert_eq!(last_synced_line(Some(1_709_251_140), -18_000, "never"), "2024-02-29 18:59");
    // Half an hour east moves it past midnight.
    assert_eq!(last_synced_line(Some(1_709_251_140), 1_800, "never"), "2024-03-01 00:29");
    assert_eq!(last_synced_line(None, 3600, "never"), "never");
    // An offset of a whole day is no offset chrono accepts.
    assert_eq!(last_synced_line(Some(0), 86_400, "never"), "never");
}
