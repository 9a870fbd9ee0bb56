use std::collections::HashSet;
use oryxis_app::port_forwards::{forward_status, ForwardAction, ForwardStatus, ToggleLabel};
use oryxis_app::settings_sync::Tone;
use oryxis_app::sftp_menu::path_history_menu;
use oryxis_app::snippets::{command_preview, install_marker, install_ran_line, installed_here_line, snippet_row, snippet_row_keys, snippets_no_matches, InstallMarker, SnippetAction, SnippetHover, SnippetRowKeys};
use oryxis_app::sftp_menu::{drive_rows, pane_actions_menu, ColumnToggle, DriveRow, SftpColumn, SftpColumns, SftpMenuEntry, SftpPaneSide};
use oryxis_app::drives::{is_windows_disk_path, list_windows_drives_cached, DriveCache};
use oryxis_app::host_picker::{sync_host_picker_rows, HostPickerTarget, PickerMessage};
use oryxis_app::port_forwards::{
    filter_port_forwards, forward_host_for_label, forward_panel, forward_summary, ForwardKind, PortForwardRule,
};
use oryxis_app::sftp_menu::Platform;
use oryxis_app::snippets::{eq_ignore_ascii, filter_snippets, snippet_rows, Snippet};
use oryxis_app::state::{Connection, ConnectionProtocol, Oryxis};

fn conn(id: u128, label: &str, hostname: &str) -> Connection {
    Connection {
        id,
        label: label.to_string(),
        hostname: hostname.to_string(),
        protocol: ConnectionProtocol::Ssh,
        mac_address: None,
        cloud_ref: None,
        sftp_initial_path: None,
        tags: Vec::new(),
        identity_id: None,
    }
}

fn rule(id: u128, label: &str, kind: ForwardKind, host_id: u128) -> PortForwardRule {
    PortForwardRule {
        id,
        label: label.to_string(),
        kind,
        listen_host: "127.0.0.1".to_string(),
        listen_port: 5432,
        target_host: "db.internal".to_string(),
        target_port: 5432,
        host_id,
    }
}

#[test]
fn forward_summaries_by_direction() {
    assert_eq!(forward_summary(&rule(1, "pg", ForwardKind::Local, 1)), "127.0.0.1:5432 \u{2192} db.internal:5432");
    assert_eq!(forward_summary(&rule(1, "pg", ForwardKind::Remote, 1)), "127.0.0.1:5432 \u{2190} db.internal:5432");
    assert_eq!(forward_summary(&rule(1, "socks", ForwardKind::Dynamic, 1)), "SOCKS5 127.0.0.1:5432");
}

#[test]
fn forward_search_matches_label_summary_and_host() {
    let conns = vec![conn(1, "Bastion", "b.example")];
    let rules = vec![
        rule(1, "Postgres", ForwardKind::Local, 1),
        rule(2, "socks", ForwardKind::Dynamic, 7),
    ];
    assert_eq!(filter_port_forwards(&conns, &rules, "POST", "Unknown host"), vec![0]);
    assert_eq!(filter_port_forwards(&conns, &rules, "bastion", "Unknown host"), vec![0]);
    assert_eq!(filter_port_forwards(&conns, &rules, "unknown", "Unknown host"), vec![1]);
    assert_eq!(filter_port_forwards(&conns, &rules, "db.internal", "Unknown host"), vec![0]);
    assert_eq!(filter_port_forwards(&conns, &rules, "", "Unknown host"), vec![0, 1]);
}

#[test]
fn forward_editor_warns_about_exposed_binds() {
    let rules = vec![rule(4, "a", ForwardKind::Local, 1), rule(8, "b", ForwardKind::Local, 1)];
    let p = forward_panel(ForwardKind::Dynamic, " 0.0.0.0 ", true, Some(8), &rules);
    assert_eq!(p.title_key, "edit_port_forward");
    assert!(!p.target_fields && !p.gateway_hint && p.open_proxy_warning && p.auto_start_hint);
    assert_eq!(p.delete_index, Some(1));
    let q = forward_panel(ForwardKind::Dynamic, "[::1]", false, None, &rules);
    assert_eq!(q.title_key, "new_port_forward");
    assert!(!q.open_proxy_warning && q.delete_index.is_none() && !q.auto_start_hint);
    let r = forward_panel(ForwardKind::Remote, "0.0.0.0", false, Some(99), &rules);
    assert!(r.target_fields && r.gateway_hint && !r.open_proxy_warning);
    assert_eq!(r.delete_index, None);
    assert!(!forward_panel(ForwardKind::Dynamic, "", false, None, &rules).open_proxy_warning);
    assert!(forward_panel(ForwardKind::Dynamic, "192.168.1.4", false, None, &rules).open_proxy_warning);
}

#[test]
fn forward_host_picker_resolves_labels() {
    let conns = vec![conn(1, "db", ""), conn(2, "db", ""), conn(3, "web", "")];
    assert_eq!(forward_host_for_label(&conns, "db"), 2);
    assert_eq!(forward_host_for_label(&conns, "web"), 3);
    assert_eq!(forward_host_for_label(&conns, "none"), 0);
}

fn app(conns: Vec<Connection>, search: &str) -> Oryxis {
    Oryxis {
        connections: conns,
        session_logs: Vec::new(),
        chat_conversations: Vec::new(),
        keys: Vec::new(),
        plugins: Vec::new(),
        remote_desktop_forwards: HashSet::new(),
        session_log_full: false,
        sftp_enabled: false,
        agent_enabled: false,
        sftp_sync_picker_search: search.to_string(),
        relay_deploy_picker_search: "10.0".to_string(),
        sftp_left_host_label: None,
        sftp_right_host_label: None,
    }
}

#[test]
fn host_picker_search_and_messages() {
    let a = app(vec![conn(1, "Prod", "10.0.0.1"), conn(2, "lab", "lab.local"), conn(3, "backup", "10.0.0.9")], "PRO");
    assert_eq!(HostPickerTarget::SftpSync.search(&a), "PRO");
    assert_eq!(HostPickerTarget::RelayDeploy.search(&a), "10.0");
    assert_eq!(sync_host_picker_rows(&a, HostPickerTarget::SftpSync), vec![0]);
    assert_eq!(sync_host_picker_rows(&a, HostPickerTarget::RelayDeploy), vec![0, 2]);
    assert_eq!(sync_host_picker_rows(&app(a.connections.clone(), ""), HostPickerTarget::SftpSync), vec![0, 1, 2]);
    assert_eq!(HostPickerTarget::SftpSync.pick(3), PickerMessage::SftpHostChanged(3));
    assert_eq!(HostPickerTarget::RelayDeploy.pick(3), PickerMessage::DeployHostChanged(3));
    assert_eq!(HostPickerTarget::SftpSync.close(), PickerMessage::SftpHostPickerClose);
    assert_eq!(HostPickerTarget::RelayDeploy.close(), PickerMessage::DeployHostPickerClose);
    assert_eq!(
        HostPickerTarget::RelayDeploy.search_changed("x".to_string()),
        PickerMessage::DeployHostPickerSearch("x".to_string())
    );
}

#[test]
fn windows_disk_paths() {
    assert!(is_windows_disk_path("C:\\Users", Platform::Windows));
    assert!(is_windows_disk_path("d:", Platform::Windows));
    assert!(is_windows_disk_path("\\\\?\\C:\\x", Platform::Windows));
    assert!(!is_windows_disk_path("\\\\?\\C:x", Platform::Windows));
    assert!(!is_windows_disk_path("\\\\server\\share", Platform::Windows));
    assert!(!is_windows_disk_path("\\\\wsl$\\Ubuntu", Platform::Windows));
    assert!(!is_windows_disk_path("C:\\Users", Platform::Linux));
    assert!(!is_windows_disk_path("1:", Platform::Windows));
}

#[test]
fn drive_probe_is_cached_for_its_ttl() {
    let mut cache = DriveCache { probe: None };
    // The probe finishes 200 ms after the read it was started on; the
    // cache is stamped with the finishing time.
    let first = list_windows_drives_cached(&mut cache, 1_000, || (vec!["C:\\".to_string()], 1_200));
    assert_eq!(first, vec!["C:\\".to_string()]);
    assert_eq!(cache.probe, Some((1_200, vec!["C:\\".to_string()])));
    let second = list_windows_drives_cached(&mut cache, 6_199, || (vec!["D:\\".to_string()], 6_199));
    assert_eq!(second, vec!["C:\\".to_string()]);
    let third = list_windows_drives_cached(&mut cache, 6_200, || (vec!["D:\\".to_string()], 6_250));
    assert_eq!(third, vec!["D:\\".to_string()]);
    assert_eq!(cache.probe, Some((6_250, vec!["D:\\".to_string()])));
    // A clock that went backwards reads as no time elapsed.
    let fourth = list_windows_drives_cached(&mut cache, 10, || (vec!["E:\\".to_string()], 10));
    assert_eq!(fourth, vec!["D:\\".to_string()]);
}

fn snippet(label: &str, command: &str, tags: &[&str], group: Option<&str>) -> Snippet {
    Snippet {
        label: label.to_string(),
        command: command.to_string(),
        tags: tags.iter().map(|t| t.to_string()).collect(),
        group: group.map(|g| g.to_string()),
    }
}

#[test]
fn snippet_search_and_tag_filter() {
    let s = vec![
        snippet("Àbc restart", "systemctl restart nginx", &["web"], Some("Ops")),
        snippet("disk", "df -h", &["Prod"], None),
        snippet("logs", "journalctl -f", &[], Some("ops")),
    ];
    let order = vec![2, 0, 1];
    assert_eq!(filter_snippets(&s, &order, "", false, &None), vec![2, 0, 1]);
    // Unicode lowercasing of the query, not just ASCII.
    assert_eq!(filter_snippets(&s, &order, "ÀB", false, &None), vec![0]);
    assert_eq!(filter_snippets(&s, &order, "NGINX", false, &None), vec![0]);
    assert_eq!(filter_snippets(&s, &order, "ops", false, &None), vec![2, 0]);
    assert_eq!(filter_snippets(&s, &order, "", true, &Some(vec!["prod".to_string()])), vec![1]);
    assert_eq!(filter_snippets(&s, &order, "", true, &None), vec![2, 0, 1]);
    assert!(eq_ignore_ascii("OPS", "ops"));
    assert!(!eq_ignore_ascii("Àps", "àps"));
}

#[test]
fn snippet_listing_folders_and_groups() {
    let s = vec![
        snippet("a", "x", &[], Some("Ops")),
        snippet("b", "y", &[], None),
        snippet("c", "z", &[], Some("ops")),
        snippet("d", "w", &[], Some("Db")),
    ];
    let visible = vec![0, 1, 2];
    let names = vec!["Db".to_string(), "Ops".to_string()];
    let root = snippet_rows(&s, &visible, false, &None, &names);
    assert_eq!(root.open_group, None);
    assert_eq!(root.folders, vec![("Ops".to_string(), 2)]);
    assert_eq!(root.rows, vec![1]);
    let inside = snippet_rows(&s, &visible, false, &Some("OPS".to_string()), &names);
    assert_eq!(inside.open_group, Some("OPS".to_string()));
    assert!(inside.folders.is_empty());
    assert_eq!(inside.rows, vec![0, 2]);
    let searching = snippet_rows(&s, &visible, true, &Some("OPS".to_string()), &names);
    assert_eq!(searching.open_group, None);
    assert_eq!(searching.rows, vec![0, 1, 2]);
}

#[test]
fn snippet_command_preview() {
    assert_eq!(command_preview("ls -la"), "ls -la");
    assert_eq!(command_preview(""), "");
    assert_eq!(command_preview("make\r\nmake install"), "make\u{2026}");
    assert_eq!(command_preview("echo hi\n"), "echo hi");
    assert_eq!(command_preview("\n\n"), "\u{2026}");
    assert_eq!(command_preview("tail\r"), "tail\r");
    let long = "x".repeat(50);
    assert_eq!(command_preview(&long), format!("{}\u{2026}", "x".repeat(48)));
    assert_eq!(command_preview(&"y".repeat(48)), "y".repeat(48));
    assert_eq!(install_marker(None), InstallMarker::Plain);
    assert_eq!(install_marker(Some(false)), InstallMarker::NotRunHere);
    assert_eq!(install_marker(Some(true)), InstallMarker::RanHere);
    assert!(snippets_no_matches(true, false, false));
    assert!(snippets_no_matches(false, true, true));
    assert!(!snippets_no_matches(false, false, true));
}

#[test]
fn pane_actions_menu_and_drive_rows() {
    let cols = SftpColumns { modified: true, size: false, kind: true, permissions: false, owner: false };
    let m = pane_actions_menu(SftpPaneSide::Right, false, &"/stale".to_string(), &"/home/me".to_string(), false, cols);
    assert_eq!(m.actions[4], SftpMenuEntry::CopyPath("/home/me".to_string()));
    assert_eq!(m.actions.last(), Some(&SftpMenuEntry::RevealInExplorer { path: "/home/me".to_string(), is_dir: true }));
    assert_eq!(m.columns.len(), 5);
    assert_eq!(m.columns[1], ColumnToggle { column: SftpColumn::Size, visible: false });
    let r = pane_actions_menu(SftpPaneSide::Left, true, &"/srv".to_string(), &"/home/me".to_string(), true, cols);
    assert_eq!(r.actions[3], SftpMenuEntry::RefreshRemote { side: SftpPaneSide::Left, dir: "/srv".to_string() });
    assert_eq!(r.actions.len(), 6);
    assert_eq!(drive_rows(&Vec::new()), vec![DriveRow::NoDrives]);
    assert_eq!(
        drive_rows(&vec!["C:".to_string(), "\\\\wsl$".to_string()]),
        vec![
            DriveRow::Drive { label: "C:".to_string(), root: "C:\\".to_string() },
            DriveRow::Drive { label: "\\\\wsl$".to_string(), root: "\\\\wsl$\\".to_string() },
        ]
    );
}

#[test]
fn install_script_marker_line_carries_the_run_date() {
    assert_eq!(installed_here_line("Installed here", "2024-01-31"), "Installed here \u{b7} 2024-01-31");
    assert_eq!(
        install_ran_line("Installed here", 1_431_648_000),
        Some("Installed here \u{b7} 2015-05-15".to_string())
    );
    assert_eq!(install_ran_line("x", -86_400), Some("x \u{b7} 1969-12-31".to_string()));
    assert_eq!(install_ran_line("x", i64::MAX), None);
    // The ends of the four-digit years, and a leap day.
    assert_eq!(install_ran_line("x", -62_167_219_200), Some("x \u{b7} 0000-01-01".to_string()));
    assert_eq!(install_ran_line("x", 253_402_300_799), Some("x \u{b7} 9999-12-31".to_string()));
    assert_eq!(install_ran_line("x", 951_782_400), Some("x \u{b7} 2000-02-29".to_string()));
}

#[test]
fn snippet_row_keys_run_paste_and_ask_to_delete() {
    assert_eq!(
        snippet_row_keys(4),
        SnippetRowKeys {
            enter: SnippetAction::Run(4),
            shift_enter: SnippetAction::Paste(4),
            delete: SnippetAction::RequestDelete(4),
        }
    );
    let r = snippet_row(2, "ls", false, None);
    assert_eq!(r.keys.enter, SnippetAction::Run(2));
    assert_eq!(r.keys.shift_enter, SnippetAction::Paste(2));
    assert_eq!(r.keys.delete, SnippetAction::RequestDelete(2));
}

#[test]
fn snippet_row_reveals_actions_on_hover() {
    let r = snippet_row(3, "make\nmake install", true, Some(true));
    assert_eq!(r.preview, "make\u{2026}");
    assert_eq!(r.actions, vec![SnippetAction::Edit(3), SnippetAction::Paste(3), SnippetAction::Run(3)]);
    assert_eq!(r.on_enter, SnippetHover::Hovered(3));
    assert_eq!(r.on_exit, SnippetHover::Unhovered(3));
    assert_eq!(r.marker, InstallMarker::RanHere);
    let q = snippet_row(0, "ls", false, None);
    assert!(q.actions.is_empty());
    assert_eq!(q.preview, "ls");
    assert_eq!(q.marker, InstallMarker::Plain);
}

#[test]
fn forward_card_status_and_toggle() {
    assert_eq!(
        forward_status(7, false, true, true),
        ForwardStatus { dot: Tone::Muted, label: ToggleLabel::Starting, on_press: None }
    );
    assert_eq!(
        forward_status(7, false, false, true),
        ForwardStatus { dot: Tone::Warning, label: ToggleLabel::Retrying, on_press: Some(ForwardAction::Stop(7)) }
    );
    assert_eq!(
        forward_status(7, true, false, true),
        ForwardStatus { dot: Tone::Success, label: ToggleLabel::On, on_press: Some(ForwardAction::Stop(7)) }
    );
    assert_eq!(
        forward_status(7, false, false, false),
        ForwardStatus { dot: Tone::Muted, label: ToggleLabel::Off, on_press: Some(ForwardAction::Start(7)) }
    );
    // Up while a start is still flagged: the dot is green, the toggle stays disabled.
    assert_eq!(
        forward_status(7, true, true, false),
        ForwardStatus { dot: Tone::Success, label: ToggleLabel::Starting, on_press: None }
    );
}

#[test]
fn path_history_dropdown_rows_and_height() {
    let h: Vec<String> = vec!["/srv".to_string(), "/home/me".to_string()];
    assert_eq!(path_history_menu(&h), (h.clone(), 68));
    assert_eq!(path_history_menu(&Vec::new()), (Vec::new(), 8));
    let ten: Vec<String> = (0..10).map(|i| format!("/d{i}")).collect();
    assert_eq!(path_history_menu(&ten).1, 308);
    let many: Vec<String> = (0..40).map(|i| format!("/d{i}")).collect();
    assert_eq!(path_history_menu(&many), (many.clone(), 320));
}
