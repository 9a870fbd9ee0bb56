use std::collections::HashSet;
use oryxis_app::menus::{
    ChatMenuItem, GroupMenuItem, HostMenuItem, KeyMenuItem, ListMenuItem, PluginMenuItem, SessionLogMenuItem,
};
use oryxis_app::state::{
    ChatConversation, CloudRef, Connection, ConnectionProtocol, Oryxis, PluginEntry, PluginUiStatus,
    SessionLogEntry, SshKey,
};

fn conn(id: u128, label: &str, protocol: ConnectionProtocol) -> Connection {
    Connection {
        id,
        label: label.to_string(),
        hostname: format!("{label}.example"),
        protocol,
        mac_address: None,
        cloud_ref: None,
        sftp_initial_path: None,
        tags: Vec::new(),
        identity_id: None,
    }
}

fn key(id: u128, label: &str) -> SshKey {
    SshKey {
        id,
        label: label.to_string(),
        is_security_key: false,
        expose_via_agent: false,
        has_certificate: false,
    }
}

fn app() -> Oryxis {
    Oryxis {
        connections: Vec::new(),
        session_logs: Vec::new(),
        chat_conversations: Vec::new(),
        keys: Vec::new(),
        plugins: Vec::new(),
        remote_desktop_forwards: HashSet::new(),
        session_log_full: false,
        sftp_enabled: false,
        agent_enabled: false,
        sftp_sync_picker_search: String::new(),
        relay_deploy_picker_search: String::new(),
        sftp_left_host_label: None,
        sftp_right_host_label: None,
    }
}

#[test]
fn ssh_host_card_menu_lists_every_ssh_action() {
    let mut a = app();
    a.sftp_enabled = true;
    a.connections.push(conn(7, "web", ConnectionProtocol::Ssh));
    assert_eq!(
        a.build_menu_host_actions(0),
        vec![
            HostMenuItem::Connect(0),
            HostMenuItem::Edit(0),
            HostMenuItem::Duplicate(0),
            HostMenuItem::Share(0),
            HostMenuItem::OpenSftpTab(0),
            HostMenuItem::CopySshUrl(0),
            HostMenuItem::Remove(0),
        ]
    );
    assert_eq!(a.host_actions_menu_rows(0, true), 7);
}

#[test]
fn tree_menu_drops_remove_and_cloud_filter() {
    let mut a = app();
    let mut c = conn(7, "web", ConnectionProtocol::Telnet);
    c.cloud_ref = Some(CloudRef { profile_id: 99, orphaned: false });
    a.connections.push(c);
    assert_eq!(
        a.build_menu_tree_host_actions(0),
        vec![HostMenuItem::Connect(0), HostMenuItem::Edit(0), HostMenuItem::Duplicate(0), HostMenuItem::CopySshUrl(0)]
    );
    assert_eq!(a.host_actions_menu_rows(0, false), 4);
    assert_eq!(
        a.build_menu_host_actions(0),
        vec![
            HostMenuItem::Connect(0),
            HostMenuItem::Edit(0),
            HostMenuItem::Duplicate(0),
            HostMenuItem::CopySshUrl(0),
            HostMenuItem::FilterByCloudProfile(99),
            HostMenuItem::Remove(0),
        ]
    );
}

#[test]
fn orphaned_cloud_host_is_forgotten_not_removed() {
    let mut a = app();
    let mut c = conn(3, "gone", ConnectionProtocol::Other);
    c.cloud_ref = Some(CloudRef { profile_id: 5, orphaned: true });
    a.connections.push(c);
    let items = a.build_menu_host_actions(0);
    assert_eq!(items.last(), Some(&HostMenuItem::Forget(0)));
    assert!(!items.contains(&HostMenuItem::CopySshUrl(0)));
    assert_eq!(a.host_actions_menu_rows(0, true) as usize, items.len());
}

#[test]
fn wake_on_lan_needs_a_non_empty_mac_and_desktop_stop_a_live_tunnel() {
    let mut a = app();
    let mut c = conn(11, "desk", ConnectionProtocol::RemoteDesktop);
    c.mac_address = Some(String::new());
    a.connections.push(c);
    assert!(!a.wol_mac_present(0));
    assert!(!a.desktop_tunnel_live(0));
    a.connections[0].mac_address = Some("aa:bb:cc:dd:ee:ff".to_string());
    a.remote_desktop_forwards.insert(11);
    assert!(a.wol_mac_present(0));
    assert!(a.desktop_tunnel_live(0));
    assert_eq!(
        a.build_menu_host_actions(0),
        vec![
            HostMenuItem::Connect(0),
            HostMenuItem::Edit(0),
            HostMenuItem::Duplicate(0),
            HostMenuItem::WakeOnLan(0),
            HostMenuItem::StopRemoteDesktop(11),
            HostMenuItem::Remove(0),
        ]
    );
    assert_eq!(a.host_actions_menu_rows(0, true), 6);
}

#[test]
fn menu_row_count_matches_items_for_a_missing_row() {
    let a = app();
    // A row that does not exist is treated as SSH without SFTP.
    let items = a.build_menu_host_actions(4);
    assert_eq!(a.host_actions_menu_rows(4, true) as usize, items.len());
    assert_eq!(items.len(), 6);
}

#[test]
fn session_log_menus_follow_full_recording() {
    let mut a = app();
    a.session_logs.push(SessionLogEntry { id: 42, connection_id: 7 });
    assert_eq!(
        a.build_menu_session_log_actions(0),
        vec![
            SessionLogMenuItem::ExportTranscript(42),
            SessionLogMenuItem::ExportCommands(42),
            SessionLogMenuItem::Delete(0),
            SessionLogMenuItem::PrivacyNote,
        ]
    );
    a.session_log_full = true;
    assert_eq!(
        a.build_menu_session_log_actions(0),
        vec![
            SessionLogMenuItem::Play(42),
            SessionLogMenuItem::ExportCast(42),
            SessionLogMenuItem::ExportGif(42),
            SessionLogMenuItem::ExportTranscript(42),
            SessionLogMenuItem::ExportCommands(42),
            SessionLogMenuItem::Delete(0),
            SessionLogMenuItem::PrivacyNote,
        ]
    );
    // The viewer's own menu never offers Play.
    assert_eq!(a.build_menu_session_log_viewer_actions(0)[0], SessionLogMenuItem::ExportCast(42));
    assert_eq!(
        a.build_menu_session_log_actions(3),
        vec![SessionLogMenuItem::Delete(3), SessionLogMenuItem::PrivacyNote]
    );
}

#[test]
fn chat_and_list_and_group_menus() {
    let mut a = app();
    a.chat_conversations.push(ChatConversation { id: 8 });
    assert_eq!(a.build_menu_chat_conversation_actions(0), vec![ChatMenuItem::Open(8), ChatMenuItem::Delete(0)]);
    assert_eq!(a.build_menu_chat_conversation_actions(2), vec![ChatMenuItem::Delete(2)]);
    assert_eq!(
        a.build_menu_session_group_actions(1),
        vec![ListMenuItem::Open(1), ListMenuItem::Edit(1), ListMenuItem::Duplicate(1), ListMenuItem::Remove(1)]
    );
    assert_eq!(a.build_menu_identity_actions(2), vec![ListMenuItem::Edit(2), ListMenuItem::Remove(2)]);
    assert_eq!(a.build_menu_snippet_actions(0), vec![ListMenuItem::Edit(0), ListMenuItem::Delete(0)]);
    assert_eq!(a.build_menu_port_forward_actions(5), vec![ListMenuItem::Edit(5), ListMenuItem::Delete(5)]);
    assert_eq!(
        a.build_menu_folder_actions(9),
        vec![GroupMenuItem::EditFolder(9), GroupMenuItem::NewSubgroup(9), GroupMenuItem::DeleteFolder(9)]
    );
    assert_eq!(
        a.build_menu_dynamic_group_actions(4),
        vec![GroupMenuItem::EditDynamicGroup(4), GroupMenuItem::RenameDynamicGroup(4), GroupMenuItem::DeleteDynamicGroup(4)]
    );
    assert_eq!(
        a.build_menu_cloud_profile_actions(6),
        vec![GroupMenuItem::EditCloudProfile(6), GroupMenuItem::SyncCloudProfile(6), GroupMenuItem::DeleteCloudProfile(6)]
    );
}

#[test]
fn key_menu_offers_agent_toggle_and_certificate_rows() {
    let mut a = app();
    let mut k = key(21, "deploy");
    k.has_certificate = true;
    k.expose_via_agent = true;
    a.keys.push(k);
    assert_eq!(
        a.build_menu_key_actions(0),
        vec![KeyMenuItem::Edit(0), KeyMenuItem::ViewCertificate(0), KeyMenuItem::RemoveCertificate(0), KeyMenuItem::Remove(0)]
    );
    a.agent_enabled = true;
    assert_eq!(a.build_menu_key_actions(0)[1], KeyMenuItem::AgentExpose { key_id: 21, exposed: true });
    a.keys[0].is_security_key = true;
    assert_eq!(a.build_menu_key_actions(0).len(), 4);
}

#[test]
fn plugin_menu_depends_on_install_state() {
    let mut a = app();
    a.plugins.push(PluginEntry {
        provider_id: "aws".to_string(),
        status: PluginUiStatus::Installed,
        cached_install: false,
        auto_update: true,
    });
    a.plugins.push(PluginEntry {
        provider_id: "gcp".to_string(),
        status: PluginUiStatus::DevBuild,
        cached_install: true,
        auto_update: false,
    });
    assert_eq!(a.plugin_position("gcp"), 1);
    assert_eq!(a.plugin_position("azure"), 2);
    assert_eq!(
        a.build_menu_plugin_actions("aws"),
        vec![
            PluginMenuItem::CheckUpdates("aws".to_string()),
            PluginMenuItem::AutoUpdate { provider_id: "aws".to_string(), enable: false },
            PluginMenuItem::Uninstall("aws".to_string()),
        ]
    );
    assert_eq!(a.build_menu_plugin_actions("gcp"), vec![PluginMenuItem::RemoveDownloads("gcp".to_string())]);
    assert!(a.build_menu_plugin_actions("azure").is_empty());
}
