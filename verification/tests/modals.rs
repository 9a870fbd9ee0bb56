use oryxis_app::clock::{replay_chord, ChordAction};
use oryxis_app::clock::{geometry_label, player_header, time_label, PlayerHeader};
use oryxis_app::cloud_import::{
    import_scrim_click, import_summary, import_transport_options, transport_label, ScrimClick, TransportKind,
};
use oryxis_app::prompts::{
    endpoint_line, host_key_buttons, host_key_prompt, kbi_prompt, kbi_value, key_type_line, proxy_command_buttons,
    HostKeyButton, HostKeyPrompt, KbiField, ProxyCommandButton,
};
use oryxis_app::state::{Connection, ConnectionProtocol, SessionLogEntry};

fn conn(id: u128) -> Connection {
    Connection {
        id,
        label: format!("h{id}"),
        hostname: String::new(),
        protocol: ConnectionProtocol::Ssh,
        mac_address: None,
        cloud_ref: None,
        sftp_initial_path: None,
        tags: Vec::new(),
        identity_id: None,
    }
}

#[test]
fn player_labels() {
    assert_eq!(time_label(65_000, 3_600_000), "1:05 / 1:00:00");
    assert_eq!(time_label(-3, 0), "0:00 / 0:00");
    assert_eq!(geometry_label(80, 24), "80x24");
    assert_eq!(geometry_label(0, 65535), "0x65535");
}

#[test]
fn player_privacy_follows_the_recorded_host() {
    let logs = vec![SessionLogEntry { id: 10, connection_id: 2 }, SessionLogEntry { id: 11, connection_id: 9 }];
    let conns = vec![conn(1), conn(2)];
    let host_privacy = vec![false, true];
    assert_eq!(
        player_header(&logs, &conns, &host_privacy, 10, false, false),
        PlayerHeader { privacy_applies: true, mask: true, log_index: Some(0) }
    );
    assert_eq!(
        player_header(&logs, &conns, &host_privacy, 10, false, true),
        PlayerHeader { privacy_applies: true, mask: false, log_index: Some(0) }
    );
    // The recorded host is gone: the global default applies.
    assert_eq!(
        player_header(&logs, &conns, &host_privacy, 11, false, false),
        PlayerHeader { privacy_applies: false, mask: false, log_index: Some(1) }
    );
    // The recording itself is gone: no log actions, global default.
    assert_eq!(
        player_header(&logs, &conns, &host_privacy, 12, true, false),
        PlayerHeader { privacy_applies: true, mask: true, log_index: None }
    );
}

#[test]
fn cloud_import_dialog() {
    assert_eq!(import_summary(3, 2), "3 EC2 + 2 ECS");
    assert_eq!(import_summary(4, 0), "4 EC2");
    assert_eq!(import_summary(0, 7), "7 ECS");
    assert_eq!(import_summary(0, 0), "0 ECS");
    assert_eq!(
        import_transport_options(),
        vec![TransportKind::Ssh, TransportKind::InstanceConnect, TransportKind::Ssm]
    );
    assert_eq!(transport_label(TransportKind::InstanceConnect), "EC2 Instance Connect");
    assert_eq!(transport_label(TransportKind::KubectlExec), "kubectl exec");
    assert_eq!(import_scrim_click(true), ScrimClick::CloseGroupPicker);
    assert_eq!(import_scrim_click(false), ScrimClick::CancelImport);
}

#[test]
fn host_key_prompt_reads_by_status() {
    assert_eq!(host_key_prompt(true), HostKeyPrompt::Changed);
    assert_eq!(host_key_prompt(false), HostKeyPrompt::Unknown);
    assert_eq!(endpoint_line("db.example", 2222), "db.example:2222");
    assert_eq!(key_type_line("ssh-ed25519"), "ssh-ed25519 SHA256:");
    assert_eq!(
        host_key_buttons(),
        vec![HostKeyButton::Close, HostKeyButton::Continue, HostKeyButton::AddAndContinue]
    );
}

#[test]
fn keyboard_interactive_prompt() {
    let p = kbi_prompt("  ", "Enter the code", &vec![true, false]);
    assert_eq!(p.title, None);
    assert!(p.instructions);
    assert_eq!(
        p.fields,
        vec![KbiField { secure: false, focused: true }, KbiField { secure: true, focused: false }]
    );
    let q = kbi_prompt("Duo", " \n", &Vec::new());
    assert_eq!(q.title, Some("Duo".to_string()));
    assert!(!q.instructions);
    assert!(q.fields.is_empty());
    let inputs = vec!["123456".to_string()];
    assert_eq!(kbi_value(&inputs, 0), "123456");
    assert_eq!(kbi_value(&inputs, 1), "");
}

#[test]
fn proxy_command_refusal_is_the_default() {
    let (buttons, default) = proxy_command_buttons();
    assert_eq!(
        buttons,
        vec![ProxyCommandButton::Refuse, ProxyCommandButton::RunOnce, ProxyCommandButton::AlwaysRun]
    );
    assert_eq!(default, 0);
    assert_eq!(buttons[default], ProxyCommandButton::Refuse);
}

#[test]
fn replay_declines_only_the_selection_paste() {
    assert_eq!(replay_chord(Some(ChordAction::PasteSelection)), None);
    assert_eq!(replay_chord(Some(ChordAction::Copy)), Some(ChordAction::Copy));
    assert_eq!(replay_chord(Some(ChordAction::ScrollPageUp)), Some(ChordAction::ScrollPageUp));
    assert_eq!(replay_chord(None), None);
}
