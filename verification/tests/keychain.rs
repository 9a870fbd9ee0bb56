use std::collections::HashSet;
use oryxis_app::key_panels::{
    identity_key_picker, identity_panel, is_blank_text, key_import_panel, linked_connections, CertHint,
    PasswordPlaceholder,
};
use oryxis_app::keys::{
    identity_subtitle, key_badge, keychain_layout, keychain_status, KeychainStatus, keygen_footer, keygen_plaintext_warning, keygen_sub_picker, Identity,
    KeyBadge, KeyGenAlgo, KeyGenFooter, KeyGenSubPicker, KeychainLayout, SectionState,
};
use oryxis_app::monitor::filter_by_label;
use oryxis_app::state::{Connection, ConnectionProtocol, SshKey};

fn key(id: u128, label: &str) -> SshKey {
    SshKey { id, label: label.to_string(), is_security_key: false, expose_via_agent: false, has_certificate: false }
}

fn conn(id: u128, identity: Option<u128>) -> Connection {
    Connection {
        id,
        label: format!("h{id}"),
        hostname: String::new(),
        protocol: ConnectionProtocol::Ssh,
        mac_address: None,
        cloud_ref: None,
        sftp_initial_path: None,
        tags: Vec::new(),
        identity_id: identity,
    }
}

#[test]
fn key_badges_prefer_the_security_key() {
    let mut k = key(1, "yubi");
    assert_eq!(key_badge(&k), None);
    k.has_certificate = true;
    assert_eq!(key_badge(&k), Some(KeyBadge::Certificate));
    k.is_security_key = true;
    assert_eq!(key_badge(&k), Some(KeyBadge::SecurityKey));
}

#[test]
fn identity_subtitles_join_the_credentials() {
    let keys = vec![key(5, "deploy"), key(5, "shadowed")];
    let id = Identity { id: 9, label: "ops".to_string(), username: Some("root".to_string()), key_id: Some(5) };
    assert_eq!(identity_subtitle(&id, &HashSet::from([9u128]), &keys), Some("root, \u{25CF}\u{25CF}\u{25CF}\u{25CF}, deploy".to_string()));
    assert_eq!(identity_subtitle(&id, &HashSet::new(), &keys), Some("root, deploy".to_string()));
    let bare = Identity { id: 9, label: "ops".to_string(), username: None, key_id: Some(77) };
    assert_eq!(identity_subtitle(&bare, &HashSet::new(), &keys), None);
}

#[test]
fn keychain_layout_keeps_identities_without_keys() {
    assert_eq!(keychain_layout(0, 0, 0, 0), KeychainLayout::Empty);
    assert_eq!(
        keychain_layout(0, 0, 2, 1),
        KeychainLayout::Sections { keys: SectionState::Hidden, identities: SectionState::Cards }
    );
    assert_eq!(
        keychain_layout(3, 0, 2, 2),
        KeychainLayout::Sections { keys: SectionState::NoMatches, identities: SectionState::Cards }
    );
}

#[test]
fn key_generator_panels() {
    assert_eq!(keygen_sub_picker(KeyGenAlgo::Ed25519), KeyGenSubPicker::Nothing);
    assert_eq!(keygen_sub_picker(KeyGenAlgo::Rsa), KeyGenSubPicker::RsaBits);
    assert_eq!(keygen_sub_picker(KeyGenAlgo::Ecdsa), KeyGenSubPicker::EcdsaCurve);
    assert_eq!(keygen_footer(true, true), KeyGenFooter::Done);
    assert_eq!(keygen_footer(false, true), KeyGenFooter::CancelGenerate { generate_enabled: false });
    assert!(keygen_plaintext_warning("", ""));
    assert!(!keygen_plaintext_warning("", "x"));
}

#[test]
fn label_search_over_keys() {
    let labels: Vec<String> = ["Deploy", "backup", "CI deploy"].iter().map(|s| s.to_string()).collect();
    assert_eq!(filter_by_label(&labels, &vec![2, 0, 1], "DEPLOY"), vec![2, 0]);
    assert_eq!(filter_by_label(&labels, &vec![1, 2], ""), vec![1, 2]);
    assert_eq!(filter_by_label(&labels, &vec![0, 1, 2], "zzz"), Vec::<usize>::new());
}

#[test]
fn identity_panel_gates_save_on_a_non_blank_label() {
    let p = identity_panel(true, "  ops ", true, false);
    assert_eq!(p.title_key, "edit_identity");
    assert_eq!(p.save_key, "update_identity");
    assert_eq!(p.password_placeholder, PasswordPlaceholder::StoredBullets);
    assert!(p.save_enabled);
    let n = identity_panel(false, " \t ", true, true);
    assert_eq!(n.title_key, "new_identity");
    assert_eq!(n.save_key, "save_identity");
    assert_eq!(n.password_placeholder, PasswordPlaceholder::Hint);
    assert!(!n.save_enabled);
    assert!(is_blank_text("\u{3000}"));
    assert!(!is_blank_text(" a "));
}

#[test]
fn identity_key_picker_and_linked_hosts() {
    let keys = vec![key(1, "a"), key(2, "b")];
    let p = identity_key_picker(&keys, &None);
    assert_eq!(p.options, vec!["(none)", "a", "b"]);
    assert_eq!(p.selected, "(none)");
    assert_eq!(identity_key_picker(&keys, &Some("b".to_string())).selected, "b");
    let conns = vec![conn(1, Some(4)), conn(2, None), conn(3, Some(4)), conn(4, Some(5))];
    assert_eq!(linked_connections(&conns, 4), vec![0, 2]);
    assert!(linked_connections(&conns, 6).is_empty());
}

#[test]
fn key_import_panel_arms_save_with_content_or_a_public_line() {
    let p = key_import_panel(false, "", "  ", true, false);
    assert_eq!((p.title_key, p.save_key), ("add_key", "save_key"));
    assert!(!p.save_enabled && !p.loaded_status && p.passphrase_field);
    assert_eq!(p.cert_hint, CertHint::Describe);
    let q = key_import_panel(true, "", "sk-ssh-ed25519@openssh.com AAAA", false, true);
    assert_eq!((q.title_key, q.save_key), ("edit_key", "update_key"));
    assert!(q.save_enabled && !q.loaded_status);
    assert_eq!(q.cert_hint, CertHint::Detected);
    assert!(key_import_panel(false, "-----BEGIN", "", false, false).loaded_status);
}

#[test]
fn keychain_status_line() {
    assert_eq!(keychain_status(true, true, true), KeychainStatus::Nothing);
    assert_eq!(keychain_status(false, true, true), KeychainStatus::Error);
    assert_eq!(keychain_status(false, false, true), KeychainStatus::Success);
    assert_eq!(keychain_status(false, false, false), KeychainStatus::Nothing);
}
