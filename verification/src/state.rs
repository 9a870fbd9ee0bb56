//! The slice of application state the view logic reads, held as plain
//! values. Identifiers (UUIDs in the vault) are carried as `u128`.

use std::collections::HashSet;
use vstd::prelude::*;

verus! {

/// How a saved host is reached. The menus only tell SSH, Telnet and
/// remote desktop apart; every other transport is `Other`.
#[derive(Clone, Copy, Debug, PartialEq, Eq, Structural)]
pub enum ConnectionProtocol {
    Ssh,
    Telnet,
    RemoteDesktop,
    Other,
}

/// Link from a host to the cloud profile that imported it.
#[derive(Clone, Copy, Debug, PartialEq, Eq, Structural)]
pub struct CloudRef {
    pub profile_id: u128,
    /// The resource disappeared upstream (`orphaned_at` is set).
    pub orphaned: bool,
}

/// A saved host.
#[derive(Clone, Debug)]
pub struct Connection {
    pub id: u128,
    pub label: String,
    pub hostname: String,
    pub protocol: ConnectionProtocol,
    pub mac_address: Option<String>,
    pub cloud_ref: Option<CloudRef>,
    /// Per-host SFTP landing folder.
    pub sftp_initial_path: Option<String>,
    pub tags: Vec<String>,
    /// The identity the host signs in with.
    pub identity_id: Option<u128>,
}

/// A recorded session in the History view.
#[derive(Clone, Copy, Debug, PartialEq, Eq, Structural)]
pub struct SessionLogEntry {
    pub id: u128,
    /// The saved host the session ran against.
    pub connection_id: u128,
}

/// A saved AI conversation.
#[derive(Clone, Copy, Debug, PartialEq, Eq, Structural)]
pub struct ChatConversation {
    pub id: u128,
}

/// An SSH key in the keychain.
#[derive(Clone, Debug)]
pub struct SshKey {
    pub id: u128,
    pub label: String,
    /// FIDO / security-key algorithm: no private half in the vault.
    pub is_security_key: bool,
    pub expose_via_agent: bool,
    pub has_certificate: bool,
}

/// Install state of a plugin row.
#[derive(Clone, Copy, Debug, PartialEq, Eq, Structural)]
pub enum PluginUiStatus {
    /// A locally built plugin shadowing the catalog.
    DevBuild,
    Installed,
    UpdateAvailable,
    /// Not installed, or an install / update in flight.
    Other,
}

/// A plugin row of the Plugins screen.
#[derive(Clone, Debug)]
pub struct PluginEntry {
    pub provider_id: String,
    pub status: PluginUiStatus,
    /// Downloads are cached under the dev build.
    pub cached_install: bool,
    pub auto_update: bool,
}

/// The application state read by the menu builders and pickers.
#[derive(Debug)]
pub struct Oryxis {
    pub connections: Vec<Connection>,
    pub session_logs: Vec<SessionLogEntry>,
    pub chat_conversations: Vec<ChatConversation>,
    pub keys: Vec<SshKey>,
    pub plugins: Vec<PluginEntry>,
    /// Hosts whose remote-desktop tunnel is live.
    pub remote_desktop_forwards: HashSet<u128>,
    /// Full-detail session recording (replay + cast/GIF export).
    pub session_log_full: bool,
    pub sftp_enabled: bool,
    /// The SSH agent server is running.
    pub agent_enabled: bool,
    /// Search buffer of the SFTP-sync host picker.
    pub sftp_sync_picker_search: String,
    /// Search buffer of the relay-deploy host picker.
    pub relay_deploy_picker_search: String,
    /// Saved-host label of the left SFTP pane (remote panes only).
    pub sftp_left_host_label: Option<String>,
    /// Saved-host label of the right SFTP pane (remote panes only).
    pub sftp_right_host_label: Option<String>,
}

/// Index of the first saved host labelled `label`.
pub open spec fn first_conn_with_label(conns: Seq<Connection>, label: Seq<char>) -> Option<int> {
    if exists|i: int| 0 <= i < conns.len() && conns[i].label@ == label {
        Some(choose|i: int|
            0 <= i < conns.len() && conns[i].label@ == label
                && forall|j: int| 0 <= j < i ==> conns[j].label@ != label)
    } else {
        None
    }
}

/// Position of the first saved host labelled `label`.
pub fn find_conn_by_label(conns: &Vec<Connection>, label: &Vec<char>) -> (r: Option<usize>)
    ensures
        r is None ==> first_conn_with_label(conns@, label@) is None,
        r matches Some(i) ==> first_conn_with_label(conns@, label@) == Some(i as int) && i < conns@.len(),
{
    let mut i: usize = 0;
    while i < conns.len()
        invariant
            i <= conns.len(),
            forall|j: int| 0 <= j < i ==> conns@[j].label@ != label@,
        decreases conns.len() - i,
    {
        let have = crate::text::chars_of(conns[i].label.as_str());
        if crate::text::chars_eq(&have, label) {
            proof {
                let c = first_conn_with_label(conns@, label@)->0;
                assert(conns@[i as int].label@ == label@);
                if c < i {
                    assert(conns@[c].label@ != label@);
                }
                if i < c {
                    assert(conns@[i as int].label@ != label@);
                }
            }
            return Some(i);
        }
        i = i + 1;
    }
    None
}

/// Whether the id set `ids` holds `x`.
pub fn contains_id(ids: &HashSet<u128>, x: u128) -> (b: bool)
    ensures
        b == ids@.contains(x),
{
    broadcast use vstd::std_specs::hash::group_hash_axioms;
    ids.contains(&x)
}

} // verus!
