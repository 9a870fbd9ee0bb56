//! Kebab / overlay menus of the vault cards and lists: which rows a menu
//! holds, in display order, and the row count the overlay is sized by.

use vstd::prelude::*;
use crate::state::{
    contains_id, CloudRef, Connection, ConnectionProtocol, Oryxis, PluginUiStatus, SshKey,
};
use crate::text::{chars_eq, chars_of};

verus! {

/// One row of a saved host's action menu, with the message it fires.
#[derive(Clone, Copy, Debug, PartialEq, Eq)]
pub enum HostMenuItem {
    Connect(usize),
    Edit(usize),
    Duplicate(usize),
    Share(usize),
    OpenSftpTab(usize),
    CopySshUrl(usize),
    WakeOnLan(usize),
    StopRemoteDesktop(u128),
    FilterByCloudProfile(u128),
    Remove(usize),
    /// The remove row of a host whose cloud resource is gone upstream.
    Forget(usize),
}

/// The protocol the host menu assumes for row `idx` (SSH when the row
/// does not exist).
pub open spec fn menu_protocol(app: &Oryxis, idx: usize) -> ConnectionProtocol {
    if idx < app.connections@.len() { app.connections@[idx as int].protocol } else { ConnectionProtocol::Ssh }
}

/// Whether row `idx` exists and has a non-empty MAC address.
pub open spec fn has_wol_mac(app: &Oryxis, idx: usize) -> bool {
    idx < app.connections@.len() && match app.connections@[idx as int].mac_address {
        Some(m) => m@.len() > 0,
        None => false,
    }
}

/// Whether row `idx` is a remote-desktop host with a live tunnel.
pub open spec fn has_live_desktop(app: &Oryxis, idx: usize) -> bool {
    menu_protocol(app, idx) == ConnectionProtocol::RemoteDesktop && idx < app.connections@.len()
        && app.remote_desktop_forwards@.contains(app.connections@[idx as int].id)
}

/// The cloud link of row `idx`, if the row exists and has one.
pub open spec fn cloud_ref_of(app: &Oryxis, idx: usize) -> Option<CloudRef> {
    if idx < app.connections@.len() { app.connections@[idx as int].cloud_ref } else { None }
}

/// The rows of the host menu for row `idx`. `dashboard` selects the card
/// menu (with Remove / Forget and the cloud-profile filter) over the
/// sidebar tree's reduced menu.
pub open spec fn host_menu(app: &Oryxis, idx: usize, dashboard: bool) -> Seq<HostMenuItem> {
    let p = menu_protocol(app, idx);
    let cref = cloud_ref_of(app, idx);
    seq![HostMenuItem::Connect(idx), HostMenuItem::Edit(idx), HostMenuItem::Duplicate(idx)]
        + (if p == ConnectionProtocol::Ssh {
            seq![HostMenuItem::Share(idx)]
                + (if app.sftp_enabled { seq![HostMenuItem::OpenSftpTab(idx)] } else { Seq::empty() })
        } else {
            Seq::empty()
        })
        + (if p == ConnectionProtocol::Ssh || p == ConnectionProtocol::Telnet {
            seq![HostMenuItem::CopySshUrl(idx)]
        } else {
            Seq::empty()
        })
        + (if has_wol_mac(app, idx) { seq![HostMenuItem::WakeOnLan(idx)] } else { Seq::empty() })
        + (if has_live_desktop(app, idx) {
            seq![HostMenuItem::StopRemoteDesktop(app.connections@[idx as int].id)]
        } else {
            Seq::empty()
        })
        + (if dashboard && cref is Some {
            seq![HostMenuItem::FilterByCloudProfile(cref->0.profile_id)]
        } else {
            Seq::empty()
        })
        + (if !dashboard {
            Seq::empty()
        } else if cref is Some && cref->0.orphaned {
            seq![HostMenuItem::Forget(idx)]
        } else {
            seq![HostMenuItem::Remove(idx)]
        })
}

/// The row count the overlay reserves for the host menu of row `idx`:
/// Connect, Edit and Duplicate, plus one for each conditional entry.
pub open spec fn host_menu_row_count(app: &Oryxis, idx: usize, dashboard: bool) -> nat {
    let p = menu_protocol(app, idx);
    3 + (if p == ConnectionProtocol::Ssh { 1 + (if app.sftp_enabled { 1nat } else { 0 }) } else { 0nat })
        + (if p == ConnectionProtocol::Ssh || p == ConnectionProtocol::Telnet { 1nat } else { 0 })
        + (if has_wol_mac(app, idx) { 1nat } else { 0 })
        + (if has_live_desktop(app, idx) { 1nat } else { 0 })
        + (if dashboard { (if cloud_ref_of(app, idx) is Some { 1nat } else { 0 }) + 1 } else { 0nat })
}

/// The overlay height and the menu agree: for every host row and both
/// surfaces, the row count the overlay is sized by is the number of rows
/// the menu builder emits.
pub proof fn host_menu_rows_match_items(app: &Oryxis, idx: usize, dashboard: bool)
    ensures
        host_menu_row_count(app, idx, dashboard) == host_menu(app, idx, dashboard).len(),
{
}


/// One row of a session recording's menu.
#[derive(Clone, Copy, Debug, PartialEq, Eq)]
pub enum SessionLogMenuItem {
    /// Replay in the in-app player.
    Play(u128),
    ExportCast(u128),
    ExportGif(u128),
    ExportTranscript(u128),
    ExportCommands(u128),
    /// Ask to delete the recording at this index.
    Delete(usize),
    /// The caption saying exports carry the raw, unmasked bytes.
    PrivacyNote,
}

/// The rows of the menu of recording `idx`. The replay rows (Play, cast
/// and GIF export) exist only with full-detail recording; Play only where
/// the surface has no play affordance of its own (`include_play`).
pub open spec fn session_log_menu(app: &Oryxis, idx: usize, include_play: bool) -> Seq<SessionLogMenuItem> {
    (if idx < app.session_logs@.len() {
        let id = app.session_logs@[idx as int].id;
        (if app.session_log_full {
            (if include_play { seq![SessionLogMenuItem::Play(id)] } else { Seq::empty() })
                + seq![SessionLogMenuItem::ExportCast(id), SessionLogMenuItem::ExportGif(id)]
        } else {
            Seq::empty()
        }) + seq![SessionLogMenuItem::ExportTranscript(id), SessionLogMenuItem::ExportCommands(id)]
    } else {
        Seq::empty()
    }) + seq![SessionLogMenuItem::Delete(idx), SessionLogMenuItem::PrivacyNote]
}

/// One row of a saved AI conversation's menu.
#[derive(Clone, Copy, Debug, PartialEq, Eq)]
pub enum ChatMenuItem {
    Open(u128),
    Delete(usize),
}

/// The conversation menu: Open when the row exists, then Delete.
pub open spec fn chat_menu(app: &Oryxis, idx: usize) -> Seq<ChatMenuItem> {
    (if idx < app.chat_conversations@.len() {
        seq![ChatMenuItem::Open(app.chat_conversations@[idx as int].id)]
    } else {
        Seq::empty()
    }) + seq![ChatMenuItem::Delete(idx)]
}

/// One row of a simple list menu (session groups, identities, snippets,
/// port-forward rules).
#[derive(Clone, Copy, Debug, PartialEq, Eq)]
pub enum ListMenuItem {
    /// Open the session group.
    Open(usize),
    Edit(usize),
    Duplicate(usize),
    Remove(usize),
    Delete(usize),
}

/// One row of an SSH key's menu.
#[derive(Clone, Copy, Debug, PartialEq, Eq)]
pub enum KeyMenuItem {
    Edit(usize),
    /// Flip the expose-via-agent flag of the key; `exposed` is its
    /// current state (the check glyph).
    AgentExpose { key_id: u128, exposed: bool },
    ViewCertificate(usize),
    RemoveCertificate(usize),
    Remove(usize),
}

/// The key menu: Edit; the agent toggle while the agent runs (never for
/// a security key, which the agent cannot serve); the certificate pair
/// when the key carries one; Remove.
pub open spec fn key_menu(app: &Oryxis, idx: usize) -> Seq<KeyMenuItem> {
    let exists = idx < app.keys@.len();
    let k = app.keys@[idx as int];
    seq![KeyMenuItem::Edit(idx)]
        + (if app.agent_enabled && exists && !k.is_security_key {
            seq![KeyMenuItem::AgentExpose { key_id: k.id, exposed: k.expose_via_agent }]
        } else {
            Seq::empty()
        })
        + (if exists && k.has_certificate {
            seq![KeyMenuItem::ViewCertificate(idx), KeyMenuItem::RemoveCertificate(idx)]
        } else {
            Seq::empty()
        })
        + seq![KeyMenuItem::Remove(idx)]
}

/// One row of a folder, dynamic-group or cloud-profile menu.
#[derive(Clone, Copy, Debug, PartialEq, Eq)]
pub enum GroupMenuItem {
    EditFolder(u128),
    NewSubgroup(u128),
    DeleteFolder(u128),
    EditDynamicGroup(u128),
    RenameDynamicGroup(u128),
    DeleteDynamicGroup(u128),
    EditCloudProfile(u128),
    SyncCloudProfile(u128),
    DeleteCloudProfile(u128),
}

/// One row of a plugin's menu.
#[derive(Clone, Debug, PartialEq, Eq)]
pub enum PluginMenuItem {
    /// Remove the downloads a dev build shadows.
    RemoveDownloads(String),
    CheckUpdates(String),
    /// The auto-update override: fires setting it to `enable`, the
    /// opposite of its current state.
    AutoUpdate { provider_id: String, enable: bool },
    Uninstall(String),
}

/// Index of the first plugin row whose provider id is `provider_id`.
pub open spec fn plugin_index(app: &Oryxis, provider_id: Seq<char>) -> Option<int> {
    if exists|i: int| 0 <= i < app.plugins@.len() && app.plugins@[i].provider_id@ == provider_id {
        Some(choose|i: int|
            0 <= i < app.plugins@.len() && app.plugins@[i].provider_id@ == provider_id
                && forall|j: int| 0 <= j < i ==> app.plugins@[j].provider_id@ != provider_id)
    } else {
        None
    }
}

/// The plugin menu of the first row with `provider_id`: a dev build with
/// cached downloads offers removing them; an installed plugin offers
/// check-for-updates, the auto-update override and uninstall; anything
/// else (and an unknown id) gets no rows.
pub open spec fn plugin_menu(app: &Oryxis, provider_id: Seq<char>) -> Seq<PluginMenuItem> {
    match plugin_index(app, provider_id) {
        None => Seq::empty(),
        Some(i) => {
            let e = app.plugins@[i];
            let id = e.provider_id;
            if e.status == PluginUiStatus::DevBuild && e.cached_install {
                seq![PluginMenuItem::RemoveDownloads(id)]
            } else if e.status == PluginUiStatus::Installed || e.status == PluginUiStatus::UpdateAvailable {
                seq![
                    PluginMenuItem::CheckUpdates(id),
                    PluginMenuItem::AutoUpdate { provider_id: id, enable: !e.auto_update },
                    PluginMenuItem::Uninstall(id),
                ]
            } else {
                Seq::empty()
            }
        },
    }
}


impl Oryxis {

    /// The card menu of recording `idx`.
    pub fn build_menu_session_log_actions(&self, idx: usize) -> (items: Vec<SessionLogMenuItem>)
        ensures
            items@ == session_log_menu(self, idx, true),
    {
        self.build_menu_session_log_actions_impl(idx, true)
    }

    /// The viewer-header `...` variant, shared by the static viewer and
    /// the player header: both carry their own play affordance, so the
    /// menu skips the Play row.
    pub fn build_menu_session_log_viewer_actions(&self, idx: usize) -> (items: Vec<SessionLogMenuItem>)
        ensures
            items@ == session_log_menu(self, idx, false),
    {
        self.build_menu_session_log_actions_impl(idx, false)
    }

    /// The menu of recording `idx`, with or without the Play row.
    pub fn build_menu_session_log_actions_impl(&self, idx: usize, include_play: bool) -> (items: Vec<SessionLogMenuItem>)
        ensures
            items@ == session_log_menu(self, idx, include_play),
    {
        let mut items: Vec<SessionLogMenuItem> = Vec::new();
        if idx < self.session_logs.len() {
            let log_id = self.session_logs[idx].id;
            if self.session_log_full {
                if include_play {
                    items.push(SessionLogMenuItem::Play(log_id));
                }
                items.push(SessionLogMenuItem::ExportCast(log_id));
                items.push(SessionLogMenuItem::ExportGif(log_id));
            }
            items.push(SessionLogMenuItem::ExportTranscript(log_id));
            items.push(SessionLogMenuItem::ExportCommands(log_id));
        }
        items.push(SessionLogMenuItem::Delete(idx));
        items.push(SessionLogMenuItem::PrivacyNote);
        proof {
            assert(session_log_menu(self, idx, include_play) =~= items@);
        }
        items
    }

    /// Kebab of a saved AI conversation: read or delete, never resume.
    pub fn build_menu_chat_conversation_actions(&self, idx: usize) -> (items: Vec<ChatMenuItem>)
        ensures
            items@ == chat_menu(self, idx),
    {
        let mut items: Vec<ChatMenuItem> = Vec::new();
        if idx < self.chat_conversations.len() {
            items.push(ChatMenuItem::Open(self.chat_conversations[idx].id));
        }
        items.push(ChatMenuItem::Delete(idx));
        proof {
            assert(chat_menu(self, idx) =~= items@);
        }
        items
    }

    /// Menu of session group `idx`: Open, Edit, Duplicate, Remove.
    pub fn build_menu_session_group_actions(&self, idx: usize) -> (items: Vec<ListMenuItem>)
        ensures
            items@ == seq![ListMenuItem::Open(idx), ListMenuItem::Edit(idx), ListMenuItem::Duplicate(idx), ListMenuItem::Remove(idx)],
    {
        let items = vec![ListMenuItem::Open(idx), ListMenuItem::Edit(idx), ListMenuItem::Duplicate(idx), ListMenuItem::Remove(idx)];
        assert(items@ =~= seq![ListMenuItem::Open(idx), ListMenuItem::Edit(idx), ListMenuItem::Duplicate(idx), ListMenuItem::Remove(idx)]);
        items
    }

    /// Menu of SSH key `idx`.
    pub fn build_menu_key_actions(&self, idx: usize) -> (items: Vec<KeyMenuItem>)
        ensures
            items@ == key_menu(self, idx),
    {
        let mut items: Vec<KeyMenuItem> = Vec::new();
        items.push(KeyMenuItem::Edit(idx));
        if self.agent_enabled && idx < self.keys.len() && !self.keys[idx].is_security_key {
            let key: &SshKey = &self.keys[idx];
            items.push(KeyMenuItem::AgentExpose { key_id: key.id, exposed: key.expose_via_agent });
        }
        if idx < self.keys.len() && self.keys[idx].has_certificate {
            items.push(KeyMenuItem::ViewCertificate(idx));
            items.push(KeyMenuItem::RemoveCertificate(idx));
        }
        items.push(KeyMenuItem::Remove(idx));
        proof {
            assert(key_menu(self, idx) =~= items@);
        }
        items
    }

    /// Menu of identity `idx`: Edit, Remove.
    pub fn build_menu_identity_actions(&self, idx: usize) -> (items: Vec<ListMenuItem>)
        ensures
            items@ == seq![ListMenuItem::Edit(idx), ListMenuItem::Remove(idx)],
    {
        let items = vec![ListMenuItem::Edit(idx), ListMenuItem::Remove(idx)];
        assert(items@ =~= seq![ListMenuItem::Edit(idx), ListMenuItem::Remove(idx)]);
        items
    }

    /// Menu of snippet `idx`: Edit, Delete.
    pub fn build_menu_snippet_actions(&self, idx: usize) -> (items: Vec<ListMenuItem>)
        ensures
            items@ == seq![ListMenuItem::Edit(idx), ListMenuItem::Delete(idx)],
    {
        let items = vec![ListMenuItem::Edit(idx), ListMenuItem::Delete(idx)];
        assert(items@ =~= seq![ListMenuItem::Edit(idx), ListMenuItem::Delete(idx)]);
        items
    }

    /// Menu of port-forward rule `idx`: Edit, Delete.
    pub fn build_menu_port_forward_actions(&self, idx: usize) -> (items: Vec<ListMenuItem>)
        ensures
            items@ == seq![ListMenuItem::Edit(idx), ListMenuItem::Delete(idx)],
    {
        let items = vec![ListMenuItem::Edit(idx), ListMenuItem::Delete(idx)];
        assert(items@ =~= seq![ListMenuItem::Edit(idx), ListMenuItem::Delete(idx)]);
        items
    }

    /// Menu of host folder `gid`: Edit, New subgroup, Delete.
    pub fn build_menu_folder_actions(&self, gid: u128) -> (items: Vec<GroupMenuItem>)
        ensures
            items@ == seq![GroupMenuItem::EditFolder(gid), GroupMenuItem::NewSubgroup(gid), GroupMenuItem::DeleteFolder(gid)],
    {
        let items = vec![GroupMenuItem::EditFolder(gid), GroupMenuItem::NewSubgroup(gid), GroupMenuItem::DeleteFolder(gid)];
        assert(items@ =~= seq![GroupMenuItem::EditFolder(gid), GroupMenuItem::NewSubgroup(gid), GroupMenuItem::DeleteFolder(gid)]);
        items
    }

    /// Menu of dynamic group `id`: Edit, Rename, Delete.
    pub fn build_menu_dynamic_group_actions(&self, id: u128) -> (items: Vec<GroupMenuItem>)
        ensures
            items@ == seq![GroupMenuItem::EditDynamicGroup(id), GroupMenuItem::RenameDynamicGroup(id), GroupMenuItem::DeleteDynamicGroup(id)],
    {
        let items = vec![GroupMenuItem::EditDynamicGroup(id), GroupMenuItem::RenameDynamicGroup(id), GroupMenuItem::DeleteDynamicGroup(id)];
        assert(items@ =~= seq![GroupMenuItem::EditDynamicGroup(id), GroupMenuItem::RenameDynamicGroup(id), GroupMenuItem::DeleteDynamicGroup(id)]);
        items
    }

    /// Menu of cloud profile `id`: Edit, Sync, Delete.
    pub fn build_menu_cloud_profile_actions(&self, id: u128) -> (items: Vec<GroupMenuItem>)
        ensures
            items@ == seq![GroupMenuItem::EditCloudProfile(id), GroupMenuItem::SyncCloudProfile(id), GroupMenuItem::DeleteCloudProfile(id)],
    {
        let items = vec![GroupMenuItem::EditCloudProfile(id), GroupMenuItem::SyncCloudProfile(id), GroupMenuItem::DeleteCloudProfile(id)];
        assert(items@ =~= seq![GroupMenuItem::EditCloudProfile(id), GroupMenuItem::SyncCloudProfile(id), GroupMenuItem::DeleteCloudProfile(id)]);
        items
    }

    /// Index of the first plugin row whose provider id is `provider_id`,
    /// or the row count when there is none.
    pub fn plugin_position(&self, provider_id: &str) -> (i: usize)
        ensures
            i <= self.plugins@.len(),
            i < self.plugins@.len() ==> self.plugins@[i as int].provider_id@ == provider_id@,
            forall|j: int| 0 <= j < i ==> self.plugins@[j].provider_id@ != provider_id@,
    {
        let want = chars_of(provider_id);
        let mut i: usize = 0;
        while i < self.plugins.len()
            invariant
                i <= self.plugins.len(),
                want@ == provider_id@,
                forall|j: int| 0 <= j < i ==> self.plugins@[j].provider_id@ != provider_id@,
            decreases self.plugins.len() - i,
        {
            let have = chars_of(self.plugins[i].provider_id.as_str());
            if chars_eq(&have, &want) {
                return i;
            }
            i = i + 1;
        }
        i
    }

    /// Plugin-row kebab for `provider_id`.
    pub fn build_menu_plugin_actions(&self, provider_id: &str) -> (items: Vec<PluginMenuItem>)
        ensures
            items@ == plugin_menu(self, provider_id@),
    {
        let i = self.plugin_position(provider_id);
        let mut items: Vec<PluginMenuItem> = Vec::new();
        if i == self.plugins.len() {
            proof {
                assert(plugin_index(self, provider_id@) is None);
                assert(items@ =~= plugin_menu(self, provider_id@));
            }
            return items;
        }
        proof {
            let k = i as int;
            assert(0 <= k < self.plugins@.len() && self.plugins@[k].provider_id@ == provider_id@);
            let c = plugin_index(self, provider_id@)->0;
            if c < k {
                assert(self.plugins@[c].provider_id@ != provider_id@);
            }
            if k < c {
                assert(self.plugins@[k].provider_id@ != provider_id@);
            }
            assert(plugin_index(self, provider_id@) == Some(k));
        }
        let status = self.plugins[i].status;
        if status == PluginUiStatus::DevBuild && self.plugins[i].cached_install {
            items.push(PluginMenuItem::RemoveDownloads(self.plugins[i].provider_id.clone()));
        } else if status == PluginUiStatus::Installed || status == PluginUiStatus::UpdateAvailable {
            items.push(PluginMenuItem::CheckUpdates(self.plugins[i].provider_id.clone()));
            items.push(PluginMenuItem::AutoUpdate {
                provider_id: self.plugins[i].provider_id.clone(),
                enable: !self.plugins[i].auto_update,
            });
            items.push(PluginMenuItem::Uninstall(self.plugins[i].provider_id.clone()));
        }
        proof {
            assert(items@ =~= plugin_menu(self, provider_id@));
        }
        items
    }

    /// The card menu of host `idx` (dashboard surface).
    pub fn build_menu_host_actions(&self, idx: usize) -> (items: Vec<HostMenuItem>)
        ensures
            items@ == host_menu(self, idx, true),
    {
        self.build_menu_host_actions_inner(idx, true)
    }

    /// The sidebar Hosts tree's reduced host menu: the same actions as
    /// the card menu minus Remove and the dashboard filter entry.
    pub fn build_menu_tree_host_actions(&self, idx: usize) -> (items: Vec<HostMenuItem>)
        ensures
            items@ == host_menu(self, idx, false),
    {
        self.build_menu_host_actions_inner(idx, false)
    }

    /// Row count of the host menu for the same `idx` and surface, which
    /// the overlay is sized by.
    pub fn host_actions_menu_rows(&self, idx: usize, dashboard: bool) -> (rows: u32)
        ensures
            rows == host_menu_row_count(self, idx, dashboard),
    {
        let protocol = if idx < self.connections.len() {
            self.connections[idx].protocol
        } else {
            ConnectionProtocol::Ssh
        };
        let mut rows: u32 = 3;
        if protocol == ConnectionProtocol::Ssh {
            rows = rows + 1;
            if self.sftp_enabled {
                rows = rows + 1;
            }
        }
        if protocol == ConnectionProtocol::Ssh || protocol == ConnectionProtocol::Telnet {
            rows = rows + 1;
        }
        if self.wol_mac_present(idx) {
            rows = rows + 1;
        }
        if self.desktop_tunnel_live(idx) {
            rows = rows + 1;
        }
        if dashboard {
            if idx < self.connections.len() && self.connections[idx].cloud_ref.is_some() {
                rows = rows + 1;
            }
            rows = rows + 1;
        }
        rows
    }

    /// Whether host `idx` exists and carries a non-empty MAC address.
    pub fn wol_mac_present(&self, idx: usize) -> (b: bool)
        ensures
            b == has_wol_mac(self, idx),
    {
        if idx < self.connections.len() {
            match &self.connections[idx].mac_address {
                Some(m) => !m.as_str().is_empty(),
                None => false,
            }
        } else {
            false
        }
    }

    /// Whether host `idx` is a remote-desktop host with a live tunnel.
    pub fn desktop_tunnel_live(&self, idx: usize) -> (b: bool)
        ensures
            b == has_live_desktop(self, idx),
    {
        idx < self.connections.len()
            && self.connections[idx].protocol == ConnectionProtocol::RemoteDesktop
            && contains_id(&self.remote_desktop_forwards, self.connections[idx].id)
    }

    /// The host menu of row `idx`; `dashboard` gates Remove / Forget and
    /// the filter-by-cloud-profile entry, which only make sense on the
    /// dashboard surface.
    pub fn build_menu_host_actions_inner(&self, idx: usize, dashboard: bool) -> (items: Vec<HostMenuItem>)
        ensures
            items@ == host_menu(self, idx, dashboard),
    {
        let protocol = if idx < self.connections.len() {
            self.connections[idx].protocol
        } else {
            ConnectionProtocol::Ssh
        };
        let cref: Option<CloudRef> = if idx < self.connections.len() {
            self.connections[idx].cloud_ref
        } else {
            None
        };
        let mut items: Vec<HostMenuItem> = Vec::new();
        items.push(HostMenuItem::Connect(idx));
        items.push(HostMenuItem::Edit(idx));
        items.push(HostMenuItem::Duplicate(idx));
        let ghost s0 = items@;
        if protocol == ConnectionProtocol::Ssh {
            items.push(HostMenuItem::Share(idx));
            if self.sftp_enabled {
                items.push(HostMenuItem::OpenSftpTab(idx));
            }
        }
        let ghost s1 = items@;
        if protocol == ConnectionProtocol::Ssh || protocol == ConnectionProtocol::Telnet {
            items.push(HostMenuItem::CopySshUrl(idx));
        }
        let ghost s2 = items@;
        if self.wol_mac_present(idx) {
            items.push(HostMenuItem::WakeOnLan(idx));
        }
        let ghost s3 = items@;
        if self.desktop_tunnel_live(idx) {
            items.push(HostMenuItem::StopRemoteDesktop(self.connections[idx].id));
        }
        let ghost s4 = items@;
        if dashboard {
            if let Some(r) = cref {
                items.push(HostMenuItem::FilterByCloudProfile(r.profile_id));
            }
        }
        let ghost s5 = items@;
        if dashboard {
            let orphan = match cref {
                Some(r) => r.orphaned,
                None => false,
            };
            if orphan {
                items.push(HostMenuItem::Forget(idx));
            } else {
                items.push(HostMenuItem::Remove(idx));
            }
        }
        proof {
            let p = menu_protocol(self, idx);
            assert(s0 == seq![HostMenuItem::Connect(idx), HostMenuItem::Edit(idx), HostMenuItem::Duplicate(idx)]);
            assert(host_menu(self, idx, dashboard) =~= items@);
        }
        items
    }
}

} // verus!
