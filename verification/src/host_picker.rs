//! The "Select a host" modal of the Sync settings, shared by the SFTP
//! snapshot transport's backup host and the relay deploy's target host.

use vstd::prelude::*;
use crate::search::{host_matches, keep_in_order, keep_in_order_every, lowercase, matches_text, natural_order, needle_of};
use crate::state::Oryxis;

verus! {

/// Which Sync form the host picker is choosing for.
#[derive(Clone, Copy, Debug, PartialEq, Eq, Structural)]
pub enum HostPickerTarget {
    /// The SFTP snapshot transport's backup host.
    SftpSync,
    /// The relay deploy's target host.
    RelayDeploy,
}

/// The messages the picker fires.
#[derive(Clone, Debug, PartialEq, Eq)]
pub enum PickerMessage {
    SftpHostChanged(u128),
    DeployHostChanged(u128),
    SftpHostPickerClose,
    DeployHostPickerClose,
    SftpHostPickerSearch(String),
    DeployHostPickerSearch(String),
}

/// The search buffer the picker for `target` edits.
pub open spec fn picker_search(app: &Oryxis, target: HostPickerTarget) -> Seq<char> {
    match target {
        HostPickerTarget::SftpSync => app.sftp_sync_picker_search@,
        HostPickerTarget::RelayDeploy => app.relay_deploy_picker_search@,
    }
}

/// The rows the picker lists: the saved hosts, in vault order, whose
/// label or address contains the lowercased query (all of them for an
/// empty query).
pub open spec fn picker_rows(app: &Oryxis, target: HostPickerTarget) -> Seq<usize> {
    let q = lowercase(picker_search(app, target));
    keep_in_order(
        natural_order(app.connections@.len()),
        |i: usize| i < app.connections@.len()
            && host_matches(app.connections@[i as int].label@, app.connections@[i as int].hostname@, q),
    )
}

impl HostPickerTarget {
    /// The search buffer of this picker.
    pub fn search(self, app: &Oryxis) -> (s: &str)
        ensures
            s@ == picker_search(app, self),
    {
        match self {
            HostPickerTarget::SftpSync => app.sftp_sync_picker_search.as_str(),
            HostPickerTarget::RelayDeploy => app.relay_deploy_picker_search.as_str(),
        }
    }

    /// The message choosing host `id`.
    pub fn pick(self, id: u128) -> (m: PickerMessage)
        ensures
            m == (match self {
                HostPickerTarget::SftpSync => PickerMessage::SftpHostChanged(id),
                HostPickerTarget::RelayDeploy => PickerMessage::DeployHostChanged(id),
            }),
    {
        match self {
            HostPickerTarget::SftpSync => PickerMessage::SftpHostChanged(id),
            HostPickerTarget::RelayDeploy => PickerMessage::DeployHostChanged(id),
        }
    }

    /// The message closing the picker.
    pub fn close(self) -> (m: PickerMessage)
        ensures
            m == (match self {
                HostPickerTarget::SftpSync => PickerMessage::SftpHostPickerClose,
                HostPickerTarget::RelayDeploy => PickerMessage::DeployHostPickerClose,
            }),
    {
        match self {
            HostPickerTarget::SftpSync => PickerMessage::SftpHostPickerClose,
            HostPickerTarget::RelayDeploy => PickerMessage::DeployHostPickerClose,
        }
    }

    /// The message storing the edited query `v`.
    pub fn search_changed(self, v: String) -> (m: PickerMessage)
        ensures
            m == (match self {
                HostPickerTarget::SftpSync => PickerMessage::SftpHostPickerSearch(v),
                HostPickerTarget::RelayDeploy => PickerMessage::DeployHostPickerSearch(v),
            }),
    {
        match self {
            HostPickerTarget::SftpSync => PickerMessage::SftpHostPickerSearch(v),
            HostPickerTarget::RelayDeploy => PickerMessage::DeployHostPickerSearch(v),
        }
    }
}

/// The hosts the picker for `target` lists, as indices into the saved
/// connections, in vault order.
///
/// With nothing typed, every saved host is listed, in vault order.
pub fn sync_host_picker_rows(app: &Oryxis, target: HostPickerTarget) -> (rows: Vec<usize>)
    ensures
        rows@ == picker_rows(app, target),
        picker_search(app, target).len() == 0 ==> rows@ == natural_order(app.connections@.len()),
{
    let q = needle_of(target.search(app));
    let n = app.connections.len();
    let ghost keep = |i: usize| i < app.connections@.len()
        && host_matches(app.connections@[i as int].label@, app.connections@[i as int].hostname@, q@);
    let mut rows: Vec<usize> = Vec::new();
    let mut i: usize = 0;
    while i < n
        invariant
            i <= n == app.connections@.len(),
            q@ == lowercase(picker_search(app, target)),
            keep == (|i: usize| i < app.connections@.len()
                && host_matches(app.connections@[i as int].label@, app.connections@[i as int].hostname@, q@)),
            rows@ == keep_in_order(natural_order(i as nat), keep),
        decreases n - i,
    {
        let c = &app.connections[i];
        let hit = q.len() == 0 || matches_text(c.label.as_str(), &q) || matches_text(c.hostname.as_str(), &q);
        proof {
            assert(natural_order((i + 1) as nat).drop_last() =~= natural_order(i as nat));
            assert(natural_order((i + 1) as nat).last() == i);
            assert(hit == keep(i));
        }
        if hit {
            rows.push(i);
        }
        i = i + 1;
    }
    proof {
        if picker_search(app, target).len() == 0 {
            lemma_empty_needle_lists_every_host(app, target);
        }
    }
    rows
}

/// An empty needle lists every saved host, in vault order.
proof fn lemma_empty_needle_lists_every_host(app: &Oryxis, target: HostPickerTarget)
    requires
        lowercase(picker_search(app, target)).len() == 0,
    ensures
        picker_rows(app, target) == natural_order(app.connections@.len()),
{
    let n = app.connections@.len();
    let q = lowercase(picker_search(app, target));
    let keep = |i: usize| i < app.connections@.len()
        && host_matches(app.connections@[i as int].label@, app.connections@[i as int].hostname@, q);
    assert forall|k: int| 0 <= k < natural_order(n).len() implies #[trigger] keep(natural_order(n)[k]) by {}
    keep_in_order_every(natural_order(n), keep);
}

} // verus!
