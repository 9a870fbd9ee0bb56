//! The terminal sidebar's tmux tab: the rows it shows for the focused
//! pane's tmux listing, and how each session row reads.

use vstd::prelude::*;
use crate::text::str_eq;

verus! {

/// A tmux session on the remote host.
#[derive(Clone, Debug)]
pub struct TmuxSession {
    pub name: String,
    pub windows: u32,
    /// Some client is attached to it.
    pub attached: bool,
    pub group: Option<String>,
}

/// Where the pane's tmux listing stands.
#[derive(Clone, Copy, Debug, PartialEq, Eq, Structural)]
pub enum TmuxStatus {
    Idle,
    Loading,
    /// tmux is not installed on the host.
    NoTmux,
    /// Listing failed; the host's own message is shown.
    Failed,
    /// The sessions were listed.
    Ready,
}

/// What the pane's tmux entry holds.
#[derive(Clone, Debug)]
pub struct TmuxPane {
    pub status: TmuxStatus,
    /// The sessions of a `Ready` listing.
    pub sessions: Vec<TmuxSession>,
    /// The session whose kill awaits confirmation.
    pub confirm_kill: Option<String>,
    /// The session this pane is believed to be showing.
    pub attached_to: Option<String>,
    /// The last action failed with a message.
    pub has_error: bool,
    /// The position of the session row under the mouse.
    pub hovered: Option<usize>,
}

/// The attached marker of a session row.
#[derive(Clone, Copy, Debug, PartialEq, Eq, Structural)]
pub enum AttachMarker {
    /// The pane shows this session: the row is highlighted and inert.
    Here,
    /// Another client is attached.
    Elsewhere,
    Unattached,
}

/// Which hint line the tab shows.
#[derive(Clone, Copy, Debug, PartialEq, Eq, Structural)]
pub enum TmuxHint {
    Listing,
    NotInstalled,
    Failed,
    NoSessions,
}

/// One item of the tab, top to bottom.
#[derive(Clone, Copy, Debug, PartialEq, Eq, Structural)]
pub enum TmuxItem {
    /// No SSH session to list tmux on.
    NoSession,
    Header,
    Hint(TmuxHint),
    /// The inline kill confirmation standing in for session `index`.
    KillConfirm(usize),
    /// Session `index`: attaching on click unless it is the pane's own,
    /// with the hover-revealed kill button.
    Session { index: usize, marker: AttachMarker, attachable: bool, kill_chip: bool },
    NewSession,
    /// The last action's error line.
    Error,
}

/// The row of session `i`.
pub open spec fn session_item(p: TmuxPane, i: int) -> TmuxItem {
    let s = p.sessions@[i];
    if p.confirm_kill is Some && p.confirm_kill->0@ == s.name@ {
        TmuxItem::KillConfirm(i as usize)
    } else {
        let here = p.attached_to is Some && p.attached_to->0@ == s.name@;
        TmuxItem::Session {
            index: i as usize,
            marker: if here { AttachMarker::Here } else if s.attached { AttachMarker::Elsewhere } else { AttachMarker::Unattached },
            attachable: !here,
            kill_chip: p.hovered == Some(i as usize),
        }
    }
}

/// The status part of the tab.
pub open spec fn status_items(p: TmuxPane) -> Seq<TmuxItem> {
    match p.status {
        TmuxStatus::Idle | TmuxStatus::Loading => seq![TmuxItem::Hint(TmuxHint::Listing)],
        TmuxStatus::NoTmux => seq![TmuxItem::Hint(TmuxHint::NotInstalled)],
        TmuxStatus::Failed => seq![TmuxItem::Hint(TmuxHint::Failed)],
        TmuxStatus::Ready => (if p.sessions@.len() == 0 { seq![TmuxItem::Hint(TmuxHint::NoSessions)] } else { Seq::empty() })
            + Seq::new(p.sessions@.len(), |i: int| session_item(p, i))
            + seq![TmuxItem::NewSession],
    }
}

/// The whole tab: a placeholder without an SSH session; otherwise the
/// header, the status part, and the error line when the last action
/// failed.
pub open spec fn tmux_items_spec(has_ssh: bool, p: TmuxPane) -> Seq<TmuxItem> {
    if !has_ssh {
        seq![TmuxItem::NoSession]
    } else {
        seq![TmuxItem::Header] + status_items(p)
            + (if p.has_error { seq![TmuxItem::Error] } else { Seq::empty() })
    }
}

/// Whether the optional name is `name`.
fn names(opt: &Option<String>, name: &str) -> (b: bool)
    ensures
        b == (opt is Some && opt->0@ == name@),
{
    match opt {
        Some(s) => str_eq(s.as_str(), name),
        None => false,
    }
}

/// The items of the tmux tab, top to bottom.
pub fn tmux_items(has_ssh: bool, p: &TmuxPane) -> (items: Vec<TmuxItem>)
    ensures
        items@ == tmux_items_spec(has_ssh, *p),
{
    let mut out: Vec<TmuxItem> = Vec::new();
    if !has_ssh {
        out.push(TmuxItem::NoSession);
        assert(out@ =~= tmux_items_spec(has_ssh, *p));
        return out;
    }
    out.push(TmuxItem::Header);
    match p.status {
        TmuxStatus::Idle | TmuxStatus::Loading => out.push(TmuxItem::Hint(TmuxHint::Listing)),
        TmuxStatus::NoTmux => out.push(TmuxItem::Hint(TmuxHint::NotInstalled)),
        TmuxStatus::Failed => out.push(TmuxItem::Hint(TmuxHint::Failed)),
        TmuxStatus::Ready => {
            if p.sessions.len() == 0 {
                out.push(TmuxItem::Hint(TmuxHint::NoSessions));
            }
            let ghost base = out@;
            let mut i: usize = 0;
            while i < p.sessions.len()
                invariant
                    i <= p.sessions@.len(),
                    out@ == base + Seq::new(i as nat, |k: int| session_item(*p, k)),
                decreases p.sessions.len() - i,
            {
                let s = &p.sessions[i];
                let item = if names(&p.confirm_kill, s.name.as_str()) {
                    TmuxItem::KillConfirm(i)
                } else {
                    let here = names(&p.attached_to, s.name.as_str());
                    TmuxItem::Session {
                        index: i,
                        marker: if here { AttachMarker::Here } else if s.attached { AttachMarker::Elsewhere } else { AttachMarker::Unattached },
                        attachable: !here,
                        kill_chip: match p.hovered {
                            Some(h) => h == i,
                            None => false,
                        },
                    }
                };
                out.push(item);
                proof {
                    assert(out@ =~= base + Seq::new((i + 1) as nat, |k: int| session_item(*p, k)));
                }
                i = i + 1;
            }
            out.push(TmuxItem::NewSession);
        },
    }
    if p.has_error {
        out.push(TmuxItem::Error);
    }
    assert(out@ =~= tmux_items_spec(has_ssh, *p));
    out
}

/// The session the pane already shows is never offered for attaching
/// (the attach line would be typed into that very session), and every
/// other listed session is.
pub proof fn own_session_is_inert(has_ssh: bool, p: TmuxPane)
    ensures
        forall|k: int| 0 <= k < tmux_items_spec(has_ssh, p).len() ==> (#[trigger] tmux_items_spec(has_ssh, p)[k] matches
            TmuxItem::Session { marker, attachable, .. } ==> (attachable <==> marker != AttachMarker::Here)),
{
    let items = tmux_items_spec(has_ssh, p);
    assert forall|k: int| 0 <= k < items.len() implies (#[trigger] items[k] matches
        TmuxItem::Session { marker, attachable, .. } ==> (attachable <==> marker != AttachMarker::Here)) by {
        if has_ssh && p.status == TmuxStatus::Ready {
            let hint: Seq<TmuxItem> = if p.sessions@.len() == 0 { seq![TmuxItem::Hint(TmuxHint::NoSessions)] } else { Seq::empty() };
            let base = 1 + hint.len();
            if base <= k < base + p.sessions@.len() {
                assert(items[k] == session_item(p, k - base));
            }
        }
    }
}

/// Each session row's badge reads the session's own state: a row stands
/// for a listed session; it is marked as the pane's own exactly when the
/// pane is attached to a session of that name; otherwise it is marked as
/// attached elsewhere exactly when some client is attached to it, and as
/// unattached when none is.
pub proof fn session_badge_follows_attachment(has_ssh: bool, p: TmuxPane)
    ensures
        forall|k: int| 0 <= k < tmux_items_spec(has_ssh, p).len() ==> (#[trigger] tmux_items_spec(has_ssh, p)[k] matches
            TmuxItem::Session { index, marker, .. } ==> {
                let here = p.attached_to is Some && p.attached_to->0@ == p.sessions@[index as int].name@;
                &&& index < p.sessions@.len()
                &&& (marker == AttachMarker::Here <==> here)
                &&& (marker == AttachMarker::Elsewhere <==> !here && p.sessions@[index as int].attached)
                &&& (marker == AttachMarker::Unattached <==> !here && !p.sessions@[index as int].attached)
            }),
{
    let items = tmux_items_spec(has_ssh, p);
    assert forall|k: int| 0 <= k < items.len() implies (#[trigger] items[k] matches
        TmuxItem::Session { index, marker, .. } ==> {
            let here = p.attached_to is Some && p.attached_to->0@ == p.sessions@[index as int].name@;
            &&& index < p.sessions@.len()
            &&& (marker == AttachMarker::Here <==> here)
            &&& (marker == AttachMarker::Elsewhere <==> !here && p.sessions@[index as int].attached)
            &&& (marker == AttachMarker::Unattached <==> !here && !p.sessions@[index as int].attached)
        }) by {
        if has_ssh && p.status == TmuxStatus::Ready {
            let hint: Seq<TmuxItem> = if p.sessions@.len() == 0 { seq![TmuxItem::Hint(TmuxHint::NoSessions)] } else { Seq::empty() };
            let base = 1 + hint.len();
            if base <= k < base + p.sessions@.len() {
                assert(p.sessions@.len() == p.sessions.len());
                let i = k - base;
                assert(items[k] == session_item(p, i));
                assert((i as usize) as int == i);
            }
        }
    }
}

} // verus!
