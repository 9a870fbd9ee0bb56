//! Settings > Sync: the transport picker, the per-transport config
//! block, the Auto/Manual mode, the engine state line and which cards
//! the section shows.

use vstd::prelude::*;
use crate::text::str_eq;

verus! {

/// Settings token of transport `i` of the picker (in picker order).
pub open spec fn transport_token(i: int) -> Seq<char> {
    if i == 0 { "p2p"@ }
    else if i == 1 { "sftp"@ }
    else if i == 2 { "folder"@ }
    else if i == 3 { "git"@ }
    else { "webdav"@ }
}

/// Picker row of a transport token: its position in the table, and the
/// first row (P2P) for a token this build does not know.
pub open spec fn transport_row(token: Seq<char>) -> int {
    if token == "p2p"@ { 0 }
    else if token == "sftp"@ { 1 }
    else if token == "folder"@ { 2 }
    else if token == "git"@ { 3 }
    else if token == "webdav"@ { 4 }
    else { 0 }
}

/// The settings token of picker row `i` (`i < 5`).
pub fn transport_token_at(i: usize) -> (t: &'static str)
    requires
        i < 5,
    ensures
        t@ == transport_token(i as int),
{
    if i == 0 { "p2p" }
    else if i == 1 { "sftp" }
    else if i == 2 { "folder" }
    else if i == 3 { "git" }
    else { "webdav" }
}

/// The translation key of picker row `i`'s label.
pub fn transport_label_key(i: usize) -> (k: &'static str)
    requires
        i < 5,
    ensures
        k@ == (if i == 0 { "sync_transport_p2p"@ }
            else if i == 1 { "sync_transport_sftp"@ }
            else if i == 2 { "sync_transport_folder"@ }
            else if i == 3 { "sync_transport_git"@ }
            else { "sync_transport_webdav"@ }),
{
    if i == 0 { "sync_transport_p2p" }
    else if i == 1 { "sync_transport_sftp" }
    else if i == 2 { "sync_transport_folder" }
    else if i == 3 { "sync_transport_git" }
    else { "sync_transport_webdav" }
}

/// The picker row selected for the stored transport token; an unknown
/// token (a row from a newer build) shows as P2P.
pub fn selected_transport(token: &str) -> (i: usize)
    ensures
        i == transport_row(token@),
        i < 5,
{
    if str_eq(token, "p2p") { 0 }
    else if str_eq(token, "sftp") { 1 }
    else if str_eq(token, "folder") { 2 }
    else if str_eq(token, "git") { 3 }
    else if str_eq(token, "webdav") { 4 }
    else { 0 }
}

/// The token a picked label stands for: the transport whose (translated)
/// label it is, first match first; P2P when no label matches.
pub open spec fn token_for_label(labels: Seq<String>, v: Seq<char>) -> Seq<char> {
    if exists|i: int| 0 <= i < labels.len() && labels[i]@ == v {
        transport_token(choose|i: int| 0 <= i < labels.len() && labels[i]@ == v
            && forall|j: int| 0 <= j < i ==> labels[j]@ != v)
    } else {
        "p2p"@
    }
}

/// Maps a picked (translated) label back to its transport token.
/// `labels` are the five picker labels in picker order.
pub fn transport_for_label(labels: &Vec<String>, v: &str) -> (t: &'static str)
    requires
        labels@.len() == 5,
    ensures
        t@ == token_for_label(labels@, v@),
{
    let mut i: usize = 0;
    while i < labels.len()
        invariant
            i <= labels@.len() == 5,
            forall|j: int| 0 <= j < i ==> labels@[j]@ != v@,
        decreases labels.len() - i,
    {
        if str_eq(labels[i].as_str(), v) {
            proof {
                let c = choose|k: int| 0 <= k < labels@.len() && labels@[k]@ == v@
                    && forall|j: int| 0 <= j < k ==> labels@[j]@ != v@;
                assert(labels@[i as int]@ == v@);
                if c < i {
                    assert(labels@[c]@ != v@);
                }
                if i < c {
                    assert(labels@[i as int]@ != v@);
                }
            }
            return transport_token_at(i);
        }
        i = i + 1;
    }
    "p2p"
}

/// The Auto/Manual mode a picked label stands for: the localized Auto
/// label, or the English "Auto" of a label saved in another locale, is
/// `auto`; anything else is `manual`.
pub fn mode_for_label(v: &str, auto_label: &str) -> (m: &'static str)
    ensures
        m@ == (if v@ == auto_label@ || v@ == "Auto"@ { "auto"@ } else { "manual"@ }),
{
    if str_eq(v, auto_label) || str_eq(v, "Auto") { "auto" } else { "manual" }
}

/// The config block joined to the Transport card.
#[derive(Clone, Copy, Debug, PartialEq, Eq, Structural)]
pub enum TransportConfig {
    Sftp,
    Folder,
    Git,
    Webdav,
}

/// The config block for the stored transport: SFTP whenever the SFTP
/// transport is active, the folder / Git / WebDAV card for theirs, none
/// for P2P (and unknown tokens).
pub open spec fn config_block(transport: Seq<char>, is_sftp: bool) -> Option<TransportConfig> {
    if is_sftp { Some(TransportConfig::Sftp) }
    else if transport == "folder"@ { Some(TransportConfig::Folder) }
    else if transport == "git"@ { Some(TransportConfig::Git) }
    else if transport == "webdav"@ { Some(TransportConfig::Webdav) }
    else { None }
}

/// Which config block the Transport card shows.
pub fn transport_config(transport: &str, is_sftp: bool) -> (c: Option<TransportConfig>)
    ensures
        c == config_block(transport@, is_sftp),
{
    if is_sftp { Some(TransportConfig::Sftp) }
    else if str_eq(transport, "folder") { Some(TransportConfig::Folder) }
    else if str_eq(transport, "git") { Some(TransportConfig::Git) }
    else if str_eq(transport, "webdav") { Some(TransportConfig::Webdav) }
    else { None }
}

/// Tone of a status line.
#[derive(Clone, Copy, Debug, PartialEq, Eq, Structural)]
pub enum Tone {
    Success,
    Muted,
    Warning,
    Error,
    Accent,
    Primary,
}

/// The engine-state line under the Sync enable toggle, as a translation
/// key and a tone. Snapshot transports run no background engine, so
/// they report their own active / stopped label instead of the P2P
/// engine's.
pub open spec fn engine_state_spec(is_p2p: bool, enabled: bool, transport: Seq<char>, running: bool) -> (Seq<char>, Tone) {
    if !is_p2p {
        if enabled {
            (if transport == "sftp"@ { "sftp_sync_active_label"@ } else { "snapshot_sync_active_label"@ }, Tone::Success)
        } else {
            ("sync_engine_stopped_label"@, Tone::Muted)
        }
    } else if running {
        ("sync_engine_running_label"@, Tone::Success)
    } else {
        ("sync_engine_stopped_label"@, Tone::Muted)
    }
}

/// The engine-state line of the Sync section.
pub fn sync_engine_state(is_p2p: bool, enabled: bool, transport: &str, engine_running: bool) -> (r: (&'static str, Tone))
    ensures
        (r.0@, r.1) == engine_state_spec(is_p2p, enabled, transport@, engine_running),
{
    if !is_p2p {
        if enabled {
            (if str_eq(transport, "sftp") { "sftp_sync_active_label" } else { "snapshot_sync_active_label" }, Tone::Success)
        } else {
            ("sync_engine_stopped_label", Tone::Muted)
        }
    } else if engine_running {
        ("sync_engine_running_label", Tone::Success)
    } else {
        ("sync_engine_stopped_label", Tone::Muted)
    }
}

/// The action button of the Options card in Manual mode.
#[derive(Clone, Copy, Debug, PartialEq, Eq, Structural)]
pub enum OptionsAction {
    /// SFTP round: "Sync now", enabled.
    SftpSyncNow,
    /// SFTP round in flight: relabelled and disabled.
    SftpRunning,
    /// P2P: "Sync now".
    P2pSyncNow,
    /// P2P sync in flight: Cancel.
    P2pCancel,
}

/// The Options card's action: only in Manual mode and only for SFTP and
/// P2P (the other transports carry their own button in their card).
pub open spec fn options_action_spec(manual: bool, is_sftp: bool, is_p2p: bool, sftp_busy: bool, p2p_busy: bool) -> Option<OptionsAction> {
    if !(manual && (is_sftp || is_p2p)) {
        None
    } else if is_sftp {
        Some(if sftp_busy { OptionsAction::SftpRunning } else { OptionsAction::SftpSyncNow })
    } else {
        Some(if p2p_busy { OptionsAction::P2pCancel } else { OptionsAction::P2pSyncNow })
    }
}

/// The Options card's action for the stored mode (`"manual"` or not).
pub fn sync_options_action(mode: &str, is_sftp: bool, is_p2p: bool, sftp_in_progress: bool, in_progress: bool) -> (a: Option<OptionsAction>)
    ensures
        a == options_action_spec(mode@ == "manual"@, is_sftp, is_p2p, sftp_in_progress, in_progress),
{
    let manual = str_eq(mode, "manual");
    if !(manual && (is_sftp || is_p2p)) {
        None
    } else if is_sftp {
        Some(if sftp_in_progress { OptionsAction::SftpRunning } else { OptionsAction::SftpSyncNow })
    } else {
        Some(if in_progress { OptionsAction::P2pCancel } else { OptionsAction::P2pSyncNow })
    }
}

/// The state of the Git card's button and warning. `git_available` is
/// the cached probe (`None` while it runs).
#[derive(Clone, Copy, Debug, PartialEq, Eq, Structural)]
pub struct GitCardState {
    /// "Sync now" is enabled.
    pub sync_enabled: bool,
    /// The "git not found" warning shows.
    pub warn_no_git: bool,
}

/// The Git card waits for the probe instead of guessing: Sync now needs
/// no round in flight and a probe that found git; the warning shows only
/// once the probe answered that git is missing.
pub fn git_card_state(busy: bool, git_available: Option<bool>) -> (s: GitCardState)
    ensures
        s.sync_enabled == (!busy && git_available == Some(true)),
        s.warn_no_git == (git_available == Some(false)),
{
    let has_git = match git_available {
        Some(b) => b,
        None => false,
    };
    GitCardState { sync_enabled: !busy && has_git, warn_no_git: git_available == Some(false) }
}

/// A card of the Sync section.
#[derive(Clone, Copy, Debug, PartialEq, Eq, Structural)]
pub enum SyncCard {
    EngineState,
    HowItWorks,
    Transport,
    Options,
    Devices,
    Advanced,
}

/// The Sync section's cards, in on-screen order: the engine state and the
/// primer always; Transport and Options once sync is enabled; the P2P
/// engine's Devices and Advanced cards only for the P2P transport.
pub open spec fn sync_cards_spec(enabled: bool, is_p2p: bool) -> Seq<SyncCard> {
    seq![SyncCard::EngineState, SyncCard::HowItWorks]
        + (if enabled {
            seq![SyncCard::Transport, SyncCard::Options]
                + (if is_p2p { seq![SyncCard::Devices, SyncCard::Advanced] } else { Seq::empty() })
        } else {
            Seq::empty()
        })
}

/// The cards the Sync section shows.
pub fn sync_cards(enabled: bool, is_p2p: bool) -> (cards: Vec<SyncCard>)
    ensures
        cards@ == sync_cards_spec(enabled, is_p2p),
{
    let mut cards: Vec<SyncCard> = Vec::new();
    cards.push(SyncCard::EngineState);
    cards.push(SyncCard::HowItWorks);
    if enabled {
        cards.push(SyncCard::Transport);
        cards.push(SyncCard::Options);
        if is_p2p {
            cards.push(SyncCard::Devices);
            cards.push(SyncCard::Advanced);
        }
    }
    proof {
        assert(cards@ =~= sync_cards_spec(enabled, is_p2p));
    }
    cards
}

} // verus!
