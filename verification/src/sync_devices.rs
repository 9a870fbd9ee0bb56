//! Settings -> Sync, the devices card: what the pairing section shows in
//! each pairing state, and the discovered and paired device lists.

use vstd::prelude::*;
use crate::snippets::{in_four_digit_years, two_digits, ymd_text};

verus! {

/// Where the pairing handshake stands on this device.
#[derive(Clone, Copy, Debug, PartialEq, Eq, Structural)]
pub enum PairingState {
    /// Not pairing: offer to host or to join.
    Idle,
    /// Showing a code for another device to enter.
    Hosting,
    /// Entering another device's code and address.
    Joining,
}

/// A device found on the local network.
#[derive(Clone, Debug)]
pub struct DiscoveredPeer {
    pub device_id: u128,
    pub device_name: String,
    pub addr: String,
}

/// What the devices card is drawn from.
#[derive(Clone, Debug)]
pub struct DevicesCard {
    pub state: PairingState,
    pub discovered: Vec<DiscoveredPeer>,
    /// The hosting side has generated its code.
    pub has_code: bool,
    /// The hosting side has a cross-network pairing link.
    pub has_link: bool,
    /// A sync status line is set.
    pub has_status: bool,
    /// For each paired device, whether it has synced at least once.
    pub peers_synced: Vec<bool>,
}

/// One item of the pairing section, top to bottom.
#[derive(Clone, Copy, Debug, PartialEq, Eq, Structural)]
pub enum PairingItem {
    HostButton,
    JoinButton,
    DiscoveredHeader,
    /// Discovered device `index`, with its "Pair" button; `unnamed` when
    /// it announced no name (the row then reads as an unnamed device).
    Discovered { index: usize, unnamed: bool },
    ShowCodeHint,
    Code,
    LinkLabel,
    Link,
    CopyLinkButton,
    CancelHosting,
    CodeInput,
    TargetInput,
    ConnectButton,
    CancelJoin,
    OrSeparator,
    LinkInput,
    ConnectWithLink,
    /// The status line mirrored next to the form being filled in.
    StatusBanner,
    PairedHeader,
    /// Paired device `index`, its last sync time (or "never") and Unpair.
    Paired { index: usize, synced: bool },
}

/// The discovered-device rows.
pub open spec fn discovered_rows(d: Seq<DiscoveredPeer>) -> Seq<PairingItem> {
    Seq::new(d.len(), |i: int| PairingItem::Discovered { index: i as usize, unnamed: d[i].device_name@.len() == 0 })
}

/// The paired-device rows.
pub open spec fn paired_rows(synced: Seq<bool>) -> Seq<PairingItem> {
    Seq::new(synced.len(), |i: int| PairingItem::Paired { index: i as usize, synced: synced[i] })
}

/// The items of the state-specific part of the section.
pub open spec fn state_items(c: DevicesCard) -> Seq<PairingItem> {
    match c.state {
        PairingState::Idle => seq![PairingItem::HostButton, PairingItem::JoinButton]
            + (if c.discovered@.len() > 0 {
                seq![PairingItem::DiscoveredHeader] + discovered_rows(c.discovered@)
            } else {
                Seq::empty()
            }),
        PairingState::Hosting => seq![PairingItem::ShowCodeHint]
            + (if c.has_code { seq![PairingItem::Code] } else { Seq::empty() })
            + (if c.has_link {
                seq![PairingItem::LinkLabel, PairingItem::Link, PairingItem::CopyLinkButton]
            } else {
                Seq::empty()
            })
            + seq![PairingItem::CancelHosting],
        PairingState::Joining => seq![
            PairingItem::CodeInput, PairingItem::TargetInput, PairingItem::ConnectButton,
            PairingItem::CancelJoin, PairingItem::OrSeparator, PairingItem::LinkInput,
            PairingItem::ConnectWithLink,
        ],
    }
}

/// The whole pairing section: the state's items, the status banner while
/// pairing, then the paired devices.
pub open spec fn pairing_items_spec(c: DevicesCard) -> Seq<PairingItem> {
    state_items(c)
        + (if c.state != PairingState::Idle && c.has_status { seq![PairingItem::StatusBanner] } else { Seq::empty() })
        + (if c.peers_synced@.len() > 0 {
            seq![PairingItem::PairedHeader] + paired_rows(c.peers_synced@)
        } else {
            Seq::empty()
        })
}

/// The items of the devices card's pairing section, top to bottom.
pub fn pairing_items(c: &DevicesCard) -> (items: Vec<PairingItem>)
    ensures
        items@ == pairing_items_spec(*c),
{
    let mut out: Vec<PairingItem> = Vec::new();
    match c.state {
        PairingState::Idle => {
            out.push(PairingItem::HostButton);
            out.push(PairingItem::JoinButton);
            if c.discovered.len() > 0 {
                out.push(PairingItem::DiscoveredHeader);
                let ghost base = out@;
                let mut i: usize = 0;
                while i < c.discovered.len()
                    invariant
                        i <= c.discovered@.len(),
                        out@ == base + discovered_rows(c.discovered@).subrange(0, i as int),
                    decreases c.discovered.len() - i,
                {
                    let unnamed = c.discovered[i].device_name.as_str().unicode_len() == 0;
                    out.push(PairingItem::Discovered { index: i, unnamed });
                    proof {
                        assert(discovered_rows(c.discovered@).subrange(0, i + 1)
                            =~= discovered_rows(c.discovered@).subrange(0, i as int).push(
                                PairingItem::Discovered { index: i, unnamed }));
                    }
                    i = i + 1;
                }
                assert(discovered_rows(c.discovered@).subrange(0, c.discovered@.len() as int)
                    =~= discovered_rows(c.discovered@));
            }
        },
        PairingState::Hosting => {
            out.push(PairingItem::ShowCodeHint);
            if c.has_code {
                out.push(PairingItem::Code);
            }
            if c.has_link {
                out.push(PairingItem::LinkLabel);
                out.push(PairingItem::Link);
                out.push(PairingItem::CopyLinkButton);
            }
            out.push(PairingItem::CancelHosting);
        },
        PairingState::Joining => {
            out.push(PairingItem::CodeInput);
            out.push(PairingItem::TargetInput);
            out.push(PairingItem::ConnectButton);
            out.push(PairingItem::CancelJoin);
            out.push(PairingItem::OrSeparator);
            out.push(PairingItem::LinkInput);
            out.push(PairingItem::ConnectWithLink);
        },
    }
    assert(out@ =~= state_items(*c));
    let pairing = match c.state {
        PairingState::Idle => false,
        _ => true,
    };
    if pairing && c.has_status {
        out.push(PairingItem::StatusBanner);
    }
    let ghost mid = out@;
    assert(mid =~= state_items(*c)
        + (if c.state != PairingState::Idle && c.has_status { seq![PairingItem::StatusBanner] } else { Seq::empty() }));
    if c.peers_synced.len() > 0 {
        out.push(PairingItem::PairedHeader);
        let ghost base = out@;
        let mut i: usize = 0;
        while i < c.peers_synced.len()
            invariant
                i <= c.peers_synced@.len(),
                out@ == base + paired_rows(c.peers_synced@).subrange(0, i as int),
            decreases c.peers_synced.len() - i,
        {
            out.push(PairingItem::Paired { index: i, synced: c.peers_synced[i] });
            proof {
                assert(paired_rows(c.peers_synced@).subrange(0, i + 1)
                    =~= paired_rows(c.peers_synced@).subrange(0, i as int).push(
                        PairingItem::Paired { index: i, synced: c.peers_synced@[i as int] }));
            }
            i = i + 1;
        }
        assert(paired_rows(c.peers_synced@).subrange(0, c.peers_synced@.len() as int)
            =~= paired_rows(c.peers_synced@));
    }
    assert(out@ =~= pairing_items_spec(*c));
    out
}

/// The name a discovered device is listed under: its announced name, or
/// the "unnamed device" label when it announced none.
pub fn discovered_label(device_name: &str, unnamed_label: &str) -> (s: String)
    ensures
        s@ == if device_name@.len() == 0 { unnamed_label@ } else { device_name@ },
{
    if device_name.unicode_len() == 0 {
        unnamed_label.to_string()
    } else {
        device_name.to_string()
    }
}

/// The `%Y-%m-%d %H:%M` text chrono writes for Unix time `secs` seen at
/// the fixed offset `offset_secs` east of UTC; none for a timestamp or an
/// offset chrono cannot represent.
pub uninterp spec fn ymd_hm_at(secs: i64, offset_secs: i32) -> Option<Seq<char>>;

/// The `YYYY-MM-DD HH:MM` text of the wall-clock time `local` (Unix
/// seconds already moved by the offset), for the years 0 to 9999.
pub open spec fn ymd_hm_text(local: int) -> Seq<char> {
    ymd_text(local) + seq![' '] + two_digits((local % 86400) / 3600) + seq![':'] + two_digits((local % 3600) / 60)
}

/// `chrono::DateTime::from_timestamp(secs, 0)` moved to
/// `chrono::FixedOffset::east_opt(offset_secs)` with `with_timezone`, and
/// written with `%Y-%m-%d %H:%M`. The result is named by `ymd_hm_at`, a
/// function of the two arguments alone. When the wall-clock time falls
/// in the years 0 to 9999 its text is stated (zero-padded four-digit year,
/// two-digit month, day, hour and minute), and an offset within a day
/// gives a result; outside those years only the name is stated.
#[verifier::external_body]
fn format_ymd_hm_at(secs: i64, offset_secs: i32) -> (r: Option<String>)
    ensures
        r matches Some(t) ==> ymd_hm_at(secs, offset_secs) == Some(t@),
        r is None ==> ymd_hm_at(secs, offset_secs) is None,
        r matches Some(t) ==> (in_four_digit_years(secs + offset_secs) ==> t@ == ymd_hm_text(secs + offset_secs)),
        (-86400 < offset_secs < 86400 && in_four_digit_years(secs + offset_secs)) ==> r is Some,
{
    match (chrono::DateTime::from_timestamp(secs, 0), chrono::FixedOffset::east_opt(offset_secs)) {
        (Some(at), Some(offset)) => Some(at.with_timezone(&offset).format("%Y-%m-%d %H:%M").to_string()),
        _ => None,
    }
}

/// A paired device's last-sync line: its last sync (stored as Unix time,
/// UTC) shown in the local zone, whose offset east of UTC is
/// `offset_secs`; the "never" label when it has not synced yet (or the
/// time cannot be written).
pub fn last_synced_line(at_secs: Option<i64>, offset_secs: i32, never_label: &str) -> (s: String)
    ensures
        match at_secs {
            None => s@ == never_label@,
            Some(secs) => match ymd_hm_at(secs, offset_secs) {
                Some(t) => s@ == t,
                None => s@ == never_label@,
            },
        },
        at_secs matches Some(secs) ==> (-86400 < offset_secs < 86400 && in_four_digit_years(secs + offset_secs)
            ==> s@ == ymd_hm_text(secs + offset_secs)),
{
    match at_secs {
        None => never_label.to_string(),
        Some(secs) => match format_ymd_hm_at(secs, offset_secs) {
            Some(t) => t,
            None => never_label.to_string(),
        },
    }
}

} // verus!
