//! The session player: its transport clock (`m:ss`, or `h:mm:ss` past
//! the hour), the time and geometry labels, and how Privacy Mode and the
//! recording's actions resolve for its header.

use vstd::prelude::*;
use crate::state::{Connection, SessionLogEntry};
use crate::text::{decimal, decimal_pad2, push_all, push_decimal, push_decimal_pad2, string_from_chars};

verus! {

/// Whole seconds shown for a playback position of `ms` milliseconds:
/// truncated toward zero, and never negative.
pub open spec fn clock_seconds(ms: int) -> nat {
    if ms >= 0 { (ms / 1000) as nat } else { 0 }
}

/// The clock text for `ms` milliseconds.
pub open spec fn clock_text(ms: int) -> Seq<char> {
    let secs = clock_seconds(ms);
    let h = secs / 3600;
    let m = (secs % 3600) / 60;
    let s = secs % 60;
    if h > 0 {
        decimal(h) + seq![':'] + decimal_pad2(m) + seq![':'] + decimal_pad2(s)
    } else {
        decimal(m) + seq![':'] + decimal_pad2(s)
    }
}

/// `m:ss` (or `h:mm:ss` past the hour) for the transport clock.
pub fn format_clock(ms: i64) -> (out: String)
    ensures
        out@ == clock_text(ms as int),
{
    let secs: u64 = if ms >= 0 { (ms / 1000) as u64 } else { 0 };
    let h: u64 = secs / 3600;
    let m: u64 = (secs % 3600) / 60;
    let s: u64 = secs % 60;
    let mut v: Vec<char> = Vec::new();
    if h > 0 {
        push_decimal(&mut v, h);
        v.push(':');
        push_decimal_pad2(&mut v, m);
    } else {
        push_decimal(&mut v, m);
    }
    v.push(':');
    push_decimal_pad2(&mut v, s);
    string_from_chars(&v)
}

/// The transport bar's time label: position, " / ", duration.
pub open spec fn time_label_text(pos_ms: int, duration_ms: int) -> Seq<char> {
    clock_text(pos_ms) + seq![' ', '/', ' '] + clock_text(duration_ms)
}

/// The transport bar's time label for a position and a duration, both
/// in milliseconds.
pub fn time_label(pos_ms: i64, duration_ms: i64) -> (out: String)
    ensures
        out@ == time_label_text(pos_ms as int, duration_ms as int),
{
    let a = format_clock(pos_ms);
    let b = format_clock(duration_ms);
    let mut v: Vec<char> = crate::text::chars_of(a.as_str());
    v.push(' ');
    v.push('/');
    v.push(' ');
    let w = crate::text::chars_of(b.as_str());
    push_all(&mut v, &w);
    string_from_chars(&v)
}

/// The header's geometry chip: columns, `x`, rows.
pub fn geometry_label(cols: u16, rows: u16) -> (out: String)
    ensures
        out@ == decimal(cols as nat) + seq!['x'] + decimal(rows as nat),
{
    let mut v: Vec<char> = Vec::new();
    push_decimal(&mut v, cols as u64);
    v.push('x');
    push_decimal(&mut v, rows as u64);
    string_from_chars(&v)
}

/// The position of the first item of `logs` with id `id`.
pub open spec fn log_position(logs: Seq<SessionLogEntry>, id: u128) -> Option<int>
    decreases logs.len(),
{
    if logs.len() == 0 {
        None
    } else {
        match log_position(logs.drop_last(), id) {
            Some(k) => Some(k),
            None => if logs.last().id == id { Some(logs.len() - 1) } else { None },
        }
    }
}

/// The position of the first saved host with id `id`.
pub open spec fn conn_position(conns: Seq<Connection>, id: u128) -> Option<int>
    decreases conns.len(),
{
    if conns.len() == 0 {
        None
    } else {
        match conn_position(conns.drop_last(), id) {
            Some(k) => Some(k),
            None => if conns.last().id == id { Some(conns.len() - 1) } else { None },
        }
    }
}

/// How the player's header resolves.
#[derive(Clone, Copy, Debug, PartialEq, Eq, Structural)]
pub struct PlayerHeader {
    /// Privacy Mode applies to this recording (the Reveal toggle shows).
    pub privacy_applies: bool,
    /// The title is masked (privacy applies and nothing was revealed).
    pub mask: bool,
    /// The recording's position in the History list, which the
    /// "View log" button and the actions menu address; none when the
    /// recording was deleted under the player.
    pub log_index: Option<usize>,
}

/// The header of the player for recording `log_id`. Privacy follows the
/// recorded host's own setting (`host_privacy`, one per saved host) and
/// falls back to the global default when the recording or its host is
/// gone.
pub open spec fn player_header_spec(
    logs: Seq<SessionLogEntry>,
    conns: Seq<Connection>,
    host_privacy: Seq<bool>,
    log_id: u128,
    global_privacy: bool,
    revealed: bool,
) -> PlayerHeader {
    let applies = match log_position(logs, log_id) {
        Some(k) => match conn_position(conns, logs[k].connection_id) {
            Some(c) => host_privacy[c],
            None => global_privacy,
        },
        None => global_privacy,
    };
    PlayerHeader {
        privacy_applies: applies,
        mask: applies && !revealed,
        log_index: match log_position(logs, log_id) {
            Some(k) => Some(k as usize),
            None => None,
        },
    }
}

/// The first recording with the id.
fn find_log(logs: &Vec<SessionLogEntry>, id: u128) -> (r: Option<usize>)
    ensures
        r matches Some(k) ==> log_position(logs@, id) == Some(k as int) && k < logs@.len(),
        r is None ==> log_position(logs@, id) is None,
{
    let mut i: usize = 0;
    while i < logs.len()
        invariant
            i <= logs@.len(),
            log_position(logs@.subrange(0, i as int), id) is None,
        decreases logs.len() - i,
    {
        proof {
            assert(logs@.subrange(0, i + 1).drop_last() =~= logs@.subrange(0, i as int));
        }
        if logs[i].id == id {
            proof {
                let pre = logs@.subrange(0, i + 1);
                assert(log_position(pre, id) == Some(i as int));
                lemma_log_prefix(logs@, pre, id);
            }
            return Some(i);
        }
        i = i + 1;
    }
    proof {
        assert(logs@.subrange(0, logs@.len() as int) =~= logs@);
    }
    None
}

/// A first match found in a prefix is the first match of the whole.
proof fn lemma_log_prefix(logs: Seq<SessionLogEntry>, pre: Seq<SessionLogEntry>, id: u128)
    requires
        pre.len() <= logs.len(),
        pre =~= logs.subrange(0, pre.len() as int),
        log_position(pre, id) is Some,
    ensures
        log_position(logs, id) == log_position(pre, id),
    decreases logs.len(),
{
    if logs.len() > pre.len() {
        assert(logs.drop_last().subrange(0, pre.len() as int) =~= pre);
        lemma_log_prefix(logs.drop_last(), pre, id);
    } else {
        assert(logs =~= pre);
    }
}

/// A first match found in a prefix is the first match of the whole.
proof fn lemma_conn_prefix(conns: Seq<Connection>, pre: Seq<Connection>, id: u128)
    requires
        pre.len() <= conns.len(),
        pre =~= conns.subrange(0, pre.len() as int),
        conn_position(pre, id) is Some,
    ensures
        conn_position(conns, id) == conn_position(pre, id),
    decreases conns.len(),
{
    if conns.len() > pre.len() {
        assert(conns.drop_last().subrange(0, pre.len() as int) =~= pre);
        lemma_conn_prefix(conns.drop_last(), pre, id);
    } else {
        assert(conns =~= pre);
    }
}

/// The first saved host with the id.
fn find_conn_id(conns: &Vec<Connection>, id: u128) -> (r: Option<usize>)
    ensures
        r matches Some(k) ==> conn_position(conns@, id) == Some(k as int) && k < conns@.len(),
        r is None ==> conn_position(conns@, id) is None,
{
    let mut i: usize = 0;
    while i < conns.len()
        invariant
            i <= conns@.len(),
            conn_position(conns@.subrange(0, i as int), id) is None,
        decreases conns.len() - i,
    {
        proof {
            assert(conns@.subrange(0, i + 1).drop_last() =~= conns@.subrange(0, i as int));
        }
        if conns[i].id == id {
            proof {
                let pre = conns@.subrange(0, i + 1);
                assert(conn_position(pre, id) == Some(i as int));
                lemma_conn_prefix(conns@, pre, id);
            }
            return Some(i);
        }
        i = i + 1;
    }
    proof {
        assert(conns@.subrange(0, conns@.len() as int) =~= conns@);
    }
    None
}

/// How the player's header resolves for recording `log_id`.
pub fn player_header(
    logs: &Vec<SessionLogEntry>,
    conns: &Vec<Connection>,
    host_privacy: &Vec<bool>,
    log_id: u128,
    global_privacy: bool,
    revealed: bool,
) -> (h: PlayerHeader)
    requires
        host_privacy@.len() == conns@.len(),
    ensures
        h == player_header_spec(logs@, conns@, host_privacy@, log_id, global_privacy, revealed),
{
    let pos = find_log(logs, log_id);
    let applies = match pos {
        Some(k) => match find_conn_id(conns, logs[k].connection_id) {
            Some(c) => {
                proof {
                    conn_position_props(conns@, logs@[k as int].connection_id);
                }
                host_privacy[c]
            },
            None => global_privacy,
        },
        None => global_privacy,
    };
    PlayerHeader { privacy_applies: applies, mask: applies && !revealed, log_index: pos }
}

/// The first-match position is in range.
proof fn conn_position_props(conns: Seq<Connection>, id: u128)
    ensures
        conn_position(conns, id) matches Some(k) ==> 0 <= k < conns.len() && conns[k].id == id,
    decreases conns.len(),
{
    if conns.len() > 0 {
        conn_position_props(conns.drop_last(), id);
    }
}

/// A terminal chord action a replay may be asked to perform.
#[derive(Clone, Copy, Debug, PartialEq, Eq, Structural)]
pub enum ChordAction {
    Copy,
    SelectAll,
    ScrollPageUp,
    ScrollPageDown,
    /// Paste the PRIMARY selection into the session.
    PasteSelection,
}

/// The user's chord resolved for the replay: Copy, Select All and the
/// scrollback paging read the buffer and apply unchanged; pasting the
/// PRIMARY selection would consume the highlight and hand the text to a
/// backend without a PTY, so that chord is declined.
pub fn replay_chord(action: Option<ChordAction>) -> (r: Option<ChordAction>)
    ensures
        r == (if action == Some(ChordAction::PasteSelection) { None } else { action }),
{
    match action {
        Some(ChordAction::PasteSelection) => None,
        other => other,
    }
}

} // verus!
