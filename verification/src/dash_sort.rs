//! The monitoring dashboard: the order of its table rows under the
//! chosen sort column, the markers its header and rows carry, and what a
//! host card or the empty board shows.
//!
//! A metric column ranks each host by an integer key taken from its
//! latest sample (the sample's reading mapped to a key that orders as
//! the reading does); a host with no reading has no key.

use vstd::prelude::*;
use crate::monitor::{conn_index, find_conn};
use crate::state::Connection;

verus! {

/// The column the table is sorted by.
#[derive(Clone, Copy, Debug, PartialEq, Eq, Structural)]
pub enum DashSortKey {
    Label,
    Cpu,
    Mem,
    Net,
    Disk,
    Uptime,
}

/// Host `a` comes before host `b` in metric order, ascending when `asc`:
/// by key (a smaller key first ascending, a larger one descending), hosts
/// without a key after every host with one in both directions, and the
/// label order (the row position), in the same direction, between equal
/// keys.
pub open spec fn rank_lt(ranks: Seq<Option<i64>>, asc: bool, a: usize, b: usize) -> bool {
    match (ranks[a as int], ranks[b as int]) {
        (Some(x), Some(y)) => if asc { x < y || (x == y && a < b) } else { x > y || (x == y && a > b) },
        (Some(_), None) => true,
        (None, Some(_)) => false,
        (None, None) => if asc { a < b } else { a > b },
    }
}

/// `order` lists every row position exactly once, in `rank_lt` order.
pub open spec fn is_rank_order(ranks: Seq<Option<i64>>, asc: bool, order: Seq<usize>) -> bool {
    &&& order.len() == ranks.len()
    &&& forall|k: int| 0 <= k < order.len() ==> #[trigger] order[k] < ranks.len()
    &&& forall|j: usize| j < ranks.len() ==> #[trigger] lists(order, j)
    &&& forall|p: int, q: int| 0 <= p < q < order.len() ==> rank_lt(ranks, asc, #[trigger] order[p], #[trigger] order[q])
}

/// Row position `j` occurs in `order`.
pub open spec fn lists(order: Seq<usize>, j: usize) -> bool {
    exists|k: int| 0 <= k < order.len() && #[trigger] order[k] == j
}

/// The rows in label order: the positions as they arrive.
pub open spec fn label_order(n: nat) -> Seq<usize> {
    Seq::new(n, |i: int| i as usize)
}

/// `rank_lt` is a strict total order on row positions, in either
/// direction.
pub proof fn rank_lt_order(ranks: Seq<Option<i64>>, asc: bool, a: usize, b: usize, c: usize)
    ensures
        !rank_lt(ranks, asc, a, a),
        a != b ==> rank_lt(ranks, asc, a, b) || rank_lt(ranks, asc, b, a),
        rank_lt(ranks, asc, a, b) ==> !rank_lt(ranks, asc, b, a),
        rank_lt(ranks, asc, a, b) && rank_lt(ranks, asc, b, c) ==> rank_lt(ranks, asc, a, c),
{
}

/// Two orders that both list every row once in `rank_lt` order are the
/// same order: the sorted table is fully determined.
pub proof fn rank_order_unique(ranks: Seq<Option<i64>>, asc: bool, o1: Seq<usize>, o2: Seq<usize>)
    requires
        is_rank_order(ranks, asc, o1),
        is_rank_order(ranks, asc, o2),
    ensures
        o1 == o2,
{
    if o1.len() > 0 {
        lemma_prefix_agree(ranks, asc, o1, o2, o1.len() - 1);
    }
    assert(o1 =~= o2);
}

/// Two rank orders agree on every position up to `k`.
proof fn lemma_prefix_agree(ranks: Seq<Option<i64>>, asc: bool, o1: Seq<usize>, o2: Seq<usize>, k: int)
    requires
        is_rank_order(ranks, asc, o1),
        is_rank_order(ranks, asc, o2),
        0 <= k < o1.len(),
    ensures
        forall|p: int| 0 <= p <= k ==> o1[p] == o2[p],
    decreases k,
{
    if k > 0 {
        lemma_prefix_agree(ranks, asc, o1, o2, k - 1);
    }
    let x = o1[k];
    let y = o2[k];
    if x != y {
        assert(lists(o1, y));
        assert(lists(o2, x));
        let py = choose|p: int| 0 <= p < o1.len() && #[trigger] o1[p] == y;
        let px = choose|p: int| 0 <= p < o2.len() && #[trigger] o2[p] == x;
        if py < k {
            assert(o2[py] == y);
            rank_lt_order(ranks, asc, y, y, y);
            assert(rank_lt(ranks, asc, o2[py], o2[k]));
        }
        if px < k {
            assert(o1[px] == x);
            rank_lt_order(ranks, asc, x, x, x);
            assert(rank_lt(ranks, asc, o1[px], o1[k]));
        }
        assert(rank_lt(ranks, asc, o1[k], o1[py]));
        assert(rank_lt(ranks, asc, o2[k], o2[px]));
        rank_lt_order(ranks, asc, x, y, x);
    }
}

/// Row `a` before row `b` in metric order (ascending when `asc`).
fn rank_before(ranks: &Vec<Option<i64>>, asc: bool, a: usize, b: usize) -> (r: bool)
    requires
        a < ranks@.len(),
        b < ranks@.len(),
    ensures
        r == rank_lt(ranks@, asc, a, b),
{
    match (ranks[a], ranks[b]) {
        (Some(x), Some(y)) => if asc { x < y || (x == y && a < b) } else { x > y || (x == y && a > b) },
        (Some(_), None) => true,
        (None, Some(_)) => false,
        (None, None) => if asc { a < b } else { a > b },
    }
}

/// The rows in metric order (ascending when `asc`): an insertion by rank.
fn rank_sort(ranks: &Vec<Option<i64>>, asc: bool) -> (order: Vec<usize>)
    ensures
        is_rank_order(ranks@, asc, order@),
{
    let n = ranks.len();
    let mut out: Vec<usize> = Vec::new();
    let mut i: usize = 0;
    while i < n
        invariant
            n == ranks@.len(),
            i <= n,
            out@.len() == i,
            forall|k: int| 0 <= k < out@.len() ==> #[trigger] out@[k] < i,
            forall|j: usize| j < i ==> #[trigger] lists(out@, j),
            forall|p: int, q: int| 0 <= p < q < out@.len() ==> rank_lt(ranks@, asc, #[trigger] out@[p], #[trigger] out@[q]),
        decreases n - i,
    {
        let mut pos: usize = 0;
        while pos < out.len() && rank_before(ranks, asc, out[pos], i)
            invariant
                n == ranks@.len(),
                i < n,
                pos <= out@.len(),
                forall|k: int| 0 <= k < out@.len() ==> #[trigger] out@[k] < i,
                forall|p: int| 0 <= p < pos ==> rank_lt(ranks@, asc, #[trigger] out@[p], i),
            decreases out@.len() - pos,
        {
            pos = pos + 1;
        }
        let ghost old_out = out@;
        proof {
            // Every row from `pos` on is ranked after `i`.
            assert forall|q: int| pos <= q < old_out.len() implies rank_lt(ranks@, asc, i, #[trigger] old_out[q]) by {
                rank_lt_order(ranks@, asc, old_out[pos as int], i, old_out[q]);
                rank_lt_order(ranks@, asc, i, old_out[pos as int], old_out[q]);
                if q > pos {
                    assert(rank_lt(ranks@, asc, old_out[pos as int], old_out[q]));
                }
            }
        }
        out.insert(pos, i);
        proof {
            assert forall|p: int, q: int| 0 <= p < q < out@.len() implies rank_lt(ranks@, asc, #[trigger] out@[p], #[trigger] out@[q]) by {
                if q < pos {
                } else if q == pos {
                    assert(out@[q] == i);
                    assert(out@[p] == old_out[p]);
                } else if p < pos {
                    assert(out@[q] == old_out[q - 1]);
                    rank_lt_order(ranks@, asc, old_out[p], i, old_out[q - 1]);
                } else if p == pos {
                    assert(out@[q] == old_out[q - 1]);
                } else {
                    assert(out@[p] == old_out[p - 1]);
                    assert(out@[q] == old_out[q - 1]);
                }
            }
            assert forall|j: usize| j < i + 1 implies #[trigger] lists(out@, j) by {
                if j == i {
                    assert(out@[pos as int] == i);
                } else {
                    assert(lists(old_out, j));
                    let k0 = choose|k: int| 0 <= k < old_out.len() && old_out[k] == j;
                    if k0 < pos {
                        assert(out@[k0] == j);
                    } else {
                        assert(out@[k0 + 1] == j);
                    }
                }
            }
            assert forall|k: int| 0 <= k < out@.len() implies #[trigger] out@[k] < i + 1 by {
                if k < pos {
                    assert(out@[k] == old_out[k]);
                } else if k > pos {
                    assert(out@[k] == old_out[k - 1]);
                }
            }
        }
        i = i + 1;
    }
    out
}

/// The table's row order: label order for the Label column (reversed
/// when descending); otherwise metric order in the chosen direction, with
/// hosts that have no reading last either way.
pub open spec fn dash_order_ok(ranks: Seq<Option<i64>>, key: DashSortKey, asc: bool, order: Seq<usize>) -> bool {
    &&& (key == DashSortKey::Label ==> order == (if asc { label_order(ranks.len()) } else { label_order(ranks.len()).reverse() }))
    &&& (key != DashSortKey::Label ==> is_rank_order(ranks, asc, order))
}

/// The positions, in display order, of the dashboard rows. `ranks[i]` is
/// the sort column's key for row `i` (rows arrive in label order); it is
/// ignored for the Label column.
pub fn dash_row_order(ranks: &Vec<Option<i64>>, key: DashSortKey, asc: bool) -> (order: Vec<usize>)
    ensures
        dash_order_ok(ranks@, key, asc, order@),
        order@.len() == ranks@.len(),
{
    match key {
        DashSortKey::Label => {
            let mut v: Vec<usize> = Vec::new();
            let mut i: usize = 0;
            while i < ranks.len()
                invariant
                    i <= ranks@.len(),
                    v@ == label_order(i as nat),
                decreases ranks.len() - i,
            {
                v.push(i);
                proof {
                    assert(v@ =~= label_order((i + 1) as nat));
                }
                i = i + 1;
            }
            if asc {
                v
            } else {
                let mut rev: Vec<usize> = Vec::new();
                let mut k: usize = v.len();
                while k > 0
                    invariant
                        k <= v@.len(),
                        rev@.len() == v@.len() - k,
                        forall|t: int| 0 <= t < rev@.len() ==> #[trigger] rev@[t] == v@[v@.len() - 1 - t],
                    decreases k,
                {
                    rev.push(v[k - 1]);
                    k = k - 1;
                }
                proof {
                    assert(rev@ =~= v@.reverse());
                }
                rev
            }
        },
        _ => rank_sort(ranks, asc),
    }
}

/// The direction glyph the active column's header carries.
pub fn sort_marker(active: bool, asc: bool) -> (m: &'static str)
    ensures
        m@ == (if !active { ""@ } else if asc { " \u{25b4}"@ } else { " \u{25be}"@ }),
{
    if !active {
        ""
    } else if asc {
        " \u{25b4}"
    } else {
        " \u{25be}"
    }
}

/// The state of a host's monitoring link.
#[derive(Clone, Copy, Debug, PartialEq, Eq, Structural)]
pub enum DashLink {
    Live,
    Connecting,
    Failed,
}

/// The colour of a row's status dot.
#[derive(Clone, Copy, Debug, PartialEq, Eq, Structural)]
pub enum DotTone {
    Muted,
    Success,
    Warning,
    Error,
}

/// The status dot: muted while polling is paused, else green when live,
/// amber while connecting or before any link exists, red on failure.
pub fn dash_dot(paused: bool, link: Option<DashLink>) -> (t: DotTone)
    ensures
        t == (if paused { DotTone::Muted } else {
            match link {
                Some(DashLink::Live) => DotTone::Success,
                Some(DashLink::Failed) => DotTone::Error,
                _ => DotTone::Warning,
            }
        }),
{
    if paused {
        DotTone::Muted
    } else {
        match link {
            Some(DashLink::Live) => DotTone::Success,
            Some(DashLink::Failed) => DotTone::Error,
            _ => DotTone::Warning,
        }
    }
}

/// What a host's vitals card shows under its title.
#[derive(Clone, Copy, Debug, PartialEq, Eq, Structural)]
pub enum CardBody {
    /// The link failed: its error, attributed to the row that fetched it.
    LinkError,
    /// The latest sample's gauges and stats.
    Vitals,
    /// No sample yet: the line saying why.
    Waiting(WaitReason),
}

/// Why a card has no sample to show yet.
#[derive(Clone, Copy, Debug, PartialEq, Eq, Structural)]
pub enum WaitReason {
    /// Polling is paused.
    Paused,
    /// The link is up and the first sample is on its way.
    Sampling,
    /// The link is still being set up.
    Connecting,
}

/// The card body: a failed link shows its error (even while paused);
/// otherwise the latest sample, or a line saying why there is none yet.
pub fn dash_card_body(paused: bool, link: Option<DashLink>, has_sample: bool) -> (b: CardBody)
    ensures
        b == (if link == Some(DashLink::Failed) {
            CardBody::LinkError
        } else if has_sample {
            CardBody::Vitals
        } else if paused {
            CardBody::Waiting(WaitReason::Paused)
        } else if link == Some(DashLink::Live) {
            CardBody::Waiting(WaitReason::Sampling)
        } else {
            CardBody::Waiting(WaitReason::Connecting)
        }),
{
    match link {
        Some(DashLink::Failed) => CardBody::LinkError,
        _ => if has_sample {
            CardBody::Vitals
        } else if paused {
            CardBody::Waiting(WaitReason::Paused)
        } else {
            match link {
                Some(DashLink::Live) => CardBody::Waiting(WaitReason::Sampling),
                _ => CardBody::Waiting(WaitReason::Connecting),
            }
        },
    }
}

/// The empty dashboard's title and hint, as translation keys. With the
/// live-only filter on and some host opted in, the board is waiting for a
/// session rather than for a host to be opted in.
pub fn empty_board(live_only: bool, any_opted_in: bool) -> (k: (&'static str, &'static str))
    ensures
        k.0@ == (if live_only && any_opted_in { "monitor_dash_empty_live"@ } else { "monitor_dash_empty"@ }),
        k.1@ == (if live_only && any_opted_in { "monitor_dash_empty_live_hint"@ } else { "monitor_dash_empty_hint"@ }),
{
    if live_only && any_opted_in {
        ("monitor_dash_empty_live", "monitor_dash_empty_live_hint")
    } else {
        ("monitor_dash_empty", "monitor_dash_empty_hint")
    }
}

/// The detail panel's "sampled via" line: when the host's link reads the
/// machine through another row (`via`), the label of that row (empty
/// when it is no longer saved); none when the link is the host's own or
/// there is no link.
pub fn sampled_via(conns: &Vec<Connection>, via: Option<u128>, card: u128) -> (s: Option<String>)
    ensures
        match via {
            Some(v) => if v == card { s is None } else {
                s matches Some(t) && t@ == (match conn_index(conns@, v) {
                    Some(i) => conns@[i].label@,
                    None => Seq::<char>::empty(),
                })
            },
            None => s is None,
        },
{
    match via {
        Some(v) => if v == card {
            None
        } else {
            match find_conn(conns, v) {
                Some(i) => Some(conns[i].label.clone()),
                None => Some(String::new()),
            }
        },
        None => None,
    }
}

} // verus!
