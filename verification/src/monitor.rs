//! The monitoring dashboard's host lens and its error attribution, and
//! the label search shared by the keychain lists.

use vstd::prelude::*;
use crate::search::{contains_seq, keep_in_order, keep_in_order_every, keep_in_order_exact, lowercase, matches_ci, matches_text, needle_of, to_lowercase};
use crate::state::Connection;
use crate::text::{chars_eq, chars_of, push_all, string_from_chars, trim_chars, trim};

verus! {

/// Index of the first saved host with `id`.
pub open spec fn conn_index(conns: Seq<Connection>, id: u128) -> Option<int> {
    if exists|i: int| 0 <= i < conns.len() && conns[i].id == id {
        Some(choose|i: int| 0 <= i < conns.len() && conns[i].id == id
            && forall|j: int| 0 <= j < i ==> conns[j].id != id)
    } else {
        None
    }
}

/// Position of the first saved host with `id`.
pub fn find_conn(conns: &Vec<Connection>, id: u128) -> (r: Option<usize>)
    ensures
        r is None ==> conn_index(conns@, id) is None,
        r matches Some(i) ==> conn_index(conns@, id) == Some(i as int) && i < conns@.len(),
{
    let mut i: usize = 0;
    while i < conns.len()
        invariant
            i <= conns.len(),
            forall|j: int| 0 <= j < i ==> conns@[j].id != id,
        decreases conns.len() - i,
    {
        if conns[i].id == id {
            proof {
                let c = conn_index(conns@, id)->0;
                assert(conns@[i as int].id == id);
                if c < i {
                    assert(conns@[c].id != id);
                }
                if i < c {
                    assert(conns@[i as int].id != id);
                }
            }
            return Some(i);
        }
        i = i + 1;
    }
    None
}

/// A vitals error as the card of host `card` shows it when host `via`'s
/// credentials fetched the vitals: unchanged for its own card, prefixed
/// with the fetching host's label (`label: message`) for a sibling's, and
/// unchanged when that host is no longer saved.
pub open spec fn via_prefixed(conns: Seq<Connection>, via: u128, card: u128, message: Seq<char>) -> Seq<char> {
    if via == card {
        message
    } else {
        match conn_index(conns, via) {
            Some(i) => conns[i].label@ + seq![':', ' '] + message,
            None => message,
        }
    }
}

/// Attributes a vitals error to the row whose credentials fetched it.
pub fn dash_via_prefixed(conns: &Vec<Connection>, via: u128, card: u128, message: &str) -> (s: String)
    ensures
        s@ == via_prefixed(conns@, via, card, message@),
{
    let m = chars_of(message);
    if via == card {
        return string_from_chars(&m);
    }
    match find_conn(conns, via) {
        Some(i) => {
            let mut v = chars_of(conns[i].label.as_str());
            v.push(':');
            v.push(' ');
            push_all(&mut v, &m);
            proof {
                assert(v@ =~= via_prefixed(conns@, via, card, message@));
            }
            string_from_chars(&v)
        },
        None => string_from_chars(&m),
    }
}

/// Some tag of `tags` is one of the filter tags (exact match).
pub open spec fn has_filter_tag(tags: Seq<String>, filter: Seq<String>) -> bool {
    exists|i: int, j: int| 0 <= i < tags.len() && 0 <= j < filter.len()
        && #[trigger] tags[i]@ == #[trigger] filter[j]@
}

/// The dashboard lens keeps fleet host `id`: it is a saved host, its
/// label contains the trimmed, lowercased search, and (with a tag filter
/// on) it carries one of the filter tags.
pub open spec fn dash_keeps(conns: Seq<Connection>, search: Seq<char>, filter: Seq<String>, id: u128) -> bool {
    match conn_index(conns, id) {
        None => false,
        Some(i) => {
            let q = lowercase(trim(search));
            (q.len() == 0 || matches_ci(conns[i].label@, q))
                && (filter.len() == 0 || has_filter_tag(conns[i].tags@, filter))
        },
    }
}

/// The fleet hosts the dashboard shows, in fleet order.
pub open spec fn dash_hosts_spec(conns: Seq<Connection>, fleet: Seq<u128>, search: Seq<char>, filter: Seq<String>) -> Seq<u128> {
    keep_in_order(fleet, |id: u128| dash_keeps(conns, search, filter, id))
}

/// Whether some tag is among the filter tags.
fn tags_intersect(tags: &Vec<String>, filter: &Vec<String>) -> (b: bool)
    ensures
        b == has_filter_tag(tags@, filter@),
{
    let mut i: usize = 0;
    while i < tags.len()
        invariant
            i <= tags.len(),
            forall|k: int, j: int| 0 <= k < i && 0 <= j < filter@.len() ==> #[trigger] tags@[k]@ != #[trigger] filter@[j]@,
        decreases tags.len() - i,
    {
        let t = chars_of(tags[i].as_str());
        let mut j: usize = 0;
        while j < filter.len()
            invariant
                i < tags.len(),
                j <= filter.len(),
                t@ == tags@[i as int]@,
                forall|l: int| 0 <= l < j ==> tags@[i as int]@ != #[trigger] filter@[l]@,
            decreases filter.len() - j,
        {
            let f = chars_of(filter[j].as_str());
            if chars_eq(&t, &f) {
                return true;
            }
            j = j + 1;
        }
        i = i + 1;
    }
    false
}

/// Whether the dashboard keeps host `id`, for the needle `q`.
fn dash_keep(conns: &Vec<Connection>, q: &Vec<char>, filter: &Vec<String>, id: u128) -> (b: bool)
    ensures
        b == (match conn_index(conns@, id) {
            None => false,
            Some(i) => (q@.len() == 0 || matches_ci(conns@[i].label@, q@))
                && (filter@.len() == 0 || has_filter_tag(conns@[i].tags@, filter@)),
        }),
{
    match find_conn(conns, id) {
        None => false,
        Some(i) => {
            let by_search = q.len() == 0 || matches_text(conns[i].label.as_str(), q);
            let by_tags = filter.len() == 0 || tags_intersect(&conns[i].tags, filter);
            by_search && by_tags
        },
    }
}

/// The fleet hosts the lenses keep, for the needle `q` of `search`.
fn fleet_kept(conns: &Vec<Connection>, fleet: &Vec<u128>, q: &Vec<char>, filter: &Vec<String>, Ghost(search): Ghost<Seq<char>>) -> (hosts: Vec<u128>)
    requires
        q@ == lowercase(trim(search)),
    ensures
        hosts@ == dash_hosts_spec(conns@, fleet@, search, filter@),
{
    let ghost keep = |id: u128| dash_keeps(conns@, search, filter@, id);
    let mut out: Vec<u128> = Vec::new();
    let mut k: usize = 0;
    while k < fleet.len()
        invariant
            k <= fleet@.len(),
            q@ == lowercase(trim(search)),
            keep == (|id: u128| dash_keeps(conns@, search, filter@, id)),
            out@ == keep_in_order(fleet@.subrange(0, k as int), keep),
        decreases fleet.len() - k,
    {
        let id = fleet[k];
        let hit = dash_keep(conns, q, filter, id);
        proof {
            assert(fleet@.subrange(0, k + 1).drop_last() =~= fleet@.subrange(0, k as int));
            assert(hit == keep(id));
        }
        if hit {
            out.push(id);
        }
        k = k + 1;
    }
    proof {
        assert(fleet@.subrange(0, fleet@.len() as int) =~= fleet@);
    }
    out
}

/// The dashboard's filtered fleet: the lenses only narrow what is shown.
/// With the search blank (after trimming) and no filter tag, every saved
/// host of the fleet shows, in fleet order.
pub fn dash_hosts(conns: &Vec<Connection>, fleet: &Vec<u128>, search: &str, filter: &Vec<String>) -> (hosts: Vec<u128>)
    ensures
        hosts@ == dash_hosts_spec(conns@, fleet@, search@, filter@),
        trim(search@).len() == 0 && filter@.len() == 0
            ==> hosts@ == keep_in_order(fleet@, (|id: u128| conn_index(conns@, id) is Some)),
{
    let raw = chars_of(search);
    let trimmed = trim_chars(&raw);
    let ts = string_from_chars(&trimmed);
    let q = to_lowercase(ts.as_str());
    let out = fleet_kept(conns, fleet, &q, filter, Ghost(search@));
    proof {
        dash_lenses_only_narrow(conns@, fleet@, search@, filter@);
    }
    out
}

/// The label search of the keychain lists keeps row `i`.
pub open spec fn label_keeps(labels: Seq<String>, search: Seq<char>, i: usize) -> bool {
    lowercase(search).len() == 0 || matches_ci(labels[i as int]@, lowercase(search))
}

/// The keys (or identities) the keychain search keeps: the entries of
/// the sorted `order` whose label contains the lowercased query.
/// With nothing typed, every entry is kept, in the given order.
pub fn filter_by_label(labels: &Vec<String>, order: &Vec<usize>, search: &str) -> (visible: Vec<usize>)
    requires
        forall|k: int| 0 <= k < order@.len() ==> #[trigger] order@[k] < labels@.len(),
    ensures
        visible@ == keep_in_order(order@, |i: usize| label_keeps(labels@, search@, i)),
        search@.len() == 0 ==> visible@ == order@,
{
    let q = needle_of(search);
    let ghost keep = |i: usize| label_keeps(labels@, search@, i);
    let mut out: Vec<usize> = Vec::new();
    let mut k: usize = 0;
    while k < order.len()
        invariant
            k <= order@.len(),
            forall|t: int| 0 <= t < order@.len() ==> #[trigger] order@[t] < labels@.len(),
            q@ == lowercase(search@),
            keep == (|i: usize| label_keeps(labels@, search@, i)),
            out@ == keep_in_order(order@.subrange(0, k as int), keep),
        decreases order.len() - k,
    {
        let idx = order[k];
        let hit = q.len() == 0 || matches_text(labels[idx].as_str(), &q);
        proof {
            assert(order@.subrange(0, k + 1).drop_last() =~= order@.subrange(0, k as int));
            assert(hit == keep(idx));
        }
        if hit {
            out.push(idx);
        }
        k = k + 1;
    }
    proof {
        assert(order@.subrange(0, order@.len() as int) =~= order@);
        if search@.len() == 0 {
            lemma_empty_needle_keeps_all(labels@, order@, search@);
        }
    }
    out
}

/// An empty needle keeps every entry, in the given order.
proof fn lemma_empty_needle_keeps_all(labels: Seq<String>, order: Seq<usize>, search: Seq<char>)
    requires
        lowercase(search).len() == 0,
    ensures
        keep_in_order(order, |i: usize| label_keeps(labels, search, i)) == order,
{
    let keep = |i: usize| label_keeps(labels, search, i);
    assert forall|k: int| 0 <= k < order.len() implies #[trigger] keep(order[k]) by {}
    keep_in_order_every(order, keep);
}

/// The tag lens is membership in the filter set: a saved fleet host that
/// the search lens keeps (the lowercased, trimmed query is empty or
/// occurs in its lowercased label) is shown exactly when the filter is
/// empty or one of its tags equals a filter tag at any position.
pub proof fn tag_lens_is_membership(conns: Seq<Connection>, fleet: Seq<u128>, search: Seq<char>, filter: Seq<String>, id: u128)
    requires
        fleet.contains(id),
        conn_index(conns, id) is Some,
        ({
            let q = lowercase(trim(search));
            q.len() == 0 || contains_seq(lowercase(conns[conn_index(conns, id)->0].label@), q)
        }),
    ensures
        dash_hosts_spec(conns, fleet, search, filter).contains(id) <==> (filter.len() == 0
            || exists|a: int, b: int| 0 <= a < conns[conn_index(conns, id)->0].tags@.len() && 0 <= b < filter.len()
                && #[trigger] conns[conn_index(conns, id)->0].tags@[a]@ == #[trigger] filter[b]@),
{
    let keep = |x: u128| dash_keeps(conns, search, filter, x);
    keep_in_order_exact(fleet, keep);
    assert(keep_in_order(fleet, keep) == dash_hosts_spec(conns, fleet, search, filter));
    assert(keep_in_order(fleet, keep).contains(id) <==> (fleet.contains(id) && keep(id)));
}

/// The lenses only narrow: a shown host is a saved host of the fleet
/// whose lowercased label contains the lowercased, trimmed query (unless
/// that is empty), and which carries one of the filter tags (unless the
/// filter is empty).
pub proof fn shown_host_passes_both_lenses(conns: Seq<Connection>, fleet: Seq<u128>, search: Seq<char>, filter: Seq<String>, id: u128)
    requires
        dash_hosts_spec(conns, fleet, search, filter).contains(id),
    ensures
        fleet.contains(id),
        conn_index(conns, id) is Some,
        ({
            let q = lowercase(trim(search));
            q.len() == 0 || contains_seq(lowercase(conns[conn_index(conns, id)->0].label@), q)
        }),
        filter.len() == 0 || exists|a: int, b: int| 0 <= a < conns[conn_index(conns, id)->0].tags@.len() && 0 <= b < filter.len()
            && #[trigger] conns[conn_index(conns, id)->0].tags@[a]@ == #[trigger] filter[b]@,
{
    let keep = |x: u128| dash_keeps(conns, search, filter, x);
    keep_in_order_exact(fleet, keep);
    assert(keep_in_order(fleet, keep) == dash_hosts_spec(conns, fleet, search, filter));
    assert(keep_in_order(fleet, keep).contains(id) <==> (fleet.contains(id) && keep(id)));
}

/// The dashboard's search and tag filter are lenses over the fleet: they
/// only narrow it. Every shown host is a saved host of the fleet, shown
/// in fleet order, and with both lenses empty every saved host of the
/// fleet shows.
pub proof fn dash_lenses_only_narrow(conns: Seq<Connection>, fleet: Seq<u128>, search: Seq<char>, filter: Seq<String>)
    ensures
        forall|x: u128| #[trigger] dash_hosts_spec(conns, fleet, search, filter).contains(x)
            ==> fleet.contains(x) && conn_index(conns, x) is Some,
        dash_hosts_spec(conns, fleet, search, filter).len() <= fleet.len(),
        lowercase(trim(search)).len() == 0 && filter.len() == 0 ==> dash_hosts_spec(conns, fleet, search, filter)
            == keep_in_order(fleet, |id: u128| conn_index(conns, id) is Some),
{
    let keep = |id: u128| dash_keeps(conns, search, filter, id);
    keep_in_order_exact(fleet, keep);
    if lowercase(trim(search)).len() == 0 && filter.len() == 0 {
        let saved = |id: u128| conn_index(conns, id) is Some;
        assert(keep =~= saved);
    }
}

} // verus!
