//! The Port Forwarding screen: the one-line rule summary, the search
//! over rules, and the rule editor's warnings and host picker.

use vstd::prelude::*;
use crate::search::{keep_in_order, keep_in_order_every, lowercase, matches_ci, matches_text, natural_order, needle_of};
use crate::settings_sync::Tone;
use crate::state::Connection;
use crate::text::{chars_eq, chars_of, decimal, push_all, push_decimal, string_from_chars, trim, trim_chars};

verus! {

/// Direction of a forwarding rule.
#[derive(Clone, Copy, Debug, PartialEq, Eq, Structural)]
pub enum ForwardKind {
    /// `-L`: a local port reaches a target through the host.
    Local,
    /// `-R`: a port on the host reaches a local target.
    Remote,
    /// `-D`: a local SOCKS5 proxy.
    Dynamic,
}

/// A saved port-forwarding rule.
#[derive(Clone, Debug)]
pub struct PortForwardRule {
    pub id: u128,
    pub label: String,
    pub kind: ForwardKind,
    pub listen_host: String,
    pub listen_port: u16,
    pub target_host: String,
    pub target_port: u16,
    /// The saved host the tunnel rides.
    pub host_id: u128,
}

/// `host:port`.
pub open spec fn endpoint(host: Seq<char>, port: u16) -> Seq<char> {
    host + seq![':'] + decimal(port as nat)
}

/// The rule summary: `listen → target` for a local rule, `listen ←
/// target` for a remote one, `SOCKS5 listen` for a dynamic one.
pub open spec fn summary_text(r: PortForwardRule) -> Seq<char> {
    let listen = endpoint(r.listen_host@, r.listen_port);
    let target = endpoint(r.target_host@, r.target_port);
    match r.kind {
        ForwardKind::Local => listen + seq![' ', '\u{2192}', ' '] + target,
        ForwardKind::Remote => listen + seq![' ', '\u{2190}', ' '] + target,
        ForwardKind::Dynamic => seq!['S', 'O', 'C', 'K', 'S', '5', ' '] + listen,
    }
}

/// Appends `host:port`.
fn push_endpoint(out: &mut Vec<char>, host: &String, port: u16)
    ensures
        final(out)@ == old(out)@ + endpoint(host@, port),
{
    let h = chars_of(host.as_str());
    push_all(out, &h);
    out.push(':');
    push_decimal(out, port as u64);
    proof {
        assert(final(out)@ =~= old(out)@ + endpoint(host@, port));
    }
}

/// The characters of the rule summary.
pub fn summary_chars(rule: &PortForwardRule) -> (v: Vec<char>)
    ensures
        v@ == summary_text(*rule),
{
    let mut v: Vec<char> = Vec::new();
    match rule.kind {
        ForwardKind::Local | ForwardKind::Remote => {
            push_endpoint(&mut v, &rule.listen_host, rule.listen_port);
            v.push(' ');
            v.push(if rule.kind == ForwardKind::Local { '\u{2192}' } else { '\u{2190}' });
            v.push(' ');
            push_endpoint(&mut v, &rule.target_host, rule.target_port);
        },
        ForwardKind::Dynamic => {
            v.push('S');
            v.push('O');
            v.push('C');
            v.push('K');
            v.push('S');
            v.push('5');
            v.push(' ');
            push_endpoint(&mut v, &rule.listen_host, rule.listen_port);
        },
    }
    proof {
        assert(v@ =~= summary_text(*rule));
    }
    v
}

/// One-line summary of a forwarding rule.
pub fn forward_summary(rule: &PortForwardRule) -> (s: String)
    ensures
        s@ == summary_text(*rule),
{
    let v = summary_chars(rule);
    string_from_chars(&v)
}

/// Label of the saved host with `id`, if any.
pub open spec fn host_label_of(conns: Seq<Connection>, id: u128) -> Option<Seq<char>> {
    if exists|i: int| 0 <= i < conns.len() && conns[i].id == id {
        Some(conns[choose|i: int| 0 <= i < conns.len() && conns[i].id == id
            && forall|j: int| 0 <= j < i ==> conns[j].id != id].label@)
    } else {
        None
    }
}

/// The label of the rule's host: the first saved host with that id, or
/// `unknown` (the localized "unknown host").
pub open spec fn rule_host_label(conns: Seq<Connection>, id: u128, unknown: Seq<char>) -> Seq<char> {
    match host_label_of(conns, id) {
        Some(l) => l,
        None => unknown,
    }
}

/// The search keeps rule `r`: an empty needle, or a match in its label,
/// its summary or its host's label.
pub open spec fn rule_matches(r: PortForwardRule, host_label: Seq<char>, q: Seq<char>) -> bool {
    q.len() == 0 || matches_ci(r.label@, q) || contains_seq_lower(summary_text(r), q) || matches_ci(host_label, q)
}

/// The lowercased summary contains the needle.
pub open spec fn contains_seq_lower(text: Seq<char>, q: Seq<char>) -> bool {
    crate::search::contains_seq(lowercase(text), q)
}

/// The rules the search box keeps, as indices in rule order.
pub open spec fn visible_rules(conns: Seq<Connection>, rules: Seq<PortForwardRule>, search: Seq<char>, unknown: Seq<char>) -> Seq<usize> {
    keep_in_order(natural_order(rules.len()), |i: usize| rule_kept(conns, rules, search, unknown, i))
}

/// The search keeps rule `i`.
#[verifier::opaque]
pub open spec fn rule_kept(conns: Seq<Connection>, rules: Seq<PortForwardRule>, search: Seq<char>, unknown: Seq<char>, i: usize) -> bool {
    i < rules.len()
        && rule_matches(rules[i as int], rule_host_label(conns, rules[i as int].host_id, unknown), lowercase(search))
}

/// Label of the first saved host with `id`, or `unknown`.
pub fn rule_host(conns: &Vec<Connection>, id: u128, unknown: &str) -> (l: Vec<char>)
    ensures
        l@ == rule_host_label(conns@, id, unknown@),
{
    let mut i: usize = 0;
    while i < conns.len()
        invariant
            i <= conns.len(),
            forall|j: int| 0 <= j < i ==> conns@[j].id != id,
        decreases conns.len() - i,
    {
        if conns[i].id == id {
            proof {
                let c = choose|k: int| 0 <= k < conns@.len() && conns@[k].id == id
                    && forall|j: int| 0 <= j < k ==> conns@[j].id != id;
                assert(conns@[i as int].id == id);
                if c < i {
                    assert(conns@[c].id != id);
                }
                if i < c {
                    assert(conns@[i as int].id != id);
                }
            }
            return chars_of(conns[i].label.as_str());
        }
        i = i + 1;
    }
    chars_of(unknown)
}

/// Whether the search keeps `rule`, for the lowercased needle `q`.
pub fn rule_visible(conns: &Vec<Connection>, rule: &PortForwardRule, q: &Vec<char>, unknown: &str) -> (b: bool)
    ensures
        b == rule_matches(*rule, rule_host_label(conns@, rule.host_id, unknown@), q@),
{
    if q.len() == 0 {
        return true;
    }
    if matches_text(rule.label.as_str(), q) {
        return true;
    }
    let summary = forward_summary(rule);
    if matches_text(summary.as_str(), q) {
        return true;
    }
    let hl = rule_host(conns, rule.host_id, unknown);
    let hs = string_from_chars(&hl);
    matches_text(hs.as_str(), q)
}

/// The rules the Port Forwarding search keeps, in rule order. `unknown`
/// stands for a rule whose host is no longer saved.
/// With nothing typed, every rule shows, in rule order.
pub fn filter_port_forwards(conns: &Vec<Connection>, rules: &Vec<PortForwardRule>, search: &str, unknown: &str) -> (visible: Vec<usize>)
    ensures
        visible@ == visible_rules(conns@, rules@, search@, unknown@),
        search@.len() == 0 ==> visible@ == natural_order(rules@.len()),
{
    let q = needle_of(search);
    let ghost keep = |i: usize| rule_kept(conns@, rules@, search@, unknown@, i);
    let mut out: Vec<usize> = Vec::new();
    let mut i: usize = 0;
    while i < rules.len()
        invariant
            i <= rules@.len(),
            q@ == lowercase(search@),
            keep == (|i: usize| rule_kept(conns@, rules@, search@, unknown@, i)),
            out@ == keep_in_order(natural_order(i as nat), keep),
        decreases rules.len() - i,
    {
        let hit = rule_visible(conns, &rules[i], &q, unknown);
        proof {
            assert(natural_order((i + 1) as nat).drop_last() =~= natural_order(i as nat));
            assert(natural_order((i + 1) as nat).last() == i);
            reveal(rule_kept);
            assert(hit == keep(i));
        }
        if hit {
            out.push(i);
        }
        i = i + 1;
    }
    proof {
        if search@.len() == 0 {
            lemma_empty_needle_shows_every_rule(conns@, rules@, search@, unknown@);
        }
    }
    out
}

/// A listen address that keeps a forward on this machine: empty (the
/// default), or a loopback name.
pub open spec fn is_loopback_listen(s: Seq<char>) -> bool {
    s == ""@ || s == "127.0.0.1"@ || s == "localhost"@ || s == "::1"@ || s == "[::1]"@
}

/// The position of the first rule with id `id`.
pub open spec fn rule_position(rules: Seq<PortForwardRule>, id: u128) -> Option<int>
    decreases rules.len(),
{
    if rules.len() == 0 {
        None
    } else {
        match rule_position(rules.drop_last(), id) {
            Some(k) => Some(k),
            None => if rules.last().id == id { Some(rules.len() - 1) } else { None },
        }
    }
}

/// A first match found in a prefix is the first match of the whole.
proof fn lemma_rule_prefix(rules: Seq<PortForwardRule>, pre: Seq<PortForwardRule>, id: u128)
    requires
        pre.len() <= rules.len(),
        pre =~= rules.subrange(0, pre.len() as int),
        rule_position(pre, id) is Some,
    ensures
        rule_position(rules, id) == rule_position(pre, id),
    decreases rules.len(),
{
    if rules.len() > pre.len() {
        assert(rules.drop_last().subrange(0, pre.len() as int) =~= pre);
        lemma_rule_prefix(rules.drop_last(), pre, id);
    } else {
        assert(rules =~= pre);
    }
}

/// The position of the first rule with the id.
fn find_rule(rules: &Vec<PortForwardRule>, id: u128) -> (r: Option<usize>)
    ensures
        r matches Some(k) ==> rule_position(rules@, id) == Some(k as int),
        r is None ==> rule_position(rules@, id) is None,
{
    let mut i: usize = 0;
    while i < rules.len()
        invariant
            i <= rules@.len(),
            rule_position(rules@.subrange(0, i as int), id) is None,
        decreases rules.len() - i,
    {
        proof {
            assert(rules@.subrange(0, i + 1).drop_last() =~= rules@.subrange(0, i as int));
        }
        if rules[i].id == id {
            proof {
                let pre = rules@.subrange(0, i + 1);
                assert(rule_position(pre, id) == Some(i as int));
                lemma_rule_prefix(rules@, pre, id);
            }
            return Some(i);
        }
        i = i + 1;
    }
    proof {
        assert(rules@.subrange(0, rules@.len() as int) =~= rules@);
    }
    None
}

/// The rule editor side panel, as the parts it shows.
#[derive(Clone, Copy, Debug, PartialEq, Eq)]
pub struct ForwardPanel {
    pub title_key: &'static str,
    /// The target host and port fields (a SOCKS client picks its own
    /// destination, so a dynamic rule has none).
    pub target_fields: bool,
    /// A remote bind on every interface needs `GatewayPorts yes`.
    pub gateway_hint: bool,
    /// A SOCKS proxy bound beyond loopback is an open proxy.
    pub open_proxy_warning: bool,
    /// The self-healing note under the auto-start box.
    pub auto_start_hint: bool,
    /// The Delete row of the rule being edited, by its position.
    pub delete_index: Option<usize>,
}

/// The rule editor for a new rule (`editing_id` none) or an existing
/// one, with the form's kind, listen address and auto-start box.
pub fn forward_panel(
    kind: ForwardKind,
    listen_host: &str,
    auto_start: bool,
    editing_id: Option<u128>,
    rules: &Vec<PortForwardRule>,
) -> (p: ForwardPanel)
    ensures
        p.title_key@ == (if editing_id is Some { "edit_port_forward"@ } else { "new_port_forward"@ }),
        p.target_fields == (kind != ForwardKind::Dynamic),
        p.gateway_hint == (kind == ForwardKind::Remote && trim(listen_host@) == "0.0.0.0"@),
        p.open_proxy_warning == (kind == ForwardKind::Dynamic && !is_loopback_listen(trim(listen_host@))),
        p.auto_start_hint == auto_start,
        p.delete_index == match editing_id {
            Some(id) => match rule_position(rules@, id) {
                Some(k) => Some(k as usize),
                None => None::<usize>,
            },
            None => None::<usize>,
        },
{
    let raw = chars_of(listen_host);
    let listen = trim_chars(&raw);
    let any = chars_of("0.0.0.0");
    let loopback = chars_eq(&listen, &chars_of("")) || chars_eq(&listen, &chars_of("127.0.0.1"))
        || chars_eq(&listen, &chars_of("localhost")) || chars_eq(&listen, &chars_of("::1"))
        || chars_eq(&listen, &chars_of("[::1]"));
    let delete_index = match editing_id {
        Some(id) => find_rule(rules, id),
        None => None,
    };
    ForwardPanel {
        title_key: match editing_id {
            Some(_) => "edit_port_forward",
            None => "new_port_forward",
        },
        target_fields: match kind {
            ForwardKind::Dynamic => false,
            _ => true,
        },
        gateway_hint: kind == ForwardKind::Remote && chars_eq(&listen, &any),
        open_proxy_warning: kind == ForwardKind::Dynamic && !loopback,
        auto_start_hint: auto_start,
        delete_index,
    }
}

/// The host id a label picked in the editor's host list stands for: the
/// last saved host with that label (labels need not be unique; the later
/// host wins), or the nil id when no host has it.
pub open spec fn host_id_for_label(conns: Seq<Connection>, label: Seq<char>) -> u128
    decreases conns.len(),
{
    if conns.len() == 0 {
        0
    } else if conns.last().label@ == label {
        conns.last().id
    } else {
        host_id_for_label(conns.drop_last(), label)
    }
}

/// The host id for a label picked in the rule editor's host list.
pub fn forward_host_for_label(conns: &Vec<Connection>, label: &str) -> (id: u128)
    ensures
        id == host_id_for_label(conns@, label@),
{
    let want = chars_of(label);
    let mut k: usize = conns.len();
    assert(conns@.subrange(0, k as int) =~= conns@);
    while k > 0
        invariant
            k <= conns@.len(),
            want@ == label@,
            host_id_for_label(conns@, label@) == host_id_for_label(conns@.subrange(0, k as int), label@),
        decreases k,
    {
        let ghost sub = conns@.subrange(0, k as int);
        proof {
            assert(sub.drop_last() =~= conns@.subrange(0, k - 1));
            assert(sub.last() == conns@[k - 1]);
        }
        if chars_eq(&chars_of(conns[k - 1].label.as_str()), &want) {
            return conns[k - 1].id;
        }
        k = k - 1;
    }
    0
}

/// An empty needle shows every rule, in rule order.
proof fn lemma_empty_needle_shows_every_rule(
    conns: Seq<Connection>,
    rules: Seq<PortForwardRule>,
    search: Seq<char>,
    unknown: Seq<char>,
)
    requires
        lowercase(search).len() == 0,
    ensures
        visible_rules(conns, rules, search, unknown) == natural_order(rules.len()),
{
    reveal(rule_kept);
    let keep = |i: usize| rule_kept(conns, rules, search, unknown, i);
    assert forall|k: int| 0 <= k < natural_order(rules.len()).len()
        implies #[trigger] keep(natural_order(rules.len())[k]) by {}
    keep_in_order_every(natural_order(rules.len()), keep);
}

/// What a rule card's on/off toggle reads.
#[derive(Clone, Copy, Debug, PartialEq, Eq, Structural)]
pub enum ToggleLabel {
    Starting,
    Retrying,
    On,
    Off,
}

/// What pressing a rule card's toggle does.
#[derive(Clone, Copy, Debug, PartialEq, Eq, Structural)]
pub enum ForwardAction {
    Start(u128),
    Stop(u128),
}

/// A rule card's status: its dot and its toggle.
#[derive(Clone, Copy, Debug, PartialEq, Eq, Structural)]
pub struct ForwardStatus {
    /// Green while up, amber while a retry is scheduled, muted while down.
    pub dot: Tone,
    pub label: ToggleLabel,
    /// The toggle's message; none (a disabled toggle) while starting.
    pub on_press: Option<ForwardAction>,
}

/// The status of rule `id`: `active` while its tunnel is up, `starting`
/// while it comes up, `retry_scheduled` when the self-healing loop will
/// try again. A retry counts only while the rule is neither up nor
/// starting; pressing the toggle then stops the loop for good.
pub open spec fn forward_status_spec(id: u128, active: bool, starting: bool, retry_scheduled: bool) -> ForwardStatus {
    let retrying = !active && !starting && retry_scheduled;
    ForwardStatus {
        dot: if active { Tone::Success } else if retrying { Tone::Warning } else { Tone::Muted },
        label: if starting { ToggleLabel::Starting } else if retrying { ToggleLabel::Retrying }
            else if active { ToggleLabel::On } else { ToggleLabel::Off },
        on_press: if starting { None } else if retrying || active { Some(ForwardAction::Stop(id)) }
            else { Some(ForwardAction::Start(id)) },
    }
}

/// The status dot and on/off toggle of a rule card.
pub fn forward_status(id: u128, active: bool, starting: bool, retry_scheduled: bool) -> (s: ForwardStatus)
    ensures
        s == forward_status_spec(id, active, starting, retry_scheduled),
{
    let retrying = !active && !starting && retry_scheduled;
    ForwardStatus {
        dot: if active { Tone::Success } else if retrying { Tone::Warning } else { Tone::Muted },
        label: if starting { ToggleLabel::Starting } else if retrying { ToggleLabel::Retrying }
            else if active { ToggleLabel::On } else { ToggleLabel::Off },
        on_press: if starting { None } else if retrying || active { Some(ForwardAction::Stop(id)) }
            else { Some(ForwardAction::Start(id)) },
    }
}

} // verus!
