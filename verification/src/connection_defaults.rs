//! Settings -> Connection: the defaults a new host form starts from, as
//! pickers over the saved entities, and which rows the collapsible card
//! shows.

use vstd::prelude::*;
use crate::search::keep_in_order;

verus! {

/// A saved entity a default can point at (identity, key, proxy): its id
/// and the label the picker shows.
#[derive(Clone, Debug)]
pub struct NamedRef {
    pub id: u128,
    pub label: String,
}

/// A saved group: its id, its breadcrumb path, and whether the group
/// list shows it (phantom groups are hidden).
#[derive(Clone, Debug)]
pub struct GroupRef {
    pub id: u128,
    pub path: String,
    pub visible: bool,
}

/// A pick list: the options in order and the one shown as selected.
#[derive(Clone, Debug)]
pub struct PickList {
    pub options: Vec<String>,
    pub selected: String,
}

/// The position of the first entity with id `id`, if any.
pub open spec fn first_ref(items: Seq<NamedRef>, id: u128) -> Option<int>
    decreases items.len(),
{
    if items.len() == 0 {
        None
    } else {
        match first_ref(items.drop_last(), id) {
            Some(k) => Some(k),
            None => if items.last().id == id { Some(items.len() - 1) } else { None },
        }
    }
}

/// The first-match position is in range and holds the id, and no
/// earlier entity holds it.
pub proof fn first_ref_props(items: Seq<NamedRef>, id: u128)
    ensures
        first_ref(items, id) matches Some(k) ==> 0 <= k < items.len() && items[k].id == id
            && forall|j: int| 0 <= j < k ==> #[trigger] items[j].id != id,
        first_ref(items, id) is None ==> forall|j: int| 0 <= j < items.len() ==> #[trigger] items[j].id != id,
    decreases items.len(),
{
    if items.len() > 0 {
        first_ref_props(items.drop_last(), id);
        assert forall|j: int| 0 <= j < items.len() - 1 implies #[trigger] items[j] == items.drop_last()[j] by {}
    }
}

/// The label a picker shows as selected: the label of the first entity
/// with the default id, or the "(none)" sentinel when no default is set
/// or it points at nothing saved.
pub open spec fn selected_label(none: Seq<char>, items: Seq<NamedRef>, default_id: Option<u128>) -> Seq<char> {
    match default_id {
        Some(id) => match first_ref(items, id) {
            Some(k) => items[k].label@,
            None => none,
        },
        None => none,
    }
}

/// The picker options are the "(none)" sentinel followed by `labels`.
pub open spec fn options_are(options: Seq<String>, none: Seq<char>, labels: Seq<Seq<char>>) -> bool {
    &&& options.len() == labels.len() + 1
    &&& options[0]@ == none
    &&& forall|i: int| 0 <= i < labels.len() ==> #[trigger] options[i + 1]@ == labels[i]
}

/// The label of the first entity with id `id`, if any.
fn find_label(items: &Vec<NamedRef>, id: u128) -> (r: Option<String>)
    ensures
        r matches Some(s) ==> first_ref(items@, id) is Some && s@ == items@[first_ref(items@, id)->0].label@,
        r is None ==> first_ref(items@, id) is None,
{
    let mut i: usize = 0;
    while i < items.len()
        invariant
            i <= items.len(),
            first_ref(items@.subrange(0, i as int), id) is None,
        decreases items.len() - i,
    {
        proof {
            assert(items@.subrange(0, i + 1).drop_last() =~= items@.subrange(0, i as int));
        }
        if items[i].id == id {
            proof {
                lemma_first_ref_prefix(items@, id, i as int);
            }
            return Some(items[i].label.clone());
        }
        i = i + 1;
    }
    proof {
        assert(items@.subrange(0, items@.len() as int) =~= items@);
    }
    None
}

/// When no entity before `i` holds the id and entity `i` does, the first
/// match is `i`.
proof fn lemma_first_ref_prefix(items: Seq<NamedRef>, id: u128, i: int)
    requires
        0 <= i < items.len(),
        first_ref(items.subrange(0, i), id) is None,
        items[i].id == id,
    ensures
        first_ref(items, id) == Some(i),
{
    let pre = items.subrange(0, i + 1);
    assert(pre.drop_last() =~= items.subrange(0, i));
    assert(first_ref(pre, id) == Some(i));
    first_ref_props(pre, id);
    first_ref_props(items, id);
    first_ref_props(items.subrange(0, i), id);
    match first_ref(items, id) {
        Some(k) => {
            if k < i {
                assert(pre[k] == items[k]);
            }
            if k > i {
                assert(items[i].id != id);
            }
        },
        None => {
            assert(items[i].id != id);
        },
    }
}

/// A default-entity picker (identity, key, proxy): "(none)" then every
/// saved entity's label, with the default's label selected.
pub fn entity_picker(none_label: &str, items: &Vec<NamedRef>, default_id: Option<u128>) -> (p: PickList)
    requires
        items@.len() + 1 < usize::MAX,
    ensures
        options_are(p.options@, none_label@, items@.map_values(|r: NamedRef| r.label@)),
        p.selected@ == selected_label(none_label@, items@, default_id),
{
    let mut options: Vec<String> = Vec::new();
    options.push(none_label.to_string());
    let mut i: usize = 0;
    while i < items.len()
        invariant
            i <= items.len(),
            options@.len() == i + 1,
            options@[0]@ == none_label@,
            forall|k: int| 0 <= k < i ==> #[trigger] options@[k + 1]@ == items@[k].label@,
        decreases items.len() - i,
    {
        options.push(items[i].label.clone());
        i = i + 1;
    }
    let selected = match default_id {
        Some(id) => match find_label(items, id) {
            Some(s) => s,
            None => none_label.to_string(),
        },
        None => none_label.to_string(),
    };
    PickList { options, selected }
}

/// The groups as entities keyed by id and labelled by path.
pub open spec fn group_refs(groups: Seq<GroupRef>) -> Seq<NamedRef> {
    groups.map_values(|g: GroupRef| NamedRef { id: g.id, label: g.path })
}

/// The positions of the groups the list shows.
pub open spec fn visible_groups(groups: Seq<GroupRef>) -> Seq<usize> {
    keep_in_order(Seq::new(groups.len(), |i: int| i as usize), |i: usize| i < groups.len() && groups[i as int].visible)
}

/// The default-group picker: "(none)" then the path of every visible
/// group, with the default group's path selected (a hidden group that is
/// the default still shows as selected).
pub fn group_picker(none_label: &str, groups: &Vec<GroupRef>, default_id: Option<u128>) -> (p: PickList)
    requires
        groups@.len() + 1 < usize::MAX,
    ensures
        options_are(p.options@, none_label@,
            visible_groups(groups@).map_values(|i: usize| groups@[i as int].path@)),
        p.selected@ == selected_label(none_label@, group_refs(groups@), default_id),
{
    let mut options: Vec<String> = Vec::new();
    options.push(none_label.to_string());
    let ghost idx = Seq::new(groups@.len(), |i: int| i as usize);
    let ghost keep = |i: usize| i < groups@.len() && groups@[i as int].visible;
    let ghost kept: Seq<usize> = Seq::empty();
    let mut refs: Vec<NamedRef> = Vec::new();
    let mut i: usize = 0;
    while i < groups.len()
        invariant
            i <= groups.len(),
            groups@.len() + 1 < usize::MAX,
            idx == Seq::new(groups@.len(), |i: int| i as usize),
            keep == (|i: usize| i < groups@.len() && groups@[i as int].visible),
            kept == keep_in_order(idx.subrange(0, i as int), keep),
            options@.len() == kept.len() + 1,
            options@[0]@ == none_label@,
            forall|k: int| 0 <= k < kept.len() ==> #[trigger] options@[k + 1]@ == groups@[kept[k] as int].path@,
            refs@ == group_refs(groups@.subrange(0, i as int)),
        decreases groups.len() - i,
    {
        proof {
            assert(idx.subrange(0, i + 1).drop_last() =~= idx.subrange(0, i as int));
            assert(idx.subrange(0, i + 1).last() == i);
            assert(keep(i) == groups@[i as int].visible);
        }
        if groups[i].visible {
            options.push(groups[i].path.clone());
            proof {
                kept = kept.push(i);
            }
        }
        refs.push(NamedRef { id: groups[i].id, label: groups[i].path.clone() });
        proof {
            assert(group_refs(groups@.subrange(0, i + 1)) =~= group_refs(groups@.subrange(0, i as int)).push(
                NamedRef { id: groups@[i as int].id, label: groups@[i as int].path }));
        }
        i = i + 1;
    }
    proof {
        assert(idx.subrange(0, groups@.len() as int) =~= idx);
        assert(groups@.subrange(0, groups@.len() as int) =~= groups@);
        let labels = visible_groups(groups@).map_values(|i: usize| groups@[i as int].path@);
        assert forall|k: int| 0 <= k < labels.len() implies #[trigger] options@[k + 1]@ == labels[k] by {}
    }
    let selected = match default_id {
        Some(id) => match find_label(&refs, id) {
            Some(s) => s,
            None => none_label.to_string(),
        },
        None => none_label.to_string(),
    };
    PickList { options, selected }
}

/// The character encoding a new host starts with: the configured
/// default, or UTF-8.
pub fn default_encoding(configured: &Option<String>) -> (s: String)
    ensures
        s@ == match configured {
            Some(c) => c@,
            None => "UTF-8"@,
        },
{
    match configured {
        Some(c) => c.clone(),
        None => "UTF-8".to_string(),
    }
}

/// One row of the "New connection defaults" card.
#[derive(Clone, Copy, Debug, PartialEq, Eq, Structural)]
pub enum DefaultsRow {
    Header,
    AgentForwarding,
    Port,
    Keepalive,
    TerminalType,
    Username,
    AuthMethod,
    Identity,
    Key,
    Group,
    Proxy,
    McpExposure,
    Encoding,
    EnvHeader,
    /// The editor of environment variable `i`.
    EnvVar(usize),
}

/// The rows of the defaults card: the header alone while collapsed,
/// otherwise every field in order and one editor per environment
/// variable.
pub open spec fn defaults_rows_spec(collapsed: bool, env_vars: nat) -> Seq<DefaultsRow> {
    if collapsed {
        seq![DefaultsRow::Header]
    } else {
        seq![
            DefaultsRow::Header, DefaultsRow::AgentForwarding, DefaultsRow::Port, DefaultsRow::Keepalive,
            DefaultsRow::TerminalType, DefaultsRow::Username, DefaultsRow::AuthMethod, DefaultsRow::Identity,
            DefaultsRow::Key, DefaultsRow::Group, DefaultsRow::Proxy, DefaultsRow::McpExposure,
            DefaultsRow::Encoding, DefaultsRow::EnvHeader,
        ] + Seq::new(env_vars, |i: int| DefaultsRow::EnvVar(i as usize))
    }
}

/// The rows the defaults card shows, top to bottom.
pub fn defaults_rows(collapsed: bool, env_vars: usize) -> (rows: Vec<DefaultsRow>)
    ensures
        rows@ == defaults_rows_spec(collapsed, env_vars as nat),
{
    let mut rows: Vec<DefaultsRow> = Vec::new();
    rows.push(DefaultsRow::Header);
    if collapsed {
        assert(rows@ =~= defaults_rows_spec(collapsed, env_vars as nat));
        return rows;
    }
    rows.push(DefaultsRow::AgentForwarding);
    rows.push(DefaultsRow::Port);
    rows.push(DefaultsRow::Keepalive);
    rows.push(DefaultsRow::TerminalType);
    rows.push(DefaultsRow::Username);
    rows.push(DefaultsRow::AuthMethod);
    rows.push(DefaultsRow::Identity);
    rows.push(DefaultsRow::Key);
    rows.push(DefaultsRow::Group);
    rows.push(DefaultsRow::Proxy);
    rows.push(DefaultsRow::McpExposure);
    rows.push(DefaultsRow::Encoding);
    rows.push(DefaultsRow::EnvHeader);
    let ghost fields = rows@;
    let mut i: usize = 0;
    while i < env_vars
        invariant
            i <= env_vars,
            fields.len() == 14,
            rows@ == fields + Seq::new(i as nat, |k: int| DefaultsRow::EnvVar(k as usize)),
        decreases env_vars - i,
    {
        rows.push(DefaultsRow::EnvVar(i));
        proof {
            assert(fields + Seq::new((i + 1) as nat, |k: int| DefaultsRow::EnvVar(k as usize))
                =~= (fields + Seq::new(i as nat, |k: int| DefaultsRow::EnvVar(k as usize))).push(DefaultsRow::EnvVar(i)));
        }
        i = i + 1;
    }
    assert(rows@ =~= defaults_rows_spec(collapsed, env_vars as nat));
    rows
}

} // verus!
