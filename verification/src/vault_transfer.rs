//! Settings -> Security, the export / import card: the two-phase import
//! dialog, the export dialog's private-key sub-option, and the SFTP
//! backup form's host picker.

use vstd::prelude::*;
use crate::state::Connection;
use crate::text::str_eq;

verus! {

/// What Enter in the import password field does.
#[derive(Clone, Copy, Debug, PartialEq, Eq, Structural)]
pub enum ImportEnter {
    /// Phase one: decrypt the file and show what it holds.
    Inspect,
    /// Phase two: import the chosen categories.
    Confirm,
}

/// One category line of the import dialog's second phase.
#[derive(Clone, Copy, Debug, PartialEq, Eq, Structural)]
pub enum CategoryRow {
    /// A category the file holds: a checkbox labelled with its count.
    Present { index: usize, count: u64 },
    /// A category the file lacks: greyed, "not in file".
    Absent { index: usize },
}

/// The import dialog: what Enter does, and the category lines (none
/// before the file has been inspected).
#[derive(Clone, Debug)]
pub struct ImportDialog {
    pub enter: ImportEnter,
    pub categories: Vec<CategoryRow>,
}

/// The category line of category `i` holding `count` items.
pub open spec fn category_row(i: int, count: u64) -> CategoryRow {
    if count > 0 {
        CategoryRow::Present { index: i as usize, count }
    } else {
        CategoryRow::Absent { index: i as usize }
    }
}

/// The import dialog for an inspected file with per-category `counts`
/// (in the export category order), or for a file not yet inspected.
pub fn import_dialog(counts: &Option<Vec<u64>>) -> (d: ImportDialog)
    ensures
        match counts {
            None => d.enter == ImportEnter::Inspect && d.categories@.len() == 0,
            Some(c) => d.enter == ImportEnter::Confirm
                && d.categories@ == Seq::new(c@.len(), |i: int| category_row(i, c@[i])),
        },
{
    match counts {
        None => ImportDialog { enter: ImportEnter::Inspect, categories: Vec::new() },
        Some(c) => {
            let mut rows: Vec<CategoryRow> = Vec::new();
            let mut i: usize = 0;
            while i < c.len()
                invariant
                    i <= c@.len(),
                    rows@ == Seq::new(i as nat, |k: int| category_row(k, c@[k])),
                decreases c.len() - i,
            {
                let n = c[i];
                let row = if n > 0 {
                    CategoryRow::Present { index: i, count: n }
                } else {
                    CategoryRow::Absent { index: i }
                };
                rows.push(row);
                proof {
                    assert(rows@ =~= Seq::new((i + 1) as nat, |k: int| category_row(k, c@[k])));
                }
                i = i + 1;
            }
            ImportDialog { enter: ImportEnter::Confirm, categories: rows }
        },
    }
}

/// The export dialog offers "include private keys" only while the Keys
/// category is being exported.
pub fn export_keys_toggle_shown(keys_selected: bool) -> (b: bool)
    ensures
        b == keys_selected,
{
    keys_selected
}

/// The host the backup form shows as selected: the saved host at the
/// chosen position, if that position holds one.
pub fn backup_selected_host(conns: &Vec<Connection>, host: Option<usize>) -> (s: Option<String>)
    ensures
        match host {
            Some(i) => if i < conns@.len() {
                s matches Some(l) && l@ == conns@[i as int].label@
            } else {
                s is None
            },
            None => s is None,
        },
{
    match host {
        Some(i) => if i < conns.len() {
            Some(conns[i].label.clone())
        } else {
            None
        },
        None => None,
    }
}

/// The host position a picked label stands for: the last saved host
/// with that label (labels need not be unique; the later host wins), or
/// the first host when no host has it.
pub open spec fn backup_host_for_label(conns: Seq<Connection>, label: Seq<char>) -> usize
    decreases conns.len(),
{
    if conns.len() == 0 {
        0
    } else if conns.last().label@ == label {
        (conns.len() - 1) as usize
    } else {
        backup_host_for_label(conns.drop_last(), label)
    }
}

/// The host position for a label picked in the backup form's host list.
pub fn backup_host_index(conns: &Vec<Connection>, label: &str) -> (i: usize)
    ensures
        i == backup_host_for_label(conns@, label@),
{
    let mut k: usize = conns.len();
    assert(conns@.subrange(0, k as int) =~= conns@);
    while k > 0
        invariant
            k <= conns@.len(),
            backup_host_for_label(conns@, label@) == backup_host_for_label(conns@.subrange(0, k as int), label@),
        decreases k,
    {
        let ghost sub = conns@.subrange(0, k as int);
        proof {
            assert(sub.drop_last() =~= conns@.subrange(0, k - 1));
            assert(sub.last() == conns@[k - 1]);
        }
        if str_eq(conns[k - 1].label.as_str(), label) {
            return k - 1;
        }
        k = k - 1;
    }
    0
}

} // verus!
