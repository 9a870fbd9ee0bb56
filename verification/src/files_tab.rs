//! The terminal sidebar's Files tab: which body it shows, which header
//! actions it offers, and which rows the directory listing holds.

use vstd::prelude::*;
use crate::text::{chars_of, str_eq, string_from_chars};

verus! {

/// One directory entry as the browser lists it; `full` is the entry's
/// path joined onto the browsed directory.
#[derive(Clone, Debug)]
pub struct FileEntry {
    pub name: String,
    pub full: String,
    pub is_dir: bool,
    pub is_symlink: bool,
    pub size: u64,
}

/// What the inline "new ..." input at the top of the list creates.
#[derive(Clone, Copy, Debug, PartialEq, Eq, Structural)]
pub enum NewEntryKind {
    Folder,
    File,
}

/// What Enter on a row does: folders are entered, files get their path
/// copied.
#[derive(Clone, Copy, Debug, PartialEq, Eq, Structural)]
pub enum RowActivate {
    Navigate,
    CopyPath,
}

/// One row of the listing. Entry rows name the entry by its index.
#[derive(Clone, Copy, Debug, PartialEq, Eq, Structural)]
pub enum FileRow {
    /// The inline name input for a new folder or file.
    NewEntryInput(NewEntryKind),
    /// The ".." row to the parent directory.
    Parent,
    /// An entry whose label is swapped for the rename input.
    Rename(usize),
    /// An ordinary entry row.
    Entry {
        index: usize,
        activate: RowActivate,
        selected: bool,
        /// Selected together with at least one other row.
        multi: bool,
        /// The hover-revealed Copy path chip is showing.
        copy_chip: bool,
    },
    /// The "empty directory" placeholder.
    Empty,
}

/// What the listing is built from.
#[derive(Clone, Debug)]
pub struct FilesListing {
    pub entries: Vec<FileEntry>,
    pub show_hidden: bool,
    pub new_entry: Option<NewEntryKind>,
    /// The browsed directory has a parent (it is not the root).
    pub has_parent: bool,
    /// The full path of the entry being renamed.
    pub rename: Option<String>,
    /// The full paths of the selected entries.
    pub selected: Vec<String>,
    /// The position of the row under the mouse.
    pub hovered: Option<usize>,
}

/// A dotfile: hidden unless the hidden-files toggle is on.
pub open spec fn is_hidden_name(name: Seq<char>) -> bool {
    name.len() > 0 && name[0] == '.'
}

/// Whether the listing shows entry `e`.
pub open spec fn shows(e: FileEntry, show_hidden: bool) -> bool {
    show_hidden || !is_hidden_name(e.name@)
}

/// Whether `full` is one of the selected paths.
pub open spec fn in_selection(sel: Seq<String>, full: Seq<char>) -> bool {
    exists|j: int| 0 <= j < sel.len() && #[trigger] sel[j]@ == full
}

/// The rows above the entries: the new-entry input, then "..".
pub open spec fn head_rows(l: FilesListing) -> Seq<FileRow> {
    (if l.new_entry is Some { seq![FileRow::NewEntryInput(l.new_entry->0)] } else { Seq::empty() })
        + (if l.has_parent { seq![FileRow::Parent] } else { Seq::empty() })
}

/// The row of entry `i`, drawn at position `pos`.
pub open spec fn entry_row(l: FilesListing, i: int, pos: int) -> FileRow {
    let e = l.entries@[i];
    if l.rename is Some && l.rename->0@ == e.full@ {
        FileRow::Rename(i as usize)
    } else {
        let sel = in_selection(l.selected@, e.full@);
        let multi = sel && l.selected@.len() > 1;
        FileRow::Entry {
            index: i as usize,
            activate: if e.is_dir { RowActivate::Navigate } else { RowActivate::CopyPath },
            selected: sel,
            multi,
            copy_chip: l.hovered == Some(pos as usize) && !multi,
        }
    }
}

/// The rows of the first `n` entries: one for each shown entry, in order.
pub open spec fn entry_rows(l: FilesListing, n: nat) -> Seq<FileRow>
    decreases n,
{
    if n == 0 {
        Seq::empty()
    } else {
        let prev = entry_rows(l, (n - 1) as nat);
        if shows(l.entries@[n - 1], l.show_hidden) {
            prev.push(entry_row(l, n - 1, (head_rows(l).len() + prev.len()) as int))
        } else {
            prev
        }
    }
}

/// The whole listing: head rows, entry rows, and the placeholder when no
/// entry is shown.
pub open spec fn listing_rows(l: FilesListing) -> Seq<FileRow> {
    let rows = entry_rows(l, l.entries@.len());
    head_rows(l) + rows + (if rows.len() == 0 { seq![FileRow::Empty] } else { Seq::empty() })
}

/// Whether the selection holds `full`.
fn selection_has(sel: &Vec<String>, full: &str) -> (b: bool)
    ensures
        b == in_selection(sel@, full@),
{
    let mut j: usize = 0;
    while j < sel.len()
        invariant
            j <= sel.len(),
            forall|k: int| 0 <= k < j ==> #[trigger] sel@[k]@ != full@,
        decreases sel.len() - j,
    {
        if str_eq(sel[j].as_str(), full) {
            return true;
        }
        j = j + 1;
    }
    false
}

/// Whether the entry name starts with a dot.
fn hidden_name(name: &str) -> (b: bool)
    ensures
        b == is_hidden_name(name@),
{
    let c = chars_of(name);
    c.len() > 0 && c[0] == '.'
}

/// The rows of the Files tab listing, top to bottom. A row's position in
/// the result is the position the hover state refers to.
pub fn files_rows(l: &FilesListing) -> (rows: Vec<FileRow>)
    requires
        l.entries@.len() + 2 < usize::MAX,
    ensures
        rows@ == listing_rows(*l),
{
    let mut out: Vec<FileRow> = Vec::new();
    match l.new_entry {
        Some(k) => out.push(FileRow::NewEntryInput(k)),
        None => {},
    }
    if l.has_parent {
        out.push(FileRow::Parent);
    }
    assert(out@ =~= head_rows(*l));
    let head: usize = out.len();
    let mut i: usize = 0;
    while i < l.entries.len()
        invariant
            i <= l.entries@.len(),
            l.entries@.len() + 2 < usize::MAX,
            head == head_rows(*l).len(),
            head <= 2,
            out@ == head_rows(*l) + entry_rows(*l, i as nat),
            entry_rows(*l, i as nat).len() <= i,
        decreases l.entries.len() - i,
    {
        let e = &l.entries[i];
        let ghost prev = entry_rows(*l, i as nat);
        if l.show_hidden || !hidden_name(e.name.as_str()) {
            let pos = out.len();
            let renaming = match &l.rename {
                Some(r) => str_eq(r.as_str(), e.full.as_str()),
                None => false,
            };
            let row = if renaming {
                FileRow::Rename(i)
            } else {
                let sel = selection_has(&l.selected, e.full.as_str());
                let multi = sel && l.selected.len() > 1;
                let hovered_here = match l.hovered {
                    Some(h) => h == pos,
                    None => false,
                };
                FileRow::Entry {
                    index: i,
                    activate: if e.is_dir { RowActivate::Navigate } else { RowActivate::CopyPath },
                    selected: sel,
                    multi,
                    copy_chip: hovered_here && !multi,
                }
            };
            assert(row == entry_row(*l, i as int, (head_rows(*l).len() + prev.len()) as int));
            out.push(row);
            assert(out@ =~= head_rows(*l) + entry_rows(*l, (i + 1) as nat));
        } else {
            assert(entry_rows(*l, (i + 1) as nat) == prev);
        }
        i = i + 1;
    }
    if out.len() == head {
        out.push(FileRow::Empty);
    }
    assert(out@ =~= listing_rows(*l));
    out
}

/// What the body of the tab shows.
#[derive(Clone, Copy, Debug, PartialEq, Eq, Structural)]
pub enum FilesBody {
    /// Neither a local shell nor an SSH session to browse.
    NoSession,
    /// The last listing failed: the error and a Retry button.
    Error,
    /// The SFTP channel is still being opened.
    Mounting,
    /// A navigation is in flight and nothing is listed yet.
    Loading,
    /// The listing rows.
    Listing,
}

/// The body state, first match wins: no transport, an error, no client
/// yet, loading with no rows, else the listing.
pub open spec fn body_spec(has_transport: bool, error: bool, mounted: bool, loading: bool, no_entries: bool) -> FilesBody {
    if !has_transport {
        FilesBody::NoSession
    } else if error {
        FilesBody::Error
    } else if !mounted {
        FilesBody::Mounting
    } else if loading && no_entries {
        FilesBody::Loading
    } else {
        FilesBody::Listing
    }
}

/// Which body the tab shows. `has_transport` holds for a local shell or
/// a live SSH session.
pub fn files_body(has_transport: bool, error: bool, mounted: bool, loading: bool, no_entries: bool) -> (b: FilesBody)
    ensures
        b == body_spec(has_transport, error, mounted, loading, no_entries),
{
    if !has_transport {
        FilesBody::NoSession
    } else if error {
        FilesBody::Error
    } else if !mounted {
        FilesBody::Mounting
    } else if loading && no_entries {
        FilesBody::Loading
    } else {
        FilesBody::Listing
    }
}

/// One cell of the header strip.
#[derive(Clone, Copy, Debug, PartialEq, Eq, Structural)]
pub enum HeaderCell {
    PathInput,
    PathLabel,
    HistoryArrow,
    FollowPin,
    HiddenToggle,
    Refresh,
    Expand,
}

/// The header cells in display order. While the path is edited the input
/// takes the strip (with the history arrow when there is history);
/// otherwise the label, the arrow, the pin, the hidden toggle, refresh,
/// and the SFTP expand action unless the pane is a local shell.
pub open spec fn header_cells_spec(editing: bool, has_history: bool, is_local: bool) -> Seq<HeaderCell> {
    let arrow = if has_history { seq![HeaderCell::HistoryArrow] } else { Seq::empty() };
    if editing {
        seq![HeaderCell::PathInput] + arrow
    } else {
        seq![HeaderCell::PathLabel] + arrow
            + seq![HeaderCell::FollowPin, HeaderCell::HiddenToggle, HeaderCell::Refresh]
            + (if is_local { Seq::empty() } else { seq![HeaderCell::Expand] })
    }
}

/// The header cells of the tab, left to right.
pub fn files_header(editing: bool, has_history: bool, is_local: bool) -> (cells: Vec<HeaderCell>)
    ensures
        cells@ == header_cells_spec(editing, has_history, is_local),
{
    let mut cells: Vec<HeaderCell> = Vec::new();
    if editing {
        cells.push(HeaderCell::PathInput);
        if has_history {
            cells.push(HeaderCell::HistoryArrow);
        }
    } else {
        cells.push(HeaderCell::PathLabel);
        if has_history {
            cells.push(HeaderCell::HistoryArrow);
        }
        cells.push(HeaderCell::FollowPin);
        cells.push(HeaderCell::HiddenToggle);
        cells.push(HeaderCell::Refresh);
        if !is_local {
            cells.push(HeaderCell::Expand);
        }
    }
    assert(cells@ =~= header_cells_spec(editing, has_history, is_local));
    cells
}

/// The path label: the path, or an ellipsis before the first listing.
pub open spec fn path_label_spec(path: Seq<char>) -> Seq<char> {
    if path.len() == 0 { seq!['\u{2026}'] } else { path }
}

/// The text of the header's path label.
pub fn path_label(path: &str) -> (s: String)
    ensures
        s@ == path_label_spec(path@),
{
    let c = chars_of(path);
    if c.len() == 0 {
        let mut v: Vec<char> = Vec::new();
        v.push('\u{2026}');
        assert(v@ =~= seq!['\u{2026}']);
        string_from_chars(&v)
    } else {
        string_from_chars(&c)
    }
}

/// The overlays stacked on the tab.
#[derive(Clone, Copy, Debug, PartialEq, Eq, Structural)]
pub struct FilesOverlays {
    /// The drop-to-upload hint above the body.
    pub drop_hint: bool,
    /// The visited-directory dropdown.
    pub history_menu: bool,
}

/// The drop hint shows while the OS drags files over the window, a
/// client is mounted and a directory is known; the history dropdown
/// shows when opened and there is history to list.
pub fn files_overlays(
    os_drop_hover: bool,
    mounted: bool,
    path_known: bool,
    history_open: bool,
    has_history: bool,
) -> (o: FilesOverlays)
    ensures
        o.drop_hint == (os_drop_hover && mounted && path_known),
        o.history_menu == (history_open && has_history),
{
    FilesOverlays {
        drop_hint: os_drop_hover && mounted && path_known,
        history_menu: history_open && has_history,
    }
}

/// The rows an entry row of the listing may be: a shown entry, drawn as
/// the rename input or as an ordinary row whose copy chip never shows
/// inside a multi-selection.
pub open spec fn entry_row_ok(l: FilesListing, n: nat, r: FileRow) -> bool {
    match r {
        FileRow::Entry { index, multi, copy_chip, .. } =>
            index < n && shows(l.entries@[index as int], l.show_hidden) && !(multi && copy_chip),
        FileRow::Rename(index) => index < n && shows(l.entries@[index as int], l.show_hidden),
        _ => false,
    }
}

/// Every row built from the first `n` entries is `entry_row_ok`.
proof fn lemma_entry_rows_ok(l: FilesListing, n: nat)
    requires
        n <= l.entries@.len(),
    ensures
        forall|k: int| 0 <= k < entry_rows(l, n).len() ==> entry_row_ok(l, n, #[trigger] entry_rows(l, n)[k]),
    decreases n,
{
    if n > 0 {
        lemma_entry_rows_ok(l, (n - 1) as nat);
        let prev = entry_rows(l, (n - 1) as nat);
        assert forall|k: int| 0 <= k < entry_rows(l, n).len() implies entry_row_ok(l, n, #[trigger] entry_rows(l, n)[k]) by {
            if k < prev.len() {
                assert(entry_rows(l, n)[k] == prev[k]);
                assert(entry_row_ok(l, (n - 1) as nat, prev[k]));
            } else {
                let pos = (head_rows(l).len() + prev.len()) as int;
                assert(shows(l.entries@[n - 1], l.show_hidden));
                assert(entry_rows(l, n)[k] == entry_row(l, n - 1, pos));
                assert(l.entries.len() == l.entries@.len());
                assert(entry_row_ok(l, n, entry_row(l, n - 1, pos)));
            }
        }
    }
}

/// The listing never lists a hidden dotfile while hidden files are off,
/// never shows the single-row copy chip on a row inside a
/// multi-selection, and lists the placeholder only when no entry shows.
pub proof fn listing_rows_well_formed(l: FilesListing)
    ensures
        forall|k: int| 0 <= k < listing_rows(l).len() ==> (#[trigger] listing_rows(l)[k] matches
            FileRow::Entry { index, multi, copy_chip, .. }
            ==> index < l.entries@.len() && shows(l.entries@[index as int], l.show_hidden) && !(multi && copy_chip)),
        forall|k: int| 0 <= k < listing_rows(l).len() ==> (#[trigger] listing_rows(l)[k] matches FileRow::Rename(index)
            ==> index < l.entries@.len() && shows(l.entries@[index as int], l.show_hidden)),
        listing_rows(l).contains(FileRow::Empty) <==> entry_rows(l, l.entries@.len()).len() == 0,
{
    let n = l.entries@.len();
    let head = head_rows(l);
    let rows = entry_rows(l, n);
    lemma_entry_rows_ok(l, n);
    let all = listing_rows(l);
    assert forall|k: int| 0 <= k < all.len() implies (#[trigger] all[k] matches
        FileRow::Entry { index, multi, copy_chip, .. }
        ==> index < n && shows(l.entries@[index as int], l.show_hidden) && !(multi && copy_chip)) by {
        if head.len() <= k < head.len() + rows.len() {
            assert(all[k] == rows[k - head.len()]);
        }
    }
    assert forall|k: int| 0 <= k < all.len() implies (#[trigger] all[k] matches FileRow::Rename(index)
        ==> index < n && shows(l.entries@[index as int], l.show_hidden)) by {
        if head.len() <= k < head.len() + rows.len() {
            assert(all[k] == rows[k - head.len()]);
        }
    }
    if rows.len() == 0 {
        assert(all[all.len() - 1] == FileRow::Empty);
    } else {
        if all.contains(FileRow::Empty) {
            let k = choose|k: int| 0 <= k < all.len() && all[k] == FileRow::Empty;
            if head.len() <= k {
                assert(all[k] == rows[k - head.len()]);
            }
        }
    }
}

/// The entry rows of the first `n` entries put the copy chip on the row
/// whose listing position (after the head rows) is the hovered one.
proof fn lemma_entry_rows_chip(l: FilesListing, n: nat)
    requires
        n <= l.entries@.len(),
        l.entries@.len() + 2 < usize::MAX,
    ensures
        entry_rows(l, n).len() <= n,
        forall|j: int| 0 <= j < entry_rows(l, n).len() ==> (#[trigger] entry_rows(l, n)[j] matches
            FileRow::Entry { copy_chip, multi, .. }
            ==> (copy_chip <==> l.hovered == Some((head_rows(l).len() + j) as usize) && !multi)),
    decreases n,
{
    if n > 0 {
        lemma_entry_rows_chip(l, (n - 1) as nat);
        let prev = entry_rows(l, (n - 1) as nat);
        let cur = entry_rows(l, n);
        assert forall|j: int| 0 <= j < cur.len() implies (#[trigger] cur[j] matches
            FileRow::Entry { copy_chip, multi, .. }
            ==> (copy_chip <==> l.hovered == Some((head_rows(l).len() + j) as usize) && !multi)) by {
            if j < prev.len() {
                assert(cur[j] == prev[j]);
            }
        }
    }
}

/// The Copy path chip follows the pointer: an entry row shows it exactly
/// when the hovered position is that row's own position in the listing
/// (hidden entries take no position) and the row is not part of a
/// multi-row selection.
pub proof fn copy_chip_on_the_hovered_row(l: FilesListing)
    requires
        l.entries@.len() + 2 < usize::MAX,
    ensures
        forall|k: int| 0 <= k < listing_rows(l).len() ==> (#[trigger] listing_rows(l)[k] matches
            FileRow::Entry { copy_chip, multi, .. }
            ==> (copy_chip <==> l.hovered == Some(k as usize) && !multi)),
{
    let n = l.entries@.len();
    let head = head_rows(l);
    let rows = entry_rows(l, n);
    lemma_entry_rows_chip(l, n);
    let all = listing_rows(l);
    assert forall|k: int| 0 <= k < all.len() implies (#[trigger] all[k] matches
        FileRow::Entry { copy_chip, multi, .. }
        ==> (copy_chip <==> l.hovered == Some(k as usize) && !multi)) by {
        if head.len() <= k < head.len() + rows.len() {
            assert(all[k] == rows[k - head.len()]);
            assert(head.len() + (k - head.len()) == k);
        }
    }
}

} // verus!
