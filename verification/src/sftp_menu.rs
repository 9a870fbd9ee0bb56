//! The SFTP browser's context menus: the right-click row menu, the
//! background / `⋮` directory menu, the per-host landing-folder rows and
//! the Open-with family, plus the height the layout clamps them by.

use vstd::prelude::*;
use crate::state::{find_conn_by_label, first_conn_with_label, Oryxis};
use crate::text::{chars_eq, chars_of};

verus! {

/// Which of the two panes a menu belongs to.
#[derive(Clone, Copy, Debug, PartialEq, Eq, Structural)]
pub enum SftpPaneSide {
    Left,
    Right,
}

/// The platform the client runs on, where a menu row depends on it.
#[derive(Clone, Copy, Debug, PartialEq, Eq, Structural)]
pub enum Platform {
    Windows,
    MacOs,
    Linux,
}

/// Archive format offered by the Compress rows.
#[derive(Clone, Copy, Debug, PartialEq, Eq, Structural)]
pub enum ArchiveKind {
    Zip,
    TarGz,
}

/// The right-clicked target of the row menu.
#[derive(Clone, Debug, PartialEq, Eq)]
pub struct SftpRowMenu {
    pub side: SftpPaneSide,
    /// Side-formatted path of the clicked entry (or the pane directory
    /// for a background click).
    pub path: String,
    pub is_dir: bool,
    /// Right-click on empty space: directory-level actions only.
    pub is_background: bool,
    /// The "Open with" group is expanded.
    pub open_group: bool,
}

/// Archive context of the row menu, resolved by the caller.
#[derive(Clone, Copy, Debug, PartialEq, Eq, Structural, Default)]
pub struct RowArchiveCtx {
    /// The pane is inside a browsed archive.
    pub in_zip: bool,
    /// Copy-out has a valid destination.
    pub copy_out_ready: bool,
    /// The clicked row is a zip that can be browsed.
    pub browsable: bool,
    /// The clicked row is an archive this pane can extract.
    pub extractable: bool,
    pub compress_zip: bool,
    pub compress_tgz: bool,
}

/// Pane context of the directory-level actions.
#[derive(Clone, Debug, PartialEq, Eq)]
pub struct DirActionCtx {
    /// The pane's current directory, side-formatted.
    pub pane_dir: String,
    /// The local directory shown by "Open in File Manager".
    pub local_dir: String,
    pub show_hidden: bool,
}

/// Destination-picking download ("Download to...").
#[derive(Clone, Debug, PartialEq, Eq)]
pub enum DownloadTarget {
    Selection,
    Folder(String),
    File(String),
}

/// One entry of an SFTP context menu: an actionable row with the message
/// it fires, or a separator.
#[derive(Clone, Debug, PartialEq, Eq)]
pub enum SftpMenuEntry {
    Separator,
    ZipCopyOut { side: SftpPaneSide, path: String, is_dir: bool },
    ZipClose(SftpPaneSide),
    NewFolder(SftpPaneSide),
    NewFile(SftpPaneSide),
    /// Refresh a remote pane by navigating to its directory again.
    RefreshRemote { side: SftpPaneSide, dir: String },
    RefreshLocal(SftpPaneSide),
    CopyPath(String),
    /// Show / hide dotfiles; `showing` is the current state.
    ToggleHidden { side: SftpPaneSide, showing: bool },
    RevealInExplorer { path: String, is_dir: bool },
    SetInitialPath { side: SftpPaneSide, dir: String },
    ClearInitialPath(SftpPaneSide),
    UploadSelection { count: usize },
    UploadFolder { path: String, host: Option<String> },
    UploadFile { path: String, host: Option<String> },
    OpenLocal(String),
    DownloadSelection { count: usize },
    DownloadFolder(String),
    DownloadFile(String),
    DownloadTo(DownloadTarget),
    /// Open / Edit with the OS file association.
    StartEdit { side: SftpPaneSide, path: String },
    /// The "Open with" group row; `expanded` is its current state.
    ToggleOpenGroup { expanded: bool },
    OpenWithEditor { side: SftpPaneSide, path: String },
    PickEditorFor { side: SftpPaneSide, path: String },
    OpenWithOs { side: SftpPaneSide, path: String },
    SetDefaultEditor,
    Relay { side: SftpPaneSide, path: String, is_dir: bool, host: Option<String> },
    RelayMove { side: SftpPaneSide, path: String, is_dir: bool, host: Option<String> },
    BrowseArchive { side: SftpPaneSide, path: String },
    ExtractArchive { side: SftpPaneSide, path: String },
    Compress { side: SftpPaneSide, kind: ArchiveKind, path: String },
    CopySelectionPaths { side: SftpPaneSide, count: usize },
    DuplicateSelection { count: usize },
    Duplicate { side: SftpPaneSide, path: String, is_dir: bool },
    Rename { side: SftpPaneSide, path: String },
    Properties { side: SftpPaneSide, path: String, is_dir: bool },
    DeleteSelection { count: usize },
    Delete { side: SftpPaneSide, path: String, is_dir: bool },
}

/// A keyboard-navigable row: the activation it records on the modal
/// ring, with its ring radius and whether it is the default row.
#[derive(Clone, Debug, PartialEq, Eq)]
pub struct MenuSlot {
    pub activate: SftpMenuEntry,
    pub ring_radius: u32,
    pub is_default: bool,
}

/// The `⋮` button that opens a pane's actions menu.
#[derive(Clone, Copy, Debug, PartialEq, Eq, Structural)]
pub struct KebabButton<M> {
    /// Tinted with the secondary text colour.
    pub secondary_tint: bool,
    /// Drawn in the compact size.
    pub compact: bool,
    pub on_press: M,
}

/// The pane's actions (`⋮`) button: a compact kebab in the secondary
/// tint that fires `toggle_msg`.
pub fn pane_actions_btn<M>(toggle_msg: M) -> (b: KebabButton<M>)
    ensures
        b == (KebabButton { secondary_tint: true, compact: true, on_press: toggle_msg }),
{
    KebabButton { secondary_tint: true, compact: true, on_press: toggle_msg }
}

/// Records one SFTP context-menu row for the keyboard router: Enter
/// fires its message; menu rows ring with a 4px radius and none is the
/// default row.
pub fn sftp_menu_slot(msg: SftpMenuEntry) -> (slot: MenuSlot)
    ensures
        slot == (MenuSlot { activate: msg, ring_radius: 4, is_default: false }),
{
    MenuSlot { activate: msg, ring_radius: 4, is_default: false }
}

/// Number of actionable (non-separator) entries.
pub open spec fn row_count(s: Seq<SftpMenuEntry>) -> nat
    decreases s.len(),
{
    if s.len() == 0 {
        0
    } else {
        row_count(s.drop_last()) + (if s.last() is Separator { 0nat } else { 1 })
    }
}

/// Number of separator entries.
pub open spec fn separator_count(s: Seq<SftpMenuEntry>) -> nat
    decreases s.len(),
{
    if s.len() == 0 {
        0
    } else {
        separator_count(s.drop_last()) + (if s.last() is Separator { 1nat } else { 0 })
    }
}

/// The directory-level actions of a pane: New folder, New file, Refresh,
/// and with `full` (background / `⋮` menus) Copy path, Show hidden and,
/// on a local pane, Open in File Manager.
pub open spec fn dir_actions(side: SftpPaneSide, is_remote: bool, ctx: DirActionCtx, full: bool) -> Seq<SftpMenuEntry> {
    let refresh = if is_remote {
        SftpMenuEntry::RefreshRemote { side, dir: ctx.pane_dir }
    } else {
        SftpMenuEntry::RefreshLocal(side)
    };
    seq![SftpMenuEntry::NewFolder(side), SftpMenuEntry::NewFile(side)]
        + (if full { seq![SftpMenuEntry::Separator] } else { Seq::empty() })
        + seq![refresh]
        + (if full {
            seq![
                SftpMenuEntry::CopyPath(ctx.pane_dir),
                SftpMenuEntry::ToggleHidden { side, showing: ctx.show_hidden },
            ] + (if !is_remote {
                seq![SftpMenuEntry::Separator, SftpMenuEntry::RevealInExplorer { path: ctx.local_dir, is_dir: true }]
            } else {
                Seq::empty()
            })
        } else {
            Seq::empty()
        })
}

/// The saved-host label of a pane.
pub open spec fn pane_host_label(app: &Oryxis, side: SftpPaneSide) -> Option<String> {
    match side {
        SftpPaneSide::Left => app.sftp_left_host_label,
        SftpPaneSide::Right => app.sftp_right_host_label,
    }
}

/// The landing-folder rows for directory `dir` of a remote pane: set it
/// (unless it already is the host's landing folder), clear it (when the
/// host has one), behind a separator when any row exists. Empty for a
/// local pane and for a pane whose host is not a saved connection.
#[verifier::opaque]
pub open spec fn initial_path_entries(app: &Oryxis, side: SftpPaneSide, is_remote: bool, dir: String) -> Seq<SftpMenuEntry> {
    let lbl = pane_host_label(app, side);
    if !is_remote || lbl is None || first_conn_with_label(app.connections@, lbl->0@) is None {
        Seq::empty()
    } else {
        let conn = app.connections@[first_conn_with_label(app.connections@, lbl->0@)->0];
        let already = conn.sftp_initial_path is Some && conn.sftp_initial_path->0@ == dir@;
        let rows = (if !already { seq![SftpMenuEntry::SetInitialPath { side, dir }] } else { Seq::empty() })
            + (if conn.sftp_initial_path is Some { seq![SftpMenuEntry::ClearInitialPath(side)] } else { Seq::empty() });
        if rows.len() > 0 { seq![SftpMenuEntry::Separator] + rows } else { rows }
    }
}

/// The Open / Edit family of a single remote file: the one-click Open /
/// Edit row, the "Open with" group row and, when the group is expanded,
/// its sub-rows (the OS application picker only on Windows and macOS).
pub open spec fn open_family(menu: SftpRowMenu, platform: Platform) -> Seq<SftpMenuEntry> {
    let side = menu.side;
    let path = menu.path;
    seq![
        SftpMenuEntry::StartEdit { side, path },
        SftpMenuEntry::ToggleOpenGroup { expanded: menu.open_group },
    ] + (if !menu.open_group {
        Seq::empty()
    } else {
        seq![SftpMenuEntry::OpenWithEditor { side, path }, SftpMenuEntry::PickEditorFor { side, path }]
            + (if platform != Platform::Linux { seq![SftpMenuEntry::OpenWithOs { side, path }] } else { Seq::empty() })
            + seq![SftpMenuEntry::SetDefaultEditor]
    })
}

/// The cross-pane block of the row menu: upload (local to remote),
/// download (remote to local) or relay / move (remote to remote), each
/// only when the other pane is a ready destination, followed by the
/// single-file open rows.
pub open spec fn cross_pane_entries(
    menu: SftpRowMenu,
    ready: bool,
    source_is_remote: bool,
    other_is_remote: bool,
    other_label: Option<String>,
    count: usize,
    platform: Platform,
) -> Seq<SftpMenuEntry> {
    let multi = count > 1;
    let single_file = !multi && !menu.is_dir;
    if !source_is_remote && other_is_remote {
        (if ready {
            if multi {
                seq![SftpMenuEntry::UploadSelection { count }]
            } else if menu.is_dir {
                seq![SftpMenuEntry::UploadFolder { path: menu.path, host: other_label }]
            } else {
                seq![SftpMenuEntry::UploadFile { path: menu.path, host: other_label }]
            }
        } else {
            Seq::empty()
        }) + (if single_file { seq![SftpMenuEntry::OpenLocal(menu.path)] } else { Seq::empty() })
    } else if source_is_remote && !other_is_remote {
        (if ready {
            if multi {
                seq![SftpMenuEntry::DownloadSelection { count }]
            } else if menu.is_dir {
                seq![SftpMenuEntry::DownloadFolder(menu.path)]
            } else {
                seq![SftpMenuEntry::DownloadFile(menu.path)]
            }
        } else {
            Seq::empty()
        }) + seq![SftpMenuEntry::DownloadTo(
            if multi {
                DownloadTarget::Selection
            } else if menu.is_dir {
                DownloadTarget::Folder(menu.path)
            } else {
                DownloadTarget::File(menu.path)
            },
        )] + (if single_file { open_family(menu, platform) } else { Seq::empty() })
    } else if source_is_remote && other_is_remote {
        (if ready {
            seq![
                SftpMenuEntry::Relay { side: menu.side, path: menu.path, is_dir: menu.is_dir, host: other_label },
                SftpMenuEntry::RelayMove { side: menu.side, path: menu.path, is_dir: menu.is_dir, host: other_label },
            ]
        } else {
            Seq::empty()
        }) + (if single_file { open_family(menu, platform) } else { Seq::empty() })
    } else {
        Seq::empty()
    }
}

/// The per-entry block after the cross-pane rows: archive actions,
/// Open in File Manager (single local entry), Copy path(s), Duplicate /
/// Rename / Properties (or their bulk variant) and Delete.
pub open spec fn entry_actions(menu: SftpRowMenu, source_is_remote: bool, count: usize, archive: RowArchiveCtx) -> Seq<SftpMenuEntry> {
    archive_entries(menu, count, archive) + entry_tail(menu, source_is_remote, count)
}

/// The archive rows of the row menu: Browse (single zip), Extract
/// (single archive file), Compress to zip / tar.gz.
pub open spec fn archive_entries(menu: SftpRowMenu, count: usize, archive: RowArchiveCtx) -> Seq<SftpMenuEntry> {
    let multi = count > 1;
    let side = menu.side;
    let path = menu.path;
    (if !multi && archive.browsable { seq![SftpMenuEntry::BrowseArchive { side, path }] } else { Seq::empty() })
        + (if !multi && !menu.is_dir && archive.extractable { seq![SftpMenuEntry::ExtractArchive { side, path }] } else { Seq::empty() })
        + (if archive.compress_zip { seq![SftpMenuEntry::Compress { side, kind: ArchiveKind::Zip, path }] } else { Seq::empty() })
        + (if archive.compress_tgz { seq![SftpMenuEntry::Compress { side, kind: ArchiveKind::TarGz, path }] } else { Seq::empty() })
}

/// Open in File Manager, Copy path(s), Duplicate / Rename / Properties
/// (or the bulk variants) and Delete.
pub open spec fn entry_tail(menu: SftpRowMenu, source_is_remote: bool, count: usize) -> Seq<SftpMenuEntry> {
    let multi = count > 1;
    let side = menu.side;
    let path = menu.path;
    let is_dir = menu.is_dir;
    (if !source_is_remote && !multi { seq![SftpMenuEntry::RevealInExplorer { path, is_dir }] } else { Seq::empty() })
        + (if multi {
            seq![
                SftpMenuEntry::CopySelectionPaths { side, count },
                SftpMenuEntry::DuplicateSelection { count },
                SftpMenuEntry::DeleteSelection { count },
            ]
        } else {
            seq![
                SftpMenuEntry::CopyPath(path),
                SftpMenuEntry::Duplicate { side, path, is_dir },
                SftpMenuEntry::Rename { side, path },
                SftpMenuEntry::Properties { side, path, is_dir },
                SftpMenuEntry::Delete { side, path, is_dir },
            ]
        })
}

/// The right-click menu. Inside a browsed archive it collapses to
/// copy-out (rows with a ready destination) and close; a background
/// click gets the directory actions and the landing-folder rows; a row
/// click gets the cross-pane block, the per-entry block, a separator, the
/// create / refresh trio and, on a single folder, its landing-folder
/// rows. `count` is the size of the same-pane selection holding the row.
pub open spec fn row_menu(
    app: &Oryxis,
    menu: SftpRowMenu,
    ready: bool,
    source_is_remote: bool,
    other_is_remote: bool,
    other_label: Option<String>,
    count: usize,
    archive: RowArchiveCtx,
    dir_ctx: DirActionCtx,
    platform: Platform,
) -> Seq<SftpMenuEntry> {
    if archive.in_zip {
        (if !menu.is_background && archive.copy_out_ready {
            seq![SftpMenuEntry::ZipCopyOut { side: menu.side, path: menu.path, is_dir: menu.is_dir }]
        } else {
            Seq::empty()
        }) + seq![SftpMenuEntry::ZipClose(menu.side)]
    } else if menu.is_background {
        dir_actions(menu.side, source_is_remote, dir_ctx, true)
            + initial_path_entries(app, menu.side, source_is_remote, menu.path)
    } else {
        cross_pane_entries(menu, ready, source_is_remote, other_is_remote, other_label, count, platform)
            + entry_actions(menu, source_is_remote, count, archive)
            + seq![SftpMenuEntry::Separator]
            + dir_actions(menu.side, source_is_remote, dir_ctx, false)
            + (if menu.is_dir && count <= 1 {
                initial_path_entries(app, menu.side, source_is_remote, menu.path)
            } else {
                Seq::empty()
            })
    }
}

/// No entry of `s` downloads a single file.
pub open spec fn no_file_download(s: Seq<SftpMenuEntry>) -> bool {
    forall|k: int| 0 <= k < s.len() ==> !(#[trigger] s[k] is DownloadFile)
}

/// Joining two menus without file downloads gives none.
proof fn lemma_no_file_download_add(a: Seq<SftpMenuEntry>, b: Seq<SftpMenuEntry>)
    requires
        no_file_download(a),
        no_file_download(b),
    ensures
        no_file_download(a + b),
{
    assert forall|k: int| 0 <= k < (a + b).len() implies !(#[trigger] (a + b)[k] is DownloadFile) by {
        if k < a.len() {
            assert((a + b)[k] == a[k]);
        } else {
            assert((a + b)[k] == b[k - a.len()]);
        }
    }
}

/// The directory actions and the landing-folder rows download nothing.
proof fn lemma_pane_rows_download_nothing(
    app: &Oryxis,
    side: SftpPaneSide,
    is_remote: bool,
    ctx: DirActionCtx,
    full: bool,
    dir: String,
)
    ensures
        no_file_download(dir_actions(side, is_remote, ctx, full)),
        no_file_download(initial_path_entries(app, side, is_remote, dir)),
{
    reveal(initial_path_entries);
    let d = dir_actions(side, is_remote, ctx, full);
    assert forall|k: int| 0 <= k < d.len() implies !(#[trigger] d[k] is DownloadFile) by {}
    let e = initial_path_entries(app, side, is_remote, dir);
    assert forall|k: int| 0 <= k < e.len() implies !(#[trigger] e[k] is DownloadFile) by {}
}

/// The rows after the cross-pane block of a row click download nothing.
proof fn lemma_row_tail_downloads_nothing(
    app: &Oryxis,
    menu: SftpRowMenu,
    source_is_remote: bool,
    count: usize,
    archive: RowArchiveCtx,
    dir_ctx: DirActionCtx,
)
    ensures
        no_file_download(entry_actions(menu, source_is_remote, count, archive)
            + seq![SftpMenuEntry::Separator]
            + dir_actions(menu.side, source_is_remote, dir_ctx, false)
            + (if menu.is_dir && count <= 1 {
                initial_path_entries(app, menu.side, source_is_remote, menu.path)
            } else {
                Seq::empty()
            })),
{
    let ea = entry_actions(menu, source_is_remote, count, archive);
    assert forall|k: int| 0 <= k < ea.len() implies !(#[trigger] ea[k] is DownloadFile) by {}
    let sep = seq![SftpMenuEntry::Separator];
    assert forall|k: int| 0 <= k < sep.len() implies !(#[trigger] sep[k] is DownloadFile) by {}
    lemma_pane_rows_download_nothing(app, menu.side, source_is_remote, dir_ctx, false, menu.path);
    let init = if menu.is_dir && count <= 1 {
        initial_path_entries(app, menu.side, source_is_remote, menu.path)
    } else {
        Seq::empty()
    };
    assert forall|k: int| 0 <= k < Seq::<SftpMenuEntry>::empty().len()
        implies !(#[trigger] Seq::<SftpMenuEntry>::empty()[k] is DownloadFile) by {}
    lemma_no_file_download_add(ea, sep);
    lemma_no_file_download_add(ea + sep, dir_actions(menu.side, source_is_remote, dir_ctx, false));
    lemma_no_file_download_add(ea + sep + dir_actions(menu.side, source_is_remote, dir_ctx, false), init);
}

/// A folder row downloads as a folder: on a single remote folder (not a
/// multi-row selection) toward a ready local pane, the row menu opens
/// with the folder download of that path, then "Download to" for the
/// folder.
pub proof fn folder_row_downloads_as_folder(
    app: &Oryxis,
    menu: SftpRowMenu,
    other_label: Option<String>,
    count: usize,
    archive: RowArchiveCtx,
    dir_ctx: DirActionCtx,
    platform: Platform,
)
    requires
        !archive.in_zip,
        !menu.is_background,
        menu.is_dir,
        count <= 1,
    ensures
        ({
            let m = row_menu(app, menu, true, true, false, other_label, count, archive, dir_ctx, platform);
            &&& m.len() >= 2
            &&& m[0] == SftpMenuEntry::DownloadFolder(menu.path)
            &&& m[1] == SftpMenuEntry::DownloadTo(DownloadTarget::Folder(menu.path))
        }),
{
    let c = cross_pane_entries(menu, true, true, false, other_label, count, platform);
    assert(c =~= seq![SftpMenuEntry::DownloadFolder(menu.path), SftpMenuEntry::DownloadTo(DownloadTarget::Folder(menu.path))]);
}

/// Every file-download row of `s` downloads `path`, and only when `single`
/// holds.
pub open spec fn file_downloads_only(s: Seq<SftpMenuEntry>, single: bool, path: String) -> bool {
    forall|k: int| 0 <= k < s.len() && #[trigger] s[k] is DownloadFile
        ==> single && s[k] == SftpMenuEntry::DownloadFile(path)
}

/// Appending rows without file downloads keeps `file_downloads_only`.
proof fn lemma_file_downloads_only_add(a: Seq<SftpMenuEntry>, b: Seq<SftpMenuEntry>, single: bool, path: String)
    requires
        file_downloads_only(a, single, path),
        no_file_download(b),
    ensures
        file_downloads_only(a + b, single, path),
{
    assert forall|k: int| 0 <= k < (a + b).len() && #[trigger] (a + b)[k] is DownloadFile
        implies single && (a + b)[k] == SftpMenuEntry::DownloadFile(path) by {
        if k < a.len() {
            assert((a + b)[k] == a[k]);
        } else {
            assert((a + b)[k] == b[k - a.len()]);
        }
    }
}

/// The cross-pane block downloads a single file only for a single file
/// row, and then that row's path.
proof fn lemma_cross_file_download(
    menu: SftpRowMenu,
    ready: bool,
    source_is_remote: bool,
    other_is_remote: bool,
    other_label: Option<String>,
    count: usize,
    platform: Platform,
)
    ensures
        file_downloads_only(
            cross_pane_entries(menu, ready, source_is_remote, other_is_remote, other_label, count, platform),
            !menu.is_dir && count <= 1,
            menu.path,
        ),
{
    let c = cross_pane_entries(menu, ready, source_is_remote, other_is_remote, other_label, count, platform);
    let single = !menu.is_dir && count <= 1;
    if source_is_remote && !other_is_remote && ready && single {
        let c2 = seq![SftpMenuEntry::DownloadTo(DownloadTarget::File(menu.path))] + open_family(menu, platform);
        assert(c =~= seq![SftpMenuEntry::DownloadFile(menu.path)] + c2);
        assert forall|k: int| 0 <= k < c2.len() implies !(#[trigger] c2[k] is DownloadFile) by {}
        let one = seq![SftpMenuEntry::DownloadFile(menu.path)];
        assert forall|k: int| 0 <= k < one.len() && #[trigger] one[k] is DownloadFile
            implies single && one[k] == SftpMenuEntry::DownloadFile(menu.path) by {}
        lemma_file_downloads_only_add(one, c2, single, menu.path);
    } else {
        assert forall|k: int| 0 <= k < c.len() implies !(#[trigger] c[k] is DownloadFile) by {}
    }
}

/// A file-download row only ever names the clicked entry, and only when
/// that entry is a single file: in every row menu, each `DownloadFile`
/// row downloads `menu.path`, the row is not a folder, and no multi-row
/// selection holds it.
pub proof fn file_download_names_a_file(
    app: &Oryxis,
    menu: SftpRowMenu,
    ready: bool,
    source_is_remote: bool,
    other_is_remote: bool,
    other_label: Option<String>,
    count: usize,
    archive: RowArchiveCtx,
    dir_ctx: DirActionCtx,
    platform: Platform,
)
    ensures
        ({
            let m = row_menu(app, menu, ready, source_is_remote, other_is_remote, other_label, count, archive, dir_ctx, platform);
            forall|k: int| 0 <= k < m.len() && #[trigger] m[k] is DownloadFile
                ==> !menu.is_dir && count <= 1 && m[k] == SftpMenuEntry::DownloadFile(menu.path)
        }),
{
    let m = row_menu(app, menu, ready, source_is_remote, other_is_remote, other_label, count, archive, dir_ctx, platform);
    let single = !menu.is_dir && count <= 1;
    if archive.in_zip {
        assert forall|k: int| 0 <= k < m.len() implies !(#[trigger] m[k] is DownloadFile) by {}
    } else if menu.is_background {
        lemma_pane_rows_download_nothing(app, menu.side, source_is_remote, dir_ctx, true, menu.path);
        lemma_no_file_download_add(dir_actions(menu.side, source_is_remote, dir_ctx, true),
            initial_path_entries(app, menu.side, source_is_remote, menu.path));
    } else {
        let c = cross_pane_entries(menu, ready, source_is_remote, other_is_remote, other_label, count, platform);
        let r = entry_actions(menu, source_is_remote, count, archive)
            + seq![SftpMenuEntry::Separator]
            + dir_actions(menu.side, source_is_remote, dir_ctx, false)
            + (if menu.is_dir && count <= 1 {
                initial_path_entries(app, menu.side, source_is_remote, menu.path)
            } else {
                Seq::empty()
            });
        lemma_row_tail_downloads_nothing(app, menu, source_is_remote, count, archive, dir_ctx);
        lemma_cross_file_download(menu, ready, source_is_remote, other_is_remote, other_label, count, platform);
        lemma_file_downloads_only_add(c, r, single, menu.path);
        assert(m == c + r);
    }
}

/// The height the layout reserves for a built menu, in pixels: 30 per
/// row, 4 per thin separator, 8 of padding. The layout clamps the menu's
/// origin by it, so reserving the menu's own height keeps the menu from
/// spilling off the bottom of the window.
pub open spec fn menu_height(m: Seq<SftpMenuEntry>) -> nat {
    row_count(m) * 30 + separator_count(m) * 4 + 8
}

/// A copy of an optional string.
fn clone_opt(s: &Option<String>) -> (r: Option<String>)
    ensures
        r == *s,
{
    match s {
        Some(x) => Some(x.clone()),
        None => None,
    }
}

/// Appends the directory-level actions of a pane.
pub fn dir_action_items(side: SftpPaneSide, is_remote: bool, ctx: &DirActionCtx, full: bool) -> (items: Vec<SftpMenuEntry>)
    ensures
        items@ == dir_actions(side, is_remote, *ctx, full),
{
    let refresh = if is_remote {
        SftpMenuEntry::RefreshRemote { side, dir: ctx.pane_dir.clone() }
    } else {
        SftpMenuEntry::RefreshLocal(side)
    };
    let mut items: Vec<SftpMenuEntry> = Vec::new();
    items.push(SftpMenuEntry::NewFolder(side));
    items.push(SftpMenuEntry::NewFile(side));
    if full {
        items.push(SftpMenuEntry::Separator);
    }
    items.push(refresh);
    if full {
        items.push(SftpMenuEntry::CopyPath(ctx.pane_dir.clone()));
        items.push(SftpMenuEntry::ToggleHidden { side, showing: ctx.show_hidden });
        if !is_remote {
            items.push(SftpMenuEntry::Separator);
            items.push(SftpMenuEntry::RevealInExplorer { path: ctx.local_dir.clone(), is_dir: true });
        }
    }
    proof {
        assert(items@ =~= dir_actions(side, is_remote, *ctx, full));
    }
    items
}

/// The landing-folder rows for directory `dir` on pane `side`.
pub fn initial_path_items(app: &Oryxis, side: SftpPaneSide, is_remote: bool, dir: &String) -> (items: Vec<SftpMenuEntry>)
    ensures
        items@ == initial_path_entries(app, side, is_remote, *dir),
{
    reveal(initial_path_entries);
    let mut out: Vec<SftpMenuEntry> = Vec::new();
    if !is_remote {
        return out;
    }
    let label = match side {
        SftpPaneSide::Left => &app.sftp_left_host_label,
        SftpPaneSide::Right => &app.sftp_right_host_label,
    };
    let lbl = match label {
        Some(l) => l,
        None => {
            return out;
        },
    };
    let lbl_chars = chars_of(lbl.as_str());
    let pos = find_conn_by_label(&app.connections, &lbl_chars);
    let i = match pos {
        Some(i) => i,
        None => {
            return out;
        },
    };
    let already = match &app.connections[i].sftp_initial_path {
        Some(p) => {
            let pc = chars_of(p.as_str());
            let dc = chars_of(dir.as_str());
            chars_eq(&pc, &dc)
        },
        None => false,
    };
    let has_initial = app.connections[i].sftp_initial_path.is_some();
    if !already || has_initial {
        out.push(SftpMenuEntry::Separator);
    }
    if !already {
        out.push(SftpMenuEntry::SetInitialPath { side, dir: dir.clone() });
    }
    if has_initial {
        out.push(SftpMenuEntry::ClearInitialPath(side));
    }
    proof {
        let conn = app.connections@[i as int];
        assert(pane_host_label(app, side) == Some(*lbl));
        assert(first_conn_with_label(app.connections@, lbl@) == Some(i as int));
        let rows = (if !already { seq![SftpMenuEntry::SetInitialPath { side, dir: *dir }] } else { Seq::empty() })
            + (if conn.sftp_initial_path is Some { seq![SftpMenuEntry::ClearInitialPath(side)] } else { Seq::empty() });
        assert(initial_path_entries(app, side, is_remote, *dir) == (if rows.len() > 0 { seq![SftpMenuEntry::Separator] + rows } else { rows }));
        assert(out@ =~= (if rows.len() > 0 { seq![SftpMenuEntry::Separator] + rows } else { rows }));
    }
    out
}

/// The Open / Edit family for a single remote file.
pub fn open_family_items(menu: &SftpRowMenu, platform: Platform) -> (items: Vec<SftpMenuEntry>)
    ensures
        items@ == open_family(*menu, platform),
{
    let mut items: Vec<SftpMenuEntry> = Vec::new();
    items.push(SftpMenuEntry::StartEdit { side: menu.side, path: menu.path.clone() });
    items.push(SftpMenuEntry::ToggleOpenGroup { expanded: menu.open_group });
    if menu.open_group {
        items.push(SftpMenuEntry::OpenWithEditor { side: menu.side, path: menu.path.clone() });
        items.push(SftpMenuEntry::PickEditorFor { side: menu.side, path: menu.path.clone() });
        if platform != Platform::Linux {
            items.push(SftpMenuEntry::OpenWithOs { side: menu.side, path: menu.path.clone() });
        }
        items.push(SftpMenuEntry::SetDefaultEditor);
    }
    proof {
        assert(items@ =~= open_family(*menu, platform));
    }
    items
}

/// Appends every entry of `more` to `items`.
fn append_entries(items: &mut Vec<SftpMenuEntry>, more: Vec<SftpMenuEntry>)
    ensures
        final(items)@ == old(items)@ + more@,
{
    let mut more = more;
    items.append(&mut more);
}


/// The cross-pane block of the row menu.
pub fn cross_pane_items(
    menu: &SftpRowMenu,
    ready: bool,
    source_is_remote: bool,
    other_is_remote: bool,
    other_label: &Option<String>,
    count: usize,
    platform: Platform,
) -> (items: Vec<SftpMenuEntry>)
    ensures
        items@ == cross_pane_entries(*menu, ready, source_is_remote, other_is_remote, *other_label, count, platform),
{
    let multi = count > 1;
    let single_file = !multi && !menu.is_dir;
    let mut items: Vec<SftpMenuEntry> = Vec::new();
    if !source_is_remote && other_is_remote {
        if ready {
            if multi {
                items.push(SftpMenuEntry::UploadSelection { count });
            } else if menu.is_dir {
                items.push(SftpMenuEntry::UploadFolder { path: menu.path.clone(), host: clone_opt(other_label) });
            } else {
                items.push(SftpMenuEntry::UploadFile { path: menu.path.clone(), host: clone_opt(other_label) });
            }
        }
        if single_file {
            items.push(SftpMenuEntry::OpenLocal(menu.path.clone()));
        }
    } else if source_is_remote && !other_is_remote {
        if ready {
            if multi {
                items.push(SftpMenuEntry::DownloadSelection { count });
            } else if menu.is_dir {
                items.push(SftpMenuEntry::DownloadFolder(menu.path.clone()));
            } else {
                items.push(SftpMenuEntry::DownloadFile(menu.path.clone()));
            }
        }
        let target = if multi {
            DownloadTarget::Selection
        } else if menu.is_dir {
            DownloadTarget::Folder(menu.path.clone())
        } else {
            DownloadTarget::File(menu.path.clone())
        };
        items.push(SftpMenuEntry::DownloadTo(target));
        if single_file {
            append_entries(&mut items, open_family_items(menu, platform));
        }
    } else if source_is_remote && other_is_remote {
        if ready {
            items.push(SftpMenuEntry::Relay {
                side: menu.side,
                path: menu.path.clone(),
                is_dir: menu.is_dir,
                host: clone_opt(other_label),
            });
            items.push(SftpMenuEntry::RelayMove {
                side: menu.side,
                path: menu.path.clone(),
                is_dir: menu.is_dir,
                host: clone_opt(other_label),
            });
        }
        if single_file {
            append_entries(&mut items, open_family_items(menu, platform));
        }
    }
    proof {
        assert(items@ =~= cross_pane_entries(*menu, ready, source_is_remote, other_is_remote, *other_label, count, platform));
    }
    items
}

/// The archive rows of the row menu.
pub fn archive_items(menu: &SftpRowMenu, count: usize, archive: RowArchiveCtx) -> (items: Vec<SftpMenuEntry>)
    ensures
        items@ == archive_entries(*menu, count, archive),
{
    let multi = count > 1;
    let side = menu.side;
    let mut items: Vec<SftpMenuEntry> = Vec::new();
    if !multi && archive.browsable {
        items.push(SftpMenuEntry::BrowseArchive { side, path: menu.path.clone() });
    }
    if !multi && !menu.is_dir && archive.extractable {
        items.push(SftpMenuEntry::ExtractArchive { side, path: menu.path.clone() });
    }
    if archive.compress_zip {
        items.push(SftpMenuEntry::Compress { side, kind: ArchiveKind::Zip, path: menu.path.clone() });
    }
    if archive.compress_tgz {
        items.push(SftpMenuEntry::Compress { side, kind: ArchiveKind::TarGz, path: menu.path.clone() });
    }
    proof {
        assert(items@ =~= archive_entries(*menu, count, archive));
    }
    items
}

/// The closing per-entry rows of the row menu.
pub fn entry_tail_items(menu: &SftpRowMenu, source_is_remote: bool, count: usize) -> (items: Vec<SftpMenuEntry>)
    ensures
        items@ == entry_tail(*menu, source_is_remote, count),
{
    let multi = count > 1;
    let side = menu.side;
    let is_dir = menu.is_dir;
    let mut items: Vec<SftpMenuEntry> = Vec::new();
    if !source_is_remote && !multi {
        items.push(SftpMenuEntry::RevealInExplorer { path: menu.path.clone(), is_dir });
    }
    if multi {
        items.push(SftpMenuEntry::CopySelectionPaths { side, count });
        items.push(SftpMenuEntry::DuplicateSelection { count });
        items.push(SftpMenuEntry::DeleteSelection { count });
    } else {
        items.push(SftpMenuEntry::CopyPath(menu.path.clone()));
        items.push(SftpMenuEntry::Duplicate { side, path: menu.path.clone(), is_dir });
        items.push(SftpMenuEntry::Rename { side, path: menu.path.clone() });
        items.push(SftpMenuEntry::Properties { side, path: menu.path.clone(), is_dir });
        items.push(SftpMenuEntry::Delete { side, path: menu.path.clone(), is_dir });
    }
    proof {
        assert(items@ =~= entry_tail(*menu, source_is_remote, count));
    }
    items
}

/// The per-entry block of the row menu.
pub fn entry_action_items(menu: &SftpRowMenu, source_is_remote: bool, count: usize, archive: RowArchiveCtx) -> (items: Vec<SftpMenuEntry>)
    ensures
        items@ == entry_actions(*menu, source_is_remote, count, archive),
{
    let mut items = archive_items(menu, count, archive);
    append_entries(&mut items, entry_tail_items(menu, source_is_remote, count));
    items
}

/// The right-click menu of an SFTP pane, for the clicked row (or empty
/// space) `menu`, in display order. `cross_pane_ready`: the other pane
/// is a ready transfer destination; `other_label`: its host's label;
/// `selection_count_same_pane`: the size of the same-pane selection
/// holding the row (bulk variants above one).
pub fn row_context_menu_box(
    app: &Oryxis,
    menu: &SftpRowMenu,
    cross_pane_ready: bool,
    source_is_remote: bool,
    other_is_remote: bool,
    other_label: &Option<String>,
    selection_count_same_pane: usize,
    archive: RowArchiveCtx,
    dir_ctx: &DirActionCtx,
    platform: Platform,
) -> (items: Vec<SftpMenuEntry>)
    ensures
        items@ == row_menu(
            app,
            *menu,
            cross_pane_ready,
            source_is_remote,
            other_is_remote,
            *other_label,
            selection_count_same_pane,
            archive,
            *dir_ctx,
            platform,
        ),
{
    let mut items: Vec<SftpMenuEntry> = Vec::new();
    if archive.in_zip {
        if !menu.is_background && archive.copy_out_ready {
            items.push(SftpMenuEntry::ZipCopyOut { side: menu.side, path: menu.path.clone(), is_dir: menu.is_dir });
        }
        items.push(SftpMenuEntry::ZipClose(menu.side));
        proof {
            assert(items@ =~= row_menu(app, *menu, cross_pane_ready, source_is_remote, other_is_remote, *other_label, selection_count_same_pane, archive, *dir_ctx, platform));
        }
        return items;
    }
    if menu.is_background {
        append_entries(&mut items, dir_action_items(menu.side, source_is_remote, dir_ctx, true));
        append_entries(&mut items, initial_path_items(app, menu.side, source_is_remote, &menu.path));
        proof {
            assert(items@ =~= row_menu(app, *menu, cross_pane_ready, source_is_remote, other_is_remote, *other_label, selection_count_same_pane, archive, *dir_ctx, platform));
        }
        return items;
    }
    append_entries(&mut items, cross_pane_items(menu, cross_pane_ready, source_is_remote, other_is_remote, other_label, selection_count_same_pane, platform));
    append_entries(&mut items, entry_action_items(menu, source_is_remote, selection_count_same_pane, archive));
    items.push(SftpMenuEntry::Separator);
    append_entries(&mut items, dir_action_items(menu.side, source_is_remote, dir_ctx, false));
    if menu.is_dir && selection_count_same_pane <= 1 {
        append_entries(&mut items, initial_path_items(app, menu.side, source_is_remote, &menu.path));
    }
    proof {
        assert(items@ =~= row_menu(app, *menu, cross_pane_ready, source_is_remote, other_is_remote, *other_label, selection_count_same_pane, archive, *dir_ctx, platform));
    }
    items
}

/// Actionable rows and separators of an entry list.
pub fn count_rows(items: &Vec<SftpMenuEntry>) -> (r: (u32, u32))
    requires
        items@.len() < 0x1_0000_0000,
    ensures
        r.0 == row_count(items@),
        r.1 == separator_count(items@),
{
    let mut rows: u32 = 0;
    let mut seps: u32 = 0;
    let mut i: usize = 0;
    while i < items.len()
        invariant
            i <= items@.len() < 0x1_0000_0000,
            rows == row_count(items@.subrange(0, i as int)),
            seps == separator_count(items@.subrange(0, i as int)),
            rows + seps == i,
        decreases items.len() - i,
    {
        proof {
            assert(items@.subrange(0, i + 1).drop_last() == items@.subrange(0, i as int));
        }
        match &items[i] {
            SftpMenuEntry::Separator => {
                seps = seps + 1;
            },
            _ => {
                rows = rows + 1;
            },
        }
        i = i + 1;
    }
    proof {
        assert(items@.subrange(0, items@.len() as int) == items@);
    }
    (rows, seps)
}

/// The landing-folder rows never exceed one separator and two rows.
pub proof fn lemma_initial_path_small(app: &Oryxis, side: SftpPaneSide, is_remote: bool, dir: String)
    ensures
        initial_path_entries(app, side, is_remote, dir).len() <= 3,
        row_count(initial_path_entries(app, side, is_remote, dir)) <= 2,
        initial_path_entries(app, side, is_remote, dir).len() == 0
            || separator_count(initial_path_entries(app, side, is_remote, dir)) == 1,
{
    reveal(initial_path_entries);
    let e = initial_path_entries(app, side, is_remote, dir);
    reveal_with_fuel(row_count, 4);
    reveal_with_fuel(separator_count, 4);
    if e.len() > 0 {
        assert(e[0] is Separator);
        assert(e.len() <= 3);
        if e.len() == 2 {
            assert(e.drop_last() == seq![e[0]]);
            assert(e.drop_last().drop_last() == Seq::<SftpMenuEntry>::empty());
        } else if e.len() == 3 {
            assert(e.drop_last().drop_last() == seq![e[0]]);
            assert(e.drop_last().drop_last().drop_last() == Seq::<SftpMenuEntry>::empty());
        } else {
            assert(e.drop_last() == Seq::<SftpMenuEntry>::empty());
        }
    }
}

/// Every entry is either a row or a separator.
pub proof fn lemma_counts_len(s: Seq<SftpMenuEntry>)
    ensures
        row_count(s) + separator_count(s) == s.len(),
    decreases s.len(),
{
    if s.len() > 0 {
        lemma_counts_len(s.drop_last());
    }
}

/// The Open / Edit family holds at most six entries.
proof fn lemma_open_family_len(menu: SftpRowMenu, platform: Platform)
    ensures
        open_family(menu, platform).len() <= 6,
{
}

/// The cross-pane block holds at most eight entries.
proof fn lemma_cross_len(
    menu: SftpRowMenu,
    ready: bool,
    source_is_remote: bool,
    other_is_remote: bool,
    other_label: Option<String>,
    count: usize,
    platform: Platform,
)
    ensures
        cross_pane_entries(menu, ready, source_is_remote, other_is_remote, other_label, count, platform).len() <= 8,
{
    lemma_open_family_len(menu, platform);
}

/// The per-entry block holds at most ten entries.
proof fn lemma_entry_len(menu: SftpRowMenu, source_is_remote: bool, count: usize, archive: RowArchiveCtx)
    ensures
        entry_actions(menu, source_is_remote, count, archive).len() <= 10,
{
    assert(archive_entries(menu, count, archive).len() <= 4);
    assert(entry_tail(menu, source_is_remote, count).len() <= 6);
}

/// The directory actions hold at most eight entries.
proof fn lemma_dir_len(side: SftpPaneSide, is_remote: bool, ctx: DirActionCtx, full: bool)
    ensures
        dir_actions(side, is_remote, ctx, full).len() <= 8,
{
}

/// No row menu holds more than forty entries.
proof fn lemma_row_menu_len(
    app: &Oryxis,
    menu: SftpRowMenu,
    ready: bool,
    source_is_remote: bool,
    other_is_remote: bool,
    other_label: Option<String>,
    count: usize,
    archive: RowArchiveCtx,
    dir_ctx: DirActionCtx,
    platform: Platform,
)
    ensures
        row_menu(app, menu, ready, source_is_remote, other_is_remote, other_label, count, archive, dir_ctx, platform).len() <= 40,
{
    lemma_initial_path_small(app, menu.side, source_is_remote, menu.path);
    lemma_cross_len(menu, ready, source_is_remote, other_is_remote, other_label, count, platform);
    lemma_entry_len(menu, source_is_remote, count, archive);
    lemma_dir_len(menu.side, source_is_remote, dir_ctx, true);
    lemma_dir_len(menu.side, source_is_remote, dir_ctx, false);
}

/// The height of the row context menu, in pixels: the height of the menu
/// `row_context_menu_box` builds for the same arguments, so the
/// layout-level clamp keeps the whole menu on the window.
pub fn row_context_menu_height(
    app: &Oryxis,
    menu: &SftpRowMenu,
    cross_pane_ready: bool,
    source_is_remote: bool,
    other_is_remote: bool,
    other_label: &Option<String>,
    selection_count_same_pane: usize,
    archive: RowArchiveCtx,
    dir_ctx: &DirActionCtx,
    platform: Platform,
) -> (h: u32)
    ensures
        h == menu_height(row_menu(
            app,
            *menu,
            cross_pane_ready,
            source_is_remote,
            other_is_remote,
            *other_label,
            selection_count_same_pane,
            archive,
            *dir_ctx,
            platform,
        )),
{
    let items = row_context_menu_box(
        app, menu, cross_pane_ready, source_is_remote, other_is_remote, other_label,
        selection_count_same_pane, archive, dir_ctx, platform,
    );
    proof {
        lemma_row_menu_len(app, *menu, cross_pane_ready, source_is_remote, other_is_remote, *other_label,
            selection_count_same_pane, archive, *dir_ctx, platform);
        lemma_counts_len(items@);
    }
    let (rows, seps) = count_rows(&items);
    rows * 30 + seps * 4 + 8
}

/// The other pane is a ready transfer destination: a local pane always,
/// a remote one once its client is connected.
pub fn cross_pane_ready(other_is_remote: bool, other_has_client: bool) -> (b: bool)
    ensures
        b == (!other_is_remote || other_has_client),
{
    !other_is_remote || other_has_client
}

/// The number of selected rows among the first `n` that sit in `side`.
pub open spec fn same_side_count(sel: Seq<SftpPaneSide>, side: SftpPaneSide, n: nat) -> nat
    decreases n,
{
    if n == 0 {
        0
    } else {
        same_side_count(sel, side, (n - 1) as nat) + (if sel[n - 1] == side { 1nat } else { 0nat })
    }
}

/// The size of the selection in the right-clicked pane (it picks bulk
/// or single-row menus); `selected_sides` holds the pane of each
/// selected row.
pub fn selection_count_same_pane(selected_sides: &Vec<SftpPaneSide>, side: SftpPaneSide) -> (n: usize)
    ensures
        n == same_side_count(selected_sides@, side, selected_sides@.len()),
{
    let mut n: usize = 0;
    let mut i: usize = 0;
    while i < selected_sides.len()
        invariant
            i <= selected_sides@.len(),
            n == same_side_count(selected_sides@, side, i as nat),
            n <= i,
        decreases selected_sides.len() - i,
    {
        if selected_sides[i] == side {
            n = n + 1;
        }
        i = i + 1;
    }
    n
}

/// The archive format a row's name is recognised as.
#[derive(Clone, Copy, Debug, PartialEq, Eq, Structural)]
pub enum DetectedArchive {
    Zip,
    TarGz,
    Tar,
    /// Another archive format the app knows but cannot open here.
    Other,
}

/// What the tool probe of a mounted host found it can do with archives:
/// extract the row's format, create a zip, create a tar.gz.
#[derive(Clone, Copy, Debug, PartialEq, Eq, Structural)]
pub struct RemoteArchiveCaps {
    pub extract: bool,
    pub zip: bool,
    pub tgz: bool,
}

/// The archive context of the row menu. A remote pane offers what its
/// host's tools can do (nothing before the probe answered); a local pane
/// extracts zip, tar.gz and tar itself and compresses both ways. Inside
/// a browsed archive only copy-out is offered, and only toward a pane
/// that is not itself inside an archive and is ready.
pub fn row_archive_ctx(
    in_zip: bool,
    source_is_remote: bool,
    kind: Option<DetectedArchive>,
    remote_caps: Option<RemoteArchiveCaps>,
    other_in_zip: bool,
    other_is_remote: bool,
    other_has_client: bool,
) -> (c: RowArchiveCtx)
    ensures
        c.in_zip == in_zip,
        c.copy_out_ready == (in_zip && !other_in_zip && (!other_is_remote || other_has_client)),
        c.browsable == (!in_zip && kind == Some(DetectedArchive::Zip)),
        c.extractable == (!in_zip && (if source_is_remote {
            kind is Some && (remote_caps matches Some(rc) && rc.extract)
        } else {
            kind == Some(DetectedArchive::Zip) || kind == Some(DetectedArchive::TarGz) || kind == Some(DetectedArchive::Tar)
        })),
        c.compress_zip == (!in_zip && (!source_is_remote || (remote_caps matches Some(rc) && rc.zip))),
        c.compress_tgz == (!in_zip && (!source_is_remote || (remote_caps matches Some(rc) && rc.tgz))),
{
    let (extractable, zip, tgz) = if source_is_remote {
        match remote_caps {
            Some(rc) => (kind.is_some() && rc.extract, rc.zip, rc.tgz),
            None => (false, false, false),
        }
    } else {
        let ex = match kind {
            Some(DetectedArchive::Zip) | Some(DetectedArchive::TarGz) | Some(DetectedArchive::Tar) => true,
            _ => false,
        };
        (ex, true, true)
    };
    let is_zip = match kind {
        Some(DetectedArchive::Zip) => true,
        _ => false,
    };
    RowArchiveCtx {
        in_zip,
        copy_out_ready: in_zip && !other_in_zip && (!other_is_remote || other_has_client),
        browsable: !in_zip && is_zip,
        extractable: !in_zip && extractable,
        compress_zip: !in_zip && zip,
        compress_tgz: !in_zip && tgz,
    }
}

/// An optional column of the file list.
#[derive(Clone, Copy, Debug, PartialEq, Eq, Structural)]
pub enum SftpColumn {
    Modified,
    Size,
    Kind,
    Permissions,
    Owner,
}

/// Which optional columns a pane shows.
#[derive(Clone, Copy, Debug, PartialEq, Eq, Structural)]
pub struct SftpColumns {
    pub modified: bool,
    pub size: bool,
    pub kind: bool,
    pub permissions: bool,
    pub owner: bool,
}

/// A row of the actions menu's Columns section: the column it flips and
/// whether the check mark shows.
#[derive(Clone, Copy, Debug, PartialEq, Eq, Structural)]
pub struct ColumnToggle {
    pub column: SftpColumn,
    pub visible: bool,
}

/// The pane's actions (`⋮`) menu: the full directory actions, shared with
/// the background menu, then the Columns section.
#[derive(Clone, Debug, PartialEq, Eq)]
pub struct PaneActionsMenu {
    pub actions: Vec<SftpMenuEntry>,
    pub columns: Vec<ColumnToggle>,
}

/// The Columns section: modified, size, type, permissions, owner.
pub open spec fn column_toggles(c: SftpColumns) -> Seq<ColumnToggle> {
    seq![
        ColumnToggle { column: SftpColumn::Modified, visible: c.modified },
        ColumnToggle { column: SftpColumn::Size, visible: c.size },
        ColumnToggle { column: SftpColumn::Kind, visible: c.kind },
        ColumnToggle { column: SftpColumn::Permissions, visible: c.permissions },
        ColumnToggle { column: SftpColumn::Owner, visible: c.owner },
    ]
}

/// The actions menu of a pane. Its directory is side-resolved: the remote
/// path on a remote pane, the local directory otherwise.
pub fn pane_actions_menu(
    side: SftpPaneSide,
    is_remote: bool,
    remote_path: &String,
    local_dir: &String,
    show_hidden: bool,
    cols: SftpColumns,
) -> (m: PaneActionsMenu)
    ensures
        m.actions@ == dir_actions(side, is_remote,
            DirActionCtx { pane_dir: if is_remote { *remote_path } else { *local_dir }, local_dir: *local_dir, show_hidden },
            true),
        m.columns@ == column_toggles(cols),
{
    let pane_dir = if is_remote { remote_path.clone() } else { local_dir.clone() };
    let ctx = DirActionCtx { pane_dir, local_dir: local_dir.clone(), show_hidden };
    let actions = dir_action_items(side, is_remote, &ctx, true);
    let mut columns: Vec<ColumnToggle> = Vec::new();
    columns.push(ColumnToggle { column: SftpColumn::Modified, visible: cols.modified });
    columns.push(ColumnToggle { column: SftpColumn::Size, visible: cols.size });
    columns.push(ColumnToggle { column: SftpColumn::Kind, visible: cols.kind });
    columns.push(ColumnToggle { column: SftpColumn::Permissions, visible: cols.permissions });
    columns.push(ColumnToggle { column: SftpColumn::Owner, visible: cols.owner });
    assert(columns@ =~= column_toggles(cols));
    PaneActionsMenu { actions, columns }
}

/// One row of the Windows drive dropdown.
#[derive(Clone, Debug, PartialEq, Eq)]
pub enum DriveRow {
    /// Drive `label` (such as `C:`), navigating to its root `label\`.
    Drive { label: String, root: String },
    /// No drive was found.
    NoDrives,
}

/// The drive dropdown of a Windows local pane.
pub fn drive_rows(drives: &Vec<String>) -> (rows: Vec<DriveRow>)
    ensures
        drives@.len() == 0 ==> rows@ == seq![DriveRow::NoDrives],
        drives@.len() > 0 ==> rows@.len() == drives@.len() && forall|i: int| 0 <= i < drives@.len() ==>
            (#[trigger] rows@[i] matches DriveRow::Drive { label, root }
                && label@ == drives@[i]@ && root@ == drives@[i]@ + seq!['\\']),
{
    let mut rows: Vec<DriveRow> = Vec::new();
    if drives.len() == 0 {
        rows.push(DriveRow::NoDrives);
        assert(rows@ =~= seq![DriveRow::NoDrives]);
        return rows;
    }
    let mut i: usize = 0;
    while i < drives.len()
        invariant
            i <= drives@.len(),
            rows@.len() == i,
            forall|k: int| 0 <= k < i ==>
                (#[trigger] rows@[k] matches DriveRow::Drive { label, root }
                    && label@ == drives@[k]@ && root@ == drives@[k]@ + seq!['\\']),
        decreases drives.len() - i,
    {
        let mut r = crate::text::chars_of(drives[i].as_str());
        r.push('\\');
        let root = crate::text::string_from_chars(&r);
        rows.push(DriveRow::Drive { label: drives[i].clone(), root });
        i = i + 1;
    }
    rows
}

/// The visited-directory dropdown of a path bar: one row per visited
/// directory, in the history's order (most recent first), each navigating
/// to its path; its height is 30 px per row plus 8, capped at 320 px,
/// past which the list scrolls.
pub fn path_history_menu(history: &Vec<String>) -> (r: (Vec<String>, u32))
    ensures
        r.0@ == history@,
        r.1 == (if history@.len() * 30 + 8 <= 320 { history@.len() * 30 + 8 } else { 320 }),
{
    let mut rows: Vec<String> = Vec::new();
    let mut i: usize = 0;
    while i < history.len()
        invariant
            i <= history@.len(),
            rows@ == history@.subrange(0, i as int),
        decreases history.len() - i,
    {
        rows.push(history[i].clone());
        i = i + 1;
        assert(rows@ =~= history@.subrange(0, i as int));
    }
    assert(history@.subrange(0, history@.len() as int) =~= history@);
    let n = history.len();
    let h: u32 = if n <= 10 { (n as u32) * 30 + 8 } else { 320 };
    (rows, h)
}

} // verus!
