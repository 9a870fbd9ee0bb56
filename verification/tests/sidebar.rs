use oryxis_app::files_tab::{
    files_body, files_header, files_overlays, files_rows, path_label, FileEntry, FileRow, FilesBody, FilesListing,
    FilesOverlays, HeaderCell, NewEntryKind, RowActivate,
};
use oryxis_app::tmux_tab::{tmux_items, AttachMarker, TmuxHint, TmuxItem, TmuxPane, TmuxSession, TmuxStatus};

fn entry(name: &str, is_dir: bool) -> FileEntry {
    FileEntry { name: name.to_string(), full: format!("/home/me/{name}"), is_dir, is_symlink: false, size: 10 }
}

fn listing(entries: Vec<FileEntry>) -> FilesListing {
    FilesListing {
        entries,
        show_hidden: false,
        new_entry: None,
        has_parent: true,
        rename: None,
        selected: Vec::new(),
        hovered: None,
    }
}

fn plain(index: usize, activate: RowActivate) -> FileRow {
    FileRow::Entry { index, activate, selected: false, multi: false, copy_chip: false }
}

#[test]
fn dotfiles_hide_and_folders_navigate() {
    let l = listing(vec![entry(".bashrc", false), entry("src", true), entry("a.txt", false)]);
    assert_eq!(
        files_rows(&l),
        vec![FileRow::Parent, plain(1, RowActivate::Navigate), plain(2, RowActivate::CopyPath)]
    );
    let mut shown = l.clone();
    shown.show_hidden = true;
    assert_eq!(files_rows(&shown)[1], plain(0, RowActivate::CopyPath));
}

#[test]
fn new_entry_rename_selection_and_hover() {
    let mut l = listing(vec![entry("a", true), entry("b", false), entry("c", false)]);
    l.new_entry = Some(NewEntryKind::Folder);
    l.rename = Some("/home/me/b".to_string());
    l.selected = vec!["/home/me/a".to_string(), "/home/me/c".to_string()];
    l.hovered = Some(4);
    assert_eq!(
        files_rows(&l),
        vec![
            FileRow::NewEntryInput(NewEntryKind::Folder),
            FileRow::Parent,
            FileRow::Entry { index: 0, activate: RowActivate::Navigate, selected: true, multi: true, copy_chip: false },
            FileRow::Rename(1),
            // Hovered, but inside a multi-selection: no single-row copy chip.
            FileRow::Entry { index: 2, activate: RowActivate::CopyPath, selected: true, multi: true, copy_chip: false },
        ]
    );
    l.selected = vec!["/home/me/c".to_string()];
    assert_eq!(
        files_rows(&l)[4],
        FileRow::Entry { index: 2, activate: RowActivate::CopyPath, selected: true, multi: false, copy_chip: true }
    );
}

#[test]
fn empty_directory_shows_the_placeholder_under_the_parent_row() {
    let l = listing(vec![entry(".hidden", false)]);
    assert_eq!(files_rows(&l), vec![FileRow::Parent, FileRow::Empty]);
    let mut root = listing(Vec::new());
    root.has_parent = false;
    assert_eq!(files_rows(&root), vec![FileRow::Empty]);
}

#[test]
fn body_header_overlays_and_path_label() {
    assert_eq!(files_body(false, true, true, true, true), FilesBody::NoSession);
    assert_eq!(files_body(true, true, false, true, true), FilesBody::Error);
    assert_eq!(files_body(true, false, false, true, true), FilesBody::Mounting);
    assert_eq!(files_body(true, false, true, true, true), FilesBody::Loading);
    assert_eq!(files_body(true, false, true, true, false), FilesBody::Listing);
    assert_eq!(files_body(true, false, true, false, true), FilesBody::Listing);
    assert_eq!(files_header(true, true, false), vec![HeaderCell::PathInput, HeaderCell::HistoryArrow]);
    assert_eq!(
        files_header(false, false, true),
        vec![HeaderCell::PathLabel, HeaderCell::FollowPin, HeaderCell::HiddenToggle, HeaderCell::Refresh]
    );
    assert_eq!(
        files_header(false, true, false),
        vec![
            HeaderCell::PathLabel,
            HeaderCell::HistoryArrow,
            HeaderCell::FollowPin,
            HeaderCell::HiddenToggle,
            HeaderCell::Refresh,
            HeaderCell::Expand,
        ]
    );
    assert_eq!(files_overlays(true, true, true, true, false), FilesOverlays { drop_hint: true, history_menu: false });
    assert_eq!(files_overlays(true, false, true, true, true), FilesOverlays { drop_hint: false, history_menu: true });
    assert_eq!(path_label(""), "\u{2026}");
    assert_eq!(path_label("/srv"), "/srv");
}

fn session(name: &str, attached: bool) -> TmuxSession {
    TmuxSession { name: name.to_string(), windows: 2, attached, group: None }
}

fn pane(status: TmuxStatus, sessions: Vec<TmuxSession>) -> TmuxPane {
    TmuxPane { status, sessions, confirm_kill: None, attached_to: None, has_error: false, hovered: None }
}

#[test]
fn tmux_tab_reports_its_state() {
    assert_eq!(tmux_items(false, &pane(TmuxStatus::Ready, Vec::new())), vec![TmuxItem::NoSession]);
    assert_eq!(
        tmux_items(true, &pane(TmuxStatus::Loading, Vec::new())),
        vec![TmuxItem::Header, TmuxItem::Hint(TmuxHint::Listing)]
    );
    assert_eq!(
        tmux_items(true, &pane(TmuxStatus::NoTmux, Vec::new())),
        vec![TmuxItem::Header, TmuxItem::Hint(TmuxHint::NotInstalled)]
    );
    let mut failed = pane(TmuxStatus::Failed, Vec::new());
    failed.has_error = true;
    assert_eq!(
        tmux_items(true, &failed),
        vec![TmuxItem::Header, TmuxItem::Hint(TmuxHint::Failed), TmuxItem::Error]
    );
    assert_eq!(
        tmux_items(true, &pane(TmuxStatus::Ready, Vec::new())),
        vec![TmuxItem::Header, TmuxItem::Hint(TmuxHint::NoSessions), TmuxItem::NewSession]
    );
}

#[test]
fn tmux_rows_mark_the_panes_own_session_and_the_pending_kill() {
    let mut p = pane(TmuxStatus::Ready, vec![session("main", true), session("logs", true), session("scratch", false)]);
    p.attached_to = Some("main".to_string());
    p.confirm_kill = Some("scratch".to_string());
    p.hovered = Some(1);
    assert_eq!(
        tmux_items(true, &p),
        vec![
            TmuxItem::Header,
            TmuxItem::Session { index: 0, marker: AttachMarker::Here, attachable: false, kill_chip: false },
            TmuxItem::Session { index: 1, marker: AttachMarker::Elsewhere, attachable: true, kill_chip: true },
            TmuxItem::KillConfirm(2),
            TmuxItem::NewSession,
        ]
    );
}
