use std::collections::HashSet;
use oryxis_app::sftp_menu::{
    count_rows, cross_pane_ready, pane_actions_btn, row_archive_ctx, row_context_menu_box, row_context_menu_height,
    selection_count_same_pane, sftp_menu_slot, ArchiveKind, DetectedArchive, DirActionCtx, DownloadTarget, KebabButton,
    MenuSlot, Platform, RemoteArchiveCaps, RowArchiveCtx, SftpMenuEntry, SftpPaneSide, SftpRowMenu,
};
use oryxis_app::state::{Connection, ConnectionProtocol, Oryxis};

fn app() -> Oryxis {
    Oryxis {
        connections: Vec::new(),
        session_logs: Vec::new(),
        chat_conversations: Vec::new(),
        keys: Vec::new(),
        plugins: Vec::new(),
        remote_desktop_forwards: HashSet::new(),
        session_log_full: false,
        sftp_enabled: true,
        agent_enabled: false,
        sftp_sync_picker_search: String::new(),
        relay_deploy_picker_search: String::new(),
        sftp_left_host_label: None,
        sftp_right_host_label: None,
    }
}

fn row(path: &str, is_dir: bool) -> SftpRowMenu {
    SftpRowMenu { side: SftpPaneSide::Left, path: path.to_string(), is_dir, is_background: false, open_group: false }
}

fn dir_ctx() -> DirActionCtx {
    DirActionCtx { pane_dir: "/home/me".to_string(), local_dir: "/home/me".to_string(), show_hidden: false }
}

#[test]
fn kebab_and_menu_slot_shapes() {
    assert_eq!(pane_actions_btn(7u8), KebabButton { secondary_tint: true, compact: true, on_press: 7u8 });
    assert_eq!(
        sftp_menu_slot(SftpMenuEntry::NewFolder(SftpPaneSide::Right)),
        MenuSlot { activate: SftpMenuEntry::NewFolder(SftpPaneSide::Right), ring_radius: 4, is_default: false }
    );
}

#[test]
fn local_file_toward_a_remote_pane_uploads_and_the_height_matches() {
    let a = app();
    let m = row("/home/me/notes.txt", false);
    let other = Some("prod".to_string());
    let items = row_context_menu_box(
        &a, &m, true, false, true, &other, 1, RowArchiveCtx::default(), &dir_ctx(), Platform::Linux,
    );
    let p = "/home/me/notes.txt".to_string();
    assert_eq!(
        items,
        vec![
            SftpMenuEntry::UploadFile { path: p.clone(), host: other.clone() },
            SftpMenuEntry::OpenLocal(p.clone()),
            SftpMenuEntry::RevealInExplorer { path: p.clone(), is_dir: false },
            SftpMenuEntry::CopyPath(p.clone()),
            SftpMenuEntry::Duplicate { side: SftpPaneSide::Left, path: p.clone(), is_dir: false },
            SftpMenuEntry::Rename { side: SftpPaneSide::Left, path: p.clone() },
            SftpMenuEntry::Properties { side: SftpPaneSide::Left, path: p.clone(), is_dir: false },
            SftpMenuEntry::Delete { side: SftpPaneSide::Left, path: p.clone(), is_dir: false },
            SftpMenuEntry::Separator,
            SftpMenuEntry::NewFolder(SftpPaneSide::Left),
            SftpMenuEntry::NewFile(SftpPaneSide::Left),
            SftpMenuEntry::RefreshLocal(SftpPaneSide::Left),
        ]
    );
    let (rows, seps) = count_rows(&items);
    assert_eq!((rows, seps), (11, 1));
    let h = row_context_menu_height(&a, &m, true, false, true, &other, 1, RowArchiveCtx::default(), &dir_ctx(), Platform::Linux);
    assert_eq!(h, rows * 30 + seps * 4 + 8);
    assert_eq!(h, 342);
}

#[test]
fn remote_file_toward_a_local_pane_downloads_and_reserves_every_row() {
    let a = app();
    let m = row("/srv/app.log", false);
    let items = row_context_menu_box(
        &a, &m, true, true, false, &None, 1, RowArchiveCtx::default(), &dir_ctx(), Platform::Linux,
    );
    assert_eq!(items[0], SftpMenuEntry::DownloadFile("/srv/app.log".to_string()));
    assert_eq!(items[1], SftpMenuEntry::DownloadTo(DownloadTarget::File("/srv/app.log".to_string())));
    assert_eq!(items[2], SftpMenuEntry::StartEdit { side: SftpPaneSide::Left, path: "/srv/app.log".to_string() });
    assert_eq!(items[3], SftpMenuEntry::ToggleOpenGroup { expanded: false });
    let (rows, seps) = count_rows(&items);
    assert_eq!((rows, seps), (12, 1));
    // Download, Download to, Open / Edit and Open with all get room.
    assert_eq!(
        row_context_menu_height(&a, &m, true, true, false, &None, 1, RowArchiveCtx::default(), &dir_ctx(), Platform::Linux),
        12 * 30 + 4 + 8
    );
}

#[test]
fn open_with_group_expands_with_the_os_picker_off_linux() {
    let a = app();
    let mut m = row("/srv/a.txt", false);
    m.open_group = true;
    let items = row_context_menu_box(
        &a, &m, false, true, true, &None, 1, RowArchiveCtx::default(), &dir_ctx(), Platform::MacOs,
    );
    let s = SftpPaneSide::Left;
    let p = "/srv/a.txt".to_string();
    assert_eq!(
        items[..6].to_vec(),
        vec![
            SftpMenuEntry::StartEdit { side: s, path: p.clone() },
            SftpMenuEntry::ToggleOpenGroup { expanded: true },
            SftpMenuEntry::OpenWithEditor { side: s, path: p.clone() },
            SftpMenuEntry::PickEditorFor { side: s, path: p.clone() },
            SftpMenuEntry::OpenWithOs { side: s, path: p.clone() },
            SftpMenuEntry::SetDefaultEditor,
        ]
    );
    let (rows, seps) = count_rows(&items);
    assert_eq!(
        row_context_menu_height(&a, &m, false, true, true, &None, 1, RowArchiveCtx::default(), &dir_ctx(), Platform::MacOs),
        rows * 30 + seps * 4 + 8
    );
    let linux = row_context_menu_box(
        &a, &m, false, true, true, &None, 1, RowArchiveCtx::default(), &dir_ctx(), Platform::Linux,
    );
    assert!(!linux.contains(&SftpMenuEntry::OpenWithOs { side: s, path: p }));
}

#[test]
fn bulk_selection_and_remote_relay() {
    let a = app();
    let m = row("/srv/x", true);
    let host = Some("edge".to_string());
    let items = row_context_menu_box(
        &a, &m, true, true, true, &host, 3, RowArchiveCtx::default(), &dir_ctx(), Platform::Windows,
    );
    let s = SftpPaneSide::Left;
    assert_eq!(items[0], SftpMenuEntry::Relay { side: s, path: "/srv/x".to_string(), is_dir: true, host: host.clone() });
    assert_eq!(items[1], SftpMenuEntry::RelayMove { side: s, path: "/srv/x".to_string(), is_dir: true, host });
    assert_eq!(items[2], SftpMenuEntry::CopySelectionPaths { side: s, count: 3 });
    assert_eq!(items[3], SftpMenuEntry::DuplicateSelection { count: 3 });
    assert_eq!(items[4], SftpMenuEntry::DeleteSelection { count: 3 });
}

#[test]
fn inside_an_archive_only_copy_out_and_close_remain() {
    let a = app();
    let m = row("/a.zip/doc.txt", false);
    let ctx = RowArchiveCtx { in_zip: true, copy_out_ready: true, ..RowArchiveCtx::default() };
    let items = row_context_menu_box(&a, &m, true, false, false, &None, 1, ctx, &dir_ctx(), Platform::Linux);
    assert_eq!(
        items,
        vec![
            SftpMenuEntry::ZipCopyOut { side: SftpPaneSide::Left, path: "/a.zip/doc.txt".to_string(), is_dir: false },
            SftpMenuEntry::ZipClose(SftpPaneSide::Left),
        ]
    );
    assert_eq!(row_context_menu_height(&a, &m, true, false, false, &None, 1, ctx, &dir_ctx(), Platform::Linux), 68);
}

#[test]
fn background_click_on_a_remote_pane_offers_the_landing_folder() {
    let mut a = app();
    a.connections.push(Connection {
        id: 1,
        label: "prod".to_string(),
        hostname: "prod.example".to_string(),
        protocol: ConnectionProtocol::Ssh,
        mac_address: None,
        cloud_ref: None,
        sftp_initial_path: Some("/var/www".to_string()),
        tags: Vec::new(),
        identity_id: None,
    });
    a.sftp_left_host_label = Some("prod".to_string());
    let m = SftpRowMenu {
        side: SftpPaneSide::Left,
        path: "/srv".to_string(),
        is_dir: true,
        is_background: true,
        open_group: false,
    };
    let ctx = DirActionCtx { pane_dir: "/srv".to_string(), local_dir: "/home/me".to_string(), show_hidden: true };
    let items = row_context_menu_box(&a, &m, true, true, false, &None, 0, RowArchiveCtx::default(), &ctx, Platform::Linux);
    let s = SftpPaneSide::Left;
    assert_eq!(
        items,
        vec![
            SftpMenuEntry::NewFolder(s),
            SftpMenuEntry::NewFile(s),
            SftpMenuEntry::Separator,
            SftpMenuEntry::RefreshRemote { side: s, dir: "/srv".to_string() },
            SftpMenuEntry::CopyPath("/srv".to_string()),
            SftpMenuEntry::ToggleHidden { side: s, showing: true },
            SftpMenuEntry::Separator,
            SftpMenuEntry::SetInitialPath { side: s, dir: "/srv".to_string() },
            SftpMenuEntry::ClearInitialPath(s),
        ]
    );
    let (rows, seps) = count_rows(&items);
    assert_eq!(
        row_context_menu_height(&a, &m, true, true, false, &None, 0, RowArchiveCtx::default(), &ctx, Platform::Linux),
        rows * 30 + seps * 4 + 8
    );
}

#[test]
fn archive_context_and_selection_counts() {
    let local = row_archive_ctx(false, false, Some(DetectedArchive::Tar), None, false, true, false);
    assert_eq!(
        local,
        RowArchiveCtx { in_zip: false, copy_out_ready: false, browsable: false, extractable: true, compress_zip: true, compress_tgz: true }
    );
    let remote_unprobed = row_archive_ctx(false, true, Some(DetectedArchive::Zip), None, false, false, false);
    assert!(remote_unprobed.browsable && !remote_unprobed.extractable && !remote_unprobed.compress_zip);
    let caps = RemoteArchiveCaps { extract: true, zip: false, tgz: true };
    let remote = row_archive_ctx(false, true, Some(DetectedArchive::Other), Some(caps), false, false, false);
    assert!(remote.extractable && !remote.compress_zip && remote.compress_tgz && !remote.browsable);
    let in_zip = row_archive_ctx(true, false, Some(DetectedArchive::Zip), None, false, true, true);
    assert!(in_zip.copy_out_ready && !in_zip.browsable && !in_zip.compress_zip);
    assert!(!row_archive_ctx(true, false, None, None, true, false, false).copy_out_ready);
    assert!(cross_pane_ready(false, false));
    assert!(!cross_pane_ready(true, false));
    assert!(cross_pane_ready(true, true));
    let sides = vec![SftpPaneSide::Left, SftpPaneSide::Right, SftpPaneSide::Left];
    assert_eq!(selection_count_same_pane(&sides, SftpPaneSide::Left), 2);
    assert_eq!(selection_count_same_pane(&sides, SftpPaneSide::Right), 1);
    let _ = ArchiveKind::Zip;
}
