use frankencommander::commander::{
    handle_viewer_key, hit_test_rows, App, LayoutCache, MouseEvent, MouseKind, Rect, Request,
    Viewer, ViewerAction,
};
use frankencommander::entry::{ActivePane, Entry, RefreshMode};
use frankencommander::listing::FileInfo;
use frankencommander::pane::SourceData;
use frankencommander::menu::{menu_items, menu_title, MenuAction};
use frankencommander::modal::{
    next_focus, prev_focus, CopyDialogFocus, CopyDialogState, KeyCode, KeyEvent, Modal,
    OverwriteKind, PendingConfirm, TreeItem,
};
use frankencommander::timefmt::format_time;
use frankencommander::usermenu::parse_user_menu;

fn key(code: KeyCode) -> KeyEvent {
    KeyEvent { code, ctrl: false, alt: false }
}

fn entry(dir: &str, name: &str, is_dir: bool) -> Entry {
    Entry {
        name: name.to_string(),
        path: format!("{}/{}", dir, name),
        is_dir,
        size: 1,
        modified: None,
        is_system: false,
    }
}

fn app() -> App {
    let mut a = App::new("/l".to_string());
    a.right.cwd = "/r".to_string();
    a.left.apply_listing(vec![entry("/l", "a", false), entry("/l", "b", false)], RefreshMode::Reset);
    a
}

#[test]
fn conflicts_route_through_an_overwrite_confirmation() {
    let mut a = app();
    let sources = vec!["/l/a".to_string(), "/l/b".to_string()];
    let r = a.transfer_checked(OverwriteKind::Copy, sources.clone(), "/r".to_string(), true, vec!["/r/a".to_string()]);
    assert!(r.is_empty());
    match &a.modal {
        Some(Modal::Confirm { message, action: PendingConfirm::Overwrite { kind, sources: s, dest }, .. }) => {
            assert_eq!(message, "Overwrite 1 item(s)?");
            assert_eq!(*kind, OverwriteKind::Copy);
            assert_eq!(s, &sources);
            assert_eq!(dest, "/r");
        },
        other => panic!("expected a confirmation, got {:?}", other),
    }
    let r = a.handle_key(key(KeyCode::Char('y')), 0);
    assert!(a.modal.is_none());
    assert!(matches!(&r[0], Request::Transfer { overwrite: true, .. }));
}

#[test]
fn no_conflict_transfers_directly() {
    let mut a = app();
    let r = a.transfer_checked(OverwriteKind::Move, vec!["/l/a".to_string()], "/r/a".to_string(), false, vec![]);
    assert!(matches!(&r[0], Request::Transfer { kind: OverwriteKind::Move, overwrite: false, .. }));
    assert!(a.modal.is_none());
}

#[test]
fn copy_dialog_focus_ring_and_commit() {
    let mut f = CopyDialogFocus::Input;
    for _ in 0..9 {
        f = next_focus(f);
    }
    assert_eq!(f, CopyDialogFocus::Input);
    assert_eq!(prev_focus(CopyDialogFocus::Input), CopyDialogFocus::BtnCancel);
    assert_eq!(next_focus(CopyDialogFocus::BtnCancel), CopyDialogFocus::Input);

    let mut a = app();
    let r = a.handle_key(key(KeyCode::F(5)), 0);
    assert!(r.is_empty());
    match &a.modal {
        Some(Modal::CopyDialog(CopyDialogState { dest, cursor, focus, .. })) => {
            assert_eq!(dest, "/r/a");
            assert_eq!(*cursor, 4);
            assert_eq!(*focus, CopyDialogFocus::Input);
        },
        other => panic!("expected the copy dialog, got {:?}", other),
    }
    a.handle_key(key(KeyCode::Backspace), 0);
    a.handle_key(key(KeyCode::Char('z')), 0);
    a.handle_key(key(KeyCode::Tab), 0);
    a.handle_key(key(KeyCode::Char(' ')), 0);
    match &a.modal {
        Some(Modal::CopyDialog(s)) => {
            assert_eq!(s.dest, "/r/z");
            assert!(s.include_subdirs);
            assert_eq!(s.focus, CopyDialogFocus::IncludeSubdirs);
        },
        other => panic!("expected the copy dialog, got {:?}", other),
    }
    a.handle_key(KeyEvent { code: KeyCode::BackTab, ctrl: false, alt: false }, 0);
    let r = a.handle_key(key(KeyCode::Enter), 0);
    assert!(a.modal.is_none());
    match &r[0] {
        Request::CheckTransfer { kind, sources, dest } => {
            assert_eq!(*kind, OverwriteKind::Copy);
            assert_eq!(sources, &vec!["/l/a".to_string()]);
            assert_eq!(dest, "/r/z");
        },
        other => panic!("expected a transfer check, got {:?}", other),
    }
}

#[test]
fn escape_closes_dialogs_without_effect() {
    let mut a = app();
    a.handle_key(key(KeyCode::F(8)), 0);
    assert!(matches!(a.modal, Some(Modal::DeleteDialog { focus: 1, .. })));
    let r = a.handle_key(key(KeyCode::Escape), 0);
    assert!(r.is_empty() && a.modal.is_none());
    a.handle_key(key(KeyCode::F(1)), 0);
    assert!(matches!(a.modal, Some(Modal::Help { page: 0, .. })));
    a.handle_key(key(KeyCode::Escape), 0);
    assert!(a.modal.is_none());
}

#[test]
fn delete_goes_through_its_dialog() {
    let mut a = app();
    a.handle_key(key(KeyCode::F(8)), 0);
    let r = a.handle_key(key(KeyCode::Enter), 0);
    assert!(matches!(&r[0], Request::Delete { paths } if paths == &vec!["/l/a".to_string()]));
    assert_eq!(a.delete_finished(Err("denied".to_string())).len(), 0);
    assert_eq!(a.status, "Delete failed: denied");
}

#[test]
fn prompts_edit_and_answer() {
    let mut a = app();
    a.handle_key(key(KeyCode::F(7)), 0);
    a.handle_key(key(KeyCode::End), 0);
    a.handle_key(key(KeyCode::Char('2')), 0);
    let r = a.handle_key(key(KeyCode::Enter), 0);
    assert!(matches!(&r[0], Request::Mkdir { path } if path == "/l/new_folder2"));
    assert!(a.modal.is_none());
}

#[test]
fn function_ten_quits_and_menus_dispatch() {
    let mut a = app();
    assert!(matches!(a.handle_key(key(KeyCode::F(10)), 0)[0], Request::Quit));
    a.handle_key(key(KeyCode::F(9)), 0);
    a.handle_key(key(KeyCode::Right), 0);
    a.handle_key(key(KeyCode::Right), 0);
    a.handle_key(key(KeyCode::Right), 0);
    for _ in 0..6 {
        a.handle_key(key(KeyCode::Down), 0);
    }
    let r = a.handle_key(key(KeyCode::Enter), 0);
    assert!(a.modal.is_none());
    assert_eq!(a.left.sort_mode, frankencommander::entry::SortMode::NameDesc);
    assert!(matches!(&r[0], Request::Relist { side: ActivePane::Left, mode: RefreshMode::Keep, .. }));
    assert_eq!(menu_items(3).len(), 14);
    assert!(matches!(menu_items(9)[1].action, MenuAction::About));
    assert_eq!(menu_title(2), "Options");
}

#[test]
fn quick_search_jumps_to_a_matching_name() {
    let mut a = app();
    a.handle_key(key(KeyCode::Char('B')), 100);
    assert_eq!(a.left.cursor, Some(1));
    assert_eq!(a.status, "Quick search: b");
    a.handle_key(key(KeyCode::Char('a')), 5000);
    assert_eq!(a.quick_search.as_deref(), Some("a"));
    assert_eq!(a.left.cursor, Some(0));
}

#[test]
fn viewer_keys() {
    let mut v = Viewer { path: "/f".to_string(), lines: vec![], scroll: 3 };
    assert_eq!(handle_viewer_key(key(KeyCode::PageUp), &mut v), ViewerAction::Stay);
    assert_eq!(v.scroll, 0);
    handle_viewer_key(key(KeyCode::PageDown), &mut v);
    handle_viewer_key(key(KeyCode::Down), &mut v);
    assert_eq!(v.scroll, 11);
    assert_eq!(handle_viewer_key(key(KeyCode::Escape), &mut v), ViewerAction::Close);
    assert_eq!(handle_viewer_key(key(KeyCode::F(10)), &mut v), ViewerAction::Quit);
}

#[test]
fn clicks_hit_rows_below_the_header() {
    let layout = LayoutCache {
        left_table: Rect { x: 0, y: 1, width: 40, height: 20 },
        right_table: Rect { x: 40, y: 1, width: 40, height: 20 },
    };
    assert_eq!(hit_test_rows(5, 4, &layout), Some((ActivePane::Left, 2)));
    assert_eq!(hit_test_rows(45, 1, &layout), Some((ActivePane::Right, 0)));
    assert_eq!(hit_test_rows(90, 4, &layout), None);
    let mut a = app();
    a.layout = Some(layout);
    a.handle_mouse(MouseEvent { kind: MouseKind::LeftDown, x: 5, y: 3 }, 1000);
    assert_eq!(a.left.cursor, Some(1));
    let r = a.handle_mouse(MouseEvent { kind: MouseKind::LeftDown, x: 5, y: 3 }, 1200);
    assert!(matches!(&r[0], Request::ViewFile { path } if path == "/l/b"));
}

#[test]
fn times_format_as_day_month_year_and_clock() {
    let (date, clock) = format_time(Some(0), 0);
    assert_eq!(date, "01-01-70");
    assert_eq!(clock, "00:00");
    let nanos: i128 = 1_700_000_000 * 1_000_000_000;
    let (date, clock) = format_time(Some(nanos), 3600);
    assert_eq!(date, "14-11-23");
    assert_eq!(clock, "23:13");
    assert_eq!(format_time(None, 0), (String::new(), String::new()));
}

#[test]
fn user_menu_lines() {
    let items = parse_user_menu("# comment\n\nList|ls -la\n  Edit config | $EDITOR x \n|no label\nBare\n");
    assert_eq!(items.len(), 3);
    assert_eq!(items[0].label, "List");
    assert_eq!(items[0].command, "ls -la");
    assert_eq!(items[1].label, "Edit config");
    assert_eq!(items[1].command, "$EDITOR x");
    assert_eq!(items[2].label, "Bare");
    assert_eq!(items[2].command, "");
}

#[test]
fn sync_with_nothing_to_do_says_so() {
    let mut a = app();
    a.sync_scanned("/l".to_string(), "/r".to_string(), vec![]);
    assert!(a.modal.is_none());
    assert_eq!(a.status, "Directories already in sync");
}

#[test]
fn navigation_waits_for_a_good_listing() {
    let mut a = app();
    let r = a.handle_key(key(KeyCode::Left), 0);
    let (side, to, failure) = match &r[0] {
        Request::Navigate { side, to, failure } => (*side, to.clone(), failure.clone()),
        other => panic!("expected a move, got {:?}", other),
    };
    assert_eq!(side, ActivePane::Left);
    assert_eq!(to.cwd, "/");
    assert_eq!(a.left.cwd, "/l");
    a.navigated(side, to.clone(), Err("denied".to_string()), failure.clone());
    assert_eq!(a.left.cwd, "/l");
    assert_eq!(a.left.entries.len(), 2);
    assert_eq!(a.status, "Up failed: denied");
    let info = FileInfo { name: "l".to_string(), path: "/l".to_string(), is_dir: true, size: 0, modified: None };
    a.navigated(side, to, Ok(SourceData::Directory(vec![info])), failure);
    assert_eq!(a.left.cwd, "/");
    assert_eq!(a.left.entries.len(), 1);
    assert_eq!(a.left.cursor, Some(0));
}

#[test]
fn tree_and_drive_choices_move_through_listing() {
    let mut a = app();
    a.tree_built(ActivePane::Right, vec![TreeItem { path: "/r".to_string(), depth: 0 }, TreeItem { path: "/r/x".to_string(), depth: 1 }]);
    a.handle_key(key(KeyCode::Down), 0);
    let r = a.handle_key(key(KeyCode::Enter), 0);
    assert!(a.modal.is_none());
    assert!(matches!(&r[0], Request::Navigate { side: ActivePane::Right, to, .. } if to.cwd == "/r/x" && to.vfs.is_none()));
    assert_eq!(a.right.cwd, "/r");
    assert_eq!(a.transfer_finished(OverwriteKind::Copy, false, Ok(())).len(), 1);
    assert_eq!(a.status, "Copy complete");
}
