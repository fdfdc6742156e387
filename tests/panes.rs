use frankencommander::entry::{Entry, RefreshMode};
use frankencommander::listing::{FileInfo, FileStat};
use frankencommander::pane::{ensure_visible, selected_paths, Pane, SourceData, VfsState};
use frankencommander::status::{panel_status_text, panel_title};

fn entry(dir: &str, name: &str, is_dir: bool, size: u64) -> Entry {
    Entry {
        name: name.to_string(),
        path: format!("{}/{}", dir, name),
        is_dir,
        size,
        modified: None,
        is_system: false,
    }
}

fn info(dir: &str, name: &str, is_dir: bool) -> FileInfo {
    FileInfo { name: name.to_string(), path: format!("{}/{}", dir, name), is_dir, size: 7, modified: None }
}

fn pane_with(cwd: &str, entries: Vec<Entry>) -> Pane {
    let mut p = Pane::new(cwd.to_string());
    p.apply_listing(entries, RefreshMode::Reset);
    p
}

#[test]
fn entering_a_directory_moves_there_and_resets_the_cursor() {
    let mut p = pane_with("/a", vec![entry("/a", "b", true, 0), entry("/a", "f.txt", false, 3)]);
    assert_eq!(p.cursor, Some(0));
    let to = p.enter_selected().unwrap();
    assert_eq!(to.cwd, "/a/b");
    assert_eq!(p.cwd, "/a");
    p.move_selection(1, 10);
    let data = SourceData::Directory(vec![info("/a/b", "x", false), info("/a/b", "y", false)]);
    p.move_to(to, data, RefreshMode::Reset, false).unwrap();
    assert_eq!(p.cwd, "/a/b");
    assert_eq!(p.entries.len(), 2);
    assert_eq!(p.cursor, Some(0));
    assert_eq!(p.offset, 0);
}

#[test]
fn moving_far_clamps_to_the_last_entry() {
    let names = ["a", "b", "c", "d", "e"];
    let mut p = pane_with("/d", names.iter().map(|n| entry("/d", n, false, 1)).collect());
    p.move_selection(1000, 10);
    assert_eq!(p.cursor, Some(4));
    assert!(p.offset <= 4 && 4 < p.offset + 10);
    p.move_selection(-1000, 10);
    assert_eq!(p.cursor, Some(0));
    let mut q = pane_with("/d", names.iter().map(|n| entry("/d", n, false, 1)).collect());
    q.move_selection(1000, 2);
    assert_eq!(q.cursor, Some(4));
    assert_eq!(q.offset, 3);
}

#[test]
fn moving_in_an_empty_pane_leaves_no_cursor() {
    let mut p = Pane::new("/e".to_string());
    p.move_selection(3, 10);
    assert_eq!(p.cursor, None);
    assert_eq!(p.offset, 0);
}

#[test]
fn scrolling_keeps_the_cursor_in_view() {
    assert_eq!(ensure_visible(2, 5, 10), 2);
    assert_eq!(ensure_visible(20, 0, 10), 11);
    assert_eq!(ensure_visible(7, 0, 10), 0);
    assert_eq!(ensure_visible(7, 3, 0), 3);
}

#[test]
fn refresh_drops_selections_that_are_gone() {
    let mut p = pane_with("/s", vec![entry("/s", "a", false, 1), entry("/s", "b", false, 2)]);
    p.select_all();
    assert_eq!(p.selected.len(), 2);
    let data = SourceData::Directory(vec![info("/s", "b", false), info("/s", "c", false)]);
    p.refresh(data, RefreshMode::Keep, false).unwrap();
    assert_eq!(p.selected, vec!["/s/b".to_string()]);
}

#[test]
fn keep_clamps_the_cursor_when_the_listing_shrinks() {
    let mut p = pane_with("/s", (0..6).map(|i| entry("/s", &format!("f{}", i), false, 1)).collect());
    p.move_selection(5, 10);
    let data = SourceData::Directory(vec![info("/s", "only", false)]);
    p.refresh(data, RefreshMode::Keep, false).unwrap();
    assert_eq!(p.cursor, Some(0));
    let data = SourceData::Directory(vec![]);
    p.refresh(data, RefreshMode::Keep, false).unwrap();
    assert_eq!(p.cursor, None);
}

#[test]
fn failed_or_mismatched_refresh_leaves_the_pane() {
    let mut p = pane_with("/s", vec![entry("/s", "a", false, 1)]);
    p.toggle_select();
    assert!(p.refresh(SourceData::Archive(vec![1, 2, 3]), RefreshMode::Reset, false).is_err());
    assert_eq!(p.entries.len(), 1);
    assert_eq!(p.selected.len(), 1);
    p.vfs = Some(VfsState { zip_path: "/s/x.zip".to_string(), prefix: String::new() });
    assert!(p.refresh(SourceData::Archive(b"garbage".to_vec()), RefreshMode::Reset, false).is_err());
    assert_eq!(p.entries[0].name, "a");
}

#[test]
fn selection_operations() {
    let mut p = pane_with("/s", vec![entry("/s", "a", false, 1), entry("/s", "b", false, 2), entry("/s", "c", false, 4)]);
    p.toggle_select();
    assert_eq!(p.selected, vec!["/s/a".to_string()]);
    p.invert_selection();
    let mut sel = p.selected.clone();
    sel.sort();
    assert_eq!(sel, vec!["/s/b".to_string(), "/s/c".to_string()]);
    assert_eq!(p.selected_total_size(), 6);
    assert_eq!(selected_paths(&p), vec!["/s/b".to_string(), "/s/c".to_string()]);
    p.toggle_select();
    assert_eq!(p.selected_total_size(), 7);
    p.toggle_select();
    assert_eq!(p.selected_total_size(), 6);
    p.clear_selection();
    assert!(p.selected.is_empty());
    assert_eq!(selected_paths(&p), vec!["/s/a".to_string()]);
}

#[test]
fn going_up_through_directories() {
    let mut p = Pane::new("/a/b".to_string());
    let up = p.go_parent().unwrap();
    assert_eq!(up.cwd, "/a");
    p.move_to(up, SourceData::Directory(vec![]), RefreshMode::Reset, false).unwrap();
    assert_eq!(p.cwd, "/a");
    let up = p.go_parent().unwrap();
    assert_eq!(up.cwd, "/");
    p.move_to(up, SourceData::Directory(vec![]), RefreshMode::Reset, false).unwrap();
    assert!(p.go_parent().is_none());
    assert_eq!(p.cwd, "/");
}

#[test]
fn a_failed_listing_keeps_the_last_good_location() {
    let mut p = pane_with("/w", vec![entry("/w", "sub", true, 0), entry("/w", "x.zip", false, 3)]);
    let to = p.enter_selected().unwrap();
    assert!(p.move_to(to, SourceData::Archive(vec![0]), RefreshMode::Reset, false).is_err());
    assert_eq!(p.cwd, "/w");
    assert_eq!(p.entries.len(), 2);
    p.move_selection(1, 10);
    let to = p.enter_selected().unwrap();
    assert!(p.move_to(to, SourceData::Archive(b"not a zip".to_vec()), RefreshMode::Reset, false).is_err());
    assert!(p.vfs.is_none());
    assert_eq!(p.cursor, Some(1));
}

#[test]
fn archives_are_entered_and_left() {
    let mut p = pane_with("/w", vec![entry("/w", "X.ZIP", false, 10)]);
    let to = p.enter_selected().unwrap();
    let v = to.vfs.clone().unwrap();
    assert_eq!(v.zip_path, "/w/X.ZIP");
    assert_eq!(v.prefix, "");
    assert_eq!(to.cwd, "/w");
    p.vfs = to.vfs;
    p.apply_listing(vec![entry("", "docs", true, 0)], RefreshMode::Reset);
    p.entries[0].path = "docs".to_string();
    let to = p.enter_selected().unwrap();
    assert_eq!(to.vfs.clone().unwrap().prefix, "docs/");
    p.vfs = to.vfs;
    let up = p.go_parent().unwrap();
    assert_eq!(up.vfs.clone().unwrap().prefix, "");
    p.vfs = up.vfs;
    let up = p.go_parent().unwrap();
    assert!(up.vfs.is_none());
    assert_eq!(up.cwd, "/w");
}

#[test]
fn plain_files_do_not_navigate() {
    let p = pane_with("/w", vec![entry("/w", "notes.txt", false, 10)]);
    assert!(p.enter_selected().is_none());
    assert_eq!(p.cwd, "/w");
    assert!(p.vfs.is_none());
}

#[test]
fn result_lists_give_way_to_the_directory() {
    let mut p = Pane::new("/w".to_string());
    p.panelized = Some(vec!["/w/a/hit.txt".to_string(), "/w/gone".to_string()]);
    let data = SourceData::Panelized(vec![
        Some(FileStat { is_dir: false, size: 5, modified: None }),
        None,
    ]);
    p.refresh(data, RefreshMode::Reset, false).unwrap();
    assert_eq!(p.entries.len(), 1);
    assert_eq!(p.entries[0].name, "hit.txt");
    let up = p.go_parent().unwrap();
    assert!(up.panelized.is_none());
    assert_eq!(up.cwd, "/w");
    p.move_to(up, SourceData::Directory(vec![info("/w", "a", true)]), RefreshMode::Reset, false).unwrap();
    assert!(p.panelized.is_none());
    assert_eq!(p.entries[0].name, "a");
}

#[test]
fn titles_and_status_lines() {
    let mut p = pane_with("/w", vec![entry("/w", "f.txt", false, 12), entry("/w", "sub", true, 0)]);
    assert_eq!(panel_title(&p), "/w");
    assert_eq!(panel_status_text(&p), "f.txt  12    ");
    p.move_selection(1, 10);
    assert_eq!(panel_status_text(&p), "sub  ►DIR◄    ");
    p.select_all();
    assert_eq!(panel_status_text(&p), "12 bytes in 2 selected");
    p.vfs = Some(VfsState { zip_path: "/w/x.zip".to_string(), prefix: "docs/".to_string() });
    assert_eq!(panel_title(&p), "/w/x.zip:docs/");
    p.vfs = None;
    p.panelized = Some(vec![]);
    assert_eq!(panel_title(&p), "Search results");
    let empty = Pane::new("/e".to_string());
    assert_eq!(panel_status_text(&empty), "");
}
