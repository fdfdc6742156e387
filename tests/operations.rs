use frankencommander::fs_ops::{
    copy_sources, delete_plan, find_conflicts, move_sources, parse_chmod_mode, sync_execute,
    sync_plan, sync_target, transfer_targets, FsStep, SyncItem,
};
use frankencommander::paths::{file_name, join, parent, strip_prefix};

fn s(v: &[&str]) -> Vec<String> {
    v.iter().map(|x| x.to_string()).collect()
}

#[test]
fn two_sources_into_a_directory_with_one_clash() {
    let sources = s(&["/src/a", "/src/b"]);
    let dest = "/dst".to_string();
    assert_eq!(transfer_targets(&sources, &dest, true), s(&["/dst/a", "/dst/b"]));
    assert_eq!(find_conflicts(&sources, &dest, true, &s(&["/dst/a"])), Some(1));
    assert_eq!(find_conflicts(&sources, &dest, false, &s(&["/dst/a", "/dst/b"])), Some(2));
    assert_eq!(find_conflicts(&sources, &dest, true, &s(&[])), None);
}

#[test]
fn single_source_onto_a_file_path() {
    let sources = s(&["/src/a"]);
    let dest = "/dst/new_name".to_string();
    assert_eq!(transfer_targets(&sources, &dest, false), s(&["/dst/new_name"]));
    assert_eq!(find_conflicts(&sources, &dest, false, &s(&[])), None);
    assert_eq!(find_conflicts(&sources, &dest, false, &s(&["/dst/new_name"])), Some(1));
    assert_eq!(find_conflicts(&sources, &dest, false, &s(&["/dst/a"])), None);
}

#[test]
fn copy_and_move_plans() {
    let sources = s(&["/src/a", "/src/b"]);
    let dest = "/dst".to_string();
    let plan = copy_sources(&sources, &dest, true, false);
    assert_eq!(plan.len(), 2);
    assert!(matches!(&plan[0], FsStep::Copy { from, to } if from == "/src/a" && to == "/dst/a"));
    let plan = move_sources(&sources, &dest, true, true);
    assert_eq!(plan.len(), 4);
    assert!(matches!(&plan[0], FsStep::Clear { path } if path == "/dst/a"));
    assert!(matches!(&plan[1], FsStep::Move { from, to } if from == "/src/a" && to == "/dst/a"));
    let plan = delete_plan(&sources);
    assert!(matches!(&plan[1], FsStep::Remove { path } if path == "/src/b"));
}

fn item(path: &str, is_dir: bool, m: Option<i128>, exists: bool, dm: Option<i128>) -> SyncItem {
    SyncItem { path: path.to_string(), is_dir, modified: m, dst_exists: exists, dst_modified: dm }
}

#[test]
fn sync_takes_missing_and_newer_items_only() {
    let items = vec![
        item("/s/new.txt", false, Some(5), false, None),
        item("/s/stale.txt", false, Some(10), true, Some(4)),
        item("/s/fresh.txt", false, Some(4), true, Some(4)),
        item("/s/newer_dst.txt", false, Some(3), true, Some(9)),
        item("/s/dir", true, Some(1), false, None),
        item("/s/known_dir", true, Some(1), true, Some(0)),
    ];
    let plan = sync_plan(&items);
    assert_eq!(plan, s(&["/s/new.txt", "/s/stale.txt", "/s/dir"]));
    assert_eq!(sync_plan(&items), plan);
}

#[test]
fn sync_copies_a_missing_directory_whole() {
    let items = vec![
        item("/s/dir", true, Some(1), false, None),
        item("/s/dir/inner.txt", false, Some(1), false, None),
        item("/s/dir/sub", true, Some(1), false, None),
        item("/s/dirty.txt", false, Some(1), false, None),
    ];
    assert_eq!(sync_plan(&items), s(&["/s/dir", "/s/dirty.txt"]));
}

#[test]
fn sync_steps_mirror_paths_under_the_destination() {
    let ops = s(&["/s/x/y.txt", "/elsewhere/z"]);
    let steps = sync_execute(&ops, &"/s".to_string(), &"/d".to_string());
    assert!(matches!(&steps[0], FsStep::Copy { from, to } if from == "/s/x/y.txt" && to == "/d/x/y.txt"));
    assert!(matches!(&steps[1], FsStep::Copy { to, .. } if to == "/elsewhere/z"));
    assert_eq!(sync_target(&"/s/a".to_string(), &"/s/".to_string(), &"/d".to_string()), "/d/a");
}

#[test]
fn chmod_input_parses_as_octal_or_falls_back() {
    assert_eq!(parse_chmod_mode("755"), 0o755);
    assert_eq!(parse_chmod_mode("0644"), 0o644);
    assert_eq!(parse_chmod_mode("7777"), 0o777);
    assert_eq!(parse_chmod_mode("+7"), 0o7);
    assert_eq!(parse_chmod_mode("abc"), 0o644);
    assert_eq!(parse_chmod_mode("0"), 0);
    assert_eq!(parse_chmod_mode("000"), 0);
    assert_eq!(parse_chmod_mode("89"), 0o644);
    assert_eq!(parse_chmod_mode("77777777777777"), 0o644);
}

#[test]
fn path_pieces() {
    assert_eq!(file_name("/a/b.txt"), Some("b.txt".to_string()));
    assert_eq!(file_name("/a/b/"), Some("b".to_string()));
    assert_eq!(file_name("/"), None);
    assert_eq!(file_name("/a/.."), None);
    assert_eq!(parent("/a/b"), Some("/a".to_string()));
    assert_eq!(parent("/a"), Some("/".to_string()));
    assert_eq!(parent("a"), Some(String::new()));
    assert_eq!(parent("/"), None);
    assert_eq!(join("/a", "b"), "/a/b");
    assert_eq!(join("/a/", "b"), "/a/b");
    assert_eq!(join("/a", "/abs"), "/abs");
    assert_eq!(join("", "b"), "b");
    assert_eq!(strip_prefix("/a/b/c", "/a"), Some("b/c".to_string()));
    assert_eq!(strip_prefix("/a", "/a/"), Some(String::new()));
    assert_eq!(strip_prefix("/ab", "/a"), None);
    assert_eq!(strip_prefix("/a//b", "/a"), Some("b".to_string()));
}
