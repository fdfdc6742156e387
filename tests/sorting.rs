use frankencommander::entry::{
    sort_indicator, sort_label, toggle_ext_sort, toggle_name_sort, toggle_size_sort,
    toggle_time_sort, Entry, SortMode,
};
use frankencommander::listing::{name_matches, read_entries, FileInfo};
use frankencommander::order::{cmp_ext, cmp_name, cmp_size, cmp_time, sort_entries};
use std::cmp::Ordering;

fn entry(name: &str, is_dir: bool, size: u64, modified: Option<i128>) -> Entry {
    Entry {
        name: name.to_string(),
        path: format!("/d/{}", name),
        is_dir,
        size,
        modified,
        is_system: name.starts_with('.'),
    }
}

fn names(v: &[Entry]) -> Vec<String> {
    v.iter().map(|e| e.name.clone()).collect()
}

fn sample() -> Vec<Entry> {
    vec![
        entry("zeta.txt", false, 30, Some(3)),
        entry("Alpha.rs", false, 10, Some(5)),
        entry("docs", true, 0, Some(1)),
        entry("beta.TXT", false, 20, None),
        entry("Archive", true, 0, Some(9)),
    ]
}

#[test]
fn name_toggle_flips_and_returns() {
    assert_eq!(toggle_name_sort(SortMode::NameAsc), SortMode::NameDesc);
    assert_eq!(toggle_name_sort(toggle_name_sort(SortMode::NameAsc)), SortMode::NameAsc);
    assert_eq!(toggle_name_sort(SortMode::SizeAsc), SortMode::NameAsc);
}

#[test]
fn other_axis_toggles_land_on_default() {
    assert_eq!(toggle_ext_sort(SortMode::TimeDesc), SortMode::ExtAsc);
    assert_eq!(toggle_ext_sort(SortMode::ExtAsc), SortMode::ExtDesc);
    assert_eq!(toggle_time_sort(SortMode::NameAsc), SortMode::TimeDesc);
    assert_eq!(toggle_time_sort(SortMode::TimeDesc), SortMode::TimeAsc);
    assert_eq!(toggle_size_sort(SortMode::Unsorted), SortMode::SizeDesc);
    assert_eq!(toggle_size_sort(toggle_size_sort(SortMode::SizeAsc)), SortMode::SizeAsc);
}

#[test]
fn labels_and_indicators() {
    assert_eq!(sort_label(SortMode::NameAsc), "Name ↑");
    assert_eq!(sort_label(SortMode::SizeDesc), "Size ↓");
    assert_eq!(sort_label(SortMode::Unsorted), "Unsorted");
    assert_eq!(sort_indicator(SortMode::ExtAsc), "↑");
    assert_eq!(sort_indicator(SortMode::TimeDesc), "↓");
    assert_eq!(sort_indicator(SortMode::Unsorted), "");
}

#[test]
fn name_sort_is_case_insensitive_with_dirs_first() {
    let r = sort_entries(&sample(), SortMode::NameAsc, true);
    assert_eq!(names(&r), vec!["Archive", "docs", "Alpha.rs", "beta.TXT", "zeta.txt"]);
}

#[test]
fn sorting_twice_gives_the_same_order() {
    for mode in [
        SortMode::NameAsc,
        SortMode::NameDesc,
        SortMode::ExtAsc,
        SortMode::ExtDesc,
        SortMode::TimeAsc,
        SortMode::TimeDesc,
        SortMode::SizeAsc,
        SortMode::SizeDesc,
        SortMode::Unsorted,
    ] {
        for dirs_first in [true, false] {
            let once = sort_entries(&sample(), mode, dirs_first);
            let twice = sort_entries(&once, mode, dirs_first);
            assert_eq!(names(&once), names(&twice));
        }
    }
}

#[test]
fn dirs_precede_files_under_every_mode() {
    for mode in [SortMode::NameDesc, SortMode::SizeAsc, SortMode::SizeDesc, SortMode::TimeAsc, SortMode::Unsorted] {
        let r = sort_entries(&sample(), mode, true);
        let first_file = r.iter().position(|e| !e.is_dir).unwrap();
        assert!(r[..first_file].iter().all(|e| e.is_dir));
        assert!(r[first_file..].iter().all(|e| !e.is_dir));
    }
}

#[test]
fn size_and_time_orders() {
    let r = sort_entries(&sample(), SortMode::SizeDesc, false);
    assert_eq!(names(&r), vec!["zeta.txt", "beta.TXT", "Alpha.rs", "Archive", "docs"]);
    let r = sort_entries(&sample(), SortMode::TimeAsc, false);
    assert_eq!(names(&r), vec!["beta.TXT", "docs", "zeta.txt", "Alpha.rs", "Archive"]);
}

#[test]
fn extension_order_breaks_ties_by_name() {
    let v = vec![
        entry("b.txt", false, 1, None),
        entry("a.rs", false, 1, None),
        entry("A.TXT", false, 1, None),
    ];
    let r = sort_entries(&v, SortMode::ExtAsc, false);
    assert_eq!(names(&r), vec!["a.rs", "A.TXT", "b.txt"]);
    let r = sort_entries(&v, SortMode::ExtDesc, false);
    assert_eq!(names(&r), vec!["A.TXT", "b.txt", "a.rs"]);
}

#[test]
fn unsorted_keeps_read_order_and_ties_keep_input_order() {
    let r = sort_entries(&sample(), SortMode::Unsorted, false);
    assert_eq!(names(&r), names(&sample()));
    let v = vec![entry("B", false, 1, None), entry("b", false, 2, None)];
    let r = sort_entries(&v, SortMode::NameAsc, false);
    assert_eq!(names(&r), vec!["B", "b"]);
}

#[test]
fn empty_listing_sorts_to_empty() {
    assert!(sort_entries(&Vec::new(), SortMode::NameAsc, true).is_empty());
}

fn info(name: &str, is_dir: bool) -> FileInfo {
    FileInfo { name: name.to_string(), path: format!("/d/{}", name), is_dir, size: 1, modified: None }
}

#[test]
fn read_entries_hides_dot_names_unless_shown() {
    let infos = vec![info(".git", true), info("src", true), info(".env", false), info("main.rs", false)];
    let r = read_entries(&infos, SortMode::NameAsc, true, false);
    assert_eq!(names(&r), vec!["src", "main.rs"]);
    let r = read_entries(&infos, SortMode::NameAsc, true, true);
    assert_eq!(names(&r), vec![".git", "src", ".env", "main.rs"]);
    assert!(r[0].is_system && !r[1].is_system);
}

#[test]
fn single_comparisons() {
    let a = entry("Apple.TXT", false, 5, Some(2));
    let b = entry("banana.rs", false, 9, None);
    assert_eq!(cmp_name(&a, &b), Ordering::Less);
    assert_eq!(cmp_name(&entry("X", false, 0, None), &entry("x", false, 0, None)), Ordering::Equal);
    assert_eq!(cmp_ext(&a, &b), Ordering::Greater);
    assert_eq!(cmp_time(&a, &b), Ordering::Greater);
    assert_eq!(cmp_size(&a, &b), Ordering::Less);
}

#[test]
fn search_names_match_without_regard_to_case() {
    assert!(name_matches("ReadMe.md", "readme", false));
    assert!(name_matches("notes.txt", "", false));
    assert!(!name_matches("notes.txt", "readme", false));
    assert!(!name_matches(".hidden_readme", "readme", false));
    assert!(name_matches(".hidden_readme", "README", true));
}
