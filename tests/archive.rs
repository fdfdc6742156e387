use std::io::Write;

use frankencommander::vfs::{
    list_archive, read_file_lines, read_zip_entries, read_zip_file_lines, split_lines,
    zip_child_prefix, zip_parent_prefix, ArchiveRecord,
};

fn make_zip(files: &[(&str, &[u8])]) -> Vec<u8> {
    let mut w = zip::ZipWriter::new(std::io::Cursor::new(Vec::new()));
    let opts = zip::write::SimpleFileOptions::default()
        .compression_method(zip::CompressionMethod::Stored);
    for (name, data) in files {
        w.start_file(*name, opts).unwrap();
        w.write_all(data).unwrap();
    }
    w.finish().unwrap().into_inner()
}

fn rec(name: &str, size: u64) -> ArchiveRecord {
    ArchiveRecord { name: name.to_string(), size, is_dir: name.ends_with('/') }
}

#[test]
fn child_then_parent_returns_to_the_prefix() {
    let child = zip_child_prefix("", "docs");
    assert_eq!(child, "docs/");
    assert_eq!(zip_parent_prefix(&child), Some(String::new()));
    let deeper = zip_child_prefix("docs/", "img");
    assert_eq!(deeper, "docs/img/");
    assert_eq!(zip_parent_prefix(&deeper), Some("docs/".to_string()));
}

#[test]
fn root_prefix_has_no_parent() {
    assert_eq!(zip_parent_prefix(""), None);
    assert_eq!(zip_parent_prefix("/"), None);
}

#[test]
fn archive_root_lists_one_directory_then_its_file() {
    let records = vec![rec("docs/readme.txt", 42)];
    let root = list_archive(&records, "", false);
    assert_eq!(root.len(), 1);
    assert_eq!(root[0].name, "docs");
    assert!(root[0].is_dir);
    assert_eq!(root[0].size, 0);
    let prefix = zip_child_prefix("", &root[0].path);
    assert_eq!(prefix, "docs/");
    let inner = list_archive(&records, &prefix, false);
    assert_eq!(inner.len(), 1);
    assert_eq!(inner[0].name, "readme.txt");
    assert!(!inner[0].is_dir);
    assert_eq!(inner[0].size, 42);
}

#[test]
fn subdirectories_are_listed_once_and_first() {
    let records = vec![
        rec("b.txt", 1),
        rec("src/", 0),
        rec("src/a.rs", 5),
        rec("src/b.rs", 6),
        rec(".hidden/x", 1),
        rec("A.md", 2),
        rec("other/file", 3),
    ];
    let r = list_archive(&records, "", false);
    let names: Vec<&str> = r.iter().map(|e| e.name.as_str()).collect();
    assert_eq!(names, vec!["other", "src", "A.md", "b.txt"]);
    let r = list_archive(&records, "", true);
    let names: Vec<&str> = r.iter().map(|e| e.name.as_str()).collect();
    assert_eq!(names, vec![".hidden", "other", "src", "A.md", "b.txt"]);
}

#[test]
fn reading_a_real_archive() {
    let data = make_zip(&[("docs/readme.txt", b"hello\r\nworld\n"), ("top.txt", b"x")]);
    let root = read_zip_entries(&data, "", false).unwrap();
    let names: Vec<&str> = root.iter().map(|e| e.name.as_str()).collect();
    assert_eq!(names, vec!["docs", "top.txt"]);
    assert_eq!(root[1].size, 1);
    let inner = read_zip_entries(&data, "docs/", false).unwrap();
    assert_eq!(inner.len(), 1);
    assert_eq!(inner[0].name, "readme.txt");
    assert_eq!(inner[0].size, 13);
    let lines = read_zip_file_lines(&data, "docs/", "readme.txt").unwrap();
    assert_eq!(lines, vec!["hello", "world"]);
}

#[test]
fn broken_archives_and_missing_members_are_errors() {
    assert!(read_zip_entries(&b"not a zip".to_vec(), "", false).is_err());
    let data = make_zip(&[("a.txt", b"a")]);
    assert!(read_zip_file_lines(&data, "", "missing.txt").is_err());
}

#[test]
fn lines_split_like_str_lines() {
    assert_eq!(split_lines("a\r\nb\n"), vec!["a", "b"]);
    assert_eq!(split_lines("a\n\nb"), vec!["a", "", "b"]);
    assert_eq!(split_lines("x\r"), vec!["x\r"]);
    assert!(split_lines("").is_empty());
    assert_eq!(split_lines("\n"), vec![""]);
}

#[test]
fn file_lines_decode_leniently() {
    let lines = read_file_lines(&vec![b'o', b'k', 0xff, b'\n', b'z']);
    assert_eq!(lines, vec!["ok\u{fffd}", "z"]);
}
