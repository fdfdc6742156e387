//! Listings built from what was read of a directory or a result list.
use vstd::prelude::*;
use crate::entry::{is_dot_name, starts_with_dot, views, Entry, EntryView, SortMode};
use crate::order::{is_sorted, sort_entries, stable_arrangement};
use crate::paths::{file_name, path_file_name};

verus! {

/// What a directory read reports of one item.
#[derive(Debug, Clone)]
pub struct FileInfo {
    pub name: String,
    pub path: String,
    pub is_dir: bool,
    pub size: u64,
    pub modified: Option<i128>,
}

/// What a metadata query reports of one path.
#[derive(Debug, Clone, Copy, PartialEq, Eq, Structural)]
pub struct FileStat {
    pub is_dir: bool,
    pub size: u64,
    pub modified: Option<i128>,
}

pub open spec fn info_entry(i: FileInfo) -> EntryView {
    EntryView {
        name: i.name@,
        path: i.path@,
        is_dir: i.is_dir,
        size: i.size,
        modified: i.modified,
        is_system: is_dot_name(i.name@),
    }
}

/// The entries of a directory read, in the order read, without dot names
/// unless hidden names are shown.
pub open spec fn listed(infos: Seq<FileInfo>, show_hidden: bool) -> Seq<EntryView>
    decreases infos.len(),
{
    if infos.len() == 0 {
        Seq::empty()
    } else {
        let rest = listed(infos.drop_last(), show_hidden);
        let i = infos.last();
        if !show_hidden && is_dot_name(i.name@) {
            rest
        } else {
            rest.push(info_entry(i))
        }
    }
}

/// The listing of a directory: its visible items, sorted stably under the
/// pane's mode and `dirs_first`.
pub fn read_entries(
    infos: &Vec<FileInfo>,
    sort_mode: SortMode,
    dirs_first: bool,
    show_hidden: bool,
) -> (r: Vec<Entry>)
    ensures
        is_sorted(views(r@), sort_mode, dirs_first),
        exists|p: Seq<int>|
            stable_arrangement(views(r@), listed(infos@, show_hidden), p, sort_mode, dirs_first),
{
    let mut v: Vec<Entry> = Vec::new();
    let mut i: usize = 0;
    while i < infos.len()
        invariant
            i <= infos.len(),
            views(v@) == listed(infos@.subrange(0, i as int), show_hidden),
        decreases infos.len() - i,
    {
        let info = &infos[i];
        let hidden = starts_with_dot(info.name.as_str());
        let ghost before = v@;
        if show_hidden || !hidden {
            let is_system = hidden;
            v.push(
                Entry {
                    name: info.name.clone(),
                    path: info.path.clone(),
                    is_dir: info.is_dir,
                    size: info.size,
                    modified: info.modified,
                    is_system,
                },
            );
            proof {
                assert(views(v@) == views(before).push(info_entry(infos@[i as int])));
            }
        }
        proof {
            assert(infos@.subrange(0, i + 1).drop_last() == infos@.subrange(0, i as int));
        }
        i = i + 1;
    }
    proof {
        assert(infos@.subrange(0, infos.len() as int) == infos@);
    }
    sort_entries(&v, sort_mode, dirs_first)
}

/// The name shown for a path of a result list: its file name, or empty.
pub open spec fn shown_name(p: Seq<char>) -> Seq<char> {
    match path_file_name(p) {
        Some(n) => n,
        None => Seq::empty(),
    }
}

/// The entries of a result list: each path whose metadata could be read,
/// in list order, named by its file name.
pub open spec fn panelized(paths: Seq<String>, stats: Seq<Option<FileStat>>) -> Seq<EntryView>
    decreases paths.len(),
{
    if paths.len() == 0 || stats.len() != paths.len() {
        Seq::empty()
    } else {
        let rest = panelized(paths.drop_last(), stats.drop_last());
        match stats.last() {
            None => rest,
            Some(st) => rest.push(
                EntryView {
                    name: shown_name(paths.last()@),
                    path: paths.last()@,
                    is_dir: st.is_dir,
                    size: st.size,
                    modified: st.modified,
                    is_system: is_dot_name(shown_name(paths.last()@)),
                },
            ),
        }
    }
}

/// The listing of a result list, given the metadata read for each path
/// (`None` where it could not be read).
pub fn read_panelized(paths: &Vec<String>, stats: &Vec<Option<FileStat>>) -> (r: Vec<Entry>)
    requires
        paths.len() == stats.len(),
    ensures
        views(r@) == panelized(paths@, stats@),
{
    let mut v: Vec<Entry> = Vec::new();
    let mut i: usize = 0;
    while i < paths.len()
        invariant
            i <= paths.len(),
            paths.len() == stats.len(),
            views(v@) == panelized(paths@.subrange(0, i as int), stats@.subrange(0, i as int)),
        decreases paths.len() - i,
    {
        let ghost before = v@;
        proof {
            assert(paths@.subrange(0, i + 1).drop_last() == paths@.subrange(0, i as int));
            assert(stats@.subrange(0, i + 1).drop_last() == stats@.subrange(0, i as int));
        }
        match stats[i] {
            None => {},
            Some(st) => {
                let name = match file_name(paths[i].as_str()) {
                    Some(n) => n,
                    None => String::new(),
                };
                let is_system = starts_with_dot(name.as_str());
                v.push(
                    Entry {
                        name,
                        path: paths[i].clone(),
                        is_dir: st.is_dir,
                        size: st.size,
                        modified: st.modified,
                        is_system,
                    },
                );
                proof {
                    assert(views(v@) == views(before).push(v@.last()@));
                }
            },
        }
        i = i + 1;
    }
    proof {
        assert(paths@.subrange(0, paths.len() as int) == paths@);
        assert(stats@.subrange(0, stats.len() as int) == stats@);
    }
    v
}

/// Whether a name found while searching is a match: it is shown (dot
/// names only with hidden names), and the query occurs in it, both folded
/// to lower case.
pub fn name_matches(name: &str, query: &str, show_hidden: bool) -> (r: bool)
    ensures
        r == ((show_hidden || !is_dot_name(name@)) && crate::text::occurs_in(
            crate::text::lower_of(name@),
            crate::text::lower_of(query@),
        )),
{
    if !show_hidden && starts_with_dot(name) {
        return false;
    }
    let n = crate::text::lowercase(name);
    let q = crate::text::lowercase(query);
    crate::text::contains_str(n.as_str(), q.as_str())
}

} // verus!
