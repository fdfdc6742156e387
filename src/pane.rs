//! One side of the screen: its location, listing, cursor and selection,
//! and the moves between locations.
use vstd::prelude::*;
use crate::entry::{views, Entry, EntryView, PanelMode, RefreshMode, SortMode};
use crate::listing::{listed, panelized, read_entries, read_panelized, FileInfo, FileStat};
use crate::order::{is_sorted, stable_arrangement};
use crate::paths::{parent, path_parent};
use crate::text::{contains_text, ends_with, lower_of, lowercase, text_set};
use crate::vfs::{
    archive_collect, child_prefix, parent_prefix, read_zip_entries, zip_child_prefix, zip_directory,
    zip_listable, zip_parent_prefix,
};

verus! {

/// Where a pane is inside an archive: the archive file and the directory
/// prefix within it.
#[derive(Debug, Clone)]
pub struct VfsState {
    pub zip_path: String,
    pub prefix: String,
}

/// What a pane lists: a directory, a directory inside an archive, or a
/// list of found paths.
pub enum Source {
    Directory { dir: String, sort_mode: SortMode, dirs_first: bool },
    Archive { zip_path: String, prefix: String },
    Panelized { paths: Vec<String> },
}

/// What was read for a pane's source: the items of a directory, the bytes
/// of an archive file, or the metadata of each listed path (`None` where it
/// could not be read).
pub enum SourceData {
    Directory(Vec<FileInfo>),
    Archive(Vec<u8>),
    Panelized(Vec<Option<FileStat>>),
}

/// Where a pane is: its directory, and the archive location or result
/// list it shows instead, if any (never both).
#[derive(Debug, Clone)]
pub struct Location {
    pub cwd: String,
    pub vfs: Option<VfsState>,
    pub panelized: Option<Vec<String>>,
}

/// A location as a value.
pub struct LocationView {
    pub cwd: Seq<char>,
    pub vfs: Option<(Seq<char>, Seq<char>)>,
    pub panelized: Option<Seq<String>>,
}

pub open spec fn vfs_view(v: Option<VfsState>) -> Option<(Seq<char>, Seq<char>)> {
    match v {
        Some(s) => Some((s.zip_path@, s.prefix@)),
        None => None,
    }
}

pub open spec fn list_view(v: Option<Vec<String>>) -> Option<Seq<String>> {
    match v {
        Some(l) => Some(l@),
        None => None,
    }
}

impl View for Location {
    type V = LocationView;

    open spec fn view(&self) -> LocationView {
        LocationView { cwd: self.cwd@, vfs: vfs_view(self.vfs), panelized: list_view(self.panelized) }
    }
}

fn clone_vfs(v: &Option<VfsState>) -> (r: Option<VfsState>)
    ensures
        vfs_view(r) == vfs_view(*v),
{
    match v {
        Some(s) => Some(VfsState { zip_path: s.zip_path.clone(), prefix: s.prefix.clone() }),
        None => None,
    }
}

fn clone_list(v: &Option<Vec<String>>) -> (r: Option<Vec<String>>)
    ensures
        list_view(r) == list_view(*v),
{
    match v {
        Some(l) => Some(clone_texts(l)),
        None => None,
    }
}

impl Location {
    /// What is listed at this location: the result list if there is one,
    /// else the archive location if there is one, else the directory.
    pub fn source(&self, sort_mode: SortMode, dirs_first: bool) -> (r: Source)
        ensures
            match self.panelized {
                Some(ps) => (r matches Source::Panelized { paths } && paths@ == ps@),
                None => match self.vfs {
                    Some(v) => (r matches Source::Archive { zip_path, prefix } && zip_path@
                        == v.zip_path@ && prefix@ == v.prefix@),
                    None => (r matches Source::Directory { dir, sort_mode: m, dirs_first: d } && dir@
                        == self.cwd@ && m == sort_mode && d == dirs_first),
                },
            },
    {
        match &self.panelized {
            Some(ps) => Source::Panelized { paths: clone_texts(ps) },
            None => match &self.vfs {
                Some(v) => Source::Archive { zip_path: v.zip_path.clone(), prefix: v.prefix.clone() },
                None => Source::Directory { dir: self.cwd.clone(), sort_mode, dirs_first },
            },
        }
    }
}

/// Whether what was read is for the kind of source at a location (and,
/// for a result list, holds one report per path).
pub open spec fn fits(l: LocationView, data: SourceData) -> bool {
    match l.panelized {
        Some(ps) => (data matches SourceData::Panelized(st) && st.len() == ps.len()),
        None => match l.vfs {
            Some(_) => data is Archive,
            None => data is Directory,
        },
    }
}

/// Whether a listing can be made at a location from what was read: the
/// location is not both in an archive and a result list, the data fits,
/// and an archive can be read.
pub open spec fn listable(l: LocationView, data: SourceData) -> bool {
    &&& !(l.vfs is Some && l.panelized is Some)
    &&& fits(l, data)
    &&& (l.panelized is None && l.vfs is Some ==> (data matches SourceData::Archive(bytes)
        && zip_listable(bytes@)))
}

/// `listing` is `source` sorted stably under a mode.
pub open spec fn arranged_from(
    listing: Seq<Entry>,
    source: Seq<EntryView>,
    mode: SortMode,
    dirs_first: bool,
) -> bool {
    is_sorted(views(listing), mode, dirs_first) && exists|p: Seq<int>|
        stable_arrangement(views(listing), source, p, mode, dirs_first)
}

/// `listing` is what a location's source gives from what was read.
pub open spec fn listing_at(
    l: LocationView,
    sort_mode: SortMode,
    dirs_first: bool,
    data: SourceData,
    show_hidden: bool,
    listing: Seq<Entry>,
) -> bool {
    match l.panelized {
        Some(ps) => (data matches SourceData::Panelized(st) && views(listing) == panelized(ps, st@)),
        None => match l.vfs {
            Some(v) => (data matches SourceData::Archive(bytes) && arranged_from(
                listing,
                archive_collect(zip_directory(bytes@), v.1, show_hidden).0,
                SortMode::NameAsc,
                true,
            )),
            None => (data matches SourceData::Directory(infos) && arranged_from(
                listing,
                listed(infos@, show_hidden),
                sort_mode,
                dirs_first,
            )),
        },
    }
}

/// The location one level up: the parent prefix inside an archive, or the
/// directory that holds the archive at its root; the directory when a
/// result list is shown; otherwise the directory's parent, none at the root.
pub open spec fn parent_location(p: Pane) -> Option<LocationView> {
    match p.vfs {
        Some(v) => Some(
            LocationView {
                cwd: p.cwd@,
                vfs: match parent_prefix(v.prefix@) {
                    Some(q) => Some((v.zip_path@, q)),
                    None => None,
                },
                panelized: None,
            },
        ),
        None => match p.panelized {
            Some(_) => Some(LocationView { cwd: p.cwd@, vfs: None, panelized: None }),
            None => match path_parent(p.cwd@) {
                Some(q) => Some(LocationView { cwd: q, vfs: None, panelized: None }),
                None => None,
            },
        },
    }
}

/// The location that opening the entry under the cursor leads to: a
/// directory below the archive prefix inside an archive, else the
/// directory itself; a `.zip` file (any case) outside an archive at its
/// root; none for anything else.
pub open spec fn enter_location(p: Pane) -> Option<LocationView> {
    match p.cursor {
        None => None,
        Some(c) => {
            let e = p.entries@[c as int];
            if e.is_dir {
                match p.vfs {
                    Some(v) => Some(
                        LocationView {
                            cwd: p.cwd@,
                            vfs: Some((v.zip_path@, child_prefix(v.prefix@, e.path@))),
                            panelized: None,
                        },
                    ),
                    None => Some(LocationView { cwd: e.path@, vfs: None, panelized: None }),
                }
            } else if is_zip_name(e.name@) && p.vfs is None {
                Some(
                    LocationView {
                        cwd: p.cwd@,
                        vfs: Some((e.path@, Seq::empty())),
                        panelized: None,
                    },
                )
            } else {
                None
            }
        },
    }
}

#[derive(Debug)]
pub struct Pane {
    pub cwd: String,
    pub entries: Vec<Entry>,
    pub cursor: Option<usize>,
    pub offset: usize,
    pub selected: Vec<String>,
    pub sort_mode: SortMode,
    pub dirs_first: bool,
    pub vfs: Option<VfsState>,
    pub panelized: Option<Vec<String>>,
    pub mode: PanelMode,
}

/// The paths of a listing, as a set.
pub open spec fn entry_paths(v: Seq<Entry>) -> Set<Seq<char>> {
    Set::new(|t: Seq<char>| exists|k: int| 0 <= k < v.len() && #[trigger] v[k].path@ == t)
}

/// The offset that keeps `index` in a window of `height` rows starting at
/// `offset`, moving it as little as needed.
pub open spec fn visible_offset(index: int, offset: int, height: int) -> int {
    if height == 0 {
        offset
    } else if index < offset {
        index
    } else if index >= offset + height {
        index - height + 1
    } else {
        offset
    }
}

/// The cursor's index, with no cursor counting as the first entry.
pub open spec fn cursor_at(p: Pane) -> int {
    match p.cursor {
        Some(c) => c as int,
        None => 0,
    }
}

pub open spec fn clamp(x: int, lo: int, hi: int) -> int {
    if x < lo {
        lo
    } else if x > hi {
        hi
    } else {
        x
    }
}

/// Scrolls `offset` so that `index` is inside the window of `height` rows.
pub fn ensure_visible(index: usize, offset: usize, height: usize) -> (r: usize)
    ensures
        r as int == visible_offset(index as int, offset as int, height as int),
        height > 0 ==> r <= index < r + height,
{
    if height == 0 {
        offset
    } else if index < offset {
        index
    } else if index - offset >= height {
        index - (height - 1)
    } else {
        offset
    }
}

/// `new` is `old` with `listing` in place: stale selections dropped and
/// the cursor placed by `mode`, the settings kept.
pub open spec fn reconciled(old: Pane, new: Pane, listing: Seq<Entry>, mode: RefreshMode) -> bool {
    &&& new.entries@ == listing
    &&& new.selection() == old.selection().intersect(entry_paths(listing))
    &&& listing.len() == 0 ==> new.cursor is None && new.offset == 0
    &&& listing.len() > 0 && mode == RefreshMode::Reset ==> new.cursor == Some(0usize) && new.offset
        == 0
    &&& listing.len() > 0 && mode == RefreshMode::Keep ==> new.cursor == Some(
        clamp(
            (match old.cursor {
                Some(c) => c as int,
                None => 0,
            }),
            0,
            listing.len() - 1,
        ) as usize,
    ) && new.offset == old.offset
    &&& new.sort_mode == old.sort_mode
    &&& new.dirs_first == old.dirs_first
    &&& new.mode == old.mode
}

/// The sizes of the listed entries whose paths are selected, added up.
pub open spec fn selected_size(entries: Seq<Entry>, sel: Set<Seq<char>>) -> int
    decreases entries.len(),
{
    if entries.len() == 0 {
        0
    } else {
        selected_size(entries.drop_last(), sel) + if sel.contains(entries.last().path@) {
            entries.last().size as int
        } else {
            0
        }
    }
}

/// The paths of the listed entries that are selected, in listing order.
pub open spec fn marked_paths(entries: Seq<Entry>, sel: Set<Seq<char>>) -> Seq<Seq<char>>
    decreases entries.len(),
{
    if entries.len() == 0 {
        Seq::empty()
    } else {
        let rest = marked_paths(entries.drop_last(), sel);
        if sel.contains(entries.last().path@) {
            rest.push(entries.last().path@)
        } else {
            rest
        }
    }
}

/// Whether what was read is for the pane's kind of source.
pub open spec fn data_fits(pane: Pane, data: SourceData) -> bool {
    fits(pane.location(), data)
}

/// `listing` is what the pane's source gives from what was read.
pub open spec fn listing_of(pane: Pane, data: SourceData, show_hidden: bool, listing: Seq<Entry>) -> bool {
    listing_at(pane.location(), pane.sort_mode, pane.dirs_first, data, show_hidden, listing)
}

/// The listing at a location from what was read there.
fn listing_for(
    to: &Location,
    data: &SourceData,
    sort_mode: SortMode,
    dirs_first: bool,
    show_hidden: bool,
) -> (r: Result<Vec<Entry>, String>)
    requires
        !(to.vfs is Some && to.panelized is Some),
    ensures
        r is Ok <==> listable(to@, *data),
        r matches Ok(l) ==> listing_at(to@, sort_mode, dirs_first, *data, show_hidden, l@),
{
    match &to.panelized {
        Some(ps) => match data {
            SourceData::Panelized(stats) => {
                if stats.len() != ps.len() {
                    return Err(String::from_str("listing does not match the pane"));
                }
                Ok(read_panelized(ps, stats))
            },
            _ => Err(String::from_str("listing does not match the pane")),
        },
        None => match &to.vfs {
            Some(v) => match data {
                SourceData::Archive(bytes) => {
                    let r = read_zip_entries(bytes, v.prefix.as_str(), show_hidden);
                    if let Ok(l) = &r {
                        proof {
                            let target = archive_collect(zip_directory(bytes@), v.prefix@, show_hidden).0;
                            let p = choose|p: Seq<int>|
                                stable_arrangement(views(l@), target, p, SortMode::NameAsc, true);
                            assert(stable_arrangement(views(l@), target, p, SortMode::NameAsc, true));
                            assert(arranged_from(l@, target, SortMode::NameAsc, true));
                        }
                    }
                    r
                },
                _ => Err(String::from_str("listing does not match the pane")),
            },
            None => match data {
                SourceData::Directory(infos) => {
                    let l = read_entries(infos, sort_mode, dirs_first, show_hidden);
                    assert(arranged_from(l@, listed(infos@, show_hidden), sort_mode, dirs_first));
                    Ok(l)
                },
                _ => Err(String::from_str("listing does not match the pane")),
            },
        },
    }
}

impl Pane {
    /// Every selected path is listed, the cursor is on an entry, and the
    /// pane is not both inside an archive and showing a result list.
    pub open spec fn wf(&self) -> bool {
        &&& text_set(self.selected@).subset_of(entry_paths(self.entries@))
        &&& (self.cursor matches Some(c) ==> c < self.entries.len())
        &&& !(self.vfs is Some && self.panelized is Some)
    }

    /// Where the pane is, as a value.
    pub open spec fn location(&self) -> LocationView {
        LocationView { cwd: self.cwd@, vfs: vfs_view(self.vfs), panelized: list_view(self.panelized) }
    }

    /// Where the pane is.
    pub fn here(&self) -> (r: Location)
        ensures
            r@ == self.location(),
    {
        Location { cwd: self.cwd.clone(), vfs: clone_vfs(&self.vfs), panelized: clone_list(&self.panelized) }
    }

    /// The selected paths, as a set.
    pub open spec fn selection(&self) -> Set<Seq<char>> {
        text_set(self.selected@)
    }

    /// A pane at `cwd`, not yet listed, sorted by name with directories first.
    pub fn new(cwd: String) -> (r: Pane)
        ensures
            r.wf(),
            r.cwd == cwd,
            r.entries@.len() == 0,
            r.cursor is None,
            r.offset == 0,
            r.selected@.len() == 0,
            r.sort_mode == SortMode::NameAsc,
            r.dirs_first,
            r.vfs is None,
            r.panelized is None,
            r.mode == PanelMode::Full,
    {
        let r = Pane {
            cwd,
            entries: Vec::new(),
            cursor: None,
            offset: 0,
            selected: Vec::new(),
            sort_mode: SortMode::NameAsc,
            dirs_first: true,
            vfs: None,
            panelized: None,
            mode: PanelMode::Full,
        };
        proof {
            assert(text_set(r.selected@) =~= Set::empty());
        }
        r
    }

    /// What the pane lists now: its result list if it shows one, else its
    /// archive location if inside one, else its directory.
    pub fn source(&self) -> (r: Source)
        ensures
            match self.panelized {
                Some(ps) => (r matches Source::Panelized { paths } && paths@ == ps@),
                None => match self.vfs {
                    Some(v) => (r matches Source::Archive { zip_path, prefix } && zip_path@
                        == v.zip_path@ && prefix@ == v.prefix@),
                    None => (r matches Source::Directory { dir, sort_mode, dirs_first } && dir@
                        == self.cwd@ && sort_mode == self.sort_mode && dirs_first
                        == self.dirs_first),
                },
            },
    {
        match &self.panelized {
            Some(ps) => Source::Panelized { paths: clone_texts(ps) },
            None => match &self.vfs {
                Some(v) => Source::Archive { zip_path: v.zip_path.clone(), prefix: v.prefix.clone() },
                None => Source::Directory {
                    dir: self.cwd.clone(),
                    sort_mode: self.sort_mode,
                    dirs_first: self.dirs_first,
                },
            },
        }
    }

    /// Replaces the listing and reconciles the rest with it: selected paths
    /// that are no longer listed are dropped; the cursor goes to the first
    /// entry (`Reset`) or stays where it was, clamped to the new length
    /// (`Keep`); an empty listing has no cursor.
    pub fn apply_listing(&mut self, listing: Vec<Entry>, mode: RefreshMode)
        requires
            old(self).wf(),
        ensures
            final(self).wf(),
            reconciled(*old(self), *final(self), listing@, mode),
            final(self).cwd == old(self).cwd,
            final(self).vfs == old(self).vfs,
            final(self).panelized == old(self).panelized,
    {
        let mut kept: Vec<String> = Vec::new();
        let mut i: usize = 0;
        while i < self.selected.len()
            invariant
                i <= self.selected.len(),
                text_set(kept@) == text_set(self.selected@.subrange(0, i as int)).intersect(
                    entry_paths(listing@),
                ),
            decreases self.selected.len() - i,
        {
            let listed_here = listing_has_path(&listing, &self.selected[i]);
            let ghost before = kept@;
            if listed_here {
                kept.push(self.selected[i].clone());
            }
            proof {
                assert(text_set(self.selected@.subrange(0, i + 1)) == text_set(
                    self.selected@.subrange(0, i as int),
                ).insert(self.selected@[i as int]@)) by {
                    lemma_text_set_push(self.selected@.subrange(0, i as int), self.selected@[i as int]);
                    assert(self.selected@.subrange(0, i + 1) == self.selected@.subrange(0, i as int).push(self.selected@[i as int]));
                }
                if listed_here {
                    lemma_text_set_push(before, self.selected@[i as int]);
                    assert(kept@ == before.push(self.selected@[i as int]));
                }
                assert(text_set(kept@) =~= text_set(self.selected@.subrange(0, i + 1)).intersect(
                    entry_paths(listing@),
                ));
            }
            i = i + 1;
        }
        proof {
            assert(self.selected@.subrange(0, self.selected.len() as int) == self.selected@);
        }
        let n = listing.len();
        self.entries = listing;
        self.selected = kept;
        if n == 0 {
            self.cursor = None;
            self.offset = 0;
            return;
        }
        match mode {
            RefreshMode::Reset => {
                self.cursor = Some(0);
                self.offset = 0;
            },
            RefreshMode::Keep => {
                let current = match self.cursor {
                    Some(c) => c,
                    None => 0,
                };
                self.cursor = Some(if current < n - 1 { current } else { n - 1 });
            },
        }
    }

    /// The entry under the cursor.
    pub fn selected_entry(&self) -> (r: Option<&Entry>)
        requires
            self.wf(),
        ensures
            self.cursor matches Some(c) ==> r == Some(&self.entries@[c as int]),
            self.cursor is None ==> r is None,
    {
        match self.cursor {
            Some(c) => Some(&self.entries[c]),
            None => None,
        }
    }

    /// Moves the cursor by `delta`, clamped to the listing, and scrolls so
    /// that it stays inside a window of `view_height` rows. On an empty
    /// listing there is no cursor.
    pub fn move_selection(&mut self, delta: i32, view_height: usize)
        requires
            old(self).wf(),
        ensures
            final(self).wf(),
            old(self).entries@.len() == 0 ==> final(self).cursor is None && final(self).offset
                == 0,
            old(self).entries@.len() > 0 ==> {
                let from = match old(self).cursor {
                    Some(c) => c as int,
                    None => 0,
                };
                let to = clamp(from + delta, 0, old(self).entries@.len() - 1);
                final(self).cursor == Some(to as usize) && final(self).offset as int
                    == visible_offset(to, old(self).offset as int, view_height as int)
            },
            final(self).entries == old(self).entries,
            final(self).selected == old(self).selected,
            final(self).cwd == old(self).cwd,
            final(self).vfs == old(self).vfs,
            final(self).panelized == old(self).panelized,
            final(self).sort_mode == old(self).sort_mode,
            final(self).dirs_first == old(self).dirs_first,
            final(self).mode == old(self).mode,
    {
        let n = self.entries.len();
        if n == 0 {
            self.cursor = None;
            self.offset = 0;
            return;
        }
        let current: i128 = match self.cursor {
            Some(c) => c as i128,
            None => 0,
        };
        let target = current + delta as i128;
        let next: usize = if target < 0 {
            0
        } else if target > (n - 1) as i128 {
            n - 1
        } else {
            target as usize
        };
        self.cursor = Some(next);
        self.offset = ensure_visible(next, self.offset, view_height);
    }

    /// The location one level up (`parent_location`); the pane goes there
    /// with `move_to` once it is listed.
    pub fn go_parent(&self) -> (r: Option<Location>)
        requires
            self.wf(),
        ensures
            r matches Some(l) ==> parent_location(*self) == Some(l@) && !(l.vfs is Some
                && l.panelized is Some),
            r is None ==> parent_location(*self) is None,
    {
        if let Some(v) = &self.vfs {
            let vfs = match zip_parent_prefix(v.prefix.as_str()) {
                Some(q) => Some(VfsState { zip_path: v.zip_path.clone(), prefix: q }),
                None => None,
            };
            return Some(Location { cwd: self.cwd.clone(), vfs, panelized: None });
        }
        if self.panelized.is_some() {
            return Some(Location { cwd: self.cwd.clone(), vfs: None, panelized: None });
        }
        match parent(self.cwd.as_str()) {
            Some(q) => Some(Location { cwd: q, vfs: None, panelized: None }),
            None => None,
        }
    }

    /// The location that opening the entry under the cursor leads to
    /// (`enter_location`); the pane goes there with `move_to` once it is
    /// listed. `None` when the entry opens no location, and the caller may
    /// view it instead.
    pub fn enter_selected(&self) -> (r: Option<Location>)
        requires
            self.wf(),
        ensures
            r matches Some(l) ==> enter_location(*self) == Some(l@) && !(l.vfs is Some
                && l.panelized is Some),
            r is None ==> enter_location(*self) is None,
    {
        let c = match self.cursor {
            Some(c) => c,
            None => {
                return None;
            },
        };
        let path = self.entries[c].path.clone();
        if self.entries[c].is_dir {
            return match &self.vfs {
                Some(v) => {
                    let prefix = zip_child_prefix(v.prefix.as_str(), path.as_str());
                    Some(
                        Location {
                            cwd: self.cwd.clone(),
                            vfs: Some(VfsState { zip_path: v.zip_path.clone(), prefix }),
                            panelized: None,
                        },
                    )
                },
                None => Some(Location { cwd: path, vfs: None, panelized: None }),
            };
        }
        let lower = lowercase(self.entries[c].name.as_str());
        proof {
            reveal_strlit(".zip");
        }
        if ends_with(lower.as_str(), ".zip") && self.vfs.is_none() {
            let empty = String::new();
            return Some(
                Location {
                    cwd: self.cwd.clone(),
                    vfs: Some(VfsState { zip_path: path, prefix: empty }),
                    panelized: None,
                },
            );
        }
        None
    }

    /// Goes to a location together with its listing, made from what was
    /// read there, and reconciles the selection and cursor as
    /// `apply_listing` does. When no listing can be made (`listable`), the
    /// pane keeps its last good state and the error is returned.
    pub fn move_to(
        &mut self,
        to: Location,
        data: SourceData,
        mode: RefreshMode,
        show_hidden: bool,
    ) -> (r: Result<(), String>)
        requires
            old(self).wf(),
        ensures
            final(self).wf(),
            r is Ok <==> listable(to@, data),
            r is Err ==> *final(self) == *old(self),
            r is Ok ==> final(self).location() == to@ && reconciled(
                *old(self),
                *final(self),
                final(self).entries@,
                mode,
            ) && listing_of(*final(self), data, show_hidden, final(self).entries@),
            r is Ok ==> final(self).selection().subset_of(entry_paths(final(self).entries@)),
    {
        if to.vfs.is_some() && to.panelized.is_some() {
            return Err(String::from_str("a pane cannot be in an archive and a result list"));
        }
        let listing = match listing_for(&to, &data, self.sort_mode, self.dirs_first, show_hidden) {
            Ok(l) => l,
            Err(e) => {
                return Err(e);
            },
        };
        self.cwd = to.cwd;
        self.vfs = to.vfs;
        self.panelized = to.panelized;
        self.apply_listing(listing, mode);
        Ok(())
    }

    /// Lists the pane's source again from what was read of it, then
    /// reconciles the selection and cursor as `apply_listing` does. When no
    /// listing can be made, the pane is left as it was and the error is
    /// returned.
    pub fn refresh(&mut self, data: SourceData, mode: RefreshMode, show_hidden: bool) -> (r: Result<(), String>)
        requires
            old(self).wf(),
        ensures
            final(self).wf(),
            r is Ok <==> listable(old(self).location(), data),
            r is Err ==> *final(self) == *old(self),
            r is Ok ==> final(self).location() == old(self).location() && reconciled(
                *old(self),
                *final(self),
                final(self).entries@,
                mode,
            ) && listing_of(*old(self), data, show_hidden, final(self).entries@),
            r is Ok ==> final(self).selection().subset_of(entry_paths(final(self).entries@)),
    {
        let here = self.here();
        self.move_to(here, data, mode, show_hidden)
    }

    /// Selects the path under the cursor, or unselects it if it was selected.
    pub fn toggle_select(&mut self)
        requires
            old(self).wf(),
        ensures
            final(self).wf(),
            old(self).cursor is None ==> final(self).selection() == old(self).selection(),
            old(self).cursor matches Some(c) ==> {
                let p = old(self).entries@[c as int].path@;
                final(self).selection() == if old(self).selection().contains(p) {
                    old(self).selection().remove(p)
                } else {
                    old(self).selection().insert(p)
                }
            },
            final(self).entries == old(self).entries,
            final(self).cursor == old(self).cursor,
            final(self).offset == old(self).offset,
            final(self).cwd == old(self).cwd,
            final(self).vfs == old(self).vfs,
            final(self).panelized == old(self).panelized,
    {
        let c = match self.cursor {
            Some(c) => c,
            None => {
                return;
            },
        };
        let p = self.entries[c].path.clone();
        let mut rest: Vec<String> = Vec::new();
        let mut found = false;
        let mut i: usize = 0;
        while i < self.selected.len()
            invariant
                i <= self.selected.len(),
                text_set(rest@) == text_set(self.selected@.subrange(0, i as int)).remove(p@),
                found == text_set(self.selected@.subrange(0, i as int)).contains(p@),
            decreases self.selected.len() - i,
        {
            proof {
                lemma_text_set_push(self.selected@.subrange(0, i as int), self.selected@[i as int]);
                assert(self.selected@.subrange(0, i + 1) == self.selected@.subrange(0, i as int).push(self.selected@[i as int]));
            }
            if self.selected[i] == p {
                found = true;
            } else {
                let ghost before = rest@;
                rest.push(self.selected[i].clone());
                proof {
                    lemma_text_set_push(before, self.selected@[i as int]);
                    assert(rest@ == before.push(self.selected@[i as int]));
                }
            }
            proof {
                assert(text_set(rest@) =~= text_set(self.selected@.subrange(0, i + 1)).remove(p@));
            }
            i = i + 1;
        }
        proof {
            assert(self.selected@.subrange(0, self.selected.len() as int) == self.selected@);
            assert(entry_paths(self.entries@).contains(p@)) by {
                assert(self.entries@[c as int].path@ == p@);
            }
        }
        if !found {
            let ghost before = rest@;
            rest.push(p);
            proof {
                lemma_text_set_push(before, p);
                assert(text_set(rest@) =~= self.selection().insert(p@));
            }
        } else {
            proof {
                assert(text_set(rest@) =~= self.selection().remove(p@));
            }
        }
        self.selected = rest;
    }

    /// Selects every listed path.
    pub fn select_all(&mut self)
        requires
            old(self).wf(),
        ensures
            final(self).wf(),
            final(self).selection() == entry_paths(old(self).entries@),
            final(self).entries == old(self).entries,
            final(self).cursor == old(self).cursor,
            final(self).offset == old(self).offset,
            final(self).cwd == old(self).cwd,
            final(self).vfs == old(self).vfs,
            final(self).panelized == old(self).panelized,
    {
        let mut all: Vec<String> = Vec::new();
        let mut i: usize = 0;
        while i < self.entries.len()
            invariant
                i <= self.entries.len(),
                text_set(all@) == entry_paths(self.entries@.subrange(0, i as int)),
            decreases self.entries.len() - i,
        {
            let ghost before = all@;
            all.push(self.entries[i].path.clone());
            proof {
                lemma_text_set_push(before, self.entries@[i as int].path);
                lemma_entry_paths_push(self.entries@.subrange(0, i as int), self.entries@[i as int]);
                assert(self.entries@.subrange(0, i + 1) == self.entries@.subrange(0, i as int).push(self.entries@[i as int]));
            }
            i = i + 1;
        }
        proof {
            assert(self.entries@.subrange(0, self.entries.len() as int) == self.entries@);
        }
        self.selected = all;
    }

    /// Selects nothing.
    pub fn clear_selection(&mut self)
        requires
            old(self).wf(),
        ensures
            final(self).wf(),
            final(self).selection() == Set::<Seq<char>>::empty(),
            final(self).entries == old(self).entries,
            final(self).cursor == old(self).cursor,
            final(self).offset == old(self).offset,
            final(self).cwd == old(self).cwd,
            final(self).vfs == old(self).vfs,
            final(self).panelized == old(self).panelized,
    {
        self.selected = Vec::new();
        proof {
            assert(text_set(self.selected@) =~= Set::empty());
        }
    }

    /// Selects exactly the listed paths that were not selected.
    pub fn invert_selection(&mut self)
        requires
            old(self).wf(),
        ensures
            final(self).wf(),
            final(self).selection() == entry_paths(old(self).entries@).difference(
                old(self).selection(),
            ),
            final(self).entries == old(self).entries,
            final(self).cursor == old(self).cursor,
            final(self).offset == old(self).offset,
            final(self).cwd == old(self).cwd,
            final(self).vfs == old(self).vfs,
            final(self).panelized == old(self).panelized,
    {
        let mut next: Vec<String> = Vec::new();
        let mut i: usize = 0;
        while i < self.entries.len()
            invariant
                i <= self.entries.len(),
                text_set(next@) == entry_paths(self.entries@.subrange(0, i as int)).difference(
                    self.selection(),
                ),
            decreases self.entries.len() - i,
        {
            let ghost before = next@;
            proof {
                lemma_entry_paths_push(self.entries@.subrange(0, i as int), self.entries@[i as int]);
                assert(self.entries@.subrange(0, i + 1) == self.entries@.subrange(0, i as int).push(self.entries@[i as int]));
            }
            if !contains_text(&self.selected, &self.entries[i].path) {
                next.push(self.entries[i].path.clone());
                proof {
                    lemma_text_set_push(before, self.entries@[i as int].path);
                }
            }
            proof {
                assert(text_set(next@) =~= entry_paths(self.entries@.subrange(0, i + 1)).difference(
                    self.selection(),
                ));
            }
            i = i + 1;
        }
        proof {
            assert(self.entries@.subrange(0, self.entries.len() as int) == self.entries@);
        }
        self.selected = next;
    }

    /// The total size of the selected entries, saturating at `u64::MAX`.
    pub fn selected_total_size(&self) -> (r: u64)
        ensures
            r as int == if selected_size(self.entries@, self.selection()) > u64::MAX as int {
                u64::MAX as int
            } else {
                selected_size(self.entries@, self.selection())
            },
    {
        let mut total: u64 = 0;
        let mut i: usize = 0;
        while i < self.entries.len()
            invariant
                i <= self.entries.len(),
                total as int == if selected_size(self.entries@.subrange(0, i as int), self.selection())
                    > u64::MAX as int {
                    u64::MAX as int
                } else {
                    selected_size(self.entries@.subrange(0, i as int), self.selection())
                },
            decreases self.entries.len() - i,
        {
            proof {
                assert(self.entries@.subrange(0, i + 1).drop_last() == self.entries@.subrange(0, i as int));
                lemma_selected_size_nonneg(self.entries@.subrange(0, i as int), self.selection());
            }
            if contains_text(&self.selected, &self.entries[i].path) {
                total = total.saturating_add(self.entries[i].size);
            }
            i = i + 1;
        }
        proof {
            assert(self.entries@.subrange(0, self.entries.len() as int) == self.entries@);
        }
        total
    }
}

/// A name that opens as an archive: it ends in `.zip`, in any case.
pub open spec fn is_zip_name(name: Seq<char>) -> bool {
    let l = lower_of(name);
    l.len() >= 4 && l.subrange(l.len() - 4, l.len() as int) == ".zip"@
}

proof fn lemma_text_set_push(v: Seq<String>, s: String)
    ensures
        text_set(v.push(s)) == text_set(v).insert(s@),
{
    let w = v.push(s);
    assert forall|t: Seq<char>| text_set(w).contains(t) implies text_set(v).insert(s@).contains(t) by {
        let k = choose|k: int| 0 <= k < w.len() && #[trigger] w[k]@ == t;
        if k < v.len() {
            assert(v[k]@ == t);
        }
    }
    assert forall|t: Seq<char>| text_set(v).insert(s@).contains(t) implies text_set(w).contains(t) by {
        if t == s@ {
            assert(w[v.len() as int]@ == t);
        } else {
            let k = choose|k: int| 0 <= k < v.len() && #[trigger] v[k]@ == t;
            assert(w[k]@ == t);
        }
    }
    assert(text_set(w) =~= text_set(v).insert(s@));
}

proof fn lemma_entry_paths_push(v: Seq<Entry>, e: Entry)
    ensures
        entry_paths(v.push(e)) == entry_paths(v).insert(e.path@),
{
    let w = v.push(e);
    assert forall|t: Seq<char>| entry_paths(w).contains(t) implies entry_paths(v).insert(e.path@).contains(t) by {
        let k = choose|k: int| 0 <= k < w.len() && #[trigger] w[k].path@ == t;
        if k < v.len() {
            assert(v[k].path@ == t);
        }
    }
    assert forall|t: Seq<char>| entry_paths(v).insert(e.path@).contains(t) implies entry_paths(w).contains(t) by {
        if t == e.path@ {
            assert(w[v.len() as int].path@ == t);
        } else {
            let k = choose|k: int| 0 <= k < v.len() && #[trigger] v[k].path@ == t;
            assert(w[k].path@ == t);
        }
    }
    assert(entry_paths(w) =~= entry_paths(v).insert(e.path@));
}

proof fn lemma_selected_size_nonneg(v: Seq<Entry>, sel: Set<Seq<char>>)
    ensures
        selected_size(v, sel) >= 0,
    decreases v.len(),
{
    if v.len() > 0 {
        lemma_selected_size_nonneg(v.drop_last(), sel);
    }
}

/// The paths an operation acts on: the selected ones in listing order, or
/// the one under the cursor when nothing is selected.
/// The paths an operation acts on: the selected ones in listing order, or
/// the one under the cursor when nothing is selected.
pub open spec fn selection_paths(p: Pane) -> Seq<Seq<char>> {
    if p.selected@.len() == 0 {
        match p.cursor {
            Some(c) => seq![p.entries@[c as int].path@],
            None => Seq::empty(),
        }
    } else {
        marked_paths(p.entries@, p.selection())
    }
}

pub fn selected_paths(pane: &Pane) -> (r: Vec<String>)
    requires
        pane.wf(),
    ensures
        r@.map_values(|s: String| s@) == selection_paths(*pane),
        pane.selected@.len() == 0 ==> (match pane.cursor {
            Some(c) => r@.len() == 1 && r@[0]@ == pane.entries@[c as int].path@,
            None => r@.len() == 0,
        }),
        pane.selected@.len() > 0 ==> r@.map_values(|s: String| s@) == marked_paths(
            pane.entries@,
            pane.selection(),
        ),
{
    if pane.selected.len() == 0 {
        let mut r: Vec<String> = Vec::new();
        if let Some(c) = pane.cursor {
            r.push(pane.entries[c].path.clone());
        }
        assert(r@.map_values(|s: String| s@) =~= selection_paths(*pane));
        return r;
    }
    let mut r: Vec<String> = Vec::new();
    let mut i: usize = 0;
    while i < pane.entries.len()
        invariant
            i <= pane.entries.len(),
            r@.map_values(|s: String| s@) == marked_paths(pane.entries@.subrange(0, i as int), pane.selection()),
        decreases pane.entries.len() - i,
    {
        proof {
            assert(pane.entries@.subrange(0, i + 1).drop_last() == pane.entries@.subrange(0, i as int));
        }
        if contains_text(&pane.selected, &pane.entries[i].path) {
            let ghost before = r@;
            r.push(pane.entries[i].path.clone());
            proof {
                assert(r@.map_values(|s: String| s@) =~= before.map_values(|s: String| s@).push(pane.entries@[i as int].path@));
            }
        }
        i = i + 1;
    }
    proof {
        assert(pane.entries@.subrange(0, pane.entries.len() as int) == pane.entries@);
    }
    r
}

fn listing_has_path(listing: &Vec<Entry>, p: &String) -> (r: bool)
    ensures
        r == entry_paths(listing@).contains(p@),
{
    let mut i: usize = 0;
    while i < listing.len()
        invariant
            i <= listing.len(),
            forall|k: int| 0 <= k < i ==> #[trigger] listing@[k].path@ != p@,
        decreases listing.len() - i,
    {
        if listing[i].path == *p {
            proof {
                assert(listing@[i as int].path@ == p@);
            }
            return true;
        }
        i = i + 1;
    }
    false
}

/// A copy of a vector of texts.
pub fn clone_texts(v: &Vec<String>) -> (r: Vec<String>)
    ensures
        r@ == v@,
{
    let mut r: Vec<String> = Vec::new();
    let mut i: usize = 0;
    while i < v.len()
        invariant
            i <= v.len(),
            r@ == v@.subrange(0, i as int),
        decreases v.len() - i,
    {
        r.push(v[i].clone());
        i = i + 1;
    }
    assert(r@ == v@);
    r
}

} // verus!
