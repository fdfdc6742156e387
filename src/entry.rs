//! Listing entries and the sort modes that order them.
use vstd::prelude::*;

verus! {

/// One item of a listing: a directory entry, an archive member, or a
/// path of a result list.
///
/// `modified` is the modification time in nanoseconds relative to the
/// Unix epoch, when known.
#[derive(Debug, Clone)]
pub struct Entry {
    pub name: String,
    pub path: String,
    pub is_dir: bool,
    pub size: u64,
    pub modified: Option<i128>,
    pub is_system: bool,
}

/// An entry as a value: its texts as character sequences.
pub struct EntryView {
    pub name: Seq<char>,
    pub path: Seq<char>,
    pub is_dir: bool,
    pub size: u64,
    pub modified: Option<i128>,
    pub is_system: bool,
}

impl View for Entry {
    type V = EntryView;

    open spec fn view(&self) -> EntryView {
        EntryView {
            name: self.name@,
            path: self.path@,
            is_dir: self.is_dir,
            size: self.size,
            modified: self.modified,
            is_system: self.is_system,
        }
    }
}

/// The views of a sequence of entries.
pub open spec fn views(s: Seq<Entry>) -> Seq<EntryView> {
    s.map_values(|e: Entry| e@)
}

/// Which of the two panes.
#[derive(Debug, Clone, Copy, PartialEq, Eq, Structural)]
pub enum ActivePane {
    Left,
    Right,
}

/// The order of a pane's listing.
#[derive(Debug, Clone, Copy, PartialEq, Eq, Structural)]
pub enum SortMode {
    NameAsc,
    NameDesc,
    ExtAsc,
    ExtDesc,
    TimeAsc,
    TimeDesc,
    SizeAsc,
    SizeDesc,
    Unsorted,
}

/// How a pane presents its listing; it does not change the data.
#[derive(Debug, Clone, Copy, PartialEq, Eq, Structural)]
pub enum PanelMode {
    Brief,
    Full,
    Info,
    Tree,
    QuickView,
}

/// Where the cursor goes after a listing is read again.
#[derive(Debug, Clone, Copy, PartialEq, Eq, Structural)]
pub enum RefreshMode {
    Reset,
    Keep,
}

/// A name is a system name when it starts with a dot.
pub open spec fn is_dot_name(name: Seq<char>) -> bool {
    name.len() > 0 && name[0] == '.'
}

/// Whether `name` starts with a dot.
pub fn starts_with_dot(name: &str) -> (r: bool)
    ensures
        r == is_dot_name(name@),
{
    name.unicode_len() > 0 && name.get_char(0) == '.'
}

impl Entry {
    /// A field-for-field copy.
    pub fn cloned(&self) -> (r: Entry)
        ensures
            r == *self,
    {
        Entry {
            name: self.name.clone(),
            path: self.path.clone(),
            is_dir: self.is_dir,
            size: self.size,
            modified: self.modified,
            is_system: self.is_system,
        }
    }
}

pub open spec fn name_toggled(mode: SortMode) -> SortMode {
    if mode == SortMode::NameAsc {
        SortMode::NameDesc
    } else {
        SortMode::NameAsc
    }
}

pub open spec fn ext_toggled(mode: SortMode) -> SortMode {
    if mode == SortMode::ExtAsc {
        SortMode::ExtDesc
    } else {
        SortMode::ExtAsc
    }
}

pub open spec fn time_toggled(mode: SortMode) -> SortMode {
    if mode == SortMode::TimeAsc {
        SortMode::TimeDesc
    } else if mode == SortMode::TimeDesc {
        SortMode::TimeAsc
    } else {
        SortMode::TimeDesc
    }
}

pub open spec fn size_toggled(mode: SortMode) -> SortMode {
    if mode == SortMode::SizeAsc {
        SortMode::SizeDesc
    } else if mode == SortMode::SizeDesc {
        SortMode::SizeAsc
    } else {
        SortMode::SizeDesc
    }
}

/// Name ascending and descending swap; from any other mode, name ascending.
pub fn toggle_name_sort(mode: SortMode) -> (r: SortMode)
    ensures
        r == name_toggled(mode),
{
    match mode {
        SortMode::NameAsc => SortMode::NameDesc,
        SortMode::NameDesc => SortMode::NameAsc,
        _ => SortMode::NameAsc,
    }
}

/// Extension ascending and descending swap; from any other mode, extension ascending.
pub fn toggle_ext_sort(mode: SortMode) -> (r: SortMode)
    ensures
        r == ext_toggled(mode),
{
    match mode {
        SortMode::ExtAsc => SortMode::ExtDesc,
        SortMode::ExtDesc => SortMode::ExtAsc,
        _ => SortMode::ExtAsc,
    }
}

/// Time ascending and descending swap; from any other mode, newest first.
pub fn toggle_time_sort(mode: SortMode) -> (r: SortMode)
    ensures
        r == time_toggled(mode),
{
    match mode {
        SortMode::TimeAsc => SortMode::TimeDesc,
        SortMode::TimeDesc => SortMode::TimeAsc,
        _ => SortMode::TimeDesc,
    }
}

/// Size ascending and descending swap; from any other mode, largest first.
pub fn toggle_size_sort(mode: SortMode) -> (r: SortMode)
    ensures
        r == size_toggled(mode),
{
    match mode {
        SortMode::SizeAsc => SortMode::SizeDesc,
        SortMode::SizeDesc => SortMode::SizeAsc,
        _ => SortMode::SizeDesc,
    }
}

/// Toggling an axis twice from either of its own modes comes back to that
/// mode; toggling from a mode of another axis lands on the axis's default
/// (ascending for name and extension, descending for time and size).
pub proof fn lemma_toggle_axes(mode: SortMode)
    ensures
        (mode == SortMode::NameAsc || mode == SortMode::NameDesc) ==> name_toggled(
            name_toggled(mode),
        ) == mode,
        (mode == SortMode::ExtAsc || mode == SortMode::ExtDesc) ==> ext_toggled(ext_toggled(mode))
            == mode,
        (mode == SortMode::TimeAsc || mode == SortMode::TimeDesc) ==> time_toggled(
            time_toggled(mode),
        ) == mode,
        (mode == SortMode::SizeAsc || mode == SortMode::SizeDesc) ==> size_toggled(
            size_toggled(mode),
        ) == mode,
        !(mode == SortMode::NameAsc || mode == SortMode::NameDesc) ==> name_toggled(mode)
            == SortMode::NameAsc,
        !(mode == SortMode::ExtAsc || mode == SortMode::ExtDesc) ==> ext_toggled(mode)
            == SortMode::ExtAsc,
        !(mode == SortMode::TimeAsc || mode == SortMode::TimeDesc) ==> time_toggled(mode)
            == SortMode::TimeDesc,
        !(mode == SortMode::SizeAsc || mode == SortMode::SizeDesc) ==> size_toggled(mode)
            == SortMode::SizeDesc,
{
}

/// The label shown for a sort mode.
pub fn sort_label(mode: SortMode) -> (r: &'static str)
    ensures
        mode == SortMode::NameAsc ==> r@ == "Name ↑"@,
        mode == SortMode::NameDesc ==> r@ == "Name ↓"@,
        mode == SortMode::ExtAsc ==> r@ == "Ext ↑"@,
        mode == SortMode::ExtDesc ==> r@ == "Ext ↓"@,
        mode == SortMode::TimeAsc ==> r@ == "Time ↑"@,
        mode == SortMode::TimeDesc ==> r@ == "Time ↓"@,
        mode == SortMode::SizeAsc ==> r@ == "Size ↑"@,
        mode == SortMode::SizeDesc ==> r@ == "Size ↓"@,
        mode == SortMode::Unsorted ==> r@ == "Unsorted"@,
{
    match mode {
        SortMode::NameAsc => "Name ↑",
        SortMode::NameDesc => "Name ↓",
        SortMode::ExtAsc => "Ext ↑",
        SortMode::ExtDesc => "Ext ↓",
        SortMode::TimeAsc => "Time ↑",
        SortMode::TimeDesc => "Time ↓",
        SortMode::SizeAsc => "Size ↑",
        SortMode::SizeDesc => "Size ↓",
        SortMode::Unsorted => "Unsorted",
    }
}

/// The arrow shown beside a column heading for a sort mode.
pub fn sort_indicator(mode: SortMode) -> (r: &'static str)
    ensures
        (mode == SortMode::NameAsc || mode == SortMode::ExtAsc || mode == SortMode::TimeAsc
            || mode == SortMode::SizeAsc) ==> r@ == "↑"@,
        (mode == SortMode::NameDesc || mode == SortMode::ExtDesc || mode == SortMode::TimeDesc
            || mode == SortMode::SizeDesc) ==> r@ == "↓"@,
        mode == SortMode::Unsorted ==> r@ == ""@,
{
    match mode {
        SortMode::NameAsc | SortMode::ExtAsc | SortMode::TimeAsc | SortMode::SizeAsc => "↑",
        SortMode::NameDesc | SortMode::ExtDesc | SortMode::TimeDesc | SortMode::SizeDesc => "↓",
        SortMode::Unsorted => "",
    }
}

} // verus!
