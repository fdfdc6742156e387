//! Dialog and menu states, keys, and the transitions that each dialog
//! makes on a key.
use vstd::prelude::*;
use crate::entry::{ActivePane, SortMode};
use crate::text::{chars_of, text_of};

verus! {

/// A key as the dialogs and panes read it.
#[derive(Debug, Clone, Copy, PartialEq, Eq, Structural)]
pub enum KeyCode {
    Char(char),
    F(u8),
    Enter,
    Escape,
    Tab,
    BackTab,
    Up,
    Down,
    Left,
    Right,
    PageUp,
    PageDown,
    Home,
    End,
    Backspace,
    Delete,
    Insert,
    Other,
}

/// A key press with its modifiers.
#[derive(Debug, Clone, Copy, PartialEq, Eq, Structural)]
pub struct KeyEvent {
    pub code: KeyCode,
    pub ctrl: bool,
    pub alt: bool,
}

/// The parts of the copy and move dialogs that take the focus, in Tab order.
#[derive(Debug, Clone, Copy, PartialEq, Eq, Structural)]
pub enum CopyDialogFocus {
    Input,
    IncludeSubdirs,
    CopyNewerOnly,
    UseFilters,
    CheckTargetSpace,
    BtnCopy,
    BtnTree,
    BtnFilters,
    BtnCancel,
}

/// Position of a focus in Tab order.
pub open spec fn focus_index(f: CopyDialogFocus) -> int {
    match f {
        CopyDialogFocus::Input => 0,
        CopyDialogFocus::IncludeSubdirs => 1,
        CopyDialogFocus::CopyNewerOnly => 2,
        CopyDialogFocus::UseFilters => 3,
        CopyDialogFocus::CheckTargetSpace => 4,
        CopyDialogFocus::BtnCopy => 5,
        CopyDialogFocus::BtnTree => 6,
        CopyDialogFocus::BtnFilters => 7,
        CopyDialogFocus::BtnCancel => 8,
    }
}

/// The focus after `f` in Tab order, wrapping from the last to the first.
pub fn next_focus(f: CopyDialogFocus) -> (r: CopyDialogFocus)
    ensures
        focus_index(r) == (focus_index(f) + 1) % 9,
{
    match f {
        CopyDialogFocus::Input => CopyDialogFocus::IncludeSubdirs,
        CopyDialogFocus::IncludeSubdirs => CopyDialogFocus::CopyNewerOnly,
        CopyDialogFocus::CopyNewerOnly => CopyDialogFocus::UseFilters,
        CopyDialogFocus::UseFilters => CopyDialogFocus::CheckTargetSpace,
        CopyDialogFocus::CheckTargetSpace => CopyDialogFocus::BtnCopy,
        CopyDialogFocus::BtnCopy => CopyDialogFocus::BtnTree,
        CopyDialogFocus::BtnTree => CopyDialogFocus::BtnFilters,
        CopyDialogFocus::BtnFilters => CopyDialogFocus::BtnCancel,
        CopyDialogFocus::BtnCancel => CopyDialogFocus::Input,
    }
}

/// The focus before `f` in Tab order, wrapping from the first to the last.
pub fn prev_focus(f: CopyDialogFocus) -> (r: CopyDialogFocus)
    ensures
        focus_index(r) == (focus_index(f) + 8) % 9,
{
    match f {
        CopyDialogFocus::Input => CopyDialogFocus::BtnCancel,
        CopyDialogFocus::IncludeSubdirs => CopyDialogFocus::Input,
        CopyDialogFocus::CopyNewerOnly => CopyDialogFocus::IncludeSubdirs,
        CopyDialogFocus::UseFilters => CopyDialogFocus::CopyNewerOnly,
        CopyDialogFocus::CheckTargetSpace => CopyDialogFocus::UseFilters,
        CopyDialogFocus::BtnCopy => CopyDialogFocus::CheckTargetSpace,
        CopyDialogFocus::BtnTree => CopyDialogFocus::BtnCopy,
        CopyDialogFocus::BtnFilters => CopyDialogFocus::BtnTree,
        CopyDialogFocus::BtnCancel => CopyDialogFocus::BtnFilters,
    }
}

/// The nine foci hold distinct positions of the ring, and a step forward
/// followed by a step back (or the reverse) comes back to the same
/// position, hence to the same focus.
pub proof fn lemma_focus_ring(f: CopyDialogFocus, g: CopyDialogFocus)
    ensures
        focus_index(f) == focus_index(g) ==> f == g,
        0 <= focus_index(f) < 9,
        ((focus_index(f) + 1) % 9 + 8) % 9 == focus_index(f),
        ((focus_index(f) + 8) % 9 + 1) % 9 == focus_index(f),
{
}

/// A copy or move dialog.
#[derive(Debug, Clone)]
pub struct CopyDialogState {
    pub sources: Vec<String>,
    pub source_name: String,
    pub dest: String,
    pub cursor: usize,
    pub include_subdirs: bool,
    pub copy_newer_only: bool,
    pub use_filters: bool,
    pub check_target_space: bool,
    pub focus: CopyDialogFocus,
}

/// Whether a confirmed overwrite copies or moves.
#[derive(Debug, Clone, Copy, PartialEq, Eq, Structural)]
pub enum OverwriteKind {
    Copy,
    Move,
}

/// What a prompt's answer is for.
#[derive(Debug, Clone)]
pub enum PendingPrompt {
    CopyTo { sources: Vec<String> },
    MoveTo { sources: Vec<String> },
    Mkdir { base: String },
    Find { base: String },
    Chmod { target: String },
}

/// What a confirmation carries out.
#[derive(Debug, Clone)]
pub enum PendingConfirm {
    Delete { sources: Vec<String> },
    Overwrite { kind: OverwriteKind, sources: Vec<String>, dest: String },
    Sync { ops: Vec<String>, src_root: String, dst_root: String },
}

/// A directory of the tree browser, with its depth below the base.
#[derive(Debug, Clone)]
pub struct TreeItem {
    pub path: String,
    pub depth: usize,
}

/// A line of the user menu: what is shown and the command it stands for.
#[derive(Debug, Clone)]
pub struct UserMenuItem {
    pub label: String,
    pub command: String,
}

/// The open dialog or menu; at most one is open at a time.
#[derive(Debug, Clone)]
#[allow(inconsistent_fields)]
pub enum Modal {
    CopyDialog(CopyDialogState),
    MoveDialog(CopyDialogState),
    DeleteDialog { sources: Vec<String>, source_name: String, use_filters: bool, focus: usize },
    Prompt { title: String, label: String, value: String, cursor: usize, action: PendingPrompt },
    Confirm { title: String, message: String, action: PendingConfirm },
    FindResults { query: String, items: Vec<String>, selected: usize, scroll: usize },
    Tree { pane: ActivePane, items: Vec<TreeItem>, selected: usize, scroll: usize },
    DriveMenu { pane: ActivePane, items: Vec<String>, selected: usize, scroll: usize },
    Config {
        page: usize,
        selected: usize,
        show_hidden: bool,
        auto_save: bool,
        confirm_delete: bool,
        confirm_overwrite: bool,
    },
    PanelOptions { pane: ActivePane, selected: usize, dirs_first: bool, sort_mode: SortMode },
    UserMenu { items: Vec<UserMenuItem>, selected: usize, scroll: usize, config_path: String },
    About,
    Help { page: usize, scroll: usize },
    PullDown { menu_idx: usize, item_idx: usize },
}

/// What a key does to a list: close it, move within it, or choose the
/// highlighted item.
#[derive(Debug, Clone, Copy, PartialEq, Eq, Structural)]
pub enum ListMove {
    Close,
    Stay { selected: usize, scroll: usize },
    Choose { selected: usize },
    Ignore,
}

/// One step down a list of `len` items shown `height` rows at a time.
pub open spec fn down_step(selected: int, scroll: int, len: int, height: int) -> (int, int) {
    let s = if selected + 1 < len {
        selected + 1
    } else {
        selected
    };
    let sc = if s >= scroll + height {
        if s - (height - 1) > 0 {
            s - (height - 1)
        } else {
            0
        }
    } else {
        scroll
    };
    (s, sc)
}

/// One step up a list.
pub open spec fn up_step(selected: int, scroll: int) -> (int, int) {
    let s = if selected > 0 {
        selected - 1
    } else {
        selected
    };
    let sc = if s < scroll {
        s
    } else {
        scroll
    };
    (s, sc)
}

/// The shared keys of the list dialogs: Escape and F10 close, Up and Down
/// move by one and scroll as little as needed, Enter chooses.
pub fn list_key(key: KeyEvent, selected: usize, scroll: usize, len: usize, height: usize) -> (r:
    ListMove)
    requires
        height > 0,
        selected < len || len == 0,
    ensures
        (key.code == KeyCode::Escape || key.code == KeyCode::F(10)) ==> r == ListMove::Close,
        key.code == KeyCode::Up ==> ({
            let (s, sc) = up_step(selected as int, scroll as int);
            r == (ListMove::Stay { selected: s as usize, scroll: sc as usize })
        }),
        key.code == KeyCode::Down ==> ({
            let (s, sc) = down_step(selected as int, scroll as int, len as int, height as int);
            r == (ListMove::Stay { selected: s as usize, scroll: sc as usize })
        }),
        key.code == KeyCode::Enter ==> r == (ListMove::Choose { selected }),
        !(key.code == KeyCode::Escape || key.code == KeyCode::F(10) || key.code == KeyCode::Up
            || key.code == KeyCode::Down || key.code == KeyCode::Enter) ==> r == ListMove::Ignore,
        r is Stay ==> (r->Stay_selected < len || len == 0),
{
    match key.code {
        KeyCode::Escape | KeyCode::F(10) => ListMove::Close,
        KeyCode::Up => {
            let s = if selected > 0 {
                selected - 1
            } else {
                selected
            };
            let sc = if s < scroll {
                s
            } else {
                scroll
            };
            ListMove::Stay { selected: s, scroll: sc }
        },
        KeyCode::Down => {
            let s = if len > 0 && selected < len - 1 {
                selected + 1
            } else {
                selected
            };
            let sc = if s >= scroll && s - scroll >= height {
                s - (height - 1)
            } else {
                scroll
            };
            ListMove::Stay { selected: s, scroll: sc }
        },
        KeyCode::Enter => ListMove::Choose { selected },
        _ => ListMove::Ignore,
    }
}

/// A text field edited by a key: its new text and cursor, or `None` when
/// the key does not edit text.
pub open spec fn edited(value: Seq<char>, cursor: int, code: KeyCode) -> Option<(Seq<char>, int)> {
    match code {
        KeyCode::Left => Some((value, if cursor > 0 { cursor - 1 } else { cursor })),
        KeyCode::Right => Some((value, if cursor < value.len() { cursor + 1 } else { cursor })),
        KeyCode::Backspace => Some(
            if cursor > 0 {
                (value.remove(cursor - 1), cursor - 1)
            } else {
                (value, cursor)
            },
        ),
        KeyCode::Delete => Some(
            if cursor < value.len() {
                (value.remove(cursor), cursor)
            } else {
                (value, cursor)
            },
        ),
        KeyCode::Char(c) => Some((value.insert(cursor, c), cursor + 1)),
        KeyCode::Home => Some((value, 0)),
        KeyCode::End => Some((value, value.len() as int)),
        _ => None,
    }
}

/// Edits a text field with a key; the cursor counts characters.
pub fn edit_text(value: &String, cursor: usize, code: KeyCode) -> (r: Option<(String, usize)>)
    requires
        cursor <= value@.len(),
        value@.len() < usize::MAX,
    ensures
        match edited(value@, cursor as int, code) {
            Some((v, c)) => (r matches Some((nv, nc)) && nv@ == v && nc == c),
            None => r is None,
        },
        r matches Some((nv, nc)) ==> nc <= nv@.len(),
{
    let n = value.unicode_len();
    match code {
        KeyCode::Left => Some((value.clone(), if cursor > 0 { cursor - 1 } else { cursor })),
        KeyCode::Right => Some((value.clone(), if cursor < n { cursor + 1 } else { cursor })),
        KeyCode::Backspace => {
            if cursor > 0 {
                let mut cs = chars_of(value.as_str());
                cs.remove(cursor - 1);
                Some((text_of(&cs), cursor - 1))
            } else {
                Some((value.clone(), cursor))
            }
        },
        KeyCode::Delete => {
            if cursor < n {
                let mut cs = chars_of(value.as_str());
                cs.remove(cursor);
                Some((text_of(&cs), cursor))
            } else {
                Some((value.clone(), cursor))
            }
        },
        KeyCode::Char(c) => {
            let mut cs = chars_of(value.as_str());
            cs.insert(cursor, c);
            Some((text_of(&cs), cursor + 1))
        },
        KeyCode::Home => Some((value.clone(), 0)),
        KeyCode::End => Some((value.clone(), n)),
        _ => None,
    }
}

/// Help pages: Escape and F10 close; Left and Right turn among the four
/// pages back to the top; Up, Down, PageUp and PageDown scroll by one or
/// five lines, never above the top. `None` means closed.
pub fn help_key(page: usize, scroll: usize, code: KeyCode) -> (r: Option<(usize, usize)>)
    requires
        page < 4,
    ensures
        (code == KeyCode::Escape || code == KeyCode::F(10)) ==> r is None,
        code == KeyCode::Left ==> r == Some(
            if page > 0 {
                ((page - 1) as usize, 0usize)
            } else {
                (page, scroll)
            },
        ),
        code == KeyCode::Right ==> r == Some(
            if page < 3 {
                ((page + 1) as usize, 0usize)
            } else {
                (page, scroll)
            },
        ),
        code == KeyCode::Up ==> r == Some((page, if scroll > 0 { (scroll - 1) as usize } else { 0usize })),
        code == KeyCode::Down ==> r == Some((page, if scroll < usize::MAX { (scroll + 1) as usize } else { scroll })),
        code == KeyCode::PageUp ==> r == Some((page, if scroll > 5 { (scroll - 5) as usize } else { 0usize })),
        code == KeyCode::PageDown ==> r == Some((page, if scroll <= usize::MAX - 5 { (scroll + 5) as usize } else { usize::MAX })),
        !(code == KeyCode::Escape || code == KeyCode::F(10) || code == KeyCode::Left || code
            == KeyCode::Right || code == KeyCode::Up || code == KeyCode::Down || code
            == KeyCode::PageUp || code == KeyCode::PageDown) ==> r == Some((page, scroll)),
        r matches Some((p, _)) ==> p < 4,
{
    match code {
        KeyCode::Escape | KeyCode::F(10) => None,
        KeyCode::Left => if page > 0 {
            Some((page - 1, 0))
        } else {
            Some((page, scroll))
        },
        KeyCode::Right => if page < 3 {
            Some((page + 1, 0))
        } else {
            Some((page, scroll))
        },
        KeyCode::Up => Some((page, scroll.saturating_sub(1))),
        KeyCode::Down => Some((page, scroll.saturating_add(1))),
        KeyCode::PageUp => Some((page, scroll.saturating_sub(5))),
        KeyCode::PageDown => Some((page, scroll.saturating_add(5))),
        _ => Some((page, scroll)),
    }
}

/// Number of settings on a configuration page.
pub open spec fn config_items(page: int) -> int {
    if page == 1 {
        2
    } else {
        1
    }
}

/// Moving within the configuration dialog: Left and Right turn among its
/// three pages to the first setting; Up and Down move among the page's
/// settings.
pub fn config_move(page: usize, selected: usize, code: KeyCode) -> (r: (usize, usize))
    requires
        page < 3,
        selected < config_items(page as int),
    ensures
        r.0 < 3,
        r.1 < config_items(r.0 as int),
        code == KeyCode::Left ==> r == if page > 0 { ((page - 1) as usize, 0usize) } else { (page, selected) },
        code == KeyCode::Right ==> r == if page < 2 { ((page + 1) as usize, 0usize) } else { (page, selected) },
        code == KeyCode::Up ==> r == (page, if selected > 0 { (selected - 1) as usize } else { selected }),
        code == KeyCode::Down ==> r == (page, if selected + 1 < config_items(page as int) { (selected + 1) as usize } else { selected }),
        !(code == KeyCode::Left || code == KeyCode::Right || code == KeyCode::Up || code == KeyCode::Down) ==> r == (page, selected),
{
    let count: usize = if page == 1 {
        2
    } else {
        1
    };
    match code {
        KeyCode::Left => if page > 0 {
            (page - 1, 0)
        } else {
            (page, selected)
        },
        KeyCode::Right => if page < 2 {
            (page + 1, 0)
        } else {
            (page, selected)
        },
        KeyCode::Up => (page, if selected > 0 { selected - 1 } else { selected }),
        KeyCode::Down => (page, if selected + 1 < count { selected + 1 } else { selected }),
        _ => (page, selected),
    }
}

/// The sort mode that the panel options dialog steps to: through each
/// axis ascending then descending, then unsorted, then back to name.
pub fn next_sort_mode(mode: SortMode) -> (r: SortMode)
    ensures
        mode == SortMode::NameAsc ==> r == SortMode::NameDesc,
        mode == SortMode::NameDesc ==> r == SortMode::ExtAsc,
        mode == SortMode::ExtAsc ==> r == SortMode::ExtDesc,
        mode == SortMode::ExtDesc ==> r == SortMode::TimeAsc,
        mode == SortMode::TimeAsc ==> r == SortMode::TimeDesc,
        mode == SortMode::TimeDesc ==> r == SortMode::SizeAsc,
        mode == SortMode::SizeAsc ==> r == SortMode::SizeDesc,
        mode == SortMode::SizeDesc ==> r == SortMode::Unsorted,
        mode == SortMode::Unsorted ==> r == SortMode::NameAsc,
{
    match mode {
        SortMode::NameAsc => SortMode::NameDesc,
        SortMode::NameDesc => SortMode::ExtAsc,
        SortMode::ExtAsc => SortMode::ExtDesc,
        SortMode::ExtDesc => SortMode::TimeAsc,
        SortMode::TimeAsc => SortMode::TimeDesc,
        SortMode::TimeDesc => SortMode::SizeAsc,
        SortMode::SizeAsc => SortMode::SizeDesc,
        SortMode::SizeDesc => SortMode::Unsorted,
        SortMode::Unsorted => SortMode::NameAsc,
    }
}

/// What a key does to the delete dialog, whose focus ring is the filters
/// checkbox (0), Delete (1), Filters (2) and Cancel (3).
#[derive(Debug, Clone, Copy, PartialEq, Eq, Structural)]
pub enum DeleteMove {
    Close,
    Stay { use_filters: bool, focus: usize },
    Delete,
    FiltersUnavailable,
}

/// Escape and Cancel close; Tab and Shift+Tab turn the focus; Space on the
/// checkbox, or Enter on it, toggles it; Enter on Delete deletes.
pub fn delete_key(use_filters: bool, focus: usize, code: KeyCode) -> (r: DeleteMove)
    requires
        focus < 4,
    ensures
        code == KeyCode::Escape ==> r == DeleteMove::Close,
        code == KeyCode::Tab ==> r == (DeleteMove::Stay { use_filters, focus: ((focus + 1) % 4) as usize }),
        code == KeyCode::BackTab ==> r == (DeleteMove::Stay { use_filters, focus: ((focus + 3) % 4) as usize }),
        (code == KeyCode::Char(' ') && focus == 0) || (code == KeyCode::Enter && focus == 0) ==> r
            == (DeleteMove::Stay { use_filters: !use_filters, focus }),
        code == KeyCode::Enter && focus == 1 ==> r == DeleteMove::Delete,
        code == KeyCode::Enter && focus == 2 ==> r == DeleteMove::FiltersUnavailable,
        code == KeyCode::Enter && focus == 3 ==> r == DeleteMove::Close,
        !(code == KeyCode::Escape || code == KeyCode::Tab || code == KeyCode::BackTab || code
            == KeyCode::Enter || (code == KeyCode::Char(' ') && focus == 0)) ==> r
            == (DeleteMove::Stay { use_filters, focus }),
        r is Stay ==> r->Stay_focus < 4,
{
    match code {
        KeyCode::Escape => DeleteMove::Close,
        KeyCode::Tab => DeleteMove::Stay { use_filters, focus: (focus + 1) % 4 },
        KeyCode::BackTab => DeleteMove::Stay {
            use_filters,
            focus: if focus == 0 {
                3
            } else {
                focus - 1
            },
        },
        KeyCode::Char(' ') if focus == 0 => DeleteMove::Stay { use_filters: !use_filters, focus },
        KeyCode::Enter => {
            if focus == 0 {
                DeleteMove::Stay { use_filters: !use_filters, focus }
            } else if focus == 1 {
                DeleteMove::Delete
            } else if focus == 2 {
                DeleteMove::FiltersUnavailable
            } else {
                DeleteMove::Close
            }
        },
        _ => DeleteMove::Stay { use_filters, focus },
    }
}

} // verus!
