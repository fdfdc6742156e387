//! The controller: two panes, the open dialog or viewer, and what each key
//! or click does. Work that touches the file system or the terminal is
//! handed out as requests; their outcomes come back through the methods
//! named after them.
use vstd::prelude::*;
use crate::entry::{
    toggle_ext_sort, toggle_name_sort, toggle_size_sort, toggle_time_sort, ActivePane, PanelMode,
    RefreshMode, SortMode,
};
use crate::fs_ops::{find_conflicts, parse_chmod_mode, sync_plan, SyncItem};
use crate::menu::{menu_items, MenuAction, MENU_COUNT, menu_len};
use crate::modal::{
    config_items, config_move, delete_key, edit_text, help_key, list_key, next_focus,
    next_sort_mode, prev_focus, CopyDialogFocus, CopyDialogState, DeleteMove, KeyCode, KeyEvent,
    ListMove, Modal, OverwriteKind, PendingConfirm, PendingPrompt, TreeItem,
};
use crate::pane::{
    clone_texts, ensure_visible, enter_location, listable, parent_location, selected_paths,
    selection_paths, Location,
    LocationView, Pane, SourceData,
};
use crate::fs_ops::name_or_empty;
use crate::paths::{file_name, join, path_join};
use crate::text::{cat, decimal, lowercase, octal, starts_with, to_ascii_lower, trim_text};
use crate::usermenu::parse_user_menu;
use crate::vfs::{read_file_lines, read_zip_file_lines};

verus! {

/// A file shown in the viewer.
#[derive(Debug, Clone)]
pub struct Viewer {
    pub path: String,
    pub lines: Vec<String>,
    pub scroll: usize,
}

/// What a key does to the viewer.
#[derive(Debug, Clone, Copy, PartialEq, Eq, Structural)]
pub enum ViewerAction {
    Stay,
    Close,
    Quit,
}

/// Viewer keys: Escape closes, F10 quits; Up and Down scroll by a line,
/// PageUp and PageDown by ten, never above the top.
pub fn handle_viewer_key(key: KeyEvent, viewer: &mut Viewer) -> (r: ViewerAction)
    ensures
        key.code == KeyCode::Escape ==> r == ViewerAction::Close && final(viewer).scroll
            == old(viewer).scroll,
        key.code == KeyCode::F(10) ==> r == ViewerAction::Quit && final(viewer).scroll
            == old(viewer).scroll,
        key.code == KeyCode::Up ==> r == ViewerAction::Stay && final(viewer).scroll == (if old(
            viewer,
        ).scroll > 0 {
            (old(viewer).scroll - 1) as usize
        } else {
            0usize
        }),
        key.code == KeyCode::Down ==> r == ViewerAction::Stay && final(viewer).scroll == (if old(
            viewer,
        ).scroll < usize::MAX {
            (old(viewer).scroll + 1) as usize
        } else {
            usize::MAX
        }),
        key.code == KeyCode::PageUp ==> r == ViewerAction::Stay && final(viewer).scroll == (if old(
            viewer,
        ).scroll > 10 {
            (old(viewer).scroll - 10) as usize
        } else {
            0usize
        }),
        key.code == KeyCode::PageDown ==> r == ViewerAction::Stay && final(viewer).scroll == (if old(
            viewer,
        ).scroll <= usize::MAX - 10 {
            (old(viewer).scroll + 10) as usize
        } else {
            usize::MAX
        }),
        !(key.code == KeyCode::Escape || key.code == KeyCode::F(10) || key.code == KeyCode::Up
            || key.code == KeyCode::Down || key.code == KeyCode::PageUp || key.code
            == KeyCode::PageDown) ==> r == ViewerAction::Stay && final(viewer).scroll == old(
            viewer,
        ).scroll,
        final(viewer).path == old(viewer).path,
        final(viewer).lines == old(viewer).lines,
{
    match key.code {
        KeyCode::Escape => {
            return ViewerAction::Close;
        },
        KeyCode::Up => viewer.scroll = viewer.scroll.saturating_sub(1),
        KeyCode::Down => viewer.scroll = viewer.scroll.saturating_add(1),
        KeyCode::PageUp => viewer.scroll = viewer.scroll.saturating_sub(10),
        KeyCode::PageDown => viewer.scroll = viewer.scroll.saturating_add(10),
        KeyCode::F(10) => {
            return ViewerAction::Quit;
        },
        _ => {},
    }
    ViewerAction::Stay
}

/// A screen rectangle in cells.
#[derive(Debug, Clone, Copy, PartialEq, Eq, Structural)]
pub struct Rect {
    pub x: u16,
    pub y: u16,
    pub width: u16,
    pub height: u16,
}

pub open spec fn in_rect(r: Rect, x: u16, y: u16) -> bool {
    r.x <= x && (x as int) < r.x as int + r.width as int && r.y <= y && (y as int) < r.y as int
        + r.height as int
}

impl Rect {
    /// Whether the cell at `x`, `y` lies inside.
    pub fn contains(&self, x: u16, y: u16) -> (r: bool)
        ensures
            r == in_rect(*self, x, y),
    {
        x >= self.x && (x as u32) < self.x as u32 + self.width as u32 && y >= self.y && (y as u32)
            < self.y as u32 + self.height as u32
    }
}

/// Where the two listings were last drawn, header row included.
#[derive(Debug, Clone, Copy, PartialEq, Eq, Structural)]
pub struct LayoutCache {
    pub left_table: Rect,
    pub right_table: Rect,
}

/// Rows of a listing's header.
pub const HEADER_HEIGHT: u16 = 1;

/// The pane and listing row under a cell: rows count from below the
/// header, and the header itself counts as row 0.
/// The pane and listing row under a cell (see `hit_test_rows`).
pub open spec fn hit_at(layout: LayoutCache, x: u16, y: u16) -> Option<(ActivePane, usize)> {
    if in_rect(layout.left_table, x, y) {
        Some(
            (
                ActivePane::Left,
                (if y - layout.left_table.y >= 1 {
                    y - layout.left_table.y - 1
                } else {
                    0
                }) as usize,
            ),
        )
    } else if in_rect(layout.right_table, x, y) {
        Some(
            (
                ActivePane::Right,
                (if y - layout.right_table.y >= 1 {
                    y - layout.right_table.y - 1
                } else {
                    0
                }) as usize,
            ),
        )
    } else {
        None
    }
}

pub fn hit_test_rows(x: u16, y: u16, layout: &LayoutCache) -> (r: Option<(ActivePane, usize)>)
    ensures
        r == hit_at(*layout, x, y),
        in_rect(layout.left_table, x, y) ==> r == Some(
            (
                ActivePane::Left,
                (if y - layout.left_table.y >= 1 {
                    y - layout.left_table.y - 1
                } else {
                    0
                }) as usize,
            ),
        ),
        !in_rect(layout.left_table, x, y) && in_rect(layout.right_table, x, y) ==> r == Some(
            (
                ActivePane::Right,
                (if y - layout.right_table.y >= 1 {
                    y - layout.right_table.y - 1
                } else {
                    0
                }) as usize,
            ),
        ),
        !in_rect(layout.left_table, x, y) && !in_rect(layout.right_table, x, y) ==> r is None,
{
    if layout.left_table.contains(x, y) {
        let row = (y - layout.left_table.y) as usize;
        return Some((ActivePane::Left, row.saturating_sub(HEADER_HEIGHT as usize)));
    }
    if layout.right_table.contains(x, y) {
        let row = (y - layout.right_table.y) as usize;
        return Some((ActivePane::Right, row.saturating_sub(HEADER_HEIGHT as usize)));
    }
    None
}

/// A press of the left button, remembered to tell a double click.
#[derive(Debug, Clone, Copy, PartialEq, Eq, Structural)]
pub struct ClickInfo {
    pub pane: ActivePane,
    pub row: usize,
    pub at_ms: u64,
}

/// Two presses on one row this close together (in milliseconds) are a
/// double click.
pub const DOUBLE_CLICK_MS: u64 = 400;

/// A quick-search text older than this (in milliseconds) is started afresh.
pub const QUICK_SEARCH_TIMEOUT_MS: u64 = 1500;

/// What the mouse did.
#[derive(Debug, Clone, Copy, PartialEq, Eq, Structural)]
pub enum MouseKind {
    ScrollUp,
    ScrollDown,
    LeftDown,
    Other,
}

/// A mouse event at a cell.
#[derive(Debug, Clone, Copy, PartialEq, Eq, Structural)]
pub struct MouseEvent {
    pub kind: MouseKind,
    pub x: u16,
    pub y: u16,
}

/// Work for the surrounding program, in the order given. Each request
/// names the method that takes its outcome back.
#[derive(Debug, Clone)]
#[allow(inconsistent_fields)]
pub enum Request {
    /// End the session.
    Quit,
    /// Read the pane's source (`Pane::source`) and hand it to `listed`;
    /// a failure is reported under `failure` when one is given.
    Relist { side: ActivePane, mode: RefreshMode, failure: Option<String> },
    /// Read what `to.source` names and hand it to `navigated`; the pane
    /// moves there only once it is listed. A failure is reported under
    /// `failure` when one is given.
    Navigate { side: ActivePane, to: Location, failure: Option<String> },
    /// Read a file and hand its bytes to `file_read`.
    ViewFile { path: String },
    /// Read an archive file and hand its bytes to `archive_read`.
    ViewArchiveMember { zip_path: String, prefix: String, entry: String },
    /// Run the external editor on a file, then call `editor_finished`.
    Edit { path: String },
    /// Tell whether `dest` is a directory and which targets exist
    /// (`fs_ops::transfer_targets`), then call `transfer_checked`.
    CheckTransfer { kind: OverwriteKind, sources: Vec<String>, dest: String },
    /// Carry out the steps of `fs_ops::copy_sources` or `move_sources`,
    /// stopping at the first failure, then call `transfer_finished`.
    Transfer { kind: OverwriteKind, sources: Vec<String>, dest: String, overwrite: bool },
    /// Remove each path in turn, stopping at the first failure, then call
    /// `delete_finished`.
    Delete { paths: Vec<String> },
    /// Create a directory with its parents, then call `mkdir_finished`.
    Mkdir { path: String },
    /// Set a path's permission bits, then call `chmod_finished`.
    Chmod { target: String, mode: u32 },
    /// Search below `base` for names containing `query`, then call `found`.
    Find { base: String, query: String },
    /// Tell whether a found path is a directory, then call `found_opened`.
    OpenFound { path: String },
    /// Build the directory tree below `base`, then call `tree_built`.
    BuildTree { side: ActivePane, base: String },
    /// List the drive roots, then call `drives_listed`.
    ListDrives { side: ActivePane },
    /// Read (creating it if missing) the user menu file, then call
    /// `user_menu_loaded`.
    LoadUserMenu,
    /// Run the external editor on the user menu file, then load it again.
    EditUserMenu { path: String },
    /// Walk `src` against `dst` (`fs_ops::sync_target`), then call
    /// `sync_scanned`.
    ScanSync { src: String, dst: String },
    /// Carry out `fs_ops::sync_execute`, then call `sync_finished`.
    Sync { ops: Vec<String>, src_root: String, dst_root: String },
    /// Read a path's permission bits, then call `mode_probed`.
    ProbeMode { target: String },
}

pub open spec fn list_ok(selected: usize, len: nat) -> bool {
    selected < len || len == 0
}

/// The bounds that a dialog's cursors keep.
pub open spec fn modal_wf(m: Modal) -> bool {
    match m {
        Modal::CopyDialog(s) => s.cursor <= s.dest@.len() && s.dest@.len() < usize::MAX,
        Modal::MoveDialog(s) => s.cursor <= s.dest@.len() && s.dest@.len() < usize::MAX,
        Modal::DeleteDialog { focus, .. } => focus < 4,
        Modal::Prompt { value, cursor, .. } => cursor <= value@.len() && value@.len() < usize::MAX,
        Modal::FindResults { items, selected, .. } => list_ok(selected, items@.len()),
        Modal::Tree { items, selected, .. } => list_ok(selected, items@.len()),
        Modal::DriveMenu { items, selected, .. } => list_ok(selected, items@.len()),
        Modal::UserMenu { items, selected, .. } => list_ok(selected, items@.len()),
        Modal::Config { page, selected, .. } => page < 3 && selected < config_items(page as int),
        Modal::Help { page, .. } => page < 4,
        Modal::PullDown { menu_idx, item_idx } => menu_idx < MENU_COUNT && item_idx < menu_len(
            menu_idx as int,
        ),
        _ => true,
    }
}

/// The state of a session.
#[derive(Debug)]
pub struct App {
    pub left: Pane,
    pub right: Pane,
    pub active: ActivePane,
    pub status: String,
    pub viewer: Option<Viewer>,
    pub modal: Option<Modal>,
    pub show_hidden: bool,
    pub hide_left: bool,
    pub hide_right: bool,
    pub hide_all: bool,
    pub cmdline: String,
    pub cmd_cursor: usize,
    pub quick_search: Option<String>,
    pub quick_search_time: Option<u64>,
    pub last_click: Option<ClickInfo>,
    pub layout: Option<LayoutCache>,
}

/// `r` asks to list a pane again, in place.
pub open spec fn is_relist(r: Request, side: ActivePane, mode: RefreshMode) -> bool {
    r matches Request::Relist { side: s, mode: m, failure: None } && s == side && m == mode
}

/// `r` asks to move a pane to a location.
pub open spec fn is_navigate(r: Request, side: ActivePane, to: LocationView) -> bool {
    r matches Request::Navigate { side: s, to: t, .. } && s == side && t@ == to
}

/// A directory of the file system as a location.
pub open spec fn dir_location(path: Seq<char>) -> LocationView {
    LocationView { cwd: path, vfs: None, panelized: None }
}

/// What viewing the entry under a pane's cursor asks for: nothing without
/// a file there, else to read it from the archive or the file system.
pub open spec fn view_requests(p: Pane, r: Seq<Request>) -> bool {
    match p.cursor {
        None => r.len() == 0,
        Some(c) => {
            let e = p.entries@[c as int];
            if e.is_dir {
                r.len() == 0
            } else {
                r.len() == 1 && match p.vfs {
                    Some(v) => (r[0] matches Request::ViewArchiveMember { zip_path, prefix, entry }
                        && zip_path == v.zip_path && prefix == v.prefix && entry == e.path),
                    None => (r[0] matches Request::ViewFile { path } && path == e.path),
                }
            }
        },
    }
}

/// What opening the entry under a pane's cursor asks for: to go to the
/// location it leads to, or else (when `view`) to view it.
pub open spec fn enter_requests(p: Pane, side: ActivePane, r: Seq<Request>, view: bool) -> bool {
    match enter_location(p) {
        Some(l) => r.len() == 1 && is_navigate(r[0], side, l),
        None => if view {
            view_requests(p, r)
        } else {
            r.len() == 0
        },
    }
}

/// The texts of a vector, as character sequences.
pub open spec fn texts(v: Seq<String>) -> Seq<Seq<char>> {
    v.map_values(|s: String| s@)
}

/// The destination a copy or move dialog offers: the other pane's
/// directory, with the source's name below it when there is one source.
pub open spec fn transfer_dest(sel: Seq<Seq<char>>, other_cwd: Seq<char>) -> Seq<char> {
    if sel.len() == 1 {
        path_join(other_cwd, name_or_empty(sel[0]))
    } else {
        other_cwd
    }
}

/// A copy or move dialog as it opens: its sources, the offered
/// destination with the cursor at its end, the focus on it, and every
/// checkbox clear.
pub open spec fn dialog_fresh(s: CopyDialogState, sel: Seq<Seq<char>>, dest: Seq<char>) -> bool {
    &&& texts(s.sources@) == sel
    &&& s.dest@ == dest
    &&& s.cursor == dest.len()
    &&& s.focus == CopyDialogFocus::Input
    &&& !s.include_subdirs && !s.copy_newer_only && !s.use_filters && !s.check_target_space
}

/// Starting a copy (`is_copy`) or move: nothing in an archive or without
/// a source; otherwise the dialog opens on the active pane's sources, and
/// nothing is copied or moved yet.
pub open spec fn transfer_dialog_opened(old: App, new: App, is_copy: bool) -> bool {
    let p = old.pane(old.active);
    let sel = selection_paths(p);
    let dest = transfer_dest(sel, old.pane(other_side(old.active)).cwd@);
    &&& new.left == old.left && new.right == old.right && new.active == old.active
    &&& (p.vfs is Some || sel.len() == 0 || dest.len() >= usize::MAX) ==> new.modal == old.modal
    &&& (p.vfs is None && sel.len() > 0 && dest.len() < usize::MAX) ==> (new.modal matches Some(m)
        && match m {
        Modal::CopyDialog(s) => is_copy && dialog_fresh(s, sel, dest),
        Modal::MoveDialog(s) => !is_copy && dialog_fresh(s, sel, dest),
        _ => false,
    })
}

/// Starting a delete: nothing in an archive or without a source; otherwise
/// the delete dialog opens on the active pane's sources with the focus on
/// its Delete button, and nothing is deleted yet.
pub open spec fn delete_dialog_opened(old: App, new: App) -> bool {
    let p = old.pane(old.active);
    let sel = selection_paths(p);
    &&& new.left == old.left && new.right == old.right && new.active == old.active
    &&& p.vfs is Some ==> new.modal == old.modal && new.status@ == "Delete in archive not supported"@
    &&& p.vfs is None && sel.len() == 0 ==> new.modal == old.modal
    &&& p.vfs is None && sel.len() > 0 ==> (new.modal matches Some(
        Modal::DeleteDialog { sources, use_filters, focus, .. },
    ) && texts(sources@) == sel && !use_filters && focus == 1)
}

fn relist(side: ActivePane, mode: RefreshMode) -> (r: Request)
    ensures
        r matches Request::Relist { side: s, mode: m, failure: None } && s == side && m == mode,
{
    Request::Relist { side, mode, failure: None }
}

fn other(side: ActivePane) -> (r: ActivePane)
    ensures
        r != side,
        r == other_side(side),
{
    match side {
        ActivePane::Left => ActivePane::Right,
        ActivePane::Right => ActivePane::Left,
    }
}

fn text(s: &str) -> (r: String)
    ensures
        r@ == s@,
{
    String::from_str(s)
}

impl App {
    /// Both panes are consistent, the open dialog keeps its bounds, and the
    /// command line's cursor is within it.
    pub open spec fn wf(&self) -> bool {
        &&& self.left.wf()
        &&& self.right.wf()
        &&& (self.modal matches Some(m) ==> modal_wf(m))
        &&& self.cmd_cursor <= self.cmdline@.len()
        &&& self.cmdline@.len() < usize::MAX
    }

    pub open spec fn pane(&self, side: ActivePane) -> Pane {
        match side {
            ActivePane::Left => self.left,
            ActivePane::Right => self.right,
        }
    }

    /// A session with both panes at `cwd`, not yet listed: the surrounding
    /// program lists both with `Reset` before the first key.
    pub fn new(cwd: String) -> (r: App)
        ensures
            r.wf(),
            r.left.cwd == cwd,
            r.right.cwd@ == cwd@,
            r.active == ActivePane::Left,
            r.modal is None,
            r.viewer is None,
            !r.show_hidden,
    {
        let right_cwd = cwd.clone();
        App {
            left: Pane::new(cwd),
            right: Pane::new(right_cwd),
            active: ActivePane::Left,
            status: text("Ready"),
            viewer: None,
            modal: None,
            show_hidden: false,
            hide_left: false,
            hide_right: false,
            hide_all: false,
            cmdline: String::new(),
            cmd_cursor: 0,
            quick_search: None,
            quick_search_time: None,
            last_click: None,
            layout: None,
        }
    }

    /// The pane on a side.
    pub fn side_pane(&self, side: ActivePane) -> (r: &Pane)
        ensures
            *r == self.pane(side),
    {
        match side {
            ActivePane::Left => &self.left,
            ActivePane::Right => &self.right,
        }
    }

    /// Rows of a pane's listing as last drawn; 0 before the first drawing.
    pub fn list_height(&self, side: ActivePane) -> (r: usize)
        ensures
            self.layout matches Some(l) ==> r == (match side {
                ActivePane::Left => l.left_table.height,
                ActivePane::Right => l.right_table.height,
            }) as usize,
            self.layout is None ==> r == 0,
    {
        match self.layout {
            None => 0,
            Some(l) => match side {
                ActivePane::Left => l.left_table.height as usize,
                ActivePane::Right => l.right_table.height as usize,
            },
        }
    }

    /// Takes back what was read for a pane (`Request::Relist`). On a
    /// failure the pane keeps its listing and, when `failure` is given, the
    /// status line says what failed.
    pub fn listed(
        &mut self,
        side: ActivePane,
        data: Result<SourceData, String>,
        mode: RefreshMode,
        failure: Option<String>,
    )
        requires
            old(self).wf(),
        ensures
            final(self).wf(),
            final(self).modal == old(self).modal,
            final(self).pane(other_side(side)) == old(self).pane(other_side(side)),
            data is Err ==> final(self).left == old(self).left && final(self).right == old(
                self,
            ).right,
            data matches Ok(d) ==> (listable(old(self).pane(side).location(), d) ==> crate::pane::reconciled(
                old(self).pane(side),
                final(self).pane(side),
                final(self).pane(side).entries@,
                mode,
            ) && final(self).pane(side).location() == old(self).pane(side).location()
                && crate::pane::listing_of(
                old(self).pane(side),
                d,
                old(self).show_hidden,
                final(self).pane(side).entries@,
            )),
            data matches Ok(d) ==> (!listable(old(self).pane(side).location(), d) ==> final(
                self).left == old(self).left && final(self).right == old(self).right),
    {
        let show_hidden = self.show_hidden;
        let outcome = match data {
            Ok(d) => match side {
                ActivePane::Left => self.left.refresh(d, mode, show_hidden),
                ActivePane::Right => self.right.refresh(d, mode, show_hidden),
            },
            Err(e) => Err(e),
        };
        if let Err(e) = outcome {
            if let Some(f) = failure {
                let head = cat(f.as_str(), ": ");
                self.status = cat(head.as_str(), e.as_str());
            }
        }
    }

    /// Takes back what was read at a location (`Request::Navigate`): the
    /// pane goes there with its listing, cursor on the first entry, or, on a
    /// failure, keeps its last good state while the status line says what
    /// failed (when `failure` is given).
    pub fn navigated(
        &mut self,
        side: ActivePane,
        to: Location,
        data: Result<SourceData, String>,
        failure: Option<String>,
    )
        requires
            old(self).wf(),
        ensures
            final(self).wf(),
            final(self).modal == old(self).modal,
            final(self).pane(other_side(side)) == old(self).pane(other_side(side)),
            data is Err ==> final(self).left == old(self).left && final(self).right == old(self).right,
            data matches Ok(d) ==> (listable(to@, d) ==> final(self).pane(side).location() == to@
                && crate::pane::reconciled(
                old(self).pane(side),
                final(self).pane(side),
                final(self).pane(side).entries@,
                RefreshMode::Reset,
            ) && crate::pane::listing_of(
                final(self).pane(side),
                d,
                old(self).show_hidden,
                final(self).pane(side).entries@,
            )),
            data matches Ok(d) ==> (!listable(to@, d) ==> final(self).left == old(self).left
                && final(self).right == old(self).right),
    {
        let show_hidden = self.show_hidden;
        let outcome = match data {
            Ok(d) => match side {
                ActivePane::Left => self.left.move_to(to, d, RefreshMode::Reset, show_hidden),
                ActivePane::Right => self.right.move_to(to, d, RefreshMode::Reset, show_hidden),
            },
            Err(e) => Err(e),
        };
        if let Err(e) = outcome {
            if let Some(f) = failure {
                let head = cat(f.as_str(), ": ");
                self.status = cat(head.as_str(), e.as_str());
            }
        }
    }

    fn open_viewer(&mut self) -> (r: Vec<Request>)
        requires
            old(self).wf(),
        ensures
            final(self).wf(),
            view_requests(old(self).pane(old(self).active), r@),
            final(self).active == old(self).active,
            final(self).modal == old(self).modal,
            final(self).left == old(self).left,
            final(self).right == old(self).right,
    {
        let side = self.active;
        let pane = self.side_pane(side);
        let entry = match pane.selected_entry() {
            Some(e) => e,
            None => {
                self.status = text("No file selected");
                return Vec::new();
            },
        };
        if entry.is_dir {
            self.status = text("Cannot view directory");
            return Vec::new();
        }
        match &pane.vfs {
            Some(v) => vec![
                Request::ViewArchiveMember {
                    zip_path: v.zip_path.clone(),
                    prefix: v.prefix.clone(),
                    entry: entry.path.clone(),
                },
            ],
            None => vec![Request::ViewFile { path: entry.path.clone() }],
        }
    }

    /// Takes back a file read for the viewer (`Request::ViewFile`).
    pub fn file_read(&mut self, path: String, data: Result<Vec<u8>, String>)
        requires
            old(self).wf(),
        ensures
            final(self).wf(),
            data matches Ok(bytes) ==> (final(self).viewer matches Some(v) && v.path == path
                && v.scroll == 0 && crate::vfs::text_views(v.lines@) == crate::vfs::lines_of(
                crate::vfs::lossy_text(bytes@),
            )),
            data is Err ==> final(self).viewer == old(self).viewer,
            final(self).modal == old(self).modal,
            final(self).left == old(self).left,
            final(self).right == old(self).right,
    {
        match data {
            Ok(bytes) => {
                let lines = read_file_lines(&bytes);
                self.viewer = Some(Viewer { path, lines, scroll: 0 });
            },
            Err(e) => {
                self.status = cat("View failed: ", e.as_str());
            },
        }
    }

    /// Takes back an archive read for the viewer
    /// (`Request::ViewArchiveMember`).
    pub fn archive_read(
        &mut self,
        prefix: String,
        entry: String,
        data: Result<Vec<u8>, String>,
    )
        requires
            old(self).wf(),
        ensures
            final(self).wf(),
            data is Err ==> final(self).viewer == old(self).viewer,
            data matches Ok(bytes) ==> (crate::vfs::zip_member_readable(bytes@, prefix@ + entry@)
                ==> (final(self).viewer matches Some(v) && v.path == entry && v.scroll == 0
                && crate::vfs::text_views(v.lines@) == crate::vfs::lines_of(
                crate::vfs::lossy_text(crate::vfs::zip_member_bytes(bytes@, prefix@ + entry@)),
            ))),
            data matches Ok(bytes) ==> (!crate::vfs::zip_member_readable(bytes@, prefix@ + entry@)
                ==> final(self).viewer == old(self).viewer),
            final(self).modal == old(self).modal,
            final(self).left == old(self).left,
            final(self).right == old(self).right,
    {
        let bytes = match data {
            Ok(b) => b,
            Err(e) => {
                self.status = cat("View failed: ", e.as_str());
                return;
            },
        };
        match read_zip_file_lines(&bytes, prefix.as_str(), entry.as_str()) {
            Ok(lines) => {
                self.viewer = Some(Viewer { path: entry, lines, scroll: 0 });
            },
            Err(e) => {
                self.status = cat("View failed: ", e.as_str());
            },
        }
    }

    fn open_editor(&mut self) -> (r: Vec<Request>)
        requires
            old(self).wf(),
        ensures
            final(self).wf(),
            final(self).active == old(self).active,
            match file_under_cursor(old(self).pane(old(self).active)) {
                Some(f) => r@.len() == 1 && (r@[0] matches Request::Edit { path } && path@ == f),
                None => r@.len() == 0,
            },
            final(self).modal == old(self).modal,
            final(self).left == old(self).left,
            final(self).right == old(self).right,
    {
        let pane = self.side_pane(self.active);
        let entry = match pane.selected_entry() {
            Some(e) => e,
            None => {
                self.status = text("No file selected");
                return Vec::new();
            },
        };
        if entry.is_dir {
            self.status = text("Cannot edit directory");
            return Vec::new();
        }
        vec![Request::Edit { path: entry.path.clone() }]
    }

    /// Takes back the end of an editor run (`Request::Edit`).
    pub fn editor_finished(&mut self, result: Result<(), String>) -> (r: Vec<Request>)
        requires
            old(self).wf(),
        ensures
            final(self).wf(),
            final(self).left == old(self).left,
            final(self).right == old(self).right,
            final(self).modal == old(self).modal,
            result is Ok ==> r@.len() == 1 && (r@[0] matches Request::Relist { side, mode, failure: None } && side == old(self).active && mode == RefreshMode::Keep),
            result is Err ==> r@.len() == 0,
    {
        match result {
            Ok(()) => {
                self.status = text("Editor closed");
                vec![relist(self.active, RefreshMode::Keep)]
            },
            Err(e) => {
                self.status = cat("Editor failed: ", e.as_str());
                Vec::new()
            },
        }
    }

    fn begin_transfer(&mut self, is_copy: bool) -> (r: Vec<Request>)
        requires
            old(self).wf(),
        ensures
            final(self).wf(),
            r@.len() == 0,
            transfer_dialog_opened(*old(self), *final(self), is_copy),
    {
        let side = self.active;
        if self.side_pane(side).vfs.is_some() {
            self.status = if is_copy {
                text("Copy from archive not supported")
            } else {
                text("Move in archive not supported")
            };
            return Vec::new();
        }
        let sources = selected_paths(self.side_pane(side));
        if sources.len() == 0 {
            self.status = text("No file selected");
            return Vec::new();
        }
        let source_name = if sources.len() == 1 {
            match file_name(sources[0].as_str()) {
                Some(n) => n,
                None => String::new(),
            }
        } else {
            cat(decimal(sources.len() as u64).as_str(), " files")
        };
        let dest_dir = self.side_pane(other(side)).cwd.clone();
        let dest = if sources.len() == 1 {
            join(dest_dir.as_str(), source_name.as_str())
        } else {
            dest_dir
        };
        proof {
            assert(texts(sources@) == selection_paths(self.pane(side)));
            assert(sources@.len() == 1 ==> sources@[0]@ == texts(sources@)[0]);
        }
        let cursor = dest.unicode_len();
        if cursor == usize::MAX {
            // A destination this long could not be edited: no dialog.
            return Vec::new();
        }
        let state = CopyDialogState {
            sources,
            source_name,
            dest,
            cursor,
            include_subdirs: false,
            copy_newer_only: false,
            use_filters: false,
            check_target_space: false,
            focus: CopyDialogFocus::Input,
        };
        self.modal = Some(
            if is_copy {
                Modal::CopyDialog(state)
            } else {
                Modal::MoveDialog(state)
            },
        );
        Vec::new()
    }

    fn begin_mkdir(&mut self)
        requires
            old(self).wf(),
        ensures
            final(self).wf(),
            final(self).left == old(self).left,
            final(self).right == old(self).right,
            mkdir_prompt_opened(*old(self), *final(self)),
    {
        let pane = self.side_pane(self.active);
        if pane.vfs.is_some() {
            self.status = text("Mkdir in archive not supported");
            return;
        }
        let base = pane.cwd.clone();
        let value = text("new_folder");
        let cursor = value.unicode_len();
        proof {
            reveal_strlit("new_folder");
        }
        self.modal = Some(
            Modal::Prompt {
                title: text("Make directory"),
                label: text("Directory name:"),
                value,
                cursor,
                action: PendingPrompt::Mkdir { base },
            },
        );
    }

    fn begin_delete(&mut self)
        requires
            old(self).wf(),
        ensures
            final(self).wf(),
            delete_dialog_opened(*old(self), *final(self)),
    {
        let side = self.active;
        if self.side_pane(side).vfs.is_some() {
            self.status = text("Delete in archive not supported");
            return;
        }
        let sources = selected_paths(self.side_pane(side));
        if sources.len() == 0 {
            self.status = text("No file selected");
            return;
        }
        let source_name = if sources.len() == 1 {
            match self.side_pane(side).selected_entry() {
                Some(e) => e.name.clone(),
                None => String::new(),
            }
        } else {
            cat(decimal(sources.len() as u64).as_str(), " files")
        };
        self.modal = Some(Modal::DeleteDialog { sources, source_name, use_filters: false, focus: 1 });
    }

    fn begin_find(&mut self)
        requires
            old(self).wf(),
        ensures
            final(self).wf(),
            final(self).left == old(self).left,
            final(self).right == old(self).right,
    {
        let pane = self.side_pane(self.active);
        if pane.vfs.is_some() {
            self.status = text("Find in archive not supported");
            return;
        }
        let base = pane.cwd.clone();
        self.modal = Some(
            Modal::Prompt {
                title: text("Find file"),
                label: text("Search:"),
                value: String::new(),
                cursor: 0,
                action: PendingPrompt::Find { base },
            },
        );
    }

    /// Takes back the results of a search (`Request::Find`).
    pub fn found(&mut self, query: String, results: Vec<String>)
        requires
            old(self).wf(),
        ensures
            final(self).wf(),
            results@.len() == 0 ==> final(self).modal is None,
            results@.len() > 0 ==> (final(self).modal matches Some(
                Modal::FindResults { items, selected, scroll, .. },
            ) && items@ == results@ && selected == 0 && scroll == 0),
    {
        if results.len() == 0 {
            self.status = text("No matches");
            self.modal = None;
        } else {
            self.modal = Some(Modal::FindResults { query, items: results, selected: 0, scroll: 0 });
        }
    }

    /// Takes back whether a chosen search result is a directory
    /// (`Request::OpenFound`): a directory becomes the active pane's
    /// location, a file opens in the viewer.
    pub fn found_opened(&mut self, path: String, is_dir: bool) -> (r: Vec<Request>)
        requires
            old(self).wf(),
        ensures
            final(self).wf(),
            final(self).left == old(self).left,
            final(self).right == old(self).right,
            is_dir ==> r@.len() == 1 && is_navigate(r@[0], old(self).active, dir_location(path@)),
            !is_dir ==> r@.len() == 1 && (r@[0] matches Request::ViewFile { path: p } && p == path),
    {
        if is_dir {
            vec![
                Request::Navigate {
                    side: self.active,
                    to: Location { cwd: path, vfs: None, panelized: None },
                    failure: Some(text("Open failed")),
                },
            ]
        } else {
            vec![Request::ViewFile { path }]
        }
    }

    /// Takes back a directory tree (`Request::BuildTree`).
    pub fn tree_built(&mut self, side: ActivePane, items: Vec<TreeItem>)
        requires
            old(self).wf(),
        ensures
            final(self).wf(),
            (final(self).modal matches Some(Modal::Tree { pane, items: t, selected, scroll })
                && pane == side && t@ == items@ && selected == 0 && scroll == 0),
            final(self).left == old(self).left,
            final(self).right == old(self).right,
    {
        self.modal = Some(Modal::Tree { pane: side, items, selected: 0, scroll: 0 });
    }

    /// Takes back the drive roots (`Request::ListDrives`).
    pub fn drives_listed(&mut self, side: ActivePane, items: Vec<String>)
        requires
            old(self).wf(),
        ensures
            final(self).wf(),
            (final(self).modal matches Some(Modal::DriveMenu { pane, items: d, selected, scroll })
                && pane == side && d@ == items@ && selected == 0 && scroll == 0),
            final(self).left == old(self).left,
            final(self).right == old(self).right,
    {
        self.modal = Some(Modal::DriveMenu { pane: side, items, selected: 0, scroll: 0 });
    }

    /// Takes back the user menu file (`Request::LoadUserMenu`); unreadable
    /// content gives an empty menu.
    pub fn user_menu_loaded(&mut self, config_path: String, content: Option<String>)
        requires
            old(self).wf(),
        ensures
            final(self).wf(),
            (final(self).modal matches Some(Modal::UserMenu { items, selected, scroll, config_path: p })
                && p == config_path && selected == 0 && scroll == 0 && match content {
                Some(c) => crate::usermenu::item_views(items@) == crate::usermenu::menu_entries(
                    crate::vfs::lines_of(c@),
                    crate::vfs::lines_of(c@).len() as int,
                ),
                None => items@.len() == 0,
            }),
            final(self).left == old(self).left,
            final(self).right == old(self).right,
    {
        let items = match content {
            Some(c) => parse_user_menu(c.as_str()),
            None => Vec::new(),
        };
        self.modal = Some(Modal::UserMenu { items, selected: 0, scroll: 0, config_path });
    }

    fn begin_sync_dirs(&mut self) -> (r: Vec<Request>)
        requires
            old(self).wf(),
        ensures
            final(self).wf(),
            final(self).modal == old(self).modal,
            final(self).left == old(self).left,
            final(self).right == old(self).right,
    {
        if self.left.vfs.is_some() || self.right.vfs.is_some() {
            self.status = text("Sync in archive not supported");
            return Vec::new();
        }
        let (src, dst) = match self.active {
            ActivePane::Left => (self.left.cwd.clone(), self.right.cwd.clone()),
            ActivePane::Right => (self.right.cwd.clone(), self.left.cwd.clone()),
        };
        vec![Request::ScanSync { src, dst }]
    }

    /// Takes back a walk of the source tree (`Request::ScanSync`): nothing
    /// to do is reported, anything else is put to the user to confirm.
    pub fn sync_scanned(&mut self, src: String, dst: String, items: Vec<SyncItem>)
        requires
            old(self).wf(),
        ensures
            final(self).wf(),
            final(self).left == old(self).left,
            final(self).right == old(self).right,
            crate::fs_ops::sync_ops(items@, items@.len() as int).len() == 0 ==> final(self).modal
                == old(self).modal,
            crate::fs_ops::sync_ops(items@, items@.len() as int).len() > 0 ==> (final(self).modal matches Some(
                Modal::Confirm { action, .. },
            ) && (action matches PendingConfirm::Sync { ops, src_root, dst_root } && ops@.map_values(
                |o: String| o@,
            ) == crate::fs_ops::sync_ops(items@, items@.len() as int) && src_root == src
                && dst_root == dst)),
    {
        let ops = sync_plan(&items);
        if ops.len() == 0 {
            self.status = text("Directories already in sync");
            return;
        }
        let count = cat("Sync ", decimal(ops.len() as u64).as_str());
        let message = cat(count.as_str(), " item(s)?");
        self.modal = Some(
            Modal::Confirm {
                title: text("Synchronize"),
                message,
                action: PendingConfirm::Sync { ops, src_root: src, dst_root: dst },
            },
        );
    }

    fn begin_chmod(&mut self) -> (r: Vec<Request>)
        requires
            old(self).wf(),
        ensures
            final(self).wf(),
            final(self).active == old(self).active,
            chmod_requests(old(self).pane(old(self).active), r@),
            final(self).modal == old(self).modal,
            final(self).left == old(self).left,
            final(self).right == old(self).right,
    {
        let pane = self.side_pane(self.active);
        if pane.vfs.is_some() {
            self.status = text("Attributes in archive not supported");
            return Vec::new();
        }
        match pane.selected_entry() {
            None => {
                self.status = text("No file selected");
                Vec::new()
            },
            Some(e) => vec![Request::ProbeMode { target: e.path.clone() }],
        }
    }

    /// Takes back a path's permission bits (`Request::ProbeMode`) and asks
    /// for new ones, offering the current bits in octal, or 644 when they
    /// could not be read.
    pub fn mode_probed(&mut self, target: String, mode: Option<u32>)
        requires
            old(self).wf(),
        ensures
            final(self).wf(),
            (final(self).modal matches Some(Modal::Prompt { value, cursor, action, .. }) && (
            action matches PendingPrompt::Chmod { target: t } && t == target) && cursor
                == value@.len() && match mode {
                Some(m) => value@ == crate::text::octal_text((m % 512) as nat),
                None => value@ == "644"@,
            }),
            final(self).left == old(self).left,
            final(self).right == old(self).right,
    {
        let value = match mode {
            Some(m) => {
                proof {
                    crate::text::lemma_octal_short((m % 512) as nat);
                }
                octal((m % 512) as u64)
            },
            None => text("644"),
        };
        proof {
            reveal_strlit("644");
        }
        let cursor = value.unicode_len();
        self.modal = Some(
            Modal::Prompt {
                title: text("Attributes"),
                label: text("Chmod (octal):"),
                value,
                cursor,
                action: PendingPrompt::Chmod { target },
            },
        );
    }

    /// Takes back which targets of a copy or move exist
    /// (`Request::CheckTransfer`). Any conflict opens a confirmation to
    /// overwrite; without one the transfer goes ahead without overwriting.
    pub fn transfer_checked(
        &mut self,
        kind: OverwriteKind,
        sources: Vec<String>,
        dest: String,
        dest_is_dir: bool,
        existing: Vec<String>,
    ) -> (r: Vec<Request>)
        requires
            old(self).wf(),
        ensures
            final(self).wf(),
            final(self).left == old(self).left,
            final(self).right == old(self).right,
            find_conflicts_spec(sources@, dest@, dest_is_dir, existing@) is Some ==> r@.len() == 0
                && (final(self).modal matches Some(Modal::Confirm { action, .. }) && action matches PendingConfirm::Overwrite {
                kind: k,
                sources: s,
                dest: d,
            } && k == kind && s@ == sources@ && d@ == dest@),
            find_conflicts_spec(sources@, dest@, dest_is_dir, existing@) is None ==> r@.len() == 1
                && (r@[0] matches Request::Transfer { kind: k, sources: s, dest: d, overwrite } && k
                == kind && s@ == sources@ && d@ == dest@ && !overwrite) && final(self).modal
                == old(self).modal,
    {
        match find_conflicts(&sources, &dest, dest_is_dir, &existing) {
            Some(n) => {
                let head = cat("Overwrite ", decimal(n as u64).as_str());
                let message = cat(head.as_str(), " item(s)?");
                self.modal = Some(
                    Modal::Confirm {
                        title: text("Overwrite"),
                        message,
                        action: PendingConfirm::Overwrite { kind, sources, dest },
                    },
                );
                Vec::new()
            },
            None => vec![Request::Transfer { kind, sources, dest, overwrite: false }],
        }
    }

    /// Takes back the outcome of a transfer (`Request::Transfer`) and says
    /// which listings to read again.
    pub fn transfer_finished(&mut self, kind: OverwriteKind, overwrite: bool, result: Result<(), String>) -> (r: Vec<Request>)
        requires
            old(self).wf(),
        ensures
            final(self).wf(),
            final(self).left == old(self).left,
            final(self).right == old(self).right,
            final(self).modal == old(self).modal,
            result is Err ==> r@.len() == 0,
            result is Ok && !overwrite && kind == OverwriteKind::Copy ==> r@.len() == 1
                && is_relist(r@[0], other_side(old(self).active), RefreshMode::Keep)
                && final(self).status@ == "Copy complete"@,
            result is Ok && !overwrite && kind == OverwriteKind::Move ==> final(self).status@
                == "Move complete"@,
            result is Ok && overwrite ==> final(self).status@ == "Operation complete"@,
            result is Ok && (overwrite || kind == OverwriteKind::Move) ==> r@.len() == 2
                && is_relist(r@[0], old(self).active, RefreshMode::Keep) && is_relist(
                r@[1],
                other_side(old(self).active),
                RefreshMode::Keep,
            ),
            result matches Err(e) ==> final(self).status@ == (if overwrite {
                "Overwrite failed: "@
            } else if kind == OverwriteKind::Copy {
                "Copy failed: "@
            } else {
                "Move failed: "@
            }) + e@,
    {
        let active = self.active;
        match result {
            Ok(()) => {
                if overwrite {
                    self.status = text("Operation complete");
                    vec![relist(active, RefreshMode::Keep), relist(other(active), RefreshMode::Keep)]
                } else {
                    match kind {
                        OverwriteKind::Copy => {
                            self.status = text("Copy complete");
                            vec![relist(other(active), RefreshMode::Keep)]
                        },
                        OverwriteKind::Move => {
                            self.status = text("Move complete");
                            vec![relist(active, RefreshMode::Keep), relist(other(active), RefreshMode::Keep)]
                        },
                    }
                }
            },
            Err(e) => {
                self.status = if overwrite {
                    cat("Overwrite failed: ", e.as_str())
                } else {
                    match kind {
                        OverwriteKind::Copy => cat("Copy failed: ", e.as_str()),
                        OverwriteKind::Move => cat("Move failed: ", e.as_str()),
                    }
                };
                Vec::new()
            },
        }
    }

    /// Takes back the outcome of a delete (`Request::Delete`).
    pub fn delete_finished(&mut self, result: Result<(), String>) -> (r: Vec<Request>)
        requires
            old(self).wf(),
        ensures
            final(self).wf(),
            final(self).left == old(self).left,
            final(self).right == old(self).right,
            final(self).modal == old(self).modal,
            result matches Err(e) ==> r@.len() == 0 && final(self).status@ == "Delete failed: "@
                + e@,
            result is Ok ==> r@.len() == 1 && is_relist(r@[0], old(self).active, RefreshMode::Keep)
                && final(self).status@ == "Deleted"@,
    {
        match result {
            Ok(()) => {
                self.status = text("Deleted");
                vec![relist(self.active, RefreshMode::Keep)]
            },
            Err(e) => {
                self.status = cat("Delete failed: ", e.as_str());
                Vec::new()
            },
        }
    }

    /// Takes back the outcome of making a directory (`Request::Mkdir`).
    pub fn mkdir_finished(&mut self, path: String, result: Result<(), String>) -> (r: Vec<Request>)
        requires
            old(self).wf(),
        ensures
            final(self).wf(),
            final(self).left == old(self).left,
            final(self).right == old(self).right,
            final(self).modal == old(self).modal,
            result matches Err(e) ==> r@.len() == 0 && final(self).status@ == "Mkdir failed: "@
                + e@,
            result is Ok ==> r@.len() == 1 && is_relist(r@[0], old(self).active, RefreshMode::Keep)
                && final(self).status@ == "Created "@ + path@,
    {
        match result {
            Ok(()) => {
                self.status = cat("Created ", path.as_str());
                vec![relist(self.active, RefreshMode::Keep)]
            },
            Err(e) => {
                self.status = cat("Mkdir failed: ", e.as_str());
                Vec::new()
            },
        }
    }

    /// Takes back the outcome of a permission change (`Request::Chmod`).
    pub fn chmod_finished(&mut self, target: String, result: Result<(), String>) -> (r: Vec<Request>)
        requires
            old(self).wf(),
        ensures
            final(self).wf(),
            final(self).left == old(self).left,
            final(self).right == old(self).right,
            final(self).modal == old(self).modal,
            result matches Err(e) ==> r@.len() == 0 && final(self).status@ == "Chmod failed: "@
                + e@,
            result is Ok ==> r@.len() == 1 && is_relist(r@[0], old(self).active, RefreshMode::Keep)
                && final(self).status@ == "Chmod "@ + target@,
    {
        match result {
            Ok(()) => {
                self.status = cat("Chmod ", target.as_str());
                vec![relist(self.active, RefreshMode::Keep)]
            },
            Err(e) => {
                self.status = cat("Chmod failed: ", e.as_str());
                Vec::new()
            },
        }
    }

    /// Takes back the outcome of a sync (`Request::Sync`): the number of
    /// items copied, or the failure that stopped it.
    pub fn sync_finished(&mut self, result: Result<usize, String>) -> (r: Vec<Request>)
        requires
            old(self).wf(),
        ensures
            final(self).wf(),
            final(self).left == old(self).left,
            final(self).right == old(self).right,
            final(self).modal == old(self).modal,
            result matches Err(e) ==> r@.len() == 0 && final(self).status@ == "Sync failed: "@
                + e@,
            result matches Ok(n) ==> r@.len() == 2 && is_relist(r@[0], ActivePane::Left, RefreshMode::Keep)
                && is_relist(r@[1], ActivePane::Right, RefreshMode::Keep) && final(self).status@
                == "Synchronized "@ + crate::text::decimal_text(n as nat),
    {
        match result {
            Ok(count) => {
                self.status = cat("Synchronized ", decimal(count as u64).as_str());
                vec![relist(ActivePane::Left, RefreshMode::Keep), relist(ActivePane::Right, RefreshMode::Keep)]
            },
            Err(e) => {
                self.status = cat("Sync failed: ", e.as_str());
                Vec::new()
            },
        }
    }

    /// What a confirmed action asks for.
    pub fn execute_confirm(&mut self, action: PendingConfirm) -> (r: Vec<Request>)
        requires
            old(self).wf(),
        ensures
            final(self).wf(),
            final(self).left == old(self).left,
            final(self).right == old(self).right,
            final(self).modal == old(self).modal,
            confirm_requests(action, r@),
            final(self).status == old(self).status,
            r@.len() == 1,
            action matches PendingConfirm::Delete { sources } ==> (r@[0] matches Request::Delete { paths } && paths@ == sources@),
            action matches PendingConfirm::Overwrite { kind, sources, dest } ==> (r@[0] matches Request::Transfer { kind: k, sources: s, dest: d, overwrite } && k == kind && s@ == sources@ && d@ == dest@ && overwrite),
            action matches PendingConfirm::Sync { ops, src_root, dst_root } ==> (r@[0] matches Request::Sync { ops: o, src_root: s, dst_root: d } && o@ == ops@ && s@ == src_root@ && d@ == dst_root@),
    {
        match action {
            PendingConfirm::Delete { sources } => vec![Request::Delete { paths: sources }],
            PendingConfirm::Overwrite { kind, sources, dest } => vec![
                Request::Transfer { kind, sources, dest, overwrite: true },
            ],
            PendingConfirm::Sync { ops, src_root, dst_root } => vec![
                Request::Sync { ops, src_root, dst_root },
            ],
        }
    }

    /// What a prompt's answer asks for. The prompt is closed, except that a
    /// search opens its results once they come back.
    pub fn execute_prompt(&mut self, action: PendingPrompt, input: String) -> (r: Vec<Request>)
        requires
            old(self).wf(),
        ensures
            final(self).wf(),
            final(self).left == old(self).left,
            final(self).right == old(self).right,
            final(self).modal is None,
            r@.len() == 1,
            action matches PendingPrompt::CopyTo { sources } ==> (r@[0] matches Request::CheckTransfer { kind, sources: s, dest } && kind == OverwriteKind::Copy && s@ == sources@ && dest == input),
            action matches PendingPrompt::MoveTo { sources } ==> (r@[0] matches Request::CheckTransfer { kind, sources: s, dest } && kind == OverwriteKind::Move && s@ == sources@ && dest == input),
            action matches PendingPrompt::Mkdir { base } ==> (r@[0] matches Request::Mkdir { path } && path@ == crate::paths::path_join(base@, input@)),
            action matches PendingPrompt::Find { base } ==> (r@[0] matches Request::Find { base: b, query } && b == base && query == input),
            action matches PendingPrompt::Chmod { target } ==> (r@[0] matches Request::Chmod { target: t, mode } && t == target && mode as int == crate::fs_ops::chmod_bits(input@)),
    {
        self.modal = None;
        match action {
            PendingPrompt::CopyTo { sources } => vec![
                Request::CheckTransfer { kind: OverwriteKind::Copy, sources, dest: input },
            ],
            PendingPrompt::MoveTo { sources } => vec![
                Request::CheckTransfer { kind: OverwriteKind::Move, sources, dest: input },
            ],
            PendingPrompt::Mkdir { base } => vec![Request::Mkdir { path: join(base.as_str(), input.as_str()) }],
            PendingPrompt::Find { base } => vec![Request::Find { base, query: input }],
            PendingPrompt::Chmod { target } => {
                let mode = parse_chmod_mode(input.as_str());
                vec![Request::Chmod { target, mode }]
            },
        }
    }
}

impl App {
    fn set_mode(&mut self, side: ActivePane, mode: PanelMode)
        requires
            old(self).wf(),
        ensures
            final(self).wf(),
            final(self).pane(side).mode == mode,
            final(self).modal == old(self).modal,
    {
        match side {
            ActivePane::Left => self.left.mode = mode,
            ActivePane::Right => self.right.mode = mode,
        }
    }

    fn set_sort(&mut self, side: ActivePane, mode: SortMode) -> (r: Request)
        requires
            old(self).wf(),
        ensures
            final(self).wf(),
            final(self).pane(side).sort_mode == mode,
            final(self).modal == old(self).modal,
    {
        match side {
            ActivePane::Left => self.left.sort_mode = mode,
            ActivePane::Right => self.right.sort_mode = mode,
        }
        relist(side, RefreshMode::Keep)
    }

    fn toggle_hidden_side(&mut self, side: ActivePane)
        requires
            old(self).wf(),
        ensures
            final(self).wf(),
            side == ActivePane::Left ==> final(self).hide_left == !old(self).hide_left
                && final(self).hide_right == old(self).hide_right,
            side == ActivePane::Right ==> final(self).hide_right == !old(self).hide_right
                && final(self).hide_left == old(self).hide_left,
            final(self).modal == old(self).modal,
            final(self).left == old(self).left,
            final(self).right == old(self).right,
    {
        match side {
            ActivePane::Left => {
                self.hide_left = !self.hide_left;
                if self.hide_left && self.active == ActivePane::Left {
                    self.active = ActivePane::Right;
                }
            },
            ActivePane::Right => {
                self.hide_right = !self.hide_right;
                if self.hide_right && self.active == ActivePane::Right {
                    self.active = ActivePane::Left;
                }
            },
        }
    }

    /// Carries out a menu action; the menu itself is already closed.
    pub fn dispatch_menu_action(&mut self, action: MenuAction) -> (r: Vec<Request>)
        requires
            old(self).wf(),
            old(self).modal is None,
        ensures
            final(self).wf(),
            action == MenuAction::Quit ==> r@.len() == 1 && r@[0] is Quit,
            action == MenuAction::LeftSortName ==> final(self).left.sort_mode == crate::entry::name_toggled(old(self).left.sort_mode),
            action == MenuAction::RightSortName ==> final(self).right.sort_mode == crate::entry::name_toggled(old(self).right.sort_mode),
            action == MenuAction::LeftUnsorted ==> final(self).left.sort_mode == SortMode::Unsorted,
            action == MenuAction::RightUnsorted ==> final(self).right.sort_mode == SortMode::Unsorted,
            action == MenuAction::LeftSortExt ==> final(self).left.sort_mode == crate::entry::ext_toggled(old(self).left.sort_mode),
            action == MenuAction::RightSortExt ==> final(self).right.sort_mode == crate::entry::ext_toggled(old(self).right.sort_mode),
            action == MenuAction::LeftSortTime ==> final(self).left.sort_mode == crate::entry::time_toggled(old(self).left.sort_mode),
            action == MenuAction::RightSortTime ==> final(self).right.sort_mode == crate::entry::time_toggled(old(self).right.sort_mode),
            action == MenuAction::LeftSortSize ==> final(self).left.sort_mode == crate::entry::size_toggled(old(self).left.sort_mode),
            action == MenuAction::RightSortSize ==> final(self).right.sort_mode == crate::entry::size_toggled(old(self).right.sort_mode),
            action == MenuAction::LeftBrief ==> final(self).left.mode == PanelMode::Brief,
            action == MenuAction::LeftFull ==> final(self).left.mode == PanelMode::Full,
            action == MenuAction::LeftInfo ==> final(self).left.mode == PanelMode::Info,
            action == MenuAction::LeftTree ==> final(self).left.mode == PanelMode::Tree,
            action == MenuAction::LeftQuickView ==> final(self).left.mode == PanelMode::QuickView,
            action == MenuAction::RightBrief ==> final(self).right.mode == PanelMode::Brief,
            action == MenuAction::RightFull ==> final(self).right.mode == PanelMode::Full,
            action == MenuAction::RightInfo ==> final(self).right.mode == PanelMode::Info,
            action == MenuAction::RightTree ==> final(self).right.mode == PanelMode::Tree,
            action == MenuAction::RightQuickView ==> final(self).right.mode == PanelMode::QuickView,
            action == MenuAction::Help ==> (final(self).modal matches Some(Modal::Help { page, scroll }) && page == 0 && scroll == 0),
            action == MenuAction::About ==> (final(self).modal matches Some(Modal::About)),
            action == MenuAction::LeftOnOff ==> final(self).hide_left == !old(self).hide_left,
            action == MenuAction::RightOnOff ==> final(self).hide_right == !old(self).hide_right,
    {
        match action {
            MenuAction::Quit => vec![Request::Quit],
            MenuAction::View => self.open_viewer(),
            MenuAction::Edit => self.open_editor(),
            MenuAction::Copy => self.begin_transfer(true),
            MenuAction::Move => self.begin_transfer(false),
            MenuAction::Tree => {
                let side = self.active;
                vec![Request::BuildTree { side, base: self.side_pane(side).cwd.clone() }]
            },
            MenuAction::Find => {
                self.begin_find();
                Vec::new()
            },
            MenuAction::Config => {
                self.modal = Some(
                    Modal::Config {
                        page: 0,
                        selected: 0,
                        show_hidden: self.show_hidden,
                        auto_save: false,
                        confirm_delete: true,
                        confirm_overwrite: true,
                    },
                );
                Vec::new()
            },
            MenuAction::PanelOptions => {
                let side = self.active;
                let dirs_first = self.side_pane(side).dirs_first;
                let sort_mode = self.side_pane(side).sort_mode;
                self.modal = Some(Modal::PanelOptions { pane: side, selected: 0, dirs_first, sort_mode });
                Vec::new()
            },
            MenuAction::LeftBrief => {
                self.set_mode(ActivePane::Left, PanelMode::Brief);
                Vec::new()
            },
            MenuAction::LeftFull => {
                self.set_mode(ActivePane::Left, PanelMode::Full);
                Vec::new()
            },
            MenuAction::LeftInfo => {
                self.set_mode(ActivePane::Left, PanelMode::Info);
                Vec::new()
            },
            MenuAction::LeftTree => {
                self.set_mode(ActivePane::Left, PanelMode::Tree);
                Vec::new()
            },
            MenuAction::LeftQuickView => {
                self.set_mode(ActivePane::Left, PanelMode::QuickView);
                Vec::new()
            },
            MenuAction::LeftOnOff => {
                self.toggle_hidden_side(ActivePane::Left);
                Vec::new()
            },
            MenuAction::LeftSortName => {
                let m = toggle_name_sort(self.left.sort_mode);
                vec![self.set_sort(ActivePane::Left, m)]
            },
            MenuAction::LeftSortExt => {
                let m = toggle_ext_sort(self.left.sort_mode);
                vec![self.set_sort(ActivePane::Left, m)]
            },
            MenuAction::LeftSortTime => {
                let m = toggle_time_sort(self.left.sort_mode);
                vec![self.set_sort(ActivePane::Left, m)]
            },
            MenuAction::LeftSortSize => {
                let m = toggle_size_sort(self.left.sort_mode);
                vec![self.set_sort(ActivePane::Left, m)]
            },
            MenuAction::LeftUnsorted => vec![self.set_sort(ActivePane::Left, SortMode::Unsorted)],
            MenuAction::LeftReread => vec![relist(ActivePane::Left, RefreshMode::Keep)],
            MenuAction::LeftFilter | MenuAction::RightFilter => {
                self.status = text("Filters not implemented");
                Vec::new()
            },
            MenuAction::LeftDrive => vec![Request::ListDrives { side: ActivePane::Left }],
            MenuAction::RightBrief => {
                self.set_mode(ActivePane::Right, PanelMode::Brief);
                Vec::new()
            },
            MenuAction::RightFull => {
                self.set_mode(ActivePane::Right, PanelMode::Full);
                Vec::new()
            },
            MenuAction::RightInfo => {
                self.set_mode(ActivePane::Right, PanelMode::Info);
                Vec::new()
            },
            MenuAction::RightTree => {
                self.set_mode(ActivePane::Right, PanelMode::Tree);
                Vec::new()
            },
            MenuAction::RightQuickView => {
                self.set_mode(ActivePane::Right, PanelMode::QuickView);
                Vec::new()
            },
            MenuAction::RightOnOff => {
                self.toggle_hidden_side(ActivePane::Right);
                Vec::new()
            },
            MenuAction::RightSortName => {
                let m = toggle_name_sort(self.right.sort_mode);
                vec![self.set_sort(ActivePane::Right, m)]
            },
            MenuAction::RightSortExt => {
                let m = toggle_ext_sort(self.right.sort_mode);
                vec![self.set_sort(ActivePane::Right, m)]
            },
            MenuAction::RightSortTime => {
                let m = toggle_time_sort(self.right.sort_mode);
                vec![self.set_sort(ActivePane::Right, m)]
            },
            MenuAction::RightSortSize => {
                let m = toggle_size_sort(self.right.sort_mode);
                vec![self.set_sort(ActivePane::Right, m)]
            },
            MenuAction::RightUnsorted => vec![self.set_sort(ActivePane::Right, SortMode::Unsorted)],
            MenuAction::RightReread => vec![relist(ActivePane::Right, RefreshMode::Keep)],
            MenuAction::RightDrive => vec![Request::ListDrives { side: ActivePane::Right }],
            MenuAction::Help => {
                self.modal = Some(Modal::Help { page: 0, scroll: 0 });
                Vec::new()
            },
            MenuAction::About => {
                self.modal = Some(Modal::About);
                Vec::new()
            },
            MenuAction::Nothing => Vec::new(),
        }
    }

    /// A key in the copy or move dialog. Tab and Shift+Tab turn the focus
    /// round its ring; Space toggles the focused checkbox or types a space
    /// in the destination; editing keys edit the destination while it has
    /// the focus; Enter on the destination or the action button closes the
    /// dialog and asks to check the transfer for conflicts; Escape, Cancel,
    /// and Enter on a checkbox close it.
    pub fn handle_copy_move_dialog_key(
        &mut self,
        key: KeyEvent,
        state: CopyDialogState,
        is_copy: bool,
    ) -> (r: Vec<Request>)
        requires
            old(self).wf(),
            old(self).modal is None,
            state.cursor <= state.dest@.len(),
            state.dest@.len() < usize::MAX,
        ensures
            final(self).wf(),
            final(self).left == old(self).left,
            final(self).right == old(self).right,
            key.code == KeyCode::Escape ==> final(self).modal is None && r@.len() == 0
                && final(self).status == old(self).status,
            final(self).show_hidden == old(self).show_hidden,
            final(self).viewer == old(self).viewer,
            (key.code == KeyCode::Tab || key.code == KeyCode::BackTab) ==> (final(self).modal matches Some(m) && (
            match m {
                Modal::CopyDialog(s) => same_but_focus(s, state),
                Modal::MoveDialog(s) => same_but_focus(s, state),
                _ => false,
            })),
            key.code == KeyCode::Tab ==> r@.len() == 0 && (final(self).modal matches Some(m) && (
            match m {
                Modal::CopyDialog(s) => is_copy && crate::modal::focus_index(s.focus) == (
                crate::modal::focus_index(state.focus) + 1) % 9,
                Modal::MoveDialog(s) => !is_copy && crate::modal::focus_index(s.focus) == (
                crate::modal::focus_index(state.focus) + 1) % 9,
                _ => false,
            })),
            key.code == KeyCode::BackTab ==> r@.len() == 0 && (final(self).modal matches Some(m) && (
            match m {
                Modal::CopyDialog(s) => is_copy && crate::modal::focus_index(s.focus) == (
                crate::modal::focus_index(state.focus) + 8) % 9,
                Modal::MoveDialog(s) => !is_copy && crate::modal::focus_index(s.focus) == (
                crate::modal::focus_index(state.focus) + 8) % 9,
                _ => false,
            })),
            key.code == KeyCode::Enter && (state.focus == CopyDialogFocus::Input || state.focus
                == CopyDialogFocus::BtnCopy) ==> final(self).modal is None && r@.len() == 1 && (
            r@[0] matches Request::CheckTransfer { kind, sources, dest } && sources@ == state.sources@
                && dest@ == state.dest@ && (kind == OverwriteKind::Copy <==> is_copy)),
    {
        let mut state = state;
        match key.code {
            KeyCode::Escape => {
                return Vec::new();
            },
            KeyCode::Tab => {
                state.focus = next_focus(state.focus);
            },
            KeyCode::BackTab => {
                state.focus = prev_focus(state.focus);
            },
            KeyCode::Char(' ') => {
                match state.focus {
                    CopyDialogFocus::IncludeSubdirs => state.include_subdirs = !state.include_subdirs,
                    CopyDialogFocus::CopyNewerOnly => state.copy_newer_only = !state.copy_newer_only,
                    CopyDialogFocus::UseFilters => state.use_filters = !state.use_filters,
                    CopyDialogFocus::CheckTargetSpace => state.check_target_space = !state.check_target_space,
                    CopyDialogFocus::Input => {
                        if state.dest.unicode_len() < usize::MAX - 1 {
                            if let Some((v, c)) = edit_text(&state.dest, state.cursor, KeyCode::Char(' ')) {
                                state.dest = v;
                                state.cursor = c;
                            }
                        }
                    },
                    _ => {},
                }
            },
            KeyCode::Enter => {
                match state.focus {
                    CopyDialogFocus::Input | CopyDialogFocus::BtnCopy => {
                        let kind = if is_copy {
                            OverwriteKind::Copy
                        } else {
                            OverwriteKind::Move
                        };
                        return vec![
                            Request::CheckTransfer { kind, sources: state.sources, dest: state.dest },
                        ];
                    },
                    CopyDialogFocus::BtnTree => {
                        self.status = text("Tree browser not implemented");
                    },
                    CopyDialogFocus::BtnFilters => {
                        self.status = text("Filters not implemented");
                    },
                    _ => {
                        return Vec::new();
                    },
                }
            },
            code => {
                if state.focus == CopyDialogFocus::Input && state.dest.unicode_len() < usize::MAX - 1 {
                    if let Some((v, c)) = edit_text(&state.dest, state.cursor, code) {
                        state.dest = v;
                        state.cursor = c;
                    }
                }
            },
        }
        self.modal = Some(
            if is_copy {
                Modal::CopyDialog(state)
            } else {
                Modal::MoveDialog(state)
            },
        );
        Vec::new()
    }

    /// A key while a dialog or menu is open: the dialog's own transition,
    /// and the requests it makes. Escape (and F10 where the dialog has it)
    /// closes any dialog without further effect.
    #[verifier::rlimit(100)]
    pub fn handle_modal_key(&mut self, key: KeyEvent, modal: Modal) -> (r: Vec<Request>)
        requires
            old(self).wf(),
            old(self).modal is None,
            modal_wf(modal),
        ensures
            final(self).wf(),
            key.code == KeyCode::Escape && !(modal is PullDown) ==> final(self).modal is None
                && r@.len() == 0 && final(self).left == old(self).left && final(self).right
                == old(self).right && final(self).status == old(self).status && final(
                self).show_hidden == old(self).show_hidden && final(self).viewer == old(
                self).viewer,
            (key.code == KeyCode::Escape || key.code == KeyCode::F(9)) && modal is PullDown
                ==> final(self).modal is None && r@.len() == 0 && final(self).left == old(
                self).left && final(self).right == old(self).right && final(self).status == old(
                self).status && final(self).show_hidden == old(self).show_hidden && final(
                self).viewer == old(self).viewer,
            (key.code == KeyCode::Enter || key.code == KeyCode::Char('y')) ==> (modal matches Modal::Confirm {
                action,
                ..
            } ==> final(self).modal is None && confirm_requests(action, r@)),
            !(key.code == KeyCode::Enter || key.code == KeyCode::Char('y') || key.code
                == KeyCode::Char('n') || key.code == KeyCode::Escape) && modal is Confirm
                ==> final(self).modal == Some(modal) && r@.len() == 0 && final(self).left == old(
                self).left && final(self).right == old(self).right,
            key.code == KeyCode::Enter ==> (modal matches Modal::UserMenu { items, selected, .. }
                ==> final(self).modal is None && r@.len() == 0 && final(self).left == old(
                self).left && final(self).right == old(self).right && (selected < items@.len()
                ==> final(self).status@ == "Run: "@ + items@[selected as int].command@)),
            key.code == KeyCode::Up ==> (modal matches Modal::DriveMenu { selected, scroll, .. }
                ==> (final(self).modal matches Some(Modal::DriveMenu { selected: s, scroll: sc, .. })
                && (s as int, sc as int) == crate::modal::up_step(selected as int, scroll as int))),
            key.code == KeyCode::Up ==> (modal matches Modal::FindResults { selected, scroll, .. }
                ==> (final(self).modal matches Some(Modal::FindResults { selected: s, scroll: sc, .. })
                && (s as int, sc as int) == crate::modal::up_step(selected as int, scroll as int))),
            key.code == KeyCode::Up ==> (modal matches Modal::UserMenu { selected, scroll, .. }
                ==> (final(self).modal matches Some(Modal::UserMenu { selected: s, scroll: sc, .. })
                && (s as int, sc as int) == crate::modal::up_step(selected as int, scroll as int))),
            modal is Confirm && key.code == KeyCode::Char('n') ==> final(self).modal is None
                && r@.len() == 0,
            key.code == KeyCode::Down ==> (modal matches Modal::Tree { items, selected, scroll, .. }
                ==> (final(self).modal matches Some(Modal::Tree { selected: s, scroll: sc, .. })
                && (s as int, sc as int) == crate::modal::down_step(
                selected as int,
                scroll as int,
                items@.len() as int,
                8,
            ))),
            key.code == KeyCode::Up ==> (modal matches Modal::Tree { selected, scroll, .. } ==> (
            final(self).modal matches Some(Modal::Tree { selected: s, scroll: sc, .. }) && (
            s as int,
            sc as int,
        ) == crate::modal::up_step(selected as int, scroll as int))),
            key.code == KeyCode::Enter ==> (modal matches Modal::Tree { pane, items, selected, .. }
                ==> (selected < items@.len() ==> final(self).modal is None && final(self).left
                == old(self).left && final(self).right == old(self).right && r@.len() == 1
                && is_navigate(r@[0], pane, dir_location(items@[selected as int].path@)))),
            key.code == KeyCode::Down ==> (modal matches Modal::DriveMenu {
                items,
                selected,
                scroll,
                ..
            } ==> (final(self).modal matches Some(Modal::DriveMenu { selected: s, scroll: sc, .. })
                && (s as int, sc as int) == crate::modal::down_step(
                selected as int,
                scroll as int,
                items@.len() as int,
                8,
            ))),
            key.code == KeyCode::Enter ==> (modal matches Modal::DriveMenu {
                pane,
                items,
                selected,
                ..
            } ==> (selected < items@.len() ==> final(self).modal is None && final(self).left
                == old(self).left && final(self).right == old(self).right && r@.len() == 1
                && is_navigate(r@[0], pane, dir_location(items@[selected as int]@)))),
            key.code == KeyCode::Down ==> (modal matches Modal::FindResults {
                items,
                selected,
                scroll,
                ..
            } ==> (final(self).modal matches Some(Modal::FindResults { selected: s, scroll: sc, .. })
                && (s as int, sc as int) == crate::modal::down_step(
                selected as int,
                scroll as int,
                items@.len() as int,
                6,
            ))),
            key.code == KeyCode::Down ==> (modal matches Modal::UserMenu {
                items,
                selected,
                scroll,
                ..
            } ==> (final(self).modal matches Some(Modal::UserMenu { selected: s, scroll: sc, .. })
                && (s as int, sc as int) == crate::modal::down_step(
                selected as int,
                scroll as int,
                items@.len() as int,
                6,
            ))),
            key.code == KeyCode::Enter ==> (modal matches Modal::Prompt { value, .. } ==> (final(self).modal is None && (r@.len() == 0 <==> crate::text::trim_of(value@).len() == 0))),
            key.code == KeyCode::Enter ==> (modal matches Modal::DeleteDialog {
                sources,
                focus,
                ..
            } ==> (focus == 1 ==> final(self).modal is None && r@.len() == 1 && (r@[0] matches Request::Delete {
                paths,
            } && paths@ == sources@))),
    {
        match modal {
            Modal::Help { page, scroll } => {
                if let Some((p, s)) = help_key(page, scroll, key.code) {
                    self.modal = Some(Modal::Help { page: p, scroll: s });
                }
                Vec::new()
            },
            Modal::About => {
                if !(key.code == KeyCode::Escape || key.code == KeyCode::Enter || key.code
                    == KeyCode::F(10)) {
                    self.modal = Some(Modal::About);
                }
                Vec::new()
            },
            Modal::Config { page, selected, show_hidden, auto_save, confirm_delete, confirm_overwrite } => {
                if key.code == KeyCode::Escape || key.code == KeyCode::F(10) {
                    return Vec::new();
                }
                if key.code == KeyCode::Char(' ') || key.code == KeyCode::Enter {
                    let mut r: Vec<Request> = Vec::new();
                    let mut sh = show_hidden;
                    let mut ad = auto_save;
                    let mut cd = confirm_delete;
                    let mut co = confirm_overwrite;
                    if page == 0 && selected == 0 {
                        self.show_hidden = !self.show_hidden;
                        sh = self.show_hidden;
                        r.push(relist(ActivePane::Left, RefreshMode::Keep));
                        r.push(relist(ActivePane::Right, RefreshMode::Keep));
                    } else if page == 1 && selected == 0 {
                        cd = !cd;
                    } else if page == 1 && selected == 1 {
                        co = !co;
                    } else if page == 2 && selected == 0 {
                        ad = !ad;
                    }
                    self.modal = Some(
                        Modal::Config {
                            page,
                            selected,
                            show_hidden: sh,
                            auto_save: ad,
                            confirm_delete: cd,
                            confirm_overwrite: co,
                        },
                    );
                    return r;
                }
                let (p, s) = config_move(page, selected, key.code);
                self.modal = Some(
                    Modal::Config {
                        page: p,
                        selected: s,
                        show_hidden,
                        auto_save,
                        confirm_delete,
                        confirm_overwrite,
                    },
                );
                Vec::new()
            },
            Modal::PanelOptions { pane, selected, dirs_first, sort_mode } => {
                match key.code {
                    KeyCode::Escape | KeyCode::F(10) => Vec::new(),
                    KeyCode::Up => {
                        let s = if selected > 0 {
                            selected - 1
                        } else {
                            selected
                        };
                        self.modal = Some(Modal::PanelOptions { pane, selected: s, dirs_first, sort_mode });
                        Vec::new()
                    },
                    KeyCode::Down => {
                        let s = if selected < 1 {
                            selected + 1
                        } else {
                            selected
                        };
                        self.modal = Some(Modal::PanelOptions { pane, selected: s, dirs_first, sort_mode });
                        Vec::new()
                    },
                    KeyCode::Enter => {
                        let mut df = dirs_first;
                        let mut sm = sort_mode;
                        if selected == 0 {
                            match pane {
                                ActivePane::Left => {
                                    self.left.dirs_first = !self.left.dirs_first;
                                    df = self.left.dirs_first;
                                },
                                ActivePane::Right => {
                                    self.right.dirs_first = !self.right.dirs_first;
                                    df = self.right.dirs_first;
                                },
                            }
                        } else if selected == 1 {
                            match pane {
                                ActivePane::Left => {
                                    self.left.sort_mode = next_sort_mode(self.left.sort_mode);
                                    sm = self.left.sort_mode;
                                },
                                ActivePane::Right => {
                                    self.right.sort_mode = next_sort_mode(self.right.sort_mode);
                                    sm = self.right.sort_mode;
                                },
                            }
                        }
                        self.modal = Some(Modal::PanelOptions { pane, selected, dirs_first: df, sort_mode: sm });
                        vec![relist(pane, RefreshMode::Keep)]
                    },
                    _ => {
                        self.modal = Some(Modal::PanelOptions { pane, selected, dirs_first, sort_mode });
                        Vec::new()
                    },
                }
            },
            Modal::UserMenu { items, selected, scroll, config_path } => {
                if key.code == KeyCode::F(4) {
                    return vec![Request::EditUserMenu { path: config_path }];
                }
                match list_key(key, selected, scroll, items.len(), 6) {
                    ListMove::Close => Vec::new(),
                    ListMove::Stay { selected: s, scroll: sc } => {
                        self.modal = Some(Modal::UserMenu { items, selected: s, scroll: sc, config_path });
                        Vec::new()
                    },
                    ListMove::Choose { selected: s } => {
                        if s < items.len() {
                            self.status = cat("Run: ", items[s].command.as_str());
                        }
                        Vec::new()
                    },
                    ListMove::Ignore => {
                        self.modal = Some(Modal::UserMenu { items, selected, scroll, config_path });
                        Vec::new()
                    },
                }
            },
            Modal::PullDown { menu_idx, item_idx } => {
                match key.code {
                    KeyCode::Escape | KeyCode::F(9) => Vec::new(),
                    KeyCode::Left => {
                        let (m, i) = if menu_idx > 0 {
                            (menu_idx - 1, 0)
                        } else {
                            (menu_idx, item_idx)
                        };
                        self.modal = Some(Modal::PullDown { menu_idx: m, item_idx: i });
                        Vec::new()
                    },
                    KeyCode::Right => {
                        let (m, i) = if menu_idx + 1 < MENU_COUNT {
                            (menu_idx + 1, 0)
                        } else {
                            (menu_idx, item_idx)
                        };
                        self.modal = Some(Modal::PullDown { menu_idx: m, item_idx: i });
                        Vec::new()
                    },
                    KeyCode::Down => {
                        let n = menu_items(menu_idx).len();
                        let i = if item_idx + 1 < n {
                            item_idx + 1
                        } else {
                            item_idx
                        };
                        self.modal = Some(Modal::PullDown { menu_idx, item_idx: i });
                        Vec::new()
                    },
                    KeyCode::Up => {
                        let i = if item_idx > 0 {
                            item_idx - 1
                        } else {
                            item_idx
                        };
                        self.modal = Some(Modal::PullDown { menu_idx, item_idx: i });
                        Vec::new()
                    },
                    KeyCode::Enter => {
                        let items = menu_items(menu_idx);
                        let action = items[item_idx].action;
                        self.dispatch_menu_action(action)
                    },
                    _ => {
                        self.modal = Some(Modal::PullDown { menu_idx, item_idx });
                        Vec::new()
                    },
                }
            },
            Modal::Confirm { title, message, action } => {
                match key.code {
                    KeyCode::Char('y') | KeyCode::Enter => self.execute_confirm(action),
                    KeyCode::Char('n') | KeyCode::Escape => Vec::new(),
                    _ => {
                        self.modal = Some(Modal::Confirm { title, message, action });
                        Vec::new()
                    },
                }
            },
            Modal::Prompt { title, label, value, cursor, action } => {
                match key.code {
                    KeyCode::Escape => Vec::new(),
                    KeyCode::Enter => {
                        let input = trim_text(value.as_str());
                        if input.unicode_len() > 0 {
                            self.execute_prompt(action, input)
                        } else {
                            Vec::new()
                        }
                    },
                    code => {
                        if value.unicode_len() < usize::MAX - 1 {
                            match edit_text(&value, cursor, code) {
                                Some((v, c)) => {
                                    self.modal = Some(Modal::Prompt { title, label, value: v, cursor: c, action });
                                },
                                None => {
                                    self.modal = Some(Modal::Prompt { title, label, value, cursor, action });
                                },
                            }
                        } else {
                            self.modal = Some(Modal::Prompt { title, label, value, cursor, action });
                        }
                        Vec::new()
                    },
                }
            },
            Modal::FindResults { query, items, selected, scroll } => {
                if key.code == KeyCode::Char('p') && key.ctrl {
                    let list = clone_texts(&items);
                    let cwd = self.side_pane(self.active).cwd.clone();
                    return vec![
                        Request::Navigate {
                            side: self.active,
                            to: Location { cwd, vfs: None, panelized: Some(list) },
                            failure: None,
                        },
                    ];
                }
                match list_key(key, selected, scroll, items.len(), 6) {
                    ListMove::Close => Vec::new(),
                    ListMove::Stay { selected: s, scroll: sc } => {
                        self.modal = Some(Modal::FindResults { query, items, selected: s, scroll: sc });
                        Vec::new()
                    },
                    ListMove::Choose { selected: s } => {
                        if s < items.len() {
                            vec![Request::OpenFound { path: items[s].clone() }]
                        } else {
                            self.modal = Some(Modal::FindResults { query, items, selected, scroll });
                            Vec::new()
                        }
                    },
                    ListMove::Ignore => {
                        self.modal = Some(Modal::FindResults { query, items, selected, scroll });
                        Vec::new()
                    },
                }
            },
            Modal::Tree { pane, items, selected, scroll } => {
                match list_key(key, selected, scroll, items.len(), 8) {
                    ListMove::Close => Vec::new(),
                    ListMove::Stay { selected: s, scroll: sc } => {
                        self.modal = Some(Modal::Tree { pane, items, selected: s, scroll: sc });
                        Vec::new()
                    },
                    ListMove::Choose { selected: s } => {
                        if s < items.len() {
                            let path = items[s].path.clone();
                            vec![
                                Request::Navigate {
                                    side: pane,
                                    to: Location { cwd: path, vfs: None, panelized: None },
                                    failure: None,
                                },
                            ]
                        } else {
                            self.modal = Some(Modal::Tree { pane, items, selected, scroll });
                            Vec::new()
                        }
                    },
                    ListMove::Ignore => {
                        self.modal = Some(Modal::Tree { pane, items, selected, scroll });
                        Vec::new()
                    },
                }
            },
            Modal::DriveMenu { pane, items, selected, scroll } => {
                match list_key(key, selected, scroll, items.len(), 8) {
                    ListMove::Close => Vec::new(),
                    ListMove::Stay { selected: s, scroll: sc } => {
                        self.modal = Some(Modal::DriveMenu { pane, items, selected: s, scroll: sc });
                        Vec::new()
                    },
                    ListMove::Choose { selected: s } => {
                        if s < items.len() {
                            let path = items[s].clone();
                            vec![
                                Request::Navigate {
                                    side: pane,
                                    to: Location { cwd: path, vfs: None, panelized: None },
                                    failure: None,
                                },
                            ]
                        } else {
                            Vec::new()
                        }
                    },
                    ListMove::Ignore => {
                        self.modal = Some(Modal::DriveMenu { pane, items, selected, scroll });
                        Vec::new()
                    },
                }
            },
            Modal::CopyDialog(state) => self.handle_copy_move_dialog_key(key, state, true),
            Modal::MoveDialog(state) => self.handle_copy_move_dialog_key(key, state, false),
            Modal::DeleteDialog { sources, source_name, use_filters, focus } => {
                match delete_key(use_filters, focus, key.code) {
                    DeleteMove::Close => Vec::new(),
                    DeleteMove::Stay { use_filters: u, focus: f } => {
                        self.modal = Some(Modal::DeleteDialog { sources, source_name, use_filters: u, focus: f });
                        Vec::new()
                    },
                    DeleteMove::Delete => self.execute_confirm(PendingConfirm::Delete { sources }),
                    DeleteMove::FiltersUnavailable => {
                        self.status = text("Filters not implemented");
                        self.modal = Some(Modal::DeleteDialog { sources, source_name, use_filters, focus });
                        Vec::new()
                    },
                }
            },
        }
    }
}

/// What `char::is_alphanumeric` says of a character.
pub uninterp spec fn alphanumeric(c: char) -> bool;

/// Relies on `char::is_alphanumeric`: whether the character is a letter or
/// a digit in Unicode's sense.
#[verifier::external_body]
fn is_alphanumeric(c: char) -> (r: bool)
    ensures
        r == alphanumeric(c),
{
    c.is_alphanumeric()
}

impl App {
    /// A key while the command line takes the whole screen: Ctrl+O gives
    /// the panels back; other keys edit the line; Enter reports the
    /// command and clears the line.
    pub fn handle_cmdline_key(&mut self, key: KeyEvent)
        requires
            old(self).wf(),
        ensures
            final(self).wf(),
            key.code == KeyCode::Char('o') && key.ctrl ==> final(self).hide_all == !old(self).hide_all,
            key.code == KeyCode::Enter ==> final(self).cmdline@.len() == 0 && final(self).cmd_cursor == 0,
            final(self).left == old(self).left,
            final(self).right == old(self).right,
            final(self).modal == old(self).modal,
    {
        if key.code == KeyCode::Char('o') && key.ctrl {
            self.hide_all = !self.hide_all;
            return;
        }
        match key.code {
            KeyCode::Enter => {
                self.status = cat("Command: ", self.cmdline.as_str());
                self.cmdline = String::new();
                self.cmd_cursor = 0;
            },
            KeyCode::Char(_) | KeyCode::Backspace | KeyCode::Delete | KeyCode::Left | KeyCode::Right => {
                if self.cmdline.unicode_len() < usize::MAX - 1 {
                    if let Some((v, c)) = edit_text(&self.cmdline, self.cmd_cursor, key.code) {
                        self.cmdline = v;
                        self.cmd_cursor = c;
                    }
                }
            },
            _ => {},
        }
    }

    /// Moves the active pane's cursor to the first entry whose name, folded
    /// to lower case, starts with the quick-search text.
    pub fn do_quick_search(&mut self)
        requires
            old(self).wf(),
        ensures
            final(self).wf(),
            final(self).modal == old(self).modal,
            final(self).quick_search == old(self).quick_search,
            final(self).quick_search_time == old(self).quick_search_time,
    {
        let search = match &self.quick_search {
            Some(q) => q.clone(),
            None => {
                return;
            },
        };
        let height = self.list_height(self.active);
        let side = self.active;
        let n = self.side_pane(side).entries.len();
        let mut idx: usize = 0;
        while idx < n
            invariant
                self.wf(),
                n == self.pane(side).entries@.len(),
                idx <= n,
                self.modal == old(self).modal,
                self.quick_search == old(self).quick_search,
                self.quick_search_time == old(self).quick_search_time,
            decreases n - idx,
        {
            let name = lowercase(self.side_pane(side).entries[idx].name.as_str());
            if starts_with(name.as_str(), search.as_str()) {
                match side {
                    ActivePane::Left => {
                        self.left.cursor = Some(idx);
                        self.left.offset = ensure_visible(idx, self.left.offset, height);
                    },
                    ActivePane::Right => {
                        self.right.cursor = Some(idx);
                        self.right.offset = ensure_visible(idx, self.right.offset, height);
                    },
                }
                return;
            }
            idx = idx + 1;
        }
    }

    /// Adds a typed character, folded to ASCII lower case, to the quick
    /// search, starting afresh when the last one is older than the timeout.
    pub fn handle_quick_search_char(&mut self, ch: char, now_ms: u64)
        requires
            old(self).wf(),
        ensures
            final(self).wf(),
            final(self).quick_search_time == Some(now_ms),
            final(self).quick_search is Some,
            final(self).modal == old(self).modal,
    {
        if let Some(t) = self.quick_search_time {
            if now_ms >= t && now_ms - t > QUICK_SEARCH_TIMEOUT_MS {
                self.quick_search = None;
            }
        }
        let mut search = match &self.quick_search {
            Some(q) => q.clone(),
            None => String::new(),
        };
        crate::text::push_char(&mut search, to_ascii_lower(ch));
        self.quick_search_time = Some(now_ms);
        self.status = cat("Quick search: ", search.as_str());
        self.quick_search = Some(search);
        self.do_quick_search();
    }

    fn go_parent_active(&mut self) -> (r: Vec<Request>)
        requires
            old(self).wf(),
        ensures
            *final(self) == *old(self),
            match parent_location(old(self).pane(old(self).active)) {
                Some(l) => r@.len() == 1 && is_navigate(r@[0], old(self).active, l),
                None => r@.len() == 0,
            },
    {
        let side = self.active;
        match self.side_pane(side).go_parent() {
            Some(to) => vec![Request::Navigate { side, to, failure: Some(text("Up failed")) }],
            None => Vec::new(),
        }
    }

    fn move_active(&mut self, delta: i32, height: usize)
        requires
            old(self).wf(),
        ensures
            final(self).wf(),
            final(self).modal == old(self).modal,
            final(self).active == old(self).active,
            final(self).pane(old(self).active).entries == old(self).pane(old(self).active).entries,
            old(self).pane(old(self).active).entries@.len() > 0 ==> final(self).pane(
                old(self).active,
            ).cursor == Some(
                crate::pane::clamp(
                    crate::pane::cursor_at(old(self).pane(old(self).active)) + delta,
                    0,
                    old(self).pane(old(self).active).entries@.len() - 1,
                ) as usize,
            ),
    {
        match self.active {
            ActivePane::Left => self.left.move_selection(delta, height),
            ActivePane::Right => self.right.move_selection(delta, height),
        }
    }

    fn enter_active(&mut self, open_file: bool) -> (r: Vec<Request>)
        requires
            old(self).wf(),
        ensures
            final(self).wf(),
            final(self).modal == old(self).modal,
            final(self).left == old(self).left,
            final(self).right == old(self).right,
            final(self).active == old(self).active,
            enter_requests(old(self).pane(old(self).active), old(self).active, r@, open_file),
    {
        let side = self.active;
        match self.side_pane(side).enter_selected() {
            Some(to) => vec![Request::Navigate { side, to, failure: Some(text("Open failed")) }],
            None => if open_file {
                self.open_viewer()
            } else {
                Vec::new()
            },
        }
    }

    /// A key on the panes, with no dialog, viewer or full-screen command
    /// line up (`pane_key_effect`).
    #[verifier::rlimit(100)]
    pub fn handle_pane_key(&mut self, key: KeyEvent, now_ms: u64) -> (r: Vec<Request>)
        requires
            old(self).wf(),
            old(self).modal is None,
            old(self).viewer is None,
            !old(self).hide_all,
        ensures
            final(self).wf(),
            !key.ctrl && !key.alt ==> pane_key_effect(*old(self), *final(self), key, r@),
    {
        let side = self.active;
        let view_height = self.list_height(side);
        let code = key.code;
        if key.alt && code == KeyCode::F(1) {
            return vec![Request::ListDrives { side: ActivePane::Left }];
        }
        if key.alt && code == KeyCode::F(2) {
            return vec![Request::ListDrives { side: ActivePane::Right }];
        }
        if key.ctrl {
            if code == KeyCode::F(1) {
                self.toggle_hidden_side(ActivePane::Left);
                return Vec::new();
            }
            if code == KeyCode::F(2) {
                self.toggle_hidden_side(ActivePane::Right);
                return Vec::new();
            }
            if code == KeyCode::Char('o') {
                self.hide_all = !self.hide_all;
                return Vec::new();
            }
            if code == KeyCode::F(8) {
                return self.begin_sync_dirs();
            }
            if code == KeyCode::Char('1') {
                self.set_mode(side, PanelMode::Brief);
                return Vec::new();
            }
            if code == KeyCode::Char('2') {
                self.set_mode(side, PanelMode::Full);
                return Vec::new();
            }
            if code == KeyCode::Char('3') {
                self.set_mode(side, PanelMode::Info);
                return Vec::new();
            }
            if code == KeyCode::Char('4') {
                self.set_mode(side, PanelMode::QuickView);
                return Vec::new();
            }
        }
        match code {
            KeyCode::F(1) => {
                self.modal = Some(Modal::Help { page: 0, scroll: 0 });
                Vec::new()
            },
            KeyCode::F(2) => vec![Request::LoadUserMenu],
            KeyCode::F(9) => {
                self.modal = Some(Modal::PullDown { menu_idx: 0, item_idx: 0 });
                Vec::new()
            },
            KeyCode::F(10) => vec![Request::Quit],
            KeyCode::F(11) => self.begin_chmod(),
            KeyCode::Tab => {
                if side == ActivePane::Left && !self.hide_right {
                    self.active = ActivePane::Right;
                } else if side == ActivePane::Right && !self.hide_left {
                    self.active = ActivePane::Left;
                }
                Vec::new()
            },
            KeyCode::Up => {
                self.move_active(-1, view_height);
                Vec::new()
            },
            KeyCode::Down => {
                self.move_active(1, view_height);
                Vec::new()
            },
            KeyCode::PageUp => {
                let d: i32 = if view_height <= 2147483647 {
                    -(view_height as i32)
                } else {
                    -2147483647
                };
                self.move_active(d, view_height);
                Vec::new()
            },
            KeyCode::PageDown => {
                let d: i32 = if view_height <= 2147483647 {
                    view_height as i32
                } else {
                    2147483647
                };
                self.move_active(d, view_height);
                Vec::new()
            },
            KeyCode::Left => self.go_parent_active(),
            KeyCode::Backspace => {
                match self.quick_search.take() {
                    Some(q) => {
                        let mut cs = crate::text::chars_of(q.as_str());
                        cs.pop();
                        if cs.len() == 0 {
                            self.quick_search_time = None;
                            self.status = text("Ready");
                        } else {
                            let rest = crate::text::text_of(&cs);
                            self.quick_search_time = Some(now_ms);
                            self.status = cat("Quick search: ", rest.as_str());
                            self.quick_search = Some(rest);
                            self.do_quick_search();
                        }
                        Vec::new()
                    },
                    None => self.go_parent_active(),
                }
            },
            KeyCode::Right => self.enter_active(false),
            KeyCode::Enter => self.enter_active(true),
            KeyCode::Char(' ') | KeyCode::Insert => {
                match side {
                    ActivePane::Left => self.left.toggle_select(),
                    ActivePane::Right => self.right.toggle_select(),
                }
                Vec::new()
            },
            KeyCode::F(3) => self.open_viewer(),
            KeyCode::F(4) => self.open_editor(),
            KeyCode::F(5) => self.begin_transfer(true),
            KeyCode::F(6) => self.begin_transfer(false),
            KeyCode::F(7) => {
                self.begin_mkdir();
                Vec::new()
            },
            KeyCode::F(8) => {
                self.begin_delete();
                Vec::new()
            },
            KeyCode::Char(c) => {
                if c == 'q' && key.ctrl {
                    return vec![Request::Quit];
                }
                if c == '+' {
                    match side {
                        ActivePane::Left => self.left.select_all(),
                        ActivePane::Right => self.right.select_all(),
                    }
                } else if c == '-' {
                    match side {
                        ActivePane::Left => self.left.clear_selection(),
                        ActivePane::Right => self.right.clear_selection(),
                    }
                } else if c == '*' {
                    match side {
                        ActivePane::Left => self.left.invert_selection(),
                        ActivePane::Right => self.right.invert_selection(),
                    }
                } else if (is_alphanumeric(c) || c == '.' || c == '_') && !key.ctrl && !key.alt {
                    self.handle_quick_search_char(c, now_ms);
                }
                Vec::new()
            },
            KeyCode::Escape => {
                if self.quick_search.is_some() {
                    self.quick_search = None;
                    self.quick_search_time = None;
                    self.status = text("Ready");
                }
                Vec::new()
            },
            _ => Vec::new(),
        }
    }

    /// A key press. With the command line on the whole screen it edits the
    /// line; with a dialog open it goes to the dialog; with the viewer open
    /// it goes to the viewer; otherwise it acts on the panes. `now_ms` is
    /// the time of the press, for the quick search.
    pub fn handle_key(&mut self, key: KeyEvent, now_ms: u64) -> (r: Vec<Request>)
        requires
            old(self).wf(),
        ensures
            final(self).wf(),
            !old(self).hide_all && old(self).modal is Some && key.code == KeyCode::Escape && !(
            old(self).modal->0 is PullDown) ==> final(self).modal is None && r@.len() == 0,
            !old(self).hide_all && old(self).modal is None && old(self).viewer is None && !key.ctrl
                && !key.alt ==> pane_key_effect(*old(self), *final(self), key, r@),
    {
        if self.hide_all {
            self.handle_cmdline_key(key);
            return Vec::new();
        }
        if self.modal.is_some() {
            let modal = match self.modal.take() {
                Some(m) => m,
                None => {
                    return Vec::new();
                },
            };
            return self.handle_modal_key(key, modal);
        }
        if let Some(mut viewer) = self.viewer.take() {
            let action = handle_viewer_key(key, &mut viewer);
            match action {
                ViewerAction::Stay => {
                    self.viewer = Some(viewer);
                    return Vec::new();
                },
                ViewerAction::Close => {
                    return Vec::new();
                },
                ViewerAction::Quit => {
                    self.viewer = Some(viewer);
                    return vec![Request::Quit];
                },
            }
        }
        self.handle_pane_key(key, now_ms)
    }

    /// A mouse event over the panes: the wheel moves the cursor; a press
    /// on a row makes its pane active and puts the cursor there; a second
    /// press on the same row within the double-click time opens it; a
    /// press on the top line opens the menu. Ignored while a dialog, the
    /// viewer or the full-screen command line is up, and before the first
    /// drawing.
    pub fn handle_mouse(&mut self, mouse: MouseEvent, now_ms: u64) -> (r: Vec<Request>)
        requires
            old(self).wf(),
        ensures
            final(self).wf(),
            old(self).modal is Some || old(self).viewer is Some || old(self).hide_all
                || old(self).layout is None ==> r@.len() == 0 && *final(self) == *old(self),
            old(self).modal is None && old(self).viewer is None && !old(self).hide_all && old(
                self,
            ).layout is Some ==> mouse_effect(*old(self), *final(self), mouse, now_ms, r@),
    {
        if self.viewer.is_some() || self.modal.is_some() || self.hide_all {
            return Vec::new();
        }
        let layout = match self.layout {
            Some(l) => l,
            None => {
                return Vec::new();
            },
        };
        match mouse.kind {
            MouseKind::ScrollUp => {
                let h = self.list_height(self.active);
                self.move_active(-1, h);
                Vec::new()
            },
            MouseKind::ScrollDown => {
                let h = self.list_height(self.active);
                self.move_active(1, h);
                Vec::new()
            },
            MouseKind::LeftDown => {
                match hit_test_rows(mouse.x, mouse.y, &layout) {
                    Some((side, row)) => {
                        self.active = side;
                        let height = self.list_height(side);
                        let offset = self.side_pane(side).offset;
                        let absolute = row.saturating_add(offset);
                        if absolute >= self.side_pane(side).entries.len() {
                            return Vec::new();
                        }
                        match side {
                            ActivePane::Left => {
                                self.left.cursor = Some(absolute);
                                self.left.offset = ensure_visible(absolute, self.left.offset, height);
                            },
                            ActivePane::Right => {
                                self.right.cursor = Some(absolute);
                                self.right.offset = ensure_visible(absolute, self.right.offset, height);
                            },
                        }
                        let double_clicked = match self.last_click {
                            Some(last) => last.pane == side && last.row == absolute && now_ms
                                >= last.at_ms && now_ms - last.at_ms <= DOUBLE_CLICK_MS,
                            None => false,
                        };
                        if double_clicked {
                            self.last_click = None;
                            self.enter_active(true)
                        } else {
                            self.last_click = Some(ClickInfo { pane: side, row: absolute, at_ms: now_ms });
                            Vec::new()
                        }
                    },
                    None => {
                        if mouse.y == 0 {
                            self.modal = Some(Modal::PullDown { menu_idx: 0, item_idx: 0 });
                        }
                        Vec::new()
                    },
                }
            },
            MouseKind::Other => Vec::new(),
        }
    }
}

/// Whether a press is the second one on the same row of the same pane
/// within the double-click time.
pub open spec fn is_double_click(last: Option<ClickInfo>, side: ActivePane, row: int, now_ms: u64) -> bool {
    match last {
        Some(lc) => lc.pane == side && lc.row == row && now_ms >= lc.at_ms && now_ms - lc.at_ms
            <= DOUBLE_CLICK_MS,
        None => false,
    }
}

/// What a mouse event does over the panes: the wheel moves the active
/// pane's cursor by one; a press on a listed row makes its pane active and
/// puts the cursor there, and a second press on that row within the
/// double-click time asks for what Enter asks for; a press on the top line
/// outside the listings opens the menu.
pub open spec fn mouse_effect(old: App, new: App, mouse: MouseEvent, now_ms: u64, r: Seq<Request>) -> bool {
    let l = old.layout->0;
    &&& (mouse.kind == MouseKind::ScrollUp || mouse.kind == MouseKind::ScrollDown) ==> {
        let p = old.pane(old.active);
        &&& r.len() == 0
        &&& new.active == old.active
        &&& new.modal == old.modal
        &&& p.entries@.len() > 0 ==> new.pane(old.active).cursor == Some(
            crate::pane::clamp(
                crate::pane::cursor_at(p) + (if mouse.kind == MouseKind::ScrollUp {
                    -1int
                } else {
                    1int
                }),
                0,
                p.entries@.len() - 1,
            ) as usize,
        )
    }
    &&& mouse.kind == MouseKind::LeftDown ==> match hit_at(l, mouse.x, mouse.y) {
        Some((side, row)) => {
            let p = old.pane(side);
            let at = row + p.offset;
            &&& new.active == side
            &&& new.modal == old.modal
            &&& at < p.entries@.len() ==> new.pane(side).cursor == Some(at as usize) && new.pane(
                side,
            ).entries == p.entries && if is_double_click(old.last_click, side, at, now_ms) {
                enter_requests(new.pane(side), side, r, true)
            } else {
                r.len() == 0 && new.last_click == Some(
                    ClickInfo { pane: side, row: at as usize, at_ms: now_ms },
                )
            }
        },
        None => r.len() == 0 && (mouse.y == 0 ==> (new.modal matches Some(
            Modal::PullDown { menu_idx, item_idx },
        ) && menu_idx == 0 && item_idx == 0)),
    }
}

/// What a confirmed action asks for: removing the sources, an overwriting
/// transfer, or carrying out the sync plan.
pub open spec fn confirm_requests(action: PendingConfirm, r: Seq<Request>) -> bool {
    r.len() == 1 && match action {
        PendingConfirm::Delete { sources } => (r[0] matches Request::Delete { paths } && paths@
            == sources@),
        PendingConfirm::Overwrite { kind, sources, dest } => (r[0] matches Request::Transfer {
            kind: k,
            sources: s,
            dest: d,
            overwrite,
        } && k == kind && s@ == sources@ && d@ == dest@ && overwrite),
        PendingConfirm::Sync { ops, src_root, dst_root } => (r[0] matches Request::Sync {
            ops: o,
            src_root: s,
            dst_root: d,
        } && o@ == ops@ && s@ == src_root@ && d@ == dst_root@),
    }
}

/// Two copy dialogs that differ at most in their focus.
pub open spec fn same_but_focus(a: CopyDialogState, b: CopyDialogState) -> bool {
    &&& a.sources == b.sources
    &&& a.source_name == b.source_name
    &&& a.dest == b.dest
    &&& a.cursor == b.cursor
    &&& a.include_subdirs == b.include_subdirs
    &&& a.copy_newer_only == b.copy_newer_only
    &&& a.use_filters == b.use_filters
    &&& a.check_target_space == b.check_target_space
}

/// The path of the file (not directory) under a pane's cursor.
pub open spec fn file_under_cursor(p: Pane) -> Option<Seq<char>> {
    match p.cursor {
        Some(c) => if !p.entries@[c as int].is_dir {
            Some(p.entries@[c as int].path@)
        } else {
            None
        },
        None => None,
    }
}

/// Asking for the permission bits of the entry under the cursor, outside
/// an archive.
pub open spec fn chmod_requests(p: Pane, r: Seq<Request>) -> bool {
    if p.vfs is Some {
        r.len() == 0
    } else {
        match p.cursor {
            Some(c) => r.len() == 1 && (r[0] matches Request::ProbeMode { target } && target@
                == p.entries@[c as int].path@),
            None => r.len() == 0,
        }
    }
}

/// Starting to make a directory: outside an archive, a prompt for its
/// name below the active pane's directory, offering `new_folder`.
pub open spec fn mkdir_prompt_opened(old: App, new: App) -> bool {
    let p = old.pane(old.active);
    &&& p.vfs is Some ==> new.modal == old.modal
    &&& p.vfs is None ==> (new.modal matches Some(Modal::Prompt { value, cursor, action, .. })
        && value@ == "new_folder"@ && cursor == value@.len() && (action matches PendingPrompt::Mkdir {
        base,
    } && base == p.cwd))
}

/// The selection after Space on a pane: the path under the cursor
/// switched in or out.
pub open spec fn toggled_selection(p: Pane) -> Set<Seq<char>> {
    match p.cursor {
        None => p.selection(),
        Some(c) => {
            let q = p.entries@[c as int].path@;
            if p.selection().contains(q) {
                p.selection().remove(q)
            } else {
                p.selection().insert(q)
            }
        },
    }
}

/// What a key without Ctrl or Alt does on the panes.
pub open spec fn pane_key_effect(old: App, new: App, key: KeyEvent, r: Seq<Request>) -> bool {
    let side = old.active;
    let p = old.pane(side);
    let code = key.code;
    &&& code == KeyCode::F(10) ==> r.len() == 1 && r[0] is Quit
    &&& code == KeyCode::F(9) ==> (new.modal matches Some(Modal::PullDown { menu_idx, item_idx })
        && menu_idx == 0 && item_idx == 0)
    &&& code == KeyCode::F(1) ==> (new.modal matches Some(Modal::Help { page, scroll }) && page == 0
        && scroll == 0)
    &&& (code == KeyCode::Up || code == KeyCode::Down) && p.entries@.len() > 0 ==> new.pane(
        side,
    ).cursor == Some(
        crate::pane::clamp(
            crate::pane::cursor_at(p) + (if code == KeyCode::Up {
                -1int
            } else {
                1int
            }),
            0,
            p.entries@.len() - 1,
        ) as usize,
    )
    &&& code == KeyCode::Tab ==> new.active == (if side == ActivePane::Left && !old.hide_right {
        ActivePane::Right
    } else if side == ActivePane::Right && !old.hide_left {
        ActivePane::Left
    } else {
        side
    })
    &&& code == KeyCode::Enter ==> enter_requests(p, side, r, true) && new.left == old.left
        && new.right == old.right
    &&& code == KeyCode::Right ==> enter_requests(p, side, r, false) && new.left == old.left
        && new.right == old.right
    &&& (code == KeyCode::Left || (code == KeyCode::Backspace && old.quick_search is None)) ==> (
    match parent_location(p) {
        Some(l) => r.len() == 1 && is_navigate(r[0], side, l),
        None => r.len() == 0,
    }) && new.left == old.left && new.right == old.right
    &&& (code == KeyCode::Char(' ') || code == KeyCode::Insert) ==> new.pane(side).selection()
        == toggled_selection(p) && r.len() == 0
    &&& code == KeyCode::Char('+') ==> new.pane(side).selection() == crate::pane::entry_paths(
        p.entries@,
    ) && r.len() == 0
    &&& code == KeyCode::Char('-') ==> new.pane(side).selection() == Set::<Seq<char>>::empty()
        && r.len() == 0
    &&& code == KeyCode::Char('*') ==> new.pane(side).selection() == crate::pane::entry_paths(
        p.entries@,
    ).difference(p.selection()) && r.len() == 0
    &&& code == KeyCode::F(3) ==> view_requests(p, r)
    &&& code == KeyCode::F(4) ==> match file_under_cursor(p) {
        Some(f) => r.len() == 1 && (r[0] matches Request::Edit { path } && path@ == f),
        None => r.len() == 0,
    }
    &&& code == KeyCode::F(5) ==> transfer_dialog_opened(old, new, true) && r.len() == 0
    &&& code == KeyCode::F(6) ==> transfer_dialog_opened(old, new, false) && r.len() == 0
    &&& code == KeyCode::F(7) ==> mkdir_prompt_opened(old, new) && r.len() == 0
    &&& code == KeyCode::F(8) ==> delete_dialog_opened(old, new) && r.len() == 0
    &&& code == KeyCode::F(11) ==> chmod_requests(p, r)
}

pub open spec fn other_side(side: ActivePane) -> ActivePane {
    match side {
        ActivePane::Left => ActivePane::Right,
        ActivePane::Right => ActivePane::Left,
    }
}

/// What `find_conflicts` returns, as a spec.
pub open spec fn find_conflicts_spec(sources: Seq<String>, dest: Seq<char>, dest_is_dir: bool, existing: Seq<String>) -> Option<int> {
    let n = crate::fs_ops::conflict_count(
        sources,
        sources.len() as int,
        dest,
        crate::fs_ops::into_dir(sources.len() as int, dest_is_dir),
        crate::text::text_set(existing),
    );
    if n > 0 {
        Some(n)
    } else {
        None
    }
}

} // verus!
