//! The pull-down menus: their titles, items and actions.
use vstd::prelude::*;

verus! {

/// What a menu item does.
#[derive(Debug, Clone, Copy, PartialEq, Eq, Structural)]
pub enum MenuAction {
    Nothing,
    Quit,
    View,
    Edit,
    Copy,
    Move,
    Tree,
    Find,
    Config,
    PanelOptions,
    LeftBrief,
    LeftFull,
    LeftInfo,
    LeftTree,
    LeftQuickView,
    LeftOnOff,
    LeftSortName,
    LeftSortExt,
    LeftSortTime,
    LeftSortSize,
    LeftUnsorted,
    LeftReread,
    LeftFilter,
    LeftDrive,
    RightBrief,
    RightFull,
    RightInfo,
    RightTree,
    RightQuickView,
    RightOnOff,
    RightSortName,
    RightSortExt,
    RightSortTime,
    RightSortSize,
    RightUnsorted,
    RightReread,
    RightFilter,
    RightDrive,
    Help,
    About,
}

/// One line of a pull-down menu.
#[derive(Debug, Clone, Copy)]
pub struct MenuItem {
    pub label: &'static str,
    pub action: MenuAction,
    pub shortcut: Option<&'static str>,
    pub checked: Option<bool>,
    pub separator_after: bool,
}

/// Number of pull-down menus.
pub const MENU_COUNT: usize = 6;

/// The title of a menu; the last title for any index past the end.
pub fn menu_title(menu_idx: usize) -> (r: &'static str)
    ensures
        menu_idx == 0 ==> r@ == "File"@,
        menu_idx == 1 ==> r@ == "Command"@,
        menu_idx == 2 ==> r@ == "Options"@,
        menu_idx == 3 ==> r@ == "Left"@,
        menu_idx == 4 ==> r@ == "Right"@,
        menu_idx >= 5 ==> r@ == "Help"@,
{
    match menu_idx {
        0 => "File",
        1 => "Command",
        2 => "Options",
        3 => "Left",
        4 => "Right",
        _ => "Help",
    }
}

/// The number of items of a menu.
pub open spec fn menu_len(menu_idx: int) -> int {
    if menu_idx == 0 {
        5
    } else if menu_idx == 1 || menu_idx == 2 {
        2
    } else if menu_idx == 3 || menu_idx == 4 {
        14
    } else {
        2
    }
}

fn item(label: &'static str, action: MenuAction, shortcut: Option<&'static str>, separator_after: bool) -> (r: MenuItem)
    ensures
        r.action == action,
{
    MenuItem { label, action, shortcut, checked: None, separator_after }
}

/// The items of a menu, in order; the help menu for any index past the end.
pub fn menu_items(menu_idx: usize) -> (r: Vec<MenuItem>)
    ensures
        r@.len() == menu_len(menu_idx as int),
        menu_idx == 0 ==> r@[0].action == MenuAction::View && r@[1].action == MenuAction::Edit
            && r@[2].action == MenuAction::Copy && r@[3].action == MenuAction::Move && r@[4].action
            == MenuAction::Quit,
        menu_idx == 1 ==> r@[0].action == MenuAction::Tree && r@[1].action == MenuAction::Find,
        menu_idx == 2 ==> r@[0].action == MenuAction::Config && r@[1].action
            == MenuAction::PanelOptions,
        menu_idx == 3 ==> r@[6].action == MenuAction::LeftSortName && r@[7].action
            == MenuAction::LeftSortExt && r@[8].action == MenuAction::LeftSortTime && r@[9].action
            == MenuAction::LeftSortSize && r@[10].action == MenuAction::LeftUnsorted,
        menu_idx == 4 ==> r@[6].action == MenuAction::RightSortName && r@[7].action
            == MenuAction::RightSortExt && r@[8].action == MenuAction::RightSortTime
            && r@[9].action == MenuAction::RightSortSize && r@[10].action
            == MenuAction::RightUnsorted,
        menu_idx >= 5 ==> r@[0].action == MenuAction::Help && r@[1].action == MenuAction::About,
{
    match menu_idx {
        0 => vec![
            item("View", MenuAction::View, Some("F3"), false),
            item("Edit", MenuAction::Edit, Some("F4"), false),
            item("Copy", MenuAction::Copy, Some("F5"), false),
            item("Move", MenuAction::Move, Some("F6"), true),
            item("Quit", MenuAction::Quit, Some("F10"), false),
        ],
        1 => vec![
            item("Directory tree", MenuAction::Tree, None, false),
            item("Find file", MenuAction::Find, Some("Alt+F7"), false),
        ],
        2 => vec![
            item("Configuration", MenuAction::Config, None, false),
            item("Panel options", MenuAction::PanelOptions, None, false),
        ],
        3 => vec![
            item("Brief", MenuAction::LeftBrief, Some("Ctrl+1"), false),
            item("Full", MenuAction::LeftFull, Some("Ctrl+2"), false),
            item("Info", MenuAction::LeftInfo, Some("Ctrl+3"), false),
            item("Tree", MenuAction::LeftTree, None, false),
            item("Quick view", MenuAction::LeftQuickView, Some("Ctrl+4"), false),
            item("On/Off", MenuAction::LeftOnOff, Some("Ctrl+F1"), true),
            item("Name", MenuAction::LeftSortName, Some("Ctrl+F3"), false),
            item("Extension", MenuAction::LeftSortExt, Some("Ctrl+F4"), false),
            item("Time", MenuAction::LeftSortTime, Some("Ctrl+F5"), false),
            item("Size", MenuAction::LeftSortSize, Some("Ctrl+F6"), false),
            item("Unsorted", MenuAction::LeftUnsorted, Some("Ctrl+F7"), true),
            item("Re-read", MenuAction::LeftReread, None, false),
            item("Filter...", MenuAction::LeftFilter, None, false),
            item("Drive...", MenuAction::LeftDrive, Some("Alt+F1"), false),
        ],
        4 => vec![
            item("Brief", MenuAction::RightBrief, Some("Ctrl+1"), false),
            item("Full", MenuAction::RightFull, Some("Ctrl+2"), false),
            item("Info", MenuAction::RightInfo, Some("Ctrl+3"), false),
            item("Tree", MenuAction::RightTree, None, false),
            item("Quick view", MenuAction::RightQuickView, Some("Ctrl+4"), false),
            item("On/Off", MenuAction::RightOnOff, Some("Ctrl+F2"), true),
            item("Name", MenuAction::RightSortName, Some("Ctrl+F3"), false),
            item("Extension", MenuAction::RightSortExt, Some("Ctrl+F4"), false),
            item("Time", MenuAction::RightSortTime, Some("Ctrl+F5"), false),
            item("Size", MenuAction::RightSortSize, Some("Ctrl+F6"), false),
            item("Unsorted", MenuAction::RightUnsorted, Some("Ctrl+F7"), true),
            item("Re-read", MenuAction::RightReread, None, false),
            item("Filter...", MenuAction::RightFilter, None, false),
            item("Drive...", MenuAction::RightDrive, Some("Alt+F2"), false),
        ],
        _ => vec![
            item("Help", MenuAction::Help, Some("F1"), true),
            item("About", MenuAction::About, None, false),
        ],
    }
}

} // verus!
