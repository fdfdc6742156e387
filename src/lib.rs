//! Dual-pane file manager core: listings, sorting, archive browsing,
//! pane navigation and selection, and the dialog state machine.
use vstd::prelude::*;

pub mod entry;
pub mod text;
pub mod order;
pub mod paths;
pub mod listing;
pub mod vfs;
pub mod pane;
pub mod fs_ops;
pub mod modal;
pub mod menu;
pub mod usermenu;
pub mod commander;
pub mod timefmt;
pub mod status;

verus! {

} // verus!
