//! The texts that describe a pane: its title and its status line.
use vstd::prelude::*;
use crate::pane::{selected_size, Pane};
use crate::text::{cat, decimal, decimal_text};
use crate::timefmt::format_time_local;

verus! {

/// The title of a pane: the archive and the prefix inside it, the words
/// "Search results" for a result list, or the directory.
pub fn panel_title(pane: &Pane) -> (r: String)
    ensures
        pane.vfs matches Some(v) ==> r@ == v.zip_path@ + seq![':'] + v.prefix@,
        pane.vfs is None && pane.panelized is Some ==> r@ == "Search results"@,
        pane.vfs is None && pane.panelized is None ==> r@ == pane.cwd@,
{
    match &pane.vfs {
        Some(v) => {
            proof {
                reveal_strlit(":");
            }
            let head = cat(v.zip_path.as_str(), ":");
            cat(head.as_str(), v.prefix.as_str())
        },
        None => {
            if pane.panelized.is_some() {
                String::from_str("Search results")
            } else {
                pane.cwd.clone()
            }
        },
    }
}

/// The status line of a pane: the total size and number of the selected
/// paths when there is a selection; otherwise the entry under the cursor
/// with its size (or a directory mark) and modification time; otherwise
/// nothing.
pub fn panel_status_text(pane: &Pane) -> (r: String)
    requires
        pane.wf(),
    ensures
        pane.selected@.len() == 0 && pane.cursor is None ==> r@.len() == 0,
        pane.selected@.len() > 0 ==> r@ == decimal_text(
            (if selected_size(pane.entries@, pane.selection()) > u64::MAX as int {
                u64::MAX as int
            } else {
                selected_size(pane.entries@, pane.selection())
            }) as nat,
        ) + " bytes in "@ + decimal_text(pane.selected@.len()) + " selected"@,
{
    if pane.selected.len() > 0 {
        let size = decimal(pane.selected_total_size());
        let count = decimal(pane.selected.len() as u64);
        let a = cat(size.as_str(), " bytes in ");
        let b = cat(a.as_str(), count.as_str());
        return cat(b.as_str(), " selected");
    }
    let entry = match pane.selected_entry() {
        Some(e) => e,
        None => {
            return String::new();
        },
    };
    let (date, time) = format_time_local(entry.modified);
    let head = if entry.is_dir {
        if entry.name.as_str() == ".." {
            String::from_str("..  ►UP-DIR◄  ")
        } else {
            cat(entry.name.as_str(), "  ►DIR◄  ")
        }
    } else {
        let a = cat(entry.name.as_str(), "  ");
        let b = cat(a.as_str(), decimal(entry.size).as_str());
        cat(b.as_str(), "  ")
    };
    let a = cat(head.as_str(), date.as_str());
    let b = cat(a.as_str(), "  ");
    cat(b.as_str(), time.as_str())
}

} // verus!
