//! The user menu file: one `label|command` per line.
use vstd::prelude::*;
use crate::modal::UserMenuItem;
use crate::text::trim_of;
use crate::vfs::{before_first, lines_of};

verus! {

/// What one line of the menu file gives: skipped when it is blank or a
/// `#` comment once trimmed, or when its label is empty; otherwise the
/// trimmed text before the first `|` as the label and the trimmed text
/// after it (empty when there is no `|`) as the command.
pub open spec fn menu_line(line: Seq<char>) -> Option<(Seq<char>, Seq<char>)> {
    let t = trim_of(line);
    if t.len() == 0 || t[0] == '#' {
        None
    } else {
        let head = before_first(t, '|');
        let label = trim_of(head);
        let command = if head.len() < t.len() {
            trim_of(t.subrange(head.len() as int + 1, t.len() as int))
        } else {
            trim_of(Seq::empty())
        };
        if label.len() == 0 {
            None
        } else {
            Some((label, command))
        }
    }
}

/// The items of the first `n` lines, in order.
pub open spec fn menu_entries(lines: Seq<Seq<char>>, n: int) -> Seq<(Seq<char>, Seq<char>)>
    decreases n,
{
    if n <= 0 {
        Seq::empty()
    } else {
        let rest = menu_entries(lines, n - 1);
        match menu_line(lines[n - 1]) {
            Some(item) => rest.push(item),
            None => rest,
        }
    }
}

pub open spec fn item_views(v: Seq<UserMenuItem>) -> Seq<(Seq<char>, Seq<char>)> {
    v.map_values(|i: UserMenuItem| (i.label@, i.command@))
}

/// The items of a user menu text.
pub fn parse_user_menu(content: &str) -> (r: Vec<UserMenuItem>)
    ensures
        item_views(r@) == menu_entries(lines_of(content@), lines_of(content@).len() as int),
{
    let lines = crate::vfs::split_lines(content);
    let ghost ls = lines_of(content@);
    let mut items: Vec<UserMenuItem> = Vec::new();
    let mut i: usize = 0;
    while i < lines.len()
        invariant
            i <= lines.len(),
            lines@.map_values(|s: String| s@) == ls,
            item_views(items@) == menu_entries(ls, i as int),
        decreases lines.len() - i,
    {
        proof {
            assert(ls[i as int] == lines@[i as int]@);
        }
        let line = crate::text::trim_text(lines[i].as_str());
        let n = line.unicode_len();
        if n > 0 && line.get_char(0) != '#' {
            let cs = crate::text::chars_of(line.as_str());
            let bar = first_bar(&cs);
            proof {
                crate::vfs::lemma_before_first_at(line@, '|', bar as int);
            }
            let label_raw = String::from_str(line.as_str().substring_char(0, bar));
            let command_raw = if bar < n {
                String::from_str(line.as_str().substring_char(bar + 1, n))
            } else {
                String::new()
            };
            let label = crate::text::trim_text(label_raw.as_str());
            let command = crate::text::trim_text(command_raw.as_str());
            if label.unicode_len() > 0 {
                let ghost before = items@;
                items.push(UserMenuItem { label, command });
                proof {
                    assert(item_views(items@) == item_views(before).push(
                        (items@.last().label@, items@.last().command@),
                    ));
                }
            }
        }
        i = i + 1;
    }
    items
}

fn first_bar(cs: &Vec<char>) -> (r: usize)
    ensures
        r <= cs@.len(),
        r < cs@.len() ==> cs@[r as int] == '|',
        forall|k: int| 0 <= k < r ==> cs@[k] != '|',
{
    let mut j: usize = 0;
    while j < cs.len()
        invariant
            j <= cs.len(),
            forall|k: int| 0 <= k < j ==> cs@[k] != '|',
        decreases cs.len() - j,
    {
        if cs[j] == '|' {
            return j;
        }
        j = j + 1;
    }
    j
}

} // verus!
