//! Inspector bodies for the selected row, and the choice made in an action
//! menu.

use vstd::prelude::*;

use crate::model::diagnostics::Finding;
use crate::model::diagnostics::FindingView;
use crate::model::inspect::MenuAction;
use crate::model::inspect::MenuItem;
use crate::model::metrics::bytes_text;
use crate::model::metrics::format_bytes;
use crate::model::metrics::DiskUsage;
use crate::text::decimal_string_wide;
use crate::model::storage::format_size;
use crate::model::storage::StorageNode;
use crate::text::decimal;
use crate::text::decimal_string;
use crate::text::join_lines;
use crate::text::join_with_newlines;

verus! {

/// A finding's inspector: its title, then its summary, id and evidence.
pub open spec fn finding_inspector_body(f: FindingView) -> Seq<char> {
    f.summary + "\n\n"@ + f.id + "\n\nevidence:\n"@ + f.evidence.summary + "\n"@ + join_lines(
        f.evidence.details,
    )
}

pub fn finding_inspector(f: &Finding) -> (r: (String, String))
    ensures
        r.0@ == f@.title,
        r.1@ == finding_inspector_body(f@),
{
    let mut body = f.summary.clone();
    body.append("\n\n");
    body.append(f.id.as_str());
    body.append("\n\nevidence:\n");
    body.append(f.evidence.summary.as_str());
    body.append("\n");
    let details = join_with_newlines(&f.evidence.details);
    body.append(details.as_str());
    (f.title.clone(), body)
}

/// A directory's inspector: "Dir" and its name, then its path, sizes and
/// number of children.
pub open spec fn directory_inspector_body(node: StorageNode) -> Seq<char> {
    "path: "@ + node.path@ + "\nsize: "@ + bytes_text(node.size as nat) + "\napparent: "@
        + bytes_text(node.apparent_size as nat) + "\nchildren: "@ + decimal(
        node.children@.len(),
    )
}

/// `used` as a share of `total` in whole percent, rounded to the nearest
/// (a tie to the even one), as `{:.0}` prints the exact share; 0 for an
/// empty disk.
pub open spec fn percent_rounded(used: nat, total: nat) -> nat {
    if total == 0 {
        0
    } else {
        let q = (used * 100) / total;
        let r = (used * 100) % total;
        if 2 * r > total || (2 * r == total && q % 2 == 1) {
            q + 1
        } else {
            q
        }
    }
}

pub fn rounded_percent(used: u64, total: u64) -> (p: u128)
    ensures
        p == percent_rounded(used as nat, total as nat),
{
    if total == 0 {
        return 0;
    }
    let x: u128 = (used as u128) * 100;
    let t: u128 = total as u128;
    let q = x / t;
    let r = x % t;
    assert(q <= x) by (nonlinear_arith)
        requires
            t >= 1,
            q == x / t,
    ;
    if 2 * r > t || (2 * r == t && q % 2 == 1) {
        q + 1
    } else {
        q
    }
}

/// A mount's inspector body: its mount point, device, usage and free space.
pub open spec fn mount_inspector_body(d: DiskUsage) -> Seq<char> {
    "mount: "@ + d.mount_point@ + "\ndevice: "@ + d.name@ + "\nused: "@ + bytes_text(d.used as nat) + " / "@
        + bytes_text(d.total as nat) + " ("@ + decimal(percent_rounded(d.used as nat, d.total as nat))
        + "%)\navailable: "@ + bytes_text(d.available as nat)
}

/// A mount's inspector: titled by its mount point.
pub fn mount_inspector(d: &DiskUsage) -> (r: (String, String))
    ensures
        r.0@ == "Mount "@ + d.mount_point@,
        r.1@ == mount_inspector_body(*d),
{
    let mut title = String::from_str("Mount ");
    title.append(d.mount_point.as_str());
    let mut body = String::from_str("mount: ");
    body.append(d.mount_point.as_str());
    body.append("\ndevice: ");
    body.append(d.name.as_str());
    body.append("\nused: ");
    body.append(format_bytes(d.used).as_str());
    body.append(" / ");
    body.append(format_bytes(d.total).as_str());
    body.append(" (");
    body.append(decimal_string_wide(rounded_percent(d.used, d.total)).as_str());
    body.append("%)\navailable: ");
    body.append(format_bytes(d.available).as_str());
    (title, body)
}

pub fn directory_inspector(node: &StorageNode) -> (r: (String, String))
    ensures
        r.0@ == "Dir "@ + node.name@,
        r.1@ == directory_inspector_body(*node),
{
    let mut title = String::from_str("Dir ");
    title.append(node.name.as_str());
    let mut body = String::from_str("path: ");
    body.append(node.path.as_str());
    body.append("\nsize: ");
    body.append(format_size(node.size).as_str());
    body.append("\napparent: ");
    body.append(format_size(node.apparent_size).as_str());
    body.append("\nchildren: ");
    body.append(decimal_string(node.children.len() as u64).as_str());
    (title, body)
}

/// What activating an action-menu row comes to.
#[derive(Debug, Clone)]
pub enum MenuChoice {
    /// No row at that position.
    Nothing,
    /// The row is disabled; the warning to show.
    Disabled(String),
    /// The row's action runs and the menu closes.
    Chosen(MenuAction),
}

pub fn choose_menu_item(items: &Vec<MenuItem>, selected: usize) -> (c: MenuChoice)
    ensures
        selected >= items@.len() ==> c is Nothing,
        selected < items@.len() ==> ({
            let item = items@[selected as int];
            if item.enabled {
                c == MenuChoice::Chosen(item.action)
            } else {
                c matches MenuChoice::Disabled(w) && w@ == match item.disabled_reason {
                    Some(r) => r@,
                    None => "action disabled"@,
                }
            }
        }),
{
    if selected >= items.len() {
        return MenuChoice::Nothing;
    }
    let item = &items[selected];
    if !item.enabled {
        let w = match &item.disabled_reason {
            Some(r) => r.clone(),
            None => String::from_str("action disabled"),
        };
        return MenuChoice::Disabled(w);
    }
    MenuChoice::Chosen(item.action)
}

/// Up or down one row in an action menu of `len` rows: up stops at the
/// first row, down at the last; an empty menu keeps its selection.
pub fn move_menu_selection(selected: usize, len: usize, delta: i32) -> (r: usize)
    ensures
        len == 0 ==> r == selected,
        len > 0 && delta < 0 ==> r == if selected == 0 {
            0
        } else {
            (selected - 1) as usize
        },
        len > 0 && delta >= 0 ==> r == if selected + 1 < len {
            (selected + 1) as usize
        } else {
            (len - 1) as usize
        },
{
    if len == 0 {
        return selected;
    }
    if delta < 0 {
        if selected == 0 {
            0
        } else {
            selected - 1
        }
    } else if selected < len - 1 {
        selected + 1
    } else {
        len - 1
    }
}

} // verus!
