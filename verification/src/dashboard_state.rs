//! The dashboard's own small state: the selected project, the order of the
//! projects, the pane in focus, the footer, and which scopes a bump touches.

use vstd::prelude::*;
use crate::help::DashboardPane;

verus! {

pub open spec fn clamp_selection(selected: int, delta: int, len: int) -> int {
    let next = selected + delta;
    if next < 0 { 0 } else if next > len - 1 { len - 1 } else { next }
}

/// The project selected after moving `delta` rows from `selected` in a list
/// of `len` projects (staying on the list; nothing to select in an empty one).
pub fn move_project_selection(selected: usize, delta: isize, len: usize) -> (next: usize)
    requires
        len <= isize::MAX,
        selected + delta <= isize::MAX,
        selected <= isize::MAX,
    ensures
        len == 0 ==> next == selected,
        len > 0 ==> next == clamp_selection(selected as int, delta as int, len as int),
{
    if len == 0 {
        return selected;
    }
    let last = (len - 1) as isize;
    let next = selected as isize + delta;
    if next > last { last as usize } else if next < 0 { 0 } else { next as usize }
}

/// `items` with the item at `from` moved to `to`.
pub open spec fn moved<T>(items: Seq<T>, from: int, to: int) -> Seq<T> {
    items.remove(from).insert(to, items[from])
}

/// Moves the project at `from` to `to` (when both are on the list and
/// differ); the moved project becomes the selected one. Returns whether the
/// order changed (and so needs saving).
pub fn reorder_projects<T>(items: &mut Vec<T>, selected: &mut usize, from: usize, to: usize) -> (changed: bool)
    ensures
        changed == (from < old(items)@.len() && to < old(items)@.len() && from != to),
        changed ==> final(items)@ == moved(old(items)@, from as int, to as int) && *final(selected) == to,
        !changed ==> final(items)@ == old(items)@ && *final(selected) == *old(selected),
{
    if from >= items.len() || to >= items.len() || from == to {
        return false;
    }
    let item = items.remove(from);
    items.insert(to, item);
    *selected = to;
    true
}

/// Moving an item and moving it back restores the list.
pub proof fn law_reorder_round_trip<T>(items: Seq<T>, from: int, to: int)
    requires
        0 <= from < items.len(),
        0 <= to < items.len(),
    ensures
        moved(moved(items, from, to), to, from) == items,
{
    let once = moved(items, from, to);
    assert(once[to] == items[from]);
    assert(moved(once, to, from) =~= items);
}

/// Switches the focus between the project list and the overview; returns
/// the new pane (the overview flashes its tab when it gains the focus).
pub fn toggle_dashboard_focus(pane: DashboardPane) -> (next: DashboardPane)
    ensures
        next == (if pane == DashboardPane::Projects { DashboardPane::Overview } else { DashboardPane::Projects }),
{
    match pane {
        DashboardPane::Projects => DashboardPane::Overview,
        DashboardPane::Overview => DashboardPane::Projects,
    }
}

/// Whether the footer is hidden, and why.
#[derive(Clone, Copy, Debug, PartialEq, Eq, Structural)]
pub struct FooterState {
    pub hidden: bool,
    /// Hidden because the terminal was short, not by the user.
    pub auto_hidden: bool,
    /// The user chose the footer's visibility; short terminals leave it alone.
    pub manual_override: bool,
}

/// Terminals this short (or shorter) hide the footer unless the user chose.
pub const SHORT_TERMINAL_ROWS: u16 = 25;

impl FooterState {
    pub open spec fn after_viewport(self, viewport_height: u16) -> FooterState {
        if viewport_height <= SHORT_TERMINAL_ROWS {
            if !self.hidden && !self.manual_override {
                FooterState { hidden: true, auto_hidden: true, ..self }
            } else {
                self
            }
        } else if self.auto_hidden {
            FooterState { hidden: false, auto_hidden: false, ..self }
        } else {
            self
        }
    }

    /// Hides the footer on a short terminal (unless the user chose), and
    /// shows it again on a taller one if it was hidden for that reason.
    pub fn update_footer_visibility(&mut self, viewport_height: u16)
        ensures
            *final(self) == old(self).after_viewport(viewport_height),
    {
        if viewport_height <= SHORT_TERMINAL_ROWS {
            if !self.hidden && !self.manual_override {
                self.hidden = true;
                self.auto_hidden = true;
            }
        } else if self.auto_hidden {
            self.hidden = false;
            self.auto_hidden = false;
        }
    }

    /// The user shows or hides the footer; from then on the terminal's size
    /// does not change it.
    pub fn toggle_footer(&mut self)
        ensures
            *final(self) == (FooterState { hidden: !old(self).hidden, auto_hidden: false, manual_override: true }),
    {
        self.auto_hidden = false;
        self.manual_override = true;
        self.hidden = !self.hidden;
    }
}

/// Once the user has toggled the footer, resizing the terminal never shows
/// or hides it.
pub proof fn law_user_choice_survives_resizes(f: FooterState, height: u16)
    ensures
        ({
            let chosen = FooterState { hidden: !f.hidden, auto_hidden: false, manual_override: true };
            chosen.after_viewport(height) == chosen
        }),
{
}

/// The scopes a bump touches: all of them with unified versioning, else the
/// selected one.
pub open spec fn affected_scopes_spec(unified: bool, scope_count: nat, selected: usize) -> Seq<usize> {
    if unified { Seq::new(scope_count, |i: int| i as usize) } else { seq![selected] }
}

/// The scopes a bump touches (`scope_count` scopes, `selected` chosen).
pub fn affected_scope_indexes(unified: bool, scope_count: usize, selected: usize) -> (r: Vec<usize>)
    ensures
        r@ == affected_scopes_spec(unified, scope_count as nat, selected),
{
    if !unified {
        return vec![selected];
    }
    let mut r: Vec<usize> = Vec::new();
    let mut i: usize = 0;
    while i < scope_count
        invariant
            i <= scope_count,
            r@ == Seq::new(i as nat, |j: int| j as usize),
        decreases scope_count - i,
    {
        r.push(i);
        i = i + 1;
        proof {
            assert(r@ =~= Seq::new(i as nat, |j: int| j as usize));
        }
    }
    r
}

} // verus!
