//! What a press on the screen below the dialogs does: picking up a
//! Project Settings tab, an overview tile or a project for dragging, and
//! telling a double click on a recent change (which opens the commit rename)
//! from a single one.

use vstd::prelude::*;
use crate::help::{DashboardPane, OverviewTab, Screen};
use crate::textarea_click::DOUBLE_CLICK_MILLIS;

verus! {

/// Where the screen stands when a left press comes in, and what lies under
/// the pointer.
#[derive(Clone, Copy, Debug, PartialEq, Eq, Structural)]
pub struct PressContext {
    pub screen: Screen,
    pub overview_tab: OverviewTab,
    pub focus: DashboardPane,
    pub overview_bump_workflow_open: bool,
    /// The Project Settings tab strip picked up a tab for dragging.
    pub tab_drag_started: bool,
    /// The overview tile under the pointer (the last drawn), by scope.
    pub tile_under_pointer: Option<usize>,
    /// The project row under the pointer (the last drawn).
    pub project_under_pointer: Option<usize>,
}

/// What a left press on the screen does.
#[derive(Clone, Copy, Debug, PartialEq, Eq, Structural)]
pub struct PressPlan {
    /// The press went to the tab strip; nothing else happens.
    pub tab_drag: bool,
    /// Whether the overview's tile drag is (re)set by this press, and to
    /// which scope; that scope is also selected.
    pub sets_tile_drag: bool,
    pub tile_drag: Option<usize>,
    /// Whether the project drag is (re)set by this press, and to which
    /// project; that project is also selected.
    pub sets_project_drag: bool,
    pub project_drag: Option<usize>,
    /// The clicked action, if any, runs afterwards.
    pub runs_action: bool,
}

pub open spec fn press_plan_spec(c: PressContext) -> PressPlan {
    let on_dashboard = c.screen == Screen::Dashboard;
    if on_dashboard && c.overview_tab == OverviewTab::ProjectSettings && c.tab_drag_started {
        PressPlan {
            tab_drag: true,
            sets_tile_drag: false,
            tile_drag: None,
            sets_project_drag: false,
            project_drag: None,
            runs_action: false,
        }
    } else {
        let tiles = !c.overview_bump_workflow_open && on_dashboard && c.overview_tab == OverviewTab::Overview;
        let projects = on_dashboard && c.focus == DashboardPane::Projects;
        PressPlan {
            tab_drag: false,
            sets_tile_drag: tiles,
            tile_drag: if tiles { c.tile_under_pointer } else { None },
            sets_project_drag: projects,
            project_drag: if projects { c.project_under_pointer } else { None },
            runs_action: true,
        }
    }
}

/// Plans a left press on the screen.
pub fn press_plan(c: PressContext) -> (p: PressPlan)
    ensures
        p == press_plan_spec(c),
{
    let on_dashboard = c.screen == Screen::Dashboard;
    if on_dashboard && c.overview_tab == OverviewTab::ProjectSettings && c.tab_drag_started {
        return PressPlan {
            tab_drag: true,
            sets_tile_drag: false,
            tile_drag: None,
            sets_project_drag: false,
            project_drag: None,
            runs_action: false,
        };
    }
    let tiles = !c.overview_bump_workflow_open && on_dashboard && c.overview_tab == OverviewTab::Overview;
    let projects = on_dashboard && c.focus == DashboardPane::Projects;
    PressPlan {
        tab_drag: false,
        sets_tile_drag: tiles,
        tile_drag: if tiles { c.tile_under_pointer } else { None },
        sets_project_drag: projects,
        project_drag: if projects { c.project_under_pointer } else { None },
        runs_action: true,
    }
}

/// The two views that list recent changes.
#[derive(Clone, Copy, Debug, PartialEq, Eq, Structural)]
pub enum RecentChangeView {
    Overview,
    Popup,
}

/// A line of a recent-changes view.
#[derive(Clone, Copy, Debug, PartialEq, Eq, Structural)]
pub struct RecentChangeTarget {
    pub view: RecentChangeView,
    pub line_index: usize,
}

/// The last click on a recent change, and when it came (in milliseconds).
#[derive(Clone, Copy, Debug, PartialEq, Eq, Structural)]
pub struct LastRecentChangeClick {
    pub target: RecentChangeTarget,
    pub at_millis: u128,
}

/// The milliseconds from `earlier` to `later`, none when `later` came first.
pub open spec fn elapsed(earlier: u128, later: u128) -> int {
    if later >= earlier { later - earlier } else { 0 }
}

/// What a click on a line of the recent changes leads to: the new last
/// click, and the view whose commit rename opens (on a second click on the
/// same line within the double-click window). A click elsewhere forgets the
/// last one.
pub open spec fn recent_change_click_spec(last: Option<LastRecentChangeClick>, target: Option<RecentChangeTarget>, now_millis: u128)
    -> (Option<LastRecentChangeClick>, Option<RecentChangeView>)
{
    match target {
        None => (None, None),
        Some(t) => {
            let repeated = last matches Some(l) && l.target == t && elapsed(l.at_millis, now_millis) <= DOUBLE_CLICK_MILLIS;
            (Some(LastRecentChangeClick { target: t, at_millis: now_millis }), if repeated { Some(t.view) } else { None })
        },
    }
}

/// Tracks clicks on recent changes and tells when one opens the commit rename.
pub fn recent_change_click(last: Option<LastRecentChangeClick>, target: Option<RecentChangeTarget>, now_millis: u128)
    -> (r: (Option<LastRecentChangeClick>, Option<RecentChangeView>))
    ensures
        r == recent_change_click_spec(last, target, now_millis),
{
    match target {
        None => (None, None),
        Some(t) => {
            let repeated = match last {
                Some(l) => {
                    let gap: u128 = if now_millis >= l.at_millis { now_millis - l.at_millis } else { 0 };
                    l.target == t && gap <= DOUBLE_CLICK_MILLIS
                },
                None => false,
            };
            (Some(LastRecentChangeClick { target: t, at_millis: now_millis }), if repeated { Some(t.view) } else { None })
        },
    }
}

/// A single click never opens the commit rename: the first click on a line,
/// or a click on another line, only records itself.
pub proof fn law_only_a_repeated_click_opens_the_rename(last: Option<LastRecentChangeClick>, t: RecentChangeTarget, now: u128)
    ensures
        recent_change_click_spec(last, Some(t), now).1 is Some
            ==> (last matches Some(l) && l.target == t),
        recent_change_click_spec(recent_change_click_spec(None, Some(t), now).0, Some(t), now).1 == Some(t.view),
{
}

/// A press that picks up a Project Settings tab does nothing else; tiles
/// are picked up only on the overview tab while no bump workflow is open,
/// projects only while the project list has the focus, and what is picked
/// up is what lies under the pointer.
pub proof fn law_presses_pick_up_what_is_under_them(c: PressContext)
    ensures
        press_plan_spec(c).tab_drag ==> !press_plan_spec(c).runs_action && !press_plan_spec(c).sets_tile_drag
            && !press_plan_spec(c).sets_project_drag,
        press_plan_spec(c).tab_drag <==> (c.screen == Screen::Dashboard && c.overview_tab == OverviewTab::ProjectSettings
            && c.tab_drag_started),
        press_plan_spec(c).sets_tile_drag <==> (!press_plan_spec(c).tab_drag && !c.overview_bump_workflow_open
            && c.screen == Screen::Dashboard && c.overview_tab == OverviewTab::Overview),
        press_plan_spec(c).sets_tile_drag ==> press_plan_spec(c).tile_drag == c.tile_under_pointer,
        press_plan_spec(c).sets_project_drag <==> (!press_plan_spec(c).tab_drag && c.screen == Screen::Dashboard
            && c.focus == DashboardPane::Projects),
        press_plan_spec(c).sets_project_drag ==> press_plan_spec(c).project_drag == c.project_under_pointer,
        !press_plan_spec(c).tab_drag ==> press_plan_spec(c).runs_action,
{
}

} // verus!
