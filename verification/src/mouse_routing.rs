//! What the mouse wheel scrolls outside the dialogs that handle it
//! themselves, and which tile or project a press picks up for dragging.

use vstd::prelude::*;
use crate::help::{OverviewTab, Screen};
use crate::pointer::{ScreenRect, rect_contains};

verus! {

/// What is open or under the pointer, as far as the wheel is concerned.
#[derive(Clone, Copy, Debug, PartialEq, Eq, Structural)]
pub struct WheelContext {
    pub project_edit: bool,
    pub changelog_preview: bool,
    pub overview_bump_workflow: bool,
    pub tag: bool,
    pub recent_changes: bool,
    pub bump: bool,
    pub screen: Screen,
    pub overview_tab: OverviewTab,
    /// The pointer is over the overview's git log.
    pub over_overview_log: bool,
    /// The pointer is over the overview's tiles.
    pub over_tiles: bool,
    /// The overview shows a git log.
    pub overview_log_shown: bool,
}

/// What a wheel step does.
#[derive(Clone, Copy, Debug, PartialEq, Eq, Structural)]
pub enum WheelAction {
    Nothing,
    ScrollProjectEdit(isize),
    ScrollChangelogPreview(i16),
    ScrollRecentChanges(i16),
    RotateBumpAction(isize),
    ScrollWizard(isize),
    ScrollProjectSettings(isize),
    ScrollOverviewLog(i16),
    ScrollTiles(isize),
    MoveProjectSelection(isize),
}

/// On the overview tab: the git log under the pointer (or the project list
/// when there is none), the tiles under the pointer, else the git log if
/// shown, else the project list.
pub open spec fn overview_wheel(c: WheelContext, step: int) -> WheelAction {
    if c.over_overview_log {
        if c.overview_log_shown { WheelAction::ScrollOverviewLog((2 * step) as i16) } else { WheelAction::MoveProjectSelection(step as isize) }
    } else if c.over_tiles {
        WheelAction::ScrollTiles(step as isize)
    } else if c.overview_log_shown {
        WheelAction::ScrollOverviewLog((2 * step) as i16)
    } else {
        WheelAction::MoveProjectSelection(step as isize)
    }
}

/// The action of a wheel step up (`up`) or down: the first open dialog in
/// this order takes it (the workflow and tag dialogs swallow it), else the
/// screen and overview tab decide.
pub open spec fn wheel_action_spec(c: WheelContext, up: bool) -> WheelAction {
    let step: int = if up { -1 } else { 1 };
    if c.project_edit {
        WheelAction::ScrollProjectEdit(step as isize)
    } else if c.changelog_preview {
        WheelAction::ScrollChangelogPreview((2 * step) as i16)
    } else if c.overview_bump_workflow || c.tag {
        WheelAction::Nothing
    } else if c.recent_changes {
        WheelAction::ScrollRecentChanges((2 * step) as i16)
    } else if c.bump {
        WheelAction::RotateBumpAction(step as isize)
    } else if c.screen == Screen::Wizard {
        WheelAction::ScrollWizard(step as isize)
    } else if c.screen == Screen::Dashboard && c.overview_tab == OverviewTab::ProjectSettings {
        WheelAction::ScrollProjectSettings(step as isize)
    } else if c.screen == Screen::Dashboard && c.overview_tab == OverviewTab::Overview {
        overview_wheel(c, step)
    } else if c.screen == Screen::Dashboard && c.overview_tab == OverviewTab::RecentChanges {
        if c.overview_log_shown { WheelAction::ScrollOverviewLog((2 * step) as i16) } else { WheelAction::Nothing }
    } else if c.screen == Screen::Dashboard {
        WheelAction::MoveProjectSelection(step as isize)
    } else {
        WheelAction::Nothing
    }
}

/// What a wheel step (up or down; left counts as up, right as down) does
/// when no tab strip took it.
pub fn wheel_action(c: WheelContext, up: bool) -> (a: WheelAction)
    ensures
        a == wheel_action_spec(c, up),
{
    let step: isize = if up { -1 } else { 1 };
    let lines: i16 = if up { -2 } else { 2 };
    if c.project_edit {
        WheelAction::ScrollProjectEdit(step)
    } else if c.changelog_preview {
        WheelAction::ScrollChangelogPreview(lines)
    } else if c.overview_bump_workflow || c.tag {
        WheelAction::Nothing
    } else if c.recent_changes {
        WheelAction::ScrollRecentChanges(lines)
    } else if c.bump {
        WheelAction::RotateBumpAction(step)
    } else if c.screen == Screen::Wizard {
        WheelAction::ScrollWizard(step)
    } else if c.screen == Screen::Dashboard && c.overview_tab == OverviewTab::ProjectSettings {
        WheelAction::ScrollProjectSettings(step)
    } else if c.screen == Screen::Dashboard && c.overview_tab == OverviewTab::Overview {
        if c.over_overview_log {
            if c.overview_log_shown { WheelAction::ScrollOverviewLog(lines) } else { WheelAction::MoveProjectSelection(step) }
        } else if c.over_tiles {
            WheelAction::ScrollTiles(step)
        } else if c.overview_log_shown {
            WheelAction::ScrollOverviewLog(lines)
        } else {
            WheelAction::MoveProjectSelection(step)
        }
    } else if c.screen == Screen::Dashboard && c.overview_tab == OverviewTab::RecentChanges {
        if c.overview_log_shown { WheelAction::ScrollOverviewLog(lines) } else { WheelAction::Nothing }
    } else if c.screen == Screen::Dashboard {
        WheelAction::MoveProjectSelection(step)
    } else {
        WheelAction::Nothing
    }
}

/// A wheel step down undoes a step up: the same thing moves the other way.
pub proof fn law_wheel_up_and_down_are_opposite(c: WheelContext)
    ensures
        match (wheel_action_spec(c, true), wheel_action_spec(c, false)) {
            (WheelAction::Nothing, WheelAction::Nothing) => true,
            (WheelAction::ScrollProjectEdit(a), WheelAction::ScrollProjectEdit(b)) => a == -b,
            (WheelAction::ScrollChangelogPreview(a), WheelAction::ScrollChangelogPreview(b)) => a == -b,
            (WheelAction::ScrollRecentChanges(a), WheelAction::ScrollRecentChanges(b)) => a == -b,
            (WheelAction::RotateBumpAction(a), WheelAction::RotateBumpAction(b)) => a == -b,
            (WheelAction::ScrollWizard(a), WheelAction::ScrollWizard(b)) => a == -b,
            (WheelAction::ScrollProjectSettings(a), WheelAction::ScrollProjectSettings(b)) => a == -b,
            (WheelAction::ScrollOverviewLog(a), WheelAction::ScrollOverviewLog(b)) => a == -b,
            (WheelAction::ScrollTiles(a), WheelAction::ScrollTiles(b)) => a == -b,
            (WheelAction::MoveProjectSelection(a), WheelAction::MoveProjectSelection(b)) => a == -b,
            _ => false,
        },
{
}

/// The value of the last-drawn rectangle holding the cell, if any holds it.
pub open spec fn topmost_at(areas: Seq<(ScreenRect, usize)>, column: int, row: int) -> Option<usize>
    decreases areas.len(),
{
    if areas.len() == 0 {
        None
    } else if areas.last().0.contains_spec(column, row) {
        Some(areas.last().1)
    } else {
        topmost_at(areas.drop_last(), column, row)
    }
}

/// The tile (or project) a press at `(column, row)` picks up: the last drawn
/// of `areas` that holds the cell.
pub fn topmost_area_at(areas: &Vec<(ScreenRect, usize)>, column: u16, row: u16) -> (r: Option<usize>)
    requires
        forall|i: int| 0 <= i < areas@.len() ==> (#[trigger] areas@[i]).0.wf(),
    ensures
        r == topmost_at(areas@, column as int, row as int),
{
    let mut i = areas.len();
    proof {
        assert(areas@.take(i as int) =~= areas@);
    }
    while i > 0
        invariant
            i <= areas@.len(),
            forall|k: int| 0 <= k < areas@.len() ==> (#[trigger] areas@[k]).0.wf(),
            topmost_at(areas@, column as int, row as int) == topmost_at(areas@.take(i as int), column as int, row as int),
        decreases i,
    {
        let (rect, value) = areas[i - 1];
        proof {
            assert(areas@.take(i as int).last() == areas@[i - 1]);
            assert(areas@.take(i as int).drop_last() =~= areas@.take(i - 1));
        }
        if rect_contains(rect, column, row) {
            return Some(value);
        }
        i = i - 1;
    }
    None
}

/// No dialog that takes the wheel is open.
pub open spec fn no_wheel_dialog(c: WheelContext) -> bool {
    !c.project_edit && !c.changelog_preview && !c.overview_bump_workflow && !c.tag && !c.recent_changes && !c.bump
}

/// One wheel step: -1 up, +1 down.
pub open spec fn wheel_step(up: bool) -> int {
    if up { -1 } else { 1 }
}

/// A wheel step moves what is in front by one step (two lines for text
/// views) in the wheel's direction: the project editor, then the changelog
/// preview, then nothing under the workflow and tag dialogs, then the
/// recent changes, then the bump dialog; with no dialog open, the wizard's
/// body on the wizard screen, the Project Settings pane on its tab, and
/// nothing on the UI settings screen.
pub proof fn law_wheel_moves_what_is_in_front(c: WheelContext, up: bool)
    ensures
        c.project_edit ==> wheel_action_spec(c, up) == WheelAction::ScrollProjectEdit(wheel_step(up) as isize),
        !c.project_edit && c.changelog_preview
            ==> wheel_action_spec(c, up) == WheelAction::ScrollChangelogPreview((2 * wheel_step(up)) as i16),
        !c.project_edit && !c.changelog_preview && (c.overview_bump_workflow || c.tag)
            ==> wheel_action_spec(c, up) == WheelAction::Nothing,
        !c.project_edit && !c.changelog_preview && !c.overview_bump_workflow && !c.tag && c.recent_changes
            ==> wheel_action_spec(c, up) == WheelAction::ScrollRecentChanges((2 * wheel_step(up)) as i16),
        !c.project_edit && !c.changelog_preview && !c.overview_bump_workflow && !c.tag && !c.recent_changes && c.bump
            ==> wheel_action_spec(c, up) == WheelAction::RotateBumpAction(wheel_step(up) as isize),
        no_wheel_dialog(c) && c.screen == Screen::Wizard
            ==> wheel_action_spec(c, up) == WheelAction::ScrollWizard(wheel_step(up) as isize),
        no_wheel_dialog(c) && c.screen == Screen::Dashboard && c.overview_tab == OverviewTab::ProjectSettings
            ==> wheel_action_spec(c, up) == WheelAction::ScrollProjectSettings(wheel_step(up) as isize),
        no_wheel_dialog(c) && c.screen == Screen::Dashboard && c.overview_tab == OverviewTab::ProjectDetail
            ==> wheel_action_spec(c, up) == WheelAction::MoveProjectSelection(wheel_step(up) as isize),
        no_wheel_dialog(c) && c.screen == Screen::Dashboard && c.overview_tab == OverviewTab::Overview && c.over_tiles
            && !c.over_overview_log ==> wheel_action_spec(c, up) == WheelAction::ScrollTiles(wheel_step(up) as isize),
        no_wheel_dialog(c) && c.screen == Screen::UiSettings ==> wheel_action_spec(c, up) == WheelAction::Nothing,
{
}

} // verus!
