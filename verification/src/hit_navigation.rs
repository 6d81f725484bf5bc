//! What a click on a tab, a project or an overview tile does to the
//! dashboard's navigation: which tab and project are shown, which pane has
//! the focus, and what has to follow.

use vstd::prelude::*;
use crate::help::{DashboardPane, OverviewTab};
use crate::project_settings::ProjectSettingsTab;

verus! {

/// Where the dashboard stands.
#[derive(Clone, Copy, Debug, PartialEq, Eq, Structural)]
pub struct DashboardNav {
    pub overview_tab: OverviewTab,
    pub project_settings_tab: ProjectSettingsTab,
    pub focus: DashboardPane,
    pub selected_project: usize,
}

/// The clicks that move around the dashboard.
#[derive(Clone, Copy, Debug, PartialEq, Eq, Structural)]
pub enum NavigationHit {
    SelectOverviewTab(OverviewTab),
    SelectProjectSettingsTab(ProjectSettingsTab),
    SelectProject(usize),
    /// A click on an overview tile's control (release, bump, cycling its
    /// info): the overview takes the focus before the control acts.
    OverviewTileControl,
}

/// What has to follow a click.
#[derive(Clone, Copy, Debug, PartialEq, Eq, Structural)]
pub struct NavigationFollowUp {
    /// The overview tab changed: flash it.
    pub flash_overview_tab: bool,
    /// A Project Settings tab was picked: flash it and bring the pane's
    /// state in line with the project.
    pub flash_project_settings_tab: bool,
    /// Another project may be shown: load its dashboard data and drop the
    /// Project Settings pane's state.
    pub refresh_selected_project: bool,
}

pub open spec fn no_follow_up() -> NavigationFollowUp {
    NavigationFollowUp { flash_overview_tab: false, flash_project_settings_tab: false, refresh_selected_project: false }
}

/// The index a click on project `index` selects among `project_count`.
pub open spec fn clamped_project(index: usize, project_count: usize) -> usize {
    if project_count == 0 { 0 } else if index < project_count { index } else { (project_count - 1) as usize }
}

/// The navigation after a click, and what follows it.
pub open spec fn navigation_after(nav: DashboardNav, hit: NavigationHit, project_count: usize) -> (DashboardNav, NavigationFollowUp) {
    match hit {
        NavigationHit::SelectOverviewTab(tab) => (
            DashboardNav { overview_tab: tab, focus: DashboardPane::Overview, ..nav },
            NavigationFollowUp { flash_overview_tab: nav.overview_tab != tab, ..no_follow_up() },
        ),
        NavigationHit::SelectProjectSettingsTab(tab) => (
            DashboardNav {
                overview_tab: OverviewTab::ProjectSettings,
                project_settings_tab: tab,
                focus: DashboardPane::Overview,
                ..nav
            },
            NavigationFollowUp { flash_project_settings_tab: true, ..no_follow_up() },
        ),
        NavigationHit::SelectProject(index) => (
            DashboardNav { selected_project: clamped_project(index, project_count), focus: DashboardPane::Projects, ..nav },
            NavigationFollowUp { refresh_selected_project: true, ..no_follow_up() },
        ),
        NavigationHit::OverviewTileControl => (
            DashboardNav { focus: DashboardPane::Overview, ..nav },
            no_follow_up(),
        ),
    }
}

/// Applies a navigation click.
pub fn apply_navigation_hit(nav: &mut DashboardNav, hit: NavigationHit, project_count: usize) -> (f: NavigationFollowUp)
    ensures
        (*final(nav), f) == navigation_after(*old(nav), hit, project_count),
{
    let none = NavigationFollowUp { flash_overview_tab: false, flash_project_settings_tab: false, refresh_selected_project: false };
    match hit {
        NavigationHit::SelectOverviewTab(tab) => {
            let changed = nav.overview_tab != tab;
            nav.overview_tab = tab;
            nav.focus = DashboardPane::Overview;
            NavigationFollowUp { flash_overview_tab: changed, ..none }
        },
        NavigationHit::SelectProjectSettingsTab(tab) => {
            nav.overview_tab = OverviewTab::ProjectSettings;
            nav.project_settings_tab = tab;
            nav.focus = DashboardPane::Overview;
            NavigationFollowUp { flash_project_settings_tab: true, ..none }
        },
        NavigationHit::SelectProject(index) => {
            nav.selected_project = if project_count == 0 {
                0
            } else if index < project_count {
                index
            } else {
                project_count - 1
            };
            nav.focus = DashboardPane::Projects;
            NavigationFollowUp { refresh_selected_project: true, ..none }
        },
        NavigationHit::OverviewTileControl => {
            nav.focus = DashboardPane::Overview;
            none
        },
    }
}

/// A selected project is always on the list (when there is one), and
/// clicking the tab already shown flashes nothing and changes only the focus.
pub proof fn law_clicks_keep_the_selection_on_the_list(nav: DashboardNav, hit: NavigationHit, project_count: usize)
    ensures
        hit is SelectProject && project_count > 0 ==> navigation_after(nav, hit, project_count).0.selected_project < project_count,
        navigation_after(nav, NavigationHit::SelectOverviewTab(nav.overview_tab), project_count)
            == (DashboardNav { focus: DashboardPane::Overview, ..nav }, no_follow_up()),
{
}

} // verus!
