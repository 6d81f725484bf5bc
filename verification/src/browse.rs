//! The file browser as the Project Settings pane uses it: which field a
//! browse is for, where the browser starts, and storing what was picked.

use vstd::prelude::*;
use crate::project_settings::{
    AliasCustomEntryState, ProjectSettingsFocus, ProjectSettingsSource, ProjectSettingsState,
};
use crate::settings_inputs::{
    input_text, persist_project_settings_inputs, persisted_from, set_alias_path_from_browse,
};
use crate::text::copy_string;

verus! {

/// What a file browser was opened for.
#[derive(Clone, Copy, Debug, PartialEq, Eq, Structural)]
pub enum BrowseTarget {
    WizardTargetPath,
    WizardRepoRoot,
    ProjectEditTargetPath,
    ProjectEditRepoRoot,
    ProjectSettingsChangelogPath,
    ProjectSettingsReleaseNowGeneral,
    ProjectSettingsReleaseNowWindows,
    ProjectSettingsReleaseNowLinuxArm,
    ProjectSettingsReleaseNowLinuxAmd,
    ProjectSettingsReleaseNowMacOs,
    ProjectSettingsAliasDistPath,
    ProjectSettingsAliasUiPath,
    ProjectSettingsAliasCustomPath(u16),
}

/// The Project Settings field a browse target fills, if it fills one.
pub open spec fn field_of_target(target: BrowseTarget) -> Option<ProjectSettingsFocus> {
    match target {
        BrowseTarget::ProjectSettingsChangelogPath => Some(ProjectSettingsFocus::ChangelogPath),
        BrowseTarget::ProjectSettingsReleaseNowGeneral => Some(ProjectSettingsFocus::ReleaseNowGeneral),
        BrowseTarget::ProjectSettingsReleaseNowWindows => Some(ProjectSettingsFocus::ReleaseNowWindows),
        BrowseTarget::ProjectSettingsReleaseNowLinuxArm => Some(ProjectSettingsFocus::ReleaseNowLinuxArm),
        BrowseTarget::ProjectSettingsReleaseNowLinuxAmd => Some(ProjectSettingsFocus::ReleaseNowLinuxAmd),
        BrowseTarget::ProjectSettingsReleaseNowMacOs => Some(ProjectSettingsFocus::ReleaseNowMacOs),
        BrowseTarget::ProjectSettingsAliasDistPath => Some(ProjectSettingsFocus::AliasDistPath),
        BrowseTarget::ProjectSettingsAliasUiPath => Some(ProjectSettingsFocus::AliasUiPath),
        BrowseTarget::ProjectSettingsAliasCustomPath(i) => Some(ProjectSettingsFocus::AliasCustomPath(i)),
        _ => None,
    }
}

/// The browse target for a Project Settings field, if the field can be browsed for.
pub open spec fn target_of_field(focus: ProjectSettingsFocus) -> Option<BrowseTarget> {
    match focus {
        ProjectSettingsFocus::ChangelogPath => Some(BrowseTarget::ProjectSettingsChangelogPath),
        ProjectSettingsFocus::ReleaseNowGeneral => Some(BrowseTarget::ProjectSettingsReleaseNowGeneral),
        ProjectSettingsFocus::ReleaseNowWindows => Some(BrowseTarget::ProjectSettingsReleaseNowWindows),
        ProjectSettingsFocus::ReleaseNowLinuxArm => Some(BrowseTarget::ProjectSettingsReleaseNowLinuxArm),
        ProjectSettingsFocus::ReleaseNowLinuxAmd => Some(BrowseTarget::ProjectSettingsReleaseNowLinuxAmd),
        ProjectSettingsFocus::ReleaseNowMacOs => Some(BrowseTarget::ProjectSettingsReleaseNowMacOs),
        ProjectSettingsFocus::AliasDistPath => Some(BrowseTarget::ProjectSettingsAliasDistPath),
        ProjectSettingsFocus::AliasUiPath => Some(BrowseTarget::ProjectSettingsAliasUiPath),
        ProjectSettingsFocus::AliasCustomPath(i) => Some(BrowseTarget::ProjectSettingsAliasCustomPath(i)),
        _ => None,
    }
}

/// The browse target that Ctrl+O opens for the focused field (none for a
/// field that is not a path).
pub fn browse_target_for_focus(focus: ProjectSettingsFocus) -> (t: Option<BrowseTarget>)
    ensures
        t == target_of_field(focus),
{
    match focus {
        ProjectSettingsFocus::ChangelogPath => Some(BrowseTarget::ProjectSettingsChangelogPath),
        ProjectSettingsFocus::ReleaseNowGeneral => Some(BrowseTarget::ProjectSettingsReleaseNowGeneral),
        ProjectSettingsFocus::ReleaseNowWindows => Some(BrowseTarget::ProjectSettingsReleaseNowWindows),
        ProjectSettingsFocus::ReleaseNowLinuxArm => Some(BrowseTarget::ProjectSettingsReleaseNowLinuxArm),
        ProjectSettingsFocus::ReleaseNowLinuxAmd => Some(BrowseTarget::ProjectSettingsReleaseNowLinuxAmd),
        ProjectSettingsFocus::ReleaseNowMacOs => Some(BrowseTarget::ProjectSettingsReleaseNowMacOs),
        ProjectSettingsFocus::AliasDistPath => Some(BrowseTarget::ProjectSettingsAliasDistPath),
        ProjectSettingsFocus::AliasUiPath => Some(BrowseTarget::ProjectSettingsAliasUiPath),
        ProjectSettingsFocus::AliasCustomPath(i) => Some(BrowseTarget::ProjectSettingsAliasCustomPath(i)),
        _ => None,
    }
}

/// The Project Settings field a browse target fills.
pub fn field_for_browse_target(target: BrowseTarget) -> (f: Option<ProjectSettingsFocus>)
    ensures
        f == field_of_target(target),
{
    match target {
        BrowseTarget::ProjectSettingsChangelogPath => Some(ProjectSettingsFocus::ChangelogPath),
        BrowseTarget::ProjectSettingsReleaseNowGeneral => Some(ProjectSettingsFocus::ReleaseNowGeneral),
        BrowseTarget::ProjectSettingsReleaseNowWindows => Some(ProjectSettingsFocus::ReleaseNowWindows),
        BrowseTarget::ProjectSettingsReleaseNowLinuxArm => Some(ProjectSettingsFocus::ReleaseNowLinuxArm),
        BrowseTarget::ProjectSettingsReleaseNowLinuxAmd => Some(ProjectSettingsFocus::ReleaseNowLinuxAmd),
        BrowseTarget::ProjectSettingsReleaseNowMacOs => Some(ProjectSettingsFocus::ReleaseNowMacOs),
        BrowseTarget::ProjectSettingsAliasDistPath => Some(ProjectSettingsFocus::AliasDistPath),
        BrowseTarget::ProjectSettingsAliasUiPath => Some(ProjectSettingsFocus::AliasUiPath),
        BrowseTarget::ProjectSettingsAliasCustomPath(i) => Some(ProjectSettingsFocus::AliasCustomPath(i)),
        _ => None,
    }
}

/// A field browsed for is the field the browse then fills, and a target that
/// fills a field is the target browsing for that field opens.
pub proof fn law_browse_targets_match_fields(focus: ProjectSettingsFocus, target: BrowseTarget)
    ensures
        target_of_field(focus) matches Some(t) ==> field_of_target(t) == Some(focus),
        field_of_target(target) matches Some(f) ==> target_of_field(f) == Some(target),
{
}

impl BrowseTarget {
    pub open spec fn selects_directories_spec(self) -> bool {
        match self {
            BrowseTarget::WizardRepoRoot | BrowseTarget::ProjectEditRepoRoot
            | BrowseTarget::ProjectSettingsAliasDistPath | BrowseTarget::ProjectSettingsAliasUiPath
            | BrowseTarget::ProjectSettingsAliasCustomPath(_) => true,
            _ => false,
        }
    }

    /// Whether the browser picks a directory (repository roots and alias
    /// paths) rather than a file.
    pub fn selects_directories(&self) -> (r: bool)
        ensures
            r == self.selects_directories_spec(),
    {
        match self {
            BrowseTarget::WizardRepoRoot | BrowseTarget::ProjectEditRepoRoot
            | BrowseTarget::ProjectSettingsAliasDistPath | BrowseTarget::ProjectSettingsAliasUiPath
            | BrowseTarget::ProjectSettingsAliasCustomPath(_) => true,
            _ => false,
        }
    }

    pub open spec fn title_spec(self) -> Seq<char> {
        match self {
            BrowseTarget::WizardRepoRoot | BrowseTarget::ProjectEditRepoRoot => "Browse Repo Root"@,
            BrowseTarget::ProjectSettingsChangelogPath => "Browse Changelog Path"@,
            BrowseTarget::ProjectSettingsReleaseNowGeneral | BrowseTarget::ProjectSettingsReleaseNowWindows
            | BrowseTarget::ProjectSettingsReleaseNowLinuxArm | BrowseTarget::ProjectSettingsReleaseNowLinuxAmd
            | BrowseTarget::ProjectSettingsReleaseNowMacOs => "Browse Release Script"@,
            _ => "Browse Target Path"@,
        }
    }

    /// The browser dialog's title.
    pub fn title(&self) -> (t: &'static str)
        ensures
            t@ == self.title_spec(),
    {
        proof {
            reveal_strlit("Browse Repo Root");
            reveal_strlit("Browse Changelog Path");
            reveal_strlit("Browse Release Script");
            reveal_strlit("Browse Target Path");
        }
        match self {
            BrowseTarget::WizardRepoRoot | BrowseTarget::ProjectEditRepoRoot => "Browse Repo Root",
            BrowseTarget::ProjectSettingsChangelogPath => "Browse Changelog Path",
            BrowseTarget::ProjectSettingsReleaseNowGeneral | BrowseTarget::ProjectSettingsReleaseNowWindows
            | BrowseTarget::ProjectSettingsReleaseNowLinuxArm | BrowseTarget::ProjectSettingsReleaseNowLinuxAmd
            | BrowseTarget::ProjectSettingsReleaseNowMacOs => "Browse Release Script",
            _ => "Browse Target Path",
        }
    }
}

/// Where the browser starts for a Project Settings target: the field's current
/// text (none for another target, or a custom alias that is gone).
pub fn initial_browser_path(state: &ProjectSettingsState, target: BrowseTarget) -> (path: Option<String>)
    ensures
        match field_of_target(target) {
            Some(f) => match (path, input_text(*state, f)) {
                (Some(p), Some(t)) => p@ == t,
                (None, None) => true,
                _ => false,
            },
            None => path is None,
        },
{
    match target {
        BrowseTarget::ProjectSettingsChangelogPath => Some(copy_string(&state.changelog_path)),
        BrowseTarget::ProjectSettingsReleaseNowGeneral => Some(copy_string(&state.release_now_general)),
        BrowseTarget::ProjectSettingsReleaseNowWindows => Some(copy_string(&state.release_now_windows)),
        BrowseTarget::ProjectSettingsReleaseNowLinuxArm => Some(copy_string(&state.release_now_linux_arm)),
        BrowseTarget::ProjectSettingsReleaseNowLinuxAmd => Some(copy_string(&state.release_now_linux_amd)),
        BrowseTarget::ProjectSettingsReleaseNowMacOs => Some(copy_string(&state.release_now_macos)),
        BrowseTarget::ProjectSettingsAliasDistPath => Some(copy_string(&state.alias_dist_path)),
        BrowseTarget::ProjectSettingsAliasUiPath => Some(copy_string(&state.alias_ui_path)),
        BrowseTarget::ProjectSettingsAliasCustomPath(index) => {
            let i = index as usize;
            if i < state.alias_custom.len() {
                Some(copy_string(&state.alias_custom[i].path))
            } else {
                None
            }
        },
        _ => None,
    }
}

/// `after` is `before` with `value` stored in the path field `field` (a
/// custom alias that is gone stores nothing).
pub open spec fn path_stored(before: ProjectSettingsState, after: ProjectSettingsState, field: ProjectSettingsFocus, value: String) -> bool {
    match field {
        ProjectSettingsFocus::ChangelogPath => after == (ProjectSettingsState { changelog_path: value, ..before }),
        ProjectSettingsFocus::ReleaseNowGeneral => after == (ProjectSettingsState { release_now_general: value, ..before }),
        ProjectSettingsFocus::ReleaseNowWindows => after == (ProjectSettingsState { release_now_windows: value, ..before }),
        ProjectSettingsFocus::ReleaseNowLinuxArm => after == (ProjectSettingsState { release_now_linux_arm: value, ..before }),
        ProjectSettingsFocus::ReleaseNowLinuxAmd => after == (ProjectSettingsState { release_now_linux_amd: value, ..before }),
        ProjectSettingsFocus::ReleaseNowMacOs => after == (ProjectSettingsState { release_now_macos: value, ..before }),
        ProjectSettingsFocus::AliasDistPath => after == (ProjectSettingsState { alias_dist_path: value, ..before }),
        ProjectSettingsFocus::AliasUiPath => after == (ProjectSettingsState { alias_ui_path: value, ..before }),
        ProjectSettingsFocus::AliasCustomPath(i) => if (i as int) < before.alias_custom@.len() {
            &&& after == (ProjectSettingsState { alias_custom: after.alias_custom, ..before })
            &&& after.alias_custom@ == before.alias_custom@.update(i as int,
                AliasCustomEntryState { path: value, ..before.alias_custom@[i as int] })
        } else {
            after == before
        },
        _ => after == before,
    }
}

/// Stores a path picked for `target`: the focus moves to the target's field,
/// the path goes into it and the pane's inputs are written back to the scope.
/// Returns whether the target was a Project Settings field.
pub fn apply_browser_selection(
    state: &mut ProjectSettingsState,
    project: &mut ProjectSettingsSource,
    scope_index: usize,
    target: BrowseTarget,
    value: String,
) -> (applied: bool)
    ensures
        applied == field_of_target(target) is Some,
        !applied ==> *final(state) == *old(state) && *final(project) == *old(project),
        applied ==> {
            let f = field_of_target(target)->0;
            &&& path_stored(ProjectSettingsState { focus: f, ..*old(state) }, *final(state), f, value)
            &&& persisted_from(*old(project), *final(project), *final(state))
        },
{
    let field = match field_for_browse_target(target) {
        Some(f) => f,
        None => return false,
    };
    state.focus = field;
    match field {
        ProjectSettingsFocus::AliasDistPath | ProjectSettingsFocus::AliasUiPath
        | ProjectSettingsFocus::AliasCustomPath(_) => set_alias_path_from_browse(state, field, value),
        _ => state.set_value_from_browse(field, value),
    }
    persist_project_settings_inputs(project, scope_index, state);
    true
}

} // verus!
