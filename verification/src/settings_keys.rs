//! How the Project Settings pane answers keys and clicks: which action a key
//! asks for, activating a field, stepping the tab strip, and typing text.

use vstd::prelude::*;
use crate::project_settings::{
    ProjectSettingsFocus, ProjectSettingsSource, ProjectSettingsState, ProjectSettingsTab,
    accepts_text, focus_made_visible, inject_depth_of, is_checkbox, is_checkbox_field,
    is_readme_inject_depth_field, tab_strip_spec, index_or_zero, visible_fields_spec,
};
use crate::settings_edit::{
    PolicyKind, SettingsChange, toggle_change, toggle_focused_project_settings_control,
    toggled_flags, toggled_project, toggled_tab, same_but_policy_labels,
};
use crate::settings_inputs::{
    confirm_alias_custom_draft, delete_alias_custom, draft_rejection, edits_only_input, input_text,
    insert_text, synced_from,
};
use crate::text::{char_is_ascii_digit, is_ascii_digit};

verus! {

/// A key as the pane sees it.
#[derive(Clone, Copy, Debug, PartialEq, Eq, Structural)]
pub enum SettingsKey {
    Char { c: char, ctrl: bool },
    Tab,
    BackTab,
    Up,
    Down,
    Left,
    Right,
    Enter,
    Other,
}

/// What a key asks the pane to do.
#[derive(Clone, Copy, Debug, PartialEq, Eq, Structural)]
pub enum SettingsKeyAction {
    NotHandled,
    OpenBrowser,
    StepTab(isize),
    FocusNext,
    FocusPrevious,
    EditText,
    AdjustPolicy(PolicyKind, isize),
    Toggle,
    Activate,
}

/// The action for `key` when the focus is on `focus`; `in_text` says whether
/// the focused field takes typed text.
pub open spec fn key_action_spec(key: SettingsKey, focus: ProjectSettingsFocus, in_text: bool) -> SettingsKeyAction {
    match key {
        SettingsKey::Char { c: 'o', ctrl: true } => SettingsKeyAction::OpenBrowser,
        SettingsKey::Char { c: '[', ctrl: _ } => SettingsKeyAction::StepTab(-1isize),
        SettingsKey::Char { c: ']', ctrl: _ } => SettingsKeyAction::StepTab(1isize),
        _ => if in_text {
            match key {
                SettingsKey::Tab | SettingsKey::Down | SettingsKey::Enter => SettingsKeyAction::FocusNext,
                SettingsKey::BackTab | SettingsKey::Up => SettingsKeyAction::FocusPrevious,
                _ => SettingsKeyAction::EditText,
            }
        } else {
            match key {
                SettingsKey::Tab | SettingsKey::Down => SettingsKeyAction::FocusNext,
                SettingsKey::BackTab | SettingsKey::Up => SettingsKeyAction::FocusPrevious,
                SettingsKey::Left | SettingsKey::Right => {
                    let delta: isize = if key is Left { -1isize } else { 1isize };
                    match focus {
                        ProjectSettingsFocus::PostMergeSourceBranch => SettingsKeyAction::AdjustPolicy(PolicyKind::PostMergeSourceBranch, delta),
                        ProjectSettingsFocus::MirrorSyncAfterMerge => SettingsKeyAction::AdjustPolicy(PolicyKind::MirrorSyncAfterMerge, delta),
                        ProjectSettingsFocus::QuickDownloadsPosition => SettingsKeyAction::Toggle,
                        _ => SettingsKeyAction::NotHandled,
                    }
                },
                SettingsKey::Enter | SettingsKey::Char { c: ' ', ctrl: _ } => match focus {
                    ProjectSettingsFocus::AliasCustomAdd | ProjectSettingsFocus::AliasCustomDraftConfirm => SettingsKeyAction::Activate,
                    ProjectSettingsFocus::QuickDownloadsPosition | ProjectSettingsFocus::PostMergeSourceBranch
                    | ProjectSettingsFocus::MirrorSyncAfterMerge => SettingsKeyAction::NotHandled,
                    _ => SettingsKeyAction::Toggle,
                },
                _ => SettingsKeyAction::NotHandled,
            }
        },
    }
}

/// The action the pane takes for `key`.
pub fn project_settings_key_action(key: SettingsKey, focus: ProjectSettingsFocus, in_text: bool) -> (a: SettingsKeyAction)
    ensures
        a == key_action_spec(key, focus, in_text),
{
    match key {
        SettingsKey::Char { c: 'o', ctrl: true } => return SettingsKeyAction::OpenBrowser,
        SettingsKey::Char { c: '[', ctrl: _ } => return SettingsKeyAction::StepTab(-1),
        SettingsKey::Char { c: ']', ctrl: _ } => return SettingsKeyAction::StepTab(1),
        _ => {},
    }
    if in_text {
        return match key {
            SettingsKey::Tab | SettingsKey::Down | SettingsKey::Enter => SettingsKeyAction::FocusNext,
            SettingsKey::BackTab | SettingsKey::Up => SettingsKeyAction::FocusPrevious,
            _ => SettingsKeyAction::EditText,
        };
    }
    match key {
        SettingsKey::Tab | SettingsKey::Down => SettingsKeyAction::FocusNext,
        SettingsKey::BackTab | SettingsKey::Up => SettingsKeyAction::FocusPrevious,
        SettingsKey::Left | SettingsKey::Right => {
            let delta: isize = match key {
                SettingsKey::Left => -1,
                _ => 1,
            };
            match focus {
                ProjectSettingsFocus::PostMergeSourceBranch => SettingsKeyAction::AdjustPolicy(PolicyKind::PostMergeSourceBranch, delta),
                ProjectSettingsFocus::MirrorSyncAfterMerge => SettingsKeyAction::AdjustPolicy(PolicyKind::MirrorSyncAfterMerge, delta),
                ProjectSettingsFocus::QuickDownloadsPosition => SettingsKeyAction::Toggle,
                _ => SettingsKeyAction::NotHandled,
            }
        },
        SettingsKey::Enter | SettingsKey::Char { c: ' ', ctrl: _ } => match focus {
            ProjectSettingsFocus::AliasCustomAdd | ProjectSettingsFocus::AliasCustomDraftConfirm => SettingsKeyAction::Activate,
            ProjectSettingsFocus::QuickDownloadsPosition | ProjectSettingsFocus::PostMergeSourceBranch
            | ProjectSettingsFocus::MirrorSyncAfterMerge => SettingsKeyAction::NotHandled,
            _ => SettingsKeyAction::Toggle,
        },
        _ => SettingsKeyAction::NotHandled,
    }
}

/// Whether a typed character goes into the focused input: the inject row
/// takes digits only.
pub open spec fn typed_char_allowed(focus: ProjectSettingsFocus, c: char) -> bool {
    focus != ProjectSettingsFocus::ReadmeInjectAtRow || is_ascii_digit(c)
}

/// Types `c` into the focused input (at its end). Returns whether it went in.
pub fn type_char(state: &mut ProjectSettingsState, c: char) -> (typed: bool)
    ensures
        typed == (typed_char_allowed(old(state).focus, c) && input_text(*old(state), old(state).focus) is Some),
        typed ==> edits_only_input(*old(state), *final(state), old(state).focus)
            && input_text(*final(state), old(state).focus) == Some(input_text(*old(state), old(state).focus)->0 + seq![c]),
        !typed ==> *final(state) == *old(state),
{
    if state.focus == ProjectSettingsFocus::ReadmeInjectAtRow && !char_is_ascii_digit(c) {
        return false;
    }
    let mut text = String::new();
    crate::text::push_char(&mut text, c);
    proof {
        assert(text@ =~= seq![c]);
    }
    insert_text(state, text.as_str())
}

/// The tab shown for a scope: Git falls back to General for projects without
/// a repository, RLS-QD to Distro while Release-NOW is off.
pub open spec fn settled_tab_spec(tab: ProjectSettingsTab, project: ProjectSettingsSource) -> ProjectSettingsTab {
    if tab == ProjectSettingsTab::Git && !project.requires_repo {
        ProjectSettingsTab::General
    } else if tab == ProjectSettingsTab::RlsQd && !project.release_now_enabled {
        ProjectSettingsTab::Distro
    } else {
        tab
    }
}

/// Settles the tab for the scope and binds the pane to it.
pub fn sync_project_settings_state(
    state: &mut ProjectSettingsState,
    tab: &mut ProjectSettingsTab,
    project: &ProjectSettingsSource,
    project_index: usize,
    scope_index: usize,
)
    requires
        project.wf(),
    ensures
        *final(tab) == settled_tab_spec(*old(tab), *project),
        synced_from(*old(state), *final(state), project_index, *final(tab), *project, scope_index),
{
    if *tab == ProjectSettingsTab::Git && !project.requires_repo {
        *tab = ProjectSettingsTab::General;
    }
    if *tab == ProjectSettingsTab::RlsQd && !project.release_now_enabled {
        *tab = ProjectSettingsTab::Distro;
    }
    state.sync_from_project(project_index, *tab, project, scope_index);
}

/// The tab `delta` steps along the strip of the scope.
pub open spec fn stepped_tab_spec(tab: ProjectSettingsTab, project: ProjectSettingsSource, delta: int) -> ProjectSettingsTab {
    let tabs = tab_strip_spec(project.requires_repo, project.release_now_enabled);
    tabs[(index_or_zero(tabs, tab) + delta) % (tabs.len() as int)]
}

/// Moves `delta` tabs along the strip (wrapping), scrolls to the top, binds
/// the pane to the scope and keeps the focus on a field the new tab shows.
pub fn step_project_settings_tab(
    state: &mut ProjectSettingsState,
    tab: &mut ProjectSettingsTab,
    project: &ProjectSettingsSource,
    project_index: usize,
    scope_index: usize,
    delta: isize,
)
    requires
        project.wf(),
    ensures
        *final(tab) == settled_tab_spec(stepped_tab_spec(*old(tab), *project, delta as int), *project),
        exists|synced: ProjectSettingsState| {
            &&& synced_from(
                ProjectSettingsState { scroll: 0, follow_focus: true, ..*old(state) },
                synced,
                project_index,
                *final(tab),
                *project,
                scope_index,
            )
            &&& *final(state) == focus_made_visible(*final(tab), *project, synced)
        },
{
    *tab = tab.step(delta, project, project.release_now_enabled);
    state.scroll = 0;
    state.follow_focus = true;
    let ghost reset = *state;
    sync_project_settings_state(state, tab, project, project_index, scope_index);
    let ghost synced = *state;
    state.ensure_focus_visible(*tab, project, scope_index);
    proof {
        assert(reset == (ProjectSettingsState { scroll: 0, follow_focus: true, ..*old(state) }));
    }
}

/// What activating a field did.
#[derive(Clone, Debug, PartialEq, Eq)]
pub enum ActivateOutcome {
    /// A checkbox or inject depth was toggled (see the toggle's result).
    Toggled(Option<SettingsChange>),
    /// The custom-alias draft was opened.
    DraftOpened,
    /// The draft was added as a custom alias; the inputs need saving.
    DraftAdded,
    /// The draft was refused, for the reason given.
    DraftRejected(String),
    /// A custom alias was deleted; the inputs need saving.
    Deleted,
    /// The field was only focused.
    Focused,
}

/// The state with the focus on `focus` and followed.
pub open spec fn focused_on(state: ProjectSettingsState, focus: ProjectSettingsFocus) -> ProjectSettingsState {
    ProjectSettingsState { focus, follow_focus: true, ..state }
}

fn focus_and_follow(state: &mut ProjectSettingsState, focus: ProjectSettingsFocus)
    ensures
        *final(state) == focused_on(*old(state), focus),
{
    state.focus = focus;
    state.follow_focus = true;
}

fn open_alias_draft(state: &mut ProjectSettingsState)
    ensures
        *final(state) == (ProjectSettingsState {
            alias_custom_draft_active: true,
            focus: ProjectSettingsFocus::AliasCustomDraftName,
            follow_focus: true,
            ..*old(state)
        }),
{
    state.alias_custom_draft_active = true;
    state.focus = ProjectSettingsFocus::AliasCustomDraftName;
    state.follow_focus = true;
}

/// Activates `focus` (a click, or Enter on a button): it is focused, then a
/// checkbox or inject depth is toggled, "add" opens the custom-alias draft,
/// "confirm" adds the draft, and a delete button removes its alias.
#[verifier::spinoff_prover]
pub fn activate_project_settings_field(
    state: &mut ProjectSettingsState,
    tab: &mut ProjectSettingsTab,
    project: &mut ProjectSettingsSource,
    scope_index: usize,
    focus: ProjectSettingsFocus,
) -> (outcome: ActivateOutcome)
    requires
        old(project).wf(),
        old(state).alias_custom@.len() < usize::MAX,
    ensures
        final(project).wf(),
        ({
            let focused = focused_on(*old(state), focus);
            if is_checkbox(focus) || inject_depth_of(focus) is Some {
                &&& outcome == ActivateOutcome::Toggled(toggle_change(focus, *old(project), focused))
                &&& *final(project) == toggled_project(focus, *old(project), focused)
                &&& *final(tab) == toggled_tab(focus, *old(project), focused, *old(tab))
                &&& same_but_policy_labels(
                    focus_made_visible(*final(tab), *final(project), toggled_flags(focus, *old(project), focused)),
                    *final(state),
                )
            } else if focus == ProjectSettingsFocus::AliasCustomAdd {
                &&& outcome == ActivateOutcome::DraftOpened
                &&& *final(state) == (ProjectSettingsState {
                    alias_custom_draft_active: true,
                    focus: ProjectSettingsFocus::AliasCustomDraftName,
                    ..focused
                })
                &&& *final(project) == *old(project) && *final(tab) == *old(tab)
            } else if focus == ProjectSettingsFocus::AliasCustomDraftConfirm {
                &&& *final(project) == *old(project) && *final(tab) == *old(tab)
                &&& match draft_rejection(focused.alias_custom@, focused.alias_custom_draft_name@) {
                    Some(reason) => outcome matches ActivateOutcome::DraftRejected(m) && m@ == reason
                        && *final(state) == focused,
                    None => outcome == ActivateOutcome::DraftAdded
                        && final(state).alias_custom@.len() == focused.alias_custom@.len() + 1
                        && final(state).alias_custom@.drop_last() == focused.alias_custom@
                        && final(state).focus == ProjectSettingsFocus::AliasCustomPath(focused.alias_custom@.len() as u16)
                        && !final(state).alias_custom_draft_active,
                }
            } else if focus is AliasCustomDelete {
                let i = focus->AliasCustomDelete_0;
                &&& outcome == ActivateOutcome::Deleted
                &&& *final(project) == *old(project) && *final(tab) == *old(tab)
                &&& (i as int) < focused.alias_custom@.len() ==> final(state).alias_custom@ == focused.alias_custom@.remove(i as int)
                &&& *final(state) == (ProjectSettingsState { alias_custom: final(state).alias_custom, ..focused })
            } else {
                &&& outcome == ActivateOutcome::Focused
                &&& *final(state) == focused
                &&& *final(project) == *old(project) && *final(tab) == *old(tab)
            }
        }),
{
    focus_and_follow(state, focus);
    if is_checkbox_field(focus) || is_readme_inject_depth_field(focus) {
        let change = toggle_focused_project_settings_control(state, tab, project, scope_index);
        return ActivateOutcome::Toggled(change);
    }
    if focus == ProjectSettingsFocus::AliasCustomAdd {
        open_alias_draft(state);
        return ActivateOutcome::DraftOpened;
    }
    if focus == ProjectSettingsFocus::AliasCustomDraftConfirm {
        return match confirm_alias_custom_draft(state) {
            Some(message) => ActivateOutcome::DraftRejected(message),
            None => ActivateOutcome::DraftAdded,
        };
    }
    if let ProjectSettingsFocus::AliasCustomDelete(index) = focus {
        delete_alias_custom(state, index);
        return ActivateOutcome::Deleted;
    }
    ActivateOutcome::Focused
}

/// Whether typed text goes to the Project Settings pane: it is the pane in
/// view and its focused field (after binding the pane to the scope) takes text.
pub fn captures_text_input(
    pane_in_view: bool,
    state: &mut ProjectSettingsState,
    tab: &mut ProjectSettingsTab,
    project: &ProjectSettingsSource,
    project_index: usize,
    scope_index: usize,
) -> (captures: bool)
    requires
        project.wf(),
    ensures
        !pane_in_view ==> !captures && *final(state) == *old(state) && *final(tab) == *old(tab),
        pane_in_view ==> {
            &&& *final(tab) == settled_tab_spec(*old(tab), *project)
            &&& synced_from(*old(state), *final(state), project_index, *final(tab), *project, scope_index)
            &&& captures == (visible_fields_spec(*final(tab), *project, *final(state)).contains(final(state).focus)
                && accepts_text(final(state).focus))
        },
{
    if !pane_in_view {
        return false;
    }
    sync_project_settings_state(state, tab, project, project_index, scope_index);
    state.focus_accepts_text(*tab, project, scope_index)
}

/// In the Project Settings pane, Control-O opens the file browser and `[`
/// and `]` step through the tabs whatever is focused; in a text field Tab,
/// Down and Enter move to the next field, Up and BackTab to the previous,
/// and other keys edit the text; outside a text field a key never edits
/// text.
pub proof fn law_settings_keys(key: SettingsKey, focus: ProjectSettingsFocus, in_text: bool, ctrl: bool)
    ensures
        key_action_spec(SettingsKey::Char { c: 'o', ctrl: true }, focus, in_text) == SettingsKeyAction::OpenBrowser,
        key_action_spec(SettingsKey::Char { c: '[', ctrl }, focus, in_text) == SettingsKeyAction::StepTab(-1isize),
        key_action_spec(SettingsKey::Char { c: ']', ctrl }, focus, in_text) == SettingsKeyAction::StepTab(1isize),
        in_text ==> key_action_spec(SettingsKey::Tab, focus, in_text) == SettingsKeyAction::FocusNext
            && key_action_spec(SettingsKey::Enter, focus, in_text) == SettingsKeyAction::FocusNext
            && key_action_spec(SettingsKey::Up, focus, in_text) == SettingsKeyAction::FocusPrevious,
        in_text ==> key_action_spec(SettingsKey::Char { c: 'x', ctrl: false }, focus, in_text) == SettingsKeyAction::EditText,
        !in_text ==> key_action_spec(key, focus, in_text) != SettingsKeyAction::EditText,
        !in_text ==> key_action_spec(SettingsKey::Tab, focus, in_text) == SettingsKeyAction::FocusNext
            && key_action_spec(SettingsKey::BackTab, focus, in_text) == SettingsKeyAction::FocusPrevious,
{
}

} // verus!
