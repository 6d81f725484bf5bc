//! The Project Settings pane's answer to a key: the pane is bound to the
//! scope in view, the key is turned into an action, and the action edits the
//! pane and the scope's settings.

use vstd::prelude::*;
use crate::project_settings::{
    ProjectSettingsFocus, ProjectSettingsSource, ProjectSettingsState, ProjectSettingsTab,
    accepts_text, focus_made_visible, next_focus_spec, previous_focus_spec, visible_fields_spec,
};
use crate::settings_edit::{
    PolicyKind, SettingsChange, adjust_policy, change_message, change_message_spec, policy_change,
    policy_label_field, policy_of, same_but_policy_labels, stepped_choice, toggle_change,
    toggle_focused_project_settings_control, toggled_flags, toggled_project, toggled_tab,
    with_policy, with_policy_label,
};
use crate::settings_inputs::{
    draft_rejection, edits_only_input, input_text, insert_text, persist_project_settings_inputs,
    persisted_from, synced_from,
};
use crate::settings_keys::{
    ActivateOutcome, SettingsKey, SettingsKeyAction, activate_project_settings_field, focused_on,
    key_action_spec, project_settings_key_action, settled_tab_spec, stepped_tab_spec,
    sync_project_settings_state, type_char, typed_char_allowed, step_project_settings_tab,
};

verus! {

/// What a key did to the Project Settings pane.
#[derive(Clone, Debug, PartialEq, Eq)]
pub enum SettingsKeyOutcome {
    /// The key is not the pane's.
    NotHandled,
    /// The file browser is to be opened for the focused field.
    OpenBrowser,
    /// The pane took the key; the scope's settings are unchanged.
    Handled,
    /// The scope's settings changed and need saving; the status line shows the
    /// message, if there is one.
    Saved(Option<String>),
    /// A request was refused, for the reason given.
    Refused(String),
}

/// Whether the focused field of `state` takes typed text on `tab`.
pub open spec fn in_text_spec(tab: ProjectSettingsTab, project: ProjectSettingsSource, state: ProjectSettingsState) -> bool {
    visible_fields_spec(tab, project, state).contains(state.focus) && accepts_text(state.focus)
}

/// Stepping the tab strip: the settings stay, the tab moves and the pane is
/// bound again with its scroll reset.
pub open spec fn tab_stepped(
    s0: ProjectSettingsState, t0: ProjectSettingsTab, p0: ProjectSettingsSource,
    project_index: usize, scope_index: usize, delta: int,
    s1: ProjectSettingsState, t1: ProjectSettingsTab, p1: ProjectSettingsSource,
) -> bool {
    &&& p1 == p0
    &&& t1 == settled_tab_spec(stepped_tab_spec(t0, p0, delta), p0)
    &&& exists|synced: ProjectSettingsState| {
        &&& #[trigger] synced_from(
            ProjectSettingsState { scroll: 0, follow_focus: true, ..s0 },
            synced,
            project_index,
            t1,
            p0,
            scope_index,
        )
        &&& s1 == focus_made_visible(t1, p0, synced)
    }
}

/// Typing a key into the focused input, then writing the inputs back.
/// Only a character is typed (where the field takes it); other keys leave the
/// input as it is.
pub open spec fn text_edited(
    key: SettingsKey,
    s0: ProjectSettingsState, p0: ProjectSettingsSource,
    s1: ProjectSettingsState, p1: ProjectSettingsSource,
) -> bool {
    &&& match key {
        SettingsKey::Char { c, ctrl: _ } => if typed_char_allowed(s0.focus, c) && input_text(s0, s0.focus) is Some {
            &&& edits_only_input(s0, s1, s0.focus)
            &&& input_text(s1, s0.focus) == Some(input_text(s0, s0.focus)->0 + seq![c])
        } else {
            s1 == s0
        },
        _ => s1 == s0,
    }
    &&& persisted_from(p0, p1, s1)
}

/// Stepping a policy by `delta` options; the message names the new option.
pub open spec fn policy_adjusted(
    kind: PolicyKind, delta: int, scope_index: usize,
    s0: ProjectSettingsState, p0: ProjectSettingsSource,
    s1: ProjectSettingsState, p1: ProjectSettingsSource,
    outcome: SettingsKeyOutcome,
) -> bool {
    &&& p1 == with_policy(p0, kind, stepped_choice(policy_of(p0, kind), delta))
    &&& s1 == with_policy_label(s0, kind, policy_label_field(s1, kind))
    &&& policy_label_field(s1, kind)@ == policy_of(p1, kind).label_spec()
    &&& outcome matches SettingsKeyOutcome::Saved(Some(m)) && m@ == change_message_spec(policy_change(kind), p1, scope_index as int)
}

/// Toggling the focused control; the message says what changed.
pub open spec fn control_toggled(
    scope_index: usize,
    s0: ProjectSettingsState, t0: ProjectSettingsTab, p0: ProjectSettingsSource,
    s1: ProjectSettingsState, t1: ProjectSettingsTab, p1: ProjectSettingsSource,
    outcome: SettingsKeyOutcome,
) -> bool {
    let change = toggle_change(s0.focus, p0, s0);
    &&& p1 == toggled_project(s0.focus, p0, s0)
    &&& t1 == toggled_tab(s0.focus, p0, s0, t0)
    &&& match change {
        None => outcome == SettingsKeyOutcome::Handled && s1 == s0,
        Some(ch) => {
            &&& outcome matches SettingsKeyOutcome::Saved(Some(m)) && m@ == change_message_spec(ch, p1, scope_index as int)
            &&& same_but_policy_labels(focus_made_visible(t1, p1, toggled_flags(s0.focus, p0, s0)), s1)
            &&& (ch == SettingsChange::QuickDownloadsPosition ==> s1.quick_downloads_position@ == p1.quick_downloads_position.label_spec())
            &&& (ch == SettingsChange::PostMergePolicy ==> s1.post_merge_source_branch@ == p1.post_merge_source_branch.label_spec())
            &&& (ch == SettingsChange::MirrorPolicy ==> s1.mirror_sync_after_merge@ == p1.mirror_sync_after_merge.label_spec())
            &&& (ch != SettingsChange::QuickDownloadsPosition ==> s1.quick_downloads_position == s0.quick_downloads_position)
            &&& (ch != SettingsChange::PostMergePolicy ==> s1.post_merge_source_branch == s0.post_merge_source_branch)
            &&& (ch != SettingsChange::MirrorPolicy ==> s1.mirror_sync_after_merge == s0.mirror_sync_after_merge)
        },
    }
}

/// Pressing the custom-alias "add" or "confirm" button: "add" opens the draft,
/// "confirm" adds the draft (and writes the inputs back) or refuses it.
pub open spec fn button_pressed(
    s0: ProjectSettingsState, p0: ProjectSettingsSource,
    s1: ProjectSettingsState, p1: ProjectSettingsSource,
    outcome: SettingsKeyOutcome,
) -> bool {
    let focused = focused_on(s0, s0.focus);
    if s0.alias_custom@.len() == usize::MAX {
        outcome == SettingsKeyOutcome::Handled && s1 == s0 && p1 == p0
    } else if s0.focus == ProjectSettingsFocus::AliasCustomAdd {
        &&& outcome == SettingsKeyOutcome::Handled
        &&& p1 == p0
        &&& s1 == (ProjectSettingsState {
            alias_custom_draft_active: true,
            focus: ProjectSettingsFocus::AliasCustomDraftName,
            ..focused
        })
    } else {
        match draft_rejection(s0.alias_custom@, s0.alias_custom_draft_name@) {
            Some(reason) => outcome matches SettingsKeyOutcome::Refused(m) && m@ == reason
                && s1 == focused && p1 == p0,
            None => {
                &&& outcome == SettingsKeyOutcome::Saved(None)
                &&& s1.alias_custom@.len() == s0.alias_custom@.len() + 1
                &&& s1.alias_custom@.drop_last() == s0.alias_custom@
                &&& s1.focus == ProjectSettingsFocus::AliasCustomPath(s0.alias_custom@.len() as u16)
                &&& !s1.alias_custom_draft_active
                &&& persisted_from(p0, p1, s1)
            },
        }
    }
}

/// What answering `key` does to a pane already bound to its scope: `(s0, t0,
/// p0)` before, `(s1, t1, p1)` after.
pub open spec fn key_answered(
    key: SettingsKey, project_index: usize, scope_index: usize,
    s0: ProjectSettingsState, t0: ProjectSettingsTab, p0: ProjectSettingsSource,
    s1: ProjectSettingsState, t1: ProjectSettingsTab, p1: ProjectSettingsSource,
    outcome: SettingsKeyOutcome,
) -> bool {
    match key_action_spec(key, s0.focus, in_text_spec(t0, p0, s0)) {
        SettingsKeyAction::NotHandled => outcome == SettingsKeyOutcome::NotHandled && s1 == s0 && t1 == t0 && p1 == p0,
        SettingsKeyAction::OpenBrowser => outcome == SettingsKeyOutcome::OpenBrowser && s1 == s0 && t1 == t0 && p1 == p0,
        SettingsKeyAction::StepTab(d) => outcome == SettingsKeyOutcome::Handled
            && tab_stepped(s0, t0, p0, project_index, scope_index, d as int, s1, t1, p1),
        SettingsKeyAction::FocusNext => outcome == SettingsKeyOutcome::Handled && t1 == t0 && p1 == p0
            && s1 == (ProjectSettingsState { focus: next_focus_spec(visible_fields_spec(t0, p0, s0), s0.focus), follow_focus: true, ..s0 }),
        SettingsKeyAction::FocusPrevious => outcome == SettingsKeyOutcome::Handled && t1 == t0 && p1 == p0
            && s1 == (ProjectSettingsState { focus: previous_focus_spec(visible_fields_spec(t0, p0, s0), s0.focus), follow_focus: true, ..s0 }),
        SettingsKeyAction::EditText => outcome == SettingsKeyOutcome::Saved(None) && t1 == t0
            && text_edited(key, s0, p0, s1, p1),
        SettingsKeyAction::AdjustPolicy(kind, d) => t1 == t0
            && policy_adjusted(kind, d as int, scope_index, s0, p0, s1, p1, outcome),
        SettingsKeyAction::Toggle => control_toggled(scope_index, s0, t0, p0, s1, t1, p1, outcome),
        SettingsKeyAction::Activate => t1 == t0 && button_pressed(s0, p0, s1, p1, outcome),
    }
}

fn answer_step_tab(
    state: &mut ProjectSettingsState,
    tab: &mut ProjectSettingsTab,
    project: &ProjectSettingsSource,
    project_index: usize,
    scope_index: usize,
    delta: isize,
)
    requires
        project.wf(),
    ensures
        tab_stepped(*old(state), *old(tab), *project, project_index, scope_index, delta as int, *final(state), *final(tab), *project),
{
    step_project_settings_tab(state, tab, project, project_index, scope_index, delta);
}

fn answer_text(
    state: &mut ProjectSettingsState,
    project: &mut ProjectSettingsSource,
    scope_index: usize,
    key: SettingsKey,
)
    ensures
        text_edited(key, *old(state), *old(project), *final(state), *final(project)),
{
    match key {
        SettingsKey::Char { c, ctrl: _ } => {
            type_char(state, c);
        },
        _ => {},
    }
    persist_project_settings_inputs(project, scope_index, state);
}

fn answer_policy(
    state: &mut ProjectSettingsState,
    project: &mut ProjectSettingsSource,
    scope_index: usize,
    kind: PolicyKind,
    delta: isize,
) -> (outcome: SettingsKeyOutcome)
    requires
        old(project).wf(),
    ensures
        final(project).wf(),
        policy_adjusted(kind, delta as int, scope_index, *old(state), *old(project), *final(state), *final(project), outcome),
{
    let change = adjust_policy(state, project, kind, delta);
    SettingsKeyOutcome::Saved(Some(change_message(change, project, scope_index)))
}

fn answer_toggle(
    state: &mut ProjectSettingsState,
    tab: &mut ProjectSettingsTab,
    project: &mut ProjectSettingsSource,
    scope_index: usize,
) -> (outcome: SettingsKeyOutcome)
    requires
        old(project).wf(),
    ensures
        final(project).wf(),
        control_toggled(scope_index, *old(state), *old(tab), *old(project), *final(state), *final(tab), *final(project), outcome),
{
    match toggle_focused_project_settings_control(state, tab, project, scope_index) {
        Some(change) => SettingsKeyOutcome::Saved(Some(change_message(change, project, scope_index))),
        None => SettingsKeyOutcome::Handled,
    }
}

fn answer_button(
    state: &mut ProjectSettingsState,
    tab: &mut ProjectSettingsTab,
    project: &mut ProjectSettingsSource,
    scope_index: usize,
) -> (outcome: SettingsKeyOutcome)
    requires
        old(project).wf(),
        old(state).focus == ProjectSettingsFocus::AliasCustomAdd
            || old(state).focus == ProjectSettingsFocus::AliasCustomDraftConfirm,
    ensures
        final(project).wf(),
        *final(tab) == *old(tab),
        button_pressed(*old(state), *old(project), *final(state), *final(project), outcome),
{
    if state.alias_custom.len() == usize::MAX {
        return SettingsKeyOutcome::Handled;
    }
    let focus = state.focus;
    match activate_project_settings_field(state, tab, project, scope_index, focus) {
        ActivateOutcome::DraftAdded => {
            persist_project_settings_inputs(project, scope_index, state);
            SettingsKeyOutcome::Saved(None)
        },
        ActivateOutcome::DraftRejected(reason) => SettingsKeyOutcome::Refused(reason),
        _ => SettingsKeyOutcome::Handled,
    }
}

/// Answers `key` in a pane already bound to the scope in view.
#[verifier::spinoff_prover]
pub fn answer_project_settings_key(
    state: &mut ProjectSettingsState,
    tab: &mut ProjectSettingsTab,
    project: &mut ProjectSettingsSource,
    project_index: usize,
    scope_index: usize,
    key: SettingsKey,
) -> (outcome: SettingsKeyOutcome)
    requires
        old(project).wf(),
    ensures
        final(project).wf(),
        key_answered(key, project_index, scope_index, *old(state), *old(tab), *old(project), *final(state), *final(tab), *final(project), outcome),
{
    let in_text = state.focus_accepts_text(*tab, project, scope_index);
    match project_settings_key_action(key, state.focus, in_text) {
        SettingsKeyAction::NotHandled => SettingsKeyOutcome::NotHandled,
        SettingsKeyAction::OpenBrowser => SettingsKeyOutcome::OpenBrowser,
        SettingsKeyAction::StepTab(delta) => {
            answer_step_tab(state, tab, project, project_index, scope_index, delta);
            SettingsKeyOutcome::Handled
        },
        SettingsKeyAction::FocusNext => {
            state.focus_next(*tab, project, scope_index);
            SettingsKeyOutcome::Handled
        },
        SettingsKeyAction::FocusPrevious => {
            state.focus_previous(*tab, project, scope_index);
            SettingsKeyOutcome::Handled
        },
        SettingsKeyAction::EditText => {
            answer_text(state, project, scope_index, key);
            SettingsKeyOutcome::Saved(None)
        },
        SettingsKeyAction::AdjustPolicy(kind, delta) => answer_policy(state, project, scope_index, kind, delta),
        SettingsKeyAction::Toggle => answer_toggle(state, tab, project, scope_index),
        SettingsKeyAction::Activate => answer_button(state, tab, project, scope_index),
    }
}

/// Answers `key` in the Project Settings pane. Unless the pane is in view, the
/// key is not its own. Otherwise the pane is first bound to the scope in view
/// (settling the tab), then the key is answered there.
pub fn try_handle_project_settings_key(
    pane_in_view: bool,
    state: &mut ProjectSettingsState,
    tab: &mut ProjectSettingsTab,
    project: &mut ProjectSettingsSource,
    project_index: usize,
    scope_index: usize,
    key: SettingsKey,
) -> (outcome: SettingsKeyOutcome)
    requires
        old(project).wf(),
    ensures
        final(project).wf(),
        !pane_in_view ==> outcome == SettingsKeyOutcome::NotHandled
            && *final(state) == *old(state) && *final(tab) == *old(tab) && *final(project) == *old(project),
        pane_in_view ==> exists|bound: ProjectSettingsState| {
            &&& #[trigger] synced_from(*old(state), bound, project_index, settled_tab_spec(*old(tab), *old(project)), *old(project), scope_index)
            &&& key_answered(key, project_index, scope_index,
                bound, settled_tab_spec(*old(tab), *old(project)), *old(project),
                *final(state), *final(tab), *final(project), outcome)
        },
{
    if !pane_in_view {
        return SettingsKeyOutcome::NotHandled;
    }
    sync_project_settings_state(state, tab, project, project_index, scope_index);
    let ghost bound = *state;
    let outcome = answer_project_settings_key(state, tab, project, project_index, scope_index, key);
    proof {
        assert(synced_from(*old(state), bound, project_index, settled_tab_spec(*old(tab), *old(project)), *old(project), scope_index));
    }
    outcome
}

/// Pastes `text` into the pane: after binding it to the scope in view, the
/// text goes at the end of the focused input, if the field is shown and takes
/// text, and the inputs are written back. Returns whether it went in.
pub fn insert_project_settings_text(
    state: &mut ProjectSettingsState,
    tab: &mut ProjectSettingsTab,
    project: &mut ProjectSettingsSource,
    project_index: usize,
    scope_index: usize,
    text: &str,
) -> (inserted: bool)
    requires
        old(project).wf(),
    ensures
        *final(tab) == settled_tab_spec(*old(tab), *old(project)),
        exists|bound: ProjectSettingsState| {
            &&& #[trigger] synced_from(*old(state), bound, project_index, *final(tab), *old(project), scope_index)
            &&& inserted == (in_text_spec(*final(tab), *old(project), bound) && input_text(bound, bound.focus) is Some)
            &&& !inserted ==> *final(state) == bound && *final(project) == *old(project)
            &&& inserted ==> {
                &&& edits_only_input(bound, *final(state), bound.focus)
                &&& input_text(*final(state), bound.focus) == Some(input_text(bound, bound.focus)->0 + text@)
                &&& persisted_from(*old(project), *final(project), *final(state))
            }
        },
{
    sync_project_settings_state(state, tab, project, project_index, scope_index);
    let ghost bound = *state;
    if !state.focus_accepts_text(*tab, project, scope_index) {
        proof {
            assert(synced_from(*old(state), bound, project_index, *tab, *old(project), scope_index));
        }
        return false;
    }
    let inserted = insert_text(state, text);
    if inserted {
        persist_project_settings_inputs(project, scope_index, state);
    }
    proof {
        assert(synced_from(*old(state), bound, project_index, *tab, *old(project), scope_index));
    }
    inserted
}

} // verus!
