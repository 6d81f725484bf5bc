//! The Project Settings pane's text inputs: loading them from a scope's
//! settings, writing them back, typing and pasting into the focused one, and
//! the custom alias list they hold.

use vstd::prelude::*;
use crate::project_settings::{
    AdvancedAliasSettings, AliasCustomEntryState, CustomAliasEntry, ProjectSettingsFocus,
    ProjectSettingsSource, ProjectSettingsState, ProjectSettingsTab, focus_made_visible,
};
use crate::text::{
    append_str, chars_of, decimal_nat, lower_seq, lower_vec, parse_u16, parse_u16_vec,
    push_decimal_u64, trim, trimmed_chars, trimmed_string, vec_eq,
};

verus! {

/// The pane's alias entries hold the scope's custom aliases, in order.
pub open spec fn entries_mirror(entries: Seq<AliasCustomEntryState>, custom: Seq<CustomAliasEntry>) -> bool {
    &&& entries.len() == custom.len()
    &&& forall|i: int| 0 <= i < entries.len() ==> {
        &&& (#[trigger] entries[i]).name == custom[i].name
        &&& entries[i].path == custom[i].path
    }
}

/// Loads the alias inputs from the scope's advanced alias settings and
/// closes the custom-alias draft.
pub fn sync_alias_state_from_project(state: &mut ProjectSettingsState, project: &ProjectSettingsSource, scope_index: usize)
    ensures
        *final(state) == (ProjectSettingsState {
            advanced_alias_enabled: project.advanced_alias.enabled,
            alias_dist_path: project.advanced_alias.dist_path,
            alias_ui_path: project.advanced_alias.ui_path,
            alias_custom: final(state).alias_custom,
            alias_custom_draft_active: false,
            alias_custom_draft_name: final(state).alias_custom_draft_name,
            ..*old(state)
        }),
        entries_mirror(final(state).alias_custom@, project.advanced_alias.custom@),
        final(state).alias_custom_draft_name@.len() == 0,
{
    let _ = scope_index;
    let settings = &project.advanced_alias;
    state.advanced_alias_enabled = settings.enabled;
    state.alias_dist_path = settings.dist_path.clone();
    state.alias_ui_path = settings.ui_path.clone();
    let mut entries: Vec<AliasCustomEntryState> = Vec::new();
    let mut i: usize = 0;
    while i < settings.custom.len()
        invariant
            i <= settings.custom@.len(),
            entries_mirror(entries@, settings.custom@.take(i as int)),
        decreases settings.custom.len() - i,
    {
        let entry = &settings.custom[i];
        entries.push(AliasCustomEntryState { name: entry.name.clone(), path: entry.path.clone() });
        i = i + 1;
        assert(entries_mirror(entries@, settings.custom@.take(i as int))) by {
            assert forall|j: int| 0 <= j < entries@.len() implies {
                &&& (#[trigger] entries@[j]).name == settings.custom@.take(i as int)[j].name
                &&& entries@[j].path == settings.custom@.take(i as int)[j].path
            } by {
                assert(settings.custom@.take(i as int)[j] == settings.custom@[j]);
                if j + 1 < i {
                    assert(settings.custom@.take(i - 1)[j] == settings.custom@[j]);
                }
            }
        }
    }
    assert(settings.custom@.take(i as int) =~= settings.custom@);
    state.alias_custom = entries;
    state.alias_custom_draft_active = false;
    state.alias_custom_draft_name = String::new();
}

/// The scope's custom aliases hold the pane's entries, paths trimmed.
pub open spec fn custom_persisted(custom: Seq<CustomAliasEntry>, entries: Seq<AliasCustomEntryState>) -> bool {
    &&& custom.len() == entries.len()
    &&& forall|i: int| 0 <= i < custom.len() ==> {
        &&& (#[trigger] custom[i]).name == entries[i].name
        &&& custom[i].path@ == trim(entries[i].path@)
    }
}

/// Writes the alias inputs back into the scope's advanced alias settings,
/// paths trimmed.
pub fn persist_alias_state_to_project(project: &mut ProjectSettingsSource, scope_index: usize, state: &ProjectSettingsState)
    ensures
        *final(project) == (ProjectSettingsSource { advanced_alias: final(project).advanced_alias, ..*old(project) }),
        final(project).advanced_alias.enabled == state.advanced_alias_enabled,
        final(project).advanced_alias.dist_path@ == trim(state.alias_dist_path@),
        final(project).advanced_alias.ui_path@ == trim(state.alias_ui_path@),
        custom_persisted(final(project).advanced_alias.custom@, state.alias_custom@),
{
    let _ = scope_index;
    let mut custom: Vec<CustomAliasEntry> = Vec::new();
    let mut i: usize = 0;
    while i < state.alias_custom.len()
        invariant
            i <= state.alias_custom@.len(),
            custom_persisted(custom@, state.alias_custom@.take(i as int)),
        decreases state.alias_custom.len() - i,
    {
        let entry = &state.alias_custom[i];
        let path = trimmed_string(entry.path.as_str());
        custom.push(CustomAliasEntry { name: entry.name.clone(), path });
        i = i + 1;
        assert(custom_persisted(custom@, state.alias_custom@.take(i as int))) by {
            assert forall|j: int| 0 <= j < custom@.len() implies {
                &&& (#[trigger] custom@[j]).name == state.alias_custom@.take(i as int)[j].name
                &&& custom@[j].path@ == trim(state.alias_custom@.take(i as int)[j].path@)
            } by {
                assert(state.alias_custom@.take(i as int)[j] == state.alias_custom@[j]);
                if j + 1 < i {
                    assert(state.alias_custom@.take(i - 1)[j] == state.alias_custom@[j]);
                }
            }
        }
    }
    assert(state.alias_custom@.take(i as int) =~= state.alias_custom@);
    let dist_path = trimmed_string(state.alias_dist_path.as_str());
    let ui_path = trimmed_string(state.alias_ui_path.as_str());
    project.advanced_alias = AdvancedAliasSettings {
        enabled: state.advanced_alias_enabled,
        dist_path,
        ui_path,
        custom,
    };
}

/// The pane's inputs loaded from the scope's settings (the alias entries,
/// the draft name and the inject row are described on their own).
pub open spec fn loaded_inputs(state: ProjectSettingsState, project_index: usize, scope_index: usize, p: ProjectSettingsSource) -> ProjectSettingsState {
    ProjectSettingsState {
        binding: Some((project_index, scope_index)),
        scroll: 0,
        follow_focus: true,
        custom_main_branch_name: p.custom_main_branch,
        alias: p.alias,
        advanced_alias_enabled: p.advanced_alias.enabled,
        alias_dist_path: p.advanced_alias.dist_path,
        alias_ui_path: p.advanced_alias.ui_path,
        alias_custom_draft_active: false,
        changelog_path: p.changelog_path,
        changelog_hide_pr_messages: p.changelog_hide_pr_messages,
        changelog_hide_bump_messages: p.changelog_hide_bump_messages,
        changelog_mini_commit_hashes: p.changelog_mini_commit_hashes,
        changelog_mirror_summary_to_root_changelog: p.changelog_mirror_summary_to_root_changelog,
        changelog_wrap_detailed_if_top_picks: p.changelog_wrap_detailed_if_top_picks,
        release_now_general: p.release_now_general,
        release_now_windows: p.release_now_windows,
        release_now_linux_arm: p.release_now_linux_arm,
        release_now_linux_amd: p.release_now_linux_amd,
        release_now_macos: p.release_now_macos,
        quick_downloads_position: p.quick_downloads_position.labels@[p.quick_downloads_position.selected as int],
        post_merge_source_branch: p.post_merge_source_branch.labels@[p.post_merge_source_branch.selected as int],
        mirror_sync_after_merge: p.mirror_sync_after_merge.labels@[p.mirror_sync_after_merge.selected as int],
        quick_downloads_footer: p.quick_downloads_footer,
        release_title_template: p.release_title_template,
        ..state
    }
}

/// The inject row as the pane shows it: its decimal digits while README
/// injection is on, empty otherwise.
pub open spec fn inject_row_text(p: ProjectSettingsSource) -> Seq<char> {
    if p.readme_injection_enabled { decimal_nat(p.readme_inject_at_row as nat) } else { Seq::empty() }
}

/// `after` is `before` bound to `(project_index, scope_index)`: unchanged when
/// it already was; otherwise every input reloaded from the scope's settings,
/// the scroll reset, and the focus kept on a field that `tab` shows.
pub open spec fn synced_from(
    before: ProjectSettingsState,
    after: ProjectSettingsState,
    project_index: usize,
    tab: ProjectSettingsTab,
    project: ProjectSettingsSource,
    scope_index: usize,
) -> bool {
    if before.binding == Some((project_index, scope_index)) {
        after == before
    } else {
        &&& after == focus_made_visible(tab, project, ProjectSettingsState {
            alias_custom: after.alias_custom,
            alias_custom_draft_name: after.alias_custom_draft_name,
            readme_inject_at_row: after.readme_inject_at_row,
            ..loaded_inputs(before, project_index, scope_index, project)
        })
        &&& entries_mirror(after.alias_custom@, project.advanced_alias.custom@)
        &&& after.alias_custom_draft_name@.len() == 0
        &&& after.readme_inject_at_row@ == inject_row_text(project)
    }
}

impl ProjectSettingsState {
    /// Binds the pane to `(project_index, scope_index)`: unless it already is,
    /// every input is reloaded from the scope's settings, the scroll reset and
    /// the focus kept on a field that `tab` shows.
    pub fn sync_from_project(
        &mut self,
        project_index: usize,
        tab: ProjectSettingsTab,
        project: &ProjectSettingsSource,
        scope_index: usize,
    )
        requires
            project.wf(),
        ensures
            synced_from(*old(self), *final(self), project_index, tab, *project, scope_index),
    {
        if self.binding == Some((project_index, scope_index)) {
            return;
        }
        self.binding = Some((project_index, scope_index));
        self.scroll = 0;
        self.follow_focus = true;
        self.custom_main_branch_name = project.custom_main_branch.clone();
        self.alias = project.alias.clone();
        sync_alias_state_from_project(self, project, scope_index);
        self.changelog_path = project.changelog_path.clone();
        self.changelog_hide_pr_messages = project.changelog_hide_pr_messages;
        self.changelog_hide_bump_messages = project.changelog_hide_bump_messages;
        self.changelog_mini_commit_hashes = project.changelog_mini_commit_hashes;
        self.changelog_mirror_summary_to_root_changelog = project.changelog_mirror_summary_to_root_changelog;
        self.changelog_wrap_detailed_if_top_picks = project.changelog_wrap_detailed_if_top_picks;
        self.release_now_general = project.release_now_general.clone();
        self.release_now_windows = project.release_now_windows.clone();
        self.release_now_linux_arm = project.release_now_linux_arm.clone();
        self.release_now_linux_amd = project.release_now_linux_amd.clone();
        self.release_now_macos = project.release_now_macos.clone();
        self.quick_downloads_position = project.quick_downloads_position.label();
        self.post_merge_source_branch = project.post_merge_source_branch.label();
        self.mirror_sync_after_merge = project.mirror_sync_after_merge.label();
        self.quick_downloads_footer = project.quick_downloads_footer.clone();
        let mut row = String::new();
        if project.readme_injection_enabled {
            push_decimal_u64(&mut row, project.readme_inject_at_row as u64);
        }
        proof {
            assert(row@ =~= inject_row_text(*project));
        }
        self.readme_inject_at_row = row;
        self.release_title_template = project.release_title_template.clone();
        self.ensure_focus_visible(tab, project, scope_index);
    }
}

/// The row the README injection goes to after the pane's input is written
/// back: the input, trimmed and parsed, while injection is on and the input
/// parses; the saved row otherwise.
pub open spec fn persisted_inject_row(p: ProjectSettingsSource, s: ProjectSettingsState) -> u16 {
    if p.readme_injection_enabled {
        match parse_u16(trim(s.readme_inject_at_row@)) {
            Some(v) => v as u16,
            None => p.readme_inject_at_row,
        }
    } else {
        p.readme_inject_at_row
    }
}

/// Whether the custom main branch name is written back: only for projects
/// with a repository whose scope has the custom branch on or a repository
/// configuration of its own.
pub open spec fn writes_main_branch(p: ProjectSettingsSource) -> bool {
    p.requires_repo && (p.has_custom_main_branch || p.has_repo_config)
}

/// The scope's settings with the pane's text inputs written back (the alias
/// and the advanced alias settings are described on their own).
pub open spec fn persisted_inputs(p: ProjectSettingsSource, s: ProjectSettingsState) -> ProjectSettingsSource {
    ProjectSettingsSource {
        custom_main_branch: if writes_main_branch(p) { s.custom_main_branch_name } else { p.custom_main_branch },
        changelog_path: s.changelog_path,
        release_now_general: s.release_now_general,
        release_now_windows: s.release_now_windows,
        release_now_linux_arm: s.release_now_linux_arm,
        release_now_linux_amd: s.release_now_linux_amd,
        release_now_macos: s.release_now_macos,
        release_title_template: s.release_title_template,
        quick_downloads_footer: s.quick_downloads_footer,
        readme_inject_at_row: persisted_inject_row(p, s),
        ..p
    }
}

fn write_back_texts(project: &mut ProjectSettingsSource, state: &ProjectSettingsState)
    ensures
        *final(project) == (ProjectSettingsSource {
            changelog_path: state.changelog_path,
            release_now_general: state.release_now_general,
            release_now_windows: state.release_now_windows,
            release_now_linux_arm: state.release_now_linux_arm,
            release_now_linux_amd: state.release_now_linux_amd,
            release_now_macos: state.release_now_macos,
            release_title_template: state.release_title_template,
            quick_downloads_footer: state.quick_downloads_footer,
            ..*old(project)
        }),
{
    project.changelog_path = state.changelog_path.clone();
    project.release_now_general = state.release_now_general.clone();
    project.release_now_windows = state.release_now_windows.clone();
    project.release_now_linux_arm = state.release_now_linux_arm.clone();
    project.release_now_linux_amd = state.release_now_linux_amd.clone();
    project.release_now_macos = state.release_now_macos.clone();
    project.release_title_template = state.release_title_template.clone();
    project.quick_downloads_footer = state.quick_downloads_footer.clone();
}

fn write_back_main_branch(project: &mut ProjectSettingsSource, state: &ProjectSettingsState)
    ensures
        *final(project) == (ProjectSettingsSource {
            custom_main_branch: if writes_main_branch(*old(project)) { state.custom_main_branch_name } else { old(project).custom_main_branch },
            ..*old(project)
        }),
{
    if project.requires_repo && (project.has_custom_main_branch || project.has_repo_config) {
        project.custom_main_branch = state.custom_main_branch_name.clone();
    }
}

fn write_back_inject_row(project: &mut ProjectSettingsSource, state: &ProjectSettingsState)
    ensures
        *final(project) == (ProjectSettingsSource { readme_inject_at_row: persisted_inject_row(*old(project), *state), ..*old(project) }),
{
    if project.readme_injection_enabled {
        let row = trimmed_chars(state.readme_inject_at_row.as_str());
        match parse_u16_vec(&row) {
            Some(value) => project.readme_inject_at_row = value,
            None => {},
        }
    }
}

fn write_back_alias(project: &mut ProjectSettingsSource, state: &ProjectSettingsState)
    ensures
        *final(project) == (ProjectSettingsSource { alias: final(project).alias, ..*old(project) }),
        final(project).alias@ == trim(state.alias@),
{
    project.alias = trimmed_string(state.alias.as_str());
}

/// `after` is `before` with the pane's inputs written back from `state`
/// (what `persist_project_settings_inputs` does).
pub open spec fn persisted_from(before: ProjectSettingsSource, after: ProjectSettingsSource, state: ProjectSettingsState) -> bool {
    &&& after == (ProjectSettingsSource {
        alias: after.alias,
        advanced_alias: after.advanced_alias,
        ..persisted_inputs(before, state)
    })
    &&& after.alias@ == trim(state.alias@)
    &&& after.advanced_alias.enabled == state.advanced_alias_enabled
    &&& after.advanced_alias.dist_path@ == trim(state.alias_dist_path@)
    &&& after.advanced_alias.ui_path@ == trim(state.alias_ui_path@)
    &&& custom_persisted(after.advanced_alias.custom@, state.alias_custom@)
}

/// Writes every text input of the pane back into the scope's settings.
pub fn persist_project_settings_inputs(project: &mut ProjectSettingsSource, scope_index: usize, state: &ProjectSettingsState)
    ensures
        *final(project) == (ProjectSettingsSource {
            alias: final(project).alias,
            advanced_alias: final(project).advanced_alias,
            ..persisted_inputs(*old(project), *state)
        }),
        final(project).alias@ == trim(state.alias@),
        final(project).advanced_alias.enabled == state.advanced_alias_enabled,
        final(project).advanced_alias.dist_path@ == trim(state.alias_dist_path@),
        final(project).advanced_alias.ui_path@ == trim(state.alias_ui_path@),
        custom_persisted(final(project).advanced_alias.custom@, state.alias_custom@),
{
    write_back_main_branch(project, state);
    write_back_alias(project, state);
    persist_alias_state_to_project(project, scope_index, state);
    write_back_texts(project, state);
    write_back_inject_row(project, state);
}

/// The names an advanced alias keeps for its built-in paths.
pub open spec fn is_reserved_alias_name(name: Seq<char>) -> bool {
    lower_seq(name) == "dist"@ || lower_seq(name) == "ui"@
}

/// An entry already has `name`, ignoring ASCII case.
pub open spec fn alias_name_taken(entries: Seq<AliasCustomEntryState>, name: Seq<char>) -> bool {
    exists|i: int| 0 <= i < entries.len() && lower_seq(#[trigger] entries[i].name@) == lower_seq(name)
}

/// Why the custom-alias draft cannot be added, if it cannot.
pub open spec fn draft_rejection(entries: Seq<AliasCustomEntryState>, draft: Seq<char>) -> Option<Seq<char>> {
    let name = trim(draft);
    if name.len() == 0 {
        Some("Custom alias name cannot be empty."@)
    } else if is_reserved_alias_name(name) {
        Some("Name '"@ + name + "' is reserved. Use dist/ui for built-in paths."@)
    } else if alias_name_taken(entries, name) {
        Some("Custom alias '"@ + name + "' already exists."@)
    } else {
        None
    }
}

fn is_reserved_alias(name: &Vec<char>) -> (r: bool)
    ensures
        r == is_reserved_alias_name(name@),
{
    let lower = lower_vec(name);
    let dist = chars_of("dist");
    let ui = chars_of("ui");
    vec_eq(&lower, &dist) || vec_eq(&lower, &ui)
}

fn alias_taken(entries: &Vec<AliasCustomEntryState>, name: &Vec<char>) -> (r: bool)
    ensures
        r == alias_name_taken(entries@, name@),
{
    let wanted = lower_vec(name);
    let mut i: usize = 0;
    while i < entries.len()
        invariant
            i <= entries@.len(),
            wanted@ == lower_seq(name@),
            forall|j: int| 0 <= j < i ==> lower_seq(#[trigger] entries@[j].name@) != lower_seq(name@),
        decreases entries.len() - i,
    {
        let existing = chars_of(entries[i].name.as_str());
        let lowered = lower_vec(&existing);
        if vec_eq(&lowered, &wanted) {
            return true;
        }
        i = i + 1;
    }
    false
}

fn quoted_message(head: &str, name: &Vec<char>, tail: &str) -> (m: String)
    ensures
        m@ == head@ + name@ + tail@,
{
    let mut m = String::from_str(head);
    let text = crate::text::string_of(name);
    append_str(&mut m, text.as_str());
    append_str(&mut m, tail);
    m
}

/// Adds the drafted custom alias (its name trimmed, its path empty), closes
/// the draft and focuses the new entry's path; or, when the name is empty,
/// reserved or already taken (ignoring ASCII case), leaves the state as it
/// is and returns the reason.
pub fn confirm_alias_custom_draft(state: &mut ProjectSettingsState) -> (rejection: Option<String>)
    requires
        old(state).alias_custom@.len() < usize::MAX,
    ensures
        match draft_rejection(old(state).alias_custom@, old(state).alias_custom_draft_name@) {
            Some(reason) => rejection matches Some(m) && m@ == reason && *final(state) == *old(state),
            None => {
                &&& rejection is None
                &&& *final(state) == (ProjectSettingsState {
                    alias_custom: final(state).alias_custom,
                    alias_custom_draft_active: false,
                    alias_custom_draft_name: final(state).alias_custom_draft_name,
                    focus: ProjectSettingsFocus::AliasCustomPath(old(state).alias_custom@.len() as u16),
                    follow_focus: true,
                    ..*old(state)
                })
                &&& final(state).alias_custom@.len() == old(state).alias_custom@.len() + 1
                &&& final(state).alias_custom@.drop_last() == old(state).alias_custom@
                &&& final(state).alias_custom@.last().name@ == trim(old(state).alias_custom_draft_name@)
                &&& final(state).alias_custom@.last().path@.len() == 0
                &&& final(state).alias_custom_draft_name@.len() == 0
            },
        },
{
    let name = trimmed_chars(state.alias_custom_draft_name.as_str());
    if name.len() == 0 {
        return Some(String::from_str("Custom alias name cannot be empty."));
    }
    if is_reserved_alias(&name) {
        return Some(quoted_message("Name '", &name, "' is reserved. Use dist/ui for built-in paths."));
    }
    if alias_taken(&state.alias_custom, &name) {
        return Some(quoted_message("Custom alias '", &name, "' already exists."));
    }
    let index = state.alias_custom.len();
    let entry_name = crate::text::string_of(&name);
    state.alias_custom.push(AliasCustomEntryState { name: entry_name, path: String::new() });
    state.alias_custom_draft_active = false;
    state.alias_custom_draft_name = String::new();
    state.focus = ProjectSettingsFocus::AliasCustomPath(index as u16);
    state.follow_focus = true;
    proof {
        assert(state.alias_custom@.drop_last() =~= old(state).alias_custom@);
    }
    None
}

/// Removes the custom alias at `index` (and follows the focus again); an
/// index past the end changes nothing.
pub fn delete_alias_custom(state: &mut ProjectSettingsState, index: u16)
    ensures
        (index as int) < old(state).alias_custom@.len() ==> *final(state) == (ProjectSettingsState {
            alias_custom: final(state).alias_custom,
            follow_focus: true,
            ..*old(state)
        }) && final(state).alias_custom@ == old(state).alias_custom@.remove(index as int),
        (index as int) >= old(state).alias_custom@.len() ==> *final(state) == *old(state),
{
    let idx = index as usize;
    if idx < state.alias_custom.len() {
        state.alias_custom.remove(idx);
        state.follow_focus = true;
    }
}

/// Stores a path picked in the file browser into the alias field it was
/// picked for; other fields, and custom indexes past the end, are left alone.
pub fn set_alias_path_from_browse(state: &mut ProjectSettingsState, field: ProjectSettingsFocus, value: String)
    ensures
        match field {
            ProjectSettingsFocus::AliasDistPath => *final(state) == (ProjectSettingsState { alias_dist_path: value, ..*old(state) }),
            ProjectSettingsFocus::AliasUiPath => *final(state) == (ProjectSettingsState { alias_ui_path: value, ..*old(state) }),
            ProjectSettingsFocus::AliasCustomPath(i) => if (i as int) < old(state).alias_custom@.len() {
                &&& *final(state) == (ProjectSettingsState { alias_custom: final(state).alias_custom, ..*old(state) })
                &&& final(state).alias_custom@ == old(state).alias_custom@.update(i as int,
                    AliasCustomEntryState { path: value, ..old(state).alias_custom@[i as int] })
            } else {
                *final(state) == *old(state)
            },
            _ => *final(state) == *old(state),
        },
{
    match field {
        ProjectSettingsFocus::AliasDistPath => state.alias_dist_path = value,
        ProjectSettingsFocus::AliasUiPath => state.alias_ui_path = value,
        ProjectSettingsFocus::AliasCustomPath(index) => {
            let idx = index as usize;
            if idx < state.alias_custom.len() {
                let name = state.alias_custom[idx].name.clone();
                state.alias_custom.set(idx, AliasCustomEntryState { name, path: value });
            }
        },
        _ => {},
    }
}

/// The text of the input the focus is on, if it is on one.
pub open spec fn input_text(s: ProjectSettingsState, focus: ProjectSettingsFocus) -> Option<Seq<char>> {
    match focus {
        ProjectSettingsFocus::CustomMainBranchName => Some(s.custom_main_branch_name@),
        ProjectSettingsFocus::Alias => Some(s.alias@),
        ProjectSettingsFocus::AliasDistPath => Some(s.alias_dist_path@),
        ProjectSettingsFocus::AliasUiPath => Some(s.alias_ui_path@),
        ProjectSettingsFocus::AliasCustomDraftName => Some(s.alias_custom_draft_name@),
        ProjectSettingsFocus::ChangelogPath => Some(s.changelog_path@),
        ProjectSettingsFocus::ReleaseNowGeneral => Some(s.release_now_general@),
        ProjectSettingsFocus::ReleaseNowWindows => Some(s.release_now_windows@),
        ProjectSettingsFocus::ReleaseNowLinuxArm => Some(s.release_now_linux_arm@),
        ProjectSettingsFocus::ReleaseNowLinuxAmd => Some(s.release_now_linux_amd@),
        ProjectSettingsFocus::ReleaseNowMacOs => Some(s.release_now_macos@),
        ProjectSettingsFocus::QuickDownloadsFooter => Some(s.quick_downloads_footer@),
        ProjectSettingsFocus::ReadmeInjectAtRow => Some(s.readme_inject_at_row@),
        ProjectSettingsFocus::ReleaseTitleTemplate => Some(s.release_title_template@),
        ProjectSettingsFocus::AliasCustomPath(i) => if (i as int) < s.alias_custom@.len() { Some(s.alias_custom@[i as int].path@) } else { None },
        _ => None,
    }
}

/// `b` differs from `a` at most in the input the focus `focus` is on.
pub open spec fn edits_only_input(a: ProjectSettingsState, b: ProjectSettingsState, focus: ProjectSettingsFocus) -> bool {
    match focus {
        ProjectSettingsFocus::CustomMainBranchName => b == (ProjectSettingsState { custom_main_branch_name: b.custom_main_branch_name, ..a }),
        ProjectSettingsFocus::Alias => b == (ProjectSettingsState { alias: b.alias, ..a }),
        ProjectSettingsFocus::AliasDistPath => b == (ProjectSettingsState { alias_dist_path: b.alias_dist_path, ..a }),
        ProjectSettingsFocus::AliasUiPath => b == (ProjectSettingsState { alias_ui_path: b.alias_ui_path, ..a }),
        ProjectSettingsFocus::AliasCustomDraftName => b == (ProjectSettingsState { alias_custom_draft_name: b.alias_custom_draft_name, ..a }),
        ProjectSettingsFocus::ChangelogPath => b == (ProjectSettingsState { changelog_path: b.changelog_path, ..a }),
        ProjectSettingsFocus::ReleaseNowGeneral => b == (ProjectSettingsState { release_now_general: b.release_now_general, ..a }),
        ProjectSettingsFocus::ReleaseNowWindows => b == (ProjectSettingsState { release_now_windows: b.release_now_windows, ..a }),
        ProjectSettingsFocus::ReleaseNowLinuxArm => b == (ProjectSettingsState { release_now_linux_arm: b.release_now_linux_arm, ..a }),
        ProjectSettingsFocus::ReleaseNowLinuxAmd => b == (ProjectSettingsState { release_now_linux_amd: b.release_now_linux_amd, ..a }),
        ProjectSettingsFocus::ReleaseNowMacOs => b == (ProjectSettingsState { release_now_macos: b.release_now_macos, ..a }),
        ProjectSettingsFocus::QuickDownloadsFooter => b == (ProjectSettingsState { quick_downloads_footer: b.quick_downloads_footer, ..a }),
        ProjectSettingsFocus::ReadmeInjectAtRow => b == (ProjectSettingsState { readme_inject_at_row: b.readme_inject_at_row, ..a }),
        ProjectSettingsFocus::ReleaseTitleTemplate => b == (ProjectSettingsState { release_title_template: b.release_title_template, ..a }),
        ProjectSettingsFocus::AliasCustomPath(i) => {
            &&& b == (ProjectSettingsState { alias_custom: b.alias_custom, ..a })
            &&& b.alias_custom@.len() == a.alias_custom@.len()
            &&& forall|j: int| 0 <= j < a.alias_custom@.len() && j != i ==> b.alias_custom@[j] == a.alias_custom@[j]
            &&& (0 <= (i as int) < a.alias_custom@.len() ==> b.alias_custom@[i as int].name == a.alias_custom@[i as int].name)
        },
        _ => b == a,
    }
}

fn append_to_custom_main_branch_name(s: &mut ProjectSettingsState, text: &str)
    ensures
        *final(s) == (ProjectSettingsState { custom_main_branch_name: final(s).custom_main_branch_name, ..*old(s) }),
        final(s).custom_main_branch_name@ == old(s).custom_main_branch_name@ + text@,
{
    append_str(&mut s.custom_main_branch_name, text);
}

fn append_to_alias(s: &mut ProjectSettingsState, text: &str)
    ensures
        *final(s) == (ProjectSettingsState { alias: final(s).alias, ..*old(s) }),
        final(s).alias@ == old(s).alias@ + text@,
{
    append_str(&mut s.alias, text);
}

fn append_to_alias_dist_path(s: &mut ProjectSettingsState, text: &str)
    ensures
        *final(s) == (ProjectSettingsState { alias_dist_path: final(s).alias_dist_path, ..*old(s) }),
        final(s).alias_dist_path@ == old(s).alias_dist_path@ + text@,
{
    append_str(&mut s.alias_dist_path, text);
}

fn append_to_alias_ui_path(s: &mut ProjectSettingsState, text: &str)
    ensures
        *final(s) == (ProjectSettingsState { alias_ui_path: final(s).alias_ui_path, ..*old(s) }),
        final(s).alias_ui_path@ == old(s).alias_ui_path@ + text@,
{
    append_str(&mut s.alias_ui_path, text);
}

fn append_to_alias_custom_draft_name(s: &mut ProjectSettingsState, text: &str)
    ensures
        *final(s) == (ProjectSettingsState { alias_custom_draft_name: final(s).alias_custom_draft_name, ..*old(s) }),
        final(s).alias_custom_draft_name@ == old(s).alias_custom_draft_name@ + text@,
{
    append_str(&mut s.alias_custom_draft_name, text);
}

fn append_to_changelog_path(s: &mut ProjectSettingsState, text: &str)
    ensures
        *final(s) == (ProjectSettingsState { changelog_path: final(s).changelog_path, ..*old(s) }),
        final(s).changelog_path@ == old(s).changelog_path@ + text@,
{
    append_str(&mut s.changelog_path, text);
}

fn append_to_release_now_general(s: &mut ProjectSettingsState, text: &str)
    ensures
        *final(s) == (ProjectSettingsState { release_now_general: final(s).release_now_general, ..*old(s) }),
        final(s).release_now_general@ == old(s).release_now_general@ + text@,
{
    append_str(&mut s.release_now_general, text);
}

fn append_to_release_now_windows(s: &mut ProjectSettingsState, text: &str)
    ensures
        *final(s) == (ProjectSettingsState { release_now_windows: final(s).release_now_windows, ..*old(s) }),
        final(s).release_now_windows@ == old(s).release_now_windows@ + text@,
{
    append_str(&mut s.release_now_windows, text);
}

fn append_to_release_now_linux_arm(s: &mut ProjectSettingsState, text: &str)
    ensures
        *final(s) == (ProjectSettingsState { release_now_linux_arm: final(s).release_now_linux_arm, ..*old(s) }),
        final(s).release_now_linux_arm@ == old(s).release_now_linux_arm@ + text@,
{
    append_str(&mut s.release_now_linux_arm, text);
}

fn append_to_release_now_linux_amd(s: &mut ProjectSettingsState, text: &str)
    ensures
        *final(s) == (ProjectSettingsState { release_now_linux_amd: final(s).release_now_linux_amd, ..*old(s) }),
        final(s).release_now_linux_amd@ == old(s).release_now_linux_amd@ + text@,
{
    append_str(&mut s.release_now_linux_amd, text);
}

fn append_to_release_now_macos(s: &mut ProjectSettingsState, text: &str)
    ensures
        *final(s) == (ProjectSettingsState { release_now_macos: final(s).release_now_macos, ..*old(s) }),
        final(s).release_now_macos@ == old(s).release_now_macos@ + text@,
{
    append_str(&mut s.release_now_macos, text);
}

fn append_to_quick_downloads_footer(s: &mut ProjectSettingsState, text: &str)
    ensures
        *final(s) == (ProjectSettingsState { quick_downloads_footer: final(s).quick_downloads_footer, ..*old(s) }),
        final(s).quick_downloads_footer@ == old(s).quick_downloads_footer@ + text@,
{
    append_str(&mut s.quick_downloads_footer, text);
}

fn append_to_readme_inject_at_row(s: &mut ProjectSettingsState, text: &str)
    ensures
        *final(s) == (ProjectSettingsState { readme_inject_at_row: final(s).readme_inject_at_row, ..*old(s) }),
        final(s).readme_inject_at_row@ == old(s).readme_inject_at_row@ + text@,
{
    append_str(&mut s.readme_inject_at_row, text);
}

fn append_to_release_title_template(s: &mut ProjectSettingsState, text: &str)
    ensures
        *final(s) == (ProjectSettingsState { release_title_template: final(s).release_title_template, ..*old(s) }),
        final(s).release_title_template@ == old(s).release_title_template@ + text@,
{
    append_str(&mut s.release_title_template, text);
}

fn append_to_alias_custom_path(s: &mut ProjectSettingsState, index: usize, text: &str)
    requires
        index < old(s).alias_custom@.len(),
    ensures
        *final(s) == (ProjectSettingsState { alias_custom: final(s).alias_custom, ..*old(s) }),
        final(s).alias_custom@.len() == old(s).alias_custom@.len(),
        forall|j: int| 0 <= j < old(s).alias_custom@.len() && j != index ==> final(s).alias_custom@[j] == old(s).alias_custom@[j],
        final(s).alias_custom@[index as int].name == old(s).alias_custom@[index as int].name,
        final(s).alias_custom@[index as int].path@ == old(s).alias_custom@[index as int].path@ + text@,
{
    let name = s.alias_custom[index].name.clone();
    let mut path = s.alias_custom[index].path.clone();
    append_str(&mut path, text);
    s.alias_custom.set(index, AliasCustomEntryState { name, path });
}

/// Inserts `text` at the end of the focused text input. Returns whether the
/// focus is on one (a custom alias path only while that entry exists);
/// nothing changes when it is not.
pub fn insert_text(state: &mut ProjectSettingsState, text: &str) -> (inserted: bool)
    ensures
        inserted == input_text(*old(state), old(state).focus) is Some,
        inserted ==> edits_only_input(*old(state), *final(state), old(state).focus)
            && input_text(*final(state), old(state).focus) == Some(input_text(*old(state), old(state).focus)->0 + text@),
        !inserted ==> *final(state) == *old(state),
{
    match state.focus {
        ProjectSettingsFocus::CustomMainBranchName => { append_to_custom_main_branch_name(state, text); true },
        ProjectSettingsFocus::Alias => { append_to_alias(state, text); true },
        ProjectSettingsFocus::AliasDistPath => { append_to_alias_dist_path(state, text); true },
        ProjectSettingsFocus::AliasUiPath => { append_to_alias_ui_path(state, text); true },
        ProjectSettingsFocus::AliasCustomDraftName => { append_to_alias_custom_draft_name(state, text); true },
        ProjectSettingsFocus::ChangelogPath => { append_to_changelog_path(state, text); true },
        ProjectSettingsFocus::ReleaseNowGeneral => { append_to_release_now_general(state, text); true },
        ProjectSettingsFocus::ReleaseNowWindows => { append_to_release_now_windows(state, text); true },
        ProjectSettingsFocus::ReleaseNowLinuxArm => { append_to_release_now_linux_arm(state, text); true },
        ProjectSettingsFocus::ReleaseNowLinuxAmd => { append_to_release_now_linux_amd(state, text); true },
        ProjectSettingsFocus::ReleaseNowMacOs => { append_to_release_now_macos(state, text); true },
        ProjectSettingsFocus::QuickDownloadsFooter => { append_to_quick_downloads_footer(state, text); true },
        ProjectSettingsFocus::ReadmeInjectAtRow => { append_to_readme_inject_at_row(state, text); true },
        ProjectSettingsFocus::ReleaseTitleTemplate => { append_to_release_title_template(state, text); true },
        ProjectSettingsFocus::AliasCustomPath(index) => {
            if (index as usize) < state.alias_custom.len() {
                append_to_alias_custom_path(state, index as usize, text);
                true
            } else {
                false
            }
        },
        _ => false,
    }
}

} // verus!
