//! What the Project Settings pane changes in a scope's settings: toggling the
//! focused control, stepping a policy, and the status line that reports it.

use vstd::prelude::*;
use crate::project_settings::{
    AdvancedAliasSettings, PolicyChoice, ProjectSettingsFocus, ProjectSettingsSource,
    ProjectSettingsState, ProjectSettingsTab, ReadmeInjectDepth, active_scope_name,
    active_scope_name_spec, focus_made_visible, visible_fields_spec, inject_depth_focus, inject_depth_of,
    readme_inject_depth_from_focus,
};
use crate::text::{append_str, copy_string};

verus! {

/// One change made to a scope's settings from the pane.
#[derive(Clone, Copy, Debug, PartialEq, Eq, Structural)]
pub enum SettingsChange {
    ComfyGitFlow(bool),
    CustomMainBranch(bool),
    ChangelogGeneration(bool),
    ReleaseNow(bool),
    QuickDownloads(bool),
    QuickDownloadsPosition,
    PostMergePolicy,
    MirrorPolicy,
    HidePrMessages(bool),
    HideBumpMessages(bool),
    WrapDetailed(bool),
    MiniCommitHashes(bool),
    MirrorSummary(bool),
    ReadmeInjection(bool),
    AdvancedAlias(bool),
    InjectOnlyTopPicks(bool),
    InjectDepth(ReadmeInjectDepth),
}

/// The change that toggling `focus` makes, if the focus is on a control.
pub open spec fn toggle_change(focus: ProjectSettingsFocus, p: ProjectSettingsSource, s: ProjectSettingsState) -> Option<SettingsChange> {
    match focus {
        ProjectSettingsFocus::ComfyGitFlowEnabled => Some(SettingsChange::ComfyGitFlow(!p.comfygitflow_enabled)),
        ProjectSettingsFocus::CustomMainBranchEnabled => Some(SettingsChange::CustomMainBranch(!p.has_custom_main_branch)),
        ProjectSettingsFocus::ChangelogEnabled => Some(SettingsChange::ChangelogGeneration(!p.changelog_enabled)),
        ProjectSettingsFocus::ReleaseNowEnabled => Some(SettingsChange::ReleaseNow(!p.release_now_enabled)),
        ProjectSettingsFocus::QuickDownloadsEnabled => Some(SettingsChange::QuickDownloads(!p.quick_downloads_enabled)),
        ProjectSettingsFocus::QuickDownloadsPosition => Some(SettingsChange::QuickDownloadsPosition),
        ProjectSettingsFocus::PostMergeSourceBranch => Some(SettingsChange::PostMergePolicy),
        ProjectSettingsFocus::MirrorSyncAfterMerge => Some(SettingsChange::MirrorPolicy),
        ProjectSettingsFocus::ChangelogHidePrMessages => Some(SettingsChange::HidePrMessages(!s.changelog_hide_pr_messages)),
        ProjectSettingsFocus::ChangelogHideBumpMessages => Some(SettingsChange::HideBumpMessages(!s.changelog_hide_bump_messages)),
        ProjectSettingsFocus::ChangelogWrapDetailedIfTopPicks => Some(SettingsChange::WrapDetailed(!s.changelog_wrap_detailed_if_top_picks)),
        ProjectSettingsFocus::ChangelogMiniCommitHashes => Some(SettingsChange::MiniCommitHashes(!s.changelog_mini_commit_hashes)),
        ProjectSettingsFocus::ChangelogMirrorSummaryToRootChangelog => Some(SettingsChange::MirrorSummary(!s.changelog_mirror_summary_to_root_changelog)),
        ProjectSettingsFocus::ReadmeInjectionEnabled => Some(SettingsChange::ReadmeInjection(!p.readme_injection_enabled)),
        ProjectSettingsFocus::AdvancedAliasEnabled => Some(SettingsChange::AdvancedAlias(!s.advanced_alias_enabled)),
        ProjectSettingsFocus::ReadmeInjectOnlyTopPicks => Some(SettingsChange::InjectOnlyTopPicks(!p.readme_inject_only_top_picks)),
        _ => match inject_depth_of(focus) {
            Some(d) => Some(SettingsChange::InjectDepth(d)),
            None => None,
        },
    }
}

pub open spec fn stepped_choice(c: PolicyChoice, delta: int) -> PolicyChoice {
    PolicyChoice { selected: c.stepped_index(delta) as usize, ..c }
}

/// The scope's settings after toggling `focus`.
pub open spec fn toggled_project(focus: ProjectSettingsFocus, p: ProjectSettingsSource, s: ProjectSettingsState) -> ProjectSettingsSource {
    match toggle_change(focus, p, s) {
        Some(SettingsChange::ComfyGitFlow(b)) => with_flag(p, ProjectFlag::ComfyGitFlow, b),
        Some(SettingsChange::CustomMainBranch(b)) => ProjectSettingsSource {
            has_custom_main_branch: b,
            custom_main_branch: s.custom_main_branch_name,
            ..p
        },
        Some(SettingsChange::ChangelogGeneration(b)) => with_flag(p, ProjectFlag::ChangelogGeneration, b),
        Some(SettingsChange::ReleaseNow(b)) => with_flag(p, ProjectFlag::ReleaseNow, b),
        Some(SettingsChange::QuickDownloads(b)) => with_flag(p, ProjectFlag::QuickDownloads, b),
        Some(SettingsChange::QuickDownloadsPosition) => with_policy(p, PolicyKind::QuickDownloadsPosition,
            stepped_choice(p.quick_downloads_position, 1)),
        Some(SettingsChange::PostMergePolicy) => with_policy(p, PolicyKind::PostMergeSourceBranch,
            stepped_choice(p.post_merge_source_branch, 1)),
        Some(SettingsChange::MirrorPolicy) => with_policy(p, PolicyKind::MirrorSyncAfterMerge,
            stepped_choice(p.mirror_sync_after_merge, 1)),
        Some(SettingsChange::HidePrMessages(b)) => with_flag(p, ProjectFlag::HidePrMessages, b),
        Some(SettingsChange::HideBumpMessages(b)) => with_flag(p, ProjectFlag::HideBumpMessages, b),
        Some(SettingsChange::WrapDetailed(b)) => with_flag(p, ProjectFlag::WrapDetailed, b),
        Some(SettingsChange::MiniCommitHashes(b)) => with_flag(p, ProjectFlag::MiniCommitHashes, b),
        Some(SettingsChange::MirrorSummary(b)) => with_flag(p, ProjectFlag::MirrorSummary, b),
        Some(SettingsChange::ReadmeInjection(b)) => with_flag(p, ProjectFlag::ReadmeInjection, b),
        Some(SettingsChange::AdvancedAlias(b)) => ProjectSettingsSource {
            advanced_alias: AdvancedAliasSettings { enabled: b, ..p.advanced_alias },
            ..p
        },
        Some(SettingsChange::InjectOnlyTopPicks(b)) => with_flag(p, ProjectFlag::InjectOnlyTopPicks, b),
        Some(SettingsChange::InjectDepth(d)) => ProjectSettingsSource { readme_inject_depth: d, ..p },
        None => p,
    }
}

/// The changelog switches the pane keeps a copy of.
#[derive(Clone, Copy, Debug, PartialEq, Eq, Structural)]
pub enum MirroredFlag {
    HidePrMessages,
    HideBumpMessages,
    WrapDetailed,
    MiniCommitHashes,
    MirrorSummary,
}

pub open spec fn with_state_flag(s: ProjectSettingsState, flag: MirroredFlag, b: bool) -> ProjectSettingsState {
    match flag {
        MirroredFlag::HidePrMessages => ProjectSettingsState { changelog_hide_pr_messages: b, ..s },
        MirroredFlag::HideBumpMessages => ProjectSettingsState { changelog_hide_bump_messages: b, ..s },
        MirroredFlag::WrapDetailed => ProjectSettingsState { changelog_wrap_detailed_if_top_picks: b, ..s },
        MirroredFlag::MiniCommitHashes => ProjectSettingsState { changelog_mini_commit_hashes: b, ..s },
        MirroredFlag::MirrorSummary => ProjectSettingsState { changelog_mirror_summary_to_root_changelog: b, ..s },
    }
}

/// The pane's own flags after toggling `focus` (before the focus is made visible).
pub open spec fn toggled_flags(focus: ProjectSettingsFocus, p: ProjectSettingsSource, s: ProjectSettingsState) -> ProjectSettingsState {
    match toggle_change(focus, p, s) {
        Some(SettingsChange::HidePrMessages(b)) => with_state_flag(s, MirroredFlag::HidePrMessages, b),
        Some(SettingsChange::HideBumpMessages(b)) => with_state_flag(s, MirroredFlag::HideBumpMessages, b),
        Some(SettingsChange::WrapDetailed(b)) => with_state_flag(s, MirroredFlag::WrapDetailed, b),
        Some(SettingsChange::MiniCommitHashes(b)) => with_state_flag(s, MirroredFlag::MiniCommitHashes, b),
        Some(SettingsChange::MirrorSummary(b)) => with_state_flag(s, MirroredFlag::MirrorSummary, b),
        Some(SettingsChange::AdvancedAlias(b)) => ProjectSettingsState {
            advanced_alias_enabled: b,
            alias_custom_draft_active: if b { s.alias_custom_draft_active } else { false },
            ..s
        },
        Some(SettingsChange::InjectDepth(d)) => ProjectSettingsState { focus: inject_depth_focus(d), ..s },
        _ => s,
    }
}

/// The tab after toggling: switching Release-NOW off leaves the RLS-QD tab.
pub open spec fn toggled_tab(focus: ProjectSettingsFocus, p: ProjectSettingsSource, s: ProjectSettingsState, tab: ProjectSettingsTab) -> ProjectSettingsTab {
    if toggle_change(focus, p, s) == Some(SettingsChange::ReleaseNow(false)) && tab == ProjectSettingsTab::RlsQd {
        ProjectSettingsTab::Distro
    } else {
        tab
    }
}

/// `"enabled"` or `"disabled"`.
pub open spec fn on_off(b: bool) -> Seq<char> {
    if b { "enabled"@ } else { "disabled"@ }
}

/// `"hidden"` or `"shown"`.
pub open spec fn hidden_shown(b: bool) -> Seq<char> {
    if b { "hidden"@ } else { "shown"@ }
}

/// The display name of an inject depth from the scope's labels.
pub open spec fn depth_label_spec(p: ProjectSettingsSource, d: ReadmeInjectDepth) -> Seq<char> {
    let k: int = match d {
        ReadmeInjectDepth::CurrentOnly => 0,
        ReadmeInjectDepth::Last3 => 1,
        ReadmeInjectDepth::Last5 => 2,
        ReadmeInjectDepth::Last10 => 3,
    };
    if k < p.readme_inject_depth_labels@.len() { p.readme_inject_depth_labels@[k]@ } else { Seq::empty() }
}

/// The status line reporting `change`, read against the settings after it.
pub open spec fn change_message_spec(change: SettingsChange, p: ProjectSettingsSource, scope_index: int) -> Seq<char> {
    let scope = active_scope_name_spec(p, scope_index);
    let tail = " for "@ + scope + "."@;
    match change {
        SettingsChange::ComfyGitFlow(b) => "ComfyGitFlow "@ + on_off(b) + " for "@ + p.project_name@ + "."@,
        SettingsChange::CustomMainBranch(b) => "Custom main branch "@ + on_off(b) + tail,
        SettingsChange::ChangelogGeneration(b) => "Changelog generation "@ + on_off(b) + tail,
        SettingsChange::ReleaseNow(b) => "Release-NOW capabilities "@ + on_off(b) + tail,
        SettingsChange::QuickDownloads(b) => "Quick-Downloads "@ + on_off(b) + tail,
        SettingsChange::QuickDownloadsPosition => "Quick-Downloads position set to "@ + p.quick_downloads_position.label_spec() + tail,
        SettingsChange::PostMergePolicy => "After-merge source branch policy set to \""@ + p.post_merge_source_branch.label_spec() + "\""@ + tail,
        SettingsChange::MirrorPolicy => "Mirror sync policy set to \""@ + p.mirror_sync_after_merge.label_spec() + "\""@ + tail,
        SettingsChange::HidePrMessages(b) => "PR messages "@ + hidden_shown(b) + tail,
        SettingsChange::HideBumpMessages(b) => "Bump messages "@ + hidden_shown(b) + tail,
        SettingsChange::WrapDetailed(b) => "Wrap detailed changelog "@ + on_off(b) + tail,
        SettingsChange::MiniCommitHashes(b) => "Mini commit hashes "@ + on_off(b) + tail,
        SettingsChange::MirrorSummary(b) => "Summary changelog mirroring "@ + on_off(b) + tail,
        SettingsChange::ReadmeInjection(b) => "README injection "@ + on_off(b) + tail,
        SettingsChange::AdvancedAlias(b) => "Advanced alias functionality "@ + on_off(b) + tail,
        SettingsChange::InjectOnlyTopPicks(b) => "Inject only Top Picks "@ + on_off(b) + tail,
        SettingsChange::InjectDepth(d) => "README inject depth set to "@ + depth_label_spec(p, d) + tail,
    }
}

fn on_off_str(b: bool) -> (r: &'static str)
    ensures
        r@ == on_off(b),
{
    if b { "enabled" } else { "disabled" }
}

fn hidden_shown_str(b: bool) -> (r: &'static str)
    ensures
        r@ == hidden_shown(b),
{
    if b { "hidden" } else { "shown" }
}

fn depth_label(p: &ProjectSettingsSource, d: ReadmeInjectDepth) -> (l: String)
    ensures
        l@ == depth_label_spec(*p, d),
{
    let k: usize = match d {
        ReadmeInjectDepth::CurrentOnly => 0,
        ReadmeInjectDepth::Last3 => 1,
        ReadmeInjectDepth::Last5 => 2,
        ReadmeInjectDepth::Last10 => 3,
    };
    if k < p.readme_inject_depth_labels.len() {
        copy_string(&p.readme_inject_depth_labels[k])
    } else {
        String::new()
    }
}

/// `head + value + " for " + scope + "."`
fn scope_sentence(head: &str, value: &str, scope: &str) -> (r: String)
    ensures
        r@ == head@ + value@ + " for "@ + scope@ + "."@,
{
    let mut r = String::from_str(head);
    append_str(&mut r, value);
    append_str(&mut r, " for ");
    append_str(&mut r, scope);
    append_str(&mut r, ".");
    r
}

/// The status line reporting `change`.
#[verifier::spinoff_prover]
pub fn change_message(change: SettingsChange, project: &ProjectSettingsSource, scope_index: usize) -> (m: String)
    requires
        project.wf(),
    ensures
        m@ == change_message_spec(change, *project, scope_index as int),
{
    let scope = active_scope_name(project, scope_index);
    let s = scope.as_str();
    let m = match change {
        SettingsChange::ComfyGitFlow(b) => scope_sentence("ComfyGitFlow ", on_off_str(b), project.project_name.as_str()),
        SettingsChange::CustomMainBranch(b) => scope_sentence("Custom main branch ", on_off_str(b), s),
        SettingsChange::ChangelogGeneration(b) => scope_sentence("Changelog generation ", on_off_str(b), s),
        SettingsChange::ReleaseNow(b) => scope_sentence("Release-NOW capabilities ", on_off_str(b), s),
        SettingsChange::QuickDownloads(b) => scope_sentence("Quick-Downloads ", on_off_str(b), s),
        SettingsChange::QuickDownloadsPosition => {
            let label = project.quick_downloads_position.label();
            scope_sentence("Quick-Downloads position set to ", label.as_str(), s)
        },
        SettingsChange::PostMergePolicy => {
            let mut label = project.post_merge_source_branch.label();
            append_str(&mut label, "\"");
            scope_sentence("After-merge source branch policy set to \"", label.as_str(), s)
        },
        SettingsChange::MirrorPolicy => {
            let mut label = project.mirror_sync_after_merge.label();
            append_str(&mut label, "\"");
            scope_sentence("Mirror sync policy set to \"", label.as_str(), s)
        },
        SettingsChange::HidePrMessages(b) => scope_sentence("PR messages ", hidden_shown_str(b), s),
        SettingsChange::HideBumpMessages(b) => scope_sentence("Bump messages ", hidden_shown_str(b), s),
        SettingsChange::WrapDetailed(b) => scope_sentence("Wrap detailed changelog ", on_off_str(b), s),
        SettingsChange::MiniCommitHashes(b) => scope_sentence("Mini commit hashes ", on_off_str(b), s),
        SettingsChange::MirrorSummary(b) => scope_sentence("Summary changelog mirroring ", on_off_str(b), s),
        SettingsChange::ReadmeInjection(b) => scope_sentence("README injection ", on_off_str(b), s),
        SettingsChange::AdvancedAlias(b) => scope_sentence("Advanced alias functionality ", on_off_str(b), s),
        SettingsChange::InjectOnlyTopPicks(b) => scope_sentence("Inject only Top Picks ", on_off_str(b), s),
        SettingsChange::InjectDepth(d) => {
            let label = depth_label(project, d);
            scope_sentence("README inject depth set to ", label.as_str(), s)
        },
    };
    proof {
        assert(m@ =~= change_message_spec(change, *project, scope_index as int));
    }
    m
}

/// Which policy of the Git and RLS-QD tabs is stepped.
#[derive(Clone, Copy, Debug, PartialEq, Eq, Structural)]
pub enum PolicyKind {
    QuickDownloadsPosition,
    PostMergeSourceBranch,
    MirrorSyncAfterMerge,
}

pub open spec fn policy_of(p: ProjectSettingsSource, kind: PolicyKind) -> PolicyChoice {
    match kind {
        PolicyKind::QuickDownloadsPosition => p.quick_downloads_position,
        PolicyKind::PostMergeSourceBranch => p.post_merge_source_branch,
        PolicyKind::MirrorSyncAfterMerge => p.mirror_sync_after_merge,
    }
}

pub open spec fn with_policy(p: ProjectSettingsSource, kind: PolicyKind, c: PolicyChoice) -> ProjectSettingsSource {
    match kind {
        PolicyKind::QuickDownloadsPosition => ProjectSettingsSource { quick_downloads_position: c, ..p },
        PolicyKind::PostMergeSourceBranch => ProjectSettingsSource { post_merge_source_branch: c, ..p },
        PolicyKind::MirrorSyncAfterMerge => ProjectSettingsSource { mirror_sync_after_merge: c, ..p },
    }
}

pub open spec fn policy_label_field(s: ProjectSettingsState, kind: PolicyKind) -> String {
    match kind {
        PolicyKind::QuickDownloadsPosition => s.quick_downloads_position,
        PolicyKind::PostMergeSourceBranch => s.post_merge_source_branch,
        PolicyKind::MirrorSyncAfterMerge => s.mirror_sync_after_merge,
    }
}

pub open spec fn policy_change(kind: PolicyKind) -> SettingsChange {
    match kind {
        PolicyKind::QuickDownloadsPosition => SettingsChange::QuickDownloadsPosition,
        PolicyKind::PostMergeSourceBranch => SettingsChange::PostMergePolicy,
        PolicyKind::MirrorSyncAfterMerge => SettingsChange::MirrorPolicy,
    }
}

pub open spec fn with_policy_label(s: ProjectSettingsState, kind: PolicyKind, label: String) -> ProjectSettingsState {
    match kind {
        PolicyKind::QuickDownloadsPosition => ProjectSettingsState { quick_downloads_position: label, ..s },
        PolicyKind::PostMergeSourceBranch => ProjectSettingsState { post_merge_source_branch: label, ..s },
        PolicyKind::MirrorSyncAfterMerge => ProjectSettingsState { mirror_sync_after_merge: label, ..s },
    }
}

/// `b` equals `a` but for the three policy label fields.
pub open spec fn same_but_policy_labels(a: ProjectSettingsState, b: ProjectSettingsState) -> bool {
    b == (ProjectSettingsState {
        quick_downloads_position: b.quick_downloads_position,
        post_merge_source_branch: b.post_merge_source_branch,
        mirror_sync_after_merge: b.mirror_sync_after_merge,
        ..a
    })
}

fn step_quick_downloads_position(state: &mut ProjectSettingsState, project: &mut ProjectSettingsSource, delta: isize)
    requires
        old(project).wf(),
    ensures
        *final(project) == with_policy(*old(project), PolicyKind::QuickDownloadsPosition, stepped_choice(old(project).quick_downloads_position, delta as int)),
        final(project).wf(),
        *final(state) == (ProjectSettingsState { quick_downloads_position: final(state).quick_downloads_position, ..*old(state) }),
        final(state).quick_downloads_position@ == final(project).quick_downloads_position.label_spec(),
{
    project.quick_downloads_position.step(delta);
    state.quick_downloads_position = project.quick_downloads_position.label();
}

fn step_post_merge_source_branch(state: &mut ProjectSettingsState, project: &mut ProjectSettingsSource, delta: isize)
    requires
        old(project).wf(),
    ensures
        *final(project) == with_policy(*old(project), PolicyKind::PostMergeSourceBranch, stepped_choice(old(project).post_merge_source_branch, delta as int)),
        final(project).wf(),
        *final(state) == (ProjectSettingsState { post_merge_source_branch: final(state).post_merge_source_branch, ..*old(state) }),
        final(state).post_merge_source_branch@ == final(project).post_merge_source_branch.label_spec(),
{
    project.post_merge_source_branch.step(delta);
    state.post_merge_source_branch = project.post_merge_source_branch.label();
}

fn step_mirror_sync_after_merge(state: &mut ProjectSettingsState, project: &mut ProjectSettingsSource, delta: isize)
    requires
        old(project).wf(),
    ensures
        *final(project) == with_policy(*old(project), PolicyKind::MirrorSyncAfterMerge, stepped_choice(old(project).mirror_sync_after_merge, delta as int)),
        final(project).wf(),
        *final(state) == (ProjectSettingsState { mirror_sync_after_merge: final(state).mirror_sync_after_merge, ..*old(state) }),
        final(state).mirror_sync_after_merge@ == final(project).mirror_sync_after_merge.label_spec(),
{
    project.mirror_sync_after_merge.step(delta);
    state.mirror_sync_after_merge = project.mirror_sync_after_merge.label();
}

/// Steps a policy by `delta` options (wrapping) and shows its new name in the pane.
pub fn adjust_policy(
    state: &mut ProjectSettingsState,
    project: &mut ProjectSettingsSource,
    kind: PolicyKind,
    delta: isize,
) -> (change: SettingsChange)
    requires
        old(project).wf(),
    ensures
        change == policy_change(kind),
        *final(project) == with_policy(*old(project), kind, stepped_choice(policy_of(*old(project), kind), delta as int)),
        final(project).wf(),
        *final(state) == with_policy_label(*old(state), kind, policy_label_field(*final(state), kind)),
        policy_label_field(*final(state), kind)@ == policy_of(*final(project), kind).label_spec(),
{
    match kind {
        PolicyKind::QuickDownloadsPosition => {
            step_quick_downloads_position(state, project, delta);
            SettingsChange::QuickDownloadsPosition
        },
        PolicyKind::PostMergeSourceBranch => {
            step_post_merge_source_branch(state, project, delta);
            SettingsChange::PostMergePolicy
        },
        PolicyKind::MirrorSyncAfterMerge => {
            step_mirror_sync_after_merge(state, project, delta);
            SettingsChange::MirrorPolicy
        },
    }
}

/// The scope's on/off settings the pane toggles.
#[derive(Clone, Copy, Debug, PartialEq, Eq, Structural)]
pub enum ProjectFlag {
    ComfyGitFlow,
    ChangelogGeneration,
    ReleaseNow,
    QuickDownloads,
    HidePrMessages,
    HideBumpMessages,
    WrapDetailed,
    MiniCommitHashes,
    MirrorSummary,
    ReadmeInjection,
    InjectOnlyTopPicks,
}

pub open spec fn with_flag(p: ProjectSettingsSource, flag: ProjectFlag, b: bool) -> ProjectSettingsSource {
    match flag {
        ProjectFlag::ComfyGitFlow => ProjectSettingsSource { comfygitflow_enabled: b, ..p },
        ProjectFlag::ChangelogGeneration => ProjectSettingsSource { changelog_enabled: b, ..p },
        ProjectFlag::ReleaseNow => ProjectSettingsSource { release_now_enabled: b, ..p },
        ProjectFlag::QuickDownloads => ProjectSettingsSource { quick_downloads_enabled: b, ..p },
        ProjectFlag::HidePrMessages => ProjectSettingsSource { changelog_hide_pr_messages: b, ..p },
        ProjectFlag::HideBumpMessages => ProjectSettingsSource { changelog_hide_bump_messages: b, ..p },
        ProjectFlag::WrapDetailed => ProjectSettingsSource { changelog_wrap_detailed_if_top_picks: b, ..p },
        ProjectFlag::MiniCommitHashes => ProjectSettingsSource { changelog_mini_commit_hashes: b, ..p },
        ProjectFlag::MirrorSummary => ProjectSettingsSource { changelog_mirror_summary_to_root_changelog: b, ..p },
        ProjectFlag::ReadmeInjection => ProjectSettingsSource { readme_injection_enabled: b, ..p },
        ProjectFlag::InjectOnlyTopPicks => ProjectSettingsSource { readme_inject_only_top_picks: b, ..p },
    }
}

fn set_comfygitflow_enabled(project: &mut ProjectSettingsSource, b: bool)
    ensures
        *final(project) == (ProjectSettingsSource { comfygitflow_enabled: b, ..*old(project) }),
{
    project.comfygitflow_enabled = b;
}

fn set_changelog_enabled(project: &mut ProjectSettingsSource, b: bool)
    ensures
        *final(project) == (ProjectSettingsSource { changelog_enabled: b, ..*old(project) }),
{
    project.changelog_enabled = b;
}

fn set_release_now_enabled(project: &mut ProjectSettingsSource, b: bool)
    ensures
        *final(project) == (ProjectSettingsSource { release_now_enabled: b, ..*old(project) }),
{
    project.release_now_enabled = b;
}

fn set_quick_downloads_enabled(project: &mut ProjectSettingsSource, b: bool)
    ensures
        *final(project) == (ProjectSettingsSource { quick_downloads_enabled: b, ..*old(project) }),
{
    project.quick_downloads_enabled = b;
}

fn set_changelog_hide_pr_messages(project: &mut ProjectSettingsSource, b: bool)
    ensures
        *final(project) == (ProjectSettingsSource { changelog_hide_pr_messages: b, ..*old(project) }),
{
    project.changelog_hide_pr_messages = b;
}

fn set_changelog_hide_bump_messages(project: &mut ProjectSettingsSource, b: bool)
    ensures
        *final(project) == (ProjectSettingsSource { changelog_hide_bump_messages: b, ..*old(project) }),
{
    project.changelog_hide_bump_messages = b;
}

fn set_changelog_wrap_detailed_if_top_picks(project: &mut ProjectSettingsSource, b: bool)
    ensures
        *final(project) == (ProjectSettingsSource { changelog_wrap_detailed_if_top_picks: b, ..*old(project) }),
{
    project.changelog_wrap_detailed_if_top_picks = b;
}

fn set_changelog_mini_commit_hashes(project: &mut ProjectSettingsSource, b: bool)
    ensures
        *final(project) == (ProjectSettingsSource { changelog_mini_commit_hashes: b, ..*old(project) }),
{
    project.changelog_mini_commit_hashes = b;
}

fn set_changelog_mirror_summary_to_root_changelog(project: &mut ProjectSettingsSource, b: bool)
    ensures
        *final(project) == (ProjectSettingsSource { changelog_mirror_summary_to_root_changelog: b, ..*old(project) }),
{
    project.changelog_mirror_summary_to_root_changelog = b;
}

fn set_readme_injection_enabled(project: &mut ProjectSettingsSource, b: bool)
    ensures
        *final(project) == (ProjectSettingsSource { readme_injection_enabled: b, ..*old(project) }),
{
    project.readme_injection_enabled = b;
}

fn set_readme_inject_only_top_picks(project: &mut ProjectSettingsSource, b: bool)
    ensures
        *final(project) == (ProjectSettingsSource { readme_inject_only_top_picks: b, ..*old(project) }),
{
    project.readme_inject_only_top_picks = b;
}

fn set_project_flag(project: &mut ProjectSettingsSource, flag: ProjectFlag, b: bool)
    ensures
        *final(project) == with_flag(*old(project), flag, b),
{
    match flag {
        ProjectFlag::ComfyGitFlow => set_comfygitflow_enabled(project, b),
        ProjectFlag::ChangelogGeneration => set_changelog_enabled(project, b),
        ProjectFlag::ReleaseNow => set_release_now_enabled(project, b),
        ProjectFlag::QuickDownloads => set_quick_downloads_enabled(project, b),
        ProjectFlag::HidePrMessages => set_changelog_hide_pr_messages(project, b),
        ProjectFlag::HideBumpMessages => set_changelog_hide_bump_messages(project, b),
        ProjectFlag::WrapDetailed => set_changelog_wrap_detailed_if_top_picks(project, b),
        ProjectFlag::MiniCommitHashes => set_changelog_mini_commit_hashes(project, b),
        ProjectFlag::MirrorSummary => set_changelog_mirror_summary_to_root_changelog(project, b),
        ProjectFlag::ReadmeInjection => set_readme_injection_enabled(project, b),
        ProjectFlag::InjectOnlyTopPicks => set_readme_inject_only_top_picks(project, b),
    }
}

fn set_state_hide_pr(s: &mut ProjectSettingsState, b: bool)
    ensures *final(s) == (ProjectSettingsState { changelog_hide_pr_messages: b, ..*old(s) }),
{
    s.changelog_hide_pr_messages = b;
}

fn set_state_hide_bump(s: &mut ProjectSettingsState, b: bool)
    ensures *final(s) == (ProjectSettingsState { changelog_hide_bump_messages: b, ..*old(s) }),
{
    s.changelog_hide_bump_messages = b;
}

fn set_state_wrap(s: &mut ProjectSettingsState, b: bool)
    ensures *final(s) == (ProjectSettingsState { changelog_wrap_detailed_if_top_picks: b, ..*old(s) }),
{
    s.changelog_wrap_detailed_if_top_picks = b;
}

fn set_state_mini(s: &mut ProjectSettingsState, b: bool)
    ensures *final(s) == (ProjectSettingsState { changelog_mini_commit_hashes: b, ..*old(s) }),
{
    s.changelog_mini_commit_hashes = b;
}

fn set_state_mirror_summary(s: &mut ProjectSettingsState, b: bool)
    ensures *final(s) == (ProjectSettingsState { changelog_mirror_summary_to_root_changelog: b, ..*old(s) }),
{
    s.changelog_mirror_summary_to_root_changelog = b;
}

/// Flips a changelog switch in the pane and in the scope's settings.
fn toggle_mirrored(state: &mut ProjectSettingsState, project: &mut ProjectSettingsSource, flag: MirroredFlag) -> (next: bool)
    ensures
        next == !(match flag {
            MirroredFlag::HidePrMessages => old(state).changelog_hide_pr_messages,
            MirroredFlag::HideBumpMessages => old(state).changelog_hide_bump_messages,
            MirroredFlag::WrapDetailed => old(state).changelog_wrap_detailed_if_top_picks,
            MirroredFlag::MiniCommitHashes => old(state).changelog_mini_commit_hashes,
            MirroredFlag::MirrorSummary => old(state).changelog_mirror_summary_to_root_changelog,
        }),
        *final(state) == with_state_flag(*old(state), flag, next),
        *final(project) == with_flag(*old(project), match flag {
            MirroredFlag::HidePrMessages => ProjectFlag::HidePrMessages,
            MirroredFlag::HideBumpMessages => ProjectFlag::HideBumpMessages,
            MirroredFlag::WrapDetailed => ProjectFlag::WrapDetailed,
            MirroredFlag::MiniCommitHashes => ProjectFlag::MiniCommitHashes,
            MirroredFlag::MirrorSummary => ProjectFlag::MirrorSummary,
        }, next),
{
    match flag {
        MirroredFlag::HidePrMessages => {
            let next = !state.changelog_hide_pr_messages;
            set_state_hide_pr(state, next);
            set_project_flag(project, ProjectFlag::HidePrMessages, next);
            next
        },
        MirroredFlag::HideBumpMessages => {
            let next = !state.changelog_hide_bump_messages;
            set_state_hide_bump(state, next);
            set_project_flag(project, ProjectFlag::HideBumpMessages, next);
            next
        },
        MirroredFlag::WrapDetailed => {
            let next = !state.changelog_wrap_detailed_if_top_picks;
            set_state_wrap(state, next);
            set_project_flag(project, ProjectFlag::WrapDetailed, next);
            next
        },
        MirroredFlag::MiniCommitHashes => {
            let next = !state.changelog_mini_commit_hashes;
            set_state_mini(state, next);
            set_project_flag(project, ProjectFlag::MiniCommitHashes, next);
            next
        },
        MirroredFlag::MirrorSummary => {
            let next = !state.changelog_mirror_summary_to_root_changelog;
            set_state_mirror_summary(state, next);
            set_project_flag(project, ProjectFlag::MirrorSummary, next);
            next
        },
    }
}

/// Flips a scope setting that the pane shows straight from the settings.
fn toggle_project_flag(project: &mut ProjectSettingsSource, flag: ProjectFlag) -> (next: bool)
    ensures
        next == !(match flag {
            ProjectFlag::ComfyGitFlow => old(project).comfygitflow_enabled,
            ProjectFlag::ChangelogGeneration => old(project).changelog_enabled,
            ProjectFlag::ReleaseNow => old(project).release_now_enabled,
            ProjectFlag::QuickDownloads => old(project).quick_downloads_enabled,
            ProjectFlag::HidePrMessages => old(project).changelog_hide_pr_messages,
            ProjectFlag::HideBumpMessages => old(project).changelog_hide_bump_messages,
            ProjectFlag::WrapDetailed => old(project).changelog_wrap_detailed_if_top_picks,
            ProjectFlag::MiniCommitHashes => old(project).changelog_mini_commit_hashes,
            ProjectFlag::MirrorSummary => old(project).changelog_mirror_summary_to_root_changelog,
            ProjectFlag::ReadmeInjection => old(project).readme_injection_enabled,
            ProjectFlag::InjectOnlyTopPicks => old(project).readme_inject_only_top_picks,
        }),
        *final(project) == with_flag(*old(project), flag, next),
{
    let current = match flag {
        ProjectFlag::ComfyGitFlow => project.comfygitflow_enabled,
        ProjectFlag::ChangelogGeneration => project.changelog_enabled,
        ProjectFlag::ReleaseNow => project.release_now_enabled,
        ProjectFlag::QuickDownloads => project.quick_downloads_enabled,
        ProjectFlag::HidePrMessages => project.changelog_hide_pr_messages,
        ProjectFlag::HideBumpMessages => project.changelog_hide_bump_messages,
        ProjectFlag::WrapDetailed => project.changelog_wrap_detailed_if_top_picks,
        ProjectFlag::MiniCommitHashes => project.changelog_mini_commit_hashes,
        ProjectFlag::MirrorSummary => project.changelog_mirror_summary_to_root_changelog,
        ProjectFlag::ReadmeInjection => project.readme_injection_enabled,
        ProjectFlag::InjectOnlyTopPicks => project.readme_inject_only_top_picks,
    };
    set_project_flag(project, flag, !current);
    !current
}

fn set_custom_main_branch(project: &mut ProjectSettingsSource, enabled: bool, name: String)
    ensures
        *final(project) == (ProjectSettingsSource { has_custom_main_branch: enabled, custom_main_branch: name, ..*old(project) }),
{
    project.has_custom_main_branch = enabled;
    project.custom_main_branch = name;
}

fn set_alias_enabled(project: &mut ProjectSettingsSource, enabled: bool)
    ensures
        *final(project) == (ProjectSettingsSource {
            advanced_alias: AdvancedAliasSettings { enabled, ..old(project).advanced_alias },
            ..*old(project)
        }),
{
    project.advanced_alias.enabled = enabled;
}

fn set_state_alias_enabled(state: &mut ProjectSettingsState, enabled: bool)
    ensures
        *final(state) == (ProjectSettingsState {
            advanced_alias_enabled: enabled,
            alias_custom_draft_active: if enabled { old(state).alias_custom_draft_active } else { false },
            ..*old(state)
        }),
{
    state.advanced_alias_enabled = enabled;
    if !enabled {
        state.alias_custom_draft_active = false;
    }
}

fn set_inject_depth(project: &mut ProjectSettingsSource, depth: ReadmeInjectDepth)
    ensures
        *final(project) == (ProjectSettingsSource { readme_inject_depth: depth, ..*old(project) }),
{
    project.readme_inject_depth = depth;
}

fn set_focus(state: &mut ProjectSettingsState, focus: ProjectSettingsFocus)
    ensures
        *final(state) == (ProjectSettingsState { focus, ..*old(state) }),
{
    state.focus = focus;
}

pub open spec fn is_scope_switch(f: ProjectSettingsFocus) -> bool {
    match f {
        ProjectSettingsFocus::ComfyGitFlowEnabled | ProjectSettingsFocus::ChangelogEnabled
        | ProjectSettingsFocus::ReleaseNowEnabled | ProjectSettingsFocus::QuickDownloadsEnabled
        | ProjectSettingsFocus::ReadmeInjectionEnabled | ProjectSettingsFocus::ReadmeInjectOnlyTopPicks => true,
        _ => false,
    }
}

pub open spec fn is_mirrored_switch(f: ProjectSettingsFocus) -> bool {
    match f {
        ProjectSettingsFocus::ChangelogHidePrMessages | ProjectSettingsFocus::ChangelogHideBumpMessages
        | ProjectSettingsFocus::ChangelogWrapDetailedIfTopPicks | ProjectSettingsFocus::ChangelogMiniCommitHashes
        | ProjectSettingsFocus::ChangelogMirrorSummaryToRootChangelog => true,
        _ => false,
    }
}

fn scope_switch(f: ProjectSettingsFocus) -> (r: bool)
    ensures
        r == is_scope_switch(f),
{
    match f {
        ProjectSettingsFocus::ComfyGitFlowEnabled | ProjectSettingsFocus::ChangelogEnabled
        | ProjectSettingsFocus::ReleaseNowEnabled | ProjectSettingsFocus::QuickDownloadsEnabled
        | ProjectSettingsFocus::ReadmeInjectionEnabled | ProjectSettingsFocus::ReadmeInjectOnlyTopPicks => true,
        _ => false,
    }
}

fn mirrored_switch(f: ProjectSettingsFocus) -> (r: bool)
    ensures
        r == is_mirrored_switch(f),
{
    match f {
        ProjectSettingsFocus::ChangelogHidePrMessages | ProjectSettingsFocus::ChangelogHideBumpMessages
        | ProjectSettingsFocus::ChangelogWrapDetailedIfTopPicks | ProjectSettingsFocus::ChangelogMiniCommitHashes
        | ProjectSettingsFocus::ChangelogMirrorSummaryToRootChangelog => true,
        _ => false,
    }
}

#[verifier::spinoff_prover]
fn toggle_scope_switch(
    state: &mut ProjectSettingsState,
    tab: &mut ProjectSettingsTab,
    project: &mut ProjectSettingsSource,
) -> (change: Option<SettingsChange>)
    requires
        old(project).wf(),
        is_scope_switch(old(state).focus),
    ensures
        change == toggle_change(old(state).focus, *old(project), *old(state)),
        *final(project) == toggled_project(old(state).focus, *old(project), *old(state)),
        final(project).wf(),
        *final(tab) == toggled_tab(old(state).focus, *old(project), *old(state), *old(tab)),
        same_but_policy_labels(toggled_flags(old(state).focus, *old(project), *old(state)), *final(state)),
        change != Some(SettingsChange::QuickDownloadsPosition) ==> final(state).quick_downloads_position == old(state).quick_downloads_position,
        change != Some(SettingsChange::PostMergePolicy) ==> final(state).post_merge_source_branch == old(state).post_merge_source_branch,
        change != Some(SettingsChange::MirrorPolicy) ==> final(state).mirror_sync_after_merge == old(state).mirror_sync_after_merge,
        change == Some(SettingsChange::QuickDownloadsPosition) ==> final(state).quick_downloads_position@ == final(project).quick_downloads_position.label_spec(),
        change == Some(SettingsChange::PostMergePolicy) ==> final(state).post_merge_source_branch@ == final(project).post_merge_source_branch.label_spec(),
        change == Some(SettingsChange::MirrorPolicy) ==> final(state).mirror_sync_after_merge@ == final(project).mirror_sync_after_merge.label_spec(),
{
    match state.focus {
        ProjectSettingsFocus::ComfyGitFlowEnabled => Some(SettingsChange::ComfyGitFlow(toggle_project_flag(project, ProjectFlag::ComfyGitFlow))),
        ProjectSettingsFocus::ChangelogEnabled => Some(SettingsChange::ChangelogGeneration(toggle_project_flag(project, ProjectFlag::ChangelogGeneration))),
        ProjectSettingsFocus::ReleaseNowEnabled => {
            let enabled = toggle_project_flag(project, ProjectFlag::ReleaseNow);
            if !enabled && *tab == ProjectSettingsTab::RlsQd {
                *tab = ProjectSettingsTab::Distro;
            }
            Some(SettingsChange::ReleaseNow(enabled))
        },
        ProjectSettingsFocus::QuickDownloadsEnabled => Some(SettingsChange::QuickDownloads(toggle_project_flag(project, ProjectFlag::QuickDownloads))),
        ProjectSettingsFocus::ReadmeInjectionEnabled => Some(SettingsChange::ReadmeInjection(toggle_project_flag(project, ProjectFlag::ReadmeInjection))),
        _ => Some(SettingsChange::InjectOnlyTopPicks(toggle_project_flag(project, ProjectFlag::InjectOnlyTopPicks))),
    }
}

#[verifier::spinoff_prover]
fn toggle_mirrored_switch(
    state: &mut ProjectSettingsState,
    tab: &mut ProjectSettingsTab,
    project: &mut ProjectSettingsSource,
) -> (change: Option<SettingsChange>)
    requires
        old(project).wf(),
        is_mirrored_switch(old(state).focus),
    ensures
        change == toggle_change(old(state).focus, *old(project), *old(state)),
        *final(project) == toggled_project(old(state).focus, *old(project), *old(state)),
        final(project).wf(),
        *final(tab) == toggled_tab(old(state).focus, *old(project), *old(state), *old(tab)),
        same_but_policy_labels(toggled_flags(old(state).focus, *old(project), *old(state)), *final(state)),
        change != Some(SettingsChange::QuickDownloadsPosition) ==> final(state).quick_downloads_position == old(state).quick_downloads_position,
        change != Some(SettingsChange::PostMergePolicy) ==> final(state).post_merge_source_branch == old(state).post_merge_source_branch,
        change != Some(SettingsChange::MirrorPolicy) ==> final(state).mirror_sync_after_merge == old(state).mirror_sync_after_merge,
        change == Some(SettingsChange::QuickDownloadsPosition) ==> final(state).quick_downloads_position@ == final(project).quick_downloads_position.label_spec(),
        change == Some(SettingsChange::PostMergePolicy) ==> final(state).post_merge_source_branch@ == final(project).post_merge_source_branch.label_spec(),
        change == Some(SettingsChange::MirrorPolicy) ==> final(state).mirror_sync_after_merge@ == final(project).mirror_sync_after_merge.label_spec(),
{
    match state.focus {
        ProjectSettingsFocus::ChangelogHidePrMessages => Some(SettingsChange::HidePrMessages(toggle_mirrored(state, project, MirroredFlag::HidePrMessages))),
        ProjectSettingsFocus::ChangelogHideBumpMessages => Some(SettingsChange::HideBumpMessages(toggle_mirrored(state, project, MirroredFlag::HideBumpMessages))),
        ProjectSettingsFocus::ChangelogWrapDetailedIfTopPicks => Some(SettingsChange::WrapDetailed(toggle_mirrored(state, project, MirroredFlag::WrapDetailed))),
        ProjectSettingsFocus::ChangelogMiniCommitHashes => Some(SettingsChange::MiniCommitHashes(toggle_mirrored(state, project, MirroredFlag::MiniCommitHashes))),
        _ => Some(SettingsChange::MirrorSummary(toggle_mirrored(state, project, MirroredFlag::MirrorSummary))),
    }
}

pub open spec fn is_policy_focus(f: ProjectSettingsFocus) -> bool {
    f == ProjectSettingsFocus::QuickDownloadsPosition || f == ProjectSettingsFocus::PostMergeSourceBranch
        || f == ProjectSettingsFocus::MirrorSyncAfterMerge
}

fn policy_focus(f: ProjectSettingsFocus) -> (r: bool)
    ensures
        r == is_policy_focus(f),
{
    f == ProjectSettingsFocus::QuickDownloadsPosition || f == ProjectSettingsFocus::PostMergeSourceBranch
        || f == ProjectSettingsFocus::MirrorSyncAfterMerge
}

#[verifier::spinoff_prover]
fn toggle_policy_control(
    state: &mut ProjectSettingsState,
    tab: &mut ProjectSettingsTab,
    project: &mut ProjectSettingsSource,
) -> (change: Option<SettingsChange>)
    requires
        old(project).wf(),
        !is_scope_switch(old(state).focus),
        !is_mirrored_switch(old(state).focus),
        is_policy_focus(old(state).focus),
    ensures
        change == toggle_change(old(state).focus, *old(project), *old(state)),
        *final(project) == toggled_project(old(state).focus, *old(project), *old(state)),
        final(project).wf(),
        *final(tab) == toggled_tab(old(state).focus, *old(project), *old(state), *old(tab)),
        same_but_policy_labels(toggled_flags(old(state).focus, *old(project), *old(state)), *final(state)),
        change != Some(SettingsChange::QuickDownloadsPosition) ==> final(state).quick_downloads_position == old(state).quick_downloads_position,
        change != Some(SettingsChange::PostMergePolicy) ==> final(state).post_merge_source_branch == old(state).post_merge_source_branch,
        change != Some(SettingsChange::MirrorPolicy) ==> final(state).mirror_sync_after_merge == old(state).mirror_sync_after_merge,
        change == Some(SettingsChange::QuickDownloadsPosition) ==> final(state).quick_downloads_position@ == final(project).quick_downloads_position.label_spec(),
        change == Some(SettingsChange::PostMergePolicy) ==> final(state).post_merge_source_branch@ == final(project).post_merge_source_branch.label_spec(),
        change == Some(SettingsChange::MirrorPolicy) ==> final(state).mirror_sync_after_merge@ == final(project).mirror_sync_after_merge.label_spec(),
{
    match state.focus {
        ProjectSettingsFocus::QuickDownloadsPosition => Some(adjust_policy(state, project, PolicyKind::QuickDownloadsPosition, 1)),
        ProjectSettingsFocus::PostMergeSourceBranch => Some(adjust_policy(state, project, PolicyKind::PostMergeSourceBranch, 1)),
        _ => Some(adjust_policy(state, project, PolicyKind::MirrorSyncAfterMerge, 1)),
    }
}

#[verifier::spinoff_prover]
fn toggle_named_switch(
    state: &mut ProjectSettingsState,
    tab: &mut ProjectSettingsTab,
    project: &mut ProjectSettingsSource,
) -> (change: Option<SettingsChange>)
    requires
        old(project).wf(),
        !is_scope_switch(old(state).focus),
        !is_mirrored_switch(old(state).focus),
        !is_policy_focus(old(state).focus),
        old(state).focus == ProjectSettingsFocus::CustomMainBranchEnabled || old(state).focus == ProjectSettingsFocus::AdvancedAliasEnabled,
    ensures
        change == toggle_change(old(state).focus, *old(project), *old(state)),
        *final(project) == toggled_project(old(state).focus, *old(project), *old(state)),
        final(project).wf(),
        *final(tab) == toggled_tab(old(state).focus, *old(project), *old(state), *old(tab)),
        same_but_policy_labels(toggled_flags(old(state).focus, *old(project), *old(state)), *final(state)),
        change != Some(SettingsChange::QuickDownloadsPosition) ==> final(state).quick_downloads_position == old(state).quick_downloads_position,
        change != Some(SettingsChange::PostMergePolicy) ==> final(state).post_merge_source_branch == old(state).post_merge_source_branch,
        change != Some(SettingsChange::MirrorPolicy) ==> final(state).mirror_sync_after_merge == old(state).mirror_sync_after_merge,
        change == Some(SettingsChange::QuickDownloadsPosition) ==> final(state).quick_downloads_position@ == final(project).quick_downloads_position.label_spec(),
        change == Some(SettingsChange::PostMergePolicy) ==> final(state).post_merge_source_branch@ == final(project).post_merge_source_branch.label_spec(),
        change == Some(SettingsChange::MirrorPolicy) ==> final(state).mirror_sync_after_merge@ == final(project).mirror_sync_after_merge.label_spec(),
{
    if state.focus == ProjectSettingsFocus::CustomMainBranchEnabled {
        let next = !project.has_custom_main_branch;
        let name = state.custom_main_branch_name.clone();
        set_custom_main_branch(project, next, name);
        Some(SettingsChange::CustomMainBranch(next))
    } else {
        let next = !state.advanced_alias_enabled;
        set_state_alias_enabled(state, next);
        set_alias_enabled(project, next);
        Some(SettingsChange::AdvancedAlias(next))
    }
}

#[verifier::spinoff_prover]
fn toggle_inject_depth(
    state: &mut ProjectSettingsState,
    tab: &mut ProjectSettingsTab,
    project: &mut ProjectSettingsSource,
) -> (change: Option<SettingsChange>)
    requires
        old(project).wf(),
        !is_scope_switch(old(state).focus),
        !is_mirrored_switch(old(state).focus),
        !is_policy_focus(old(state).focus),
        old(state).focus != ProjectSettingsFocus::CustomMainBranchEnabled,
        old(state).focus != ProjectSettingsFocus::AdvancedAliasEnabled,
    ensures
        change == toggle_change(old(state).focus, *old(project), *old(state)),
        *final(project) == toggled_project(old(state).focus, *old(project), *old(state)),
        final(project).wf(),
        *final(tab) == toggled_tab(old(state).focus, *old(project), *old(state), *old(tab)),
        same_but_policy_labels(toggled_flags(old(state).focus, *old(project), *old(state)), *final(state)),
        change != Some(SettingsChange::QuickDownloadsPosition) ==> final(state).quick_downloads_position == old(state).quick_downloads_position,
        change != Some(SettingsChange::PostMergePolicy) ==> final(state).post_merge_source_branch == old(state).post_merge_source_branch,
        change != Some(SettingsChange::MirrorPolicy) ==> final(state).mirror_sync_after_merge == old(state).mirror_sync_after_merge,
        change == Some(SettingsChange::QuickDownloadsPosition) ==> final(state).quick_downloads_position@ == final(project).quick_downloads_position.label_spec(),
        change == Some(SettingsChange::PostMergePolicy) ==> final(state).post_merge_source_branch@ == final(project).post_merge_source_branch.label_spec(),
        change == Some(SettingsChange::MirrorPolicy) ==> final(state).mirror_sync_after_merge@ == final(project).mirror_sync_after_merge.label_spec(),
{
    match readme_inject_depth_from_focus(state.focus) {
        Some(depth) => {
            set_inject_depth(project, depth);
            set_focus(state, crate::project_settings::focus_for_readme_inject_depth(depth));
            Some(SettingsChange::InjectDepth(depth))
        },
        None => None,
    }
}

#[verifier::spinoff_prover]
fn toggle_other_control(
    state: &mut ProjectSettingsState,
    tab: &mut ProjectSettingsTab,
    project: &mut ProjectSettingsSource,
) -> (change: Option<SettingsChange>)
    requires
        old(project).wf(),
        !is_scope_switch(old(state).focus),
        !is_mirrored_switch(old(state).focus),
    ensures
        change == toggle_change(old(state).focus, *old(project), *old(state)),
        *final(project) == toggled_project(old(state).focus, *old(project), *old(state)),
        final(project).wf(),
        *final(tab) == toggled_tab(old(state).focus, *old(project), *old(state), *old(tab)),
        same_but_policy_labels(toggled_flags(old(state).focus, *old(project), *old(state)), *final(state)),
        change != Some(SettingsChange::QuickDownloadsPosition) ==> final(state).quick_downloads_position == old(state).quick_downloads_position,
        change != Some(SettingsChange::PostMergePolicy) ==> final(state).post_merge_source_branch == old(state).post_merge_source_branch,
        change != Some(SettingsChange::MirrorPolicy) ==> final(state).mirror_sync_after_merge == old(state).mirror_sync_after_merge,
        change == Some(SettingsChange::QuickDownloadsPosition) ==> final(state).quick_downloads_position@ == final(project).quick_downloads_position.label_spec(),
        change == Some(SettingsChange::PostMergePolicy) ==> final(state).post_merge_source_branch@ == final(project).post_merge_source_branch.label_spec(),
        change == Some(SettingsChange::MirrorPolicy) ==> final(state).mirror_sync_after_merge@ == final(project).mirror_sync_after_merge.label_spec(),
{
    if policy_focus(state.focus) {
        toggle_policy_control(state, tab, project)
    } else if state.focus == ProjectSettingsFocus::CustomMainBranchEnabled || state.focus == ProjectSettingsFocus::AdvancedAliasEnabled {
        toggle_named_switch(state, tab, project)
    } else {
        toggle_inject_depth(state, tab, project)
    }
}

#[verifier::spinoff_prover]
fn apply_toggle(
    state: &mut ProjectSettingsState,
    tab: &mut ProjectSettingsTab,
    project: &mut ProjectSettingsSource,
) -> (change: Option<SettingsChange>)
    requires
        old(project).wf(),
    ensures
        change == toggle_change(old(state).focus, *old(project), *old(state)),
        *final(project) == toggled_project(old(state).focus, *old(project), *old(state)),
        final(project).wf(),
        *final(tab) == toggled_tab(old(state).focus, *old(project), *old(state), *old(tab)),
        same_but_policy_labels(toggled_flags(old(state).focus, *old(project), *old(state)), *final(state)),
        change != Some(SettingsChange::QuickDownloadsPosition) ==> final(state).quick_downloads_position == old(state).quick_downloads_position,
        change != Some(SettingsChange::PostMergePolicy) ==> final(state).post_merge_source_branch == old(state).post_merge_source_branch,
        change != Some(SettingsChange::MirrorPolicy) ==> final(state).mirror_sync_after_merge == old(state).mirror_sync_after_merge,
        change == Some(SettingsChange::QuickDownloadsPosition) ==> final(state).quick_downloads_position@ == final(project).quick_downloads_position.label_spec(),
        change == Some(SettingsChange::PostMergePolicy) ==> final(state).post_merge_source_branch@ == final(project).post_merge_source_branch.label_spec(),
        change == Some(SettingsChange::MirrorPolicy) ==> final(state).mirror_sync_after_merge@ == final(project).mirror_sync_after_merge.label_spec(),
{
    if scope_switch(state.focus) {
        toggle_scope_switch(state, tab, project)
    } else if mirrored_switch(state.focus) {
        toggle_mirrored_switch(state, tab, project)
    } else {
        toggle_other_control(state, tab, project)
    }
}

/// Toggles the control the focus is on (a checkbox flips, a policy steps to
/// its next option, an inject depth is selected), then keeps the focus on a
/// field the tab still shows. Returns what changed; when the focus is on no
/// control nothing changes and `None` comes back.
pub fn toggle_focused_project_settings_control(
    state: &mut ProjectSettingsState,
    tab: &mut ProjectSettingsTab,
    project: &mut ProjectSettingsSource,
    scope_index: usize,
) -> (change: Option<SettingsChange>)
    requires
        old(project).wf(),
    ensures
        change == toggle_change(old(state).focus, *old(project), *old(state)),
        *final(project) == toggled_project(old(state).focus, *old(project), *old(state)),
        final(project).wf(),
        *final(tab) == toggled_tab(old(state).focus, *old(project), *old(state), *old(tab)),
        change is None ==> *final(state) == *old(state),
        change is Some ==> same_but_policy_labels(
            focus_made_visible(*final(tab), *final(project), toggled_flags(old(state).focus, *old(project), *old(state))),
            *final(state),
        ),
        change != Some(SettingsChange::QuickDownloadsPosition) ==> final(state).quick_downloads_position == old(state).quick_downloads_position,
        change != Some(SettingsChange::PostMergePolicy) ==> final(state).post_merge_source_branch == old(state).post_merge_source_branch,
        change != Some(SettingsChange::MirrorPolicy) ==> final(state).mirror_sync_after_merge == old(state).mirror_sync_after_merge,
        change == Some(SettingsChange::QuickDownloadsPosition) ==> final(state).quick_downloads_position@ == final(project).quick_downloads_position.label_spec(),
        change == Some(SettingsChange::PostMergePolicy) ==> final(state).post_merge_source_branch@ == final(project).post_merge_source_branch.label_spec(),
        change == Some(SettingsChange::MirrorPolicy) ==> final(state).mirror_sync_after_merge@ == final(project).mirror_sync_after_merge.label_spec(),
{
    let change = apply_toggle(state, tab, project);
    if change.is_some() {
        let ghost flags = toggled_flags(old(state).focus, *old(project), *old(state));
        let ghost before = *state;
        proof {
            assert(visible_fields_spec(*tab, *project, before) == visible_fields_spec(*tab, *project, flags));
        }
        state.ensure_focus_visible(*tab, project, scope_index);
    }
    change
}

} // verus!
