//! Which help page the `?` key opens, and when `?` is typed into a text
//! input instead.

use vstd::prelude::*;
use crate::project_settings::ProjectSettingsTab;

verus! {

/// The top-level screens.
#[derive(Clone, Copy, Debug, PartialEq, Eq, Structural)]
pub enum Screen {
    Dashboard,
    Wizard,
    UiSettings,
}

/// The dashboard pane holding the focus.
#[derive(Clone, Copy, Debug, PartialEq, Eq, Structural)]
pub enum DashboardPane {
    Projects,
    Overview,
}

/// The tabs of the dashboard's overview pane.
#[derive(Clone, Copy, Debug, PartialEq, Eq, Structural)]
pub enum OverviewTab {
    Overview,
    RecentChanges,
    ProjectDetail,
    ProjectSettings,
}

/// What the Release-NOW dialog is showing.
#[derive(Clone, Copy, Debug, PartialEq, Eq, Structural)]
pub enum ReleaseNowPhase {
    Configure,
    Warning,
    Running,
    Completed,
}

/// What the changelog preview dialog previews.
#[derive(Clone, Copy, Debug, PartialEq, Eq, Structural)]
pub enum ChangelogPreviewKind {
    /// The changelog of a bump workflow, with an editable release message.
    Workflow,
    /// A custom tag range.
    CustomRange,
    /// Read-only.
    Readonly,
}

/// The help pages.
#[derive(Clone, Copy, Debug, PartialEq, Eq, Structural)]
pub enum HelpContext {
    ModalSnif,
    ModalBrowser,
    ModalReleaseNowNotes,
    ModalTopPicksEditor,
    ModalReleaseNowRunning,
    ModalReleaseNowCompleted,
    ModalReleaseNowWarning,
    ModalReleaseNowConfigure,
    ModalDeleteConfirm,
    ModalCommitRename,
    ModalProjectEdit,
    ModalTagAnnotation,
    ModalMainBranchWarning,
    ModalStdChangelogSubBranch,
    ModalTag,
    ModalChangelogPreviewWorkflow,
    ModalChangelogPreviewCustomRange,
    ModalChangelogPreviewReadonly,
    ModalRecentChanges,
    ModalOverviewBumpWarning,
    ModalOverviewBumpKind,
    ModalOverviewBranchBump,
    ModalOverviewBumpWorkflow,
    ModalBump,
    ModalProgress,
    ScreenWizard,
    ScreenUiSettings,
    DashboardProjects,
    OverviewTiles,
    OverviewRecentEmbedded,
    OverviewProjectDetail,
    ProjectSettingsGeneral,
    ProjectSettingsGit,
    ProjectSettingsChangelogs,
    ProjectSettingsDistro,
    ProjectSettingsRlsQd,
}

/// Which dialogs are open, and where the dashboard is.
#[derive(Clone, Copy, Debug, PartialEq, Eq, Structural)]
pub struct HelpInputs {
    pub snif: bool,
    pub browser: bool,
    pub release_now_notes: bool,
    pub top_picks_editor: bool,
    pub release_now: Option<ReleaseNowPhase>,
    pub delete_confirmation: bool,
    pub commit_rename: bool,
    pub project_edit: bool,
    pub tag_annotation: bool,
    pub main_branch_warning: bool,
    pub std_changelog_sub_branch: bool,
    pub tag: bool,
    pub changelog_preview: Option<ChangelogPreviewKind>,
    pub recent_changes: bool,
    pub overview_bump_warning: bool,
    pub overview_bump_kind: bool,
    pub overview_branch_bump: bool,
    pub overview_bump_workflow: bool,
    pub bump: bool,
    pub progress: bool,
    pub screen: Screen,
    pub dashboard_focus: DashboardPane,
    pub overview_tab: OverviewTab,
    pub project_settings_tab: ProjectSettingsTab,
}

/// The help page of the dashboard's overview pane.
pub open spec fn overview_help_spec(tab: OverviewTab, settings_tab: ProjectSettingsTab) -> HelpContext {
    match tab {
        OverviewTab::Overview => HelpContext::OverviewTiles,
        OverviewTab::RecentChanges => HelpContext::OverviewRecentEmbedded,
        OverviewTab::ProjectDetail => HelpContext::OverviewProjectDetail,
        OverviewTab::ProjectSettings => match settings_tab {
            ProjectSettingsTab::General => HelpContext::ProjectSettingsGeneral,
            ProjectSettingsTab::Git => HelpContext::ProjectSettingsGit,
            ProjectSettingsTab::Changelogs => HelpContext::ProjectSettingsChangelogs,
            ProjectSettingsTab::Distro => HelpContext::ProjectSettingsDistro,
            ProjectSettingsTab::RlsQd => HelpContext::ProjectSettingsRlsQd,
        },
    }
}

/// The help page for the frontmost dialog, in the order dialogs stack; with
/// none open, the page of the screen, pane and tab in view.
pub open spec fn help_context_spec(h: HelpInputs) -> HelpContext {
    if h.snif {
        HelpContext::ModalSnif
    } else if h.browser {
        HelpContext::ModalBrowser
    } else if h.release_now_notes {
        HelpContext::ModalReleaseNowNotes
    } else if h.top_picks_editor {
        HelpContext::ModalTopPicksEditor
    } else if h.release_now is Some {
        match h.release_now->0 {
            ReleaseNowPhase::Running => HelpContext::ModalReleaseNowRunning,
            ReleaseNowPhase::Completed => HelpContext::ModalReleaseNowCompleted,
            ReleaseNowPhase::Warning => HelpContext::ModalReleaseNowWarning,
            ReleaseNowPhase::Configure => HelpContext::ModalReleaseNowConfigure,
        }
    } else if h.delete_confirmation {
        HelpContext::ModalDeleteConfirm
    } else if h.commit_rename {
        HelpContext::ModalCommitRename
    } else if h.project_edit {
        HelpContext::ModalProjectEdit
    } else if h.tag_annotation {
        HelpContext::ModalTagAnnotation
    } else if h.main_branch_warning {
        HelpContext::ModalMainBranchWarning
    } else if h.std_changelog_sub_branch {
        HelpContext::ModalStdChangelogSubBranch
    } else if h.tag {
        HelpContext::ModalTag
    } else if h.changelog_preview is Some {
        match h.changelog_preview->0 {
            ChangelogPreviewKind::Workflow => HelpContext::ModalChangelogPreviewWorkflow,
            ChangelogPreviewKind::CustomRange => HelpContext::ModalChangelogPreviewCustomRange,
            ChangelogPreviewKind::Readonly => HelpContext::ModalChangelogPreviewReadonly,
        }
    } else if h.recent_changes {
        HelpContext::ModalRecentChanges
    } else if h.overview_bump_warning {
        HelpContext::ModalOverviewBumpWarning
    } else if h.overview_bump_kind {
        HelpContext::ModalOverviewBumpKind
    } else if h.overview_branch_bump {
        HelpContext::ModalOverviewBranchBump
    } else if h.overview_bump_workflow {
        HelpContext::ModalOverviewBumpWorkflow
    } else if h.bump {
        HelpContext::ModalBump
    } else if h.progress {
        HelpContext::ModalProgress
    } else {
        match h.screen {
            Screen::Wizard => HelpContext::ScreenWizard,
            Screen::UiSettings => HelpContext::ScreenUiSettings,
            Screen::Dashboard => match h.dashboard_focus {
                DashboardPane::Projects => HelpContext::DashboardProjects,
                DashboardPane::Overview => overview_help_spec(h.overview_tab, h.project_settings_tab),
            },
        }
    }
}

pub fn dashboard_overview_help_context(tab: OverviewTab, settings_tab: ProjectSettingsTab) -> (c: HelpContext)
    ensures
        c == overview_help_spec(tab, settings_tab),
{
    match tab {
        OverviewTab::Overview => HelpContext::OverviewTiles,
        OverviewTab::RecentChanges => HelpContext::OverviewRecentEmbedded,
        OverviewTab::ProjectDetail => HelpContext::OverviewProjectDetail,
        OverviewTab::ProjectSettings => match settings_tab {
            ProjectSettingsTab::General => HelpContext::ProjectSettingsGeneral,
            ProjectSettingsTab::Git => HelpContext::ProjectSettingsGit,
            ProjectSettingsTab::Changelogs => HelpContext::ProjectSettingsChangelogs,
            ProjectSettingsTab::Distro => HelpContext::ProjectSettingsDistro,
            ProjectSettingsTab::RlsQd => HelpContext::ProjectSettingsRlsQd,
        },
    }
}

/// The help page `?` opens.
pub fn resolve_help_context(h: &HelpInputs) -> (c: HelpContext)
    ensures
        c == help_context_spec(*h),
{
    if h.snif {
        return HelpContext::ModalSnif;
    }
    if h.browser {
        return HelpContext::ModalBrowser;
    }
    if h.release_now_notes {
        return HelpContext::ModalReleaseNowNotes;
    }
    if h.top_picks_editor {
        return HelpContext::ModalTopPicksEditor;
    }
    if let Some(phase) = h.release_now {
        return match phase {
            ReleaseNowPhase::Running => HelpContext::ModalReleaseNowRunning,
            ReleaseNowPhase::Completed => HelpContext::ModalReleaseNowCompleted,
            ReleaseNowPhase::Warning => HelpContext::ModalReleaseNowWarning,
            ReleaseNowPhase::Configure => HelpContext::ModalReleaseNowConfigure,
        };
    }
    if h.delete_confirmation {
        return HelpContext::ModalDeleteConfirm;
    }
    if h.commit_rename {
        return HelpContext::ModalCommitRename;
    }
    if h.project_edit {
        return HelpContext::ModalProjectEdit;
    }
    if h.tag_annotation {
        return HelpContext::ModalTagAnnotation;
    }
    if h.main_branch_warning {
        return HelpContext::ModalMainBranchWarning;
    }
    if h.std_changelog_sub_branch {
        return HelpContext::ModalStdChangelogSubBranch;
    }
    if h.tag {
        return HelpContext::ModalTag;
    }
    if let Some(kind) = h.changelog_preview {
        return match kind {
            ChangelogPreviewKind::Workflow => HelpContext::ModalChangelogPreviewWorkflow,
            ChangelogPreviewKind::CustomRange => HelpContext::ModalChangelogPreviewCustomRange,
            ChangelogPreviewKind::Readonly => HelpContext::ModalChangelogPreviewReadonly,
        };
    }
    if h.recent_changes {
        return HelpContext::ModalRecentChanges;
    }
    if h.overview_bump_warning {
        return HelpContext::ModalOverviewBumpWarning;
    }
    if h.overview_bump_kind {
        return HelpContext::ModalOverviewBumpKind;
    }
    if h.overview_branch_bump {
        return HelpContext::ModalOverviewBranchBump;
    }
    if h.overview_bump_workflow {
        return HelpContext::ModalOverviewBumpWorkflow;
    }
    if h.bump {
        return HelpContext::ModalBump;
    }
    if h.progress {
        return HelpContext::ModalProgress;
    }
    match h.screen {
        Screen::Wizard => HelpContext::ScreenWizard,
        Screen::UiSettings => HelpContext::ScreenUiSettings,
        Screen::Dashboard => match h.dashboard_focus {
            DashboardPane::Projects => HelpContext::DashboardProjects,
            DashboardPane::Overview => dashboard_overview_help_context(h.overview_tab, h.project_settings_tab),
        },
    }
}

/// Which text inputs could take a typed `?`.
#[derive(Clone, Copy, Debug, PartialEq, Eq, Structural)]
pub struct TextInputState {
    pub commit_rename_open: bool,
    pub tag_annotation_open: bool,
    pub release_now_notes_open: bool,
    pub top_picks_editor_open: bool,
    /// A changelog preview of a bump workflow is open (its release message is editable).
    pub workflow_preview_open: bool,
    pub snif_open: bool,
    pub tag_open: bool,
    /// The branch-bump dialog is open with its name input enabled.
    pub branch_bump_input_enabled: bool,
    pub screen: Screen,
    pub overview_tab: OverviewTab,
    /// The wizard's focused field takes text.
    pub wizard_focus_accepts_text: bool,
    /// The project editor is open on a field that takes text.
    pub project_edit_accepts_text: bool,
    /// The Project Settings pane's focused field takes text.
    pub project_settings_captures_text: bool,
}

/// `?` goes into a text input rather than opening help.
pub open spec fn help_blocked_spec(t: TextInputState) -> bool {
    ||| t.commit_rename_open
    ||| t.tag_annotation_open
    ||| t.release_now_notes_open
    ||| t.top_picks_editor_open
    ||| t.workflow_preview_open
    ||| t.snif_open
    ||| t.tag_open
    ||| t.branch_bump_input_enabled
    ||| (t.screen == Screen::Wizard && t.wizard_focus_accepts_text)
    ||| t.project_edit_accepts_text
    ||| (t.screen == Screen::Dashboard && t.overview_tab == OverviewTab::ProjectSettings && t.project_settings_captures_text)
}

pub fn help_blocked_by_text_input(t: &TextInputState) -> (r: bool)
    ensures
        r == help_blocked_spec(*t),
{
    t.commit_rename_open || t.tag_annotation_open || t.release_now_notes_open || t.top_picks_editor_open
        || t.workflow_preview_open || t.snif_open || t.tag_open || t.branch_bump_input_enabled
        || (t.screen == Screen::Wizard && t.wizard_focus_accepts_text) || t.project_edit_accepts_text
        || (t.screen == Screen::Dashboard && t.overview_tab == OverviewTab::ProjectSettings
            && t.project_settings_captures_text)
}

/// No dialog is open.
pub open spec fn no_help_dialog(h: HelpInputs) -> bool {
    !h.snif && !h.browser && !h.release_now_notes && !h.top_picks_editor && h.release_now is None
        && !h.delete_confirmation && !h.commit_rename && !h.project_edit && !h.tag_annotation
        && !h.main_branch_warning && !h.std_changelog_sub_branch && !h.tag && h.changelog_preview is None
        && !h.recent_changes && !h.overview_bump_warning && !h.overview_bump_kind && !h.overview_branch_bump
        && !h.overview_bump_workflow && !h.bump && !h.progress
}

/// With no dialog open, the help is the page of what is in view: the
/// wizard, the UI settings, the project list, or the overview tab (and, on
/// the Project Settings tab, its own tab's page); the splash's page wins
/// over everything, and the Release-NOW page follows the dialog's phase.
pub proof fn law_help_follows_what_is_in_view(h: HelpInputs)
    ensures
        h.snif ==> help_context_spec(h) == HelpContext::ModalSnif,
        no_help_dialog(h) && h.screen == Screen::Wizard ==> help_context_spec(h) == HelpContext::ScreenWizard,
        no_help_dialog(h) && h.screen == Screen::UiSettings ==> help_context_spec(h) == HelpContext::ScreenUiSettings,
        no_help_dialog(h) && h.screen == Screen::Dashboard && h.dashboard_focus == DashboardPane::Projects
            ==> help_context_spec(h) == HelpContext::DashboardProjects,
        no_help_dialog(h) && h.screen == Screen::Dashboard && h.dashboard_focus == DashboardPane::Overview
            && h.overview_tab == OverviewTab::Overview ==> help_context_spec(h) == HelpContext::OverviewTiles,
        no_help_dialog(h) && h.screen == Screen::Dashboard && h.dashboard_focus == DashboardPane::Overview
            && h.overview_tab == OverviewTab::ProjectSettings && h.project_settings_tab == ProjectSettingsTab::Git
            ==> help_context_spec(h) == HelpContext::ProjectSettingsGit,
        !h.snif && !h.browser && !h.release_now_notes && !h.top_picks_editor && h.release_now == Some(ReleaseNowPhase::Running)
            ==> help_context_spec(h) == HelpContext::ModalReleaseNowRunning,
        !h.snif && !h.browser && !h.release_now_notes && !h.top_picks_editor && h.release_now is None && h.delete_confirmation
            ==> help_context_spec(h) == HelpContext::ModalDeleteConfirm,
{
}

/// `?` is kept by a text input exactly when one that takes it is open or
/// focused: with none, help opens; any open editor keeps it.
pub proof fn law_text_inputs_keep_the_question_mark(t: TextInputState)
    ensures
        t.commit_rename_open || t.tag_annotation_open || t.release_now_notes_open || t.top_picks_editor_open
            || t.project_edit_accepts_text ==> help_blocked_spec(t),
        t.screen == Screen::Wizard && t.wizard_focus_accepts_text ==> help_blocked_spec(t),
        !t.commit_rename_open && !t.tag_annotation_open && !t.release_now_notes_open && !t.top_picks_editor_open
            && !t.workflow_preview_open && !t.snif_open && !t.tag_open && !t.branch_bump_input_enabled
            && !t.wizard_focus_accepts_text && !t.project_edit_accepts_text && !t.project_settings_captures_text
            ==> !help_blocked_spec(t),
        t.screen != Screen::Wizard && !t.commit_rename_open && !t.tag_annotation_open && !t.release_now_notes_open
            && !t.top_picks_editor_open && !t.workflow_preview_open && !t.snif_open && !t.tag_open
            && !t.branch_bump_input_enabled && !t.project_edit_accepts_text && !t.project_settings_captures_text
            ==> !help_blocked_spec(t),
{
}

} // verus!
