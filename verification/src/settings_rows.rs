//! The rows a Project Settings tab is laid out in, their heights, where the
//! focused field's row sits, and the scroll offset of the pane.

use vstd::prelude::*;
use crate::project_settings::{
    ProjectSettingsTab, ProjectSettingsFocus, ProjectSettingsSource, ProjectSettingsState,
    active_scope_name, active_scope_name_spec, active_scope_kind, active_scope_kind_spec,
    inject_depth_of, is_readme_inject_depth_field,
};
use crate::settings_inputs::input_text;
use crate::text::{concat_str, copy_string, trim, trimmed_string};

verus! {

/// How a text row is drawn.
#[derive(Clone, Copy, Debug, PartialEq, Eq, Structural)]
pub enum TextStyle {
    Plain,
    Bold,
    Dim,
    Warning,
}

/// The fixed and per-scope lines of text the tabs show.
#[derive(Clone, Copy, Debug, PartialEq, Eq, Structural)]
pub enum RowText {
    ToggleHint,
    NavigationHint,
    GitScopeLabel,
    PostMergePrompt,
    MirrorPrompt,
    MoreOptionsHint,
    SeeGeneralHint,
    ScopeHeading,
    BranchedScopeHint,
    SingleScopeHint,
    ScopeKindLine,
    ReleaseNowIntro,
    ReleaseNowPathsHint,
    ReleaseNowBrowseHint,
    QuickDownloadsIntro,
    QuickDownloadsPositionHint,
    QuickDownloadsRemoteHint,
}

/// One row of a settings tab.
#[derive(Clone, Copy, Debug, PartialEq, Eq, Structural)]
pub enum ProjectSettingsRow {
    Text(RowText),
    Spacer(u16),
    Checkbox(ProjectSettingsFocus),
    DualCheckbox(ProjectSettingsFocus, ProjectSettingsFocus),
    Path(ProjectSettingsFocus),
    InjectDepth,
    AliasCustom { index: u16 },
    AliasCustomDraft,
    AliasAddButton,
}

pub open spec fn row_height_spec(row: ProjectSettingsRow) -> nat {
    match row {
        ProjectSettingsRow::Text(_) => 1,
        ProjectSettingsRow::Spacer(h) => h as nat,
        ProjectSettingsRow::Checkbox(_) => 2,
        ProjectSettingsRow::DualCheckbox(_, _) => 2,
        ProjectSettingsRow::Path(_) => 3,
        ProjectSettingsRow::InjectDepth => 2,
        ProjectSettingsRow::AliasCustom { .. } | ProjectSettingsRow::AliasCustomDraft => 3,
        ProjectSettingsRow::AliasAddButton => 3,
    }
}

/// The field a row is selected by (a dual checkbox by its left box).
pub open spec fn row_focus_spec(row: ProjectSettingsRow) -> Option<ProjectSettingsFocus> {
    match row {
        ProjectSettingsRow::Checkbox(f) | ProjectSettingsRow::Path(f) => Some(f),
        ProjectSettingsRow::DualCheckbox(left, _) => Some(left),
        ProjectSettingsRow::InjectDepth => Some(ProjectSettingsFocus::ReadmeInjectDepthCurrentOnly),
        ProjectSettingsRow::AliasCustom { index } => Some(ProjectSettingsFocus::AliasCustomPath(index)),
        ProjectSettingsRow::AliasCustomDraft => Some(ProjectSettingsFocus::AliasCustomDraftName),
        ProjectSettingsRow::AliasAddButton => Some(ProjectSettingsFocus::AliasCustomAdd),
        _ => None,
    }
}

impl ProjectSettingsRow {
    pub fn height(&self) -> (h: u16)
        ensures
            h == row_height_spec(*self),
    {
        match self {
            ProjectSettingsRow::Text(_) => 1,
            ProjectSettingsRow::Spacer(height) => *height,
            ProjectSettingsRow::Checkbox(_) => 2,
            ProjectSettingsRow::DualCheckbox(_, _) => 2,
            ProjectSettingsRow::Path(_) => 3,
            ProjectSettingsRow::InjectDepth => 2,
            ProjectSettingsRow::AliasCustom { .. } | ProjectSettingsRow::AliasCustomDraft => 3,
            ProjectSettingsRow::AliasAddButton => 3,
        }
    }

    pub fn focus(&self) -> (f: Option<ProjectSettingsFocus>)
        ensures
            f == row_focus_spec(*self),
    {
        match self {
            ProjectSettingsRow::Checkbox(field) | ProjectSettingsRow::Path(field) => Some(*field),
            ProjectSettingsRow::DualCheckbox(left, _) => Some(*left),
            ProjectSettingsRow::InjectDepth => Some(ProjectSettingsFocus::ReadmeInjectDepthCurrentOnly),
            ProjectSettingsRow::AliasCustom { index } => Some(ProjectSettingsFocus::AliasCustomPath(*index)),
            ProjectSettingsRow::AliasCustomDraft => Some(ProjectSettingsFocus::AliasCustomDraftName),
            ProjectSettingsRow::AliasAddButton => Some(ProjectSettingsFocus::AliasCustomAdd),
            _ => None,
        }
    }
}

/// How a line of text is styled.
pub open spec fn row_text_style_spec(text: RowText) -> TextStyle {
    match text {
        RowText::GitScopeLabel | RowText::ScopeHeading => TextStyle::Bold,
        RowText::MoreOptionsHint | RowText::SeeGeneralHint => TextStyle::Dim,
        RowText::ReleaseNowPathsHint | RowText::QuickDownloadsIntro => TextStyle::Warning,
        _ => TextStyle::Plain,
    }
}

pub fn row_text_style(text: RowText) -> (s: TextStyle)
    ensures
        s == row_text_style_spec(text),
{
    match text {
        RowText::GitScopeLabel | RowText::ScopeHeading => TextStyle::Bold,
        RowText::MoreOptionsHint | RowText::SeeGeneralHint => TextStyle::Dim,
        RowText::ReleaseNowPathsHint | RowText::QuickDownloadsIntro => TextStyle::Warning,
        _ => TextStyle::Plain,
    }
}

/// The characters of a line of text for the scope being edited.
pub open spec fn row_text_spec(text: RowText, project: ProjectSettingsSource, scope_index: int) -> Seq<char> {
    match text {
        RowText::ToggleHint => "Press Space or Enter to toggle the selected checkbox. Ctrl+O opens Browse on path fields."@,
        RowText::NavigationHint => "Up/Down or Tab/Shift+Tab moves between fields. Mouse wheel scrolls when content overflows."@,
        RowText::GitScopeLabel => "Project/Scope: "@ + active_scope_name_spec(project, scope_index),
        RowText::PostMergePrompt => "After successful MR/PR merge, the source branch should always be:"@,
        RowText::MirrorPrompt => "This project should be kept in sync:"@,
        RowText::MoreOptionsHint => "More options are available for ComfyGitFlow-enabled projects!"@,
        RowText::SeeGeneralHint => "See line 1 in `Project Settings/General`..."@,
        RowText::ScopeHeading => "Scope: "@ + active_scope_name_spec(project, scope_index),
        RowText::BranchedScopeHint => "Use the focused overview tile or click another tile to switch scopes."@,
        RowText::SingleScopeHint => "All-in-one projects apply changelog settings to the single project scope."@,
        RowText::ScopeKindLine => "Scope type: "@ + active_scope_kind_spec(project, scope_index),
        RowText::ReleaseNowIntro => "Configure release-now script paths per scope. The feature is not wired into release execution yet."@,
        RowText::ReleaseNowPathsHint => "When enabled, each platform path can point to a script or command wrapper."@,
        RowText::ReleaseNowBrowseHint => "Browse selects a file path only; no validation or execution is performed yet."@,
        RowText::QuickDownloadsIntro => "Quick-Downloads: HTML table injected into GitHub release notes during ReleaseNOW."@,
        RowText::QuickDownloadsPositionHint => "Top: table is a prefix before your notes. Bottom: table is an appendix after notes."@,
        RowText::QuickDownloadsRemoteHint => "Uses the scope Remote URL (GitHub SSH or HTTPS). Missing artifacts become non-linked cells."@,
    }
}

/// The line of text a text row shows.
pub fn row_text_line(text: RowText, project: &ProjectSettingsSource, scope_index: usize) -> (line: String)
    ensures
        line@ == row_text_spec(text, *project, scope_index as int),
{
    match text {
        RowText::ToggleHint => String::from_str("Press Space or Enter to toggle the selected checkbox. Ctrl+O opens Browse on path fields."),
        RowText::NavigationHint => String::from_str("Up/Down or Tab/Shift+Tab moves between fields. Mouse wheel scrolls when content overflows."),
        RowText::GitScopeLabel => {
            let name = active_scope_name(project, scope_index);
            concat_str("Project/Scope: ", name.as_str())
        },
        RowText::PostMergePrompt => String::from_str("After successful MR/PR merge, the source branch should always be:"),
        RowText::MirrorPrompt => String::from_str("This project should be kept in sync:"),
        RowText::MoreOptionsHint => String::from_str("More options are available for ComfyGitFlow-enabled projects!"),
        RowText::SeeGeneralHint => String::from_str("See line 1 in `Project Settings/General`..."),
        RowText::ScopeHeading => {
            let name = active_scope_name(project, scope_index);
            concat_str("Scope: ", name.as_str())
        },
        RowText::BranchedScopeHint => String::from_str("Use the focused overview tile or click another tile to switch scopes."),
        RowText::SingleScopeHint => String::from_str("All-in-one projects apply changelog settings to the single project scope."),
        RowText::ScopeKindLine => {
            let kind = active_scope_kind(project, scope_index);
            concat_str("Scope type: ", kind.as_str())
        },
        RowText::ReleaseNowIntro => String::from_str("Configure release-now script paths per scope. The feature is not wired into release execution yet."),
        RowText::ReleaseNowPathsHint => String::from_str("When enabled, each platform path can point to a script or command wrapper."),
        RowText::ReleaseNowBrowseHint => String::from_str("Browse selects a file path only; no validation or execution is performed yet."),
        RowText::QuickDownloadsIntro => String::from_str("Quick-Downloads: HTML table injected into GitHub release notes during ReleaseNOW."),
        RowText::QuickDownloadsPositionHint => String::from_str("Top: table is a prefix before your notes. Bottom: table is an appendix after notes."),
        RowText::QuickDownloadsRemoteHint => String::from_str("Uses the scope Remote URL (GitHub SSH or HTTPS). Missing artifacts become non-linked cells."),
    }
}

/// The advanced-alias rows under General for the current alias state.
pub open spec fn alias_rows_spec(supports: bool, enabled: bool, custom_count: nat, draft_active: bool) -> Seq<ProjectSettingsRow> {
    if !supports {
        seq![]
    } else if !enabled {
        seq![ProjectSettingsRow::Spacer(1), ProjectSettingsRow::Checkbox(ProjectSettingsFocus::AdvancedAliasEnabled)]
    } else {
        seq![
            ProjectSettingsRow::Spacer(1),
            ProjectSettingsRow::Checkbox(ProjectSettingsFocus::AdvancedAliasEnabled),
            ProjectSettingsRow::Path(ProjectSettingsFocus::AliasDistPath),
            ProjectSettingsRow::Path(ProjectSettingsFocus::AliasUiPath),
        ] + Seq::new(custom_count, |k: int| ProjectSettingsRow::AliasCustom { index: k as u16 })
            + (if draft_active { seq![ProjectSettingsRow::AliasCustomDraft] } else { seq![] })
            + seq![ProjectSettingsRow::AliasAddButton]
    }
}

/// Appends the advanced-alias rows for the current alias state.
pub fn append_general_alias_rows(
    rows: &mut Vec<ProjectSettingsRow>,
    project: &ProjectSettingsSource,
    scope_index: usize,
    state: &ProjectSettingsState,
)
    ensures
        final(rows)@ == old(rows)@ + alias_rows_spec(
            project.supports_advanced_alias,
            state.advanced_alias_enabled,
            state.alias_custom@.len(),
            state.alias_custom_draft_active,
        ),
{
    let _ = scope_index;
    let ghost start = rows@;
    if !project.supports_advanced_alias {
        assert(rows@ =~= start + seq![]);
        return;
    }
    rows.push(ProjectSettingsRow::Spacer(1));
    rows.push(ProjectSettingsRow::Checkbox(ProjectSettingsFocus::AdvancedAliasEnabled));
    if !state.advanced_alias_enabled {
        assert(rows@ =~= start + alias_rows_spec(true, false, state.alias_custom@.len(), state.alias_custom_draft_active));
        return;
    }
    rows.push(ProjectSettingsRow::Path(ProjectSettingsFocus::AliasDistPath));
    rows.push(ProjectSettingsRow::Path(ProjectSettingsFocus::AliasUiPath));
    let ghost head = rows@;
    let ghost customs = Seq::new(state.alias_custom@.len(), |k: int| ProjectSettingsRow::AliasCustom { index: k as u16 });
    let mut index: usize = 0;
    while index < state.alias_custom.len()
        invariant
            index <= state.alias_custom@.len(),
            customs == Seq::new(state.alias_custom@.len(), |k: int| ProjectSettingsRow::AliasCustom { index: k as u16 }),
            rows@ == head + customs.take(index as int),
        decreases state.alias_custom.len() - index,
    {
        rows.push(ProjectSettingsRow::AliasCustom { index: index as u16 });
        index = index + 1;
        assert(rows@ =~= head + customs.take(index as int));
    }
    assert(customs.take(index as int) =~= customs);
    if state.alias_custom_draft_active {
        rows.push(ProjectSettingsRow::AliasCustomDraft);
    }
    rows.push(ProjectSettingsRow::AliasAddButton);
    assert(rows@ =~= start + alias_rows_spec(
        project.supports_advanced_alias,
        state.advanced_alias_enabled,
        state.alias_custom@.len(),
        state.alias_custom_draft_active,
    ));
}

/// The General tab's rows.
pub open spec fn general_rows_spec(project: ProjectSettingsSource, state: ProjectSettingsState) -> Seq<ProjectSettingsRow> {
    seq![ProjectSettingsRow::Checkbox(ProjectSettingsFocus::ComfyGitFlowEnabled)]
        + (if project.requires_repo {
            (if project.has_custom_main_branch {
                seq![ProjectSettingsRow::Path(ProjectSettingsFocus::CustomMainBranchName)]
            } else {
                seq![]
            }) + seq![
                ProjectSettingsRow::Spacer(1),
                ProjectSettingsRow::Checkbox(ProjectSettingsFocus::CustomMainBranchEnabled),
            ]
        } else {
            seq![]
        })
        + seq![ProjectSettingsRow::Path(ProjectSettingsFocus::Alias)]
        + alias_rows_spec(
            project.supports_advanced_alias,
            state.advanced_alias_enabled,
            state.alias_custom@.len(),
            state.alias_custom_draft_active,
        )
        + seq![
            ProjectSettingsRow::Spacer(1),
            ProjectSettingsRow::Text(RowText::ToggleHint),
            ProjectSettingsRow::Text(RowText::NavigationHint),
        ]
}

/// The Git tab's rows.
pub open spec fn git_rows_spec(project: ProjectSettingsSource) -> Seq<ProjectSettingsRow> {
    seq![
        ProjectSettingsRow::Text(RowText::GitScopeLabel),
        ProjectSettingsRow::Spacer(1),
        ProjectSettingsRow::Text(RowText::PostMergePrompt),
        ProjectSettingsRow::Path(ProjectSettingsFocus::PostMergeSourceBranch),
    ] + (if project.dual_forge {
        seq![
            ProjectSettingsRow::Spacer(1),
            ProjectSettingsRow::Text(RowText::MirrorPrompt),
            ProjectSettingsRow::Path(ProjectSettingsFocus::MirrorSyncAfterMerge),
        ]
    } else {
        seq![]
    }) + (if !project.comfygitflow_enabled {
        seq![
            ProjectSettingsRow::Spacer(1),
            ProjectSettingsRow::Text(RowText::MoreOptionsHint),
            ProjectSettingsRow::Text(RowText::SeeGeneralHint),
        ]
    } else {
        seq![]
    })
}

/// The Changelogs tab's rows.
pub open spec fn changelogs_rows_spec(project: ProjectSettingsSource) -> Seq<ProjectSettingsRow> {
    seq![
        ProjectSettingsRow::Text(RowText::ScopeHeading),
        ProjectSettingsRow::Spacer(1),
        ProjectSettingsRow::Checkbox(ProjectSettingsFocus::ChangelogEnabled),
    ] + (if project.changelog_enabled {
        seq![
            ProjectSettingsRow::Path(ProjectSettingsFocus::ChangelogPath),
            ProjectSettingsRow::Spacer(1),
            ProjectSettingsRow::DualCheckbox(
                ProjectSettingsFocus::ChangelogHidePrMessages,
                ProjectSettingsFocus::ChangelogHideBumpMessages,
            ),
            ProjectSettingsRow::Checkbox(ProjectSettingsFocus::ChangelogWrapDetailedIfTopPicks),
            ProjectSettingsRow::Checkbox(ProjectSettingsFocus::ChangelogMiniCommitHashes),
            ProjectSettingsRow::Checkbox(ProjectSettingsFocus::ChangelogMirrorSummaryToRootChangelog),
            ProjectSettingsRow::Checkbox(ProjectSettingsFocus::ReadmeInjectionEnabled),
        ] + (if project.readme_injection_enabled {
            seq![
                ProjectSettingsRow::Checkbox(ProjectSettingsFocus::ReadmeInjectOnlyTopPicks),
                ProjectSettingsRow::Path(ProjectSettingsFocus::ReadmeInjectAtRow),
                ProjectSettingsRow::InjectDepth,
            ]
        } else {
            seq![]
        }) + seq![ProjectSettingsRow::Spacer(1)]
    } else {
        seq![]
    }) + seq![
        ProjectSettingsRow::Text(if project.branched { RowText::BranchedScopeHint } else { RowText::SingleScopeHint }),
        ProjectSettingsRow::Text(RowText::ToggleHint),
        ProjectSettingsRow::Text(RowText::NavigationHint),
    ]
}

/// The Distro tab's rows.
pub open spec fn distro_rows_spec(project: ProjectSettingsSource) -> Seq<ProjectSettingsRow> {
    seq![
        ProjectSettingsRow::Text(RowText::ScopeHeading),
        ProjectSettingsRow::Text(RowText::ScopeKindLine),
        ProjectSettingsRow::Text(RowText::ReleaseNowIntro),
        ProjectSettingsRow::Spacer(1),
        ProjectSettingsRow::Checkbox(ProjectSettingsFocus::ReleaseNowEnabled),
    ] + (if project.release_now_enabled {
        seq![
            ProjectSettingsRow::Path(ProjectSettingsFocus::ReleaseNowGeneral),
            ProjectSettingsRow::Path(ProjectSettingsFocus::ReleaseNowWindows),
            ProjectSettingsRow::Path(ProjectSettingsFocus::ReleaseNowLinuxArm),
            ProjectSettingsRow::Path(ProjectSettingsFocus::ReleaseNowLinuxAmd),
            ProjectSettingsRow::Path(ProjectSettingsFocus::ReleaseNowMacOs),
            ProjectSettingsRow::Path(ProjectSettingsFocus::ReleaseTitleTemplate),
        ]
    } else {
        seq![]
    }) + seq![
        ProjectSettingsRow::Spacer(1),
        ProjectSettingsRow::Text(RowText::ReleaseNowPathsHint),
        ProjectSettingsRow::Text(RowText::ReleaseNowBrowseHint),
    ]
}

/// The RLS-QD tab's rows.
pub open spec fn rls_qd_rows_spec(project: ProjectSettingsSource) -> Seq<ProjectSettingsRow> {
    seq![
        ProjectSettingsRow::Text(RowText::ScopeHeading),
        ProjectSettingsRow::Text(RowText::QuickDownloadsIntro),
        ProjectSettingsRow::Spacer(1),
        ProjectSettingsRow::Checkbox(ProjectSettingsFocus::QuickDownloadsEnabled),
    ] + (if project.quick_downloads_enabled {
        seq![
            ProjectSettingsRow::Path(ProjectSettingsFocus::QuickDownloadsPosition),
            ProjectSettingsRow::Path(ProjectSettingsFocus::QuickDownloadsFooter),
        ]
    } else {
        seq![]
    }) + seq![
        ProjectSettingsRow::Spacer(1),
        ProjectSettingsRow::Text(RowText::QuickDownloadsPositionHint),
        ProjectSettingsRow::Text(RowText::QuickDownloadsRemoteHint),
    ]
}

/// The rows of `tab`.
pub open spec fn rows_spec(tab: ProjectSettingsTab, project: ProjectSettingsSource, state: ProjectSettingsState) -> Seq<ProjectSettingsRow> {
    match tab {
        ProjectSettingsTab::General => general_rows_spec(project, state),
        ProjectSettingsTab::Git => git_rows_spec(project),
        ProjectSettingsTab::Changelogs => changelogs_rows_spec(project),
        ProjectSettingsTab::Distro => distro_rows_spec(project),
        ProjectSettingsTab::RlsQd => rls_qd_rows_spec(project),
    }
}

pub fn build_general_rows(project: &ProjectSettingsSource, scope_index: usize, state: &ProjectSettingsState) -> (rows: Vec<ProjectSettingsRow>)
    ensures
        rows@ == general_rows_spec(*project, *state),
{
    let mut rows = vec![ProjectSettingsRow::Checkbox(ProjectSettingsFocus::ComfyGitFlowEnabled)];
    if project.requires_repo {
        if project.has_custom_main_branch {
            rows.push(ProjectSettingsRow::Path(ProjectSettingsFocus::CustomMainBranchName));
        }
        rows.push(ProjectSettingsRow::Spacer(1));
        rows.push(ProjectSettingsRow::Checkbox(ProjectSettingsFocus::CustomMainBranchEnabled));
    }
    rows.push(ProjectSettingsRow::Path(ProjectSettingsFocus::Alias));
    append_general_alias_rows(&mut rows, project, scope_index, state);
    rows.push(ProjectSettingsRow::Spacer(1));
    rows.push(ProjectSettingsRow::Text(RowText::ToggleHint));
    rows.push(ProjectSettingsRow::Text(RowText::NavigationHint));
    assert(rows@ =~= general_rows_spec(*project, *state));
    rows
}

pub fn build_git_rows(project: &ProjectSettingsSource, scope_index: usize) -> (rows: Vec<ProjectSettingsRow>)
    ensures
        rows@ == git_rows_spec(*project),
{
    let _ = scope_index;
    let mut rows = vec![
        ProjectSettingsRow::Text(RowText::GitScopeLabel),
        ProjectSettingsRow::Spacer(1),
        ProjectSettingsRow::Text(RowText::PostMergePrompt),
        ProjectSettingsRow::Path(ProjectSettingsFocus::PostMergeSourceBranch),
    ];
    if project.dual_forge {
        rows.push(ProjectSettingsRow::Spacer(1));
        rows.push(ProjectSettingsRow::Text(RowText::MirrorPrompt));
        rows.push(ProjectSettingsRow::Path(ProjectSettingsFocus::MirrorSyncAfterMerge));
    }
    if !project.comfygitflow_enabled {
        rows.push(ProjectSettingsRow::Spacer(1));
        rows.push(ProjectSettingsRow::Text(RowText::MoreOptionsHint));
        rows.push(ProjectSettingsRow::Text(RowText::SeeGeneralHint));
    }
    assert(rows@ =~= git_rows_spec(*project));
    rows
}

pub fn build_changelogs_rows(project: &ProjectSettingsSource, scope_index: usize) -> (rows: Vec<ProjectSettingsRow>)
    ensures
        rows@ == changelogs_rows_spec(*project),
{
    let _ = scope_index;
    let mut rows = vec![
        ProjectSettingsRow::Text(RowText::ScopeHeading),
        ProjectSettingsRow::Spacer(1),
        ProjectSettingsRow::Checkbox(ProjectSettingsFocus::ChangelogEnabled),
    ];
    if project.changelog_enabled {
        rows.push(ProjectSettingsRow::Path(ProjectSettingsFocus::ChangelogPath));
        rows.push(ProjectSettingsRow::Spacer(1));
        rows.push(ProjectSettingsRow::DualCheckbox(
            ProjectSettingsFocus::ChangelogHidePrMessages,
            ProjectSettingsFocus::ChangelogHideBumpMessages,
        ));
        rows.push(ProjectSettingsRow::Checkbox(ProjectSettingsFocus::ChangelogWrapDetailedIfTopPicks));
        rows.push(ProjectSettingsRow::Checkbox(ProjectSettingsFocus::ChangelogMiniCommitHashes));
        rows.push(ProjectSettingsRow::Checkbox(ProjectSettingsFocus::ChangelogMirrorSummaryToRootChangelog));
        rows.push(ProjectSettingsRow::Checkbox(ProjectSettingsFocus::ReadmeInjectionEnabled));
        if project.readme_injection_enabled {
            rows.push(ProjectSettingsRow::Checkbox(ProjectSettingsFocus::ReadmeInjectOnlyTopPicks));
            rows.push(ProjectSettingsRow::Path(ProjectSettingsFocus::ReadmeInjectAtRow));
            rows.push(ProjectSettingsRow::InjectDepth);
        }
        rows.push(ProjectSettingsRow::Spacer(1));
    }
    rows.push(ProjectSettingsRow::Text(if project.branched { RowText::BranchedScopeHint } else { RowText::SingleScopeHint }));
    rows.push(ProjectSettingsRow::Text(RowText::ToggleHint));
    rows.push(ProjectSettingsRow::Text(RowText::NavigationHint));
    assert(rows@ =~= changelogs_rows_spec(*project));
    rows
}

pub fn build_distro_rows(project: &ProjectSettingsSource, scope_index: usize) -> (rows: Vec<ProjectSettingsRow>)
    ensures
        rows@ == distro_rows_spec(*project),
{
    let _ = scope_index;
    let mut rows = vec![
        ProjectSettingsRow::Text(RowText::ScopeHeading),
        ProjectSettingsRow::Text(RowText::ScopeKindLine),
        ProjectSettingsRow::Text(RowText::ReleaseNowIntro),
        ProjectSettingsRow::Spacer(1),
        ProjectSettingsRow::Checkbox(ProjectSettingsFocus::ReleaseNowEnabled),
    ];
    if project.release_now_enabled {
        rows.push(ProjectSettingsRow::Path(ProjectSettingsFocus::ReleaseNowGeneral));
        rows.push(ProjectSettingsRow::Path(ProjectSettingsFocus::ReleaseNowWindows));
        rows.push(ProjectSettingsRow::Path(ProjectSettingsFocus::ReleaseNowLinuxArm));
        rows.push(ProjectSettingsRow::Path(ProjectSettingsFocus::ReleaseNowLinuxAmd));
        rows.push(ProjectSettingsRow::Path(ProjectSettingsFocus::ReleaseNowMacOs));
        rows.push(ProjectSettingsRow::Path(ProjectSettingsFocus::ReleaseTitleTemplate));
    }
    rows.push(ProjectSettingsRow::Spacer(1));
    rows.push(ProjectSettingsRow::Text(RowText::ReleaseNowPathsHint));
    rows.push(ProjectSettingsRow::Text(RowText::ReleaseNowBrowseHint));
    assert(rows@ =~= distro_rows_spec(*project));
    rows
}

pub fn build_rls_qd_rows(project: &ProjectSettingsSource, scope_index: usize) -> (rows: Vec<ProjectSettingsRow>)
    ensures
        rows@ == rls_qd_rows_spec(*project),
{
    let _ = scope_index;
    let mut rows = vec![
        ProjectSettingsRow::Text(RowText::ScopeHeading),
        ProjectSettingsRow::Text(RowText::QuickDownloadsIntro),
        ProjectSettingsRow::Spacer(1),
        ProjectSettingsRow::Checkbox(ProjectSettingsFocus::QuickDownloadsEnabled),
    ];
    if project.quick_downloads_enabled {
        rows.push(ProjectSettingsRow::Path(ProjectSettingsFocus::QuickDownloadsPosition));
        rows.push(ProjectSettingsRow::Path(ProjectSettingsFocus::QuickDownloadsFooter));
    }
    rows.push(ProjectSettingsRow::Spacer(1));
    rows.push(ProjectSettingsRow::Text(RowText::QuickDownloadsPositionHint));
    rows.push(ProjectSettingsRow::Text(RowText::QuickDownloadsRemoteHint));
    assert(rows@ =~= rls_qd_rows_spec(*project));
    rows
}

/// The rows of `tab` for the scope being edited.
pub fn build_rows(
    tab: ProjectSettingsTab,
    project: &ProjectSettingsSource,
    scope_index: usize,
    state: &ProjectSettingsState,
) -> (rows: Vec<ProjectSettingsRow>)
    ensures
        rows@ == rows_spec(tab, *project, *state),
{
    match tab {
        ProjectSettingsTab::General => build_general_rows(project, scope_index, state),
        ProjectSettingsTab::Git => build_git_rows(project, scope_index),
        ProjectSettingsTab::Changelogs => build_changelogs_rows(project, scope_index),
        ProjectSettingsTab::Distro => build_distro_rows(project, scope_index),
        ProjectSettingsTab::RlsQd => build_rls_qd_rows(project, scope_index),
    }
}

/// Total height of a run of rows.
pub open spec fn rows_height(rows: Seq<ProjectSettingsRow>) -> nat
    decreases rows.len(),
{
    if rows.len() == 0 {
        0
    } else {
        rows_height(rows.drop_last()) + row_height_spec(rows.last())
    }
}

proof fn lemma_rows_height_prefix(rows: Seq<ProjectSettingsRow>, i: int)
    requires
        0 <= i <= rows.len(),
    ensures
        rows_height(rows.take(i)) <= rows_height(rows),
    decreases rows.len() - i,
{
    if i < rows.len() {
        lemma_rows_height_prefix(rows, i + 1);
        assert(rows.take(i + 1).drop_last() =~= rows.take(i));
    } else {
        assert(rows.take(i) =~= rows);
    }
}

pub fn total_rows_height(rows: &Vec<ProjectSettingsRow>) -> (h: u16)
    requires
        rows_height(rows@) <= u16::MAX,
    ensures
        h == rows_height(rows@),
{
    let mut total: u16 = 0;
    let mut i: usize = 0;
    while i < rows.len()
        invariant
            i <= rows@.len(),
            rows_height(rows@) <= u16::MAX,
            total == rows_height(rows@.take(i as int)),
        decreases rows.len() - i,
    {
        proof {
            lemma_rows_height_prefix(rows@, i + 1);
            assert(rows@.take(i + 1).drop_last() =~= rows@.take(i as int));
        }
        total = total + rows[i].height();
        i = i + 1;
    }
    assert(rows@.take(i as int) =~= rows@);
    total
}

/// Whether `row` is the row the focus `focus` sits on.
pub open spec fn row_holds_focus(row: ProjectSettingsRow, focus: ProjectSettingsFocus) -> bool {
    ||| row_focus_spec(row) == Some(focus)
    ||| (row is InjectDepth && inject_depth_of(focus) is Some)
    ||| (row matches ProjectSettingsRow::AliasCustom { index } && (focus == ProjectSettingsFocus::AliasCustomPath(index)
        || focus == ProjectSettingsFocus::AliasCustomDelete(index)))
    ||| (row is AliasCustomDraft && (focus == ProjectSettingsFocus::AliasCustomDraftName
        || focus == ProjectSettingsFocus::AliasCustomDraftConfirm))
}

fn row_holds(row: &ProjectSettingsRow, focus: ProjectSettingsFocus) -> (r: bool)
    ensures
        r == row_holds_focus(*row, focus),
{
    if row.focus() == Some(focus) {
        return true;
    }
    match row {
        ProjectSettingsRow::InjectDepth => is_readme_inject_depth_field(focus),
        ProjectSettingsRow::AliasCustom { index } => match focus {
            ProjectSettingsFocus::AliasCustomPath(i) => i == *index,
            ProjectSettingsFocus::AliasCustomDelete(i) => i == *index,
            _ => false,
        },
        ProjectSettingsRow::AliasCustomDraft => match focus {
            ProjectSettingsFocus::AliasCustomDraftName | ProjectSettingsFocus::AliasCustomDraftConfirm => true,
            _ => false,
        },
        _ => false,
    }
}

/// The index of the first row holding `focus`, or -1 when none does.
pub open spec fn holding_index(rows: Seq<ProjectSettingsRow>, focus: ProjectSettingsFocus) -> int
    decreases rows.len(),
{
    if rows.len() == 0 {
        -1
    } else if row_holds_focus(rows[0], focus) {
        0
    } else {
        let rest = holding_index(rows.drop_first(), focus);
        if rest < 0 { -1 } else { rest + 1 }
    }
}

proof fn lemma_holding_index(rows: Seq<ProjectSettingsRow>, focus: ProjectSettingsFocus, i: int)
    requires
        0 <= i <= rows.len(),
        forall|j: int| 0 <= j < i ==> !row_holds_focus(#[trigger] rows[j], focus),
        i < rows.len() ==> row_holds_focus(rows[i], focus),
    ensures
        holding_index(rows, focus) == (if i < rows.len() { i } else { -1 }),
    decreases rows.len(),
{
    if rows.len() > 0 && i > 0 {
        assert forall|j: int| 0 <= j < i - 1 implies !row_holds_focus(#[trigger] rows.drop_first()[j], focus) by {
            assert(rows.drop_first()[j] == rows[j + 1]);
        }
        if i < rows.len() {
            assert(rows.drop_first()[i - 1] == rows[i]);
        }
        assert(!row_holds_focus(rows[0], focus));
        lemma_holding_index(rows.drop_first(), focus, i - 1);
    }
}

/// Where the focused row sits: its top (capped at `u16::MAX`) and height.
pub open spec fn focused_bounds_spec(rows: Seq<ProjectSettingsRow>, focus: ProjectSettingsFocus) -> Option<(u16, u16)> {
    let k = holding_index(rows, focus);
    if k < 0 {
        None
    } else {
        let above = rows_height(rows.take(k));
        Some((
            (if above <= u16::MAX { above } else { u16::MAX as nat }) as u16,
            row_height_spec(rows[k]) as u16,
        ))
    }
}

/// `(top, height)` of the first row holding `focus`, its top capped at `u16::MAX`.
pub fn focused_row_bounds(rows: &Vec<ProjectSettingsRow>, focus: ProjectSettingsFocus) -> (r: Option<(u16, u16)>)
    ensures
        r == focused_bounds_spec(rows@, focus),
        r is None <==> forall|k: int| 0 <= k < rows@.len() ==> !row_holds_focus(#[trigger] rows@[k], focus),
{
    let mut top: u16 = 0;
    let mut i: usize = 0;
    while i < rows.len()
        invariant
            i <= rows@.len(),
            forall|j: int| 0 <= j < i ==> !row_holds_focus(#[trigger] rows@[j], focus),
            top == (if rows_height(rows@.take(i as int)) <= u16::MAX { rows_height(rows@.take(i as int)) } else { u16::MAX as nat }),
        decreases rows.len() - i,
    {
        let height = rows[i].height();
        if row_holds(&rows[i], focus) {
            proof {
                lemma_holding_index(rows@, focus, i as int);
            }
            return Some((top, height));
        }
        proof {
            assert(rows@.take(i + 1).drop_last() =~= rows@.take(i as int));
        }
        top = top.saturating_add(height);
        i = i + 1;
    }
    proof {
        lemma_holding_index(rows@, focus, i as int);
    }
    None
}

pub open spec fn min_int(a: int, b: int) -> int {
    if a < b { a } else { b }
}

/// The largest scroll offset: how far the content overflows the viewport.
pub open spec fn max_scroll_spec(total_height: int, viewport_height: int) -> int {
    if total_height > viewport_height { total_height - viewport_height } else { 0 }
}

/// The scroll offset after making the row `[top, top + height)` visible.
pub open spec fn row_visible_scroll(scroll: int, top: int, height: int, total_height: int, viewport_height: int) -> int {
    let max = max_scroll_spec(total_height, viewport_height);
    let s = min_int(scroll, max);
    if viewport_height == 0 {
        0
    } else {
        let moved = if top < s {
            top
        } else {
            let bottom = min_int(top + height, u16::MAX as int);
            let viewport_bottom = min_int(s + viewport_height, u16::MAX as int);
            if bottom > viewport_bottom { max_scroll_spec(bottom, viewport_height) } else { s }
        };
        min_int(moved, max)
    }
}

/// The scroll offset after a wheel or key scroll by `delta` rows (the step taken
/// modulo 2^16, as a `u16`).
pub open spec fn scrolled_by(scroll: int, delta: int, total_height: int, viewport_height: int) -> int {
    let max = max_scroll_spec(total_height, viewport_height);
    let s = min_int(scroll, max);
    if delta < 0 {
        max_scroll_spec(s, (-delta) % 65536)
    } else {
        min_int(min_int(s + delta % 65536, u16::MAX as int), max)
    }
}

impl ProjectSettingsState {
    /// Keeps the scroll offset within the content.
    pub fn clamp_scroll(&mut self, total_height: u16, viewport_height: u16)
        ensures
            *final(self) == (ProjectSettingsState {
                scroll: min_int(old(self).scroll as int, max_scroll_spec(total_height as int, viewport_height as int)) as u16,
                ..*old(self)
            }),
    {
        let max_scroll = if total_height > viewport_height { total_height - viewport_height } else { 0 };
        if self.scroll > max_scroll {
            self.scroll = max_scroll;
        }
    }

    /// Scrolls just enough to show the row `[top, top + height)`.
    pub fn ensure_row_visible(&mut self, top: u16, height: u16, total_height: u16, viewport_height: u16)
        ensures
            *final(self) == (ProjectSettingsState {
                scroll: row_visible_scroll(old(self).scroll as int, top as int, height as int, total_height as int, viewport_height as int) as u16,
                ..*old(self)
            }),
    {
        self.clamp_scroll(total_height, viewport_height);
        if viewport_height == 0 {
            self.scroll = 0;
            return;
        }
        if top < self.scroll {
            self.scroll = top;
        } else {
            let bottom = top.saturating_add(height);
            let viewport_bottom = self.scroll.saturating_add(viewport_height);
            if bottom > viewport_bottom {
                self.scroll = bottom.saturating_sub(viewport_height);
            }
        }
        self.clamp_scroll(total_height, viewport_height);
    }

    /// Scrolls by `delta` rows and stops following the focus.
    pub fn scroll_by(&mut self, delta: isize, total_height: u16, viewport_height: u16)
        ensures
            *final(self) == (ProjectSettingsState {
                scroll: scrolled_by(old(self).scroll as int, delta as int, total_height as int, viewport_height as int) as u16,
                follow_focus: false,
                ..*old(self)
            }),
    {
        self.follow_focus = false;
        self.clamp_scroll(total_height, viewport_height);
        let max_scroll = if total_height > viewport_height { total_height - viewport_height } else { 0 };
        let next = if delta < 0 {
            let magnitude: usize = if delta == isize::MIN { (isize::MAX as usize) + 1 } else { (0 - delta) as usize };
            let step: u16 = (magnitude % 65536) as u16;
            self.scroll.saturating_sub(step)
        } else {
            let step: u16 = ((delta as usize) % 65536) as u16;
            let raised = self.scroll.saturating_add(step);
            if raised < max_scroll { raised } else { max_scroll }
        };
        self.scroll = next;
    }
}

/// The pane state after laying out `rows` in a viewport `content_height`
/// rows high: following the focus scrolls its row into view; otherwise the
/// focus is followed again once its row is fully in view.
pub open spec fn settled_state(state: ProjectSettingsState, rows: Seq<ProjectSettingsRow>, content_height: u16) -> ProjectSettingsState {
    let total = rows_height(rows) as int;
    let clamped = min_int(state.scroll as int, max_scroll_spec(total, content_height as int)) as u16;
    let sized = ProjectSettingsState { viewport_height: content_height, ..state };
    match focused_bounds_spec(rows, state.focus) {
        Some((top, height)) => if state.follow_focus {
            ProjectSettingsState {
                scroll: row_visible_scroll(state.scroll as int, top as int, height as int, total, content_height as int) as u16,
                ..sized
            }
        } else {
            let in_view = top >= state.scroll
                && min_int(top + height, u16::MAX as int) <= min_int(state.scroll + content_height, u16::MAX as int);
            ProjectSettingsState { scroll: clamped, follow_focus: in_view, ..sized }
        },
        None => ProjectSettingsState { scroll: clamped, ..sized },
    }
}

impl ProjectSettingsState {
    /// Records the viewport height and settles the scroll offset for `rows`.
    pub fn settle_scroll(&mut self, rows: &Vec<ProjectSettingsRow>, content_height: u16)
        requires
            rows_height(rows@) <= u16::MAX,
        ensures
            *final(self) == settled_state(*old(self), rows@, content_height),
    {
        let total_height = total_rows_height(rows);
        self.viewport_height = content_height;
        let bounds = focused_row_bounds(rows, self.focus);
        if self.follow_focus {
            match bounds {
                Some((top, height)) => self.ensure_row_visible(top, height, total_height, content_height),
                None => self.clamp_scroll(total_height, content_height),
            }
        } else {
            match bounds {
                Some((top, height)) => {
                    let viewport_top = self.scroll;
                    let viewport_bottom = viewport_top.saturating_add(content_height);
                    if top >= viewport_top && top.saturating_add(height) <= viewport_bottom {
                        self.follow_focus = true;
                    }
                    self.clamp_scroll(total_height, content_height);
                },
                None => self.clamp_scroll(total_height, content_height),
            }
        }
    }

    /// Scrolls the pane for the tab being shown by `delta` rows.
    pub fn scroll_settings(
        &mut self,
        tab: ProjectSettingsTab,
        project: &ProjectSettingsSource,
        scope_index: usize,
        delta: isize,
    )
        requires
            rows_height(rows_spec(tab, *project, *old(self))) <= u16::MAX,
        ensures
            *final(self) == (ProjectSettingsState {
                scroll: scrolled_by(
                    old(self).scroll as int,
                    delta as int,
                    rows_height(rows_spec(tab, *project, *old(self))) as int,
                    old(self).viewport_height as int,
                ) as u16,
                follow_focus: false,
                ..*old(self)
            }),
    {
        let rows = build_rows(tab, project, scope_index, self);
        let total_height = total_rows_height(&rows);
        let viewport_height = self.viewport_height;
        self.scroll_by(delta, total_height, viewport_height);
    }
}

/// Which scroll arrows the gutter shows: `(up, down)`. A pane three columns
/// wide or narrower has no gutter.
pub fn scroll_indicators(area_width: u16, content_height: u16, total_height: u16, scroll: u16) -> (r: (bool, bool))
    ensures
        r == (if area_width > 3 && total_height > content_height {
            (scroll > 0, min_int(scroll + content_height, u16::MAX as int) < total_height)
        } else {
            (false, false)
        }),
{
    if area_width > 3 && total_height > content_height {
        (scroll > 0, scroll.saturating_add(content_height) < total_height)
    } else {
        (false, false)
    }
}

/// Making a row visible leaves it inside the viewport, whenever the viewport
/// is not empty, the row lies within the content and is no taller than the
/// viewport.
pub proof fn law_ensure_row_visible_shows_row(scroll: u16, top: u16, height: u16, total_height: u16, viewport_height: u16)
    requires
        viewport_height > 0,
        top + height <= total_height,
        height <= viewport_height,
    ensures
        ({
            let s = row_visible_scroll(scroll as int, top as int, height as int, total_height as int, viewport_height as int);
            &&& 0 <= s <= max_scroll_spec(total_height as int, viewport_height as int)
            &&& s <= top
            &&& top + height <= s + viewport_height
        }),
{
}

/// Scrolling never leaves the offset outside `0..=` the overflow.
pub proof fn law_scroll_stays_in_range(scroll: u16, delta: isize, total_height: u16, viewport_height: u16)
    ensures
        0 <= scrolled_by(scroll as int, delta as int, total_height as int, viewport_height as int)
            <= max_scroll_spec(total_height as int, viewport_height as int),
{
}

/// What a field row shows as its value.
#[derive(Clone, Debug, PartialEq, Eq)]
pub enum FieldValue {
    /// The text of the field's input (drawn by the input, with its cursor).
    Input(String),
    /// A policy's option between arrows, `< option >`.
    Policy(String),
    /// Nothing (a checkbox, a button, or a custom alias that is gone).
    Empty,
}

/// `< label >`, with the label trimmed.
pub open spec fn policy_text(label: Seq<char>) -> Seq<char> {
    "< "@ + trim(label) + " >"@
}

fn policy_value(label: &String) -> (v: FieldValue)
    ensures
        v matches FieldValue::Policy(t) && t@ == policy_text(label@),
{
    proof {
        reveal_strlit("< ");
        reveal_strlit(" >");
    }
    let trimmed = trimmed_string(label.as_str());
    let front = concat_str("< ", trimmed.as_str());
    FieldValue::Policy(concat_str(front.as_str(), " >"))
}

/// The value a field row shows: a text field its input's text, a policy its
/// option between arrows, anything else nothing.
pub fn display_value_for_field(state: &ProjectSettingsState, field: ProjectSettingsFocus) -> (v: FieldValue)
    ensures
        match field {
            ProjectSettingsFocus::QuickDownloadsPosition => v matches FieldValue::Policy(t)
                && t@ == policy_text(state.quick_downloads_position@),
            ProjectSettingsFocus::PostMergeSourceBranch => v matches FieldValue::Policy(t)
                && t@ == policy_text(state.post_merge_source_branch@),
            ProjectSettingsFocus::MirrorSyncAfterMerge => v matches FieldValue::Policy(t)
                && t@ == policy_text(state.mirror_sync_after_merge@),
            _ => match input_text(*state, field) {
                Some(text) => v matches FieldValue::Input(t) && t@ == text,
                None => v == FieldValue::Empty,
            },
        },
{
    match field {
        ProjectSettingsFocus::QuickDownloadsPosition => policy_value(&state.quick_downloads_position),
        ProjectSettingsFocus::PostMergeSourceBranch => policy_value(&state.post_merge_source_branch),
        ProjectSettingsFocus::MirrorSyncAfterMerge => policy_value(&state.mirror_sync_after_merge),
        ProjectSettingsFocus::CustomMainBranchName => FieldValue::Input(copy_string(&state.custom_main_branch_name)),
        ProjectSettingsFocus::Alias => FieldValue::Input(copy_string(&state.alias)),
        ProjectSettingsFocus::AliasDistPath => FieldValue::Input(copy_string(&state.alias_dist_path)),
        ProjectSettingsFocus::AliasUiPath => FieldValue::Input(copy_string(&state.alias_ui_path)),
        ProjectSettingsFocus::AliasCustomPath(index) => {
            let i = index as usize;
            if i < state.alias_custom.len() {
                FieldValue::Input(copy_string(&state.alias_custom[i].path))
            } else {
                FieldValue::Empty
            }
        },
        ProjectSettingsFocus::AliasCustomDraftName => FieldValue::Input(copy_string(&state.alias_custom_draft_name)),
        ProjectSettingsFocus::ChangelogPath => FieldValue::Input(copy_string(&state.changelog_path)),
        ProjectSettingsFocus::ReleaseNowGeneral => FieldValue::Input(copy_string(&state.release_now_general)),
        ProjectSettingsFocus::ReleaseNowWindows => FieldValue::Input(copy_string(&state.release_now_windows)),
        ProjectSettingsFocus::ReleaseNowLinuxArm => FieldValue::Input(copy_string(&state.release_now_linux_arm)),
        ProjectSettingsFocus::ReleaseNowLinuxAmd => FieldValue::Input(copy_string(&state.release_now_linux_amd)),
        ProjectSettingsFocus::ReleaseNowMacOs => FieldValue::Input(copy_string(&state.release_now_macos)),
        ProjectSettingsFocus::QuickDownloadsFooter => FieldValue::Input(copy_string(&state.quick_downloads_footer)),
        ProjectSettingsFocus::ReadmeInjectAtRow => FieldValue::Input(copy_string(&state.readme_inject_at_row)),
        ProjectSettingsFocus::ReleaseTitleTemplate => FieldValue::Input(copy_string(&state.release_title_template)),
        _ => FieldValue::Empty,
    }
}

/// Where a row is drawn: its index, the screen row it starts on, and how
/// many screen rows it gets.
#[derive(Clone, Copy, Debug, PartialEq, Eq, Structural)]
pub struct RowSlot {
    pub index: usize,
    pub y: u16,
    pub height: u16,
}

pub open spec fn sat16(x: int) -> int {
    if x > 65535 { 65535 } else { x }
}

pub open spec fn sub_or_zero(a: int, b: int) -> int {
    if a > b { a - b } else { 0 }
}

/// The slots of rows `i..` of `rows` scrolled by `scroll` in a viewport of
/// `viewport` screen rows starting at screen row `top`: rows wholly above
/// the viewport are skipped; a row partly above starts at the top; drawing
/// stops at the first row that starts below the viewport; a row running past
/// the bottom gets what is left.
pub open spec fn row_slots_from(rows: Seq<ProjectSettingsRow>, i: int, scroll: int, top: int, viewport: int) -> Seq<RowSlot>
    decreases rows.len() - i,
{
    if i < 0 || i >= rows.len() {
        Seq::empty()
    } else {
        let cursor = rows_height(rows.take(i)) as int;
        let height = row_height_spec(rows[i]) as int;
        if cursor + height <= scroll {
            row_slots_from(rows, i + 1, scroll, top, viewport)
        } else {
            let y = sat16(top + sub_or_zero(cursor, scroll));
            let remaining = sub_or_zero(viewport, y - top);
            if y >= sat16(top + viewport) || remaining == 0 {
                Seq::empty()
            } else {
                seq![RowSlot {
                    index: i as usize,
                    y: y as u16,
                    height: (if height < remaining { height } else { remaining }) as u16,
                }] + row_slots_from(rows, i + 1, scroll, top, viewport)
            }
        }
    }
}

/// The slots of the rows shown in a viewport of `viewport` screen rows at
/// screen row `top`, scrolled by `scroll`.
pub fn visible_row_slots(rows: &Vec<ProjectSettingsRow>, scroll: u16, top: u16, viewport: u16) -> (slots: Vec<RowSlot>)
    requires
        rows_height(rows@) <= u16::MAX,
    ensures
        slots@ == row_slots_from(rows@, 0, scroll as int, top as int, viewport as int),
{
    let mut slots: Vec<RowSlot> = Vec::new();
    let mut cursor: u16 = 0;
    let mut i: usize = 0;
    let mut done = false;
    let bottom_edge = top.saturating_add(viewport);
    while i < rows.len() && !done
        invariant
            i <= rows@.len(),
            rows_height(rows@) <= u16::MAX,
            cursor == rows_height(rows@.take(i as int)),
            bottom_edge == sat16(top + viewport),
            done ==> row_slots_from(rows@, i as int, scroll as int, top as int, viewport as int) =~= Seq::<RowSlot>::empty(),
            slots@ + row_slots_from(rows@, i as int, scroll as int, top as int, viewport as int)
                == row_slots_from(rows@, 0, scroll as int, top as int, viewport as int),
        decreases rows.len() - i + (if done { 0int } else { 1int }),
    {
        proof {
            assert(rows@.take(i + 1).drop_last() =~= rows@.take(i as int));
            lemma_rows_height_prefix(rows@, i + 1);
        }
        let height = rows[i].height();
        let row_bottom = cursor + height;
        if row_bottom <= scroll {
            cursor = row_bottom;
            i = i + 1;
        } else {
            let y = top.saturating_add(cursor.saturating_sub(scroll));
            let remaining = if y >= bottom_edge { 0 } else { viewport.saturating_sub(y - top) };
            if remaining == 0 {
                done = true;
            } else {
                let slot = RowSlot { index: i, y, height: if height < remaining { height } else { remaining } };
                let ghost before = slots@;
                slots.push(slot);
                proof {
                    let rest = row_slots_from(rows@, i + 1, scroll as int, top as int, viewport as int);
                    assert(row_slots_from(rows@, i as int, scroll as int, top as int, viewport as int) == seq![slot] + rest);
                    assert(before + (seq![slot] + rest) =~= slots@ + rest);
                }
                cursor = row_bottom;
                i = i + 1;
            }
        }
    }
    proof {
        if !done {
            assert(row_slots_from(rows@, i as int, scroll as int, top as int, viewport as int) =~= Seq::<RowSlot>::empty());
        }
        assert(slots@ + Seq::<RowSlot>::empty() =~= slots@);
    }
    slots
}

/// Every slot lies inside the viewport (for a viewport that ends on the
/// screen's coordinates).
pub proof fn law_row_slots_stay_in_viewport(rows: Seq<ProjectSettingsRow>, i: int, scroll: int, top: int, viewport: int)
    requires
        0 <= top,
        0 <= viewport,
        top + viewport <= 65535,
    ensures
        forall|k: int| 0 <= k < row_slots_from(rows, i, scroll, top, viewport).len() ==> {
            let slot = #[trigger] row_slots_from(rows, i, scroll, top, viewport)[k];
            &&& top <= slot.y
            &&& slot.y + slot.height <= top + viewport
        },
    decreases rows.len() - i,
{
    if 0 <= i < rows.len() {
        law_row_slots_stay_in_viewport(rows, i + 1, scroll, top, viewport);
        let whole = row_slots_from(rows, i, scroll, top, viewport);
        let rest = row_slots_from(rows, i + 1, scroll, top, viewport);
        let cursor = rows_height(rows.take(i)) as int;
        let height = row_height_spec(rows[i]) as int;
        if cursor + height <= scroll {
            assert(whole == rest);
        } else {
            let y = sat16(top + sub_or_zero(cursor, scroll));
            let remaining = sub_or_zero(viewport, y - top);
            if !(y >= sat16(top + viewport) || remaining == 0) {
                assert forall|k: int| 0 <= k < whole.len() implies {
                    let slot = #[trigger] whole[k];
                    &&& top <= slot.y
                    &&& slot.y + slot.height <= top + viewport
                } by {
                    if k > 0 {
                        assert(whole[k] == rest[k - 1]);
                    } else {
                        assert(y == top + sub_or_zero(cursor, scroll));
                        assert(whole[0].y == y);
                    }
                }
            }
        }
    }
}

/// Whether a row is drawn in a slot `height` screen rows tall: a checkbox,
/// pair of checkboxes or inject-depth row needs two rows, a path field or the
/// add button three; spacers draw nothing.
pub open spec fn row_drawn_spec(row: ProjectSettingsRow, height: u16) -> bool {
    match row {
        ProjectSettingsRow::Text(_) => true,
        ProjectSettingsRow::Spacer(_) => false,
        ProjectSettingsRow::Checkbox(_) | ProjectSettingsRow::DualCheckbox(_, _) | ProjectSettingsRow::InjectDepth => height >= 2,
        ProjectSettingsRow::Path(_) | ProjectSettingsRow::AliasAddButton => height >= 3,
        ProjectSettingsRow::AliasCustom { .. } | ProjectSettingsRow::AliasCustomDraft => true,
    }
}

/// Whether `row` is drawn in a slot `height` screen rows tall.
pub fn row_drawn(row: &ProjectSettingsRow, height: u16) -> (r: bool)
    ensures
        r == row_drawn_spec(*row, height),
{
    match row {
        ProjectSettingsRow::Text(_) => true,
        ProjectSettingsRow::Spacer(_) => false,
        ProjectSettingsRow::Checkbox(_) | ProjectSettingsRow::DualCheckbox(_, _) | ProjectSettingsRow::InjectDepth => height >= 2,
        ProjectSettingsRow::Path(_) | ProjectSettingsRow::AliasAddButton => height >= 3,
        ProjectSettingsRow::AliasCustom { .. } | ProjectSettingsRow::AliasCustomDraft => true,
    }
}

} // verus!
