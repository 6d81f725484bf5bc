use comfygit::mouse_routing::{topmost_area_at, wheel_action, WheelAction, WheelContext};
use comfygit::layout::dashboard_tile_columns;
use comfygit::dashboard_state::{
    affected_scope_indexes, move_project_selection, reorder_projects, toggle_dashboard_focus,
    FooterState,
};
use comfygit::changelog_preview::{
    combined_preview_markdown, release_message_value, scroll_changelog_preview,
    scroll_changelog_preview_to_end, PreviewEntry,
};
use comfygit::key_routing::{
    opens_help, tab_shortcut, toggles_footer, ShortcutTarget,
    dialog_key_route, paste_route, paste_status, quit_requested, DialogRoute, OpenDialogs, PasteRoute,
    PasteTargets,
};
use comfygit::dialog_keys::{
    bump_key_action, dashboard_key_action, delete_confirmation_key_action, list_key_action,
    overview_branch_bump_key_action, recent_changes_key_action, warning_key_action,
    BranchBumpKeyAction, BumpKeyAction, ChoiceKeyAction, DashboardKeyAction, DeleteKeyAction,
    DialogKey, LogTab, Mods, RecentChangesKeyAction,
};
use comfygit::textarea_click::{count_decimal_digits, is_double_click, textarea_click_geometry, textarea_click_target, TextareaClick};
use comfygit::release_now_keys::{handle_release_now_key, ReleaseNowKey, ReleaseNowKeyAction, ReleaseNowModes};
use comfygit::changelog_range::{CustomChangelogRangeFocus, CustomChangelogRangeState};
use comfygit::preview_keys::{handle_changelog_preview_key, PreviewKey, PreviewKeyAction};
use comfygit::pointer::{resolve_hit_target, ActionGroup, ModalState, TargetGroups};
use comfygit::repo_files::gitignore_with_entry;
use comfygit::repo_files::gitignore_roots;
use comfygit::repo_files::{append_sibling_section, sibling_gets_section};
use comfygit::repo_files::{memory_has_entry, top_picks_edits_if_any};
use comfygit::repo_files::{append_sibling_sections, SiblingNotes};
use comfygit::hit_dismiss::{
    artifacts_choice_closes, custom_target_key_status, dismissal, recent_changes_scope_status,
    recent_changes_tab_hit, ClosedDialog, DismissHit, RecentChangesTabHit,
};
use comfygit::dashboard_delete::{
    confirm_delete_request, deletion_cancelled_status, request_dashboard_delete, DashboardSelection,
    DeleteError, DeleteRequest, ProjectSummary, ScopeSummary, project_edit_open_status,
    project_edit_preferred_scope, project_saved_status, request_project_deletion, save_error_route,
    SaveErrorRoute,
};
use comfygit::std_changelog_run::{postponed_replay, replay_report, ReplayStep};
use comfygit::dialogs::IntegrationMode;
use comfygit::git_log::{
    find_commit_hash_range, git_graph_base_column, graph_char_lane, hash_lane,
    is_git_graph_character, textarea_click_position,
};
use comfygit::help::{
    help_blocked_by_text_input, resolve_help_context, ChangelogPreviewKind, DashboardPane,
    HelpContext, HelpInputs, OverviewTab, ReleaseNowPhase, Screen, TextInputState,
};
use comfygit::pointer::{rect_contains, HitTarget, MouseKind, PointerTracker, ScreenRect};
use comfygit::project_settings::ProjectSettingsTab;
use comfygit::key_routing::{key_route, KeyFacts, KeyRoute};
use comfygit::hit_navigation::{apply_navigation_hit, DashboardNav, NavigationHit};
use comfygit::scope_draft::{
    rotate_scope_kind, BranchScopeKind, BranchSource, DeleteConfirmationDialog, ScopeDraft,
    ScopeDraftError, TargetProbe, TargetSpec,
};
use comfygit::target_keys::{
    cycle_preset_among, cycle_target_key_preset, default_target_key_for_path,
    target_key_is_custom, target_key_presets, target_key_presets_for, TargetFileClass,
};
use comfygit::ui_settings::{
    help_line_for_tab, tab_selection_flash_message,
    activate_ui_settings_field, build_rows, scroll_ui_settings, total_rows_height,
    ui_settings_key_action, UiControlChange, UiKey, UiKeyAction, UiSettingsFocus, UiSettingsRow,
    UiSettingsState, UiSettingsTab,
};
use comfygit::versions::VersionScheme;

#[derive(Clone, Copy, Debug, PartialEq, Eq)]
enum Format {
    Auto,
    Toml,
    Json,
}

/// A repository setting, referred to by its index in the host's list.
type RepoRef = usize;

fn probed(format: Format) -> Option<TargetProbe<Format>> {
    Some(TargetProbe { succeeded: true, format: Some(format) })
}

#[test]
fn target_key_switches_to_toml_default_when_target_path_changes() {
    assert_eq!(default_target_key_for_path("C:/repo/Cargo.toml", TargetFileClass::Other), "package.version");
    assert!(!target_key_is_custom("C:/repo/Cargo.toml", "package.version", TargetFileClass::Other));
}

#[test]
fn presets_follow_file_names_before_extensions() {
    let presets = target_key_presets_for("a/pyproject.toml", Some("pyproject.toml".to_string()), Some("toml".to_string()), TargetFileClass::Other);
    assert_eq!(presets, vec!["project.version", "tool.poetry.version", "version"]);
    let presets = target_key_presets_for("App.csproj", Some("App.csproj".to_string()), Some("csproj".to_string()), TargetFileClass::Other);
    assert_eq!(presets, vec!["PropertyGroup.Version", "PropertyGroup.PackageVersion", "Version"]);
    let presets = target_key_presets_for("VERSION", Some("VERSION".to_string()), None, TargetFileClass::PlainVersion);
    assert_eq!(presets, vec!["", ".", "@"]);
    let presets = target_key_presets_for("Chart.YAML", Some("Chart.YAML".to_string()), Some("YAML".to_string()), TargetFileClass::Other);
    assert_eq!(presets, vec!["version", "appVersion", "chart.version"]);
    let presets = target_key_presets_for("notes", Some("notes".to_string()), None, TargetFileClass::Other);
    assert_eq!(presets, vec!["version", "package.version", "workspace.package.version"]);
}

#[test]
fn cycling_presets_wraps_in_both_directions() {
    let presets = vec!["package.version", "workspace.package.version", "version"];
    assert_eq!(cycle_preset_among(&presets, " version ", 1), "package.version");
    assert_eq!(cycle_preset_among(&presets, "package.version", -1), "version");
    assert_eq!(cycle_preset_among(&presets, "custom.key", 1), "workspace.package.version");
    assert_eq!(cycle_target_key_preset("C:/repo/Cargo.toml", "package.version", 1, TargetFileClass::Other), "workspace.package.version");
}

#[test]
fn branched_wizard_builds_multiple_scopes() {
    let mut core: ScopeDraft<Format, RepoRef> = ScopeDraft::new("core".to_string(), Format::Auto);
    core.target_path = "C:/repo/core/Cargo.toml".to_string();
    core.target_key = "package.version".to_string();
    core.last_probe = probed(Format::Toml);
    let mut api: ScopeDraft<Format, RepoRef> = ScopeDraft::new("api".to_string(), Format::Auto);
    api.target_path = "C:/repo/api/package.json".to_string();
    api.target_key = "version".to_string();
    api.scope_kind = BranchScopeKind::Service;
    api.last_probe = probed(Format::Json);

    let branches: Vec<_> = [core, api]
        .iter()
        .map(|scope| scope.build_branch(true, TargetFileClass::Other).ok().expect("branched project should build"))
        .collect();
    assert_eq!(branches.len(), 2);
    assert_eq!(branches[0].name, "core");
    assert_eq!(branches[1].name, "api");
    assert_eq!(branches[1].scope_kind, BranchScopeKind::Service);
    assert_eq!(branches[1].target.format, Format::Json);
    assert_eq!(branches[0].repo, None);
}

#[test]
fn scope_drafts_are_checked_in_order() {
    let mut draft: ScopeDraft<Format, RepoRef> = ScopeDraft::new("  ".to_string(), Format::Auto);
    assert!(matches!(draft.build_branch(false, TargetFileClass::Other), Err(ScopeDraftError::EmptyName)));
    draft.name = "scope-2".to_string();
    let error = draft.build_branch(false, TargetFileClass::Other).err().unwrap();
    assert_eq!(error, ScopeDraftError::EmptyTargetPath);
    assert_eq!(error.message("scope-2"), "scope 'scope-2' target path cannot be empty");
    draft.target_path = "VERSION".to_string();
    draft.target_key = " ".to_string();
    assert!(matches!(draft.build_branch(false, TargetFileClass::Other), Err(ScopeDraftError::EmptyTargetKey)));
    assert!(matches!(draft.build_branch(true, TargetFileClass::PlainVersion), Err(ScopeDraftError::NotReadYet)));
    let built = draft.build_branch(false, TargetFileClass::PlainVersion).ok().unwrap();
    assert_eq!(built.target.key_path, "");
    assert_eq!(built.target.format, Format::Auto);
    assert_eq!(built.label, "scope-2");
}

#[test]
fn scope_display_names_show_distinct_labels() {
    let mut draft: ScopeDraft<Format, RepoRef> = ScopeDraft::new(" core ".to_string(), Format::Auto);
    assert_eq!(draft.display_name(), "core");
    draft.label_follows_name = false;
    draft.label = "Core Engine".to_string();
    assert_eq!(draft.display_name(), "Core Engine [core]");
    draft.name = String::new();
    assert_eq!(draft.display_name(), "(unnamed scope)");
    let mut following: ScopeDraft<Format, RepoRef> = ScopeDraft::new(" api ".to_string(), Format::Auto);
    following.sync_label_if_needed();
    assert_eq!(following.label, "api");
}

#[test]
fn drafts_load_existing_scopes_from_their_first_target() {
    let branch = BranchSource {
        name: "core".to_string(),
        label: "  ".to_string(),
        scope_kind: BranchScopeKind::Module,
        changelog_enabled: true,
        version_scheme: VersionScheme::CalVerYearMonthMicro,
        repo: Some(3),
        targets: vec![TargetSpec {
            label: "Version".to_string(),
            path: "core/Cargo.toml".to_string(),
            key_path: "package.version".to_string(),
            format: Format::Toml,
        }],
    };
    let draft = ScopeDraft::from_branch(&branch, IntegrationMode::GitHubEnabled, false).unwrap();
    assert_eq!(draft.label, "core");
    assert!(draft.label_follows_name);
    assert_eq!(draft.format, Format::Toml);
    assert_eq!(draft.integration_mode, IntegrationMode::GitHubEnabled);
    assert_eq!(draft.repo, Some(3));
    let built = draft.build_branch(false, TargetFileClass::Other).ok().unwrap();
    assert_eq!(built.repo, Some(3));
    assert_eq!(built.label, "core");
    assert_eq!(built.target.path, "core/Cargo.toml");
    let empty = BranchSource { targets: Vec::new(), ..branch };
    assert!(ScopeDraft::from_branch(&empty, IntegrationMode::LocalOnly, false).is_none());
}

#[test]
fn scope_kinds_rotate_both_ways() {
    assert_eq!(rotate_scope_kind(BranchScopeKind::Service, 1), BranchScopeKind::Branch);
    assert_eq!(rotate_scope_kind(BranchScopeKind::Branch, -1), BranchScopeKind::Service);
}

#[test]
fn delete_confirmation_starts_on_cancel_and_toggles() {
    let mut dialog = DeleteConfirmationDialog::project(2, "demo".to_string());
    assert!(!dialog.confirm_selected);
    dialog.toggle_selection();
    assert!(dialog.confirm_selected);
    let scope = DeleteConfirmationDialog::scope(0, "demo".to_string(), 1, "api".to_string(), BranchScopeKind::Service, false);
    assert!(!scope.confirm_selected);
}

#[test]
fn graph_column_is_the_leftmost_star_or_bar_in_bytes() {
    let lines = vec!["  * abc".to_string(), "é| def".to_string(), "no graph".to_string()];
    assert_eq!(git_graph_base_column(&lines), 2);
    assert_eq!(git_graph_base_column(&vec!["plain".to_string()]), 0);
    assert!(is_git_graph_character('/'));
    assert!(!is_git_graph_character('-'));
}

#[test]
fn commit_hash_range_is_a_spaced_run_of_seven_hex_digits() {
    assert_eq!(find_commit_hash_range("* 1a2b3c4 fix"), Some((2, 9)));
    assert_eq!(find_commit_hash_range("* abc fix"), None);
    assert_eq!(find_commit_hash_range("é deadbeef"), Some((3, 11)));
    assert_eq!(find_commit_hash_range("x1234567 y"), None);
    assert_eq!(hash_lane("| * ", 0), Some(1));
    assert_eq!(hash_lane("   ", 0), None);
    assert_eq!(graph_char_lane(7, 3), 2);
}

#[test]
fn clicks_map_to_wrapped_line_positions() {
    let lines = vec!["abcdefghij".to_string(), "xy".to_string()];
    assert_eq!(textarea_click_position(&lines, 0, 4, 1, 1), (0, 5));
    assert_eq!(textarea_click_position(&lines, 0, 4, 2, 3), (0, 10));
    assert_eq!(textarea_click_position(&lines, 0, 4, 3, 9), (1, 2));
    assert_eq!(textarea_click_position(&lines, 1, 0, 5, 0), (1, 2));
}

#[test]
fn question_mark_toggles_context_help() {
    let mut inputs = HelpInputs {
        snif: false,
        browser: false,
        release_now_notes: false,
        top_picks_editor: false,
        release_now: None,
        delete_confirmation: false,
        commit_rename: false,
        project_edit: false,
        tag_annotation: false,
        main_branch_warning: false,
        std_changelog_sub_branch: false,
        tag: false,
        changelog_preview: None,
        recent_changes: false,
        overview_bump_warning: false,
        overview_bump_kind: false,
        overview_branch_bump: false,
        overview_bump_workflow: false,
        bump: false,
        progress: false,
        screen: Screen::Dashboard,
        dashboard_focus: DashboardPane::Projects,
        overview_tab: OverviewTab::Overview,
        project_settings_tab: ProjectSettingsTab::General,
    };
    let no_dialogs = OpenDialogs {
        progress: false,
        snif: false,
        browser: false,
        release_now_notes: false,
        top_picks_editor: false,
        release_now: false,
        delete_confirmation: false,
        commit_rename: false,
        project_edit: false,
        tag_annotation: false,
        main_branch_warning: false,
        std_changelog_sub_branch: false,
        tag: false,
        changelog_preview: false,
        recent_changes: false,
        overview_bump_warning: false,
        overview_bump_kind: false,
        overview_branch_bump: false,
        overview_bump_workflow: false,
        bump: false,
    };
    let question_mark = KeyFacts {
        ctrl_v: false,
        toast_took_key: false,
        help_open: false,
        help_closes: false,
        dialogs: no_dialogs,
        settings_captures_text: false,
        tab_shortcut_applies: false,
        plain_question_mark: true,
        help_blocked: false,
        plain_h: false,
        plain_q: false,
        screen: Screen::Dashboard,
        wizard_field_takes_text: false,
        project_edit_field_takes_text: false,
    };
    assert_eq!(key_route(question_mark), KeyRoute::OpenHelp);
    assert_eq!(resolve_help_context(&inputs), HelpContext::DashboardProjects);
    let escape = KeyFacts { help_open: true, help_closes: true, plain_question_mark: false, ..question_mark };
    assert_eq!(key_route(escape), KeyRoute::CloseHelp);
    let scroll = KeyFacts { help_closes: false, ..escape };
    assert_eq!(key_route(scroll), KeyRoute::Help);
    let quit_in_field = KeyFacts { plain_question_mark: false, plain_q: true, settings_captures_text: true, ..question_mark };
    assert_eq!(key_route(quit_in_field), KeyRoute::SettingsPane);
    let quit = KeyFacts { settings_captures_text: false, ..quit_in_field };
    assert_eq!(key_route(quit), KeyRoute::Quit);
    let under_dialog = KeyFacts { dialogs: OpenDialogs { tag: true, ..no_dialogs }, ..quit };
    assert_eq!(key_route(under_dialog), KeyRoute::Dialog(DialogRoute::Tag));
    inputs.changelog_preview = Some(ChangelogPreviewKind::CustomRange);
    inputs.release_now = Some(ReleaseNowPhase::Running);
    assert_eq!(resolve_help_context(&inputs), HelpContext::ModalReleaseNowRunning);
    inputs.release_now = None;
    assert_eq!(resolve_help_context(&inputs), HelpContext::ModalChangelogPreviewCustomRange);
}

#[test]
fn help_is_blocked_while_a_text_input_takes_keys() {
    let mut state = TextInputState {
        commit_rename_open: false,
        tag_annotation_open: false,
        release_now_notes_open: false,
        top_picks_editor_open: false,
        workflow_preview_open: false,
        snif_open: false,
        tag_open: false,
        branch_bump_input_enabled: false,
        screen: Screen::Dashboard,
        overview_tab: OverviewTab::ProjectSettings,
        wizard_focus_accepts_text: true,
        project_edit_accepts_text: false,
        project_settings_captures_text: false,
    };
    assert!(!help_blocked_by_text_input(&state));
    state.project_settings_captures_text = true;
    assert!(help_blocked_by_text_input(&state));
}

#[test]
fn ui_settings_tabs_rows_and_keys() {
    assert_eq!(UiSettingsTab::General.step(-1), UiSettingsTab::Tabs);
    assert_eq!(build_rows(UiSettingsTab::Tabs)[1], UiSettingsRow::Cycle(UiSettingsFocus::TabSelectionFlashColor));
    assert_eq!(total_rows_height(UiSettingsTab::General), 8);
    let mut state = UiSettingsState::new();
    state.focus_previous();
    assert_eq!(state.focus, UiSettingsFocus::FooterContent);
    state.step_tab(1);
    assert_eq!(state.tab, UiSettingsTab::Tabs);
    assert_eq!(state.focus, UiSettingsFocus::TabSelectionFlashEnabled);
    state.viewport_height = 0;
    scroll_ui_settings(&mut state, 3);
    assert_eq!(state.scroll, 3);
    assert_eq!(ui_settings_key_action(UiKey::Left, UiSettingsFocus::HideFooter), UiKeyAction::Nothing);
    assert_eq!(
        ui_settings_key_action(UiKey::Right, UiSettingsFocus::TabSelectionFlashColor),
        UiKeyAction::Change(UiControlChange::CycleTabSelectionFlashColor(1))
    );
    assert_eq!(ui_settings_key_action(UiKey::Char { c: 's', ctrl: true }, UiSettingsFocus::HideFooter), UiKeyAction::BackToDashboard);
    assert_eq!(activate_ui_settings_field(&mut state, UiSettingsFocus::HideFooter), UiControlChange::ToggleFooter);
}

#[test]
fn pointer_positions_fall_back_for_wheel_events() {
    let mut tracker = PointerTracker::new();
    assert_eq!(tracker.position_for_wheel(0, 0), (0, 0));
    tracker.update(MouseKind::Moved, 12, 4);
    tracker.update(MouseKind::ScrollDown, 0, 0);
    assert_eq!(tracker.position_for_wheel(0, 0), (12, 4));
    assert_eq!(tracker.position_for_wheel(3, 1), (3, 1));
    let rect = ScreenRect { x: 2, y: 3, width: 4, height: 2 };
    assert!(rect_contains(rect, 5, 4));
    assert!(!rect_contains(rect, 6, 4));
    let target = HitTarget::new(rect, 7u8);
    assert!(target.contains(2, 3));
}

#[test]
fn clicks_go_to_the_smallest_latest_target_the_dialogs_allow() {
    let big = ScreenRect { x: 0, y: 0, width: 20, height: 10 };
    let small = ScreenRect { x: 2, y: 2, width: 4, height: 2 };
    let targets = vec![HitTarget::new(big, "background"), HitTarget::new(small, "button"), HitTarget::new(small, "overlay")];
    let groups = vec![
        TargetGroups { left: ActionGroup::Other, right: None },
        TargetGroups { left: ActionGroup::Other, right: None },
        TargetGroups { left: ActionGroup::DeleteRequest, right: Some(ActionGroup::DeleteRequest) },
    ];
    let mut modals = ModalState {
        browser: false,
        delete_confirmation: false,
        overview_bump_kind: false,
        recent_changes: false,
        commit_rename: false,
        tag: false,
        tag_annotation: false,
        release_now_notes: false,
        top_picks_editor: false,
        release_now: false,
        std_changelog_sub_branch: false,
        project_edit: false,
    };
    assert_eq!(resolve_hit_target(&targets, &groups, modals, 3, 3, false), Some(2));
    assert_eq!(resolve_hit_target(&targets, &groups, modals, 10, 8, false), Some(0));
    assert_eq!(resolve_hit_target(&targets, &groups, modals, 10, 8, true), None);
    modals.browser = true;
    assert_eq!(resolve_hit_target(&targets, &groups, modals, 3, 3, false), None);
    modals.browser = false;
    modals.delete_confirmation = true;
    assert_eq!(resolve_hit_target(&targets, &groups, modals, 10, 8, false), None);
    assert_eq!(resolve_hit_target(&targets, &groups, modals, 3, 3, true), Some(2));
}

#[test]
fn gitignore_entries_are_added_once_after_a_blank_line() {
    assert_eq!(gitignore_with_entry("", " changelog_temp.md ").as_deref(), Some("changelog_temp.md\n"));
    assert_eq!(gitignore_with_entry("target\n", "changelog_temp.md").as_deref(), Some("target\n\nchangelog_temp.md\n"));
    assert_eq!(gitignore_with_entry("target\r\n\r\n", "x").as_deref(), Some("target\n\nx\n"));
    assert_eq!(gitignore_with_entry("a\n  changelog_temp.md  \nb", "changelog_temp.md"), None);
}

#[test]
fn gitignore_roots_are_trimmed_distinct_and_non_blank() {
    let roots = vec![" C:/repo ".to_string(), "".to_string(), "C:/repo".to_string(), "C:/other".to_string()];
    assert_eq!(gitignore_roots(&roots), vec!["C:/repo".to_string(), "C:/other".to_string()]);
}

#[test]
fn merged_branched_notes_preserve_top_picks_headers_per_scope() {
    let composite_tag = "v0.5.2+core.0.9.1";
    let mut notes = "# Core Release\n\n### Top Picks\n- core fix".to_string();
    assert!(append_sibling_section(&mut notes, "API Module", composite_tag, "### Top Picks\n- module fix"));
    assert!(notes.contains("## API Module — v0.5.2+core.0.9.1"));
    assert_eq!(notes.matches("### Top Picks").count(), 2);
    assert!(notes.contains("- core fix"));
    assert!(notes.contains("- module fix"));
    assert!(!append_sibling_section(&mut notes, "Empty", composite_tag, "  \n "));
    assert!(sibling_gets_section(1, 0, Some(BranchScopeKind::Module)));
    assert!(!sibling_gets_section(0, 0, Some(BranchScopeKind::Service)));
    assert!(!sibling_gets_section(2, 0, Some(BranchScopeKind::Branch)));
}

#[test]
fn memory_entries_match_trimmed_tag_and_branch() {
    let entries = vec![(" v1.0.0".to_string(), "main ".to_string())];
    assert!(memory_has_entry(&entries, "v1.0.0", " main"));
    assert!(!memory_has_entry(&entries, "v1.0.0", "dev"));
    assert_eq!(top_picks_edits_if_any("  \n".to_string()), None);
    assert_eq!(top_picks_edits_if_any("- pick".to_string()), Some("- pick".to_string()));
}

#[test]
fn preview_keys_drive_the_range_picker_and_the_dialog() {
    let mut range = Some(CustomChangelogRangeState::new(
        "core".to_string(),
        vec!["v3".to_string(), "v2".to_string(), "v1".to_string()],
        None,
    ));
    assert_eq!(handle_changelog_preview_key(&mut range, false, PreviewKey::Tab), PreviewKeyAction::Handled);
    assert_eq!(range.as_ref().unwrap().focus, CustomChangelogRangeFocus::To);
    assert_eq!(handle_changelog_preview_key(&mut range, false, PreviewKey::Right), PreviewKeyAction::Handled);
    assert_eq!(
        handle_changelog_preview_key(&mut range, false, PreviewKey::Char { c: '1', ctrl: false }),
        PreviewKeyAction::Handled
    );
    assert_eq!(handle_changelog_preview_key(&mut range, false, PreviewKey::Right), PreviewKeyAction::RefreshPreview);
    assert_eq!(range.as_ref().unwrap().current_from_ref(), Some("v2"));
    assert_eq!(
        handle_changelog_preview_key(&mut range, false, PreviewKey::Char { c: 'r', ctrl: false }),
        PreviewKeyAction::RefreshPreview
    );
    assert_eq!(
        handle_changelog_preview_key(&mut range, false, PreviewKey::Char { c: 's', ctrl: true }),
        PreviewKeyAction::Save
    );
    assert_eq!(handle_changelog_preview_key(&mut range, false, PreviewKey::PageDown), PreviewKeyAction::Scroll(8));
    assert_eq!(handle_changelog_preview_key(&mut range, false, PreviewKey::Enter), PreviewKeyAction::Confirm);
    assert_eq!(handle_changelog_preview_key(&mut range, true, PreviewKey::Enter), PreviewKeyAction::EditReleaseMessage);
    let mut none = None;
    assert_eq!(handle_changelog_preview_key(&mut none, false, PreviewKey::Tab), PreviewKeyAction::Ignored);
    assert_eq!(handle_changelog_preview_key(&mut none, false, PreviewKey::Esc), PreviewKeyAction::Cancel);
}

fn idle_release_now() -> ReleaseNowModes {
    ReleaseNowModes {
        mirror_sync: false,
        mirror_sync_running: false,
        warning: false,
        warning_confirm_selected: false,
        customize: false,
        existing_artifacts: false,
        artifacts_choice_selected: 0,
        running: false,
        completed: false,
    }
}

#[test]
fn release_now_keys_follow_the_dialog_step() {
    let idle = idle_release_now();
    assert_eq!(handle_release_now_key(idle, ReleaseNowKey::F2), ReleaseNowKeyAction::Run);
    assert_eq!(handle_release_now_key(idle, ReleaseNowKey::Char('E')), ReleaseNowKeyAction::OpenNotes);
    assert_eq!(handle_release_now_key(idle, ReleaseNowKey::PageDown), ReleaseNowKeyAction::Scroll(6));
    let sync = ReleaseNowModes { mirror_sync: true, ..idle };
    assert_eq!(handle_release_now_key(sync, ReleaseNowKey::Enter), ReleaseNowKeyAction::MirrorSync(true));
    assert_eq!(handle_release_now_key(sync, ReleaseNowKey::Char('r')), ReleaseNowKeyAction::MirrorSync(false));
    let syncing = ReleaseNowModes { mirror_sync_running: true, ..sync };
    assert_eq!(handle_release_now_key(syncing, ReleaseNowKey::Esc), ReleaseNowKeyAction::Nothing);
    assert_eq!(handle_release_now_key(syncing, ReleaseNowKey::Up), ReleaseNowKeyAction::Scroll(-1));
    let warning = ReleaseNowModes { warning: true, ..idle };
    assert_eq!(handle_release_now_key(warning, ReleaseNowKey::Enter), ReleaseNowKeyAction::Close);
    let confirming = ReleaseNowModes { warning_confirm_selected: true, ..warning };
    assert_eq!(handle_release_now_key(confirming, ReleaseNowKey::Enter), ReleaseNowKeyAction::ProceedPastWarning);
    assert_eq!(handle_release_now_key(warning, ReleaseNowKey::PageDown), ReleaseNowKeyAction::Nothing);
    let customize = ReleaseNowModes { customize: true, ..idle };
    assert_eq!(handle_release_now_key(customize, ReleaseNowKey::Up), ReleaseNowKeyAction::CycleCustomizePlatform(-1));
    let artifacts = ReleaseNowModes { existing_artifacts: true, artifacts_choice_selected: 3, ..idle };
    assert_eq!(handle_release_now_key(artifacts, ReleaseNowKey::Enter), ReleaseNowKeyAction::Close);
    assert_eq!(handle_release_now_key(artifacts, ReleaseNowKey::BackTab), ReleaseNowKeyAction::CycleArtifactsChoice(-1));
    let running = ReleaseNowModes { running: true, ..idle };
    assert_eq!(handle_release_now_key(running, ReleaseNowKey::Esc), ReleaseNowKeyAction::WarnStillRunning);
    assert_eq!(handle_release_now_key(running, ReleaseNowKey::Char('x')), ReleaseNowKeyAction::CancelRun);
    let done = ReleaseNowModes { completed: true, ..idle };
    assert_eq!(handle_release_now_key(done, ReleaseNowKey::Enter), ReleaseNowKeyAction::Close);
}

#[test]
fn editor_clicks_skip_the_border_and_the_line_number_gutter() {
    let lines = vec!["abc".to_string(), "defgh".to_string(), "ij".to_string()];
    let rect = ScreenRect { x: 0, y: 0, width: 20, height: 5 };
    assert_eq!(
        textarea_click_geometry(rect, 3, 0, 5, 2),
        TextareaClick { start_row: 0, content_width: 15, relative_row: 1, clicked_col: 1 }
    );
    assert_eq!(textarea_click_target(&lines, rect, 0, 5, 2), (1, 1));
    let tall = ScreenRect { x: 2, y: 1, width: 40, height: 12 };
    assert_eq!(
        textarea_click_geometry(tall, 150, 120, 10, 3),
        TextareaClick { start_row: 115, content_width: 34, relative_row: 1, clicked_col: 3 }
    );
    assert_eq!(count_decimal_digits(0), 1);
    assert_eq!(count_decimal_digits(1000), 4);
    assert!(is_double_click(Some(400)));
    assert!(!is_double_click(Some(401)));
    assert!(!is_double_click(None));
}

fn ch(c: char) -> DialogKey {
    DialogKey::Char { c, mods: Mods::Plain }
}

#[test]
fn choice_dialogs_rotate_select_and_confirm() {
    assert_eq!(warning_key_action(ch('3')), ChoiceKeyAction::Select(2));
    assert_eq!(warning_key_action(ch('4')), ChoiceKeyAction::Nothing);
    assert_eq!(warning_key_action(DialogKey::BackTab), ChoiceKeyAction::Rotate(-1));
    assert_eq!(warning_key_action(DialogKey::F2), ChoiceKeyAction::Confirm);
    assert_eq!(list_key_action(ch('4')), ChoiceKeyAction::Select(3));
    assert_eq!(list_key_action(ch('0')), ChoiceKeyAction::Nothing);
    assert_eq!(list_key_action(DialogKey::Esc), ChoiceKeyAction::Cancel);
    assert_eq!(delete_confirmation_key_action(DialogKey::Enter, false), DeleteKeyAction::Cancel);
    assert_eq!(delete_confirmation_key_action(DialogKey::Enter, true), DeleteKeyAction::Confirm);
    assert_eq!(delete_confirmation_key_action(ch('Y'), false), DeleteKeyAction::Confirm);
    assert_eq!(delete_confirmation_key_action(DialogKey::Tab, false), DeleteKeyAction::ToggleSelection);
    assert_eq!(bump_key_action(DialogKey::Left), BumpKeyAction::RotateAction(-1));
    assert_eq!(bump_key_action(DialogKey::Tab), BumpKeyAction::RotateScope(1));
    assert_eq!(bump_key_action(DialogKey::Enter), BumpKeyAction::Apply);
}

#[test]
fn branch_bump_keys_edit_the_name_only_while_its_input_is_enabled() {
    assert_eq!(overview_branch_bump_key_action(ch('2'), true), BranchBumpKeyAction::Select(1));
    assert_eq!(overview_branch_bump_key_action(ch('x'), true), BranchBumpKeyAction::Insert('x'));
    assert_eq!(overview_branch_bump_key_action(ch('x'), false), BranchBumpKeyAction::Nothing);
    assert_eq!(
        overview_branch_bump_key_action(DialogKey::Char { c: '2', mods: Mods::Shift }, true),
        BranchBumpKeyAction::Insert('2')
    );
    assert_eq!(
        overview_branch_bump_key_action(DialogKey::Char { c: 'x', mods: Mods::Control }, true),
        BranchBumpKeyAction::Nothing
    );
    assert_eq!(overview_branch_bump_key_action(DialogKey::Backspace, true), BranchBumpKeyAction::Backspace);
    assert_eq!(overview_branch_bump_key_action(DialogKey::Home, false), BranchBumpKeyAction::Nothing);
    assert_eq!(overview_branch_bump_key_action(DialogKey::PageDown, false), BranchBumpKeyAction::Scroll(3));
}

#[test]
fn git_log_keys_load_history_before_showing_it() {
    assert_eq!(
        recent_changes_key_action(DialogKey::Tab, LogTab::Recent, false, true),
        RecentChangesKeyAction::LoadHistory
    );
    assert_eq!(
        recent_changes_key_action(DialogKey::Tab, LogTab::Recent, true, true),
        RecentChangesKeyAction::CycleTab(1)
    );
    assert_eq!(
        recent_changes_key_action(ch('2'), LogTab::Recent, true, true),
        RecentChangesKeyAction::SwitchTab(LogTab::History)
    );
    assert_eq!(
        recent_changes_key_action(DialogKey::Char { c: 'r', mods: Mods::Control }, LogTab::Recent, true, true),
        RecentChangesKeyAction::RenameCommit
    );
    assert_eq!(recent_changes_key_action(ch('R'), LogTab::Recent, true, true), RecentChangesKeyAction::Refresh);
    assert_eq!(
        recent_changes_key_action(DialogKey::Left, LogTab::Recent, true, false),
        RecentChangesKeyAction::Nothing
    );
    assert_eq!(
        recent_changes_key_action(DialogKey::Left, LogTab::History, true, true),
        RecentChangesKeyAction::NavigateHistory(1)
    );
    assert_eq!(recent_changes_key_action(DialogKey::PageUp, LogTab::History, true, true), RecentChangesKeyAction::Scroll(-8));
}

#[test]
fn dashboard_keys_open_dialogs_and_move_by_pane() {
    assert_eq!(dashboard_key_action(ch('n'), false, false), DashboardKeyAction::OpenWizard);
    assert_eq!(dashboard_key_action(ch('N'), false, false), DashboardKeyAction::Nothing);
    assert_eq!(dashboard_key_action(ch('L'), false, false), DashboardKeyAction::OpenReleaseNow);
    assert_eq!(
        dashboard_key_action(DialogKey::Char { c: 'r', mods: Mods::Control }, true, true),
        DashboardKeyAction::RenameCommit
    );
    assert_eq!(
        dashboard_key_action(DialogKey::Char { c: 'r', mods: Mods::Control }, true, false),
        DashboardKeyAction::Reload
    );
    assert_eq!(dashboard_key_action(DialogKey::Up, false, false), DashboardKeyAction::MoveProjectSelection(-1));
    assert_eq!(
        dashboard_key_action(DialogKey::PageDown, true, false),
        DashboardKeyAction::ScrollOverview { lines: 6, tiles: 1 }
    );
    assert_eq!(dashboard_key_action(DialogKey::PageDown, false, false), DashboardKeyAction::Nothing);
    assert_eq!(dashboard_key_action(DialogKey::Right, true, false), DashboardKeyAction::MoveOverviewFocus(1));
}

fn no_dialogs() -> OpenDialogs {
    OpenDialogs {
        progress: false,
        snif: false,
        browser: false,
        release_now_notes: false,
        top_picks_editor: false,
        release_now: false,
        delete_confirmation: false,
        commit_rename: false,
        project_edit: false,
        tag_annotation: false,
        main_branch_warning: false,
        std_changelog_sub_branch: false,
        tag: false,
        changelog_preview: false,
        recent_changes: false,
        overview_bump_warning: false,
        overview_bump_kind: false,
        overview_branch_bump: false,
        overview_bump_workflow: false,
        bump: false,
    }
}

#[test]
fn keys_go_to_the_first_open_dialog() {
    assert_eq!(dialog_key_route(no_dialogs()), DialogRoute::NoDialog);
    let both = OpenDialogs { recent_changes: true, commit_rename: true, ..no_dialogs() };
    assert_eq!(dialog_key_route(both), DialogRoute::CommitRename);
    let busy = OpenDialogs { progress: true, ..both };
    assert_eq!(dialog_key_route(busy), DialogRoute::Swallowed);
    assert_eq!(dialog_key_route(OpenDialogs { bump: true, ..no_dialogs() }), DialogRoute::Bump);
    assert!(quit_requested(true, false, true, false, false));
    assert!(!quit_requested(true, true, true, false, false));
    assert!(!quit_requested(true, false, false, false, true));
    assert!(!quit_requested(false, false, false, false, false));
}

fn entry(root: &str, path: &str, rendered: &str) -> PreviewEntry {
    PreviewEntry { repo_root: root.to_string(), changelog_path: path.to_string(), rendered: rendered.to_string() }
}

#[test]
fn changelog_preview_joins_entries_and_keeps_blank_messages_empty() {
    assert_eq!(release_message_value(&vec!["".to_string(), "   ".to_string()]), "");
    assert_eq!(release_message_value(&vec!["Hi".to_string(), "there".to_string()]), "Hi\nthere");
    assert_eq!(combined_preview_markdown(&vec![entry("r1", "CHANGELOG.md", "# v1\n\n- a\n")]), "# v1\n\n- a");
    assert_eq!(
        combined_preview_markdown(&vec![entry("r1", "CHANGELOG.md", "A"), entry("r2", "docs/c.md", "B\r\n")]),
        "### Repo: r1\nPath: `CHANGELOG.md`\n\nA\n\n### Repo: r2\nPath: `docs/c.md`\n\nB"
    );
    assert_eq!(combined_preview_markdown(&Vec::new()), "");
    assert_eq!(scroll_changelog_preview(0, -5, 10), 0);
    assert_eq!(scroll_changelog_preview(5, 10, 10), 9);
    assert_eq!(scroll_changelog_preview(3, 2, 0), 0);
    assert_eq!(scroll_changelog_preview(u16::MAX, i16::MIN, 100_000), 32767);
    assert_eq!(scroll_changelog_preview_to_end(100), 99);
    assert_eq!(scroll_changelog_preview_to_end(100_000), 65535);
}

#[test]
fn project_list_moves_and_reorders_within_bounds() {
    assert_eq!(move_project_selection(0, -1, 3), 0);
    assert_eq!(move_project_selection(1, 1, 3), 2);
    assert_eq!(move_project_selection(2, 5, 3), 2);
    assert_eq!(move_project_selection(4, 1, 0), 4);
    let mut projects = vec!["a", "b", "c", "d"];
    let mut selected = 0;
    assert!(reorder_projects(&mut projects, &mut selected, 0, 2));
    assert_eq!(projects, vec!["b", "c", "a", "d"]);
    assert_eq!(selected, 2);
    assert!(reorder_projects(&mut projects, &mut selected, 2, 0));
    assert_eq!(projects, vec!["a", "b", "c", "d"]);
    assert!(!reorder_projects(&mut projects, &mut selected, 1, 1));
    assert!(!reorder_projects(&mut projects, &mut selected, 1, 9));
    assert_eq!(selected, 0);
    assert_eq!(toggle_dashboard_focus(DashboardPane::Projects), DashboardPane::Overview);
    assert_eq!(affected_scope_indexes(true, 3, 1), vec![0, 1, 2]);
    assert_eq!(affected_scope_indexes(false, 3, 1), vec![1]);
}

#[test]
fn short_terminals_hide_the_footer_until_the_user_chooses() {
    let mut footer = FooterState { hidden: false, auto_hidden: false, manual_override: false };
    footer.update_footer_visibility(25);
    assert_eq!(footer, FooterState { hidden: true, auto_hidden: true, manual_override: false });
    footer.update_footer_visibility(40);
    assert_eq!(footer, FooterState { hidden: false, auto_hidden: false, manual_override: false });
    footer.update_footer_visibility(20);
    footer.toggle_footer();
    assert_eq!(footer, FooterState { hidden: false, auto_hidden: false, manual_override: true });
    footer.update_footer_visibility(10);
    assert!(!footer.hidden);
}

#[derive(Clone, Copy, Debug, PartialEq)]
enum ClickAction {
    SelectProject(usize),
    BrowserSelect(usize),
}

#[test]
fn browser_modal_hit_resolution_ignores_background_targets() {
    let targets = vec![
        HitTarget::new(ScreenRect { x: 0, y: 0, width: 1, height: 1 }, ClickAction::SelectProject(0)),
        HitTarget::new(ScreenRect { x: 0, y: 0, width: 10, height: 1 }, ClickAction::BrowserSelect(3)),
    ];
    let groups = vec![
        TargetGroups { left: ActionGroup::Other, right: None },
        TargetGroups { left: ActionGroup::BrowserSelect, right: None },
    ];
    let modals = ModalState {
        browser: true,
        delete_confirmation: false,
        overview_bump_kind: false,
        recent_changes: false,
        commit_rename: false,
        tag: false,
        tag_annotation: false,
        release_now_notes: false,
        top_picks_editor: false,
        release_now: false,
        std_changelog_sub_branch: false,
        project_edit: false,
    };
    let hit = resolve_hit_target(&targets, &groups, modals, 0, 0, false).map(|i| targets[i].action);
    assert!(matches!(hit, Some(ClickAction::BrowserSelect(3))));
}

#[test]
fn a_gitignore_entry_is_not_added_twice() {
    let first = gitignore_with_entry("target\r\nnode_modules", "  .comfygit/syncmem/stdchlg-local.json ").unwrap();
    assert_eq!(first, "target\nnode_modules\n\n.comfygit/syncmem/stdchlg-local.json\n");
    assert_eq!(gitignore_with_entry(&first, ".comfygit/syncmem/stdchlg-local.json"), None);
}

#[test]
fn pasted_text_goes_to_the_first_open_editor() {
    let none = PasteTargets {
        tag_annotation: false,
        workflow_changelog_preview: false,
        release_now_notes: false,
        commit_rename: false,
        top_picks_editor: false,
    };
    assert_eq!(paste_route(none), PasteRoute::ActiveField);
    let both = PasteTargets { commit_rename: true, top_picks_editor: true, ..none };
    assert_eq!(paste_route(both), PasteRoute::CommitMessage);
    let annotation = PasteTargets { tag_annotation: true, ..both };
    assert_eq!(paste_route(annotation), PasteRoute::TagAnnotation);
    assert_eq!(paste_status(PasteRoute::ReleaseMessage), "Pasted into the release notes.");
    assert_eq!(paste_status(PasteRoute::TopPicks), "Pasted into the Top Picks editor.");
}

#[test]
fn small_labels_and_counts() {
    assert_eq!(dashboard_tile_columns(80, 25), 3);
    assert_eq!(dashboard_tile_columns(10, 25), 1);
    assert_eq!(tab_selection_flash_message(true), "Tab selection flash enabled.");
    assert_eq!(tab_selection_flash_message(false), "Tab selection flash disabled.");
    assert!(help_line_for_tab(UiSettingsTab::Tabs).starts_with("Tab selection flash highlights"));
    let target = HitTarget::with_right_action(ScreenRect { x: 1, y: 1, width: 3, height: 1 }, 'l', 'r');
    assert_eq!(target.right_action, Some('r'));
    let range = CustomChangelogRangeState::new("core".to_string(), vec!["v2".to_string(), "v1".to_string()], None);
    assert_eq!(range.display_to(), "HEAD");
}

#[test]
fn digit_shortcuts_pick_overview_tabs_or_screens() {
    let tabs = vec![OverviewTab::Overview, OverviewTab::ProjectDetail, OverviewTab::ProjectSettings];
    assert_eq!(
        tab_shortcut(Some('3'), false, Screen::Dashboard, DashboardPane::Overview, &tabs),
        Some(ShortcutTarget::OverviewTab(OverviewTab::ProjectSettings))
    );
    assert_eq!(tab_shortcut(Some('4'), false, Screen::Dashboard, DashboardPane::Overview, &tabs), None);
    assert_eq!(
        tab_shortcut(Some('3'), false, Screen::Dashboard, DashboardPane::Projects, &tabs),
        Some(ShortcutTarget::UiSettings)
    );
    assert_eq!(tab_shortcut(Some('2'), true, Screen::Wizard, DashboardPane::Projects, &tabs), None);
    assert_eq!(
        tab_shortcut(Some('1'), false, Screen::UiSettings, DashboardPane::Overview, &tabs),
        Some(ShortcutTarget::Dashboard)
    );
    assert_eq!(tab_shortcut(None, false, Screen::Dashboard, DashboardPane::Projects, &tabs), None);
    assert!(opens_help(true, false));
    assert!(!opens_help(true, true));
    assert!(toggles_footer(true, false, true, false, false));
    assert!(!toggles_footer(true, false, false, true, false));
}

fn quiet_wheel() -> WheelContext {
    WheelContext {
        project_edit: false,
        changelog_preview: false,
        overview_bump_workflow: false,
        tag: false,
        recent_changes: false,
        bump: false,
        screen: Screen::Dashboard,
        overview_tab: OverviewTab::Overview,
        over_overview_log: false,
        over_tiles: false,
        overview_log_shown: false,
    }
}

#[test]
fn the_wheel_scrolls_the_open_dialog_or_what_is_under_the_pointer() {
    let c = quiet_wheel();
    assert_eq!(wheel_action(c, true), WheelAction::MoveProjectSelection(-1));
    assert_eq!(wheel_action(WheelContext { over_tiles: true, ..c }, false), WheelAction::ScrollTiles(1));
    assert_eq!(
        wheel_action(WheelContext { over_overview_log: true, overview_log_shown: true, over_tiles: true, ..c }, true),
        WheelAction::ScrollOverviewLog(-2)
    );
    assert_eq!(wheel_action(WheelContext { tag: true, changelog_preview: false, ..c }, true), WheelAction::Nothing);
    assert_eq!(
        wheel_action(WheelContext { changelog_preview: true, tag: true, ..c }, false),
        WheelAction::ScrollChangelogPreview(2)
    );
    assert_eq!(wheel_action(WheelContext { bump: true, ..c }, true), WheelAction::RotateBumpAction(-1));
    assert_eq!(
        wheel_action(WheelContext { overview_tab: OverviewTab::ProjectSettings, ..c }, false),
        WheelAction::ScrollProjectSettings(1)
    );
    assert_eq!(wheel_action(WheelContext { screen: Screen::UiSettings, ..c }, false), WheelAction::Nothing);
    let tiles = vec![
        (ScreenRect { x: 0, y: 0, width: 10, height: 5 }, 0),
        (ScreenRect { x: 5, y: 0, width: 10, height: 5 }, 1),
    ];
    assert_eq!(topmost_area_at(&tiles, 6, 2), Some(1));
    assert_eq!(topmost_area_at(&tiles, 2, 2), Some(0));
    assert_eq!(topmost_area_at(&tiles, 20, 2), None);
}

#[test]
fn presets_come_from_the_path_own_file_name_and_extension() {
    assert_eq!(
        target_key_presets("packages/web/package.json", TargetFileClass::Other),
        vec!["version", "package.version", "workspace.package.version"]
    );
    assert_eq!(
        target_key_presets("tools/pubspec.yaml", TargetFileClass::Other),
        vec!["version", "appVersion"]
    );
    assert_eq!(
        target_key_presets("charts/web/values.yml", TargetFileClass::Other),
        vec!["version", "appVersion", "chart.version"]
    );
    assert_eq!(
        target_key_presets(".toml", TargetFileClass::Other),
        vec!["version", "package.version", "workspace.package.version"]
    );
    assert_eq!(default_target_key_for_path("setup.cfg", TargetFileClass::Other), "metadata.version");
}

#[test]
fn navigation_clicks_move_focus_and_selection() {
    let start = DashboardNav {
        overview_tab: OverviewTab::Overview,
        project_settings_tab: ProjectSettingsTab::General,
        focus: DashboardPane::Projects,
        selected_project: 1,
    };
    let mut nav = start;
    let f = apply_navigation_hit(&mut nav, NavigationHit::SelectOverviewTab(OverviewTab::RecentChanges), 3);
    assert!(f.flash_overview_tab);
    assert_eq!(nav.overview_tab, OverviewTab::RecentChanges);
    assert_eq!(nav.focus, DashboardPane::Overview);
    let f = apply_navigation_hit(&mut nav, NavigationHit::SelectOverviewTab(OverviewTab::RecentChanges), 3);
    assert!(!f.flash_overview_tab);

    let f = apply_navigation_hit(&mut nav, NavigationHit::SelectProjectSettingsTab(ProjectSettingsTab::Git), 3);
    assert!(f.flash_project_settings_tab);
    assert_eq!(nav.overview_tab, OverviewTab::ProjectSettings);
    assert_eq!(nav.project_settings_tab, ProjectSettingsTab::Git);

    let f = apply_navigation_hit(&mut nav, NavigationHit::SelectProject(7), 3);
    assert!(f.refresh_selected_project);
    assert_eq!(nav.selected_project, 2);
    assert_eq!(nav.focus, DashboardPane::Projects);
    apply_navigation_hit(&mut nav, NavigationHit::SelectProject(5), 0);
    assert_eq!(nav.selected_project, 0);

    apply_navigation_hit(&mut nav, NavigationHit::OverviewTileControl, 3);
    assert_eq!(nav.focus, DashboardPane::Overview);
    assert_eq!(nav.selected_project, 0);
}

fn sibling(kind: Option<BranchScopeKind>, name: &str, section: &str) -> SiblingNotes {
    SiblingNotes {
        kind,
        display_name: name.to_string(),
        composite_tag: format!("{name}-v1.0.0"),
        section: section.to_string(),
    }
}

#[test]
fn sibling_sections_follow_the_core_notes() {
    let siblings = vec![
        sibling(Some(BranchScopeKind::Module), "core", "core notes"),
        sibling(Some(BranchScopeKind::Module), "api", "  api notes \n"),
        sibling(Some(BranchScopeKind::Branch), "docs", "docs notes"),
        sibling(Some(BranchScopeKind::Service), "web", "   "),
        sibling(Some(BranchScopeKind::Service), "worker", "worker notes"),
        sibling(None, "plain", "plain notes"),
    ];
    let mut notes = "Core".to_string();
    append_sibling_sections(&mut notes, &siblings, 0);
    assert_eq!(
        notes,
        "Core\n\n---\n\n## api \u{2014} api-v1.0.0\n\napi notes\n\n---\n\n## worker \u{2014} worker-v1.0.0\n\nworker notes"
    );
}

#[test]
fn postponed_changelogs_replay_only_from_mainline() {
    let on_main = vec!["main".to_string()];
    let off_main = vec!["feature-a".to_string()];
    assert_eq!(postponed_replay("feature-a", None, &on_main, false, true, false), None);
    assert_eq!(postponed_replay("main", None, &off_main, false, true, false), Some(ReplayStep::StillPostponed));
    assert_eq!(postponed_replay("main", None, &on_main, true, false, true), Some(ReplayStep::MarkArchived));
    assert_eq!(postponed_replay("trunk", Some("trunk"), &["* trunk".to_string()], false, true, false), Some(ReplayStep::Generate));

    assert_eq!(replay_report(ReplayStep::StillPostponed, "v1.2.0"), None);
    assert_eq!(
        replay_report(ReplayStep::Generate, "v1.2.0"),
        Some(Ok("Replayed postponed changelog 'v1.2.0' after it reached mainline lineage.".to_string()))
    );
    assert_eq!(
        replay_report(ReplayStep::FailNoPreviousTag, "v1.2.0"),
        Some(Err("Postponed changelog 'v1.2.0' could not be replayed: no previous tag found for postponed replay.".to_string()))
    );
    assert_eq!(
        replay_report(ReplayStep::FailEmptyRange, "v1.2.0"),
        Some(Err("Postponed changelog 'v1.2.0' could not be replayed: replayed postponed changelog range was empty.".to_string()))
    );
}

fn scope_summary(name: &str, kind: BranchScopeKind) -> ScopeSummary {
    ScopeSummary { display_name: name.to_string(), scope_kind: kind }
}

#[test]
fn deleting_a_project_asks_first_then_removes_it() {
    let mut projects = vec![ProjectSummary { name: "demo".to_string(), branched: false, scopes: Vec::new() }];
    let mut sel = DashboardSelection { selected_project: 0, focused_scope: 0 };
    let DeleteRequest::Confirm(dialog, status) = request_dashboard_delete(&projects, sel) else {
        panic!("the delete key should ask for confirmation");
    };
    assert_eq!(status, "Confirm deletion of project 'demo'.");
    assert!(!dialog.confirm_selected);
    assert_eq!(projects.len(), 1);
    let message = confirm_delete_request(&mut projects, &mut sel, &dialog.target).ok().unwrap();
    assert_eq!(message, "Removed project 'demo'.");
    assert!(projects.is_empty());
    assert_eq!(sel, DashboardSelection { selected_project: 0, focused_scope: 0 });
    assert!(matches!(request_dashboard_delete(&projects, sel), DeleteRequest::NothingSelected));
    assert_eq!(
        confirm_delete_request(&mut projects, &mut sel, &dialog.target).err(),
        Some(DeleteError::ProjectGone)
    );
    assert_eq!(DeleteError::ProjectGone.message(), "selected project no longer exists");
    assert_eq!(deletion_cancelled_status(), "Deletion cancelled.");
}

#[test]
fn deleting_removes_the_focused_scope_of_a_branched_project() {
    let mut projects = vec![
        ProjectSummary { name: "other".to_string(), branched: false, scopes: Vec::new() },
        ProjectSummary {
            name: "demo".to_string(),
            branched: true,
            scopes: vec![scope_summary("Core", BranchScopeKind::Branch), scope_summary("API", BranchScopeKind::Service)],
        },
    ];
    let mut sel = DashboardSelection { selected_project: 1, focused_scope: 5 };
    let DeleteRequest::Confirm(dialog, status) = request_dashboard_delete(&projects, sel) else {
        panic!("the delete key should ask for confirmation");
    };
    assert_eq!(status, "Confirm deletion of scope 'API' from project 'demo'.");
    let message = confirm_delete_request(&mut projects, &mut sel, &dialog.target).ok().unwrap();
    assert_eq!(message, "Removed scope 'API' from project 'demo'.");
    assert_eq!(projects[1].scopes.len(), 1);
    assert_eq!(projects[1].scopes[0].display_name, "Core");
    assert_eq!(sel, DashboardSelection { selected_project: 1, focused_scope: 0 });

    let DeleteRequest::Confirm(last, _) = request_dashboard_delete(&projects, sel) else {
        panic!("the delete key should ask for confirmation");
    };
    let message = confirm_delete_request(&mut projects, &mut sel, &last.target).ok().unwrap();
    assert_eq!(message, "Removed scope 'Core' and deleted project 'demo' because it had no scopes left.");
    assert_eq!(projects.len(), 1);
    assert_eq!(sel.selected_project, 0);
}

#[test]
fn project_editor_opens_saves_and_removes() {
    assert_eq!(project_edit_open_status(true), "Amend the selected scope settings, then save or update scopes.");
    assert_eq!(project_edit_open_status(false), "Amend project settings, then save or remove the project.");
    assert_eq!(project_edit_preferred_scope(true, 2), Some(2));
    assert_eq!(project_edit_preferred_scope(false, 2), None);
    assert_eq!(save_error_route(true, "scope 'api' target path cannot be empty"), SaveErrorRoute::StatusToast);
    assert_eq!(save_error_route(false, "scope 'api' target path cannot be empty"), SaveErrorRoute::Fail);
    assert_eq!(save_error_route(true, "scope name cannot be empty"), SaveErrorRoute::Fail);
    assert_eq!(project_saved_status(), "Project settings updated.");

    let projects = vec![ProjectSummary { name: "demo".to_string(), branched: true, scopes: Vec::new() }];
    let (dialog, status) = request_project_deletion(&projects, 0).ok().unwrap();
    assert_eq!(status, "Confirm deletion of project 'demo'.");
    assert!(!dialog.confirm_selected);
    assert_eq!(request_project_deletion(&projects, 1).err(), Some(DeleteError::ProjectGone));
}

#[test]
fn dismissing_controls_close_their_dialogs() {
    let d = dismissal(DismissHit::CloseRecentChanges);
    assert_eq!(d.closes, (Some(ClosedDialog::RecentChanges), None));
    assert!(d.cancels_recent_changes_jobs);
    assert_eq!(d.status, "Git log closed.");
    let d = dismissal(DismissHit::CancelTagDialog);
    assert_eq!(d.closes, (Some(ClosedDialog::Tag), Some(ClosedDialog::TagAnnotation)));
    assert_eq!(d.status, "Tag creation cancelled.");
    let d = dismissal(DismissHit::CancelWizard);
    assert!(d.back_to_dashboard);
    assert_eq!(d.closes, (None, None));
    assert_eq!(d.status, "Wizard cancelled.");
    assert_eq!(dismissal(DismissHit::CancelProjectEdit).status, "Project edit cancelled.");
    assert_eq!(dismissal(DismissHit::CancelReleaseNowNotes).status, "Release notes editor closed.");
    assert_eq!(dismissal(DismissHit::CancelBump).status, "Bump preview closed.");
    assert_eq!(dismissal(DismissHit::CancelCommitRename).status, "Commit rename cancelled.");
    assert_eq!(dismissal(DismissHit::CancelTagAnnotation).status, "Tag annotation editor closed.");
    assert_eq!(dismissal(DismissHit::CancelTopPicks).status, "Top Picks editor closed.");
    assert_eq!(dismissal(DismissHit::CancelDeleteRequest).closes.0, Some(ClosedDialog::DeleteConfirmation));

    assert_eq!(
        recent_changes_tab_hit(true, false),
        RecentChangesTabHit::LoadHistory("Loading tag history for the selected scope.")
    );
    assert_eq!(recent_changes_tab_hit(true, true), RecentChangesTabHit::Switch);
    assert_eq!(recent_changes_tab_hit(false, false), RecentChangesTabHit::Switch);
    assert_eq!(recent_changes_scope_status(-1), "Loading git history for the previous scope.");
    assert_eq!(recent_changes_scope_status(1), "Loading git history for the next scope.");
    assert!(artifacts_choice_closes(3));
    assert!(!artifacts_choice_closes(2));
    assert_eq!(custom_target_key_status(), "Custom target key input enabled.");
}
