use comfygit::dialogs::{
    IntegrationMode, MainBranchWarningChoice, MainBranchWarningDialog, OverviewBumpKindDialog,
    OverviewBumpWarningChoice, OverviewBumpWarningDialog, OverviewBumpWorkflowDialog,
    PendingBumpAction, StdChangelogSubBranchChoice, StdChangelogSubBranchDialog,
};
use comfygit::layout::{
    browser_visible_range, clamp_dialog_scroll, dialog_form_row_height, dialog_visible_rows,
    digit_to_index, header_height_for_viewport, should_use_recent_changes_tab,
    visible_field_width, wrap_index,
};
use comfygit::help::{DashboardPane, OverviewTab, Screen};
use comfygit::mouse_dispatch::{mouse_route, Editor, MouseInput, MouseLayers, MouseRoute};
use comfygit::screen_press::{
    press_plan, recent_change_click, LastRecentChangeClick, PressContext, RecentChangeTarget,
    RecentChangeView,
};
use comfygit::paths::{
    absolutize_path_for_repo_root, derive_repo_root_from_target_path, is_absolute_path_string,
    normalize_path_for_repo_root, normalized_path_string, sanitize_pasted_text,
    sanitize_tag_fragment,
};
use comfygit::std_changelog::{PendingTagRequest, StdChangelogExecutionPolicy};
use comfygit::versions::{
    adjust_pending_version_value, OverviewVersionControl, VersionAdjustError, VersionScheme,
};

#[derive(Clone, Copy, Debug, PartialEq, Eq)]
enum TagAction {
    CreateLocal,
}

#[derive(Clone)]
struct TagDialog {
    project_name: String,
    selected_scope: usize,
    tag_name: String,
    annotation: String,
    actions: Vec<TagAction>,
    integration_mode: IntegrationMode,
    action_index: usize,
}

#[test]
fn derive_repo_root_uses_parent_directory() {
    let derived = derive_repo_root_from_target_path("C:/repo/subdir/package.json");
    assert_eq!(derived.as_deref(), Some("C:/repo/subdir"));
}

#[test]
fn compact_viewports_use_fixed_header_height() {
    assert_eq!(header_height_for_viewport(22), 3);
    assert_eq!(header_height_for_viewport(23), 7);
    assert_eq!(header_height_for_viewport(39), 7);
    assert_eq!(header_height_for_viewport(40), 9);
}

#[test]
fn recent_changes_tab_appears_when_vertical_space_is_tight() {
    assert!(should_use_recent_changes_tab(15, 7));
    assert!(!should_use_recent_changes_tab(20, 7));
}

#[test]
fn std_changelog_sub_branch_dialog_defaults_to_postpone() {
    let dialog = StdChangelogSubBranchDialog::new(
        PendingTagRequest {
            dialog: TagDialog {
                project_name: "demo".to_string(),
                selected_scope: 0,
                tag_name: "v0.7.4".to_string(),
                annotation: String::new(),
                actions: vec![TagAction::CreateLocal],
                integration_mode: IntegrationMode::GitLocalOnly,
                action_index: 0,
            },
            changelog_enabled: true,
            std_changelog_policy: StdChangelogExecutionPolicy::Auto,
        },
        "v0.7.3".to_string(),
        "feature-a".to_string(),
    );

    assert!(matches!(
        dialog.selected_choice(),
        StdChangelogSubBranchChoice::Postpone
    ));
    assert_eq!(dialog.pending_request.dialog.tag_name, "v0.7.4");
    assert_eq!(dialog.pending_request.dialog.actions, vec![TagAction::CreateLocal]);
    assert_eq!(dialog.pending_request.dialog.project_name, "demo");
    assert_eq!(dialog.pending_request.dialog.selected_scope, 0);
    assert!(dialog.pending_request.dialog.annotation.is_empty());
    assert_eq!(dialog.pending_request.dialog.action_index, 0);
    assert_eq!(
        dialog.pending_request.dialog.integration_mode,
        IntegrationMode::GitLocalOnly
    );
}

#[test]
fn overview_semver_adjustment_supports_increment_and_decrement() {
    let incremented = adjust_pending_version_value(
        VersionScheme::SemVer,
        "1.2.3",
        OverviewVersionControl::Minor,
        1,
    )
    .expect("increment should succeed");
    let decremented = adjust_pending_version_value(
        VersionScheme::SemVer,
        "1.2.3",
        OverviewVersionControl::Patch,
        -1,
    )
    .expect("decrement should succeed");
    let major_bumped = adjust_pending_version_value(
        VersionScheme::SemVer,
        "1.2.3",
        OverviewVersionControl::Major,
        1,
    )
    .expect("major bump should succeed");

    assert_eq!(incremented, "1.3.0");
    assert_eq!(decremented, "1.2.2");
    assert_eq!(major_bumped, "2.0.0");
}

#[test]
fn version_adjustment_errors_and_numeric_tails() {
    assert_eq!(
        adjust_pending_version_value(VersionScheme::SemVer, "1.x.3", OverviewVersionControl::Patch, 1),
        Err(VersionAdjustError::InvalidSemverComponent("x".to_string()))
    );
    assert_eq!(
        adjust_pending_version_value(VersionScheme::SemVer, "1.2", OverviewVersionControl::Patch, 1),
        Err(VersionAdjustError::NotMajorMinorPatch)
    );
    assert_eq!(
        adjust_pending_version_value(
            VersionScheme::CalVerYearMonthMicro,
            "2024.05.0",
            OverviewVersionControl::Whole,
            -1
        ),
        Ok("2024.5.0".to_string())
    );
    assert_eq!(
        adjust_pending_version_value(
            VersionScheme::CalVerYearMonthMicro,
            "2024.5.7",
            OverviewVersionControl::Whole,
            1
        ),
        Ok("2024.5.8".to_string())
    );
    assert_eq!(
        adjust_pending_version_value(VersionScheme::SemVer, "-3.+2.0", OverviewVersionControl::Major, 1),
        Ok("0.0.0".to_string())
    );
    assert_eq!(
        VersionAdjustError::InvalidNumericComponent("".to_string()).message(),
        "invalid numeric component ''"
    );
    assert_eq!(
        adjust_pending_version_value(VersionScheme::CalVerYearMonthMicro, "", OverviewVersionControl::Whole, 1),
        Err(VersionAdjustError::InvalidNumericComponent(String::new()))
    );
}

/// The bump kinds a SemVer version supports, largest first.
#[derive(Clone, Copy, Debug, PartialEq, Eq)]
enum BumpAction {
    Major,
    Minor,
    Patch,
}

#[test]
fn overview_bump_kind_defaults_to_lowest_supported_increment() {
    let dialog = OverviewBumpKindDialog::new(
        "Demo".to_string(),
        "All configured scopes".to_string(),
        0,
        VersionScheme::SemVer,
        "1.2.3".to_string(),
        vec![BumpAction::Major, BumpAction::Minor, BumpAction::Patch],
    );

    assert_eq!(dialog.selected_action(), BumpAction::Patch);
}

#[test]
fn list_dialogs_rotate_and_clamp() {
    let mut dialog = OverviewBumpWorkflowDialog::new(
        "Demo".to_string(),
        "core".to_string(),
        "1.2.4".to_string(),
        0,
        vec![1, 2, 3, 4, 5],
    );
    dialog.rotate(-1);
    assert_eq!(dialog.selected_workflow(), 5);
    dialog.rotate(2);
    assert_eq!(dialog.selected, 1);
    dialog.select(99);
    assert_eq!(dialog.selected, 4);
    dialog.clamp_scroll(2);
    assert_eq!(dialog.scroll, 3);
}

#[test]
fn three_button_dialogs_map_choices() {
    let mut warning = OverviewBumpWarningDialog::new(0, (), Vec::<String>::new());
    assert_eq!(warning.selected_choice(), OverviewBumpWarningChoice::UnstageExtras);
    warning.rotate(2);
    assert_eq!(warning.selected_choice(), OverviewBumpWarningChoice::Continue);
    warning.select(7);
    assert_eq!(warning.selected_choice(), OverviewBumpWarningChoice::Cancel);

    let mut main = MainBranchWarningDialog::new(
        IntegrationMode::GitLocalOnly,
        Vec::<String>::new(),
        PendingBumpAction::Standard,
    );
    assert_eq!(main.switch_label(), "Switch to mainline & Bump");
    assert_eq!(main.selected_choice(), MainBranchWarningChoice::SwitchToMain);
    main.rotate(-1);
    assert_eq!(main.selected_choice(), MainBranchWarningChoice::Cancel);
}

#[test]
fn layout_helpers_compute_exact_values() {
    assert_eq!(dialog_form_row_height(8), 3);
    assert_eq!(dialog_form_row_height(5), 2);
    assert_eq!(dialog_form_row_height(3), 1);
    assert_eq!(dialog_visible_rows(10, 3), 3);
    assert_eq!(dialog_visible_rows(2, 0), 2);
    assert_eq!(visible_field_width(60, true), 27);
    assert_eq!(visible_field_width(10, false), 1);
    assert_eq!(browser_visible_range(100, 50, 10), (45, 55));
    assert_eq!(browser_visible_range(5, 4, 10), (0, 5));
    assert_eq!(digit_to_index('1'), Some(0));
    assert_eq!(digit_to_index('0'), None);
    assert_eq!(wrap_index(0, -1, 3), 2);
    let mut scroll = 9;
    clamp_dialog_scroll(&mut scroll, 10, 4, Some(2));
    assert_eq!(scroll, 2);
}

#[test]
fn path_helpers_normalise_inputs() {
    assert_eq!(sanitize_pasted_text("a\r\nb\nc"), "abc");
    assert_eq!(sanitize_tag_fragment("--Feature/ABC 1!--"), "Feature-ABC-1");
    assert_eq!(normalized_path_string("  C:\\repo\\x  "), "C:/repo/x");
    assert!(is_absolute_path_string("C:/repo"));
    assert!(is_absolute_path_string("\\\\server\\share"));
    assert!(!is_absolute_path_string("repo/x"));
    assert_eq!(normalize_path_for_repo_root("C:\\Repo\\core\\Cargo.toml", "c:/repo/"), "core/Cargo.toml");
    assert_eq!(normalize_path_for_repo_root("C:/repo", "C:/REPO"), "");
    assert_eq!(normalize_path_for_repo_root("core/Cargo.toml", "C:/repo"), "core/Cargo.toml");
    assert_eq!(normalize_path_for_repo_root("D:/other/x", "C:/repo"), "D:/other/x");
    assert_eq!(absolutize_path_for_repo_root("  ", "/repo"), "");
    assert_eq!(absolutize_path_for_repo_root("/abs/x", "/repo"), "/abs/x");
    assert!(absolutize_path_for_repo_root("core/x", "/repo").ends_with("core/x"));
    assert_eq!(derive_repo_root_from_target_path("Cargo.toml"), None);
    assert_eq!(derive_repo_root_from_target_path("   "), None);
    assert_eq!(
        derive_repo_root_from_target_path("  packages/core/Cargo.toml \n").as_deref(),
        Some("packages/core")
    );
}

#[test]
fn resolved_paths_join_root_and_relative_path() {
    let joined = absolutize_path_for_repo_root(" core/x ", " /repo ");
    assert!(joined == "/repo/core/x" || joined == "/repo\\core/x");
    assert_eq!(absolutize_path_for_repo_root("core/x", "/repo/"), "/repo/core/x");
    assert_eq!(absolutize_path_for_repo_root("core/x", ""), "core/x");
}

#[test]
fn resolved_paths_normalise_back_to_repo_relative_paths() {
    for root in ["/repo", "/repo/", "C:/work/repo"] {
        let resolved = absolutize_path_for_repo_root("core/Cargo.toml", root);
        assert_eq!(normalize_path_for_repo_root(&resolved, root), "core/Cargo.toml");
    }
}

#[test]
fn unicode_whitespace_is_trimmed_from_paths() {
    assert_eq!(
        derive_repo_root_from_target_path("\u{3000}app/Cargo.toml\u{a0}").as_deref(),
        Some("app")
    );
    assert_eq!(derive_repo_root_from_target_path("\u{2003}\u{85}"), None);
}

fn no_layers() -> MouseLayers {
    MouseLayers {
        splash: false,
        toast_took_event: false,
        help: false,
        progress: false,
        release_now_notes: false,
        top_picks_editor: false,
        release_now: false,
        over_release_now_log: false,
        delete_confirmation: false,
        commit_rename: false,
        overview_bump_kind: false,
        recent_changes: false,
        tag: false,
        tag_annotation: false,
        browser: false,
        project_edit: false,
    }
}

#[test]
fn mouse_events_go_to_the_topmost_layer() {
    let open = no_layers();
    assert_eq!(mouse_route(open, MouseInput::LeftDown), MouseRoute::ScreenPress);
    assert_eq!(mouse_route(open, MouseInput::ScrollLeft), MouseRoute::ScreenWheel(true));
    assert_eq!(mouse_route(open, MouseInput::ScrollDown), MouseRoute::ScreenWheel(false));
    assert_eq!(mouse_route(open, MouseInput::Other), MouseRoute::Ignore);

    let splash = MouseLayers { splash: true, help: true, ..no_layers() };
    assert_eq!(mouse_route(splash, MouseInput::ScrollUp), MouseRoute::Ignore);

    let help = MouseLayers { help: true, project_edit: true, ..no_layers() };
    assert_eq!(mouse_route(help, MouseInput::ScrollUp), MouseRoute::ScrollHelp(-3));
    assert_eq!(mouse_route(help, MouseInput::ScrollDown), MouseRoute::ScrollHelp(3));
    assert_eq!(mouse_route(help, MouseInput::LeftDown), MouseRoute::Ignore);

    let notes = MouseLayers { release_now_notes: true, release_now: true, ..no_layers() };
    assert_eq!(mouse_route(notes, MouseInput::LeftDown), MouseRoute::EditorPress(Editor::ReleaseNowNotes));
    assert_eq!(mouse_route(notes, MouseInput::ScrollDown), MouseRoute::Ignore);
    let picks = MouseLayers { top_picks_editor: true, ..no_layers() };
    assert_eq!(mouse_route(picks, MouseInput::ScrollDown), MouseRoute::ScrollEditor(Editor::TopPicks, 3));
    assert_eq!(mouse_route(picks, MouseInput::RightDown), MouseRoute::EditorCopyOrPaste(Editor::TopPicks));

    let release = MouseLayers { release_now: true, over_release_now_log: true, ..no_layers() };
    assert_eq!(mouse_route(release, MouseInput::LeftDown), MouseRoute::BeginLogSelectionOrAction);
    assert_eq!(mouse_route(release, MouseInput::RightDown), MouseRoute::CopyLogSelection);
    let release_away = MouseLayers { over_release_now_log: false, ..release };
    assert_eq!(mouse_route(release_away, MouseInput::LeftDown), MouseRoute::PressAction);
    assert_eq!(mouse_route(release_away, MouseInput::LeftDrag), MouseRoute::Ignore);

    let rename = MouseLayers { commit_rename: true, recent_changes: true, ..no_layers() };
    assert_eq!(mouse_route(rename, MouseInput::RightDown), MouseRoute::CopyOrRightActionOrPaste);

    let recent = MouseLayers { recent_changes: true, ..no_layers() };
    assert_eq!(mouse_route(recent, MouseInput::ScrollRight), MouseRoute::TabWheelOrScrollRecentChanges(2));
    let recent_under_tag = MouseLayers { tag: true, ..recent };
    assert_eq!(mouse_route(recent_under_tag, MouseInput::LeftDown), MouseRoute::ScreenPress);

    let browser = MouseLayers { browser: true, ..no_layers() };
    assert_eq!(mouse_route(browser, MouseInput::ScrollUp), MouseRoute::MoveBrowserSelection(-1));
    assert_eq!(mouse_route(browser, MouseInput::LeftUp), MouseRoute::Ignore);
    assert_eq!(mouse_route(browser, MouseInput::ScrollLeft), MouseRoute::ScreenWheel(true));
    let browser_over_editor = MouseLayers { browser: true, project_edit: true, ..no_layers() };
    assert_eq!(mouse_route(browser_over_editor, MouseInput::ScrollRight), MouseRoute::Ignore);

    let edit = MouseLayers { project_edit: true, ..no_layers() };
    assert_eq!(mouse_route(edit, MouseInput::LeftDown), MouseRoute::FieldPress);
    assert_eq!(mouse_route(edit, MouseInput::RightDown), MouseRoute::CopySelection);
    assert_eq!(mouse_route(edit, MouseInput::ScrollUp), MouseRoute::ScrollProjectEdit(-1));

    let bump = MouseLayers { overview_bump_kind: true, ..no_layers() };
    assert_eq!(mouse_route(bump, MouseInput::ScrollDown), MouseRoute::RotateOverviewBumpKind(1));
    let delete = MouseLayers { delete_confirmation: true, ..no_layers() };
    assert_eq!(mouse_route(delete, MouseInput::LeftDown), MouseRoute::PressAction);
    assert_eq!(mouse_route(delete, MouseInput::ScrollUp), MouseRoute::Ignore);
}

#[test]
fn screen_presses_pick_up_tabs_tiles_and_projects() {
    let on_overview = PressContext {
        screen: Screen::Dashboard,
        overview_tab: OverviewTab::Overview,
        focus: DashboardPane::Projects,
        overview_bump_workflow_open: false,
        tab_drag_started: false,
        tile_under_pointer: Some(2),
        project_under_pointer: Some(4),
    };
    let plan = press_plan(on_overview);
    assert!(!plan.tab_drag && plan.runs_action);
    assert!(plan.sets_tile_drag && plan.sets_project_drag);
    assert_eq!(plan.tile_drag, Some(2));
    assert_eq!(plan.project_drag, Some(4));

    let workflow_open = press_plan(PressContext { overview_bump_workflow_open: true, ..on_overview });
    assert!(!workflow_open.sets_tile_drag);
    assert_eq!(workflow_open.tile_drag, None);

    let overview_focus = press_plan(PressContext { focus: DashboardPane::Overview, ..on_overview });
    assert!(!overview_focus.sets_project_drag);

    let settings = PressContext { overview_tab: OverviewTab::ProjectSettings, tab_drag_started: true, ..on_overview };
    let plan = press_plan(settings);
    assert!(plan.tab_drag && !plan.runs_action && !plan.sets_project_drag);
    let settings_missed = press_plan(PressContext { tab_drag_started: false, ..settings });
    assert!(!settings_missed.tab_drag && !settings_missed.sets_tile_drag && settings_missed.runs_action);
}

#[test]
fn double_clicking_a_recent_change_opens_the_rename() {
    let line = RecentChangeTarget { view: RecentChangeView::Popup, line_index: 3 };
    let (last, opens) = recent_change_click(None, Some(line), 1_000);
    assert_eq!(opens, None);
    assert_eq!(last, Some(LastRecentChangeClick { target: line, at_millis: 1_000 }));
    assert_eq!(recent_change_click(last, Some(line), 1_400).1, Some(RecentChangeView::Popup));
    assert_eq!(recent_change_click(last, Some(line), 1_401).1, None);
    let other = RecentChangeTarget { view: RecentChangeView::Popup, line_index: 4 };
    assert_eq!(recent_change_click(last, Some(other), 1_100).1, None);
    assert_eq!(recent_change_click(last, None, 1_100), (None, None));
}
