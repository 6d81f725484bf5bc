use comfygit::project_settings::{
    active_scope_index, active_scope_kind, active_scope_name, checkbox_label, field_label,
    merge_project_settings_tab_order, project_settings_tab_label, project_settings_tab_nav_pack,
    project_settings_tab_pins, project_settings_tab_strip, AdvancedAliasSettings,
    AliasCustomEntryState, CustomAliasEntry, PolicyChoice, ProjectSettingsFocus,
    ProjectSettingsSource, ProjectSettingsState, ProjectSettingsTab, ReadmeInjectDepth,
};
use comfygit::browse::{
    apply_browser_selection, browse_target_for_focus, field_for_browse_target, initial_browser_path,
    BrowseTarget,
};
use comfygit::settings_dispatch::{
    insert_project_settings_text, try_handle_project_settings_key, SettingsKeyOutcome,
};
use comfygit::settings_edit::{
    adjust_policy, change_message, toggle_focused_project_settings_control, PolicyKind,
    SettingsChange,
};
use comfygit::settings_inputs::{
    confirm_alias_custom_draft, delete_alias_custom, insert_text, persist_project_settings_inputs,
    set_alias_path_from_browse,
};
use comfygit::settings_keys::{
    captures_text_input,
    activate_project_settings_field, project_settings_key_action, step_project_settings_tab,
    type_char, ActivateOutcome, SettingsKey, SettingsKeyAction,
};
use comfygit::settings_rows::{
    display_value_for_field, row_drawn, row_text_style, visible_row_slots, FieldValue, RowSlot,
    TextStyle,
    build_rows, focused_row_bounds, row_text_line, scroll_indicators, total_rows_height,
    ProjectSettingsRow, RowText,
};

fn labels(names: &[&str], selected: usize) -> PolicyChoice {
    PolicyChoice { labels: names.iter().map(|n| n.to_string()).collect(), selected }
}

fn sample_source() -> ProjectSettingsSource {
    ProjectSettingsSource {
        project_name: "Demo".to_string(),
        branched: true,
        scope_names: vec!["Core".to_string(), "API".to_string()],
        scope_kind_names: vec!["Branch".to_string(), "Service".to_string()],
        requires_repo: true,
        dual_forge: false,
        comfygitflow_enabled: false,
        has_custom_main_branch: false,
        custom_main_branch: String::new(),
        has_repo_config: true,
        alias: "demo".to_string(),
        supports_advanced_alias: true,
        advanced_alias: AdvancedAliasSettings {
            enabled: false,
            dist_path: String::new(),
            ui_path: String::new(),
            custom: vec![CustomAliasEntry { name: "docs".to_string(), path: "site".to_string() }],
        },
        changelog_enabled: true,
        changelog_path: "CHANGELOG.md".to_string(),
        changelog_hide_pr_messages: false,
        changelog_hide_bump_messages: false,
        changelog_mini_commit_hashes: false,
        changelog_mirror_summary_to_root_changelog: false,
        changelog_wrap_detailed_if_top_picks: false,
        release_now_enabled: true,
        release_now_general: String::new(),
        release_now_windows: String::new(),
        release_now_linux_arm: String::new(),
        release_now_linux_amd: String::new(),
        release_now_macos: String::new(),
        quick_downloads_enabled: false,
        quick_downloads_position: labels(&["Top", "Bottom"], 0),
        quick_downloads_footer: String::new(),
        post_merge_source_branch: labels(&["Kept", "Deleted"], 0),
        mirror_sync_after_merge: labels(&["Manual", "Automatic"], 1),
        readme_injection_enabled: true,
        readme_inject_only_top_picks: false,
        readme_inject_depth: ReadmeInjectDepth::CurrentOnly,
        readme_inject_depth_labels: vec![
            "Current".to_string(),
            "Last 3".to_string(),
            "Last 5".to_string(),
            "Last 10".to_string(),
        ],
        readme_inject_at_row: 4,
        release_title_template: String::new(),
    }
}

#[test]
fn tab_strip_offers_git_only_with_a_repo_and_rls_qd_only_with_release_now() {
    let mut source = sample_source();
    let strip = project_settings_tab_strip(&source, true);
    assert_eq!(
        strip,
        vec![
            ProjectSettingsTab::General,
            ProjectSettingsTab::Git,
            ProjectSettingsTab::Changelogs,
            ProjectSettingsTab::Distro,
            ProjectSettingsTab::RlsQd,
        ]
    );
    source.requires_repo = false;
    let strip = project_settings_tab_strip(&source, false);
    assert_eq!(
        strip,
        vec![ProjectSettingsTab::General, ProjectSettingsTab::Changelogs, ProjectSettingsTab::Distro]
    );
    assert_eq!(project_settings_tab_pins(&strip), vec![true, false, false]);
}

#[test]
fn merged_tab_order_keeps_saved_order_and_appends_new_tabs() {
    let default = vec![
        ProjectSettingsTab::General,
        ProjectSettingsTab::Git,
        ProjectSettingsTab::Changelogs,
        ProjectSettingsTab::Distro,
    ];
    let saved = vec![ProjectSettingsTab::Distro, ProjectSettingsTab::RlsQd, ProjectSettingsTab::General];
    let merged = merge_project_settings_tab_order(&default, &saved);
    assert_eq!(
        merged,
        vec![
            ProjectSettingsTab::Distro,
            ProjectSettingsTab::General,
            ProjectSettingsTab::Git,
            ProjectSettingsTab::Changelogs,
        ]
    );
    assert_eq!(merge_project_settings_tab_order(&default, &Vec::new()), default);
}

#[test]
fn nav_pack_lists_labels_pins_and_active_index() {
    let source = sample_source();
    let (strip, names, pins, active) =
        project_settings_tab_nav_pack(&source, &vec![ProjectSettingsTab::Distro], ProjectSettingsTab::Git);
    assert_eq!(strip[0], ProjectSettingsTab::Distro);
    assert_eq!(names, vec!["Distro", "General", "Git", "Changelogs", "RLS-QD"]);
    assert_eq!(pins, vec![false, true, false, false, false]);
    assert_eq!(active, 2);
    assert_eq!(project_settings_tab_label(ProjectSettingsTab::RlsQd), "RLS-QD");
}

#[test]
fn active_scope_is_clamped_to_the_scope_list() {
    let mut source = sample_source();
    assert_eq!(active_scope_index(&source, 7), 1);
    assert_eq!(active_scope_name(&source, 1), "API");
    assert_eq!(active_scope_name(&source, 5), "Selected scope");
    assert_eq!(active_scope_kind(&source, 1), "Service");
    source.branched = false;
    assert_eq!(active_scope_index(&source, 7), 0);
    assert_eq!(active_scope_name(&source, 0), "Demo");
    assert_eq!(active_scope_kind(&source, 0), "Project");
}

#[test]
fn focus_moves_through_visible_fields_and_wraps() {
    let source = sample_source();
    let mut state = ProjectSettingsState::new();
    let fields = state.visible_fields(ProjectSettingsTab::General, &source, 0);
    assert_eq!(
        fields,
        vec![
            ProjectSettingsFocus::ComfyGitFlowEnabled,
            ProjectSettingsFocus::CustomMainBranchEnabled,
            ProjectSettingsFocus::Alias,
            ProjectSettingsFocus::AdvancedAliasEnabled,
        ]
    );
    state.focus_previous(ProjectSettingsTab::General, &source, 0);
    assert_eq!(state.focus, ProjectSettingsFocus::AdvancedAliasEnabled);
    state.focus_next(ProjectSettingsTab::General, &source, 0);
    assert_eq!(state.focus, ProjectSettingsFocus::ComfyGitFlowEnabled);
    assert!(state.follow_focus);
}

#[test]
fn toggling_comfygitflow_reports_the_project() {
    let mut source = sample_source();
    let mut state = ProjectSettingsState::new();
    let mut tab = ProjectSettingsTab::General;
    let change = toggle_focused_project_settings_control(&mut state, &mut tab, &mut source, 0);
    assert_eq!(change, Some(SettingsChange::ComfyGitFlow(true)));
    assert!(source.comfygitflow_enabled);
    assert_eq!(change_message(change.unwrap(), &source, 0), "ComfyGitFlow enabled for Demo.");
}

#[test]
fn switching_release_now_off_leaves_the_rls_qd_tab() {
    let mut source = sample_source();
    let mut state = ProjectSettingsState::new();
    state.focus = ProjectSettingsFocus::ReleaseNowEnabled;
    let mut tab = ProjectSettingsTab::RlsQd;
    let change = toggle_focused_project_settings_control(&mut state, &mut tab, &mut source, 1);
    assert_eq!(change, Some(SettingsChange::ReleaseNow(false)));
    assert_eq!(tab, ProjectSettingsTab::Distro);
    assert_eq!(
        change_message(change.unwrap(), &source, 1),
        "Release-NOW capabilities disabled for API."
    );
}

#[test]
fn policies_step_and_wrap_with_their_labels_shown() {
    let mut source = sample_source();
    let mut state = ProjectSettingsState::new();
    let change = adjust_policy(&mut state, &mut source, PolicyKind::MirrorSyncAfterMerge, 1);
    assert_eq!(change, SettingsChange::MirrorPolicy);
    assert_eq!(source.mirror_sync_after_merge.selected, 0);
    assert_eq!(state.mirror_sync_after_merge, "Manual");
    assert_eq!(
        change_message(change, &source, 0),
        "Mirror sync policy set to \"Manual\" for Core."
    );
    adjust_policy(&mut state, &mut source, PolicyKind::PostMergeSourceBranch, -1);
    assert_eq!(state.post_merge_source_branch, "Deleted");
}

#[test]
fn hide_pr_messages_flips_pane_and_scope_together() {
    let mut source = sample_source();
    let mut state = ProjectSettingsState::new();
    state.focus = ProjectSettingsFocus::ChangelogHidePrMessages;
    let mut tab = ProjectSettingsTab::Changelogs;
    let change = toggle_focused_project_settings_control(&mut state, &mut tab, &mut source, 0);
    assert_eq!(change, Some(SettingsChange::HidePrMessages(true)));
    assert!(state.changelog_hide_pr_messages);
    assert!(source.changelog_hide_pr_messages);
    assert_eq!(change_message(change.unwrap(), &source, 0), "PR messages hidden for Core.");
}

#[test]
fn inject_depth_is_selected_by_its_field() {
    let mut source = sample_source();
    let mut state = ProjectSettingsState::new();
    state.focus = ProjectSettingsFocus::ReadmeInjectDepthLast5;
    let mut tab = ProjectSettingsTab::Changelogs;
    let change = toggle_focused_project_settings_control(&mut state, &mut tab, &mut source, 0);
    assert_eq!(change, Some(SettingsChange::InjectDepth(ReadmeInjectDepth::Last5)));
    assert_eq!(source.readme_inject_depth, ReadmeInjectDepth::Last5);
    assert_eq!(
        change_message(change.unwrap(), &source, 0),
        "README inject depth set to Last 5 for Core."
    );
}

#[test]
fn text_fields_do_not_toggle() {
    let mut source = sample_source();
    let mut state = ProjectSettingsState::new();
    state.focus = ProjectSettingsFocus::ChangelogPath;
    let mut tab = ProjectSettingsTab::Changelogs;
    let change = toggle_focused_project_settings_control(&mut state, &mut tab, &mut source, 0);
    assert_eq!(change, None);
    assert_eq!(state.focus, ProjectSettingsFocus::ChangelogPath);
}

#[test]
fn sync_loads_inputs_once_per_binding() {
    let source = sample_source();
    let mut state = ProjectSettingsState::new();
    state.sync_from_project(0, ProjectSettingsTab::Changelogs, &source, 1);
    assert_eq!(state.binding, Some((0, 1)));
    assert_eq!(state.alias, "demo");
    assert_eq!(state.readme_inject_at_row, "4");
    assert_eq!(state.quick_downloads_position, "Top");
    assert_eq!(state.alias_custom.len(), 1);
    assert_eq!(state.focus, ProjectSettingsFocus::ChangelogEnabled);
    state.alias = "edited".to_string();
    state.sync_from_project(0, ProjectSettingsTab::Changelogs, &source, 1);
    assert_eq!(state.alias, "edited");
}

#[test]
fn persisting_trims_alias_and_parses_inject_row() {
    let mut source = sample_source();
    let mut state = ProjectSettingsState::new();
    state.sync_from_project(0, ProjectSettingsTab::General, &source, 0);
    state.alias = "  renamed  ".to_string();
    state.readme_inject_at_row = " 12 ".to_string();
    state.alias_custom[0].path = "  out  ".to_string();
    persist_project_settings_inputs(&mut source, 0, &state);
    assert_eq!(source.alias, "renamed");
    assert_eq!(source.readme_inject_at_row, 12);
    assert_eq!(source.advanced_alias.custom[0].path, "out");
    state.readme_inject_at_row = "twelve".to_string();
    persist_project_settings_inputs(&mut source, 0, &state);
    assert_eq!(source.readme_inject_at_row, 12);
}

#[test]
fn custom_alias_draft_is_checked_before_it_is_added() {
    let mut state = ProjectSettingsState::new();
    state.alias_custom = vec![AliasCustomEntryState { name: "Docs".to_string(), path: String::new() }];
    state.alias_custom_draft_active = true;
    state.alias_custom_draft_name = "   ".to_string();
    assert_eq!(confirm_alias_custom_draft(&mut state).as_deref(), Some("Custom alias name cannot be empty."));
    state.alias_custom_draft_name = " UI ".to_string();
    assert_eq!(
        confirm_alias_custom_draft(&mut state).as_deref(),
        Some("Name 'UI' is reserved. Use dist/ui for built-in paths.")
    );
    state.alias_custom_draft_name = "docs".to_string();
    assert_eq!(confirm_alias_custom_draft(&mut state).as_deref(), Some("Custom alias 'docs' already exists."));
    state.alias_custom_draft_name = " api ".to_string();
    assert_eq!(confirm_alias_custom_draft(&mut state), None);
    assert_eq!(state.alias_custom.len(), 2);
    assert_eq!(state.alias_custom[1].name, "api");
    assert_eq!(state.focus, ProjectSettingsFocus::AliasCustomPath(1));
    assert!(!state.alias_custom_draft_active);
    delete_alias_custom(&mut state, 0);
    assert_eq!(state.alias_custom.len(), 1);
    delete_alias_custom(&mut state, 9);
    assert_eq!(state.alias_custom.len(), 1);
    set_alias_path_from_browse(&mut state, ProjectSettingsFocus::AliasCustomPath(0), "dist/api".to_string());
    assert_eq!(state.alias_custom[0].path, "dist/api");
}

#[test]
fn typing_goes_into_the_focused_input_and_inject_row_takes_digits_only() {
    let mut state = ProjectSettingsState::new();
    state.focus = ProjectSettingsFocus::ReadmeInjectAtRow;
    assert!(type_char(&mut state, '7'));
    assert!(!type_char(&mut state, 'x'));
    assert_eq!(state.readme_inject_at_row, "7");
    state.focus = ProjectSettingsFocus::ChangelogPath;
    assert!(insert_text(&mut state, "/docs"));
    assert_eq!(state.changelog_path, "CHANGELOG.md/docs");
    state.focus = ProjectSettingsFocus::ComfyGitFlowEnabled;
    assert!(!insert_text(&mut state, "x"));
}

#[test]
fn keys_map_to_pane_actions() {
    let f = ProjectSettingsFocus::PostMergeSourceBranch;
    assert_eq!(project_settings_key_action(SettingsKey::Char { c: 'o', ctrl: true }, f, false), SettingsKeyAction::OpenBrowser);
    assert_eq!(project_settings_key_action(SettingsKey::Char { c: '[', ctrl: false }, f, true), SettingsKeyAction::StepTab(-1));
    assert_eq!(project_settings_key_action(SettingsKey::Left, f, false), SettingsKeyAction::AdjustPolicy(PolicyKind::PostMergeSourceBranch, -1));
    assert_eq!(project_settings_key_action(SettingsKey::Enter, f, false), SettingsKeyAction::NotHandled);
    assert_eq!(project_settings_key_action(SettingsKey::Enter, ProjectSettingsFocus::ChangelogEnabled, false), SettingsKeyAction::Toggle);
    assert_eq!(project_settings_key_action(SettingsKey::Enter, ProjectSettingsFocus::AliasCustomAdd, false), SettingsKeyAction::Activate);
    assert_eq!(project_settings_key_action(SettingsKey::Enter, ProjectSettingsFocus::Alias, true), SettingsKeyAction::FocusNext);
    assert_eq!(project_settings_key_action(SettingsKey::Char { c: 'a', ctrl: false }, ProjectSettingsFocus::Alias, true), SettingsKeyAction::EditText);
}

#[test]
fn activating_add_opens_the_alias_draft() {
    let mut source = sample_source();
    let mut state = ProjectSettingsState::new();
    let mut tab = ProjectSettingsTab::General;
    let outcome = activate_project_settings_field(&mut state, &mut tab, &mut source, 0, ProjectSettingsFocus::AliasCustomAdd);
    assert_eq!(outcome, ActivateOutcome::DraftOpened);
    assert!(state.alias_custom_draft_active);
    assert_eq!(state.focus, ProjectSettingsFocus::AliasCustomDraftName);
}

#[test]
fn stepping_tabs_wraps_and_resets_scroll() {
    let source = sample_source();
    let mut state = ProjectSettingsState::new();
    state.scroll = 5;
    let mut tab = ProjectSettingsTab::General;
    step_project_settings_tab(&mut state, &mut tab, &source, 0, 0, -1);
    assert_eq!(tab, ProjectSettingsTab::RlsQd);
    assert_eq!(state.scroll, 0);
    assert_eq!(state.focus, ProjectSettingsFocus::QuickDownloadsEnabled);
}

#[test]
fn rows_have_heights_and_the_focused_row_is_found() {
    let source = sample_source();
    let state = ProjectSettingsState::new();
    let rows = build_rows(ProjectSettingsTab::Git, &source, 0, &state);
    assert_eq!(rows[0], ProjectSettingsRow::Text(RowText::GitScopeLabel));
    assert_eq!(total_rows_height(&rows), 1 + 1 + 1 + 3 + 1 + 1 + 1);
    assert_eq!(focused_row_bounds(&rows, ProjectSettingsFocus::PostMergeSourceBranch), Some((3, 3)));
    assert_eq!(focused_row_bounds(&rows, ProjectSettingsFocus::Alias), None);
    assert_eq!(row_text_line(RowText::GitScopeLabel, &source, 0), "Project/Scope: Core");
    assert_eq!(row_text_line(RowText::ScopeKindLine, &source, 1), "Scope type: Service");
}

#[test]
fn ensure_row_visible_scrolls_the_row_into_view() {
    let mut state = ProjectSettingsState::new();
    state.scroll = 0;
    state.ensure_row_visible(20, 3, 40, 10);
    assert_eq!(state.scroll, 13);
    state.ensure_row_visible(2, 2, 40, 10);
    assert_eq!(state.scroll, 2);
    state.scroll = 100;
    state.clamp_scroll(40, 10);
    assert_eq!(state.scroll, 30);
}

#[test]
fn scroll_steps_are_taken_modulo_u16_and_clamped() {
    let mut state = ProjectSettingsState::new();
    state.scroll_by(5, 40, 10);
    assert_eq!(state.scroll, 5);
    assert!(!state.follow_focus);
    state.scroll_by(100, 40, 10);
    assert_eq!(state.scroll, 30);
    state.scroll_by(-65536, 40, 10);
    assert_eq!(state.scroll, 30);
    state.scroll_by(-7, 40, 10);
    assert_eq!(state.scroll, 23);
    assert_eq!(scroll_indicators(10, 10, 40, 0), (false, true));
    assert_eq!(scroll_indicators(3, 10, 40, 5), (false, false));
}

#[test]
fn labels_name_checkboxes_and_fields() {
    assert_eq!(checkbox_label(ProjectSettingsFocus::ChangelogEnabled), "Changelog Generation");
    assert_eq!(checkbox_label(ProjectSettingsFocus::Alias), "");
    assert_eq!(field_label(ProjectSettingsFocus::ReadmeInjectAtRow), "Inject at row:");
}

#[test]
fn keys_reach_the_pane_only_while_it_is_in_view() {
    let mut source = sample_source();
    let mut state = ProjectSettingsState::new();
    let mut tab = ProjectSettingsTab::General;
    let outcome = try_handle_project_settings_key(false, &mut state, &mut tab, &mut source, 0, 0, SettingsKey::Enter);
    assert_eq!(outcome, SettingsKeyOutcome::NotHandled);
    assert_eq!(state.binding, None);
    assert!(!source.comfygitflow_enabled);
    let outcome = try_handle_project_settings_key(true, &mut state, &mut tab, &mut source, 0, 0, SettingsKey::Enter);
    assert_eq!(outcome, SettingsKeyOutcome::Saved(Some("ComfyGitFlow enabled for Demo.".to_string())));
    assert!(source.comfygitflow_enabled);
    assert_eq!(state.binding, Some((0, 0)));
    let outcome = try_handle_project_settings_key(true, &mut state, &mut tab, &mut source, 0, 0, SettingsKey::Char { c: 'o', ctrl: true });
    assert_eq!(outcome, SettingsKeyOutcome::OpenBrowser);
    let outcome = try_handle_project_settings_key(true, &mut state, &mut tab, &mut source, 0, 0, SettingsKey::Other);
    assert_eq!(outcome, SettingsKeyOutcome::NotHandled);
}

#[test]
fn typed_keys_edit_the_focused_input_and_are_saved() {
    let mut source = sample_source();
    let mut state = ProjectSettingsState::new();
    let mut tab = ProjectSettingsTab::General;
    try_handle_project_settings_key(true, &mut state, &mut tab, &mut source, 0, 0, SettingsKey::Down);
    assert_eq!(state.focus, ProjectSettingsFocus::CustomMainBranchEnabled);
    state.focus = ProjectSettingsFocus::Alias;
    let outcome = try_handle_project_settings_key(true, &mut state, &mut tab, &mut source, 0, 0, SettingsKey::Char { c: 'x', ctrl: false });
    assert_eq!(outcome, SettingsKeyOutcome::Saved(None));
    assert_eq!(state.alias, "demox");
    assert_eq!(source.alias, "demox");
    let outcome = try_handle_project_settings_key(true, &mut state, &mut tab, &mut source, 0, 0, SettingsKey::Enter);
    assert_eq!(outcome, SettingsKeyOutcome::Handled);
    assert_eq!(state.focus, ProjectSettingsFocus::AdvancedAliasEnabled);
    let outcome = try_handle_project_settings_key(true, &mut state, &mut tab, &mut source, 0, 0, SettingsKey::Char { c: ']', ctrl: false });
    assert_eq!(outcome, SettingsKeyOutcome::Handled);
    assert_eq!(tab, ProjectSettingsTab::Git);
    assert_eq!(state.scroll, 0);
}

#[test]
fn arrows_step_policies_and_buttons_check_the_draft() {
    let mut source = sample_source();
    let mut state = ProjectSettingsState::new();
    let mut tab = ProjectSettingsTab::Git;
    try_handle_project_settings_key(true, &mut state, &mut tab, &mut source, 0, 0, SettingsKey::Other);
    state.focus = ProjectSettingsFocus::PostMergeSourceBranch;
    let outcome = try_handle_project_settings_key(true, &mut state, &mut tab, &mut source, 0, 0, SettingsKey::Right);
    assert_eq!(
        outcome,
        SettingsKeyOutcome::Saved(Some("After-merge source branch policy set to \"Deleted\" for Core.".to_string()))
    );
    assert_eq!(source.post_merge_source_branch.selected, 1);
    assert_eq!(state.post_merge_source_branch, "Deleted");
    let outcome = try_handle_project_settings_key(true, &mut state, &mut tab, &mut source, 0, 0, SettingsKey::Enter);
    assert_eq!(outcome, SettingsKeyOutcome::NotHandled);
    state.focus = ProjectSettingsFocus::AliasCustomDraftConfirm;
    let outcome = try_handle_project_settings_key(true, &mut state, &mut tab, &mut source, 0, 0, SettingsKey::Char { c: ' ', ctrl: false });
    assert_eq!(outcome, SettingsKeyOutcome::Refused("Custom alias name cannot be empty.".to_string()));
    state.alias_custom_draft_name = "api".to_string();
    let outcome = try_handle_project_settings_key(true, &mut state, &mut tab, &mut source, 0, 0, SettingsKey::Enter);
    assert_eq!(outcome, SettingsKeyOutcome::Saved(None));
    assert_eq!(source.advanced_alias.custom.len(), 2);
    assert_eq!(source.advanced_alias.custom[1].name, "api");
}

#[test]
fn pasted_text_goes_into_a_shown_text_field_only() {
    let mut source = sample_source();
    let mut state = ProjectSettingsState::new();
    let mut tab = ProjectSettingsTab::General;
    assert!(!insert_project_settings_text(&mut state, &mut tab, &mut source, 0, 0, "x"));
    state.focus = ProjectSettingsFocus::Alias;
    assert!(insert_project_settings_text(&mut state, &mut tab, &mut source, 0, 0, "-app"));
    assert_eq!(source.alias, "demo-app");
    state.focus = ProjectSettingsFocus::ChangelogPath;
    assert!(!insert_project_settings_text(&mut state, &mut tab, &mut source, 0, 0, "x"));
}

#[test]
fn browsing_fills_the_field_it_was_opened_for() {
    let mut source = sample_source();
    let mut state = ProjectSettingsState::new();
    state.sync_from_project(0, ProjectSettingsTab::Changelogs, &source, 0);
    assert_eq!(
        browse_target_for_focus(ProjectSettingsFocus::ChangelogPath),
        Some(BrowseTarget::ProjectSettingsChangelogPath)
    );
    assert_eq!(browse_target_for_focus(ProjectSettingsFocus::Alias), None);
    assert_eq!(
        field_for_browse_target(BrowseTarget::ProjectSettingsAliasCustomPath(0)),
        Some(ProjectSettingsFocus::AliasCustomPath(0))
    );
    assert_eq!(field_for_browse_target(BrowseTarget::WizardRepoRoot), None);
    assert_eq!(
        initial_browser_path(&state, BrowseTarget::ProjectSettingsChangelogPath).as_deref(),
        Some("CHANGELOG.md")
    );
    assert_eq!(initial_browser_path(&state, BrowseTarget::ProjectSettingsAliasCustomPath(3)), None);
    assert!(BrowseTarget::ProjectSettingsAliasUiPath.selects_directories());
    assert!(!BrowseTarget::ProjectSettingsChangelogPath.selects_directories());
    assert_eq!(BrowseTarget::ProjectSettingsReleaseNowMacOs.title(), "Browse Release Script");
    assert_eq!(BrowseTarget::WizardTargetPath.title(), "Browse Target Path");
    assert!(apply_browser_selection(
        &mut state,
        &mut source,
        0,
        BrowseTarget::ProjectSettingsAliasCustomPath(0),
        "dist/docs".to_string()
    ));
    assert_eq!(state.focus, ProjectSettingsFocus::AliasCustomPath(0));
    assert_eq!(source.advanced_alias.custom[0].path, "dist/docs");
    assert!(apply_browser_selection(
        &mut state,
        &mut source,
        0,
        BrowseTarget::ProjectSettingsChangelogPath,
        "docs/CHANGES.md".to_string()
    ));
    assert_eq!(source.changelog_path, "docs/CHANGES.md");
    assert!(!apply_browser_selection(&mut state, &mut source, 0, BrowseTarget::WizardRepoRoot, "x".to_string()));
}

#[test]
fn field_rows_show_inputs_and_policies_between_arrows() {
    let mut state = ProjectSettingsState::new();
    state.quick_downloads_position = "  Bottom ".to_string();
    assert_eq!(
        display_value_for_field(&state, ProjectSettingsFocus::QuickDownloadsPosition),
        FieldValue::Policy("< Bottom >".to_string())
    );
    state.alias = "demo".to_string();
    assert_eq!(display_value_for_field(&state, ProjectSettingsFocus::Alias), FieldValue::Input("demo".to_string()));
    assert_eq!(display_value_for_field(&state, ProjectSettingsFocus::AliasCustomPath(4)), FieldValue::Empty);
    assert_eq!(display_value_for_field(&state, ProjectSettingsFocus::ChangelogEnabled), FieldValue::Empty);
}

#[test]
fn pss_text_input_captures_global_shortcuts() {
    let mut source = sample_source();
    source.branched = false;
    source.requires_repo = false;
    source.release_now_enabled = true;
    let mut state = ProjectSettingsState::new();
    let mut tab = ProjectSettingsTab::Distro;
    let _ = captures_text_input(true, &mut state, &mut tab, &source, 0, 0);
    state.focus = ProjectSettingsFocus::ReleaseNowWindows;

    assert!(captures_text_input(true, &mut state, &mut tab, &source, 0, 0));
    let outcome = try_handle_project_settings_key(
        true,
        &mut state,
        &mut tab,
        &mut source,
        0,
        0,
        SettingsKey::Char { c: '2', ctrl: false },
    );

    assert_eq!(outcome, SettingsKeyOutcome::Saved(None));
    assert_eq!(state.release_now_windows, "2");
}

#[test]
fn rows_are_placed_from_the_scroll_offset_and_clipped_at_the_bottom() {
    let rows = vec![
        ProjectSettingsRow::Text(RowText::ToggleHint),
        ProjectSettingsRow::Checkbox(ProjectSettingsFocus::ComfyGitFlowEnabled),
        ProjectSettingsRow::Path(ProjectSettingsFocus::ChangelogPath),
        ProjectSettingsRow::Spacer(1),
        ProjectSettingsRow::Checkbox(ProjectSettingsFocus::ChangelogEnabled),
    ];
    assert_eq!(
        visible_row_slots(&rows, 2, 5, 4),
        vec![RowSlot { index: 1, y: 5, height: 2 }, RowSlot { index: 2, y: 6, height: 3 }]
    );
    assert_eq!(
        visible_row_slots(&rows, 0, 0, 2),
        vec![RowSlot { index: 0, y: 0, height: 1 }, RowSlot { index: 1, y: 1, height: 1 }]
    );
    assert!(visible_row_slots(&rows, 9, 0, 10).is_empty());
    assert!(!row_drawn(&rows[1], 1));
    assert!(row_drawn(&rows[1], 2));
    assert!(!row_drawn(&rows[2], 2));
    assert!(!row_drawn(&rows[3], 1));
}

#[test]
fn settling_follows_the_focus_or_picks_it_up_when_it_scrolls_into_view() {
    let rows = vec![
        ProjectSettingsRow::Text(RowText::ToggleHint),
        ProjectSettingsRow::Checkbox(ProjectSettingsFocus::ComfyGitFlowEnabled),
        ProjectSettingsRow::Path(ProjectSettingsFocus::ChangelogPath),
        ProjectSettingsRow::Spacer(1),
        ProjectSettingsRow::Checkbox(ProjectSettingsFocus::ChangelogEnabled),
    ];
    let mut state = ProjectSettingsState::new();
    state.focus = ProjectSettingsFocus::ChangelogEnabled;
    state.follow_focus = true;
    state.settle_scroll(&rows, 4);
    assert_eq!(state.viewport_height, 4);
    assert_eq!(state.scroll, 5);
    state.follow_focus = false;
    state.settle_scroll(&rows, 4);
    assert!(state.follow_focus);
    assert_eq!(state.scroll, 5);
    state.follow_focus = false;
    state.scroll = 0;
    state.settle_scroll(&rows, 4);
    assert!(!state.follow_focus);
    assert_eq!(state.scroll, 0);
    assert_eq!(row_text_style(RowText::GitScopeLabel), TextStyle::Bold);
}

#[test]
fn scrolling_the_pane_stops_at_the_last_rows() {
    let source = sample_source();
    let mut state = ProjectSettingsState::new();
    state.viewport_height = 3;
    let rows = build_rows(ProjectSettingsTab::Changelogs, &source, 0, &state);
    let total = total_rows_height(&rows);
    state.scroll_settings(ProjectSettingsTab::Changelogs, &source, 0, 1000);
    assert_eq!(state.scroll, total - 3);
    assert!(!state.follow_focus);
    state.scroll_settings(ProjectSettingsTab::Changelogs, &source, 0, -2);
    assert_eq!(state.scroll, total - 5);
}
