use comfygit::std_changelog_run::{
    auto_std_changelog_decision, forced_std_changelog_decision, generate_step, replay_archived_notice,
    replay_failure_message, replay_step, replay_summary_notes, std_changelog_note, GenerateStep,
    ReplayStep,
};
use comfygit::job_output::{
    apply_background_job_output, JobOutputFacts, OutputTarget, StatusTone, StatusUpdate,
};
use comfygit::git_toast::{
    git_cancelled_message, git_finished_message, git_started_label, git_timed_out_message,
    git_toast_style, overlay_done, GitToastEvent, ToastLife, ToastStyle, ToastTone,
};
use comfygit::tag_job::{
    new_tag_job, tag_job_failure_message, tag_job_next, tag_job_steps, tag_job_summary, TagAction,
    TagJob, TagJobCommand, TagJobEvent, TagJobFailure, TagJobSteps,
};
use comfygit::jobs::{BackgroundJobKind, BackgroundJobRequestKind, JobRegistry, ResultBooking};
use comfygit::changelog_range::{
    CustomChangelogRangeFocus, CustomChangelogRangeState, CustomChangelogSelection,
};
use comfygit::std_changelog::{
    StdChangelogExecutionPolicy,
    append_background_tag_summary_notes, decide_std_changelog_generation, is_mainline_branch,
    normalized_branch_names, previous_tag_for_replay, StdChangelogDecision,
};

#[test]
fn std_changelog_decision_generates_on_main_branch() {
    let decision = decide_std_changelog_generation(
        "v0.7.3",
        "main",
        &["main".to_string()],
        &["main".to_string()],
        None,
    );

    assert_eq!(decision, StdChangelogDecision::Generate);
}

#[test]
fn custom_changelog_range_defaults_to_latest_tag_to_head() {
    let state = CustomChangelogRangeState::new(
        "main".to_string(),
        vec![
            "v1.2.0".to_string(),
            "v1.1.0".to_string(),
            "v1.0.0".to_string(),
        ],
        None,
    );

    assert_eq!(state.current_from_ref(), Some("v1.2.0"));
    assert_eq!(state.current_to_ref(), "HEAD");
    assert_eq!(state.range_label(), "v1.2.0..HEAD");
}

#[test]
fn custom_changelog_range_keeps_to_ref_newer_than_from_ref() {
    let mut state = CustomChangelogRangeState::new(
        "main".to_string(),
        vec![
            "v1.2.0".to_string(),
            "v1.1.0".to_string(),
            "v1.0.0".to_string(),
        ],
        Some(CustomChangelogSelection {
            from_ref: "v1.0.0".to_string(),
            to_ref: Some("v1.2.0".to_string()),
        }),
    );

    assert_eq!(state.range_label(), "v1.0.0..v1.2.0");

    state.select_focus(CustomChangelogRangeFocus::From);
    assert!(state.adjust_focused_selection(-1));

    assert_eq!(state.current_from_ref(), Some("v1.1.0"));
    assert_eq!(state.current_to_ref(), "v1.2.0");
    assert_eq!(state.range_label(), "v1.1.0..v1.2.0");

    assert!(state.adjust_focused_selection(-1));
    assert_eq!(state.current_from_ref(), Some("v1.2.0"));
    assert_eq!(state.current_to_ref(), "HEAD");
}

#[test]
fn std_changelog_decision_ignores_when_new_tag_is_not_on_main() {
    let decision = decide_std_changelog_generation(
        "v0.7.3",
        "feature-a",
        &["main".to_string()],
        &["feature-a".to_string()],
        None,
    );

    assert_eq!(decision, StdChangelogDecision::IgnoreNotOnMain);
}

#[test]
fn std_changelog_decision_postpones_when_tags_share_single_sub_branch() {
    let decision = decide_std_changelog_generation(
        "v0.7.3",
        "feature-a",
        &["feature-a".to_string()],
        &["feature-a".to_string()],
        None,
    );

    assert_eq!(
        decision,
        StdChangelogDecision::PostponeOnSubBranch("feature-a".to_string())
    );
}

#[test]
fn std_changelog_decision_normalizes_branch_markers() {
    let decision = decide_std_changelog_generation(
        "v0.7.3",
        "feature-a",
        &["* feature-a".to_string()],
        &["feature-a".to_string()],
        None,
    );

    assert_eq!(
        decision,
        StdChangelogDecision::PostponeOnSubBranch("feature-a".to_string())
    );
}

#[test]
fn std_changelog_decision_generates_on_custom_main_branch() {
    let decision = decide_std_changelog_generation(
        "v0.7.3",
        "trunk",
        &["trunk".to_string()],
        &["trunk".to_string()],
        Some("trunk"),
    );

    assert_eq!(decision, StdChangelogDecision::Generate);
}

#[test]
fn replay_uses_next_older_sorted_tag() {
    let tags = vec![
        "v0.7.5".to_string(),
        "v0.7.4".to_string(),
        "v0.7.3".to_string(),
    ];

    assert_eq!(
        previous_tag_for_replay(&tags, "v0.7.4"),
        Some("v0.7.3".to_string())
    );
    assert_eq!(previous_tag_for_replay(&tags, "v0.7.3"), None);
}

#[test]
fn normalized_branch_names_sorts_and_dedups_labels() {
    let names = normalized_branch_names(&[
        "  * feature-b ".to_string(),
        "feature-a".to_string(),
        "feature-b".to_string(),
        "   ".to_string(),
    ]);
    assert_eq!(names, vec!["feature-a".to_string(), "feature-b".to_string()]);
}

#[test]
fn mainline_is_main_master_or_the_custom_branch() {
    assert!(is_mainline_branch("main", None));
    assert!(is_mainline_branch("* master", None));
    assert!(!is_mainline_branch("main", Some("trunk")));
    assert!(is_mainline_branch(" trunk ", Some("trunk")));
    assert!(is_mainline_branch("main", Some("  ")));
}

#[test]
fn decision_ignores_when_sub_branches_differ() {
    let decision = decide_std_changelog_generation(
        "v1.0.0",
        "feature-b",
        &["feature-a".to_string()],
        &["feature-b".to_string()],
        None,
    );
    assert_eq!(decision, StdChangelogDecision::IgnoreNotOnMain);
}

#[test]
fn decision_generates_when_both_tags_reach_mainline() {
    let decision = decide_std_changelog_generation(
        "v1.0.0",
        "feature-b",
        &["main".to_string(), "feature-a".to_string()],
        &["feature-b".to_string(), "master".to_string()],
        None,
    );
    assert_eq!(decision, StdChangelogDecision::Generate);
}

#[test]
fn replay_matches_trimmed_tags_and_misses_unknown_ones() {
    let tags = vec![" v2 ".to_string(), "v1".to_string()];
    assert_eq!(previous_tag_for_replay(&tags, "v2"), Some("v1".to_string()));
    assert_eq!(previous_tag_for_replay(&tags, "v9"), None);
}

#[test]
fn tag_summary_notes_are_appended_with_spaces() {
    assert_eq!(
        append_background_tag_summary_notes("Done.".to_string(), &[]),
        "Done."
    );
    assert_eq!(
        append_background_tag_summary_notes(
            "Done.".to_string(),
            &["A.".to_string(), "B.".to_string()]
        ),
        "Done. A. B."
    );
}

#[test]
fn range_adjustments_clamp_and_report_changes() {
    let mut state = CustomChangelogRangeState::new(
        "core".to_string(),
        vec!["v3".to_string(), "v2".to_string(), "v1".to_string()],
        None,
    );
    assert!(!state.adjust_to(1));
    assert!(state.adjust_from(10));
    assert_eq!(state.from_index, 2);
    state.cycle_focus(1);
    assert_eq!(state.focus, CustomChangelogRangeFocus::To);
    assert!(state.adjust_focused_selection(5));
    assert_eq!(state.current_to_ref(), "v2");
    assert_eq!(state.focus_label(CustomChangelogRangeFocus::To), ">");
    state.cycle_focus(-1);
    assert_eq!(state.focus, CustomChangelogRangeFocus::From);
    let empty = CustomChangelogRangeState::new("core".to_string(), Vec::new(), None);
    assert_eq!(empty.range_label(), "no tags found; showing the latest 60 commits");
    assert_eq!(empty.display_from(), "<no tags>");
    assert!(empty.selection().is_none());
}

#[test]
fn newer_jobs_make_older_results_stale_and_cancel_their_tokens() {
    let mut jobs = JobRegistry::new();
    let (first, cancelled) = jobs.register_background_job(BackgroundJobKind::ChangelogPreview);
    assert_eq!((first, cancelled), (1, None));
    assert!(jobs.background_job_cancel(BackgroundJobKind::ChangelogPreview, first));
    let (second, cancelled) = jobs.register_background_job(BackgroundJobKind::ChangelogPreview);
    assert_eq!((second, cancelled), (2, Some(1)));
    assert!(jobs.is_background_result_stale(BackgroundJobKind::ChangelogPreview, first));
    assert!(!jobs.is_background_result_stale(BackgroundJobKind::ChangelogPreview, second));
    assert!(!jobs.background_job_cancel(BackgroundJobKind::ChangelogPreview, first));
    let (scan, _) = jobs.register_background_job(BackgroundJobKind::RepoScan);
    assert!(!jobs.is_background_result_stale(BackgroundJobKind::RepoScan, 99));
    assert!(!jobs.background_job_cancel(BackgroundJobKind::RepoScan, scan));
    assert_eq!(jobs.inflight, 3);
    assert_eq!(jobs.cancel_background_job_kind(BackgroundJobKind::ChangelogPreview), Some(2));
    assert_eq!(jobs.cancel_background_job_kind(BackgroundJobKind::ChangelogPreview), None);
    assert!(!jobs.is_background_result_stale(BackgroundJobKind::ChangelogPreview, second));
    jobs.clear_registered_background_job(BackgroundJobKind::ChangelogPreview, second);
    assert!(jobs.is_background_result_stale(BackgroundJobKind::ChangelogPreview, second));
    assert_eq!(BackgroundJobRequestKind::RunReleaseNow.kind(), BackgroundJobKind::ReleaseNow);
    assert_eq!(BackgroundJobRequestKind::CheckOverviewBumpWarnings.kind(), BackgroundJobKind::RepoScan);
}

#[test]
fn final_results_end_the_foreground_job_and_release_waiting_refreshes() {
    let mut jobs = JobRegistry::new();
    let (id, _) = jobs.register_background_job(BackgroundJobKind::ReleaseNow);
    jobs.begin_foreground(id);
    assert_eq!(
        jobs.book_result(BackgroundJobKind::ReleaseNow, id, false),
        ResultBooking { stale: false, foreground_done: false, refresh_overview_activity: false }
    );
    assert!(jobs.foreground_active);
    assert_eq!(
        jobs.book_result(BackgroundJobKind::ReleaseNow, id, true),
        ResultBooking { stale: false, foreground_done: true, refresh_overview_activity: false }
    );
    assert!(!jobs.foreground_active);
    assert_eq!(jobs.inflight, 0);
    let (activity, _) = jobs.register_background_job(BackgroundJobKind::OverviewActivity);
    jobs.overview_activity_job_inflight = true;
    jobs.overview_activity_refresh_inflight = true;
    jobs.overview_activity_refresh_pending = true;
    let booking = jobs.book_result(BackgroundJobKind::OverviewActivity, activity, true);
    assert!(booking.refresh_overview_activity);
    assert!(!jobs.overview_activity_refresh_pending);
    let (lost, _) = jobs.register_background_job(BackgroundJobKind::RecentChanges);
    jobs.schedule_failed(BackgroundJobKind::RecentChanges, lost);
    assert!(jobs.is_background_result_stale(BackgroundJobKind::RecentChanges, lost));
    assert_eq!(jobs.inflight, 0);
    jobs.worker_stopped();
    assert_eq!(jobs.foreground, None);
}

#[test]
fn tag_jobs_push_before_releasing_and_sum_up_what_happened() {
    assert_eq!(
        tag_job_steps(TagAction::CreateLocal, false),
        TagJobSteps { build_release_notes: false, push: false, release: false }
    );
    assert_eq!(
        tag_job_steps(TagAction::CreatePushAndRelease, false),
        TagJobSteps { build_release_notes: true, push: true, release: true }
    );
    assert_eq!(
        tag_job_summary(TagAction::CreateLocal, true, "v1.0.0", "Demo", None, false, &[]),
        "Created local tag 'v1.0.0' in Demo."
    );
    assert_eq!(
        tag_job_summary(TagAction::CreateLocal, false, "v1.0.0", "Demo", Some("API"), false, &[]),
        "Tag 'v1.0.0' already existed locally in Demo for API."
    );
    assert_eq!(
        tag_job_summary(
            TagAction::CreateAndPush,
            true,
            "v2.0.0",
            "Demo",
            None,
            true,
            &["Changelog updated.".to_string(), "Replayed v1.9.0.".to_string()]
        ),
        "Tag 'v2.0.0' is present locally and has been pushed for Demo. Annotation included. Changelog updated. Replayed v1.9.0."
    );
    assert_eq!(
        tag_job_summary(TagAction::CreatePushAndRelease, true, "v3", "Demo", None, false, &[]),
        "Tag 'v3' was created, pushed, and released for Demo."
    );
}

#[test]
fn std_changelog_policies_and_notes() {
    assert_eq!(forced_std_changelog_decision(StdChangelogExecutionPolicy::Auto, "main"), None);
    assert_eq!(
        forced_std_changelog_decision(StdChangelogExecutionPolicy::ForcePostpone, "feature-a"),
        Some(StdChangelogDecision::PostponeOnSubBranch("feature-a".to_string()))
    );
    assert_eq!(
        auto_std_changelog_decision(None, "main", &["main".to_string()], &["main".to_string()], None),
        StdChangelogDecision::SkipNoPreviousTag
    );
    assert_eq!(
        auto_std_changelog_decision(Some("v0.7.3"), "main", &["main".to_string()], &["main".to_string()], None),
        StdChangelogDecision::Generate
    );
    assert_eq!(generate_step(false, true, false), GenerateStep::ReuseArchive);
    assert_eq!(generate_step(true, true, true), GenerateStep::BuildFromRange);
    assert_eq!(generate_step(true, false, false), GenerateStep::NoPreviousTag);
    assert_eq!(std_changelog_note(&StdChangelogDecision::Generate, "v1", GenerateStep::BuildFromRange, false), None);
    assert_eq!(
        std_changelog_note(&StdChangelogDecision::Generate, "v1", GenerateStep::BuildFromRange, true).as_deref(),
        Some("Standard changelog was not generated because the computed tag range was empty.")
    );
    assert_eq!(
        std_changelog_note(&StdChangelogDecision::PostponeOnSubBranch("feature-a".to_string()), "v0.7.4", GenerateStep::NoPreviousTag, false).as_deref(),
        Some("Standard changelog was postponed because 'v0.7.4' already has tags on sub-branch 'feature-a'.")
    );
    assert_eq!(
        replay_summary_notes(2, 1),
        vec![
            "Replayed 2 postponed changelog(s).".to_string(),
            "1 postponed changelog replay error(s) occurred. See sticky toasts.".to_string()
        ]
    );
    assert!(replay_summary_notes(0, 0).is_empty());
    assert_eq!(replay_step(false, true, true, false), ReplayStep::StillPostponed);
    assert_eq!(replay_step(true, false, false, false), ReplayStep::FailNoPreviousTag);
    assert_eq!(replay_step(true, false, true, true), ReplayStep::FailEmptyRange);
    assert_eq!(replay_step(true, false, true, false), ReplayStep::Generate);
    assert_eq!(
        replay_archived_notice("v0.7.4"),
        "Replayed postponed changelog 'v0.7.4' was already archived and has been marked generated."
    );
    assert_eq!(
        replay_failure_message("v0.7.4", "no previous tag found for postponed replay"),
        "Postponed changelog 'v0.7.4' could not be replayed: no previous tag found for postponed replay."
    );
}

#[test]
fn job_outputs_go_where_they_belong() {
    let open = apply_background_job_output(JobOutputFacts::OpenRecentChanges);
    assert_eq!(open.target, OutputTarget::RecentChangesDialog);
    assert!(open.schedule_prefetch);
    assert_eq!(open.status, StatusUpdate::Fixed(StatusTone::Info, "Showing git log for the selected project."));

    let on_main = apply_background_job_output(JobOutputFacts::PendingBumpMainBranch { repos_off_main: 0 });
    assert!(on_main.resume_pending_bump);
    assert_eq!(on_main.target, OutputTarget::Dropped);
    assert_eq!(on_main.status, StatusUpdate::Keep);
    let off_main = apply_background_job_output(JobOutputFacts::PendingBumpMainBranch { repos_off_main: 2 });
    assert!(!off_main.resume_pending_bump);
    assert_eq!(off_main.target, OutputTarget::MainBranchWarningDialog);

    let staged = apply_background_job_output(JobOutputFacts::OverviewBumpWarnings { warnings: 1 });
    assert_eq!(staged.target, OutputTarget::OverviewBumpWarningDialog);
    assert!(!staged.continue_overview_bump);
    assert!(apply_background_job_output(JobOutputFacts::OverviewBumpWarnings { warnings: 0 }).continue_overview_bump);

    let overview = apply_background_job_output(JobOutputFacts::RecentChanges { is_overview: true, has_status_message: false });
    assert_eq!(overview.target, OutputTarget::OverviewRecentChanges);
    assert!(!overview.schedule_prefetch);
    assert_eq!(overview.status, StatusUpdate::Keep);
    let dialog = apply_background_job_output(JobOutputFacts::RecentChanges { is_overview: false, has_status_message: true });
    assert!(dialog.schedule_prefetch);
    assert_eq!(dialog.status, StatusUpdate::FromOutput(StatusTone::Info));

    let other_project = apply_background_job_output(JobOutputFacts::RecentChangesPrefetch {
        dialog_for_project: false,
        has_recent_range: true,
        has_history_ranges: true,
    });
    assert_eq!(other_project.target, OutputTarget::Dropped);
    assert!(!other_project.apply_recent_range);
    let same_project = apply_background_job_output(JobOutputFacts::RecentChangesPrefetch {
        dialog_for_project: true,
        has_recent_range: true,
        has_history_ranges: false,
    });
    assert!(same_project.apply_recent_range && !same_project.apply_history_ranges);

    assert_eq!(
        apply_background_job_output(JobOutputFacts::OverviewActivityCache { for_selected_project: false }).target,
        OutputTarget::Dropped
    );
    let validated = apply_background_job_output(JobOutputFacts::ReleaseNowValidated { mirror_sync_pending: true, warning_pending: true });
    assert!(validated.close_release_now_notes);
    assert_eq!(
        validated.status,
        StatusUpdate::Fixed(StatusTone::Warning, "ReleaseNOW requires GitLab and GitHub to be in sync before publishing.")
    );
    let ready = apply_background_job_output(JobOutputFacts::ReleaseNowValidated { mirror_sync_pending: false, warning_pending: false });
    assert_eq!(ready.status, StatusUpdate::ReleaseNowReady);
    let synced = apply_background_job_output(JobOutputFacts::ReleaseNowMirrorSyncResult { in_sync: false });
    assert_eq!(
        synced.status,
        StatusUpdate::Fixed(StatusTone::Warning, "Mirror sync finished, but GitLab and GitHub still appear out of sync.")
    );
    let tag = apply_background_job_output(JobOutputFacts::CreateTag);
    assert!(tag.close_tag_dialogs);
    assert_eq!(tag.status, StatusUpdate::FromOutput(StatusTone::Success));
}

#[test]
fn git_toasts_report_each_outcome() {
    let args = vec!["fetch".to_string(), "--tags".to_string(), "origin".to_string()];
    assert_eq!(git_started_label(&args), "git fetch --tags origin");
    assert_eq!(git_started_label(&Vec::new()), "git ");
    assert_eq!(git_finished_message(true, "ignored"), "git: SUCCESS");
    assert_eq!(git_finished_message(false, " \n "), "git: FAILED");
    assert_eq!(git_finished_message(false, "  fatal: no remote\n"), "git: FAILED\nfatal: no remote");
    assert_eq!(git_timed_out_message(30), "git: TIMED OUT (30s)");
    assert_eq!(git_cancelled_message(), "git: CANCELLED");

    assert_eq!(
        git_toast_style(GitToastEvent::Started { timeout_secs: 45 }),
        ToastStyle { tone: ToastTone::Info, life: ToastLife::Seconds(45), progress_bar: true }
    );
    assert_eq!(
        git_toast_style(GitToastEvent::Finished { success: true }),
        ToastStyle { tone: ToastTone::Success, life: ToastLife::Seconds(2), progress_bar: false }
    );
    assert_eq!(git_toast_style(GitToastEvent::Finished { success: false }).life, ToastLife::KeptOn);
    assert_eq!(git_toast_style(GitToastEvent::TimedOut { timeout_secs: 5 }).tone, ToastTone::Error);
    assert_eq!(git_toast_style(GitToastEvent::Cancelled).tone, ToastTone::Warning);

    assert!(!overlay_done(false, 10_000, false));
    assert!(overlay_done(true, 0, false));
    assert!(!overlay_done(true, 2_999, true));
    assert!(overlay_done(true, 3_000, true));
}

fn run_tag_job(mut job: TagJob, events: &[TagJobEvent]) -> Vec<TagJobCommand> {
    let mut commands = Vec::new();
    for event in events {
        let (next, command) = tag_job_next(job, *event);
        job = next;
        commands.push(command);
    }
    commands
}

#[test]
fn tag_jobs_run_their_steps_in_order() {
    let release = new_tag_job(TagAction::CreatePushAndRelease, true, true);
    assert_eq!(
        run_tag_job(
            release,
            &[
                TagJobEvent::Start,
                TagJobEvent::StepDone,
                TagJobEvent::TagEnsured(true),
                TagJobEvent::StepDone,
                TagJobEvent::StepDone,
                TagJobEvent::StepDone,
                TagJobEvent::StepDone,
                TagJobEvent::StepDone,
            ]
        ),
        vec![
            TagJobCommand::ReadCurrentBranch,
            TagJobCommand::EnsureLocalTag,
            TagJobCommand::BuildReleaseNotes,
            TagJobCommand::RunStandardChangelog,
            TagJobCommand::PushTag,
            TagJobCommand::CreateRelease,
            TagJobCommand::Summarize,
            TagJobCommand::Nothing,
        ]
    );

    let local = new_tag_job(TagAction::CreateLocal, false, false);
    assert_eq!(
        run_tag_job(local, &[TagJobEvent::Start, TagJobEvent::StepDone, TagJobEvent::TagEnsured(false)]),
        vec![TagJobCommand::ReadCurrentBranch, TagJobCommand::EnsureLocalTag, TagJobCommand::Summarize]
    );

    let no_remote = new_tag_job(TagAction::CreateAndPush, false, false);
    let commands = run_tag_job(no_remote, &[TagJobEvent::Start, TagJobEvent::StepDone, TagJobEvent::TagEnsured(false)]);
    assert_eq!(commands[2], TagJobCommand::Fail(TagJobFailure::NoRemote));
    assert_eq!(tag_job_failure_message(TagJobFailure::NoRemote), Some("no remote is configured for this project"));
    assert_eq!(tag_job_failure_message(TagJobFailure::Step), None);

    let failing = new_tag_job(TagAction::CreateAndPush, true, true);
    assert_eq!(
        run_tag_job(failing, &[TagJobEvent::Start, TagJobEvent::StepFailed, TagJobEvent::StepDone]),
        vec![TagJobCommand::ReadCurrentBranch, TagJobCommand::Fail(TagJobFailure::Step), TagJobCommand::Nothing]
    );
}
