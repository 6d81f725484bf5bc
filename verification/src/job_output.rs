//! What the dashboard does with the output of a background job: where the
//! output goes, what it starts next, and what the status line says. The
//! output's payload (dialogs, logs, summaries) stays with the host; the
//! decision is made from the facts about it that matter.

use vstd::prelude::*;

verus! {

/// What a background job produced, as far as the decision needs it.
#[derive(Clone, Copy, Debug, PartialEq, Eq, Structural)]
pub enum JobOutputFacts {
    /// A recent-changes dialog to open.
    OpenRecentChanges,
    /// The branch check before a bump: how many repositories are off main.
    PendingBumpMainBranch { repos_off_main: usize },
    /// The staged-files check before an overview bump: how many warnings.
    OverviewBumpWarnings { warnings: usize },
    /// A refreshed recent-changes view, for the overview or for the dialog,
    /// with or without a status message of its own.
    RecentChanges { is_overview: bool, has_status_message: bool },
    /// Prefetched ranges for a project's recent-changes dialog.
    RecentChangesPrefetch {
        /// The open recent-changes dialog is the one of that project.
        dialog_for_project: bool,
        has_recent_range: bool,
        has_history_ranges: bool,
    },
    /// A changelog preview to open.
    OpenChangelogPreview,
    /// Activity summaries, and whether their project is still the selected one.
    OverviewActivityCache { for_selected_project: bool },
    /// A Release-NOW validation: whether the mirrors must be synced first,
    /// and whether it carries a warning.
    ReleaseNowValidated { mirror_sync_pending: bool, warning_pending: bool },
    /// The result of a mirror sync: whether the mirrors are now in sync.
    ReleaseNowMirrorSyncResult { in_sync: bool },
    /// More lines for the Release-NOW log.
    ReleaseNowLogChunk,
    /// The Release-NOW run finished, with its summary.
    ReleaseNowCompleted,
    /// A tag was created, with its summary and the replay's notices and errors.
    CreateTag,
}

/// Where the output's payload goes.
#[derive(Clone, Copy, Debug, PartialEq, Eq, Structural)]
pub enum OutputTarget {
    /// Nowhere: it is dropped.
    Dropped,
    RecentChangesDialog,
    OverviewRecentChanges,
    MainBranchWarningDialog,
    OverviewBumpWarningDialog,
    /// Into the open recent-changes dialog's prefetched ranges.
    RecentChangesPrefetch,
    ChangelogPreviewDialog,
    OverviewActivity,
    /// A new Release-NOW dialog, replacing the old one.
    ReleaseNowDialog,
    /// Into the open Release-NOW dialog, if there is one.
    ReleaseNowDialogUpdate,
    /// The tag's summary, notices and errors go to the status line and toasts.
    TagSummary,
}

#[derive(Clone, Copy, Debug, PartialEq, Eq, Structural)]
pub enum StatusTone {
    Info,
    Success,
    Warning,
}

/// What the status line says afterwards.
#[derive(Clone, Copy, Debug, PartialEq, Eq)]
pub enum StatusUpdate {
    /// It keeps what it said.
    Keep,
    /// A fixed message.
    Fixed(StatusTone, &'static str),
    /// The message or summary that came with the output.
    FromOutput(StatusTone),
    /// "ReleaseNOW is ready for" and the project's name.
    ReleaseNowReady,
}

/// What follows a background job's output.
#[derive(Clone, Copy, Debug, PartialEq, Eq)]
pub struct OutputEffect {
    pub target: OutputTarget,
    /// Start prefetching the recent changes of the project's other scopes.
    pub schedule_prefetch: bool,
    /// Go on with the bump that waited for the branch check.
    pub resume_pending_bump: bool,
    /// Go on to confirming the overview bump.
    pub continue_overview_bump: bool,
    /// Close the Release-NOW notes editor.
    pub close_release_now_notes: bool,
    /// Close the tag dialogs and bring the overview up to date with the repository.
    pub close_tag_dialogs: bool,
    /// Apply the prefetched range of the next scope.
    pub apply_recent_range: bool,
    /// Apply the prefetched history ranges.
    pub apply_history_ranges: bool,
    pub status: StatusUpdate,
}

pub open spec fn quiet(target: OutputTarget) -> OutputEffect {
    OutputEffect {
        target,
        schedule_prefetch: false,
        resume_pending_bump: false,
        continue_overview_bump: false,
        close_release_now_notes: false,
        close_tag_dialogs: false,
        apply_recent_range: false,
        apply_history_ranges: false,
        status: StatusUpdate::Keep,
    }
}

/// The effect of each output.
pub open spec fn output_effect_spec(o: JobOutputFacts) -> OutputEffect {
    match o {
        JobOutputFacts::OpenRecentChanges => OutputEffect {
            schedule_prefetch: true,
            status: StatusUpdate::Fixed(StatusTone::Info, "Showing git log for the selected project."),
            ..quiet(OutputTarget::RecentChangesDialog)
        },
        JobOutputFacts::PendingBumpMainBranch { repos_off_main } => if repos_off_main == 0 {
            OutputEffect { resume_pending_bump: true, ..quiet(OutputTarget::Dropped) }
        } else {
            OutputEffect {
                status: StatusUpdate::Fixed(StatusTone::Warning, "It seems like you are not on main branch. Please, choose what would you like to do..."),
                ..quiet(OutputTarget::MainBranchWarningDialog)
            }
        },
        JobOutputFacts::OverviewBumpWarnings { warnings } => if warnings == 0 {
            OutputEffect { continue_overview_bump: true, ..quiet(OutputTarget::Dropped) }
        } else {
            OutputEffect {
                status: StatusUpdate::Fixed(StatusTone::Warning, "Previously staged files were found. Review them before committing the bump."),
                ..quiet(OutputTarget::OverviewBumpWarningDialog)
            }
        },
        JobOutputFacts::RecentChanges { is_overview, has_status_message } => OutputEffect {
            target: if is_overview { OutputTarget::OverviewRecentChanges } else { OutputTarget::RecentChangesDialog },
            schedule_prefetch: !is_overview,
            status: if has_status_message { StatusUpdate::FromOutput(StatusTone::Info) } else { StatusUpdate::Keep },
            ..quiet(OutputTarget::Dropped)
        },
        JobOutputFacts::RecentChangesPrefetch { dialog_for_project, has_recent_range, has_history_ranges } =>
            if dialog_for_project {
                OutputEffect {
                    apply_recent_range: has_recent_range,
                    apply_history_ranges: has_history_ranges,
                    ..quiet(OutputTarget::RecentChangesPrefetch)
                }
            } else {
                quiet(OutputTarget::Dropped)
            },
        JobOutputFacts::OpenChangelogPreview => quiet(OutputTarget::ChangelogPreviewDialog),
        JobOutputFacts::OverviewActivityCache { for_selected_project } =>
            quiet(if for_selected_project { OutputTarget::OverviewActivity } else { OutputTarget::Dropped }),
        JobOutputFacts::ReleaseNowValidated { mirror_sync_pending, warning_pending } => OutputEffect {
            close_release_now_notes: true,
            status: if mirror_sync_pending {
                StatusUpdate::Fixed(StatusTone::Warning, "ReleaseNOW requires GitLab and GitHub to be in sync before publishing.")
            } else if warning_pending {
                StatusUpdate::Fixed(StatusTone::Warning, "ReleaseNOW found an older-than-expected bump. Confirm before continuing.")
            } else {
                StatusUpdate::ReleaseNowReady
            },
            ..quiet(OutputTarget::ReleaseNowDialog)
        },
        JobOutputFacts::ReleaseNowMirrorSyncResult { in_sync } => OutputEffect {
            status: if in_sync {
                StatusUpdate::Fixed(StatusTone::Success, "GitLab and GitHub remotes are in sync. Continue ReleaseNOW.")
            } else {
                StatusUpdate::Fixed(StatusTone::Warning, "Mirror sync finished, but GitLab and GitHub still appear out of sync.")
            },
            ..quiet(OutputTarget::ReleaseNowDialogUpdate)
        },
        JobOutputFacts::ReleaseNowLogChunk => quiet(OutputTarget::ReleaseNowDialogUpdate),
        JobOutputFacts::ReleaseNowCompleted => OutputEffect {
            status: StatusUpdate::FromOutput(StatusTone::Success),
            ..quiet(OutputTarget::ReleaseNowDialogUpdate)
        },
        JobOutputFacts::CreateTag => OutputEffect {
            close_tag_dialogs: true,
            status: StatusUpdate::FromOutput(StatusTone::Success),
            ..quiet(OutputTarget::TagSummary)
        },
    }
}

fn quiet_effect(target: OutputTarget) -> (e: OutputEffect)
    ensures
        e == quiet(target),
{
    OutputEffect {
        target,
        schedule_prefetch: false,
        resume_pending_bump: false,
        continue_overview_bump: false,
        close_release_now_notes: false,
        close_tag_dialogs: false,
        apply_recent_range: false,
        apply_history_ranges: false,
        status: StatusUpdate::Keep,
    }
}

/// Decides what the dashboard does with a background job's output.
pub fn apply_background_job_output(o: JobOutputFacts) -> (e: OutputEffect)
    ensures
        e == output_effect_spec(o),
{
    match o {
        JobOutputFacts::OpenRecentChanges => OutputEffect {
            schedule_prefetch: true,
            status: StatusUpdate::Fixed(StatusTone::Info, "Showing git log for the selected project."),
            ..quiet_effect(OutputTarget::RecentChangesDialog)
        },
        JobOutputFacts::PendingBumpMainBranch { repos_off_main } => if repos_off_main == 0 {
            OutputEffect { resume_pending_bump: true, ..quiet_effect(OutputTarget::Dropped) }
        } else {
            OutputEffect {
                status: StatusUpdate::Fixed(StatusTone::Warning, "It seems like you are not on main branch. Please, choose what would you like to do..."),
                ..quiet_effect(OutputTarget::MainBranchWarningDialog)
            }
        },
        JobOutputFacts::OverviewBumpWarnings { warnings } => if warnings == 0 {
            OutputEffect { continue_overview_bump: true, ..quiet_effect(OutputTarget::Dropped) }
        } else {
            OutputEffect {
                status: StatusUpdate::Fixed(StatusTone::Warning, "Previously staged files were found. Review them before committing the bump."),
                ..quiet_effect(OutputTarget::OverviewBumpWarningDialog)
            }
        },
        JobOutputFacts::RecentChanges { is_overview, has_status_message } => OutputEffect {
            target: if is_overview { OutputTarget::OverviewRecentChanges } else { OutputTarget::RecentChangesDialog },
            schedule_prefetch: !is_overview,
            status: if has_status_message { StatusUpdate::FromOutput(StatusTone::Info) } else { StatusUpdate::Keep },
            ..quiet_effect(OutputTarget::Dropped)
        },
        JobOutputFacts::RecentChangesPrefetch { dialog_for_project, has_recent_range, has_history_ranges } =>
            if dialog_for_project {
                OutputEffect {
                    apply_recent_range: has_recent_range,
                    apply_history_ranges: has_history_ranges,
                    ..quiet_effect(OutputTarget::RecentChangesPrefetch)
                }
            } else {
                quiet_effect(OutputTarget::Dropped)
            },
        JobOutputFacts::OpenChangelogPreview => quiet_effect(OutputTarget::ChangelogPreviewDialog),
        JobOutputFacts::OverviewActivityCache { for_selected_project } =>
            quiet_effect(if for_selected_project { OutputTarget::OverviewActivity } else { OutputTarget::Dropped }),
        JobOutputFacts::ReleaseNowValidated { mirror_sync_pending, warning_pending } => OutputEffect {
            close_release_now_notes: true,
            status: if mirror_sync_pending {
                StatusUpdate::Fixed(StatusTone::Warning, "ReleaseNOW requires GitLab and GitHub to be in sync before publishing.")
            } else if warning_pending {
                StatusUpdate::Fixed(StatusTone::Warning, "ReleaseNOW found an older-than-expected bump. Confirm before continuing.")
            } else {
                StatusUpdate::ReleaseNowReady
            },
            ..quiet_effect(OutputTarget::ReleaseNowDialog)
        },
        JobOutputFacts::ReleaseNowMirrorSyncResult { in_sync } => OutputEffect {
            status: if in_sync {
                StatusUpdate::Fixed(StatusTone::Success, "GitLab and GitHub remotes are in sync. Continue ReleaseNOW.")
            } else {
                StatusUpdate::Fixed(StatusTone::Warning, "Mirror sync finished, but GitLab and GitHub still appear out of sync.")
            },
            ..quiet_effect(OutputTarget::ReleaseNowDialogUpdate)
        },
        JobOutputFacts::ReleaseNowLogChunk => quiet_effect(OutputTarget::ReleaseNowDialogUpdate),
        JobOutputFacts::ReleaseNowCompleted => OutputEffect {
            status: StatusUpdate::FromOutput(StatusTone::Success),
            ..quiet_effect(OutputTarget::ReleaseNowDialogUpdate)
        },
        JobOutputFacts::CreateTag => OutputEffect {
            close_tag_dialogs: true,
            status: StatusUpdate::FromOutput(StatusTone::Success),
            ..quiet_effect(OutputTarget::TagSummary)
        },
    }
}

/// A check that finds nothing to warn about never stops the work that
/// waited for it, and one that finds something always asks the user first.
pub proof fn law_checks_only_stop_work_with_findings(n: usize)
    ensures
        output_effect_spec(JobOutputFacts::PendingBumpMainBranch { repos_off_main: n }).resume_pending_bump == (n == 0),
        output_effect_spec(JobOutputFacts::OverviewBumpWarnings { warnings: n }).continue_overview_bump == (n == 0),
        n > 0 ==> output_effect_spec(JobOutputFacts::PendingBumpMainBranch { repos_off_main: n }).target
            == OutputTarget::MainBranchWarningDialog,
        n > 0 ==> output_effect_spec(JobOutputFacts::OverviewBumpWarnings { warnings: n }).target
            == OutputTarget::OverviewBumpWarningDialog,
{
}

/// An opened git log shows in its dialog and starts prefetching; a refresh
/// goes to the overview or to the dialog as it says, and only the dialog's
/// prefetches; prefetched ranges for another project, and activity for a
/// project no longer selected, are dropped without effect; only a Release-NOW
/// validation closes the notes editor, and it reports the project ready only
/// when neither a mirror sync nor a warning is pending; only a created tag
/// closes the tag dialogs.
pub proof fn law_outputs_land_where_they_belong(o: JobOutputFacts)
    ensures
        output_effect_spec(JobOutputFacts::OpenRecentChanges).target == OutputTarget::RecentChangesDialog
            && output_effect_spec(JobOutputFacts::OpenRecentChanges).schedule_prefetch,
        o matches JobOutputFacts::RecentChanges { is_overview, .. } ==> {
            &&& (output_effect_spec(o).target == OutputTarget::OverviewRecentChanges) == is_overview
            &&& (output_effect_spec(o).target == OutputTarget::RecentChangesDialog) == !is_overview
            &&& output_effect_spec(o).schedule_prefetch == !is_overview
        },
        o matches JobOutputFacts::RecentChangesPrefetch { dialog_for_project, .. } && !dialog_for_project
            ==> output_effect_spec(o) == quiet(OutputTarget::Dropped),
        o == (JobOutputFacts::OverviewActivityCache { for_selected_project: false })
            ==> output_effect_spec(o) == quiet(OutputTarget::Dropped),
        output_effect_spec(o).close_release_now_notes <==> o is ReleaseNowValidated,
        o matches JobOutputFacts::ReleaseNowValidated { mirror_sync_pending, warning_pending }
            ==> ((output_effect_spec(o).status == StatusUpdate::ReleaseNowReady) <==> (!mirror_sync_pending && !warning_pending)),
        output_effect_spec(o).close_tag_dialogs <==> o == JobOutputFacts::CreateTag,
        output_effect_spec(o).schedule_prefetch ==> (o == JobOutputFacts::OpenRecentChanges || o is RecentChanges),
{
}

} // verus!
