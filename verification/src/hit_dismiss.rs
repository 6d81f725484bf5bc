//! What the clickable controls that close, cancel or switch do in place:
//! which dialogs close, whether the wizard returns to the dashboard, which
//! background work stops, and what the status line says; and the choices a
//! few dialog controls make before they act.

use vstd::prelude::*;

verus! {

/// The clicks that close or cancel something.
#[derive(Clone, Copy, Debug, PartialEq, Eq, Structural)]
pub enum DismissHit {
    CancelProjectEdit,
    CancelReleaseNowNotes,
    CancelBump,
    CloseRecentChanges,
    CancelCommitRename,
    CancelTagAnnotation,
    CancelTagDialog,
    CancelWizard,
    CancelTopPicks,
    CancelDeleteRequest,
}

/// The dialogs a dismissal can close.
#[derive(Clone, Copy, Debug, PartialEq, Eq, Structural)]
pub enum ClosedDialog {
    ProjectEdit,
    ReleaseNowNotes,
    Bump,
    RecentChanges,
    CommitRename,
    TagAnnotation,
    Tag,
    TopPicksEditor,
    DeleteConfirmation,
}

/// What a dismissal does.
#[derive(Clone, Copy, Debug, PartialEq, Eq)]
pub struct Dismissal {
    /// The dialogs that close.
    pub closes: (Option<ClosedDialog>, Option<ClosedDialog>),
    /// The wizard gives way to the dashboard.
    pub back_to_dashboard: bool,
    /// The recent-changes jobs (and their prefetch) are cancelled.
    pub cancels_recent_changes_jobs: bool,
    /// The informational status shown.
    pub status: &'static str,
}

pub open spec fn closing(d: ClosedDialog, status: &'static str) -> Dismissal {
    Dismissal { closes: (Some(d), None), back_to_dashboard: false, cancels_recent_changes_jobs: false, status }
}

pub open spec fn dismissal_spec(hit: DismissHit) -> Dismissal {
    match hit {
        DismissHit::CancelProjectEdit => closing(ClosedDialog::ProjectEdit, "Project edit cancelled."),
        DismissHit::CancelReleaseNowNotes => closing(ClosedDialog::ReleaseNowNotes, "Release notes editor closed."),
        DismissHit::CancelBump => closing(ClosedDialog::Bump, "Bump preview closed."),
        DismissHit::CloseRecentChanges => Dismissal {
            cancels_recent_changes_jobs: true,
            ..closing(ClosedDialog::RecentChanges, "Git log closed.")
        },
        DismissHit::CancelCommitRename => closing(ClosedDialog::CommitRename, "Commit rename cancelled."),
        DismissHit::CancelTagAnnotation => closing(ClosedDialog::TagAnnotation, "Tag annotation editor closed."),
        DismissHit::CancelTagDialog => Dismissal {
            closes: (Some(ClosedDialog::Tag), Some(ClosedDialog::TagAnnotation)),
            ..closing(ClosedDialog::Tag, "Tag creation cancelled.")
        },
        DismissHit::CancelWizard => Dismissal {
            closes: (None, None),
            back_to_dashboard: true,
            cancels_recent_changes_jobs: false,
            status: "Wizard cancelled.",
        },
        DismissHit::CancelTopPicks => closing(ClosedDialog::TopPicksEditor, "Top Picks editor closed."),
        DismissHit::CancelDeleteRequest => closing(ClosedDialog::DeleteConfirmation, "Deletion cancelled."),
    }
}

fn closing_of(d: ClosedDialog, status: &'static str) -> (r: Dismissal)
    ensures
        r == closing(d, status),
{
    Dismissal { closes: (Some(d), None), back_to_dashboard: false, cancels_recent_changes_jobs: false, status }
}

/// What a click that closes or cancels does.
pub fn dismissal(hit: DismissHit) -> (r: Dismissal)
    ensures
        r == dismissal_spec(hit),
{
    match hit {
        DismissHit::CancelProjectEdit => closing_of(ClosedDialog::ProjectEdit, "Project edit cancelled."),
        DismissHit::CancelReleaseNowNotes => closing_of(ClosedDialog::ReleaseNowNotes, "Release notes editor closed."),
        DismissHit::CancelBump => closing_of(ClosedDialog::Bump, "Bump preview closed."),
        DismissHit::CloseRecentChanges => Dismissal {
            cancels_recent_changes_jobs: true,
            ..closing_of(ClosedDialog::RecentChanges, "Git log closed.")
        },
        DismissHit::CancelCommitRename => closing_of(ClosedDialog::CommitRename, "Commit rename cancelled."),
        DismissHit::CancelTagAnnotation => closing_of(ClosedDialog::TagAnnotation, "Tag annotation editor closed."),
        DismissHit::CancelTagDialog => Dismissal {
            closes: (Some(ClosedDialog::Tag), Some(ClosedDialog::TagAnnotation)),
            ..closing_of(ClosedDialog::Tag, "Tag creation cancelled.")
        },
        DismissHit::CancelWizard => Dismissal {
            closes: (None, None),
            back_to_dashboard: true,
            cancels_recent_changes_jobs: false,
            status: "Wizard cancelled.",
        },
        DismissHit::CancelTopPicks => closing_of(ClosedDialog::TopPicksEditor, "Top Picks editor closed."),
        DismissHit::CancelDeleteRequest => closing_of(ClosedDialog::DeleteConfirmation, "Deletion cancelled."),
    }
}

/// What a click on a recent-changes tab does.
#[derive(Clone, Copy, Debug, PartialEq, Eq)]
pub enum RecentChangesTabHit {
    /// The tag history is loaded in the background first, with this status.
    LoadHistory(&'static str),
    /// The dialog switches to the tab at once.
    Switch,
}

/// The history tab loads its history first if it is not loaded yet.
pub fn recent_changes_tab_hit(history_tab: bool, history_loaded: bool) -> (r: RecentChangesTabHit)
    ensures
        history_tab && !history_loaded ==> (r matches RecentChangesTabHit::LoadHistory(m)
            && m@ == "Loading tag history for the selected scope."@),
        !(history_tab && !history_loaded) ==> r == RecentChangesTabHit::Switch,
{
    if history_tab && !history_loaded {
        RecentChangesTabHit::LoadHistory("Loading tag history for the selected scope.")
    } else {
        RecentChangesTabHit::Switch
    }
}

/// The status while the recent changes load for another scope.
pub fn recent_changes_scope_status(delta: isize) -> (m: &'static str)
    ensures
        m@ == if delta < 0 {
            "Loading git history for the previous scope."@
        } else {
            "Loading git history for the next scope."@
        },
{
    if delta < 0 {
        "Loading git history for the previous scope."
    } else {
        "Loading git history for the next scope."
    }
}

/// The choice in the Release-NOW dialog about existing artifacts that
/// closes the dialog; the others are confirmed.
pub const ARTIFACTS_CLOSE_CHOICE: usize = 3;

/// Whether picking an existing-artifacts choice closes the Release-NOW
/// dialog (else the choice is confirmed).
pub fn artifacts_choice_closes(choice: usize) -> (r: bool)
    ensures
        r == (choice == ARTIFACTS_CLOSE_CHOICE),
{
    choice == ARTIFACTS_CLOSE_CHOICE
}

/// The status once a custom target key can be typed.
pub fn custom_target_key_status() -> (m: &'static str)
    ensures
        m@ == "Custom target key input enabled."@,
{
    "Custom target key input enabled."
}

/// Every dismissal closes something or leaves the wizard, and only closing
/// the recent changes stops background work.
pub proof fn law_dismissals_close_something(hit: DismissHit)
    ensures
        dismissal_spec(hit).closes.0 is Some || dismissal_spec(hit).back_to_dashboard,
        dismissal_spec(hit).cancels_recent_changes_jobs <==> hit == DismissHit::CloseRecentChanges,
{
}

/// Each cancel or close control closes its own dialog and no other
/// (cancelling the tag dialog also closes its annotation editor), and its
/// status says so.
pub proof fn law_each_control_closes_its_own_dialog()
    ensures
        dismissal_spec(DismissHit::CancelProjectEdit).closes == (Some(ClosedDialog::ProjectEdit), None::<ClosedDialog>)
            && dismissal_spec(DismissHit::CancelProjectEdit).status@ == "Project edit cancelled."@,
        dismissal_spec(DismissHit::CancelCommitRename).closes == (Some(ClosedDialog::CommitRename), None::<ClosedDialog>)
            && dismissal_spec(DismissHit::CancelCommitRename).status@ == "Commit rename cancelled."@,
        dismissal_spec(DismissHit::CancelTagDialog).closes == (Some(ClosedDialog::Tag), Some(ClosedDialog::TagAnnotation))
            && dismissal_spec(DismissHit::CancelTagDialog).status@ == "Tag creation cancelled."@,
        dismissal_spec(DismissHit::CancelTagAnnotation).closes == (Some(ClosedDialog::TagAnnotation), None::<ClosedDialog>),
        dismissal_spec(DismissHit::CancelDeleteRequest).closes == (Some(ClosedDialog::DeleteConfirmation), None::<ClosedDialog>)
            && dismissal_spec(DismissHit::CancelDeleteRequest).status@ == "Deletion cancelled."@,
        dismissal_spec(DismissHit::CloseRecentChanges).closes == (Some(ClosedDialog::RecentChanges), None::<ClosedDialog>)
            && dismissal_spec(DismissHit::CloseRecentChanges).status@ == "Git log closed."@,
        dismissal_spec(DismissHit::CancelBump).closes == (Some(ClosedDialog::Bump), None::<ClosedDialog>),
        dismissal_spec(DismissHit::CancelTopPicks).closes == (Some(ClosedDialog::TopPicksEditor), None::<ClosedDialog>),
        dismissal_spec(DismissHit::CancelReleaseNowNotes).closes == (Some(ClosedDialog::ReleaseNowNotes), None::<ClosedDialog>),
        dismissal_spec(DismissHit::CancelWizard).back_to_dashboard && dismissal_spec(DismissHit::CancelWizard).status@ == "Wizard cancelled."@,
{
}

} // verus!
