//! Bookkeeping of the dashboard's background jobs: each job gets a fresh id;
//! for the kinds whose results replace one another only the latest job of the
//! kind counts, so a result from an older job is stale; each such job has a
//! cancellation token, which a newer job of the kind cancels.

use vstd::prelude::*;

verus! {

/// What a background job does.
#[derive(Clone, Copy, Debug, PartialEq, Eq, Structural)]
pub enum BackgroundJobKind {
    RecentChanges,
    RepoScan,
    RecentChangesPrefetch,
    ChangelogPreview,
    OverviewActivity,
    ReleaseNow,
    TagAction,
}

/// The requests the dashboard sends to its worker.
#[derive(Clone, Copy, Debug, PartialEq, Eq, Structural)]
pub enum BackgroundJobRequestKind {
    OpenRecentChanges,
    RecentChanges,
    CheckPendingBumpMainBranch,
    CheckOverviewBumpWarnings,
    PrefetchRecentChanges,
    OpenDashboardChangelogPreview,
    OpenOverviewWorkflowChangelog,
    RefreshOverviewActivity,
    ValidateReleaseNow,
    RunReleaseNow,
    ReleaseNowMirrorSync,
    CreateTag,
}

pub open spec fn request_kind_spec(r: BackgroundJobRequestKind) -> BackgroundJobKind {
    match r {
        BackgroundJobRequestKind::OpenRecentChanges | BackgroundJobRequestKind::RecentChanges => BackgroundJobKind::RecentChanges,
        BackgroundJobRequestKind::CheckPendingBumpMainBranch | BackgroundJobRequestKind::CheckOverviewBumpWarnings => BackgroundJobKind::RepoScan,
        BackgroundJobRequestKind::PrefetchRecentChanges => BackgroundJobKind::RecentChangesPrefetch,
        BackgroundJobRequestKind::OpenDashboardChangelogPreview | BackgroundJobRequestKind::OpenOverviewWorkflowChangelog => BackgroundJobKind::ChangelogPreview,
        BackgroundJobRequestKind::RefreshOverviewActivity => BackgroundJobKind::OverviewActivity,
        BackgroundJobRequestKind::ValidateReleaseNow | BackgroundJobRequestKind::RunReleaseNow
        | BackgroundJobRequestKind::ReleaseNowMirrorSync => BackgroundJobKind::ReleaseNow,
        BackgroundJobRequestKind::CreateTag => BackgroundJobKind::TagAction,
    }
}

impl BackgroundJobRequestKind {
    /// The kind of job a request starts.
    pub fn kind(&self) -> (k: BackgroundJobKind)
        ensures
            k == request_kind_spec(*self),
    {
        match self {
            BackgroundJobRequestKind::OpenRecentChanges | BackgroundJobRequestKind::RecentChanges => BackgroundJobKind::RecentChanges,
            BackgroundJobRequestKind::CheckPendingBumpMainBranch | BackgroundJobRequestKind::CheckOverviewBumpWarnings => BackgroundJobKind::RepoScan,
            BackgroundJobRequestKind::PrefetchRecentChanges => BackgroundJobKind::RecentChangesPrefetch,
            BackgroundJobRequestKind::OpenDashboardChangelogPreview | BackgroundJobRequestKind::OpenOverviewWorkflowChangelog => BackgroundJobKind::ChangelogPreview,
            BackgroundJobRequestKind::RefreshOverviewActivity => BackgroundJobKind::OverviewActivity,
            BackgroundJobRequestKind::ValidateReleaseNow | BackgroundJobRequestKind::RunReleaseNow
            | BackgroundJobRequestKind::ReleaseNowMirrorSync => BackgroundJobKind::ReleaseNow,
            BackgroundJobRequestKind::CreateTag => BackgroundJobKind::TagAction,
        }
    }
}

/// The latest job of a kind whose results replace one another, and the job
/// whose cancellation token is held (until it is cancelled).
#[derive(Clone, Copy, Debug, PartialEq, Eq, Structural)]
pub struct LatestJob {
    pub job: Option<u64>,
    pub token: Option<u64>,
}

/// The dashboard's record of its background jobs.
#[derive(Clone, Copy, Debug, PartialEq, Eq, Structural)]
pub struct JobRegistry {
    pub next_id: u64,
    /// Jobs sent to the worker whose final result has not come back.
    pub inflight: usize,
    /// Whether a foreground job (one the user waits for) runs.
    pub foreground_active: bool,
    pub foreground: Option<u64>,
    pub recent_changes: LatestJob,
    pub recent_changes_prefetch: LatestJob,
    pub changelog_preview: LatestJob,
    pub overview_activity: LatestJob,
    pub release_now: LatestJob,
    pub overview_activity_job_inflight: bool,
    pub overview_activity_refresh_inflight: bool,
    pub overview_activity_refresh_pending: bool,
}

/// Both ids of `t` are below `next_id`.
pub open spec fn handed_out(t: LatestJob, next_id: u64) -> bool {
    &&& (t.job matches Some(j) ==> j < next_id)
    &&& (t.token matches Some(j) ==> j < next_id)
}

/// Whether results of `kind` replace one another (and so can go stale).
pub open spec fn replaces_results(kind: BackgroundJobKind) -> bool {
    !(kind == BackgroundJobKind::RepoScan || kind == BackgroundJobKind::TagAction)
}

impl JobRegistry {
    pub open spec fn latest(self, kind: BackgroundJobKind) -> LatestJob {
        match kind {
            BackgroundJobKind::RecentChanges => self.recent_changes,
            BackgroundJobKind::RecentChangesPrefetch => self.recent_changes_prefetch,
            BackgroundJobKind::ChangelogPreview => self.changelog_preview,
            BackgroundJobKind::OverviewActivity => self.overview_activity,
            BackgroundJobKind::ReleaseNow => self.release_now,
            _ => LatestJob { job: None, token: None },
        }
    }

    /// `self` with the record of `kind` replaced (nothing for the kinds whose results do not replace one another).
    pub open spec fn with_latest(self, kind: BackgroundJobKind, t: LatestJob) -> JobRegistry {
        match kind {
            BackgroundJobKind::RecentChanges => JobRegistry { recent_changes: t, ..self },
            BackgroundJobKind::RecentChangesPrefetch => JobRegistry { recent_changes_prefetch: t, ..self },
            BackgroundJobKind::ChangelogPreview => JobRegistry { changelog_preview: t, ..self },
            BackgroundJobKind::OverviewActivity => JobRegistry { overview_activity: t, ..self },
            BackgroundJobKind::ReleaseNow => JobRegistry { release_now: t, ..self },
            _ => self,
        }
    }

    pub open spec fn stale_spec(self, kind: BackgroundJobKind, id: u64) -> bool {
        replaces_results(kind) && self.latest(kind).job != Some(id)
    }

    /// The ids handed out so far are all below `next_id`.
    pub open spec fn wf(self) -> bool {
        &&& handed_out(self.recent_changes, self.next_id)
        &&& handed_out(self.recent_changes_prefetch, self.next_id)
        &&& handed_out(self.changelog_preview, self.next_id)
        &&& handed_out(self.overview_activity, self.next_id)
        &&& handed_out(self.release_now, self.next_id)
    }

    /// No job yet.
    pub fn new() -> (r: Self)
        ensures
            r.wf(),
            r.next_id == 1,
            r.inflight == 0,
            !r.foreground_active,
            r.foreground is None,
            forall|k: BackgroundJobKind| #![trigger r.latest(k)] r.latest(k) == (LatestJob { job: None, token: None }),
            !r.overview_activity_job_inflight && !r.overview_activity_refresh_inflight && !r.overview_activity_refresh_pending,
    {
        let none = LatestJob { job: None, token: None };
        JobRegistry {
            next_id: 1,
            inflight: 0,
            foreground_active: false,
            foreground: None,
            recent_changes: none,
            recent_changes_prefetch: none,
            changelog_preview: none,
            overview_activity: none,
            release_now: none,
            overview_activity_job_inflight: false,
            overview_activity_refresh_inflight: false,
            overview_activity_refresh_pending: false,
        }
    }

    fn latest_job(&self, kind: BackgroundJobKind) -> (t: LatestJob)
        ensures
            t == self.latest(kind),
    {
        match kind {
            BackgroundJobKind::RecentChanges => self.recent_changes,
            BackgroundJobKind::RecentChangesPrefetch => self.recent_changes_prefetch,
            BackgroundJobKind::ChangelogPreview => self.changelog_preview,
            BackgroundJobKind::OverviewActivity => self.overview_activity,
            BackgroundJobKind::ReleaseNow => self.release_now,
            _ => LatestJob { job: None, token: None },
        }
    }

    fn set_latest(&mut self, kind: BackgroundJobKind, t: LatestJob)
        ensures
            *final(self) == old(self).with_latest(kind, t),
    {
        match kind {
            BackgroundJobKind::RecentChanges => self.recent_changes = t,
            BackgroundJobKind::RecentChangesPrefetch => self.recent_changes_prefetch = t,
            BackgroundJobKind::ChangelogPreview => self.changelog_preview = t,
            BackgroundJobKind::OverviewActivity => self.overview_activity = t,
            BackgroundJobKind::ReleaseNow => self.release_now = t,
            _ => {},
        }
    }

    /// Drops the held cancellation token of `kind`; returns the job it belongs
    /// to, whose work is to be cancelled.
    pub fn cancel_background_job_kind(&mut self, kind: BackgroundJobKind) -> (cancelled: Option<u64>)
        requires
            old(self).wf(),
        ensures
            final(self).wf(),
            cancelled == old(self).latest(kind).token,
            *final(self) == old(self).with_latest(kind, LatestJob { token: None, ..old(self).latest(kind) }),
    {
        let t = self.latest_job(kind);
        self.set_latest(kind, LatestJob { token: None, ..t });
        t.token
    }

    /// Records a new job of `kind` and returns its id, with the job whose
    /// token it cancelled (the previous job of the kind, if its token was
    /// still held).
    pub fn register_background_job(&mut self, kind: BackgroundJobKind) -> (r: (u64, Option<u64>))
        requires
            old(self).wf(),
            old(self).next_id < u64::MAX,
            old(self).inflight < usize::MAX,
        ensures
            final(self).wf(),
            r.0 == old(self).next_id,
            r.1 == old(self).latest(kind).token,
            *final(self) == (JobRegistry {
                next_id: (old(self).next_id + 1) as u64,
                inflight: (old(self).inflight + 1) as usize,
                ..old(self).with_latest(kind, LatestJob { job: Some(r.0), token: Some(r.0) })
            }),
    {
        let cancelled = self.cancel_background_job_kind(kind);
        let id = self.next_id;
        self.next_id = self.next_id + 1;
        self.inflight = self.inflight + 1;
        self.set_latest(kind, LatestJob { job: Some(id), token: Some(id) });
        (id, cancelled)
    }

    /// Whether job `id` of `kind` runs with the kind's held token (else it
    /// gets a fresh token that nothing cancels).
    pub fn background_job_cancel(&self, kind: BackgroundJobKind, id: u64) -> (shares: bool)
        ensures
            shares == (self.latest(kind).job == Some(id) && self.latest(kind).token is Some),
    {
        let t = self.latest_job(kind);
        match (t.job, t.token) {
            (Some(j), Some(_)) => j == id,
            _ => false,
        }
    }

    /// Forgets job `id` of `kind` if it is the kind's latest.
    pub fn clear_registered_background_job(&mut self, kind: BackgroundJobKind, id: u64)
        requires
            old(self).wf(),
        ensures
            final(self).wf(),
            *final(self) == if old(self).latest(kind).job == Some(id) {
                old(self).with_latest(kind, LatestJob { job: None, token: None })
            } else {
                *old(self)
            },
    {
        let t = self.latest_job(kind);
        if t.job == Some(id) {
            self.set_latest(kind, LatestJob { job: None, token: None });
        }
    }

    /// Whether a result of job `id` of `kind` is stale: a newer job of the
    /// kind replaced it (or it was forgotten). Results of the other kinds never are.
    pub fn is_background_result_stale(&self, kind: BackgroundJobKind, id: u64) -> (stale: bool)
        ensures
            stale == self.stale_spec(kind, id),
    {
        match kind {
            BackgroundJobKind::RepoScan | BackgroundJobKind::TagAction => false,
            _ => self.latest_job(kind).job != Some(id),
        }
    }

    /// Undoes the registration of a job that could not be sent to the worker.
    pub fn schedule_failed(&mut self, kind: BackgroundJobKind, id: u64)
        requires
            old(self).wf(),
        ensures
            final(self).wf(),
            ({
                let counted = JobRegistry {
                    inflight: if old(self).inflight > 0 { (old(self).inflight - 1) as usize } else { 0 },
                    ..*old(self)
                };
                *final(self) == if counted.latest(kind).job == Some(id) {
                    counted.with_latest(kind, LatestJob { job: None, token: None })
                } else {
                    counted
                }
            }),
    {
        self.inflight = self.inflight.saturating_sub(1);
        self.clear_registered_background_job(kind, id);
    }

    /// Marks job `id` as the foreground job (one the user waits for).
    pub fn begin_foreground(&mut self, id: u64)
        ensures
            *final(self) == (JobRegistry { foreground_active: true, foreground: Some(id), ..*old(self) }),
    {
        self.foreground_active = true;
        self.foreground = Some(id);
    }

    /// The worker went away: nothing runs any more.
    pub fn worker_stopped(&mut self)
        ensures
            *final(self) == (JobRegistry { foreground_active: false, foreground: None, inflight: 0, ..*old(self) }),
    {
        self.foreground_active = false;
        self.foreground = None;
        self.inflight = 0;
    }

    /// Books a message from job `id` of `kind` (`terminal` when it is the
    /// job's final result). A final result lowers the count of jobs in flight,
    /// ends the foreground job if it was that one, and for the latest
    /// overview-activity job ends its run, asking for a refresh that waited
    /// for it. Returns what follows for the message.
    pub fn book_result(&mut self, kind: BackgroundJobKind, id: u64, terminal: bool) -> (outcome: ResultBooking)
        requires
            old(self).wf(),
        ensures
            final(self).wf(),
            outcome.stale == old(self).stale_spec(kind, id),
            outcome.foreground_done == (terminal && old(self).foreground == Some(id)),
            outcome.refresh_overview_activity == (terminal && overview_run_ends(*old(self), kind, id)
                && old(self).overview_activity_refresh_inflight && old(self).overview_activity_refresh_pending),
            *final(self) == booked(*old(self), kind, id, terminal),
    {
        let stale = self.is_background_result_stale(kind, id);
        let mut foreground_done = false;
        let mut refresh = false;
        if terminal {
            self.inflight = self.inflight.saturating_sub(1);
            if self.foreground == Some(id) {
                self.foreground_active = false;
                self.foreground = None;
                foreground_done = true;
            }
            if self.overview_activity.job == Some(id) && kind == BackgroundJobKind::OverviewActivity {
                self.overview_activity_job_inflight = false;
                if self.overview_activity_refresh_inflight {
                    self.overview_activity_refresh_inflight = false;
                    if self.overview_activity_refresh_pending {
                        self.overview_activity_refresh_pending = false;
                        refresh = true;
                    }
                }
            }
        }
        ResultBooking { stale, foreground_done, refresh_overview_activity: refresh }
    }
}

/// What follows for a result message.
#[derive(Clone, Copy, Debug, PartialEq, Eq, Structural)]
pub struct ResultBooking {
    /// The result is to be dropped.
    pub stale: bool,
    /// The foreground job ended (its progress dialog closes).
    pub foreground_done: bool,
    /// A refresh of the overview activity waited for this job and is now due.
    pub refresh_overview_activity: bool,
}

/// Whether a final result of job `id` of `kind` ends the overview-activity run.
pub open spec fn overview_run_ends(r: JobRegistry, kind: BackgroundJobKind, id: u64) -> bool {
    r.overview_activity.job == Some(id) && kind == BackgroundJobKind::OverviewActivity
}

/// The registry after booking a message.
pub open spec fn booked(r: JobRegistry, kind: BackgroundJobKind, id: u64, terminal: bool) -> JobRegistry {
    if !terminal {
        r
    } else {
        let ends_foreground = r.foreground == Some(id);
        let ends_run = overview_run_ends(r, kind, id);
        JobRegistry {
            inflight: if r.inflight > 0 { (r.inflight - 1) as usize } else { 0 },
            foreground_active: if ends_foreground { false } else { r.foreground_active },
            foreground: if ends_foreground { None } else { r.foreground },
            overview_activity_job_inflight: if ends_run { false } else { r.overview_activity_job_inflight },
            overview_activity_refresh_inflight: if ends_run { false } else { r.overview_activity_refresh_inflight },
            overview_activity_refresh_pending: if ends_run && r.overview_activity_refresh_inflight {
                false
            } else {
                r.overview_activity_refresh_pending
            },
            ..r
        }
    }
}

/// The latest job of a kind is never stale, and once a newer job of a
/// replacing kind is registered every other one is: the results of the
/// latest request win. Jobs of other kinds are not affected.
pub proof fn law_latest_job_wins(r: JobRegistry, kind: BackgroundJobKind, older: u64)
    requires
        r.wf(),
        r.next_id < u64::MAX,
        r.inflight < usize::MAX,
        older < r.next_id,
    ensures
        ({
            let id = r.next_id;
            let after = JobRegistry {
                next_id: (r.next_id + 1) as u64,
                inflight: (r.inflight + 1) as usize,
                ..r.with_latest(kind, LatestJob { job: Some(id), token: Some(id) })
            };
            &&& !after.stale_spec(kind, id)
            &&& replaces_results(kind) ==> after.stale_spec(kind, older)
            &&& replaces_results(kind) ==> forall|j: u64| j != id ==> #[trigger] after.stale_spec(kind, j)
            &&& forall|other: BackgroundJobKind, j: u64| other != kind ==>
                (#[trigger] after.stale_spec(other, j) == r.stale_spec(other, j))
        }),
{
}

/// Ids never repeat: a registered job's id is above every id handed out before.
pub proof fn law_ids_are_fresh(r: JobRegistry, other: BackgroundJobKind)
    requires
        r.wf(),
    ensures
        r.latest(other).job matches Some(j) ==> j < r.next_id,
{
}

} // verus!
