//! The decisions of the tag job: which steps follow creating a tag, and the
//! summary the dashboard shows when it is done.

use vstd::prelude::*;
use crate::std_changelog::{append_background_tag_summary_notes, join_spaced, string_views};
use crate::text::concat_str;

verus! {

/// What the tag dialog was asked to do.
#[derive(Clone, Copy, Debug, PartialEq, Eq, Structural)]
pub enum TagAction {
    CreateLocal,
    CreateAndPush,
    CreatePushAndRelease,
}

/// The steps after the tag is made.
#[derive(Clone, Copy, Debug, PartialEq, Eq, Structural)]
pub struct TagJobSteps {
    /// Build release notes (for a tag just created, or for a release).
    pub build_release_notes: bool,
    /// Push the tag to the remote.
    pub push: bool,
    /// Create a release on the forge.
    pub release: bool,
}

pub open spec fn tag_job_steps_spec(action: TagAction, created: bool) -> TagJobSteps {
    TagJobSteps {
        build_release_notes: created || action == TagAction::CreatePushAndRelease,
        push: action == TagAction::CreateAndPush || action == TagAction::CreatePushAndRelease,
        release: action == TagAction::CreatePushAndRelease,
    }
}

/// The steps of the tag job for `action`, once the tag was `created` (or
/// found already there).
pub fn tag_job_steps(action: TagAction, created: bool) -> (s: TagJobSteps)
    ensures
        s == tag_job_steps_spec(action, created),
{
    TagJobSteps {
        build_release_notes: created || action == TagAction::CreatePushAndRelease,
        push: action == TagAction::CreateAndPush || action == TagAction::CreatePushAndRelease,
        release: action == TagAction::CreatePushAndRelease,
    }
}

/// A release always pushes the tag first, and always has release notes.
pub proof fn law_release_implies_push_and_notes(action: TagAction, created: bool)
    ensures
        tag_job_steps_spec(action, created).release ==> tag_job_steps_spec(action, created).push
            && tag_job_steps_spec(action, created).build_release_notes,
{
}

/// ` for <scope>` when the tag belongs to a named scope.
pub open spec fn scope_notice(scope: Option<Seq<char>>) -> Seq<char> {
    match scope {
        Some(name) => " for "@ + name,
        None => Seq::empty(),
    }
}

/// The sentence that sums up the tag job.
pub open spec fn tag_sentence(action: TagAction, created: bool, tag: Seq<char>, project: Seq<char>, scope: Option<Seq<char>>) -> Seq<char> {
    let notice = scope_notice(scope);
    match action {
        TagAction::CreateLocal => if created {
            "Created local tag '"@ + tag + "' in "@ + project + notice + "."@
        } else {
            "Tag '"@ + tag + "' already existed locally in "@ + project + notice + "."@
        },
        TagAction::CreateAndPush => "Tag '"@ + tag + "' is present locally and has been pushed for "@ + project + notice + "."@,
        TagAction::CreatePushAndRelease => "Tag '"@ + tag + "' was created, pushed, and released for "@ + project + notice + "."@,
    }
}

/// The summary: the sentence, a word on the annotation when there was one,
/// then the changelog notes.
pub open spec fn tag_summary_spec(action: TagAction, created: bool, tag: Seq<char>, project: Seq<char>,
    scope: Option<Seq<char>>, annotated: bool, notes: Seq<Seq<char>>) -> Seq<char>
{
    let sentence = tag_sentence(action, created, tag, project, scope);
    let head = if annotated { sentence + " Annotation included."@ } else { sentence };
    if notes.len() == 0 { head } else { head + " "@ + join_spaced(notes) }
}

fn cat(parts: &Vec<&str>) -> (r: String)
    ensures
        r@ == concat_all(parts@),
{
    let mut r = String::new();
    let mut i: usize = 0;
    while i < parts.len()
        invariant
            i <= parts@.len(),
            r@ == concat_all(parts@.take(i as int)),
        decreases parts.len() - i,
    {
        r.append(parts[i]);
        i = i + 1;
        proof {
            assert(parts@.take(i as int).drop_last() =~= parts@.take(i - 1));
        }
    }
    proof {
        assert(parts@.take(parts@.len() as int) =~= parts@);
    }
    r
}

pub open spec fn concat_all(parts: Seq<&str>) -> Seq<char>
    decreases parts.len(),
{
    if parts.len() == 0 { Seq::empty() } else { concat_all(parts.drop_last()) + parts.last()@ }
}

/// The summary of a finished tag job: what happened to tag `tag_name` of
/// `project_name` (in scope `scope_name`, when the tag belongs to a named
/// scope), whether an annotation went with it, and the changelog notes.
pub fn tag_job_summary(
    action: TagAction,
    created: bool,
    tag_name: &str,
    project_name: &str,
    scope_name: Option<&str>,
    annotated: bool,
    notes: &[String],
) -> (r: String)
    ensures
        r@ == tag_summary_spec(action, created, tag_name@, project_name@,
            match scope_name { Some(s) => Some(s@), None => None }, annotated, string_views(notes@)),
{
    let notice = match scope_name {
        Some(s) => concat_str(" for ", s),
        None => String::new(),
    };
    let n = notice.as_str();
    let sentence = match action {
        TagAction::CreateLocal => if created {
            cat(&vec!["Created local tag '", tag_name, "' in ", project_name, n, "."])
        } else {
            cat(&vec!["Tag '", tag_name, "' already existed locally in ", project_name, n, "."])
        },
        TagAction::CreateAndPush => cat(&vec!["Tag '", tag_name, "' is present locally and has been pushed for ", project_name, n, "."]),
        TagAction::CreatePushAndRelease => cat(&vec!["Tag '", tag_name, "' was created, pushed, and released for ", project_name, n, "."]),
    };
    proof {
        reveal_with_fuel(concat_all, 7);
    }
    let head = if annotated { concat_str(sentence.as_str(), " Annotation included.") } else { sentence };
    append_background_tag_summary_notes(head, notes)
}

/// Where a tag job stands: the step it waits on.
#[derive(Clone, Copy, Debug, PartialEq, Eq, Structural)]
pub enum TagJobPhase {
    NotStarted,
    ReadingBranch,
    EnsuringTag,
    BuildingNotes,
    RunningChangelog,
    Pushing,
    Releasing,
    Finished,
    Failed,
}

/// A tag job: what it was asked to do and where it stands.
#[derive(Clone, Copy, Debug, PartialEq, Eq, Structural)]
pub struct TagJob {
    pub action: TagAction,
    /// The project keeps a standard changelog.
    pub changelog_enabled: bool,
    /// A remote is configured for the project.
    pub has_remote: bool,
    /// The tag was created by this job (not found already there).
    pub created: bool,
    pub phase: TagJobPhase,
}

/// What the host reports back.
#[derive(Clone, Copy, Debug, PartialEq, Eq, Structural)]
pub enum TagJobEvent {
    /// The job is to start.
    Start,
    /// The step the job waited on succeeded.
    StepDone,
    /// The tag is there: `true` when this job created it.
    TagEnsured(bool),
    /// The step the job waited on failed.
    StepFailed,
}

/// Why a tag job stopped.
#[derive(Clone, Copy, Debug, PartialEq, Eq, Structural)]
pub enum TagJobFailure {
    /// "no remote is configured for this project"
    NoRemote,
    /// A step failed; its error is the host's.
    Step,
}

/// The error a failure shows, where the job has one of its own (a failed
/// step shows that step's error).
pub fn tag_job_failure_message(f: TagJobFailure) -> (m: Option<&'static str>)
    ensures
        f == TagJobFailure::NoRemote ==> (m matches Some(s) && s@ == "no remote is configured for this project"@),
        f == TagJobFailure::Step ==> m is None,
{
    match f {
        TagJobFailure::NoRemote => Some("no remote is configured for this project"),
        TagJobFailure::Step => None,
    }
}

/// What the host does next.
#[derive(Clone, Copy, Debug, PartialEq, Eq, Structural)]
pub enum TagJobCommand {
    ReadCurrentBranch,
    /// Create the tag, with the annotation if there is one, unless it exists.
    EnsureLocalTag,
    BuildReleaseNotes,
    RunStandardChangelog,
    PushTag,
    CreateRelease,
    /// The job is done: write its summary (`tag_job_summary`).
    Summarize,
    Fail(TagJobFailure),
    /// The event does not fit where the job stands: nothing to do.
    Nothing,
}

pub open spec fn pushes(action: TagAction) -> bool {
    action == TagAction::CreateAndPush || action == TagAction::CreatePushAndRelease
}

/// After the release step's turn: the release, or the summary.
pub open spec fn after_push(j: TagJob) -> (TagJob, TagJobCommand) {
    if j.action == TagAction::CreatePushAndRelease {
        (TagJob { phase: TagJobPhase::Releasing, ..j }, TagJobCommand::CreateRelease)
    } else {
        (TagJob { phase: TagJobPhase::Finished, ..j }, TagJobCommand::Summarize)
    }
}

/// After the changelog's turn: the push (which needs a remote), or what
/// follows it.
pub open spec fn after_changelog(j: TagJob) -> (TagJob, TagJobCommand) {
    if pushes(j.action) {
        if j.has_remote {
            (TagJob { phase: TagJobPhase::Pushing, ..j }, TagJobCommand::PushTag)
        } else {
            (TagJob { phase: TagJobPhase::Failed, ..j }, TagJobCommand::Fail(TagJobFailure::NoRemote))
        }
    } else {
        after_push(j)
    }
}

/// After the release notes' turn: the standard changelog when the project
/// keeps one, or what follows it.
pub open spec fn after_notes(j: TagJob) -> (TagJob, TagJobCommand) {
    if j.changelog_enabled {
        (TagJob { phase: TagJobPhase::RunningChangelog, ..j }, TagJobCommand::RunStandardChangelog)
    } else {
        after_changelog(j)
    }
}

/// Once the tag is there: release notes for a new tag or a release, or what
/// follows them.
pub open spec fn after_tag(j: TagJob) -> (TagJob, TagJobCommand) {
    if tag_job_steps_spec(j.action, j.created).build_release_notes {
        (TagJob { phase: TagJobPhase::BuildingNotes, ..j }, TagJobCommand::BuildReleaseNotes)
    } else {
        after_notes(j)
    }
}

/// The job's next state and command after an event: the current branch is
/// read, the tag ensured, release notes built, the standard changelog run,
/// the tag pushed and the release created, in that order, each only where
/// it applies; a failed step ends the job.
pub open spec fn tag_job_next_spec(j: TagJob, e: TagJobEvent) -> (TagJob, TagJobCommand) {
    let ignore = (j, TagJobCommand::Nothing);
    if j.phase == TagJobPhase::Finished || j.phase == TagJobPhase::Failed {
        ignore
    } else {
        match e {
            TagJobEvent::StepFailed => if j.phase == TagJobPhase::NotStarted {
                ignore
            } else {
                (TagJob { phase: TagJobPhase::Failed, ..j }, TagJobCommand::Fail(TagJobFailure::Step))
            },
            TagJobEvent::Start => if j.phase == TagJobPhase::NotStarted {
                (TagJob { phase: TagJobPhase::ReadingBranch, ..j }, TagJobCommand::ReadCurrentBranch)
            } else {
                ignore
            },
            TagJobEvent::TagEnsured(created) => if j.phase == TagJobPhase::EnsuringTag {
                after_tag(TagJob { created, ..j })
            } else {
                ignore
            },
            TagJobEvent::StepDone => match j.phase {
                TagJobPhase::ReadingBranch => (TagJob { phase: TagJobPhase::EnsuringTag, ..j }, TagJobCommand::EnsureLocalTag),
                TagJobPhase::BuildingNotes => after_notes(j),
                TagJobPhase::RunningChangelog => after_changelog(j),
                TagJobPhase::Pushing => after_push(j),
                TagJobPhase::Releasing => (TagJob { phase: TagJobPhase::Finished, ..j }, TagJobCommand::Summarize),
                _ => ignore,
            },
        }
    }
}

fn after_push_of(j: TagJob) -> (r: (TagJob, TagJobCommand))
    ensures
        r == after_push(j),
{
    if j.action == TagAction::CreatePushAndRelease {
        (TagJob { phase: TagJobPhase::Releasing, ..j }, TagJobCommand::CreateRelease)
    } else {
        (TagJob { phase: TagJobPhase::Finished, ..j }, TagJobCommand::Summarize)
    }
}

fn after_changelog_of(j: TagJob) -> (r: (TagJob, TagJobCommand))
    ensures
        r == after_changelog(j),
{
    if j.action == TagAction::CreateAndPush || j.action == TagAction::CreatePushAndRelease {
        if j.has_remote {
            (TagJob { phase: TagJobPhase::Pushing, ..j }, TagJobCommand::PushTag)
        } else {
            (TagJob { phase: TagJobPhase::Failed, ..j }, TagJobCommand::Fail(TagJobFailure::NoRemote))
        }
    } else {
        after_push_of(j)
    }
}

fn after_notes_of(j: TagJob) -> (r: (TagJob, TagJobCommand))
    ensures
        r == after_notes(j),
{
    if j.changelog_enabled {
        (TagJob { phase: TagJobPhase::RunningChangelog, ..j }, TagJobCommand::RunStandardChangelog)
    } else {
        after_changelog_of(j)
    }
}

fn after_tag_of(j: TagJob) -> (r: (TagJob, TagJobCommand))
    ensures
        r == after_tag(j),
{
    if tag_job_steps(j.action, j.created).build_release_notes {
        (TagJob { phase: TagJobPhase::BuildingNotes, ..j }, TagJobCommand::BuildReleaseNotes)
    } else {
        after_notes_of(j)
    }
}

/// A tag job that has not started yet.
pub fn new_tag_job(action: TagAction, changelog_enabled: bool, has_remote: bool) -> (j: TagJob)
    ensures
        j == (TagJob { action, changelog_enabled, has_remote, created: false, phase: TagJobPhase::NotStarted }),
{
    TagJob { action, changelog_enabled, has_remote, created: false, phase: TagJobPhase::NotStarted }
}

/// Advances the tag job on an event and says what the host does next.
pub fn tag_job_next(j: TagJob, e: TagJobEvent) -> (r: (TagJob, TagJobCommand))
    ensures
        r == tag_job_next_spec(j, e),
{
    if j.phase == TagJobPhase::Finished || j.phase == TagJobPhase::Failed {
        return (j, TagJobCommand::Nothing);
    }
    match e {
        TagJobEvent::StepFailed => if j.phase == TagJobPhase::NotStarted {
            (j, TagJobCommand::Nothing)
        } else {
            (TagJob { phase: TagJobPhase::Failed, ..j }, TagJobCommand::Fail(TagJobFailure::Step))
        },
        TagJobEvent::Start => if j.phase == TagJobPhase::NotStarted {
            (TagJob { phase: TagJobPhase::ReadingBranch, ..j }, TagJobCommand::ReadCurrentBranch)
        } else {
            (j, TagJobCommand::Nothing)
        },
        TagJobEvent::TagEnsured(created) => if j.phase == TagJobPhase::EnsuringTag {
            after_tag_of(TagJob { created, ..j })
        } else {
            (j, TagJobCommand::Nothing)
        },
        TagJobEvent::StepDone => match j.phase {
            TagJobPhase::ReadingBranch => (TagJob { phase: TagJobPhase::EnsuringTag, ..j }, TagJobCommand::EnsureLocalTag),
            TagJobPhase::BuildingNotes => after_notes_of(j),
            TagJobPhase::RunningChangelog => after_changelog_of(j),
            TagJobPhase::Pushing => after_push_of(j),
            TagJobPhase::Releasing => (TagJob { phase: TagJobPhase::Finished, ..j }, TagJobCommand::Summarize),
            _ => (j, TagJobCommand::Nothing),
        },
    }
}

/// The tag is pushed only with a remote, and the job fails for want of one
/// exactly where it would push without one; a release comes right after
/// the push; the standard changelog runs before the push; what the job was
/// asked to do never changes.
pub proof fn law_tag_job_order(j: TagJob, e: TagJobEvent)
    ensures
        ({
            let (next, command) = tag_job_next_spec(j, e);
            &&& command == TagJobCommand::PushTag ==> j.has_remote && pushes(j.action)
            &&& command == TagJobCommand::Fail(TagJobFailure::NoRemote) ==> !j.has_remote && pushes(j.action)
            &&& command == TagJobCommand::CreateRelease ==> j.phase == TagJobPhase::Pushing
            &&& command == TagJobCommand::RunStandardChangelog ==> j.changelog_enabled
                && (j.phase == TagJobPhase::BuildingNotes || j.phase == TagJobPhase::EnsuringTag)
            &&& command == TagJobCommand::PushTag && j.changelog_enabled ==> j.phase == TagJobPhase::RunningChangelog
            &&& next.action == j.action && next.changelog_enabled == j.changelog_enabled && next.has_remote == j.has_remote
        }),
{
}

/// A job that pushes (with or without a release) and has a remote pushes
/// its tag before anything is summed up: once its release notes and its
/// changelog are done the next command is the push, and such a job is
/// summed up only right after its push, or after its release when it
/// releases. Without a remote the same point fails the job instead.
pub proof fn law_pushing_jobs_push_before_summing_up(j: TagJob, e: TagJobEvent)
    requires
        j.action == TagAction::CreateAndPush || j.action == TagAction::CreatePushAndRelease,
    ensures
        j.has_remote && j.phase == TagJobPhase::RunningChangelog ==> tag_job_next_spec(j, TagJobEvent::StepDone)
            == (TagJob { phase: TagJobPhase::Pushing, ..j }, TagJobCommand::PushTag),
        j.has_remote && j.phase == TagJobPhase::BuildingNotes && !j.changelog_enabled
            ==> tag_job_next_spec(j, TagJobEvent::StepDone) == (TagJob { phase: TagJobPhase::Pushing, ..j }, TagJobCommand::PushTag),
        j.has_remote && j.phase == TagJobPhase::EnsuringTag && !j.changelog_enabled && j.action == TagAction::CreateAndPush
            ==> tag_job_next_spec(j, TagJobEvent::TagEnsured(false))
                == (TagJob { phase: TagJobPhase::Pushing, created: false, ..j }, TagJobCommand::PushTag),
        !j.has_remote && j.phase == TagJobPhase::RunningChangelog ==> tag_job_next_spec(j, TagJobEvent::StepDone)
            == (TagJob { phase: TagJobPhase::Failed, ..j }, TagJobCommand::Fail(TagJobFailure::NoRemote)),
        tag_job_next_spec(j, e).1 == TagJobCommand::Summarize ==> j.phase == TagJobPhase::Pushing || j.phase == TagJobPhase::Releasing,
        j.action == TagAction::CreatePushAndRelease && tag_job_next_spec(j, e).1 == TagJobCommand::Summarize
            ==> j.phase == TagJobPhase::Releasing,
        j.phase == TagJobPhase::Pushing ==> tag_job_next_spec(j, TagJobEvent::StepDone).1 == (if j.action == TagAction::CreatePushAndRelease {
            TagJobCommand::CreateRelease
        } else {
            TagJobCommand::Summarize
        }),
{
}

/// A local tag is never pushed or released; release notes are built after
/// the tag exactly when the job created it or is to release it; and the
/// standard changelog runs after the notes exactly when the project keeps one.
pub proof fn law_tag_job_steps_follow_the_request(j: TagJob, e: TagJobEvent, created: bool)
    ensures
        j.action == TagAction::CreateLocal ==> tag_job_next_spec(j, e).1 != TagJobCommand::PushTag
            && tag_job_next_spec(j, e).1 != TagJobCommand::CreateRelease,
        j.phase == TagJobPhase::EnsuringTag ==> ((tag_job_next_spec(j, TagJobEvent::TagEnsured(created)).1 == TagJobCommand::BuildReleaseNotes)
            <==> (created || j.action == TagAction::CreatePushAndRelease)),
        j.phase == TagJobPhase::BuildingNotes ==> ((tag_job_next_spec(j, TagJobEvent::StepDone).1 == TagJobCommand::RunStandardChangelog)
            <==> j.changelog_enabled),
        j.phase == TagJobPhase::NotStarted ==> tag_job_next_spec(j, TagJobEvent::Start)
            == (TagJob { phase: TagJobPhase::ReadingBranch, ..j }, TagJobCommand::ReadCurrentBranch),
        j.phase == TagJobPhase::ReadingBranch ==> tag_job_next_spec(j, TagJobEvent::StepDone)
            == (TagJob { phase: TagJobPhase::EnsuringTag, ..j }, TagJobCommand::EnsureLocalTag),
        j.phase != TagJobPhase::NotStarted && j.phase != TagJobPhase::Finished && j.phase != TagJobPhase::Failed
            ==> tag_job_next_spec(j, TagJobEvent::StepFailed) == (TagJob { phase: TagJobPhase::Failed, ..j }, TagJobCommand::Fail(TagJobFailure::Step)),
{
}

/// The tag is pushed exactly for the actions that push, a release is made
/// only for the action that releases, and release notes are built exactly
/// when the tag is new or a release needs them.
pub proof fn law_tag_job_steps_match_the_action(action: TagAction, created: bool)
    ensures
        tag_job_steps_spec(action, created).push <==> (action == TagAction::CreateAndPush || action == TagAction::CreatePushAndRelease),
        tag_job_steps_spec(action, created).release <==> action == TagAction::CreatePushAndRelease,
        tag_job_steps_spec(action, created).build_release_notes <==> (created || action == TagAction::CreatePushAndRelease),
{
}

} // verus!
