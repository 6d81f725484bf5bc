//! The steps of producing a tag's standard changelog around the git work:
//! which decision a policy forces, what is done for a decision, what the
//! summary says, and what happens to each postponed changelog on replay.

use vstd::prelude::*;
use crate::std_changelog::{
    StdChangelogDecision, StdChangelogExecutionPolicy, decide_std_changelog_generation, decision_fits, opt_view, string_views,
    any_mainline, has_mainline, is_mainline_branch, is_mainline_spec,
};
use crate::text::{append_str, concat_str, decimal_nat, push_decimal_u64};

verus! {

/// The decision a policy forces (none for `Auto`, which looks at the branches).
pub fn forced_std_changelog_decision(policy: StdChangelogExecutionPolicy, branch_name: &str) -> (d: Option<StdChangelogDecision>)
    ensures
        match policy {
            StdChangelogExecutionPolicy::Auto => d is None,
            StdChangelogExecutionPolicy::ForceGenerate => d == Some(StdChangelogDecision::Generate),
            StdChangelogExecutionPolicy::ForcePostpone => d matches Some(StdChangelogDecision::PostponeOnSubBranch(b)) && b@ == branch_name@,
        },
{
    match policy {
        StdChangelogExecutionPolicy::Auto => None,
        StdChangelogExecutionPolicy::ForceGenerate => Some(StdChangelogDecision::Generate),
        StdChangelogExecutionPolicy::ForcePostpone => Some(StdChangelogDecision::PostponeOnSubBranch(String::from_str(branch_name))),
    }
}

/// With no previous tag there is nothing to compare with: the changelog is skipped.
pub fn auto_std_changelog_decision(
    previous_tag: Option<&str>,
    branch_name: &str,
    previous_branches: &[String],
    new_branches: &[String],
    custom_main_branch: Option<&str>,
) -> (d: StdChangelogDecision)
    ensures
        previous_tag is None ==> d == StdChangelogDecision::SkipNoPreviousTag,
        previous_tag is Some ==> decision_fits(d, branch_name@, string_views(previous_branches@),
            string_views(new_branches@), opt_view(custom_main_branch)),
{
    match previous_tag {
        Some(previous) => decide_std_changelog_generation(previous, branch_name, previous_branches, new_branches, custom_main_branch),
        None => StdChangelogDecision::SkipNoPreviousTag,
    }
}

/// How a changelog that is to be generated comes about.
#[derive(Clone, Copy, Debug, PartialEq, Eq, Structural)]
pub enum GenerateStep {
    /// An archived changelog exists (and no Top Picks edits wait): it is reused.
    ReuseArchive,
    /// Built from the commits between the previous tag and this one.
    BuildFromRange,
    /// No previous tag: nothing is generated.
    NoPreviousTag,
}

pub open spec fn generate_step_spec(top_picks_edits: bool, archived: bool, has_previous_tag: bool) -> GenerateStep {
    if !top_picks_edits && archived {
        GenerateStep::ReuseArchive
    } else if has_previous_tag {
        GenerateStep::BuildFromRange
    } else {
        GenerateStep::NoPreviousTag
    }
}

/// How to produce a changelog that is to be generated.
pub fn generate_step(top_picks_edits: bool, archived: bool, has_previous_tag: bool) -> (s: GenerateStep)
    ensures
        s == generate_step_spec(top_picks_edits, archived, has_previous_tag),
{
    if !top_picks_edits && archived {
        GenerateStep::ReuseArchive
    } else if has_previous_tag {
        GenerateStep::BuildFromRange
    } else {
        GenerateStep::NoPreviousTag
    }
}

pub open spec fn no_previous_note() -> Seq<char> {
    "Standard changelog was not generated because no previous tag was found."@
}

pub open spec fn empty_range_note() -> Seq<char> {
    "Standard changelog was not generated because the computed tag range was empty."@
}

pub open spec fn not_on_main_note() -> Seq<char> {
    "Standard changelog was not generated because this tag is not yet on mainline lineage."@
}

pub open spec fn postponed_note(tag: Seq<char>, branch: Seq<char>) -> Seq<char> {
    "Standard changelog was postponed because '"@ + tag + "' already has tags on sub-branch '"@ + branch + "'."@
}

/// The summary note for how the changelog of `tag_name` went: `None` when it
/// was generated (or reused); `step` is how a generated one came about and
/// `empty_range` whether the range it was built from was empty.
pub fn std_changelog_note(decision: &StdChangelogDecision, tag_name: &str, step: GenerateStep, empty_range: bool) -> (n: Option<String>)
    ensures
        match *decision {
            StdChangelogDecision::Generate => match step {
                GenerateStep::ReuseArchive => n is None,
                GenerateStep::BuildFromRange => if empty_range {
                    n matches Some(t) && t@ == empty_range_note()
                } else {
                    n is None
                },
                GenerateStep::NoPreviousTag => n matches Some(t) && t@ == no_previous_note(),
            },
            StdChangelogDecision::IgnoreNotOnMain => n matches Some(t) && t@ == not_on_main_note(),
            StdChangelogDecision::PostponeOnSubBranch(b) => n matches Some(t) && t@ == postponed_note(tag_name@, b@),
            StdChangelogDecision::SkipNoPreviousTag => n matches Some(t) && t@ == no_previous_note(),
        },
{
    match decision {
        StdChangelogDecision::Generate => match step {
            GenerateStep::ReuseArchive => None,
            GenerateStep::BuildFromRange => if empty_range {
                Some(String::from_str("Standard changelog was not generated because the computed tag range was empty."))
            } else {
                None
            },
            GenerateStep::NoPreviousTag => Some(String::from_str("Standard changelog was not generated because no previous tag was found.")),
        },
        StdChangelogDecision::IgnoreNotOnMain => Some(String::from_str("Standard changelog was not generated because this tag is not yet on mainline lineage.")),
        StdChangelogDecision::PostponeOnSubBranch(branch) => {
            let mut t = concat_str("Standard changelog was postponed because '", tag_name);
            append_str(&mut t, "' already has tags on sub-branch '");
            append_str(&mut t, branch.as_str());
            append_str(&mut t, "'.");
            Some(t)
        },
        StdChangelogDecision::SkipNoPreviousTag => Some(String::from_str("Standard changelog was not generated because no previous tag was found.")),
    }
}

pub open spec fn replayed_note(count: nat) -> Seq<char> {
    "Replayed "@ + decimal_nat(count) + " postponed changelog(s)."@
}

pub open spec fn replay_errors_note(count: nat) -> Seq<char> {
    decimal_nat(count) + " postponed changelog replay error(s) occurred. See sticky toasts."@
}

/// The summary notes on a replay of postponed changelogs with `notices`
/// replayed and `errors` failed: one note for each kind there was.
pub fn replay_summary_notes(notices: u64, errors: u64) -> (r: Vec<String>)
    ensures
        r@.len() == (if notices > 0 { 1int } else { 0int }) + (if errors > 0 { 1int } else { 0int }),
        notices > 0 ==> r@[0]@ == replayed_note(notices as nat),
        errors > 0 ==> r@[r@.len() - 1]@ == replay_errors_note(errors as nat),
{
    let mut r: Vec<String> = Vec::new();
    if notices > 0 {
        let mut t = String::from_str("Replayed ");
        push_decimal_u64(&mut t, notices);
        append_str(&mut t, " postponed changelog(s).");
        r.push(t);
    }
    if errors > 0 {
        let mut t = String::new();
        push_decimal_u64(&mut t, errors);
        append_str(&mut t, " postponed changelog replay error(s) occurred. See sticky toasts.");
        r.push(t);
    }
    r
}

/// What a replay does with one postponed changelog.
#[derive(Clone, Copy, Debug, PartialEq, Eq, Structural)]
pub enum ReplayStep {
    /// Its tag is not on mainline yet: it stays postponed.
    StillPostponed,
    /// It was archived meanwhile: it is marked generated.
    MarkArchived,
    /// No previous tag: it fails.
    FailNoPreviousTag,
    /// The range is empty: it fails.
    FailEmptyRange,
    /// It is generated from the range.
    Generate,
}

pub open spec fn replay_step_spec(tag_on_mainline: bool, archived: bool, has_previous_tag: bool, range_empty: bool) -> ReplayStep {
    if !tag_on_mainline {
        ReplayStep::StillPostponed
    } else if archived {
        ReplayStep::MarkArchived
    } else if !has_previous_tag {
        ReplayStep::FailNoPreviousTag
    } else if range_empty {
        ReplayStep::FailEmptyRange
    } else {
        ReplayStep::Generate
    }
}

/// What to do with a postponed changelog, from what the repository shows.
pub fn replay_step(tag_on_mainline: bool, archived: bool, has_previous_tag: bool, range_empty: bool) -> (s: ReplayStep)
    ensures
        s == replay_step_spec(tag_on_mainline, archived, has_previous_tag, range_empty),
{
    if !tag_on_mainline {
        ReplayStep::StillPostponed
    } else if archived {
        ReplayStep::MarkArchived
    } else if !has_previous_tag {
        ReplayStep::FailNoPreviousTag
    } else if range_empty {
        ReplayStep::FailEmptyRange
    } else {
        ReplayStep::Generate
    }
}

pub open spec fn archived_notice(tag: Seq<char>) -> Seq<char> {
    "Replayed postponed changelog '"@ + tag + "' was already archived and has been marked generated."@
}

pub open spec fn replay_failure(tag: Seq<char>, reason: Seq<char>) -> Seq<char> {
    "Postponed changelog '"@ + tag + "' could not be replayed: "@ + reason + "."@
}

/// The notice for a postponed changelog found archived.
pub fn replay_archived_notice(tag: &str) -> (t: String)
    ensures
        t@ == archived_notice(tag@),
{
    let mut t = concat_str("Replayed postponed changelog '", tag);
    append_str(&mut t, "' was already archived and has been marked generated.");
    t
}

/// The error for a postponed changelog that could not be replayed, and why.
pub fn replay_failure_message(tag: &str, reason: &str) -> (t: String)
    ensures
        t@ == replay_failure(tag@, reason@),
{
    let mut t = concat_str("Postponed changelog '", tag);
    append_str(&mut t, "' could not be replayed: ");
    append_str(&mut t, reason);
    append_str(&mut t, ".");
    t
}

/// What happens to one postponed changelog when changelogs are replayed:
/// nothing at all unless the current branch is mainline; otherwise the step
/// that the tag's branches, the archive, the previous tag and the range call
/// for.
pub open spec fn postponed_replay_spec(current_on_mainline: bool, tag_branches: Seq<Seq<char>>, custom: Option<Seq<char>>,
    archived: bool, has_previous_tag: bool, range_empty: bool) -> Option<ReplayStep>
{
    if !current_on_mainline {
        None
    } else {
        Some(replay_step_spec(has_mainline(tag_branches, custom), archived, has_previous_tag, range_empty))
    }
}

/// The replay of a postponed changelog whose tag sits on `tag_branches`,
/// run from `branch_name`.
pub fn postponed_replay(branch_name: &str, custom_main_branch: Option<&str>, tag_branches: &[String],
    archived: bool, has_previous_tag: bool, range_empty: bool) -> (s: Option<ReplayStep>)
    ensures
        s == postponed_replay_spec(is_mainline_spec(branch_name@, opt_view(custom_main_branch)),
            string_views(tag_branches@), opt_view(custom_main_branch), archived, has_previous_tag, range_empty),
{
    if !is_mainline_branch(branch_name, custom_main_branch) {
        return None;
    }
    let on_mainline = any_mainline(tag_branches, custom_main_branch);
    Some(replay_step(on_mainline, archived, has_previous_tag, range_empty))
}

pub open spec fn replayed_notice(tag: Seq<char>) -> Seq<char> {
    "Replayed postponed changelog '"@ + tag + "' after it reached mainline lineage."@
}

/// The notice or error a replay step leaves for `tag` (none while it stays
/// postponed), as `Ok` for a notice and `Err` for an error.
pub open spec fn replay_report_spec(step: ReplayStep, tag: Seq<char>) -> Option<Result<Seq<char>, Seq<char>>> {
    match step {
        ReplayStep::StillPostponed => None,
        ReplayStep::MarkArchived => Some(Ok(archived_notice(tag))),
        ReplayStep::FailNoPreviousTag => Some(Err(replay_failure(tag, "no previous tag found for postponed replay"@))),
        ReplayStep::FailEmptyRange => Some(Err(replay_failure(tag, "replayed postponed changelog range was empty"@))),
        ReplayStep::Generate => Some(Ok(replayed_notice(tag))),
    }
}

pub open spec fn report_view(r: Option<Result<String, String>>) -> Option<Result<Seq<char>, Seq<char>>> {
    match r {
        Some(Ok(n)) => Some(Ok(n@)),
        Some(Err(e)) => Some(Err(e@)),
        None => None,
    }
}

/// The notice or error a replay step leaves for `tag`.
pub fn replay_report(step: ReplayStep, tag: &str) -> (r: Option<Result<String, String>>)
    ensures
        report_view(r) == replay_report_spec(step, tag@),
{
    match step {
        ReplayStep::StillPostponed => None,
        ReplayStep::MarkArchived => Some(Ok(replay_archived_notice(tag))),
        ReplayStep::FailNoPreviousTag => {
            let reason = "no previous tag found for postponed replay";
            proof { reveal_strlit("no previous tag found for postponed replay"); }
            Some(Err(replay_failure_message(tag, reason)))
        },
        ReplayStep::FailEmptyRange => {
            let reason = "replayed postponed changelog range was empty";
            proof { reveal_strlit("replayed postponed changelog range was empty"); }
            Some(Err(replay_failure_message(tag, reason)))
        },
        ReplayStep::Generate => {
            let mut t = concat_str("Replayed postponed changelog '", tag);
            append_str(&mut t, "' after it reached mainline lineage.");
            Some(Ok(t))
        },
    }
}

/// Replays never run off mainline, and a changelog is only generated or
/// marked once its tag has reached mainline.
pub proof fn law_replay_needs_mainline(current_on_mainline: bool, tag_branches: Seq<Seq<char>>, custom: Option<Seq<char>>,
    archived: bool, has_previous_tag: bool, range_empty: bool)
    ensures
        !current_on_mainline ==> postponed_replay_spec(current_on_mainline, tag_branches, custom, archived, has_previous_tag, range_empty) is None,
        (postponed_replay_spec(current_on_mainline, tag_branches, custom, archived, has_previous_tag, range_empty)
            matches Some(s) && s != ReplayStep::StillPostponed) ==> has_mainline(tag_branches, custom),
{
}

/// An archived changelog is reused exactly when one exists and no Top Picks
/// edits wait for a fresh one; otherwise the changelog is built from the
/// range since the previous tag, and only without a previous tag is nothing
/// generated.
pub proof fn law_archive_reused_only_when_present(top_picks_edits: bool, archived: bool, has_previous_tag: bool)
    ensures
        (generate_step_spec(top_picks_edits, archived, has_previous_tag) == GenerateStep::ReuseArchive)
            <==> (archived && !top_picks_edits),
        !(archived && !top_picks_edits) && has_previous_tag
            ==> generate_step_spec(top_picks_edits, archived, has_previous_tag) == GenerateStep::BuildFromRange,
        (generate_step_spec(top_picks_edits, archived, has_previous_tag) == GenerateStep::NoPreviousTag)
            <==> (!has_previous_tag && !(archived && !top_picks_edits)),
{
}

/// A postponed changelog stays postponed exactly while its tag is off
/// mainline; once on mainline an archived one is only marked, one without a
/// previous tag or with an empty range fails, and it is generated only when
/// none of these holds.
pub proof fn law_replay_steps(on_mainline: bool, archived: bool, has_previous_tag: bool, range_empty: bool)
    ensures
        (replay_step_spec(on_mainline, archived, has_previous_tag, range_empty) == ReplayStep::StillPostponed) <==> !on_mainline,
        on_mainline && archived ==> replay_step_spec(on_mainline, archived, has_previous_tag, range_empty) == ReplayStep::MarkArchived,
        (replay_step_spec(on_mainline, archived, has_previous_tag, range_empty) == ReplayStep::Generate)
            <==> (on_mainline && !archived && has_previous_tag && !range_empty),
        on_mainline && !archived && !has_previous_tag
            ==> replay_step_spec(on_mainline, archived, has_previous_tag, range_empty) == ReplayStep::FailNoPreviousTag,
        on_mainline && !archived && has_previous_tag && range_empty
            ==> replay_step_spec(on_mainline, archived, has_previous_tag, range_empty) == ReplayStep::FailEmptyRange,
{
}

} // verus!
