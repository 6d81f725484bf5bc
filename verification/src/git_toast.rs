//! The toasts that report git commands while they run: the label a started
//! command shows, the message and look of each outcome, and when the
//! overlay shown around a blocking command is done.

use vstd::prelude::*;
use crate::std_changelog::string_views;
use crate::text::{append_str, decimal_nat, join_with, push_decimal_u64, trim, trimmed_string};

verus! {

/// What happened to a git command.
#[derive(Clone, Copy, Debug, PartialEq, Eq, Structural)]
pub enum GitToastEvent {
    Started { timeout_secs: u64 },
    Finished { success: bool },
    TimedOut { timeout_secs: u64 },
    Cancelled,
}

#[derive(Clone, Copy, Debug, PartialEq, Eq, Structural)]
pub enum ToastTone {
    Info,
    Success,
    Warning,
    Error,
}

/// How long a toast stays.
#[derive(Clone, Copy, Debug, PartialEq, Eq, Structural)]
pub enum ToastLife {
    /// This many seconds.
    Seconds(u64),
    /// Until the user dismisses it.
    KeptOn,
}

/// How a toast looks and how long it stays.
#[derive(Clone, Copy, Debug, PartialEq, Eq, Structural)]
pub struct ToastStyle {
    pub tone: ToastTone,
    pub life: ToastLife,
    pub progress_bar: bool,
}

/// A started command shows an informational toast with a progress bar for
/// as long as its timeout; success is shown for two seconds, a failure or a
/// timeout as an error that stays until dismissed, a cancellation as a
/// warning for two seconds.
pub open spec fn git_toast_style_spec(e: GitToastEvent) -> ToastStyle {
    match e {
        GitToastEvent::Started { timeout_secs } =>
            ToastStyle { tone: ToastTone::Info, life: ToastLife::Seconds(timeout_secs), progress_bar: true },
        GitToastEvent::Finished { success } => if success {
            ToastStyle { tone: ToastTone::Success, life: ToastLife::Seconds(2), progress_bar: false }
        } else {
            ToastStyle { tone: ToastTone::Error, life: ToastLife::KeptOn, progress_bar: false }
        },
        GitToastEvent::TimedOut { .. } =>
            ToastStyle { tone: ToastTone::Error, life: ToastLife::KeptOn, progress_bar: false },
        GitToastEvent::Cancelled =>
            ToastStyle { tone: ToastTone::Warning, life: ToastLife::Seconds(2), progress_bar: false },
    }
}

/// The style of the toast for a git command's event.
pub fn git_toast_style(e: GitToastEvent) -> (s: ToastStyle)
    ensures
        s == git_toast_style_spec(e),
{
    match e {
        GitToastEvent::Started { timeout_secs } =>
            ToastStyle { tone: ToastTone::Info, life: ToastLife::Seconds(timeout_secs), progress_bar: true },
        GitToastEvent::Finished { success } => if success {
            ToastStyle { tone: ToastTone::Success, life: ToastLife::Seconds(2), progress_bar: false }
        } else {
            ToastStyle { tone: ToastTone::Error, life: ToastLife::KeptOn, progress_bar: false }
        },
        GitToastEvent::TimedOut { .. } =>
            ToastStyle { tone: ToastTone::Error, life: ToastLife::KeptOn, progress_bar: false },
        GitToastEvent::Cancelled =>
            ToastStyle { tone: ToastTone::Warning, life: ToastLife::Seconds(2), progress_bar: false },
    }
}

/// The label of a started command: `git` and its arguments, separated by spaces.
pub fn git_started_label(args: &Vec<String>) -> (label: String)
    ensures
        label@ == "git "@ + join_with(string_views(args@), " "@),
{
    let mut label = String::from_str("git ");
    let ghost start = label@;
    let mut i: usize = 0;
    while i < args.len()
        invariant
            i <= args@.len(),
            label@ == start + join_with(string_views(args@).take(i as int), " "@),
        decreases args.len() - i,
    {
        let ghost before = label@;
        if i > 0 {
            append_str(&mut label, " ");
        }
        append_str(&mut label, args[i].as_str());
        proof {
            let vs = string_views(args@);
            assert(vs.take(i + 1).drop_last() =~= vs.take(i as int));
            assert(vs[i as int] == args@[i as int]@);
            if i == 0 {
                assert(vs.take(1) =~= seq![vs[0]]);
                assert(label@ =~= start + vs[0]);
            } else {
                assert(label@ =~= start + (join_with(vs.take(i as int), " "@) + " "@ + vs[i as int]));
            }
        }
        i = i + 1;
    }
    proof {
        assert(string_views(args@).take(args@.len() as int) =~= string_views(args@));
    }
    label
}

/// The message of a finished command: success, or the failure with the
/// trimmed error output on a line of its own when there is any.
pub open spec fn git_finished_message_spec(success: bool, stderr: Seq<char>) -> Seq<char> {
    if success {
        "git: SUCCESS"@
    } else if trim(stderr).len() == 0 {
        "git: FAILED"@
    } else {
        "git: FAILED\n"@ + trim(stderr)
    }
}

pub fn git_finished_message(success: bool, stderr: &str) -> (m: String)
    ensures
        m@ == git_finished_message_spec(success, stderr@),
{
    if success {
        return String::from_str("git: SUCCESS");
    }
    let trimmed = trimmed_string(stderr);
    if trimmed.as_str().unicode_len() == 0 {
        return String::from_str("git: FAILED");
    }
    let mut m = String::from_str("git: FAILED\n");
    append_str(&mut m, trimmed.as_str());
    m
}

/// The message of a command that ran out of time: `git: TIMED OUT (` and
/// the timeout in seconds, then `s)`.
pub fn git_timed_out_message(timeout_secs: u64) -> (m: String)
    ensures
        m@ == "git: TIMED OUT ("@ + decimal_nat(timeout_secs as nat) + "s)"@,
{
    let mut m = String::from_str("git: TIMED OUT (");
    push_decimal_u64(&mut m, timeout_secs);
    append_str(&mut m, "s)");
    m
}

/// The message of a cancelled command.
pub fn git_cancelled_message() -> (m: &'static str)
    ensures
        m@ == "git: CANCELLED"@,
{
    "git: CANCELLED"
}

/// How long the overlay stays after the command is done while a toast is
/// still shown, in milliseconds.
pub const OVERLAY_LINGER_MILLIS: u128 = 3000;

/// Whether the overlay around a blocking command is done: once the command
/// is done, as soon as no toast is left or it has lingered long enough.
pub fn overlay_done(command_done: bool, millis_since_done: u128, has_toast: bool) -> (r: bool)
    ensures
        r == (command_done && (!has_toast || millis_since_done >= OVERLAY_LINGER_MILLIS)),
{
    command_done && (!has_toast || millis_since_done >= OVERLAY_LINGER_MILLIS)
}

/// Every outcome of a command that did not succeed is shown in a tone other
/// than success, and the failures that need attention stay until dismissed.
pub proof fn law_failures_stay_until_dismissed(e: GitToastEvent)
    ensures
        (e == (GitToastEvent::Finished { success: false }) || (e is TimedOut))
            ==> git_toast_style_spec(e).life == ToastLife::KeptOn && git_toast_style_spec(e).tone == ToastTone::Error,
        git_toast_style_spec(e).tone == ToastTone::Success <==> e == (GitToastEvent::Finished { success: true }),
{
}

/// A success reads "git: SUCCESS" whatever git printed; a failure reads
/// "git: FAILED", followed on its own line by what git printed (trimmed)
/// exactly when that is not blank.
pub proof fn law_failures_carry_the_error_output(stderr: Seq<char>)
    ensures
        git_finished_message_spec(true, stderr) == "git: SUCCESS"@,
        trim(stderr).len() == 0 ==> git_finished_message_spec(false, stderr) == "git: FAILED"@,
        trim(stderr).len() > 0 ==> git_finished_message_spec(false, stderr) == "git: FAILED"@ + "\n"@ + trim(stderr),
{
    if trim(stderr).len() > 0 {
        reveal_strlit("git: FAILED\n");
        reveal_strlit("git: FAILED");
        reveal_strlit("\n");
        assert("git: FAILED\n"@ =~= "git: FAILED"@ + "\n"@);
    }
}

} // verus!
