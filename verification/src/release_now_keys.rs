//! The Release-NOW dialog's keys. Which keys do what depends on the step the
//! dialog is at: the mirror sync, the warning, the artifacts customisation,
//! the existing-artifacts question, a running or finished release, or the
//! options before a release.

use vstd::prelude::*;

verus! {

/// A key as the Release-NOW dialog sees it.
#[derive(Clone, Copy, Debug, PartialEq, Eq, Structural)]
pub enum ReleaseNowKey {
    Char(char),
    Esc,
    Enter,
    F2,
    Left,
    Right,
    Up,
    Down,
    Tab,
    BackTab,
    PageUp,
    PageDown,
    Home,
    End,
    Other,
}

/// The step the dialog is at, with what the keys of that step look at.
/// Earlier fields win: a dialog in mirror-sync mode answers as such whatever
/// else holds.
#[derive(Clone, Copy, Debug, PartialEq, Eq, Structural)]
pub struct ReleaseNowModes {
    pub mirror_sync: bool,
    pub mirror_sync_running: bool,
    pub warning: bool,
    /// In the warning, whether "continue" is selected.
    pub warning_confirm_selected: bool,
    pub customize: bool,
    pub existing_artifacts: bool,
    /// In the existing-artifacts question, the selected answer (3 is "cancel").
    pub artifacts_choice_selected: usize,
    pub running: bool,
    pub completed: bool,
}

/// What a key asks of the dialog.
#[derive(Clone, Copy, Debug, PartialEq, Eq, Structural)]
pub enum ReleaseNowKeyAction {
    Nothing,
    Close,
    Scroll(i16),
    ScrollToStart,
    ScrollToEnd,
    /// Run the mirror sync, pushing (`true`) or only refreshing (`false`).
    MirrorSync(bool),
    ToggleWarningSelection,
    ProceedPastWarning,
    CycleCustomizePlatform(isize),
    ToggleCustomizePlatformReuse,
    ConfirmCustomize,
    BackFromCustomize,
    CycleArtifactsChoice(isize),
    ConfirmArtifactsChoice,
    ToggleAutoFollow,
    CancelRun,
    /// Tell the user the release is still running (it cannot be closed).
    WarnStillRunning,
    CycleOption(isize),
    ToggleAttachChangelog,
    OpenNotes,
    OpenTopPicks,
    Run,
}

/// The scrolling keys: a line, a page (6 lines), or to either end.
pub open spec fn scroll_spec(key: ReleaseNowKey, lines: bool) -> ReleaseNowKeyAction {
    match key {
        ReleaseNowKey::Up if lines => ReleaseNowKeyAction::Scroll(-1i16),
        ReleaseNowKey::Down if lines => ReleaseNowKeyAction::Scroll(1i16),
        ReleaseNowKey::PageUp => ReleaseNowKeyAction::Scroll(-6i16),
        ReleaseNowKey::PageDown => ReleaseNowKeyAction::Scroll(6i16),
        ReleaseNowKey::Home => ReleaseNowKeyAction::ScrollToStart,
        ReleaseNowKey::End => ReleaseNowKeyAction::ScrollToEnd,
        _ => ReleaseNowKeyAction::Nothing,
    }
}

pub open spec fn is_char_of(key: ReleaseNowKey, lower: char, upper: char) -> bool {
    key == ReleaseNowKey::Char(lower) || key == ReleaseNowKey::Char(upper)
}

pub open spec fn mirror_sync_spec(m: ReleaseNowModes, key: ReleaseNowKey) -> ReleaseNowKeyAction {
    if key == ReleaseNowKey::Enter && !m.mirror_sync_running {
        ReleaseNowKeyAction::MirrorSync(true)
    } else if is_char_of(key, 'r', 'R') && !m.mirror_sync_running {
        ReleaseNowKeyAction::MirrorSync(false)
    } else if key == ReleaseNowKey::Esc && !m.mirror_sync_running {
        ReleaseNowKeyAction::Close
    } else {
        scroll_spec(key, true)
    }
}

pub open spec fn warning_spec(m: ReleaseNowModes, key: ReleaseNowKey) -> ReleaseNowKeyAction {
    match key {
        ReleaseNowKey::Left | ReleaseNowKey::Right | ReleaseNowKey::Tab | ReleaseNowKey::BackTab => ReleaseNowKeyAction::ToggleWarningSelection,
        ReleaseNowKey::Enter => if m.warning_confirm_selected { ReleaseNowKeyAction::ProceedPastWarning } else { ReleaseNowKeyAction::Close },
        ReleaseNowKey::Esc => ReleaseNowKeyAction::Close,
        _ => if is_char_of(key, 'y', 'Y') {
            ReleaseNowKeyAction::ProceedPastWarning
        } else if is_char_of(key, 'n', 'N') {
            ReleaseNowKeyAction::Close
        } else {
            ReleaseNowKeyAction::Nothing
        },
    }
}

pub open spec fn customize_spec(key: ReleaseNowKey) -> ReleaseNowKeyAction {
    match key {
        ReleaseNowKey::Up => ReleaseNowKeyAction::CycleCustomizePlatform(-1isize),
        ReleaseNowKey::Down => ReleaseNowKeyAction::CycleCustomizePlatform(1isize),
        ReleaseNowKey::Char(' ') => ReleaseNowKeyAction::ToggleCustomizePlatformReuse,
        ReleaseNowKey::Enter => ReleaseNowKeyAction::ConfirmCustomize,
        ReleaseNowKey::Esc => ReleaseNowKeyAction::BackFromCustomize,
        _ => scroll_spec(key, false),
    }
}

pub open spec fn existing_artifacts_spec(m: ReleaseNowModes, key: ReleaseNowKey) -> ReleaseNowKeyAction {
    match key {
        ReleaseNowKey::Left | ReleaseNowKey::BackTab => ReleaseNowKeyAction::CycleArtifactsChoice(-1isize),
        ReleaseNowKey::Right | ReleaseNowKey::Tab => ReleaseNowKeyAction::CycleArtifactsChoice(1isize),
        ReleaseNowKey::Enter => if m.artifacts_choice_selected == 3 { ReleaseNowKeyAction::Close } else { ReleaseNowKeyAction::ConfirmArtifactsChoice },
        ReleaseNowKey::Esc => ReleaseNowKeyAction::Close,
        _ => if is_char_of(key, 'n', 'N') { ReleaseNowKeyAction::Close } else { scroll_spec(key, true) },
    }
}

pub open spec fn running_spec(key: ReleaseNowKey) -> ReleaseNowKeyAction {
    if is_char_of(key, 'f', 'F') {
        ReleaseNowKeyAction::ToggleAutoFollow
    } else if is_char_of(key, 'x', 'X') {
        ReleaseNowKeyAction::CancelRun
    } else if key == ReleaseNowKey::Esc {
        ReleaseNowKeyAction::WarnStillRunning
    } else {
        scroll_spec(key, true)
    }
}

pub open spec fn completed_spec(key: ReleaseNowKey) -> ReleaseNowKeyAction {
    match key {
        ReleaseNowKey::Esc | ReleaseNowKey::Enter => ReleaseNowKeyAction::Close,
        _ => scroll_spec(key, true),
    }
}

pub open spec fn options_spec(key: ReleaseNowKey) -> ReleaseNowKeyAction {
    match key {
        ReleaseNowKey::Esc => ReleaseNowKeyAction::Close,
        ReleaseNowKey::Left => ReleaseNowKeyAction::CycleOption(-1isize),
        ReleaseNowKey::Right => ReleaseNowKeyAction::CycleOption(1isize),
        ReleaseNowKey::Enter | ReleaseNowKey::F2 => ReleaseNowKeyAction::Run,
        _ => if is_char_of(key, 'c', 'C') {
            ReleaseNowKeyAction::ToggleAttachChangelog
        } else if is_char_of(key, 'e', 'E') {
            ReleaseNowKeyAction::OpenNotes
        } else if is_char_of(key, 'p', 'P') {
            ReleaseNowKeyAction::OpenTopPicks
        } else {
            scroll_spec(key, true)
        },
    }
}

/// The action for `key` at the dialog's step.
pub open spec fn release_now_key_action_spec(m: ReleaseNowModes, key: ReleaseNowKey) -> ReleaseNowKeyAction {
    if m.mirror_sync {
        mirror_sync_spec(m, key)
    } else if m.warning {
        warning_spec(m, key)
    } else if m.customize {
        customize_spec(key)
    } else if m.existing_artifacts {
        existing_artifacts_spec(m, key)
    } else if m.running {
        running_spec(key)
    } else if m.completed {
        completed_spec(key)
    } else {
        options_spec(key)
    }
}

fn scroll_action(key: ReleaseNowKey, lines: bool) -> (a: ReleaseNowKeyAction)
    ensures
        a == scroll_spec(key, lines),
{
    match key {
        ReleaseNowKey::Up if lines => ReleaseNowKeyAction::Scroll(-1),
        ReleaseNowKey::Down if lines => ReleaseNowKeyAction::Scroll(1),
        ReleaseNowKey::PageUp => ReleaseNowKeyAction::Scroll(-6),
        ReleaseNowKey::PageDown => ReleaseNowKeyAction::Scroll(6),
        ReleaseNowKey::Home => ReleaseNowKeyAction::ScrollToStart,
        ReleaseNowKey::End => ReleaseNowKeyAction::ScrollToEnd,
        _ => ReleaseNowKeyAction::Nothing,
    }
}

fn char_of(key: ReleaseNowKey, lower: char, upper: char) -> (r: bool)
    ensures
        r == is_char_of(key, lower, upper),
{
    match key {
        ReleaseNowKey::Char(c) => c == lower || c == upper,
        _ => false,
    }
}

fn mirror_sync_action(m: ReleaseNowModes, key: ReleaseNowKey) -> (a: ReleaseNowKeyAction)
    ensures
        a == mirror_sync_spec(m, key),
{
    if key == ReleaseNowKey::Enter && !m.mirror_sync_running {
        ReleaseNowKeyAction::MirrorSync(true)
    } else if char_of(key, 'r', 'R') && !m.mirror_sync_running {
        ReleaseNowKeyAction::MirrorSync(false)
    } else if key == ReleaseNowKey::Esc && !m.mirror_sync_running {
        ReleaseNowKeyAction::Close
    } else {
        scroll_action(key, true)
    }
}

fn warning_action(m: ReleaseNowModes, key: ReleaseNowKey) -> (a: ReleaseNowKeyAction)
    ensures
        a == warning_spec(m, key),
{
    match key {
        ReleaseNowKey::Left | ReleaseNowKey::Right | ReleaseNowKey::Tab | ReleaseNowKey::BackTab => ReleaseNowKeyAction::ToggleWarningSelection,
        ReleaseNowKey::Enter => if m.warning_confirm_selected { ReleaseNowKeyAction::ProceedPastWarning } else { ReleaseNowKeyAction::Close },
        ReleaseNowKey::Esc => ReleaseNowKeyAction::Close,
        _ => if char_of(key, 'y', 'Y') {
            ReleaseNowKeyAction::ProceedPastWarning
        } else if char_of(key, 'n', 'N') {
            ReleaseNowKeyAction::Close
        } else {
            ReleaseNowKeyAction::Nothing
        },
    }
}

fn customize_action(key: ReleaseNowKey) -> (a: ReleaseNowKeyAction)
    ensures
        a == customize_spec(key),
{
    match key {
        ReleaseNowKey::Up => ReleaseNowKeyAction::CycleCustomizePlatform(-1),
        ReleaseNowKey::Down => ReleaseNowKeyAction::CycleCustomizePlatform(1),
        ReleaseNowKey::Char(' ') => ReleaseNowKeyAction::ToggleCustomizePlatformReuse,
        ReleaseNowKey::Enter => ReleaseNowKeyAction::ConfirmCustomize,
        ReleaseNowKey::Esc => ReleaseNowKeyAction::BackFromCustomize,
        _ => scroll_action(key, false),
    }
}

fn existing_artifacts_action(m: ReleaseNowModes, key: ReleaseNowKey) -> (a: ReleaseNowKeyAction)
    ensures
        a == existing_artifacts_spec(m, key),
{
    match key {
        ReleaseNowKey::Left | ReleaseNowKey::BackTab => ReleaseNowKeyAction::CycleArtifactsChoice(-1),
        ReleaseNowKey::Right | ReleaseNowKey::Tab => ReleaseNowKeyAction::CycleArtifactsChoice(1),
        ReleaseNowKey::Enter => if m.artifacts_choice_selected == 3 { ReleaseNowKeyAction::Close } else { ReleaseNowKeyAction::ConfirmArtifactsChoice },
        ReleaseNowKey::Esc => ReleaseNowKeyAction::Close,
        _ => if char_of(key, 'n', 'N') { ReleaseNowKeyAction::Close } else { scroll_action(key, true) },
    }
}

fn running_action(key: ReleaseNowKey) -> (a: ReleaseNowKeyAction)
    ensures
        a == running_spec(key),
{
    if char_of(key, 'f', 'F') {
        ReleaseNowKeyAction::ToggleAutoFollow
    } else if char_of(key, 'x', 'X') {
        ReleaseNowKeyAction::CancelRun
    } else if key == ReleaseNowKey::Esc {
        ReleaseNowKeyAction::WarnStillRunning
    } else {
        scroll_action(key, true)
    }
}

fn completed_action(key: ReleaseNowKey) -> (a: ReleaseNowKeyAction)
    ensures
        a == completed_spec(key),
{
    match key {
        ReleaseNowKey::Esc | ReleaseNowKey::Enter => ReleaseNowKeyAction::Close,
        _ => scroll_action(key, true),
    }
}

fn options_action(key: ReleaseNowKey) -> (a: ReleaseNowKeyAction)
    ensures
        a == options_spec(key),
{
    match key {
        ReleaseNowKey::Esc => ReleaseNowKeyAction::Close,
        ReleaseNowKey::Left => ReleaseNowKeyAction::CycleOption(-1),
        ReleaseNowKey::Right => ReleaseNowKeyAction::CycleOption(1),
        ReleaseNowKey::Enter | ReleaseNowKey::F2 => ReleaseNowKeyAction::Run,
        _ => if char_of(key, 'c', 'C') {
            ReleaseNowKeyAction::ToggleAttachChangelog
        } else if char_of(key, 'e', 'E') {
            ReleaseNowKeyAction::OpenNotes
        } else if char_of(key, 'p', 'P') {
            ReleaseNowKeyAction::OpenTopPicks
        } else {
            scroll_action(key, true)
        },
    }
}

/// Answers a key in the Release-NOW dialog: what the dialog (or the
/// dashboard around it) is to do at the dialog's step.
pub fn handle_release_now_key(m: ReleaseNowModes, key: ReleaseNowKey) -> (a: ReleaseNowKeyAction)
    ensures
        a == release_now_key_action_spec(m, key),
{
    if m.mirror_sync {
        mirror_sync_action(m, key)
    } else if m.warning {
        warning_action(m, key)
    } else if m.customize {
        customize_action(key)
    } else if m.existing_artifacts {
        existing_artifacts_action(m, key)
    } else if m.running {
        running_action(key)
    } else if m.completed {
        completed_action(key)
    } else {
        options_action(key)
    }
}

/// A running release can never be closed from the keyboard, and a running
/// mirror sync neither closes nor restarts: whatever key comes, the action
/// is not `Close` or another sync.
pub proof fn law_running_work_is_not_interrupted(m: ReleaseNowModes, key: ReleaseNowKey)
    requires
        (m.mirror_sync && m.mirror_sync_running)
            || (!m.mirror_sync && !m.warning && !m.customize && !m.existing_artifacts && m.running),
    ensures
        release_now_key_action_spec(m, key) != ReleaseNowKeyAction::Close,
        !(release_now_key_action_spec(m, key) is MirrorSync),
        !(release_now_key_action_spec(m, key) is Run),
{
}

/// The dialog shows the options before a release: none of the other steps.
pub open spec fn at_options(m: ReleaseNowModes) -> bool {
    !m.mirror_sync && !m.warning && !m.customize && !m.existing_artifacts && !m.running && !m.completed
}

/// The dialog is at the warning (and not at the mirror sync).
pub open spec fn at_warning(m: ReleaseNowModes) -> bool {
    !m.mirror_sync && m.warning
}

/// A release starts only from the options, on Enter or F2, and those keys
/// always start it there; it goes past the warning only on `y`/`Y` or on
/// Enter with "continue" selected, while `n`, `N`, Esc and Enter on the
/// other button close the dialog; a running release is cancelled only on
/// `x`/`X`; the existing-artifacts question closes on Enter exactly when
/// "cancel" is selected; a finished release closes on Esc or Enter.
pub proof fn law_release_now_keys(m: ReleaseNowModes, key: ReleaseNowKey)
    ensures
        release_now_key_action_spec(m, key) == ReleaseNowKeyAction::Run
            ==> at_options(m) && (key == ReleaseNowKey::Enter || key == ReleaseNowKey::F2),
        at_options(m) && (key == ReleaseNowKey::Enter || key == ReleaseNowKey::F2)
            ==> release_now_key_action_spec(m, key) == ReleaseNowKeyAction::Run,
        at_options(m) ==> release_now_key_action_spec(m, ReleaseNowKey::Esc) == ReleaseNowKeyAction::Close,
        release_now_key_action_spec(m, key) == ReleaseNowKeyAction::ProceedPastWarning
            ==> at_warning(m) && (is_char_of(key, 'y', 'Y') || (key == ReleaseNowKey::Enter && m.warning_confirm_selected)),
        at_warning(m) && (is_char_of(key, 'n', 'N') || key == ReleaseNowKey::Esc
            || (key == ReleaseNowKey::Enter && !m.warning_confirm_selected))
            ==> release_now_key_action_spec(m, key) == ReleaseNowKeyAction::Close,
        release_now_key_action_spec(m, key) == ReleaseNowKeyAction::CancelRun
            ==> !m.mirror_sync && !m.warning && !m.customize && !m.existing_artifacts && m.running && is_char_of(key, 'x', 'X'),
        !m.mirror_sync && !m.warning && !m.customize && m.existing_artifacts
            ==> release_now_key_action_spec(m, ReleaseNowKey::Enter) == (if m.artifacts_choice_selected == 3 {
                ReleaseNowKeyAction::Close
            } else {
                ReleaseNowKeyAction::ConfirmArtifactsChoice
            }),
        !m.mirror_sync && !m.warning && !m.customize && !m.existing_artifacts && !m.running && m.completed
            ==> release_now_key_action_spec(m, ReleaseNowKey::Esc) == ReleaseNowKeyAction::Close
                && release_now_key_action_spec(m, ReleaseNowKey::Enter) == ReleaseNowKeyAction::Close,
        m.mirror_sync && !m.mirror_sync_running ==> release_now_key_action_spec(m, ReleaseNowKey::Enter) == ReleaseNowKeyAction::MirrorSync(true),
{
}

} // verus!
