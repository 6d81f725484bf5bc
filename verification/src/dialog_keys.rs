//! What the dashboard's smaller dialogs, the git log and the dashboard itself
//! do with a key: each key is turned into an action that the dialog (or the
//! dashboard) then performs.

use vstd::prelude::*;
use crate::layout::digit_to_index;

verus! {

/// Modifier keys held with a character.
#[derive(Clone, Copy, Debug, PartialEq, Eq, Structural)]
pub enum Mods {
    /// No modifier.
    Plain,
    /// Shift alone.
    Shift,
    /// Control, alone or with others.
    Control,
    /// Any other combination (without Control).
    Other,
}

/// A key as the dialogs see it.
#[derive(Clone, Copy, Debug, PartialEq, Eq, Structural)]
pub enum DialogKey {
    Char { c: char, mods: Mods },
    Esc,
    Enter,
    F2,
    Tab,
    BackTab,
    Up,
    Down,
    Left,
    Right,
    Home,
    End,
    PageUp,
    PageDown,
    Backspace,
    Delete,
    Other,
}

pub open spec fn digit_index(c: char) -> Option<usize> {
    if '1' <= c <= '9' { Some(((c as int) - ('1' as int)) as usize) } else { None::<usize> }
}

/// A dialog that offers a list of choices.
#[derive(Clone, Copy, Debug, PartialEq, Eq, Structural)]
pub enum ChoiceKeyAction {
    Nothing,
    Cancel,
    Rotate(isize),
    Select(usize),
    Confirm,
}

/// The three-way warnings (overview bump, main branch, sub-branch changelog):
/// `1`..`3` pick an answer directly.
pub open spec fn warning_key_spec(key: DialogKey) -> ChoiceKeyAction {
    match key {
        DialogKey::Esc => ChoiceKeyAction::Cancel,
        DialogKey::Up | DialogKey::BackTab => ChoiceKeyAction::Rotate(-1isize),
        DialogKey::Down | DialogKey::Tab => ChoiceKeyAction::Rotate(1isize),
        DialogKey::Char { c: '1', mods: _ } => ChoiceKeyAction::Select(0usize),
        DialogKey::Char { c: '2', mods: _ } => ChoiceKeyAction::Select(1usize),
        DialogKey::Char { c: '3', mods: _ } => ChoiceKeyAction::Select(2usize),
        DialogKey::Enter | DialogKey::F2 => ChoiceKeyAction::Confirm,
        _ => ChoiceKeyAction::Nothing,
    }
}

/// Keys of the three-way warning dialogs.
pub fn warning_key_action(key: DialogKey) -> (a: ChoiceKeyAction)
    ensures
        a == warning_key_spec(key),
{
    match key {
        DialogKey::Esc => ChoiceKeyAction::Cancel,
        DialogKey::Up | DialogKey::BackTab => ChoiceKeyAction::Rotate(-1),
        DialogKey::Down | DialogKey::Tab => ChoiceKeyAction::Rotate(1),
        DialogKey::Char { c: '1', mods: _ } => ChoiceKeyAction::Select(0),
        DialogKey::Char { c: '2', mods: _ } => ChoiceKeyAction::Select(1),
        DialogKey::Char { c: '3', mods: _ } => ChoiceKeyAction::Select(2),
        DialogKey::Enter | DialogKey::F2 => ChoiceKeyAction::Confirm,
        _ => ChoiceKeyAction::Nothing,
    }
}

/// The workflow and bump-kind lists: a digit `1`..`9` picks that entry.
pub open spec fn list_key_spec(key: DialogKey) -> ChoiceKeyAction {
    match key {
        DialogKey::Esc => ChoiceKeyAction::Cancel,
        DialogKey::Up | DialogKey::BackTab => ChoiceKeyAction::Rotate(-1isize),
        DialogKey::Down | DialogKey::Tab => ChoiceKeyAction::Rotate(1isize),
        DialogKey::Char { c, mods: _ } => match digit_index(c) {
            Some(i) => ChoiceKeyAction::Select(i),
            None => ChoiceKeyAction::Nothing,
        },
        DialogKey::Enter | DialogKey::F2 => ChoiceKeyAction::Confirm,
        _ => ChoiceKeyAction::Nothing,
    }
}

/// Keys of the workflow and bump-kind lists.
pub fn list_key_action(key: DialogKey) -> (a: ChoiceKeyAction)
    ensures
        a == list_key_spec(key),
{
    match key {
        DialogKey::Esc => ChoiceKeyAction::Cancel,
        DialogKey::Up | DialogKey::BackTab => ChoiceKeyAction::Rotate(-1),
        DialogKey::Down | DialogKey::Tab => ChoiceKeyAction::Rotate(1),
        DialogKey::Char { c, mods: _ } => match digit_to_index(c) {
            Some(i) => ChoiceKeyAction::Select(i),
            None => ChoiceKeyAction::Nothing,
        },
        DialogKey::Enter | DialogKey::F2 => ChoiceKeyAction::Confirm,
        _ => ChoiceKeyAction::Nothing,
    }
}

/// The delete confirmation.
#[derive(Clone, Copy, Debug, PartialEq, Eq, Structural)]
pub enum DeleteKeyAction {
    Nothing,
    ToggleSelection,
    Confirm,
    Cancel,
}

pub open spec fn delete_key_spec(key: DialogKey, confirm_selected: bool) -> DeleteKeyAction {
    match key {
        DialogKey::Left | DialogKey::Right | DialogKey::Tab | DialogKey::BackTab => DeleteKeyAction::ToggleSelection,
        DialogKey::Enter => if confirm_selected { DeleteKeyAction::Confirm } else { DeleteKeyAction::Cancel },
        DialogKey::Char { c, mods: _ } => if c == 'y' || c == 'Y' {
            DeleteKeyAction::Confirm
        } else if c == 'n' || c == 'N' {
            DeleteKeyAction::Cancel
        } else {
            DeleteKeyAction::Nothing
        },
        DialogKey::Esc => DeleteKeyAction::Cancel,
        _ => DeleteKeyAction::Nothing,
    }
}

/// Keys of the delete confirmation: Enter follows the selected button.
pub fn delete_confirmation_key_action(key: DialogKey, confirm_selected: bool) -> (a: DeleteKeyAction)
    ensures
        a == delete_key_spec(key, confirm_selected),
{
    match key {
        DialogKey::Left | DialogKey::Right | DialogKey::Tab | DialogKey::BackTab => DeleteKeyAction::ToggleSelection,
        DialogKey::Enter => if confirm_selected { DeleteKeyAction::Confirm } else { DeleteKeyAction::Cancel },
        DialogKey::Char { c, mods: _ } => if c == 'y' || c == 'Y' {
            DeleteKeyAction::Confirm
        } else if c == 'n' || c == 'N' {
            DeleteKeyAction::Cancel
        } else {
            DeleteKeyAction::Nothing
        },
        DialogKey::Esc => DeleteKeyAction::Cancel,
        _ => DeleteKeyAction::Nothing,
    }
}

/// The bump preview.
#[derive(Clone, Copy, Debug, PartialEq, Eq, Structural)]
pub enum BumpKeyAction {
    Nothing,
    Close,
    RotateScope(isize),
    RotateAction(isize),
    Apply,
}

pub open spec fn bump_key_spec(key: DialogKey) -> BumpKeyAction {
    match key {
        DialogKey::Esc => BumpKeyAction::Close,
        DialogKey::Up | DialogKey::BackTab => BumpKeyAction::RotateScope(-1isize),
        DialogKey::Down | DialogKey::Tab => BumpKeyAction::RotateScope(1isize),
        DialogKey::Left => BumpKeyAction::RotateAction(-1isize),
        DialogKey::Right => BumpKeyAction::RotateAction(1isize),
        DialogKey::Enter | DialogKey::F2 => BumpKeyAction::Apply,
        _ => BumpKeyAction::Nothing,
    }
}

/// Keys of the bump preview: scopes up and down, actions left and right.
pub fn bump_key_action(key: DialogKey) -> (a: BumpKeyAction)
    ensures
        a == bump_key_spec(key),
{
    match key {
        DialogKey::Esc => BumpKeyAction::Close,
        DialogKey::Up | DialogKey::BackTab => BumpKeyAction::RotateScope(-1),
        DialogKey::Down | DialogKey::Tab => BumpKeyAction::RotateScope(1),
        DialogKey::Left => BumpKeyAction::RotateAction(-1),
        DialogKey::Right => BumpKeyAction::RotateAction(1),
        DialogKey::Enter | DialogKey::F2 => BumpKeyAction::Apply,
        _ => BumpKeyAction::Nothing,
    }
}

/// The branch-bump dialog: a list of branch choices and, for some choices,
/// a branch-name input.
#[derive(Clone, Copy, Debug, PartialEq, Eq, Structural)]
pub enum BranchBumpKeyAction {
    Nothing,
    Cancel,
    Rotate(isize),
    Select(usize),
    Confirm,
    Insert(char),
    Backspace,
    Delete,
    CursorLeft,
    CursorRight,
    CursorHome,
    CursorEnd,
    Scroll(i16),
}

/// An editing action, taken only while the name input is enabled.
pub open spec fn if_input(enabled: bool, a: BranchBumpKeyAction) -> BranchBumpKeyAction {
    if enabled { a } else { BranchBumpKeyAction::Nothing }
}

pub open spec fn branch_bump_key_spec(key: DialogKey, input_enabled: bool) -> BranchBumpKeyAction {
    match key {
        DialogKey::Esc => BranchBumpKeyAction::Cancel,
        DialogKey::Up | DialogKey::BackTab => BranchBumpKeyAction::Rotate(-1isize),
        DialogKey::Down | DialogKey::Tab => BranchBumpKeyAction::Rotate(1isize),
        DialogKey::Char { c, mods: Mods::Plain } => match digit_index(c) {
            Some(i) => BranchBumpKeyAction::Select(i),
            None => if_input(input_enabled, BranchBumpKeyAction::Insert(c)),
        },
        DialogKey::Char { c, mods: Mods::Shift } => if_input(input_enabled, BranchBumpKeyAction::Insert(c)),
        DialogKey::Enter | DialogKey::F2 => BranchBumpKeyAction::Confirm,
        DialogKey::Backspace => if_input(input_enabled, BranchBumpKeyAction::Backspace),
        DialogKey::Delete => if_input(input_enabled, BranchBumpKeyAction::Delete),
        DialogKey::Left => if_input(input_enabled, BranchBumpKeyAction::CursorLeft),
        DialogKey::Right => if_input(input_enabled, BranchBumpKeyAction::CursorRight),
        DialogKey::Home => if_input(input_enabled, BranchBumpKeyAction::CursorHome),
        DialogKey::End => if_input(input_enabled, BranchBumpKeyAction::CursorEnd),
        DialogKey::PageUp => BranchBumpKeyAction::Scroll(-3i16),
        DialogKey::PageDown => BranchBumpKeyAction::Scroll(3i16),
        _ => BranchBumpKeyAction::Nothing,
    }
}

fn when_input(enabled: bool, a: BranchBumpKeyAction) -> (r: BranchBumpKeyAction)
    ensures
        r == if_input(enabled, a),
{
    if enabled { a } else { BranchBumpKeyAction::Nothing }
}

/// Keys of the branch-bump dialog: an unmodified digit picks a choice, other
/// characters (plain or shifted) and the editing keys go to the branch name
/// while its input is enabled.
pub fn overview_branch_bump_key_action(key: DialogKey, input_enabled: bool) -> (a: BranchBumpKeyAction)
    ensures
        a == branch_bump_key_spec(key, input_enabled),
{
    match key {
        DialogKey::Esc => BranchBumpKeyAction::Cancel,
        DialogKey::Up | DialogKey::BackTab => BranchBumpKeyAction::Rotate(-1),
        DialogKey::Down | DialogKey::Tab => BranchBumpKeyAction::Rotate(1),
        DialogKey::Char { c, mods: Mods::Plain } => match digit_to_index(c) {
            Some(i) => BranchBumpKeyAction::Select(i),
            None => when_input(input_enabled, BranchBumpKeyAction::Insert(c)),
        },
        DialogKey::Char { c, mods: Mods::Shift } => when_input(input_enabled, BranchBumpKeyAction::Insert(c)),
        DialogKey::Enter | DialogKey::F2 => BranchBumpKeyAction::Confirm,
        DialogKey::Backspace => when_input(input_enabled, BranchBumpKeyAction::Backspace),
        DialogKey::Delete => when_input(input_enabled, BranchBumpKeyAction::Delete),
        DialogKey::Left => when_input(input_enabled, BranchBumpKeyAction::CursorLeft),
        DialogKey::Right => when_input(input_enabled, BranchBumpKeyAction::CursorRight),
        DialogKey::Home => when_input(input_enabled, BranchBumpKeyAction::CursorHome),
        DialogKey::End => when_input(input_enabled, BranchBumpKeyAction::CursorEnd),
        DialogKey::PageUp => BranchBumpKeyAction::Scroll(-3),
        DialogKey::PageDown => BranchBumpKeyAction::Scroll(3),
        _ => BranchBumpKeyAction::Nothing,
    }
}

/// While the name input is disabled, no key edits the branch name.
pub proof fn law_disabled_input_is_never_edited(key: DialogKey)
    ensures
        !(branch_bump_key_spec(key, false) is Insert),
        !(branch_bump_key_spec(key, false) is Backspace),
        !(branch_bump_key_spec(key, false) is Delete),
{
}

/// The git log's two tabs.
#[derive(Clone, Copy, Debug, PartialEq, Eq, Structural)]
pub enum LogTab {
    Recent,
    History,
}

/// What a key does in the git log.
#[derive(Clone, Copy, Debug, PartialEq, Eq, Structural)]
pub enum RecentChangesKeyAction {
    Nothing,
    Close,
    RenameCommit,
    Scroll(i16),
    /// Load the tag history in the background, then show it.
    LoadHistory,
    CycleTab(isize),
    SwitchTab(LogTab),
    /// Load the previous (`-1`) or next (`1`) scope's history in the background.
    RotateScope(isize),
    Refresh,
    /// Move through the tag history (older for `1`).
    NavigateHistory(isize),
    OpenTag,
}

pub open spec fn recent_changes_key_spec(key: DialogKey, tab: LogTab, history_loaded: bool, can_select_scope: bool) -> RecentChangesKeyAction {
    match key {
        DialogKey::Esc => RecentChangesKeyAction::Close,
        DialogKey::Char { c, mods: Mods::Control } if c == 'r' || c == 'R' => RecentChangesKeyAction::RenameCommit,
        DialogKey::Up => RecentChangesKeyAction::Scroll(-1i16),
        DialogKey::Down => RecentChangesKeyAction::Scroll(1i16),
        DialogKey::PageUp => RecentChangesKeyAction::Scroll(-8i16),
        DialogKey::PageDown => RecentChangesKeyAction::Scroll(8i16),
        DialogKey::Tab => if tab == LogTab::Recent && !history_loaded {
            RecentChangesKeyAction::LoadHistory
        } else {
            RecentChangesKeyAction::CycleTab(1isize)
        },
        DialogKey::BackTab => RecentChangesKeyAction::CycleTab(-1isize),
        DialogKey::Char { c: '1', mods: _ } => RecentChangesKeyAction::SwitchTab(LogTab::Recent),
        DialogKey::Char { c: '2', mods: _ } => if history_loaded {
            RecentChangesKeyAction::SwitchTab(LogTab::History)
        } else {
            RecentChangesKeyAction::LoadHistory
        },
        DialogKey::Char { c: '[', mods: _ } => RecentChangesKeyAction::RotateScope(-1isize),
        DialogKey::Char { c: ']', mods: _ } => RecentChangesKeyAction::RotateScope(1isize),
        DialogKey::Char { c, mods: _ } if c == 'r' || c == 'R' => RecentChangesKeyAction::Refresh,
        DialogKey::Left => if tab == LogTab::Recent && can_select_scope {
            RecentChangesKeyAction::RotateScope(-1isize)
        } else if tab == LogTab::History {
            RecentChangesKeyAction::NavigateHistory(1isize)
        } else {
            RecentChangesKeyAction::Nothing
        },
        DialogKey::Right => if tab == LogTab::Recent && can_select_scope {
            RecentChangesKeyAction::RotateScope(1isize)
        } else if tab == LogTab::History {
            RecentChangesKeyAction::NavigateHistory(-1isize)
        } else {
            RecentChangesKeyAction::Nothing
        },
        DialogKey::Char { c: 't', mods: _ } => RecentChangesKeyAction::OpenTag,
        _ => RecentChangesKeyAction::Nothing,
    }
}

/// Keys of the git log (with the dialog on `tab`; `history_loaded` says
/// whether the tag history is loaded, `can_select_scope` whether the project
/// has more than one scope to move between).
pub fn recent_changes_key_action(key: DialogKey, tab: LogTab, history_loaded: bool, can_select_scope: bool) -> (a: RecentChangesKeyAction)
    ensures
        a == recent_changes_key_spec(key, tab, history_loaded, can_select_scope),
{
    match key {
        DialogKey::Esc => RecentChangesKeyAction::Close,
        DialogKey::Char { c, mods: Mods::Control } if c == 'r' || c == 'R' => RecentChangesKeyAction::RenameCommit,
        DialogKey::Up => RecentChangesKeyAction::Scroll(-1),
        DialogKey::Down => RecentChangesKeyAction::Scroll(1),
        DialogKey::PageUp => RecentChangesKeyAction::Scroll(-8),
        DialogKey::PageDown => RecentChangesKeyAction::Scroll(8),
        DialogKey::Tab => if tab == LogTab::Recent && !history_loaded {
            RecentChangesKeyAction::LoadHistory
        } else {
            RecentChangesKeyAction::CycleTab(1)
        },
        DialogKey::BackTab => RecentChangesKeyAction::CycleTab(-1),
        DialogKey::Char { c: '1', mods: _ } => RecentChangesKeyAction::SwitchTab(LogTab::Recent),
        DialogKey::Char { c: '2', mods: _ } => if history_loaded {
            RecentChangesKeyAction::SwitchTab(LogTab::History)
        } else {
            RecentChangesKeyAction::LoadHistory
        },
        DialogKey::Char { c: '[', mods: _ } => RecentChangesKeyAction::RotateScope(-1),
        DialogKey::Char { c: ']', mods: _ } => RecentChangesKeyAction::RotateScope(1),
        DialogKey::Char { c, mods: _ } if c == 'r' || c == 'R' => RecentChangesKeyAction::Refresh,
        DialogKey::Left => if tab == LogTab::Recent && can_select_scope {
            RecentChangesKeyAction::RotateScope(-1)
        } else if tab == LogTab::History {
            RecentChangesKeyAction::NavigateHistory(1)
        } else {
            RecentChangesKeyAction::Nothing
        },
        DialogKey::Right => if tab == LogTab::Recent && can_select_scope {
            RecentChangesKeyAction::RotateScope(1)
        } else if tab == LogTab::History {
            RecentChangesKeyAction::NavigateHistory(-1)
        } else {
            RecentChangesKeyAction::Nothing
        },
        DialogKey::Char { c: 't', mods: _ } => RecentChangesKeyAction::OpenTag,
        _ => RecentChangesKeyAction::Nothing,
    }
}

/// What a key does on the dashboard (after the Project Settings pane passed on it).
#[derive(Clone, Copy, Debug, PartialEq, Eq, Structural)]
pub enum DashboardKeyAction {
    Nothing,
    RenameCommit,
    OpenWizard,
    EditProject,
    RequestDelete,
    OpenReleaseNow,
    OpenTopPicks,
    OpenBump,
    OpenRecentChanges,
    OpenChangelogPreview,
    OpenTag,
    OpenSnif,
    Reload,
    ToggleFocus,
    /// Scroll the overview's git log by `lines`, or, when it cannot scroll,
    /// the tiles by `tiles`.
    ScrollOverview { lines: i16, tiles: i16 },
    MoveProjectSelection(isize),
    MoveOverviewFocus(isize),
}

pub open spec fn dashboard_key_spec(key: DialogKey, overview_focused: bool, overview_log_shown: bool) -> DashboardKeyAction {
    match key {
        DialogKey::Char { c, mods: Mods::Control } if (c == 'r' || c == 'R') && overview_focused && overview_log_shown => DashboardKeyAction::RenameCommit,
        DialogKey::Char { c: 'n', mods: _ } => DashboardKeyAction::OpenWizard,
        DialogKey::Char { c: 'e', mods: _ } => DashboardKeyAction::EditProject,
        DialogKey::Char { c, mods: _ } if c == 'd' || c == 'D' => DashboardKeyAction::RequestDelete,
        DialogKey::Char { c, mods: _ } if c == 'l' || c == 'L' => DashboardKeyAction::OpenReleaseNow,
        DialogKey::Char { c, mods: _ } if c == 'p' || c == 'P' => DashboardKeyAction::OpenTopPicks,
        DialogKey::Char { c: 'b', mods: _ } => DashboardKeyAction::OpenBump,
        DialogKey::Char { c: 'g', mods: _ } => DashboardKeyAction::OpenRecentChanges,
        DialogKey::Char { c, mods: _ } if c == 'c' || c == 'C' => DashboardKeyAction::OpenChangelogPreview,
        DialogKey::Char { c: 't', mods: _ } => DashboardKeyAction::OpenTag,
        DialogKey::Char { c, mods: _ } if c == 'f' || c == 'F' => DashboardKeyAction::OpenSnif,
        DialogKey::Char { c, mods: _ } if c == 'r' || c == 'R' => DashboardKeyAction::Reload,
        DialogKey::Tab | DialogKey::BackTab => DashboardKeyAction::ToggleFocus,
        DialogKey::Up => if overview_focused {
            DashboardKeyAction::ScrollOverview { lines: -1i16, tiles: -1i16 }
        } else {
            DashboardKeyAction::MoveProjectSelection(-1isize)
        },
        DialogKey::Down => if overview_focused {
            DashboardKeyAction::ScrollOverview { lines: 1i16, tiles: 1i16 }
        } else {
            DashboardKeyAction::MoveProjectSelection(1isize)
        },
        DialogKey::Left if overview_focused => DashboardKeyAction::MoveOverviewFocus(-1isize),
        DialogKey::Right if overview_focused => DashboardKeyAction::MoveOverviewFocus(1isize),
        DialogKey::PageUp if overview_focused => DashboardKeyAction::ScrollOverview { lines: -6i16, tiles: -1i16 },
        DialogKey::PageDown if overview_focused => DashboardKeyAction::ScrollOverview { lines: 6i16, tiles: 1i16 },
        _ => DashboardKeyAction::Nothing,
    }
}

/// Keys of the dashboard: the shortcuts that open dialogs, focus switching,
/// and moving through projects (left pane) or the overview (right pane).
pub fn dashboard_key_action(key: DialogKey, overview_focused: bool, overview_log_shown: bool) -> (a: DashboardKeyAction)
    ensures
        a == dashboard_key_spec(key, overview_focused, overview_log_shown),
{
    match key {
        DialogKey::Char { c, mods: Mods::Control } if (c == 'r' || c == 'R') && overview_focused && overview_log_shown => DashboardKeyAction::RenameCommit,
        DialogKey::Char { c: 'n', mods: _ } => DashboardKeyAction::OpenWizard,
        DialogKey::Char { c: 'e', mods: _ } => DashboardKeyAction::EditProject,
        DialogKey::Char { c, mods: _ } if c == 'd' || c == 'D' => DashboardKeyAction::RequestDelete,
        DialogKey::Char { c, mods: _ } if c == 'l' || c == 'L' => DashboardKeyAction::OpenReleaseNow,
        DialogKey::Char { c, mods: _ } if c == 'p' || c == 'P' => DashboardKeyAction::OpenTopPicks,
        DialogKey::Char { c: 'b', mods: _ } => DashboardKeyAction::OpenBump,
        DialogKey::Char { c: 'g', mods: _ } => DashboardKeyAction::OpenRecentChanges,
        DialogKey::Char { c, mods: _ } if c == 'c' || c == 'C' => DashboardKeyAction::OpenChangelogPreview,
        DialogKey::Char { c: 't', mods: _ } => DashboardKeyAction::OpenTag,
        DialogKey::Char { c, mods: _ } if c == 'f' || c == 'F' => DashboardKeyAction::OpenSnif,
        DialogKey::Char { c, mods: _ } if c == 'r' || c == 'R' => DashboardKeyAction::Reload,
        DialogKey::Tab | DialogKey::BackTab => DashboardKeyAction::ToggleFocus,
        DialogKey::Up => if overview_focused {
            DashboardKeyAction::ScrollOverview { lines: -1, tiles: -1 }
        } else {
            DashboardKeyAction::MoveProjectSelection(-1)
        },
        DialogKey::Down => if overview_focused {
            DashboardKeyAction::ScrollOverview { lines: 1, tiles: 1 }
        } else {
            DashboardKeyAction::MoveProjectSelection(1)
        },
        DialogKey::Left if overview_focused => DashboardKeyAction::MoveOverviewFocus(-1),
        DialogKey::Right if overview_focused => DashboardKeyAction::MoveOverviewFocus(1),
        DialogKey::PageUp if overview_focused => DashboardKeyAction::ScrollOverview { lines: -6, tiles: -1 },
        DialogKey::PageDown if overview_focused => DashboardKeyAction::ScrollOverview { lines: 6, tiles: 1 },
        _ => DashboardKeyAction::Nothing,
    }
}

/// The key is the character `a` or `b`, with any modifiers.
pub open spec fn typed_either(key: DialogKey, a: char, b: char) -> bool {
    match key {
        DialogKey::Char { c, .. } => c == a || c == b,
        _ => false,
    }
}

/// In the delete confirmation, `n`, `N` and Esc always cancel; a deletion
/// is confirmed only by `y`, `Y`, or Enter on the confirm button; Enter on
/// the cancel button cancels.
pub proof fn law_only_yes_confirms_a_deletion(key: DialogKey, confirm_selected: bool)
    ensures
        (key == DialogKey::Esc || typed_either(key, 'n', 'N'))
            ==> delete_key_spec(key, confirm_selected) == DeleteKeyAction::Cancel,
        delete_key_spec(key, confirm_selected) == DeleteKeyAction::Confirm
            ==> typed_either(key, 'y', 'Y') || (key == DialogKey::Enter && confirm_selected),
        typed_either(key, 'y', 'Y')
            ==> delete_key_spec(key, confirm_selected) == DeleteKeyAction::Confirm,
        key == DialogKey::Enter ==> delete_key_spec(key, confirm_selected)
            == (if confirm_selected { DeleteKeyAction::Confirm } else { DeleteKeyAction::Cancel }),
{
}

/// The character a key types, if it types one.
pub open spec fn typed_char(key: DialogKey) -> Option<char> {
    match key {
        DialogKey::Char { c, .. } => Some(c),
        _ => None,
    }
}

/// The choice dialogs: Esc cancels, Enter and F2 confirm (and nothing else
/// does), Up and Down step through the choices in opposite directions, and
/// a digit picks the entry it numbers from one: `1` to `3` in the
/// three-way warnings, `1` to `9` in the lists.
pub proof fn law_choice_keys(key: DialogKey, mods: Mods)
    ensures
        warning_key_spec(DialogKey::Esc) == ChoiceKeyAction::Cancel,
        list_key_spec(DialogKey::Esc) == ChoiceKeyAction::Cancel,
        warning_key_spec(DialogKey::Enter) == ChoiceKeyAction::Confirm && warning_key_spec(DialogKey::F2) == ChoiceKeyAction::Confirm,
        list_key_spec(DialogKey::Enter) == ChoiceKeyAction::Confirm && list_key_spec(DialogKey::F2) == ChoiceKeyAction::Confirm,
        warning_key_spec(key) == ChoiceKeyAction::Confirm ==> key == DialogKey::Enter || key == DialogKey::F2,
        list_key_spec(key) == ChoiceKeyAction::Confirm ==> key == DialogKey::Enter || key == DialogKey::F2,
        warning_key_spec(DialogKey::Up) == ChoiceKeyAction::Rotate(-1isize) && warning_key_spec(DialogKey::Down) == ChoiceKeyAction::Rotate(1isize),
        list_key_spec(DialogKey::Up) == ChoiceKeyAction::Rotate(-1isize) && list_key_spec(DialogKey::Down) == ChoiceKeyAction::Rotate(1isize),
        warning_key_spec(DialogKey::Char { c: '1', mods }) == ChoiceKeyAction::Select(0usize)
            && warning_key_spec(DialogKey::Char { c: '2', mods }) == ChoiceKeyAction::Select(1usize)
            && warning_key_spec(DialogKey::Char { c: '3', mods }) == ChoiceKeyAction::Select(2usize),
        warning_key_spec(key) matches ChoiceKeyAction::Select(i) ==> i < 3 && typed_char(key) == Some((('1' as int) + i) as char),
        list_key_spec(key) matches ChoiceKeyAction::Select(i) ==> i < 9 && typed_char(key) == Some((('1' as int) + i) as char),
        list_key_spec(DialogKey::Char { c: '1', mods }) == ChoiceKeyAction::Select(0usize)
            && list_key_spec(DialogKey::Char { c: '9', mods }) == ChoiceKeyAction::Select(8usize),
{
}

/// In the bump preview, Esc closes, Enter and F2 apply (and nothing else
/// does), Up and Down move through the scopes and Left and Right through
/// the bump actions, each pair in opposite directions.
pub proof fn law_bump_preview_keys(key: DialogKey)
    ensures
        bump_key_spec(DialogKey::Esc) == BumpKeyAction::Close,
        bump_key_spec(key) == BumpKeyAction::Apply <==> (key == DialogKey::Enter || key == DialogKey::F2),
        bump_key_spec(DialogKey::Up) == BumpKeyAction::RotateScope(-1isize) && bump_key_spec(DialogKey::Down) == BumpKeyAction::RotateScope(1isize),
        bump_key_spec(DialogKey::Left) == BumpKeyAction::RotateAction(-1isize) && bump_key_spec(DialogKey::Right) == BumpKeyAction::RotateAction(1isize),
{
}

/// In the git log, Esc closes; Control-R renames the commit; asking for the
/// tag history (with `2` or, from the recent tab, with Tab) loads it first
/// when it is not loaded and shows it at once when it is; `[` and `]` move
/// to the previous and next scope.
pub proof fn law_git_log_keys(tab: LogTab, history_loaded: bool, can_select_scope: bool, mods: Mods)
    ensures
        recent_changes_key_spec(DialogKey::Esc, tab, history_loaded, can_select_scope) == RecentChangesKeyAction::Close,
        recent_changes_key_spec(DialogKey::Char { c: 'r', mods: Mods::Control }, tab, history_loaded, can_select_scope)
            == RecentChangesKeyAction::RenameCommit,
        recent_changes_key_spec(DialogKey::Char { c: '2', mods }, tab, history_loaded, can_select_scope)
            == (if history_loaded { RecentChangesKeyAction::SwitchTab(LogTab::History) } else { RecentChangesKeyAction::LoadHistory }),
        !history_loaded && tab == LogTab::Recent
            ==> recent_changes_key_spec(DialogKey::Tab, tab, history_loaded, can_select_scope) == RecentChangesKeyAction::LoadHistory,
        history_loaded ==> recent_changes_key_spec(DialogKey::Tab, tab, history_loaded, can_select_scope) == RecentChangesKeyAction::CycleTab(1isize),
        recent_changes_key_spec(DialogKey::Char { c: '[', mods }, tab, history_loaded, can_select_scope) == RecentChangesKeyAction::RotateScope(-1isize),
        recent_changes_key_spec(DialogKey::Char { c: ']', mods }, tab, history_loaded, can_select_scope) == RecentChangesKeyAction::RotateScope(1isize),
        recent_changes_key_spec(DialogKey::Up, tab, history_loaded, can_select_scope) == RecentChangesKeyAction::Scroll(-1i16)
            && recent_changes_key_spec(DialogKey::Down, tab, history_loaded, can_select_scope) == RecentChangesKeyAction::Scroll(1i16),
{
}

/// On the dashboard, `d` or `D` asks to delete (and nothing else does), `n`
/// opens the wizard, Tab switches the focused pane, and Up and Down move
/// the project selection in the project list in opposite directions.
pub proof fn law_dashboard_keys(key: DialogKey, overview_focused: bool, overview_log_shown: bool, mods: Mods)
    ensures
        mods != Mods::Control ==> dashboard_key_spec(DialogKey::Char { c: 'd', mods }, overview_focused, overview_log_shown)
            == DashboardKeyAction::RequestDelete,
        dashboard_key_spec(key, overview_focused, overview_log_shown) == DashboardKeyAction::RequestDelete
            ==> typed_char(key) == Some('d') || typed_char(key) == Some('D'),
        dashboard_key_spec(DialogKey::Char { c: 'n', mods }, overview_focused, overview_log_shown) == DashboardKeyAction::OpenWizard,
        dashboard_key_spec(DialogKey::Tab, overview_focused, overview_log_shown) == DashboardKeyAction::ToggleFocus,
        !overview_focused ==> dashboard_key_spec(DialogKey::Up, overview_focused, overview_log_shown) == DashboardKeyAction::MoveProjectSelection(-1isize)
            && dashboard_key_spec(DialogKey::Down, overview_focused, overview_log_shown) == DashboardKeyAction::MoveProjectSelection(1isize),
        dashboard_key_spec(key, overview_focused, overview_log_shown) == DashboardKeyAction::RenameCommit
            ==> overview_focused && overview_log_shown,
{
}

} // verus!
