//! Which part of the dashboard gets a key: the open dialog that comes first in
//! the dashboard's order, and when `q` quits.

use vstd::prelude::*;
use crate::help::{DashboardPane, OverviewTab, Screen};

verus! {

/// The dialogs that are open.
#[derive(Clone, Copy, Debug, PartialEq, Eq, Structural)]
pub struct OpenDialogs {
    pub progress: bool,
    pub snif: bool,
    pub browser: bool,
    pub release_now_notes: bool,
    pub top_picks_editor: bool,
    pub release_now: bool,
    pub delete_confirmation: bool,
    pub commit_rename: bool,
    pub project_edit: bool,
    pub tag_annotation: bool,
    pub main_branch_warning: bool,
    pub std_changelog_sub_branch: bool,
    pub tag: bool,
    pub changelog_preview: bool,
    pub recent_changes: bool,
    pub overview_bump_warning: bool,
    pub overview_bump_kind: bool,
    pub overview_branch_bump: bool,
    pub overview_bump_workflow: bool,
    pub bump: bool,
}

/// Where a key goes when a dialog is open.
#[derive(Clone, Copy, Debug, PartialEq, Eq, Structural)]
pub enum DialogRoute {
    /// No dialog is open: the key goes on to the screen.
    NoDialog,
    /// A progress dialog swallows every key.
    Swallowed,
    Snif,
    Browser,
    ReleaseNowNotes,
    TopPicksEditor,
    ReleaseNow,
    DeleteConfirmation,
    CommitRename,
    ProjectEdit,
    TagAnnotation,
    MainBranchWarning,
    StdChangelogSubBranch,
    Tag,
    ChangelogPreview,
    RecentChanges,
    OverviewBumpWarning,
    OverviewBumpKind,
    OverviewBranchBump,
    OverviewBumpWorkflow,
    Bump,
}

/// The dialog a key goes to: the first open one in this order.
pub open spec fn dialog_route_spec(d: OpenDialogs) -> DialogRoute {
    if d.progress { DialogRoute::Swallowed }
    else if d.snif { DialogRoute::Snif }
    else if d.browser { DialogRoute::Browser }
    else if d.release_now_notes { DialogRoute::ReleaseNowNotes }
    else if d.top_picks_editor { DialogRoute::TopPicksEditor }
    else if d.release_now { DialogRoute::ReleaseNow }
    else if d.delete_confirmation { DialogRoute::DeleteConfirmation }
    else if d.commit_rename { DialogRoute::CommitRename }
    else if d.project_edit { DialogRoute::ProjectEdit }
    else if d.tag_annotation { DialogRoute::TagAnnotation }
    else if d.main_branch_warning { DialogRoute::MainBranchWarning }
    else if d.std_changelog_sub_branch { DialogRoute::StdChangelogSubBranch }
    else if d.tag { DialogRoute::Tag }
    else if d.changelog_preview { DialogRoute::ChangelogPreview }
    else if d.recent_changes { DialogRoute::RecentChanges }
    else if d.overview_bump_warning { DialogRoute::OverviewBumpWarning }
    else if d.overview_bump_kind { DialogRoute::OverviewBumpKind }
    else if d.overview_branch_bump { DialogRoute::OverviewBranchBump }
    else if d.overview_bump_workflow { DialogRoute::OverviewBumpWorkflow }
    else if d.bump { DialogRoute::Bump }
    else { DialogRoute::NoDialog }
}

/// The dialog that gets a key (after paste, toasts and help had their turn).
pub fn dialog_key_route(d: OpenDialogs) -> (r: DialogRoute)
    ensures
        r == dialog_route_spec(d),
{
    if d.progress { DialogRoute::Swallowed }
    else if d.snif { DialogRoute::Snif }
    else if d.browser { DialogRoute::Browser }
    else if d.release_now_notes { DialogRoute::ReleaseNowNotes }
    else if d.top_picks_editor { DialogRoute::TopPicksEditor }
    else if d.release_now { DialogRoute::ReleaseNow }
    else if d.delete_confirmation { DialogRoute::DeleteConfirmation }
    else if d.commit_rename { DialogRoute::CommitRename }
    else if d.project_edit { DialogRoute::ProjectEdit }
    else if d.tag_annotation { DialogRoute::TagAnnotation }
    else if d.main_branch_warning { DialogRoute::MainBranchWarning }
    else if d.std_changelog_sub_branch { DialogRoute::StdChangelogSubBranch }
    else if d.tag { DialogRoute::Tag }
    else if d.changelog_preview { DialogRoute::ChangelogPreview }
    else if d.recent_changes { DialogRoute::RecentChanges }
    else if d.overview_bump_warning { DialogRoute::OverviewBumpWarning }
    else if d.overview_bump_kind { DialogRoute::OverviewBumpKind }
    else if d.overview_branch_bump { DialogRoute::OverviewBranchBump }
    else if d.overview_bump_workflow { DialogRoute::OverviewBumpWorkflow }
    else if d.bump { DialogRoute::Bump }
    else { DialogRoute::NoDialog }
}

/// What is known of a key and of the dashboard when the key comes in.
#[derive(Clone, Copy, Debug, PartialEq, Eq, Structural)]
pub struct KeyFacts {
    /// Control-V.
    pub ctrl_v: bool,
    /// A toast's shortcut took the key.
    pub toast_took_key: bool,
    pub help_open: bool,
    /// The open help answers the key by closing (its own keys decide).
    pub help_closes: bool,
    pub dialogs: OpenDialogs,
    /// The Project Settings pane is in view and a text field of it takes keys.
    pub settings_captures_text: bool,
    /// The key is a tab shortcut that applies where the dashboard stands.
    pub tab_shortcut_applies: bool,
    /// A plain `?`, and whether a text field blocks help.
    pub plain_question_mark: bool,
    pub help_blocked: bool,
    /// A plain `h` or `H`.
    pub plain_h: bool,
    /// A plain `q`.
    pub plain_q: bool,
    pub screen: Screen,
    /// The wizard's focused field takes text.
    pub wizard_field_takes_text: bool,
    /// The project editor's focused field takes text.
    pub project_edit_field_takes_text: bool,
}

/// Where a key goes.
#[derive(Clone, Copy, Debug, PartialEq, Eq, Structural)]
pub enum KeyRoute {
    /// Paste from the clipboard.
    Paste,
    /// A toast took it.
    Toast,
    /// The help closes.
    CloseHelp,
    /// The open help keeps the key (it scrolls or ignores it).
    Help,
    /// An open dialog takes it (or the progress dialog swallows it).
    Dialog(DialogRoute),
    /// The Project Settings pane's text field takes it before any shortcut.
    SettingsPane,
    TabShortcut,
    OpenHelp,
    ToggleFooter,
    Quit,
    /// The screen's own keys.
    Screen(Screen),
}

/// The route of a key: clipboard paste, toasts, the open help, the dialogs
/// in their order, a capturing settings field, then the shortcuts, then the
/// screen.
pub open spec fn key_route_spec(k: KeyFacts) -> KeyRoute {
    let on_wizard = k.screen == Screen::Wizard;
    if k.ctrl_v {
        KeyRoute::Paste
    } else if k.toast_took_key {
        KeyRoute::Toast
    } else if k.help_open {
        if k.help_closes { KeyRoute::CloseHelp } else { KeyRoute::Help }
    } else if dialog_route_spec(k.dialogs) != DialogRoute::NoDialog {
        KeyRoute::Dialog(dialog_route_spec(k.dialogs))
    } else if k.settings_captures_text {
        KeyRoute::SettingsPane
    } else if k.tab_shortcut_applies {
        KeyRoute::TabShortcut
    } else if k.plain_question_mark && !k.help_blocked {
        KeyRoute::OpenHelp
    } else if k.plain_h && !(on_wizard && k.wizard_field_takes_text) && !k.project_edit_field_takes_text
        && !k.settings_captures_text {
        KeyRoute::ToggleFooter
    } else if k.plain_q && !(on_wizard && k.wizard_field_takes_text) && !k.project_edit_field_takes_text
        && !k.settings_captures_text {
        KeyRoute::Quit
    } else {
        KeyRoute::Screen(k.screen)
    }
}

/// Routes a key to the part of the dashboard that takes it.
pub fn key_route(k: KeyFacts) -> (r: KeyRoute)
    ensures
        r == key_route_spec(k),
{
    if k.ctrl_v {
        return KeyRoute::Paste;
    }
    if k.toast_took_key {
        return KeyRoute::Toast;
    }
    if k.help_open {
        return if k.help_closes { KeyRoute::CloseHelp } else { KeyRoute::Help };
    }
    let dialog = dialog_key_route(k.dialogs);
    if dialog != DialogRoute::NoDialog {
        return KeyRoute::Dialog(dialog);
    }
    if k.settings_captures_text {
        return KeyRoute::SettingsPane;
    }
    if k.tab_shortcut_applies {
        return KeyRoute::TabShortcut;
    }
    if opens_help(k.plain_question_mark, k.help_blocked) {
        return KeyRoute::OpenHelp;
    }
    let on_wizard = k.screen == Screen::Wizard;
    if toggles_footer(k.plain_h, on_wizard, k.wizard_field_takes_text, k.project_edit_field_takes_text, k.settings_captures_text) {
        return KeyRoute::ToggleFooter;
    }
    if quit_requested(k.plain_q, on_wizard, k.wizard_field_takes_text, k.project_edit_field_takes_text, k.settings_captures_text) {
        return KeyRoute::Quit;
    }
    KeyRoute::Screen(k.screen)
}

/// While help is open it takes every key that paste and toasts leave; a
/// capturing settings field gets its keys before any shortcut, so typing
/// `q`, `h` or `?` there never quits, toggles or opens help.
pub proof fn law_help_and_text_fields_come_before_shortcuts(k: KeyFacts)
    ensures
        k.help_open && !k.ctrl_v && !k.toast_took_key
            ==> (key_route_spec(k) == KeyRoute::CloseHelp || key_route_spec(k) == KeyRoute::Help),
        k.settings_captures_text ==> key_route_spec(k) != KeyRoute::Quit
            && key_route_spec(k) != KeyRoute::ToggleFooter && key_route_spec(k) != KeyRoute::OpenHelp,
{
}

/// A key reaches the screen only when no dialog is open.
pub proof fn law_keys_reach_the_screen_only_without_dialogs(d: OpenDialogs)
    ensures
        dialog_route_spec(d) == DialogRoute::NoDialog <==> !(d.progress || d.snif || d.browser
            || d.release_now_notes || d.top_picks_editor || d.release_now || d.delete_confirmation
            || d.commit_rename || d.project_edit || d.tag_annotation || d.main_branch_warning
            || d.std_changelog_sub_branch || d.tag || d.changelog_preview || d.recent_changes
            || d.overview_bump_warning || d.overview_bump_kind || d.overview_branch_bump
            || d.overview_bump_workflow || d.bump),
{
}

/// Whether a key quits the dashboard: a plain `q`, unless a text field would
/// take it (the wizard's focused field on the wizard screen, the project
/// editor's focused field, or the Project Settings pane's).
pub fn quit_requested(
    plain_q: bool,
    on_wizard: bool,
    wizard_field_takes_text: bool,
    project_edit_field_takes_text: bool,
    settings_field_takes_text: bool,
) -> (r: bool)
    ensures
        r == (plain_q && !(on_wizard && wizard_field_takes_text) && !project_edit_field_takes_text
            && !settings_field_takes_text),
{
    plain_q && !(on_wizard && wizard_field_takes_text) && !project_edit_field_takes_text
        && !settings_field_takes_text
}

/// The editors that can take pasted text.
#[derive(Clone, Copy, Debug, PartialEq, Eq, Structural)]
pub struct PasteTargets {
    pub tag_annotation: bool,
    /// A changelog preview that belongs to a bump workflow (it has a release message).
    pub workflow_changelog_preview: bool,
    pub release_now_notes: bool,
    pub commit_rename: bool,
    pub top_picks_editor: bool,
}

/// Where pasted text goes.
#[derive(Clone, Copy, Debug, PartialEq, Eq, Structural)]
pub enum PasteRoute {
    TagAnnotation,
    ReleaseMessage,
    /// Line by line, each line ended with a new line.
    ReleaseNowNotes,
    /// Line by line, each line ended with a new line.
    CommitMessage,
    /// Line by line, each line ended with a new line.
    TopPicks,
    /// As one line, into the focused text field.
    ActiveField,
}

pub open spec fn paste_route_spec(t: PasteTargets) -> PasteRoute {
    if t.tag_annotation { PasteRoute::TagAnnotation }
    else if t.workflow_changelog_preview { PasteRoute::ReleaseMessage }
    else if t.release_now_notes { PasteRoute::ReleaseNowNotes }
    else if t.commit_rename { PasteRoute::CommitMessage }
    else if t.top_picks_editor { PasteRoute::TopPicks }
    else { PasteRoute::ActiveField }
}

/// The editor pasted text goes to: the first open one in this order, else
/// the focused text field.
pub fn paste_route(t: PasteTargets) -> (r: PasteRoute)
    ensures
        r == paste_route_spec(t),
{
    if t.tag_annotation { PasteRoute::TagAnnotation }
    else if t.workflow_changelog_preview { PasteRoute::ReleaseMessage }
    else if t.release_now_notes { PasteRoute::ReleaseNowNotes }
    else if t.commit_rename { PasteRoute::CommitMessage }
    else if t.top_picks_editor { PasteRoute::TopPicks }
    else { PasteRoute::ActiveField }
}

pub open spec fn paste_status_spec(r: PasteRoute) -> Seq<char> {
    match r {
        PasteRoute::TagAnnotation => "Pasted into the tag annotation."@,
        PasteRoute::ReleaseMessage | PasteRoute::ReleaseNowNotes => "Pasted into the release notes."@,
        PasteRoute::CommitMessage => "Pasted into the commit message."@,
        PasteRoute::TopPicks => "Pasted into the Top Picks editor."@,
        PasteRoute::ActiveField => "Pasted into the active field."@,
    }
}

/// The status line after pasting along `r` (for the active field, once the
/// text went in).
pub fn paste_status(r: PasteRoute) -> (s: &'static str)
    ensures
        s@ == paste_status_spec(r),
{
    match r {
        PasteRoute::TagAnnotation => "Pasted into the tag annotation.",
        PasteRoute::ReleaseMessage | PasteRoute::ReleaseNowNotes => "Pasted into the release notes.",
        PasteRoute::CommitMessage => "Pasted into the commit message.",
        PasteRoute::TopPicks => "Pasted into the Top Picks editor.",
        PasteRoute::ActiveField => "Pasted into the active field.",
    }
}

/// Where a digit (or `s`) shortcut leads.
#[derive(Clone, Copy, Debug, PartialEq, Eq, Structural)]
pub enum ShortcutTarget {
    OverviewTab(OverviewTab),
    /// The dashboard, with the project list focused.
    Dashboard,
    Wizard,
    UiSettings,
}

pub open spec fn tab_shortcut_spec(
    key: Option<char>,
    wizard_takes_text: bool,
    screen: Screen,
    pane: DashboardPane,
    overview_tabs: Seq<OverviewTab>,
) -> Option<ShortcutTarget> {
    match key {
        None => None,
        Some(c) => if screen == Screen::Wizard && wizard_takes_text {
            None
        } else if screen == Screen::Dashboard && pane == DashboardPane::Overview
            && '1' <= c <= '4' && (c as int) - ('1' as int) < overview_tabs.len() {
            Some(ShortcutTarget::OverviewTab(overview_tabs[(c as int) - ('1' as int)]))
        } else if c == '1' {
            Some(ShortcutTarget::Dashboard)
        } else if c == '2' {
            Some(ShortcutTarget::Wizard)
        } else if c == '3' || c == 's' || c == 'S' {
            Some(ShortcutTarget::UiSettings)
        } else {
            None
        },
    }
}

/// The shortcut a plain character key (`key`, `None` for any other key or
/// one with modifiers) stands for: with the overview focused, `1`..`4` pick
/// its tabs (`overview_tabs`, in order); otherwise `1`, `2` and `3`/`s` open
/// the dashboard, the wizard and the UI settings. A wizard field that takes
/// text keeps its keys.
pub fn tab_shortcut(
    key: Option<char>,
    wizard_takes_text: bool,
    screen: Screen,
    pane: DashboardPane,
    overview_tabs: &Vec<OverviewTab>,
) -> (r: Option<ShortcutTarget>)
    ensures
        r == tab_shortcut_spec(key, wizard_takes_text, screen, pane, overview_tabs@),
{
    let c = match key {
        Some(c) => c,
        None => return None,
    };
    if screen == Screen::Wizard && wizard_takes_text {
        return None;
    }
    if screen == Screen::Dashboard && pane == DashboardPane::Overview && c >= '1' && c <= '4' {
        let index = (c as u32 - '1' as u32) as usize;
        if index < overview_tabs.len() {
            return Some(ShortcutTarget::OverviewTab(overview_tabs[index]));
        }
    }
    if c == '1' {
        Some(ShortcutTarget::Dashboard)
    } else if c == '2' {
        Some(ShortcutTarget::Wizard)
    } else if c == '3' || c == 's' || c == 'S' {
        Some(ShortcutTarget::UiSettings)
    } else {
        None
    }
}

/// Whether a key opens the context help: a plain `?` while no text field
/// blocks it.
pub fn opens_help(plain_question_mark: bool, blocked_by_text_input: bool) -> (r: bool)
    ensures
        r == (plain_question_mark && !blocked_by_text_input),
{
    plain_question_mark && !blocked_by_text_input
}

/// Whether a key toggles the footer: a plain `h`/`H`, unless a text field
/// would take it (the wizard's on the wizard screen, the project editor's,
/// or the Project Settings pane's).
pub fn toggles_footer(
    plain_h: bool,
    on_wizard: bool,
    wizard_field_takes_text: bool,
    project_edit_field_takes_text: bool,
    settings_field_takes_text: bool,
) -> (r: bool)
    ensures
        r == (plain_h && !(on_wizard && wizard_field_takes_text) && !project_edit_field_takes_text
            && !settings_field_takes_text),
{
    plain_h && !(on_wizard && wizard_field_takes_text) && !project_edit_field_takes_text
        && !settings_field_takes_text
}

/// No dialog at all is open.
pub open spec fn no_dialog_open(d: OpenDialogs) -> bool {
    !(d.progress || d.snif || d.browser || d.release_now_notes || d.top_picks_editor || d.release_now
        || d.delete_confirmation || d.commit_rename || d.project_edit || d.tag_annotation
        || d.main_branch_warning || d.std_changelog_sub_branch || d.tag || d.changelog_preview
        || d.recent_changes || d.overview_bump_warning || d.overview_bump_kind || d.overview_branch_bump
        || d.overview_bump_workflow || d.bump)
}

/// Nothing takes the key before the shortcuts: no paste, toast, help,
/// dialog, capturing settings field or tab shortcut.
pub open spec fn reaches_shortcuts(k: KeyFacts) -> bool {
    !k.ctrl_v && !k.toast_took_key && !k.help_open && no_dialog_open(k.dialogs) && !k.settings_captures_text
        && !k.tab_shortcut_applies
}

/// A text field that takes text keeps `q` and `h`: on the wizard screen with
/// a focused text field, or with the project editor's text field focused,
/// a key never quits or toggles the footer, and plain `q`/`h` go to the
/// screen instead. The dashboard quits only on a plain `q`, toggles the
/// footer only on a plain `h`, and opens help only on an unblocked `?`;
/// with nothing in the way and no text field focused, a plain `q` quits.
pub proof fn law_text_fields_keep_their_letters(k: KeyFacts)
    ensures
        (k.screen == Screen::Wizard && k.wizard_field_takes_text) || k.project_edit_field_takes_text
            ==> key_route_spec(k) != KeyRoute::Quit && key_route_spec(k) != KeyRoute::ToggleFooter,
        reaches_shortcuts(k) && !k.plain_question_mark && k.screen == Screen::Wizard && k.wizard_field_takes_text
            ==> key_route_spec(k) == KeyRoute::Screen(Screen::Wizard),
        key_route_spec(k) == KeyRoute::Quit ==> k.plain_q,
        key_route_spec(k) == KeyRoute::ToggleFooter ==> k.plain_h,
        key_route_spec(k) == KeyRoute::OpenHelp ==> k.plain_question_mark && !k.help_blocked,
        reaches_shortcuts(k) && k.plain_q && !k.plain_question_mark && !k.plain_h
            && !(k.screen == Screen::Wizard && k.wizard_field_takes_text) && !k.project_edit_field_takes_text
            ==> key_route_spec(k) == KeyRoute::Quit,
        k.ctrl_v ==> key_route_spec(k) == KeyRoute::Paste,
        !k.ctrl_v && !k.toast_took_key && !k.help_open && k.dialogs.progress
            ==> key_route_spec(k) == KeyRoute::Dialog(DialogRoute::Swallowed),
{
}

/// Pasted text goes to an editor only while it is open, to the annotation
/// editor whenever it is open, and to the focused text field exactly when
/// no editor that takes pastes is open.
pub proof fn law_paste_goes_to_an_open_editor(t: PasteTargets)
    ensures
        t.tag_annotation ==> paste_route_spec(t) == PasteRoute::TagAnnotation,
        paste_route_spec(t) == PasteRoute::ActiveField <==> !(t.tag_annotation || t.workflow_changelog_preview
            || t.release_now_notes || t.commit_rename || t.top_picks_editor),
        paste_route_spec(t) == PasteRoute::ReleaseMessage ==> t.workflow_changelog_preview,
        paste_route_spec(t) == PasteRoute::ReleaseNowNotes ==> t.release_now_notes,
        paste_route_spec(t) == PasteRoute::CommitMessage ==> t.commit_rename,
        paste_route_spec(t) == PasteRoute::TopPicks ==> t.top_picks_editor,
{
}

/// A wizard field that takes text keeps every shortcut key; elsewhere `1`,
/// `2` and `3` (or `s`) lead to the dashboard, the wizard and the UI
/// settings, except that with the overview focused the digits pick its tabs
/// in order; no other character is a shortcut.
pub proof fn law_shortcuts(c: char, wizard_takes_text: bool, screen: Screen, pane: DashboardPane, tabs: Seq<OverviewTab>)
    ensures
        screen == Screen::Wizard && wizard_takes_text ==> tab_shortcut_spec(Some(c), wizard_takes_text, screen, pane, tabs) is None,
        tab_shortcut_spec(None, wizard_takes_text, screen, pane, tabs) is None,
        !(screen == Screen::Wizard && wizard_takes_text) && pane == DashboardPane::Projects
            ==> tab_shortcut_spec(Some('1'), wizard_takes_text, screen, pane, tabs) == Some(ShortcutTarget::Dashboard)
                && tab_shortcut_spec(Some('2'), wizard_takes_text, screen, pane, tabs) == Some(ShortcutTarget::Wizard)
                && tab_shortcut_spec(Some('3'), wizard_takes_text, screen, pane, tabs) == Some(ShortcutTarget::UiSettings)
                && tab_shortcut_spec(Some('s'), wizard_takes_text, screen, pane, tabs) == Some(ShortcutTarget::UiSettings),
        screen == Screen::Dashboard && pane == DashboardPane::Overview && tabs.len() >= 2
            ==> tab_shortcut_spec(Some('1'), wizard_takes_text, screen, pane, tabs) == Some(ShortcutTarget::OverviewTab(tabs[0]))
                && tab_shortcut_spec(Some('2'), wizard_takes_text, screen, pane, tabs) == Some(ShortcutTarget::OverviewTab(tabs[1])),
        tab_shortcut_spec(Some(c), wizard_takes_text, screen, pane, tabs) is Some
            ==> ('1' <= c <= '4' || c == 's' || c == 'S'),
{
}

} // verus!
