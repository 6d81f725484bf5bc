//! UI Settings screen: its two tabs, the fields and rows each shows, focus
//! movement, scrolling, and what a key or click asks for.

use vstd::prelude::*;
use crate::layout::wrap_index;
use crate::settings_rows::{max_scroll_spec, min_int, scrolled_by};

verus! {

#[derive(Clone, Copy, Debug, PartialEq, Eq, Structural)]
pub enum UiSettingsTab {
    General,
    Tabs,
}

pub open spec fn ui_tab_index(tab: UiSettingsTab) -> int {
    match tab {
        UiSettingsTab::General => 0,
        UiSettingsTab::Tabs => 1,
    }
}

pub open spec fn ui_tab_at(index: int) -> UiSettingsTab {
    if index == 0 { UiSettingsTab::General } else { UiSettingsTab::Tabs }
}

impl UiSettingsTab {
    pub fn label(self) -> (l: &'static str)
        ensures
            l@ == match self {
                UiSettingsTab::General => "General"@,
                UiSettingsTab::Tabs => "Tabs"@,
            },
    {
        match self {
            UiSettingsTab::General => "General",
            UiSettingsTab::Tabs => "Tabs",
        }
    }

    /// The tab `delta` steps away, wrapping around.
    pub fn step(self, delta: isize) -> (t: Self)
        ensures
            t == ui_tab_at((ui_tab_index(self) + delta) % 2),
    {
        let index: usize = match self {
            UiSettingsTab::General => 0,
            UiSettingsTab::Tabs => 1,
        };
        if wrap_index(index, delta, 2) == 0 { UiSettingsTab::General } else { UiSettingsTab::Tabs }
    }
}

#[derive(Clone, Copy, Debug, PartialEq, Eq, Structural)]
pub enum UiSettingsFocus {
    ShowTabHints,
    HideFooter,
    FooterContent,
    TabSelectionFlashEnabled,
    TabSelectionFlashColor,
}

/// One row of a UI settings tab.
#[derive(Clone, Copy, Debug, PartialEq, Eq, Structural)]
pub enum UiSettingsRow {
    Text,
    Spacer(u16),
    Checkbox(UiSettingsFocus),
    Cycle(UiSettingsFocus),
}

pub open spec fn ui_row_height(row: UiSettingsRow) -> nat {
    match row {
        UiSettingsRow::Text => 1,
        UiSettingsRow::Spacer(lines) => lines as nat,
        UiSettingsRow::Checkbox(_) | UiSettingsRow::Cycle(_) => 2,
    }
}

pub open spec fn ui_row_focus(row: UiSettingsRow) -> Option<UiSettingsFocus> {
    match row {
        UiSettingsRow::Checkbox(f) | UiSettingsRow::Cycle(f) => Some(f),
        _ => None,
    }
}

impl UiSettingsRow {
    pub fn height(self) -> (h: u16)
        ensures
            h == ui_row_height(self),
    {
        match self {
            UiSettingsRow::Text => 1,
            UiSettingsRow::Spacer(lines) => lines,
            UiSettingsRow::Checkbox(_) | UiSettingsRow::Cycle(_) => 2,
        }
    }

    pub fn focus(self) -> (f: Option<UiSettingsFocus>)
        ensures
            f == ui_row_focus(self),
    {
        match self {
            UiSettingsRow::Checkbox(field) | UiSettingsRow::Cycle(field) => Some(field),
            _ => None,
        }
    }
}

/// The fields of a tab, in focus order.
pub open spec fn ui_fields_spec(tab: UiSettingsTab) -> Seq<UiSettingsFocus> {
    match tab {
        UiSettingsTab::General => seq![UiSettingsFocus::ShowTabHints, UiSettingsFocus::HideFooter, UiSettingsFocus::FooterContent],
        UiSettingsTab::Tabs => seq![UiSettingsFocus::TabSelectionFlashEnabled, UiSettingsFocus::TabSelectionFlashColor],
    }
}

/// The rows of a tab.
pub open spec fn ui_rows_spec(tab: UiSettingsTab) -> Seq<UiSettingsRow> {
    match tab {
        UiSettingsTab::General => seq![
            UiSettingsRow::Checkbox(UiSettingsFocus::ShowTabHints),
            UiSettingsRow::Checkbox(UiSettingsFocus::HideFooter),
            UiSettingsRow::Cycle(UiSettingsFocus::FooterContent),
            UiSettingsRow::Spacer(1),
            UiSettingsRow::Text,
        ],
        UiSettingsTab::Tabs => seq![
            UiSettingsRow::Checkbox(UiSettingsFocus::TabSelectionFlashEnabled),
            UiSettingsRow::Cycle(UiSettingsFocus::TabSelectionFlashColor),
            UiSettingsRow::Spacer(1),
            UiSettingsRow::Text,
        ],
    }
}

pub fn build_rows(tab: UiSettingsTab) -> (rows: Vec<UiSettingsRow>)
    ensures
        rows@ == ui_rows_spec(tab),
{
    let rows = match tab {
        UiSettingsTab::General => vec![
            UiSettingsRow::Checkbox(UiSettingsFocus::ShowTabHints),
            UiSettingsRow::Checkbox(UiSettingsFocus::HideFooter),
            UiSettingsRow::Cycle(UiSettingsFocus::FooterContent),
            UiSettingsRow::Spacer(1),
            UiSettingsRow::Text,
        ],
        UiSettingsTab::Tabs => vec![
            UiSettingsRow::Checkbox(UiSettingsFocus::TabSelectionFlashEnabled),
            UiSettingsRow::Cycle(UiSettingsFocus::TabSelectionFlashColor),
            UiSettingsRow::Spacer(1),
            UiSettingsRow::Text,
        ],
    };
    assert(rows@ =~= ui_rows_spec(tab));
    rows
}

/// Total height of a tab's rows: 8 rows on General, 6 on Tabs.
pub open spec fn ui_rows_height(tab: UiSettingsTab) -> nat {
    match tab {
        UiSettingsTab::General => 8,
        UiSettingsTab::Tabs => 6,
    }
}

pub fn total_rows_height(tab: UiSettingsTab) -> (h: u16)
    ensures
        h == ui_rows_height(tab),
{
    let rows = build_rows(tab);
    let mut total: u16 = 0;
    let mut i: usize = 0;
    while i < rows.len()
        invariant
            rows@ == ui_rows_spec(tab),
            i <= rows@.len(),
            total <= 2 * i,
            total == ui_rows_prefix_height(rows@, i as int),
        decreases rows.len() - i,
    {
        total = total + rows[i].height();
        i = i + 1;
    }
    proof {
        reveal_with_fuel(ui_rows_prefix_height, 6);
    }
    total
}

/// Height of the first `k` rows.
pub open spec fn ui_rows_prefix_height(rows: Seq<UiSettingsRow>, k: int) -> nat
    decreases k,
{
    if k <= 0 || rows.len() == 0 {
        0
    } else {
        ui_rows_prefix_height(rows, k - 1) + ui_row_height(rows[k - 1])
    }
}

/// `(top, height)` of the row of `focus`, if the rows hold it.
pub fn focused_row_bounds(rows: &Vec<UiSettingsRow>, focus: UiSettingsFocus) -> (r: Option<(u16, u16)>)
    ensures
        r is None <==> forall|k: int| 0 <= k < rows@.len() ==> ui_row_focus(#[trigger] rows@[k]) != Some(focus),
        r matches Some((top, height)) ==> exists|k: int| {
            &&& 0 <= k < rows@.len()
            &&& ui_row_focus(rows@[k]) == Some(focus)
            &&& forall|j: int| 0 <= j < k ==> ui_row_focus(#[trigger] rows@[j]) != Some(focus)
            &&& top == min_int(ui_rows_prefix_height(rows@, k) as int, u16::MAX as int)
            &&& height == ui_row_height(rows@[k])
        },
{
    let mut top: u16 = 0;
    let mut i: usize = 0;
    while i < rows.len()
        invariant
            i <= rows@.len(),
            forall|j: int| 0 <= j < i ==> ui_row_focus(#[trigger] rows@[j]) != Some(focus),
            top == min_int(ui_rows_prefix_height(rows@, i as int) as int, u16::MAX as int),
        decreases rows.len() - i,
    {
        let height = rows[i].height();
        if rows[i].focus() == Some(focus) {
            return Some((top, height));
        }
        top = top.saturating_add(height);
        i = i + 1;
    }
    None
}

/// The text next to a control.
pub fn checkbox_label(field: UiSettingsFocus) -> (l: &'static str)
    ensures
        l@ == match field {
            UiSettingsFocus::ShowTabHints => "Show tab hints in footer"@,
            UiSettingsFocus::HideFooter => "Hide footer"@,
            UiSettingsFocus::FooterContent => "Footer content alignment"@,
            UiSettingsFocus::TabSelectionFlashEnabled => "Tab selection flash"@,
            UiSettingsFocus::TabSelectionFlashColor => "Flash color"@,
        },
{
    match field {
        UiSettingsFocus::ShowTabHints => "Show tab hints in footer",
        UiSettingsFocus::HideFooter => "Hide footer",
        UiSettingsFocus::FooterContent => "Footer content alignment",
        UiSettingsFocus::TabSelectionFlashEnabled => "Tab selection flash",
        UiSettingsFocus::TabSelectionFlashColor => "Flash color",
    }
}

/// The help line under a tab's controls.
pub fn help_line_for_tab(tab: UiSettingsTab) -> (l: &'static str)
    ensures
        l@ == match tab {
            UiSettingsTab::General => "Footer and tab-hint options apply across the dashboard. Space toggles checkboxes; \u{2190}/\u{2192} cycles alignment."@,
            UiSettingsTab::Tabs => "Tab selection flash highlights the border of a newly selected tab twice. Space toggles; \u{2190}/\u{2192} picks color."@,
        },
{
    match tab {
        UiSettingsTab::General => "Footer and tab-hint options apply across the dashboard. Space toggles checkboxes; \u{2190}/\u{2192} cycles alignment.",
        UiSettingsTab::Tabs => "Tab selection flash highlights the border of a newly selected tab twice. Space toggles; \u{2190}/\u{2192} picks color.",
    }
}

/// The UI settings screen's state.
#[derive(Clone, Copy, Debug, PartialEq, Eq, Structural)]
pub struct UiSettingsState {
    pub tab: UiSettingsTab,
    pub focus: UiSettingsFocus,
    pub scroll: u16,
    pub viewport_height: u16,
    pub follow_focus: bool,
}

/// The index of the focus in `fields`, 0 when absent.
pub open spec fn ui_focus_index(fields: Seq<UiSettingsFocus>, f: UiSettingsFocus) -> int {
    if fields.len() > 0 && fields[0] == f {
        0
    } else if fields.len() > 1 && fields[1] == f {
        1
    } else if fields.len() > 2 && fields[2] == f {
        2
    } else {
        0
    }
}

impl UiSettingsState {
    /// General tab, first field, no scroll, following the focus.
    pub fn new() -> (s: Self)
        ensures
            s == (UiSettingsState {
                tab: UiSettingsTab::General,
                focus: UiSettingsFocus::ShowTabHints,
                scroll: 0,
                viewport_height: 0,
                follow_focus: true,
            }),
    {
        UiSettingsState {
            tab: UiSettingsTab::General,
            focus: UiSettingsFocus::ShowTabHints,
            scroll: 0,
            viewport_height: 0,
            follow_focus: true,
        }
    }

    pub fn visible_fields(&self, tab: UiSettingsTab) -> (f: Vec<UiSettingsFocus>)
        ensures
            f@ == ui_fields_spec(tab),
    {
        let fields = match tab {
            UiSettingsTab::General => vec![UiSettingsFocus::ShowTabHints, UiSettingsFocus::HideFooter, UiSettingsFocus::FooterContent],
            UiSettingsTab::Tabs => vec![UiSettingsFocus::TabSelectionFlashEnabled, UiSettingsFocus::TabSelectionFlashColor],
        };
        assert(fields@ =~= ui_fields_spec(tab));
        fields
    }

    fn focus_position(&self) -> (i: usize)
        ensures
            i == ui_focus_index(ui_fields_spec(self.tab), self.focus),
            i < ui_fields_spec(self.tab).len(),
    {
        let fields = self.visible_fields(self.tab);
        if fields[0] == self.focus {
            0
        } else if fields.len() > 1 && fields[1] == self.focus {
            1
        } else if fields.len() > 2 && fields[2] == self.focus {
            2
        } else {
            0
        }
    }

    /// Focuses the next field of the tab (wrapping) and follows it.
    pub fn focus_next(&mut self)
        ensures
            ({
                let fields = ui_fields_spec(old(self).tab);
                *final(self) == (UiSettingsState {
                    focus: fields[(ui_focus_index(fields, old(self).focus) + 1) % (fields.len() as int)],
                    follow_focus: true,
                    ..*old(self)
                })
            }),
    {
        let fields = self.visible_fields(self.tab);
        let index = self.focus_position();
        self.focus = fields[(index + 1) % fields.len()];
        self.follow_focus = true;
    }

    /// Focuses the previous field of the tab (wrapping) and follows it.
    pub fn focus_previous(&mut self)
        ensures
            ({
                let fields = ui_fields_spec(old(self).tab);
                *final(self) == (UiSettingsState {
                    focus: fields[(ui_focus_index(fields, old(self).focus) + fields.len() - 1) % (fields.len() as int)],
                    follow_focus: true,
                    ..*old(self)
                })
            }),
    {
        let fields = self.visible_fields(self.tab);
        let index = self.focus_position();
        let len = fields.len();
        self.focus = fields[(index + len - 1) % len];
        self.follow_focus = true;
    }

    pub fn clamp_scroll(&mut self, total_height: u16, viewport_height: u16)
        ensures
            *final(self) == (UiSettingsState {
                scroll: min_int(old(self).scroll as int, max_scroll_spec(total_height as int, viewport_height as int)) as u16,
                ..*old(self)
            }),
    {
        let max_scroll = if total_height > viewport_height { total_height - viewport_height } else { 0 };
        if self.scroll > max_scroll {
            self.scroll = max_scroll;
        }
    }

    /// Scrolls by `delta` rows and stops following the focus.
    pub fn scroll_by(&mut self, delta: isize, total_height: u16, viewport_height: u16)
        ensures
            *final(self) == (UiSettingsState {
                scroll: scrolled_by(old(self).scroll as int, delta as int, total_height as int, viewport_height as int) as u16,
                follow_focus: false,
                ..*old(self)
            }),
    {
        self.follow_focus = false;
        self.clamp_scroll(total_height, viewport_height);
        let max_scroll = if total_height > viewport_height { total_height - viewport_height } else { 0 };
        let next = if delta < 0 {
            let magnitude: usize = if delta == isize::MIN { (isize::MAX as usize) + 1 } else { (0 - delta) as usize };
            let step: u16 = (magnitude % 65536) as u16;
            self.scroll.saturating_sub(step)
        } else {
            let step: u16 = ((delta as usize) % 65536) as u16;
            let raised = self.scroll.saturating_add(step);
            if raised < max_scroll { raised } else { max_scroll }
        };
        self.scroll = next;
    }

    /// Moves `delta` tabs (wrapping), scrolls to the top and focuses the new
    /// tab's first field.
    pub fn step_tab(&mut self, delta: isize)
        ensures
            ({
                let tab = ui_tab_at((ui_tab_index(old(self).tab) + delta) % 2);
                *final(self) == (UiSettingsState {
                    tab,
                    scroll: 0,
                    follow_focus: true,
                    focus: ui_fields_spec(tab)[0],
                    ..*old(self)
                })
            }),
    {
        self.tab = self.tab.step(delta);
        self.scroll = 0;
        self.follow_focus = true;
        let fields = self.visible_fields(self.tab);
        self.focus = fields[0];
    }
}

/// A key as the UI settings screen sees it.
#[derive(Clone, Copy, Debug, PartialEq, Eq, Structural)]
pub enum UiKey {
    Char { c: char, ctrl: bool },
    Esc,
    PageUp,
    PageDown,
    Tab,
    BackTab,
    Up,
    Down,
    Left,
    Right,
    Enter,
    Other,
}

/// What a control change asks the application to do to its UI configuration.
#[derive(Clone, Copy, Debug, PartialEq, Eq, Structural)]
pub enum UiControlChange {
    ToggleTabHints,
    ToggleFooter,
    CycleFooterContent(i32),
    ToggleTabSelectionFlash,
    CycleTabSelectionFlashColor(i32),
}

/// What a key asks the UI settings screen to do.
#[derive(Clone, Copy, Debug, PartialEq, Eq, Structural)]
pub enum UiKeyAction {
    NotHandled,
    BackToDashboard,
    StepTab(isize),
    OpenWizard,
    Scroll(isize),
    FocusNext,
    FocusPrevious,
    Change(UiControlChange),
    Nothing,
}

/// The change toggling the focused control asks for (`delta` for cycles).
pub open spec fn ui_control_change_spec(focus: UiSettingsFocus, delta: i32) -> UiControlChange {
    match focus {
        UiSettingsFocus::ShowTabHints => UiControlChange::ToggleTabHints,
        UiSettingsFocus::HideFooter => UiControlChange::ToggleFooter,
        UiSettingsFocus::FooterContent => UiControlChange::CycleFooterContent(delta),
        UiSettingsFocus::TabSelectionFlashEnabled => UiControlChange::ToggleTabSelectionFlash,
        UiSettingsFocus::TabSelectionFlashColor => UiControlChange::CycleTabSelectionFlashColor(delta),
    }
}

pub fn ui_control_change(focus: UiSettingsFocus, delta: i32) -> (c: UiControlChange)
    ensures
        c == ui_control_change_spec(focus, delta),
{
    match focus {
        UiSettingsFocus::ShowTabHints => UiControlChange::ToggleTabHints,
        UiSettingsFocus::HideFooter => UiControlChange::ToggleFooter,
        UiSettingsFocus::FooterContent => UiControlChange::CycleFooterContent(delta),
        UiSettingsFocus::TabSelectionFlashEnabled => UiControlChange::ToggleTabSelectionFlash,
        UiSettingsFocus::TabSelectionFlashColor => UiControlChange::CycleTabSelectionFlashColor(delta),
    }
}

pub open spec fn is_cycle_field(f: UiSettingsFocus) -> bool {
    f == UiSettingsFocus::FooterContent || f == UiSettingsFocus::TabSelectionFlashColor
}

/// The action for `key` with the focus on `focus`.
pub open spec fn ui_key_action_spec(key: UiKey, focus: UiSettingsFocus) -> UiKeyAction {
    match key {
        UiKey::Char { c: 's', ctrl: true } => UiKeyAction::BackToDashboard,
        UiKey::Char { c: '[', ctrl: _ } => UiKeyAction::StepTab(-1isize),
        UiKey::Char { c: ']', ctrl: _ } => UiKeyAction::StepTab(1isize),
        UiKey::Esc | UiKey::Char { c: 'd', ctrl: _ } | UiKey::Char { c: 'D', ctrl: _ } => UiKeyAction::BackToDashboard,
        UiKey::Char { c: 'n', ctrl: _ } => UiKeyAction::OpenWizard,
        UiKey::PageUp => UiKeyAction::Scroll(-3isize),
        UiKey::PageDown => UiKeyAction::Scroll(3isize),
        UiKey::Tab | UiKey::Down => UiKeyAction::FocusNext,
        UiKey::BackTab | UiKey::Up => UiKeyAction::FocusPrevious,
        UiKey::Left => if is_cycle_field(focus) { UiKeyAction::Change(ui_control_change_spec(focus, -1i32)) } else { UiKeyAction::Nothing },
        UiKey::Right => if is_cycle_field(focus) { UiKeyAction::Change(ui_control_change_spec(focus, 1i32)) } else { UiKeyAction::Nothing },
        UiKey::Enter | UiKey::Char { c: ' ', ctrl: _ } => UiKeyAction::Change(ui_control_change_spec(focus, 1i32)),
        _ => UiKeyAction::NotHandled,
    }
}

pub fn ui_settings_key_action(key: UiKey, focus: UiSettingsFocus) -> (a: UiKeyAction)
    ensures
        a == ui_key_action_spec(key, focus),
{
    let cycle = focus == UiSettingsFocus::FooterContent || focus == UiSettingsFocus::TabSelectionFlashColor;
    match key {
        UiKey::Char { c: 's', ctrl: true } => UiKeyAction::BackToDashboard,
        UiKey::Char { c: '[', ctrl: _ } => UiKeyAction::StepTab(-1),
        UiKey::Char { c: ']', ctrl: _ } => UiKeyAction::StepTab(1),
        UiKey::Esc | UiKey::Char { c: 'd', ctrl: _ } | UiKey::Char { c: 'D', ctrl: _ } => UiKeyAction::BackToDashboard,
        UiKey::Char { c: 'n', ctrl: _ } => UiKeyAction::OpenWizard,
        UiKey::PageUp => UiKeyAction::Scroll(-3),
        UiKey::PageDown => UiKeyAction::Scroll(3),
        UiKey::Tab | UiKey::Down => UiKeyAction::FocusNext,
        UiKey::BackTab | UiKey::Up => UiKeyAction::FocusPrevious,
        UiKey::Left => if cycle { UiKeyAction::Change(ui_control_change(focus, -1)) } else { UiKeyAction::Nothing },
        UiKey::Right => if cycle { UiKeyAction::Change(ui_control_change(focus, 1)) } else { UiKeyAction::Nothing },
        UiKey::Enter | UiKey::Char { c: ' ', ctrl: _ } => UiKeyAction::Change(ui_control_change(focus, 1)),
        _ => UiKeyAction::NotHandled,
    }
}

/// Scrolls the screen for a PageUp/PageDown: over the tab's rows, in a
/// viewport at least one row high.
pub fn scroll_ui_settings(state: &mut UiSettingsState, delta: isize)
    ensures
        *final(state) == (UiSettingsState {
            scroll: scrolled_by(
                old(state).scroll as int,
                delta as int,
                ui_rows_height(old(state).tab) as int,
                (if old(state).viewport_height > 1 { old(state).viewport_height } else { 1 }) as int,
            ) as u16,
            follow_focus: false,
            ..*old(state)
        }),
{
    let total_height = total_rows_height(state.tab);
    let viewport_height = if state.viewport_height > 1 { state.viewport_height } else { 1 };
    state.scroll_by(delta, total_height, viewport_height);
}

/// Activating a field focuses it and asks for its control's change.
pub fn activate_ui_settings_field(state: &mut UiSettingsState, focus: UiSettingsFocus) -> (c: UiControlChange)
    ensures
        *final(state) == (UiSettingsState { focus, follow_focus: true, ..*old(state) }),
        c == ui_control_change_spec(focus, 1i32),
{
    state.focus = focus;
    state.follow_focus = true;
    ui_control_change(focus, 1)
}

/// The status line after the tab selection flash was switched.
pub fn tab_selection_flash_message(enabled: bool) -> (m: &'static str)
    ensures
        m@ == (if enabled { "Tab selection flash enabled."@ } else { "Tab selection flash disabled."@ }),
{
    if enabled { "Tab selection flash enabled." } else { "Tab selection flash disabled." }
}

/// On the UI settings screen Esc, `d`, `D` and Control-S go back to the
/// dashboard; `[` and `]` step through the tabs; Enter and space change the
/// focused control; Left and Right change only the controls that cycle, in
/// opposite directions; toggles are never cycled by a direction key.
pub proof fn law_ui_settings_keys(focus: UiSettingsFocus, ctrl: bool)
    ensures
        ui_key_action_spec(UiKey::Esc, focus) == UiKeyAction::BackToDashboard,
        ui_key_action_spec(UiKey::Char { c: 'd', ctrl }, focus) == UiKeyAction::BackToDashboard,
        ui_key_action_spec(UiKey::Char { c: 's', ctrl: true }, focus) == UiKeyAction::BackToDashboard,
        ui_key_action_spec(UiKey::Char { c: '[', ctrl }, focus) == UiKeyAction::StepTab(-1isize)
            && ui_key_action_spec(UiKey::Char { c: ']', ctrl }, focus) == UiKeyAction::StepTab(1isize),
        ui_key_action_spec(UiKey::Enter, focus) == UiKeyAction::Change(ui_control_change_spec(focus, 1i32)),
        focus == UiSettingsFocus::FooterContent ==> ui_key_action_spec(UiKey::Left, focus)
            == UiKeyAction::Change(UiControlChange::CycleFooterContent(-1i32))
            && ui_key_action_spec(UiKey::Right, focus) == UiKeyAction::Change(UiControlChange::CycleFooterContent(1i32)),
        focus == UiSettingsFocus::HideFooter ==> ui_key_action_spec(UiKey::Left, focus) == UiKeyAction::Nothing
            && ui_key_action_spec(UiKey::Enter, focus) == UiKeyAction::Change(UiControlChange::ToggleFooter),
        focus == UiSettingsFocus::ShowTabHints ==> ui_key_action_spec(UiKey::Enter, focus) == UiKeyAction::Change(UiControlChange::ToggleTabHints),
{
}

} // verus!
