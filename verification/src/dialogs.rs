//! Selection state of the dashboard's small modal dialogs: pick-one lists
//! (bump kind, bump workflow, branch name for a branch bump) and the
//! three-button warnings (staged extras, not on mainline, sub-branch changelog).

use vstd::prelude::*;
use crate::layout::{clamp_dialog_scroll, clamped_scroll, wrap_index};

verus! {

/// How a project talks to git forges.
#[derive(Clone, Copy, PartialEq, Eq, Debug, Structural)]
pub enum IntegrationMode {
    LocalOnly,
    GitLocalOnly,
    GitHubEnabled,
    GitLabEnabled,
    GitLabGitHubEnabled,
}

/// The index a list selection lands on when `index` is requested among `len` options.
pub open spec fn clamped_choice(index: int, len: int) -> int {
    let last = if len > 0 { len - 1 } else { 0 };
    if index < last { index } else { last }
}

fn clamp_choice(index: usize, len: usize) -> (r: usize)
    ensures
        r == clamped_choice(index as int, len as int),
{
    let last = if len > 0 { len - 1 } else { 0 };
    if index < last { index } else { last }
}

/// The next selection after rotating by `delta` through `len` options.
pub open spec fn rotated_choice(selected: int, delta: int, len: int) -> int {
    if len == 0 { 0 } else { (selected + delta) % len }
}

/// Pick-one list of bump kinds offered for an overview tile.
#[derive(Clone)]
pub struct OverviewBumpKindDialog<A> {
    pub project_name: String,
    pub scope_label: String,
    pub scope_index: usize,
    pub scheme: crate::versions::VersionScheme,
    pub current_version: String,
    pub options: Vec<A>,
    pub selected: usize,
}

impl<A: Copy> OverviewBumpKindDialog<A> {
    pub open spec fn wf(&self) -> bool {
        self.selected < self.options.len() || (self.options.len() == 0 && self.selected == 0)
    }

    /// Opens with the last option (the smallest increment) selected.
    pub fn new(
        project_name: String,
        scope_label: String,
        scope_index: usize,
        scheme: crate::versions::VersionScheme,
        current_version: String,
        options: Vec<A>,
    ) -> (d: Self)
        ensures
            d.wf(),
            d.project_name == project_name,
            d.scope_label == scope_label,
            d.scope_index == scope_index,
            d.scheme == scheme,
            d.current_version == current_version,
            d.options == options,
            d.selected == (if options.len() > 0 { options.len() - 1 } else { 0 }),
    {
        let selected = if options.len() > 0 { options.len() - 1 } else { 0 };
        Self { project_name, scope_label, scope_index, scheme, current_version, options, selected }
    }

    pub fn selected_action(&self) -> (a: A)
        requires
            self.options.len() > 0,
        ensures
            a == self.options@[clamped_choice(self.selected as int, self.options.len() as int)],
    {
        self.options[clamp_choice(self.selected, self.options.len())]
    }

    pub fn select(&mut self, index: usize)
        ensures
            final(self).wf(),
            final(self).selected == clamped_choice(index as int, old(self).options.len() as int),
            final(self).options == old(self).options,
    {
        self.selected = clamp_choice(index, self.options.len());
    }

    pub fn rotate(&mut self, delta: isize)
        ensures
            final(self).wf(),
            final(self).selected == rotated_choice(old(self).selected as int, delta as int, old(self).options.len() as int),
            final(self).options == old(self).options,
    {
        if self.options.len() == 0 {
            self.selected = 0;
            return;
        }
        self.selected = wrap_index(self.selected, delta, self.options.len());
    }
}

/// Pick-one list of what a bump from the overview should also do (commit, push, ...).
#[derive(Clone)]
pub struct OverviewBumpWorkflowDialog<W> {
    pub project_name: String,
    pub scope_label: String,
    pub next_version: String,
    pub scope_index: usize,
    pub options: Vec<W>,
    pub selected: usize,
    pub scroll: usize,
}

impl<W: Copy> OverviewBumpWorkflowDialog<W> {
    pub open spec fn wf(&self) -> bool {
        self.selected < self.options.len() || (self.options.len() == 0 && self.selected == 0)
    }

    /// Opens with the first workflow selected.
    pub fn new(
        project_name: String,
        scope_label: String,
        next_version: String,
        scope_index: usize,
        options: Vec<W>,
    ) -> (d: Self)
        ensures
            d.wf(),
            d.project_name == project_name,
            d.scope_label == scope_label,
            d.next_version == next_version,
            d.scope_index == scope_index,
            d.options == options,
            d.selected == 0,
            d.scroll == 0,
    {
        Self { project_name, scope_label, next_version, scope_index, options, selected: 0, scroll: 0 }
    }

    pub fn selected_workflow(&self) -> (w: W)
        requires
            self.options.len() > 0,
        ensures
            w == self.options@[clamped_choice(self.selected as int, self.options.len() as int)],
    {
        self.options[clamp_choice(self.selected, self.options.len())]
    }

    pub fn select(&mut self, index: usize)
        ensures
            final(self).wf(),
            final(self).selected == clamped_choice(index as int, old(self).options.len() as int),
            final(self).options == old(self).options,
            final(self).scroll == old(self).scroll,
    {
        self.selected = clamp_choice(index, self.options.len());
    }

    pub fn rotate(&mut self, delta: isize)
        ensures
            final(self).wf(),
            final(self).selected == rotated_choice(old(self).selected as int, delta as int, old(self).options.len() as int),
            final(self).options == old(self).options,
            final(self).scroll == old(self).scroll,
    {
        if self.options.len() == 0 {
            self.selected = 0;
            return;
        }
        self.selected = wrap_index(self.selected, delta, self.options.len());
    }

    /// Keeps the selected row inside a window of `visible_rows` rows.
    pub fn clamp_scroll(&mut self, visible_rows: usize)
        ensures
            final(self).scroll == clamped_scroll(old(self).scroll as int, old(self).options.len() as int, visible_rows as int, Some(old(self).selected)),
            final(self).selected == old(self).selected,
            final(self).options == old(self).options,
    {
        let total = self.options.len();
        let selected = self.selected;
        clamp_dialog_scroll(&mut self.scroll, total, visible_rows, Some(selected));
    }
}

/// Pick-one list of branch-name templates for a bump on a new branch, with a
/// free-text part some templates ask for.
#[derive(Clone)]
pub struct OverviewBranchBumpDialog<W, O> {
    pub project_name: String,
    pub scope_label: String,
    pub next_version: String,
    pub scope_index: usize,
    pub workflow: W,
    pub options: Vec<O>,
    pub selected: usize,
    pub branch_name: String,
    pub scroll: u16,
}

impl<W, O> OverviewBranchBumpDialog<W, O> {
    pub open spec fn wf(&self) -> bool {
        self.selected < self.options.len() || (self.options.len() == 0 && self.selected == 0)
    }

    /// Opens on the first template with an empty branch-name input.
    pub fn new(
        project_name: String,
        scope_label: String,
        next_version: String,
        scope_index: usize,
        workflow: W,
        options: Vec<O>,
    ) -> (d: Self)
        ensures
            d.wf(),
            d.project_name == project_name,
            d.scope_label == scope_label,
            d.next_version == next_version,
            d.scope_index == scope_index,
            d.workflow == workflow,
            d.options == options,
            d.selected == 0,
            d.branch_name@ == Seq::<char>::empty(),
            d.scroll == 0,
    {
        Self {
            project_name,
            scope_label,
            next_version,
            scope_index,
            workflow,
            options,
            selected: 0,
            branch_name: String::new(),
            scroll: 0,
        }
    }

    pub fn selected_option(&self) -> (o: &O)
        requires
            self.options.len() > 0,
        ensures
            *o == self.options@[clamped_choice(self.selected as int, self.options.len() as int)],
    {
        &self.options[clamp_choice(self.selected, self.options.len())]
    }

    pub fn select(&mut self, index: usize)
        ensures
            final(self).wf(),
            final(self).selected == clamped_choice(index as int, old(self).options.len() as int),
            final(self).options == old(self).options,
            final(self).branch_name == old(self).branch_name,
            final(self).scroll == old(self).scroll,
    {
        self.selected = clamp_choice(index, self.options.len());
    }

    pub fn rotate(&mut self, delta: isize)
        ensures
            final(self).wf(),
            final(self).selected == rotated_choice(old(self).selected as int, delta as int, old(self).options.len() as int),
            final(self).options == old(self).options,
            final(self).branch_name == old(self).branch_name,
            final(self).scroll == old(self).scroll,
    {
        if self.options.len() == 0 {
            self.selected = 0;
            return;
        }
        self.selected = wrap_index(self.selected, delta, self.options.len());
    }

    /// Scrolls the preview by `delta` lines, saturating at both ends.
    pub fn scroll_by(&mut self, delta: i16)
        ensures
            final(self).scroll == (if old(self).scroll + delta < 0 {
                0
            } else if old(self).scroll + delta > u16::MAX {
                u16::MAX as int
            } else {
                old(self).scroll + delta
            }),
            final(self).selected == old(self).selected,
            final(self).options == old(self).options,
            final(self).branch_name == old(self).branch_name,
    {
        let next: i32 = self.scroll as i32 + delta as i32;
        self.scroll = if next < 0 {
            0
        } else if next > u16::MAX as i32 {
            u16::MAX
        } else {
            next as u16
        };
    }
}

/// What to do about unexpected staged files before an overview bump.
#[derive(Clone, Copy, PartialEq, Eq, Debug, Structural)]
pub enum OverviewBumpWarningChoice {
    Continue,
    UnstageExtras,
    Cancel,
}

/// What to do when a bump is requested off the mainline branch.
#[derive(Clone, Copy, PartialEq, Eq, Debug, Structural)]
pub enum MainBranchWarningChoice {
    SwitchToMain,
    IgnoreAndContinue,
    Cancel,
}

/// What to do with the standard changelog of a tag made on a sub-branch.
#[derive(Clone, Copy, PartialEq, Eq, Debug, Structural)]
pub enum StdChangelogSubBranchChoice {
    GenerateNow,
    Postpone,
    Cancel,
}

/// Which bump the main-branch warning interrupted.
#[derive(Clone, Copy, PartialEq, Eq, Debug, Structural)]
pub enum PendingBumpAction {
    Standard,
    OverviewWorkflow { scope_index: usize },
}

/// The choice after rotating by `delta` through the three buttons.
pub open spec fn rotated_button(selected: int, delta: int) -> int {
    (selected + delta) % 3
}

pub open spec fn clamped_button(index: int) -> int {
    if index < 2 { index } else { 2 }
}

fn clamp_button(index: usize) -> (r: usize)
    ensures
        r == clamped_button(index as int),
{
    if index < 2 { index } else { 2 }
}

/// Warning shown when repositories hold staged files the overview bump did not stage.
#[derive(Clone)]
pub struct OverviewBumpWarningDialog<W, R> {
    pub scope_index: usize,
    pub workflow: W,
    pub repos: Vec<R>,
    pub selected: usize,
}

impl<W, R> OverviewBumpWarningDialog<W, R> {
    /// Opens with "unstage extras" selected.
    pub fn new(scope_index: usize, workflow: W, repos: Vec<R>) -> (d: Self)
        ensures
            d.scope_index == scope_index,
            d.workflow == workflow,
            d.repos == repos,
            d.selected == 1,
    {
        Self { scope_index, workflow, repos, selected: 1 }
    }

    pub fn select(&mut self, index: usize)
        ensures
            final(self).selected == clamped_button(index as int),
            final(self).repos == old(self).repos,
    {
        self.selected = clamp_button(index);
    }

    pub fn rotate(&mut self, delta: isize)
        ensures
            final(self).selected == rotated_button(old(self).selected as int, delta as int),
            final(self).repos == old(self).repos,
    {
        self.selected = wrap_index(self.selected, delta, 3);
    }

    pub fn selected_choice(&self) -> (c: OverviewBumpWarningChoice)
        ensures
            c == (if self.selected == 0 {
                OverviewBumpWarningChoice::Continue
            } else if self.selected == 1 {
                OverviewBumpWarningChoice::UnstageExtras
            } else {
                OverviewBumpWarningChoice::Cancel
            }),
    {
        match self.selected {
            0 => OverviewBumpWarningChoice::Continue,
            1 => OverviewBumpWarningChoice::UnstageExtras,
            _ => OverviewBumpWarningChoice::Cancel,
        }
    }
}

/// Warning shown when a bump is requested while some repository is off mainline.
#[derive(Clone)]
pub struct MainBranchWarningDialog<R> {
    pub integration_mode: IntegrationMode,
    pub repos: Vec<R>,
    pub pending_action: PendingBumpAction,
    pub selected: usize,
}

impl<R> MainBranchWarningDialog<R> {
    /// Opens with "switch to mainline" selected.
    pub fn new(integration_mode: IntegrationMode, repos: Vec<R>, pending_action: PendingBumpAction) -> (d: Self)
        ensures
            d.integration_mode == integration_mode,
            d.repos == repos,
            d.pending_action == pending_action,
            d.selected == 0,
    {
        Self { integration_mode, repos, pending_action, selected: 0 }
    }

    /// The label of the first button: with a forge the switch also syncs.
    pub fn switch_label(&self) -> (l: &'static str)
        ensures
            l@ == match self.integration_mode {
                IntegrationMode::GitHubEnabled | IntegrationMode::GitLabEnabled
                | IntegrationMode::GitLabGitHubEnabled => "Switch to mainline & Sync & Bump"@,
                IntegrationMode::GitLocalOnly => "Switch to mainline & Bump"@,
                IntegrationMode::LocalOnly => "Continue"@,
            },
    {
        match self.integration_mode {
            IntegrationMode::GitHubEnabled
            | IntegrationMode::GitLabEnabled
            | IntegrationMode::GitLabGitHubEnabled => "Switch to mainline & Sync & Bump",
            IntegrationMode::GitLocalOnly => "Switch to mainline & Bump",
            IntegrationMode::LocalOnly => "Continue",
        }
    }

    pub fn select(&mut self, index: usize)
        ensures
            final(self).selected == clamped_button(index as int),
            final(self).repos == old(self).repos,
            final(self).pending_action == old(self).pending_action,
    {
        self.selected = clamp_button(index);
    }

    pub fn rotate(&mut self, delta: isize)
        ensures
            final(self).selected == rotated_button(old(self).selected as int, delta as int),
            final(self).repos == old(self).repos,
            final(self).pending_action == old(self).pending_action,
    {
        self.selected = wrap_index(self.selected, delta, 3);
    }

    pub fn selected_choice(&self) -> (c: MainBranchWarningChoice)
        ensures
            c == (if self.selected == 0 {
                MainBranchWarningChoice::SwitchToMain
            } else if self.selected == 1 {
                MainBranchWarningChoice::IgnoreAndContinue
            } else {
                MainBranchWarningChoice::Cancel
            }),
    {
        match self.selected {
            0 => MainBranchWarningChoice::SwitchToMain,
            1 => MainBranchWarningChoice::IgnoreAndContinue,
            _ => MainBranchWarningChoice::Cancel,
        }
    }
}

/// Asks what to do with the standard changelog of a tag created on a sub-branch.
#[derive(Clone)]
pub struct StdChangelogSubBranchDialog<P> {
    pub pending_request: P,
    pub previous_tag: String,
    pub branch_name: String,
    pub selected: usize,
}

impl<P> StdChangelogSubBranchDialog<P> {
    /// Opens with "postpone" selected.
    pub fn new(pending_request: P, previous_tag: String, branch_name: String) -> (d: Self)
        ensures
            d.pending_request == pending_request,
            d.previous_tag == previous_tag,
            d.branch_name == branch_name,
            d.selected == 1,
    {
        Self { pending_request, previous_tag, branch_name, selected: 1 }
    }

    pub fn select(&mut self, index: usize)
        ensures
            final(self).selected == clamped_button(index as int),
            final(self).pending_request == old(self).pending_request,
    {
        self.selected = clamp_button(index);
    }

    pub fn rotate(&mut self, delta: isize)
        ensures
            final(self).selected == rotated_button(old(self).selected as int, delta as int),
            final(self).pending_request == old(self).pending_request,
    {
        self.selected = wrap_index(self.selected, delta, 3);
    }

    pub fn selected_choice(&self) -> (c: StdChangelogSubBranchChoice)
        ensures
            c == (if self.selected == 0 {
                StdChangelogSubBranchChoice::GenerateNow
            } else if self.selected == 1 {
                StdChangelogSubBranchChoice::Postpone
            } else {
                StdChangelogSubBranchChoice::Cancel
            }),
    {
        match self.selected {
            0 => StdChangelogSubBranchChoice::GenerateNow,
            1 => StdChangelogSubBranchChoice::Postpone,
            _ => StdChangelogSubBranchChoice::Cancel,
        }
    }
}

/// A three-button dialog always has a button selected after `rotate`.
pub proof fn law_rotated_button_in_range(selected: int, delta: int)
    ensures
        0 <= rotated_button(selected, delta) < 3,
{
}

/// A list selection rotated by `delta` and back by `-delta` is where it started.
pub proof fn law_rotate_round_trip(selected: int, delta: int, len: int)
    requires
        0 <= selected < len,
    ensures
        rotated_choice(rotated_choice(selected, delta, len), -delta, len) == selected,
{
    crate::layout::law_wrap_index_round_trip(selected, delta, len);
}

} // verus!
