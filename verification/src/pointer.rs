//! The mouse pointer: screen rectangles that clicks hit, and the last known
//! pointer position that wheel events (which often report 0,0) fall back on.

use vstd::prelude::*;

verus! {

/// A screen rectangle in terminal cells.
#[derive(Clone, Copy, Debug, PartialEq, Eq, Structural)]
pub struct ScreenRect {
    pub x: u16,
    pub y: u16,
    pub width: u16,
    pub height: u16,
}

impl ScreenRect {
    /// The rectangle lies on the screen: its right and bottom edges fit in `u16`.
    pub open spec fn wf(&self) -> bool {
        self.x + self.width <= u16::MAX && self.y + self.height <= u16::MAX
    }

    pub open spec fn contains_spec(&self, column: int, row: int) -> bool {
        self.x <= column < self.x + self.width && self.y <= row < self.y + self.height
    }
}

/// Whether the cell `(column, row)` lies inside `rect`.
pub fn rect_contains(rect: ScreenRect, column: u16, row: u16) -> (r: bool)
    requires
        rect.wf(),
    ensures
        r == rect.contains_spec(column as int, row as int),
{
    column >= rect.x && column < rect.x + rect.width && row >= rect.y && row < rect.y + rect.height
}

/// A clickable area of the last drawn frame and what a click on it does
/// (`right_action` for a right click, when it differs).
#[derive(Clone)]
pub struct HitTarget<A> {
    pub rect: ScreenRect,
    pub action: A,
    pub right_action: Option<A>,
}

impl<A> HitTarget<A> {
    pub fn new(rect: ScreenRect, action: A) -> (t: Self)
        ensures
            t.rect == rect,
            t.action == action,
            t.right_action is None,
    {
        HitTarget { rect, action, right_action: None }
    }

    pub fn with_right_action(rect: ScreenRect, action: A, right_action: A) -> (t: Self)
        ensures
            t.rect == rect,
            t.action == action,
            t.right_action == Some(right_action),
    {
        HitTarget { rect, action, right_action: Some(right_action) }
    }

    pub fn contains(&self, column: u16, row: u16) -> (r: bool)
        requires
            self.rect.wf(),
        ensures
            r == self.rect.contains_spec(column as int, row as int),
    {
        rect_contains(self.rect, column, row)
    }
}

/// The kinds of mouse event.
#[derive(Clone, Copy, Debug, PartialEq, Eq, Structural)]
pub enum MouseKind {
    Moved,
    Down,
    Up,
    Drag,
    ScrollUp,
    ScrollDown,
    ScrollLeft,
    ScrollRight,
}

pub open spec fn is_scroll(kind: MouseKind) -> bool {
    kind == MouseKind::ScrollUp || kind == MouseKind::ScrollDown
        || kind == MouseKind::ScrollLeft || kind == MouseKind::ScrollRight
}

/// The last position the pointer was seen at.
#[derive(Clone, Copy, Debug, PartialEq, Eq, Structural)]
pub struct PointerTracker {
    pub last_column: u16,
    pub last_row: u16,
    pub has_position: bool,
}

/// The tracker after a mouse event: moves, presses, releases and drags always
/// record their position; wheel events only when it is not (0, 0).
pub open spec fn after_event(t: PointerTracker, kind: MouseKind, column: u16, row: u16) -> PointerTracker {
    if !is_scroll(kind) || column != 0 || row != 0 {
        PointerTracker { last_column: column, last_row: row, has_position: true }
    } else {
        t
    }
}

/// Where a wheel event at `(column, row)` points: its own position unless it
/// reports (0, 0) and an earlier position is known.
pub open spec fn wheel_position(t: PointerTracker, column: u16, row: u16) -> (u16, u16) {
    if column != 0 || row != 0 {
        (column, row)
    } else if t.has_position {
        (t.last_column, t.last_row)
    } else {
        (column, row)
    }
}

impl PointerTracker {
    pub fn new() -> (t: Self)
        ensures
            t == (PointerTracker { last_column: 0, last_row: 0, has_position: false }),
    {
        PointerTracker { last_column: 0, last_row: 0, has_position: false }
    }

    /// Records where a mouse event happened.
    pub fn update(&mut self, kind: MouseKind, column: u16, row: u16)
        ensures
            *final(self) == after_event(*old(self), kind, column, row),
    {
        match kind {
            MouseKind::Moved | MouseKind::Down | MouseKind::Up | MouseKind::Drag => {
                self.last_column = column;
                self.last_row = row;
                self.has_position = true;
            },
            _ => {
                if column != 0 || row != 0 {
                    self.last_column = column;
                    self.last_row = row;
                    self.has_position = true;
                }
            },
        }
    }

    /// Where a wheel event at `(column, row)` points.
    pub fn position_for_wheel(&self, column: u16, row: u16) -> (p: (u16, u16))
        ensures
            p == wheel_position(*self, column, row),
    {
        if column != 0 || row != 0 {
            (column, row)
        } else if self.has_position {
            (self.last_column, self.last_row)
        } else {
            (column, row)
        }
    }
}

/// After any event that reports a position, a wheel event at (0, 0) points
/// where that event did; a wheel event that reports its own position points
/// there whatever came before.
pub proof fn law_wheel_falls_back_on_last_position(t: PointerTracker, kind: MouseKind, column: u16, row: u16)
    ensures
        (!is_scroll(kind) || column != 0 || row != 0) ==> wheel_position(after_event(t, kind, column, row), 0, 0) == (column, row),
        (column != 0 || row != 0) ==> wheel_position(t, column, row) == (column, row),
{
}

/// Which dialog a clickable action belongs to, for the modal filter.
#[derive(Clone, Copy, Debug, PartialEq, Eq, Structural)]
pub enum ActionGroup {
    /// Picking an entry in the file browser.
    BrowserSelect,
    /// Confirming or cancelling a delete request.
    DeleteRequest,
    /// The overview bump-kind dialog's choices and buttons.
    OverviewBumpKind,
    /// The recent-changes dialog's tabs, scope cycling, lines, scrolling,
    /// closing, and opening the tag dialog from it.
    RecentChanges,
    /// The commit-rename dialog's field and buttons.
    CommitRename,
    /// The release-notes editor's field and buttons.
    ReleaseNowNotes,
    /// The Top Picks editor's field and buttons.
    TopPicks,
    /// The Release-NOW dialog's controls.
    ReleaseNow,
    /// The standard-changelog sub-branch dialog's choices.
    StdChangelogSubBranch,
    /// The project editor's fields and buttons.
    ProjectEdit,
    /// Anything else.
    Other,
}

/// Which dialogs are open, as far as clicks are concerned.
#[derive(Clone, Copy, Debug, PartialEq, Eq, Structural)]
pub struct ModalState {
    pub browser: bool,
    pub delete_confirmation: bool,
    pub overview_bump_kind: bool,
    pub recent_changes: bool,
    pub commit_rename: bool,
    pub tag: bool,
    pub tag_annotation: bool,
    pub release_now_notes: bool,
    pub top_picks_editor: bool,
    pub release_now: bool,
    pub std_changelog_sub_branch: bool,
    pub project_edit: bool,
}

/// Whether an action of `group` may be clicked with these dialogs open: the
/// file browser takes only its own picks; every other open dialog only its
/// own controls (the recent-changes dialog while nothing is opened over it,
/// the Release-NOW dialog while its notes editor is closed).
pub open spec fn modal_allows(m: ModalState, group: ActionGroup) -> bool {
    if m.browser {
        group == ActionGroup::BrowserSelect
    } else {
        &&& (m.delete_confirmation ==> group == ActionGroup::DeleteRequest)
        &&& (m.overview_bump_kind ==> group == ActionGroup::OverviewBumpKind)
        &&& (m.recent_changes && !m.commit_rename && !m.tag && !m.tag_annotation ==> group == ActionGroup::RecentChanges)
        &&& (m.commit_rename ==> group == ActionGroup::CommitRename)
        &&& (m.release_now_notes ==> group == ActionGroup::ReleaseNowNotes)
        &&& (m.top_picks_editor ==> group == ActionGroup::TopPicks)
        &&& (m.release_now && !m.release_now_notes ==> group == ActionGroup::ReleaseNow)
        &&& (m.std_changelog_sub_branch ==> group == ActionGroup::StdChangelogSubBranch)
        &&& (m.project_edit ==> group == ActionGroup::ProjectEdit)
    }
}

fn allows(m: ModalState, group: ActionGroup) -> (r: bool)
    ensures
        r == modal_allows(m, group),
{
    if m.browser {
        return group == ActionGroup::BrowserSelect;
    }
    (!m.delete_confirmation || group == ActionGroup::DeleteRequest)
        && (!m.overview_bump_kind || group == ActionGroup::OverviewBumpKind)
        && (!(m.recent_changes && !m.commit_rename && !m.tag && !m.tag_annotation) || group == ActionGroup::RecentChanges)
        && (!m.commit_rename || group == ActionGroup::CommitRename)
        && (!m.release_now_notes || group == ActionGroup::ReleaseNowNotes)
        && (!m.top_picks_editor || group == ActionGroup::TopPicks)
        && (!(m.release_now && !m.release_now_notes) || group == ActionGroup::ReleaseNow)
        && (!m.std_changelog_sub_branch || group == ActionGroup::StdChangelogSubBranch)
        && (!m.project_edit || group == ActionGroup::ProjectEdit)
}

/// The groups of a target's left-click action and (if any) right-click action.
#[derive(Clone, Copy, Debug, PartialEq, Eq, Structural)]
pub struct TargetGroups {
    pub left: ActionGroup,
    pub right: Option<ActionGroup>,
}

/// Target `i` can take the click: it contains the point, has an action for
/// the button, and the open dialogs allow that action.
pub open spec fn eligible<A>(targets: Seq<HitTarget<A>>, groups: Seq<TargetGroups>, m: ModalState, column: u16, row: u16, right_click: bool, i: int) -> bool {
    &&& 0 <= i < targets.len()
    &&& targets[i].rect.contains_spec(column as int, row as int)
    &&& if right_click {
        groups[i].right matches Some(g) && modal_allows(m, g)
    } else {
        modal_allows(m, groups[i].left)
    }
}

pub open spec fn area(r: ScreenRect) -> int {
    r.width * r.height
}

/// Target `i` wins over target `j`: it is smaller, or as small and drawn later.
pub open spec fn wins_over<A>(targets: Seq<HitTarget<A>>, i: int, j: int) -> bool {
    area(targets[i].rect) < area(targets[j].rect)
        || (area(targets[i].rect) == area(targets[j].rect) && i > j)
}

/// The target a click at `(column, row)` goes to: of the targets that can
/// take it, the smallest, and of equally small ones the last drawn.
pub fn resolve_hit_target<A>(
    targets: &Vec<HitTarget<A>>,
    groups: &Vec<TargetGroups>,
    modals: ModalState,
    column: u16,
    row: u16,
    right_click: bool,
) -> (r: Option<usize>)
    requires
        groups@.len() == targets@.len(),
        forall|i: int| 0 <= i < targets@.len() ==> (#[trigger] targets@[i]).rect.wf(),
    ensures
        r is None <==> forall|j: int| !eligible(targets@, groups@, modals, column, row, right_click, j),
        r matches Some(i) ==> {
            &&& eligible(targets@, groups@, modals, column, row, right_click, i as int)
            &&& forall|j: int| j != i && #[trigger] eligible(targets@, groups@, modals, column, row, right_click, j)
                ==> wins_over(targets@, i as int, j)
        },
{
    let mut best: Option<usize> = None;
    let mut best_area: u32 = 0;
    let mut i: usize = 0;
    while i < targets.len()
        invariant
            i <= targets@.len(),
            groups@.len() == targets@.len(),
            forall|k: int| 0 <= k < targets@.len() ==> (#[trigger] targets@[k]).rect.wf(),
            best is None ==> forall|j: int| 0 <= j < i ==> !eligible(targets@, groups@, modals, column, row, right_click, j),
            best matches Some(b) ==> {
                &&& b < i
                &&& eligible(targets@, groups@, modals, column, row, right_click, b as int)
                &&& best_area == area(targets@[b as int].rect)
                &&& forall|j: int| 0 <= j < i && j != b && #[trigger] eligible(targets@, groups@, modals, column, row, right_click, j)
                    ==> wins_over(targets@, b as int, j)
            },
        decreases targets.len() - i,
    {
        let target = &targets[i];
        let hit = target.contains(column, row);
        let group_ok = if right_click {
            match groups[i].right {
                Some(g) => allows(modals, g),
                None => false,
            }
        } else {
            allows(modals, groups[i].left)
        };
        if hit && group_ok {
            let w = target.rect.width as u32;
            let h = target.rect.height as u32;
            assert(w * h <= 0xffff * 0xffff) by (nonlinear_arith)
                requires w <= 0xffff, h <= 0xffff;
            let a: u32 = w * h;
            assert(a == area(targets@[i as int].rect));
            match best {
                None => {
                    best = Some(i);
                    best_area = a;
                },
                Some(b) => {
                    if a <= best_area {
                        best = Some(i);
                        best_area = a;
                    }
                },
            }
        }
        i = i + 1;
    }
    best
}

} // verus!
