//! Which layer of the dashboard a mouse event goes to, and what that layer
//! does with it: overlays and modal dialogs take events in a fixed order of
//! precedence, and only what none of them takes reaches the screen below.

use vstd::prelude::*;

verus! {

/// A mouse event, by button and kind.
#[derive(Clone, Copy, Debug, PartialEq, Eq, Structural)]
pub enum MouseInput {
    LeftDown,
    LeftDrag,
    LeftUp,
    RightDown,
    ScrollUp,
    ScrollDown,
    ScrollLeft,
    ScrollRight,
    /// Moves, the middle button, and releases or drags of other buttons.
    Other,
}

/// What is open over the screen, as far as the mouse is concerned.
#[derive(Clone, Copy, Debug, PartialEq, Eq, Structural)]
pub struct MouseLayers {
    /// The start-up splash, which swallows every event.
    pub splash: bool,
    /// A toast notification took the event (a click on it or its button).
    pub toast_took_event: bool,
    pub help: bool,
    pub progress: bool,
    pub release_now_notes: bool,
    pub top_picks_editor: bool,
    pub release_now: bool,
    /// The pointer is over the Release-NOW dialog's log.
    pub over_release_now_log: bool,
    pub delete_confirmation: bool,
    pub commit_rename: bool,
    pub overview_bump_kind: bool,
    pub recent_changes: bool,
    pub tag: bool,
    pub tag_annotation: bool,
    pub browser: bool,
    pub project_edit: bool,
}

/// The multi-line editors that a dialog can hold.
#[derive(Clone, Copy, Debug, PartialEq, Eq, Structural)]
pub enum Editor {
    ReleaseNowNotes,
    TopPicks,
    CommitRename,
}

/// What the dashboard does with a mouse event.
#[derive(Clone, Copy, Debug, PartialEq, Eq, Structural)]
pub enum MouseRoute {
    /// Nothing.
    Ignore,
    /// Scroll the help text by this many lines.
    ScrollHelp(i32),
    /// A press in an editor's dialog: on the editor, place the cursor there
    /// (a double click selects the word); elsewhere, run the clicked action.
    EditorPress(Editor),
    /// A drag over the editor extends its selection.
    EditorDrag(Editor),
    /// A right press in an editor's dialog: copy the selection, or paste
    /// when there is none.
    EditorCopyOrPaste(Editor),
    /// Scroll an editor by this many lines.
    ScrollEditor(Editor, i32),
    /// Scroll the Release-NOW dialog by this many lines.
    ScrollReleaseNow(i16),
    /// Start selecting log lines at the pointer, or, where that selects
    /// nothing, run the clicked action.
    BeginLogSelectionOrAction,
    /// Extend the log selection to the pointer.
    ExtendLogSelection,
    /// Copy the selected log lines.
    CopyLogSelection,
    /// Run the action under a left press, if any.
    PressAction,
    /// A press on a form: track clicks on text fields (a double click
    /// selects all), then run the clicked action.
    FieldPress,
    /// A drag over the text field last clicked extends its selection.
    FieldDrag,
    /// Copy the selected text, else run the right-click action, else paste.
    CopyOrRightActionOrPaste,
    /// Copy the selected text, if any.
    CopySelection,
    /// Step the overview bump kind.
    RotateOverviewBumpKind(isize),
    /// Let a tab strip under the pointer take the wheel, else scroll the
    /// recent changes by this many lines.
    TabWheelOrScrollRecentChanges(i16),
    /// Move the file browser's selection.
    MoveBrowserSelection(isize),
    /// Scroll the project editor's body.
    ScrollProjectEdit(isize),
    /// The screen takes a wheel step (up, or down): a tab strip under the
    /// pointer first, else what `wheel_action` decides.
    ScreenWheel(bool),
    /// The screen takes a left press: tab and tile dragging, project
    /// picking, then the clicked action.
    ScreenPress,
    /// The screen takes a left drag: reordering what was picked up.
    ScreenDrag,
    /// The screen takes a left release: whatever was dragged is dropped.
    ScreenRelease,
    /// The screen takes a right press: tile selection, then copy, the
    /// right-click action, or paste.
    ScreenRightPress,
}

pub open spec fn is_wheel(e: MouseInput) -> bool {
    e == MouseInput::ScrollUp || e == MouseInput::ScrollDown
        || e == MouseInput::ScrollLeft || e == MouseInput::ScrollRight
}

/// Left and up count as up.
pub open spec fn wheel_up(e: MouseInput) -> bool {
    e == MouseInput::ScrollUp || e == MouseInput::ScrollLeft
}

/// The dialog layers that take every event while they are open.
pub open spec fn modal_open(l: MouseLayers) -> bool {
    l.help || l.progress || l.release_now_notes || l.top_picks_editor || l.release_now
        || l.delete_confirmation || l.commit_rename || l.overview_bump_kind
        || (l.recent_changes && !l.tag && !l.tag_annotation) || l.project_edit
}

/// How an editor's dialog treats an event.
pub open spec fn editor_route(editor: Editor, e: MouseInput) -> MouseRoute {
    match e {
        MouseInput::LeftDown => MouseRoute::EditorPress(editor),
        MouseInput::LeftDrag => MouseRoute::EditorDrag(editor),
        MouseInput::RightDown => MouseRoute::EditorCopyOrPaste(editor),
        MouseInput::ScrollUp => if editor == Editor::TopPicks { MouseRoute::ScrollEditor(editor, -3i32) } else { MouseRoute::Ignore },
        MouseInput::ScrollDown => if editor == Editor::TopPicks { MouseRoute::ScrollEditor(editor, 3i32) } else { MouseRoute::Ignore },
        _ => MouseRoute::Ignore,
    }
}

/// How the screen below all dialogs treats an event.
pub open spec fn screen_route(e: MouseInput) -> MouseRoute {
    if is_wheel(e) {
        MouseRoute::ScreenWheel(wheel_up(e))
    } else {
        match e {
            MouseInput::LeftDown => MouseRoute::ScreenPress,
            MouseInput::LeftDrag => MouseRoute::ScreenDrag,
            MouseInput::LeftUp => MouseRoute::ScreenRelease,
            MouseInput::RightDown => MouseRoute::ScreenRightPress,
            _ => MouseRoute::Ignore,
        }
    }
}

/// The route of a mouse event: the first layer in this order takes it.
pub open spec fn mouse_route_spec(l: MouseLayers, e: MouseInput) -> MouseRoute {
    if l.splash || l.toast_took_event {
        MouseRoute::Ignore
    } else if l.help {
        match e {
            MouseInput::ScrollUp => MouseRoute::ScrollHelp(-3i32),
            MouseInput::ScrollDown => MouseRoute::ScrollHelp(3i32),
            _ => MouseRoute::Ignore,
        }
    } else if l.progress {
        MouseRoute::Ignore
    } else if l.release_now_notes {
        if e == MouseInput::ScrollUp || e == MouseInput::ScrollDown {
            MouseRoute::Ignore
        } else {
            editor_route(Editor::ReleaseNowNotes, e)
        }
    } else if l.top_picks_editor {
        editor_route(Editor::TopPicks, e)
    } else if l.release_now {
        match e {
            MouseInput::ScrollUp => MouseRoute::ScrollReleaseNow(-2i16),
            MouseInput::ScrollDown => MouseRoute::ScrollReleaseNow(2i16),
            MouseInput::LeftDown => if l.over_release_now_log { MouseRoute::BeginLogSelectionOrAction } else { MouseRoute::PressAction },
            MouseInput::LeftDrag => if l.over_release_now_log { MouseRoute::ExtendLogSelection } else { MouseRoute::Ignore },
            MouseInput::RightDown => if l.over_release_now_log { MouseRoute::CopyLogSelection } else { MouseRoute::Ignore },
            _ => MouseRoute::Ignore,
        }
    } else if l.delete_confirmation {
        if e == MouseInput::LeftDown { MouseRoute::PressAction } else { MouseRoute::Ignore }
    } else if l.commit_rename {
        match e {
            MouseInput::LeftDown => MouseRoute::EditorPress(Editor::CommitRename),
            MouseInput::LeftDrag => MouseRoute::EditorDrag(Editor::CommitRename),
            MouseInput::RightDown => MouseRoute::CopyOrRightActionOrPaste,
            _ => MouseRoute::Ignore,
        }
    } else if l.overview_bump_kind {
        match e {
            MouseInput::LeftDown => MouseRoute::PressAction,
            MouseInput::ScrollUp => MouseRoute::RotateOverviewBumpKind(-1isize),
            MouseInput::ScrollDown => MouseRoute::RotateOverviewBumpKind(1isize),
            _ => MouseRoute::Ignore,
        }
    } else if l.recent_changes && !l.tag && !l.tag_annotation {
        if is_wheel(e) {
            MouseRoute::TabWheelOrScrollRecentChanges(if wheel_up(e) { -2i16 } else { 2i16 })
        } else if e == MouseInput::LeftDown {
            MouseRoute::PressAction
        } else {
            MouseRoute::Ignore
        }
    } else if l.browser && e != MouseInput::ScrollLeft && e != MouseInput::ScrollRight && e != MouseInput::Other {
        match e {
            MouseInput::ScrollUp => MouseRoute::MoveBrowserSelection(-1isize),
            MouseInput::ScrollDown => MouseRoute::MoveBrowserSelection(1isize),
            MouseInput::LeftDown => MouseRoute::PressAction,
            _ => MouseRoute::Ignore,
        }
    } else if l.project_edit {
        match e {
            MouseInput::ScrollUp => MouseRoute::ScrollProjectEdit(-1isize),
            MouseInput::ScrollDown => MouseRoute::ScrollProjectEdit(1isize),
            MouseInput::LeftDown => MouseRoute::FieldPress,
            MouseInput::LeftDrag => MouseRoute::FieldDrag,
            MouseInput::RightDown => MouseRoute::CopySelection,
            _ => MouseRoute::Ignore,
        }
    } else {
        screen_route(e)
    }
}

fn editor_route_of(editor: Editor, e: MouseInput) -> (r: MouseRoute)
    ensures
        r == editor_route(editor, e),
{
    match e {
        MouseInput::LeftDown => MouseRoute::EditorPress(editor),
        MouseInput::LeftDrag => MouseRoute::EditorDrag(editor),
        MouseInput::RightDown => MouseRoute::EditorCopyOrPaste(editor),
        MouseInput::ScrollUp => if editor == Editor::TopPicks { MouseRoute::ScrollEditor(editor, -3) } else { MouseRoute::Ignore },
        MouseInput::ScrollDown => if editor == Editor::TopPicks { MouseRoute::ScrollEditor(editor, 3) } else { MouseRoute::Ignore },
        _ => MouseRoute::Ignore,
    }
}

fn screen_route_of(e: MouseInput) -> (r: MouseRoute)
    ensures
        r == screen_route(e),
{
    match e {
        MouseInput::ScrollUp | MouseInput::ScrollLeft => MouseRoute::ScreenWheel(true),
        MouseInput::ScrollDown | MouseInput::ScrollRight => MouseRoute::ScreenWheel(false),
        MouseInput::LeftDown => MouseRoute::ScreenPress,
        MouseInput::LeftDrag => MouseRoute::ScreenDrag,
        MouseInput::LeftUp => MouseRoute::ScreenRelease,
        MouseInput::RightDown => MouseRoute::ScreenRightPress,
        MouseInput::Other => MouseRoute::Ignore,
    }
}

/// Routes a mouse event to the layer that takes it.
pub fn mouse_route(l: MouseLayers, e: MouseInput) -> (r: MouseRoute)
    ensures
        r == mouse_route_spec(l, e),
{
    if l.splash || l.toast_took_event {
        return MouseRoute::Ignore;
    }
    if l.help {
        return match e {
            MouseInput::ScrollUp => MouseRoute::ScrollHelp(-3),
            MouseInput::ScrollDown => MouseRoute::ScrollHelp(3),
            _ => MouseRoute::Ignore,
        };
    }
    if l.progress {
        return MouseRoute::Ignore;
    }
    if l.release_now_notes {
        if e == MouseInput::ScrollUp || e == MouseInput::ScrollDown {
            return MouseRoute::Ignore;
        }
        return editor_route_of(Editor::ReleaseNowNotes, e);
    }
    if l.top_picks_editor {
        return editor_route_of(Editor::TopPicks, e);
    }
    if l.release_now {
        return match e {
            MouseInput::ScrollUp => MouseRoute::ScrollReleaseNow(-2),
            MouseInput::ScrollDown => MouseRoute::ScrollReleaseNow(2),
            MouseInput::LeftDown => if l.over_release_now_log { MouseRoute::BeginLogSelectionOrAction } else { MouseRoute::PressAction },
            MouseInput::LeftDrag => if l.over_release_now_log { MouseRoute::ExtendLogSelection } else { MouseRoute::Ignore },
            MouseInput::RightDown => if l.over_release_now_log { MouseRoute::CopyLogSelection } else { MouseRoute::Ignore },
            _ => MouseRoute::Ignore,
        };
    }
    if l.delete_confirmation {
        return if e == MouseInput::LeftDown { MouseRoute::PressAction } else { MouseRoute::Ignore };
    }
    if l.commit_rename {
        return match e {
            MouseInput::LeftDown => MouseRoute::EditorPress(Editor::CommitRename),
            MouseInput::LeftDrag => MouseRoute::EditorDrag(Editor::CommitRename),
            MouseInput::RightDown => MouseRoute::CopyOrRightActionOrPaste,
            _ => MouseRoute::Ignore,
        };
    }
    if l.overview_bump_kind {
        return match e {
            MouseInput::LeftDown => MouseRoute::PressAction,
            MouseInput::ScrollUp => MouseRoute::RotateOverviewBumpKind(-1),
            MouseInput::ScrollDown => MouseRoute::RotateOverviewBumpKind(1),
            _ => MouseRoute::Ignore,
        };
    }
    if l.recent_changes && !l.tag && !l.tag_annotation {
        return match e {
            MouseInput::ScrollUp | MouseInput::ScrollLeft => MouseRoute::TabWheelOrScrollRecentChanges(-2),
            MouseInput::ScrollDown | MouseInput::ScrollRight => MouseRoute::TabWheelOrScrollRecentChanges(2),
            MouseInput::LeftDown => MouseRoute::PressAction,
            _ => MouseRoute::Ignore,
        };
    }
    if l.browser {
        match e {
            MouseInput::ScrollUp => return MouseRoute::MoveBrowserSelection(-1),
            MouseInput::ScrollDown => return MouseRoute::MoveBrowserSelection(1),
            MouseInput::LeftDown => return MouseRoute::PressAction,
            MouseInput::RightDown | MouseInput::LeftDrag | MouseInput::LeftUp => return MouseRoute::Ignore,
            _ => {},
        }
    }
    if l.project_edit {
        return match e {
            MouseInput::ScrollUp => MouseRoute::ScrollProjectEdit(-1),
            MouseInput::ScrollDown => MouseRoute::ScrollProjectEdit(1),
            MouseInput::LeftDown => MouseRoute::FieldPress,
            MouseInput::LeftDrag => MouseRoute::FieldDrag,
            MouseInput::RightDown => MouseRoute::CopySelection,
            _ => MouseRoute::Ignore,
        };
    }
    screen_route_of(e)
}

/// Whether the route hands the event to the screen below the dialogs.
pub open spec fn reaches_screen(r: MouseRoute) -> bool {
    match r {
        MouseRoute::ScreenWheel(_) | MouseRoute::ScreenPress | MouseRoute::ScreenDrag
        | MouseRoute::ScreenRelease | MouseRoute::ScreenRightPress => true,
        _ => false,
    }
}

/// Events reach the screen only while no modal dialog is open, and the
/// splash or a toast that took the event stops every event; with nothing
/// open at all, every press, drag, release and wheel step reaches the screen.
pub proof fn law_events_reach_the_screen_only_without_dialogs(l: MouseLayers, e: MouseInput)
    ensures
        reaches_screen(mouse_route_spec(l, e)) ==> !modal_open(l) && !l.splash && !l.toast_took_event,
        (l.splash || l.toast_took_event) ==> mouse_route_spec(l, e) == MouseRoute::Ignore,
        (!modal_open(l) && !l.splash && !l.toast_took_event && !l.browser && e != MouseInput::Other)
            ==> reaches_screen(mouse_route_spec(l, e)),
{
}

/// A wheel step up and a wheel step down move whatever they move by
/// opposite amounts.
pub proof fn law_wheel_steps_are_opposite(l: MouseLayers)
    ensures
        match (mouse_route_spec(l, MouseInput::ScrollUp), mouse_route_spec(l, MouseInput::ScrollDown)) {
            (MouseRoute::Ignore, MouseRoute::Ignore) => true,
            (MouseRoute::ScrollHelp(a), MouseRoute::ScrollHelp(b)) => a == -b,
            (MouseRoute::ScrollEditor(x, a), MouseRoute::ScrollEditor(y, b)) => x == y && a == -b,
            (MouseRoute::ScrollReleaseNow(a), MouseRoute::ScrollReleaseNow(b)) => a == -b,
            (MouseRoute::RotateOverviewBumpKind(a), MouseRoute::RotateOverviewBumpKind(b)) => a == -b,
            (MouseRoute::TabWheelOrScrollRecentChanges(a), MouseRoute::TabWheelOrScrollRecentChanges(b)) => a == -b,
            (MouseRoute::MoveBrowserSelection(a), MouseRoute::MoveBrowserSelection(b)) => a == -b,
            (MouseRoute::ScrollProjectEdit(a), MouseRoute::ScrollProjectEdit(b)) => a == -b,
            (MouseRoute::ScreenWheel(a), MouseRoute::ScreenWheel(b)) => a && !b,
            _ => false,
        },
{
}

/// Nothing above the help takes the event.
pub open spec fn open_to_events(l: MouseLayers) -> bool {
    !l.splash && !l.toast_took_event
}

/// The help, while open, only scrolls, by three lines in the wheel's
/// direction; the progress dialog swallows everything; the delete
/// confirmation only takes a left press, as a click on its buttons; a left
/// press in the Release-NOW dialog starts a log selection only over its
/// log; and a press on an editor's dialog goes to the frontmost editor.
pub proof fn law_dialogs_take_their_own_events(l: MouseLayers, e: MouseInput)
    ensures
        open_to_events(l) && l.help ==> mouse_route_spec(l, e) == (if e == MouseInput::ScrollUp {
            MouseRoute::ScrollHelp(-3i32)
        } else if e == MouseInput::ScrollDown {
            MouseRoute::ScrollHelp(3i32)
        } else {
            MouseRoute::Ignore
        }),
        open_to_events(l) && !l.help && l.progress ==> mouse_route_spec(l, e) == MouseRoute::Ignore,
        open_to_events(l) && !l.help && !l.progress && !l.release_now_notes && !l.top_picks_editor && !l.release_now
            && l.delete_confirmation ==> mouse_route_spec(l, e) == (if e == MouseInput::LeftDown {
                MouseRoute::PressAction
            } else {
                MouseRoute::Ignore
            }),
        open_to_events(l) && !l.help && !l.progress && !l.release_now_notes && !l.top_picks_editor && l.release_now
            ==> mouse_route_spec(l, MouseInput::LeftDown) == (if l.over_release_now_log {
                MouseRoute::BeginLogSelectionOrAction
            } else {
                MouseRoute::PressAction
            }),
        open_to_events(l) && !l.help && !l.progress && l.release_now_notes
            ==> mouse_route_spec(l, MouseInput::LeftDown) == MouseRoute::EditorPress(Editor::ReleaseNowNotes),
        open_to_events(l) && !l.help && !l.progress && !l.release_now_notes && l.top_picks_editor
            ==> mouse_route_spec(l, MouseInput::LeftDown) == MouseRoute::EditorPress(Editor::TopPicks),
        mouse_route_spec(l, e) matches MouseRoute::EditorPress(_) ==> e == MouseInput::LeftDown,
        mouse_route_spec(l, e) == MouseRoute::PressAction ==> e == MouseInput::LeftDown,
{
}

} // verus!
