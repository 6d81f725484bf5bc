//! The decisions of the terminal event loop. The host (the binary around this
//! library) owns the terminal: it performs each `LoopAction` that `run` returns
//! and reports what happened as the next `LoopEvent`, starting with `Ready` at
//! the head of every iteration.

use vstd::prelude::*;

verus! {

/// A terminal input event, as far as the loop tells them apart.
#[derive(Clone, Copy, PartialEq, Eq, Debug, Structural)]
pub enum InputEvent {
    KeyPress,
    KeyRelease,
    Mouse,
    Paste,
    Resize,
    Focus,
}

/// What the host observed after performing the last action.
#[derive(Clone, Copy, PartialEq, Eq, Debug, Structural)]
pub enum LoopEvent {
    /// At the head of an iteration; `should_quit` is the app's quit flag.
    Ready { should_quit: bool },
    /// The frame was drawn.
    Drawn,
    /// A finished background job was applied (`true`) or none was pending (`false`).
    JobChecked { applied: bool },
    /// Applying a finished background job failed.
    JobFailed,
    /// Polling for input timed out (`None`) or produced an event.
    Polled(Option<InputEvent>),
    /// The idle tick ran; `changed` tells whether the UI state changed.
    Ticked { changed: bool },
}

/// What the host does next.
#[derive(Clone, Copy, PartialEq, Eq, Debug, Structural)]
pub enum LoopAction {
    Quit,
    Draw,
    FinishBackgroundJob,
    ShowJobError,
    PollInput,
    HandleKey,
    HandleMouse,
    HandlePaste,
    Tick,
    NextIteration,
}

/// Loop state: whether the screen must be redrawn at the next iteration.
#[derive(Clone, Copy, PartialEq, Eq, Debug, Structural)]
pub struct RunLoop {
    pub needs_draw: bool,
}

impl RunLoop {
    /// The first iteration draws.
    pub fn new() -> (s: Self)
        ensures
            s.needs_draw,
    {
        RunLoop { needs_draw: true }
    }
}

/// The loop's transition: the next action and whether a redraw is pending after it.
pub open spec fn step(needs_draw: bool, event: LoopEvent) -> (LoopAction, bool) {
    match event {
        LoopEvent::Ready { should_quit } => if should_quit {
            (LoopAction::Quit, needs_draw)
        } else if needs_draw {
            (LoopAction::Draw, false)
        } else {
            (LoopAction::FinishBackgroundJob, false)
        },
        LoopEvent::Drawn => (LoopAction::FinishBackgroundJob, needs_draw),
        LoopEvent::JobChecked { applied } => if applied {
            (LoopAction::NextIteration, true)
        } else {
            (LoopAction::PollInput, needs_draw)
        },
        LoopEvent::JobFailed => (LoopAction::ShowJobError, true),
        LoopEvent::Polled(None) => (LoopAction::Tick, needs_draw),
        LoopEvent::Polled(Some(input)) => match input {
            InputEvent::KeyPress => (LoopAction::HandleKey, true),
            InputEvent::Mouse => (LoopAction::HandleMouse, true),
            InputEvent::Paste => (LoopAction::HandlePaste, true),
            InputEvent::Resize => (LoopAction::NextIteration, true),
            InputEvent::KeyRelease | InputEvent::Focus => (LoopAction::NextIteration, needs_draw),
        },
        LoopEvent::Ticked { changed } => (LoopAction::NextIteration, needs_draw || changed),
    }
}

/// One step of the terminal loop: what to do after `event`.
pub fn run(state: &mut RunLoop, event: LoopEvent) -> (action: LoopAction)
    ensures
        (action, final(state).needs_draw) == step(old(state).needs_draw, event),
{
    match event {
        LoopEvent::Ready { should_quit } => {
            if should_quit {
                LoopAction::Quit
            } else if state.needs_draw {
                state.needs_draw = false;
                LoopAction::Draw
            } else {
                LoopAction::FinishBackgroundJob
            }
        },
        LoopEvent::Drawn => LoopAction::FinishBackgroundJob,
        LoopEvent::JobChecked { applied } => {
            if applied {
                state.needs_draw = true;
                LoopAction::NextIteration
            } else {
                LoopAction::PollInput
            }
        },
        LoopEvent::JobFailed => {
            state.needs_draw = true;
            LoopAction::ShowJobError
        },
        LoopEvent::Polled(None) => LoopAction::Tick,
        LoopEvent::Polled(Some(input)) => match input {
            InputEvent::KeyPress => {
                state.needs_draw = true;
                LoopAction::HandleKey
            },
            InputEvent::Mouse => {
                state.needs_draw = true;
                LoopAction::HandleMouse
            },
            InputEvent::Paste => {
                state.needs_draw = true;
                LoopAction::HandlePaste
            },
            InputEvent::Resize => {
                state.needs_draw = true;
                LoopAction::NextIteration
            },
            InputEvent::KeyRelease | InputEvent::Focus => LoopAction::NextIteration,
        },
        LoopEvent::Ticked { changed } => {
            if changed {
                state.needs_draw = true;
            }
            LoopAction::NextIteration
        },
    }
}

/// A pending redraw is only ever cleared by drawing.
pub proof fn law_redraw_never_lost(needs_draw: bool, event: LoopEvent)
    ensures
        needs_draw && !step(needs_draw, event).1 ==> step(needs_draw, event).0 == LoopAction::Draw,
{
}

/// Every input event that can change what is shown schedules a redraw.
pub proof fn law_input_schedules_redraw(needs_draw: bool, input: InputEvent)
    requires
        input != InputEvent::KeyRelease,
        input != InputEvent::Focus,
    ensures
        step(needs_draw, LoopEvent::Polled(Some(input))).1,
{
}

/// The loop only ends at the head of an iteration whose quit flag is set.
pub proof fn law_quit_only_when_requested(needs_draw: bool, event: LoopEvent)
    ensures
        step(needs_draw, event).0 == LoopAction::Quit <==> event == (LoopEvent::Ready { should_quit: true }),
{
}

} // verus!
