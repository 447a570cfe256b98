//! The main loop's decisions: which window events end the loop, which ask
//! for a redraw, and which draw a frame. The surrounding program pumps the
//! windowing toolkit's events, reduces each to a `LoopEvent`, and performs
//! the returned action.

use vstd::prelude::*;

verus! {

/// A window or loop event, reduced to what the main loop reads of it.
#[derive(Clone, Copy, Debug, PartialEq, Eq, Structural)]
pub enum LoopEvent {
    /// The window was asked to close.
    CloseRequested,
    /// A key event: whether the key is Escape, and whether it was pressed.
    KeyboardInput { escape: bool, pressed: bool },
    /// All pending events have been handled.
    MainEventsCleared,
    /// The window asked to be redrawn.
    RedrawRequested,
    /// Anything else.
    Other,
}

/// What the main loop does in answer to an event.
#[derive(Clone, Copy, Debug, PartialEq, Eq, Structural)]
pub enum LoopAction {
    /// Leave the event loop.
    Exit,
    /// Ask the window for a redraw.
    RequestRedraw,
    /// Draw one frame.
    DrawFrame,
    /// Do nothing.
    Ignore,
}

/// The action owed to each event: closing the window or pressing Escape
/// ends the loop, a cleared event queue asks for a redraw, a redraw request
/// draws a frame, and everything else is ignored.
pub open spec fn action_for_event(e: LoopEvent) -> LoopAction {
    match e {
        LoopEvent::CloseRequested => LoopAction::Exit,
        LoopEvent::KeyboardInput { escape, pressed } => if escape && pressed {
            LoopAction::Exit
        } else {
            LoopAction::Ignore
        },
        LoopEvent::MainEventsCleared => LoopAction::RequestRedraw,
        LoopEvent::RedrawRequested => LoopAction::DrawFrame,
        LoopEvent::Other => LoopAction::Ignore,
    }
}

/// The action the main loop takes on `event`.
pub fn main_loop_action(event: &LoopEvent) -> (r: LoopAction)
    ensures
        r == action_for_event(*event),
{
    match event {
        LoopEvent::CloseRequested => LoopAction::Exit,
        LoopEvent::KeyboardInput { escape, pressed } => {
            if *escape && *pressed {
                LoopAction::Exit
            } else {
                LoopAction::Ignore
            }
        },
        LoopEvent::MainEventsCleared => LoopAction::RequestRedraw,
        LoopEvent::RedrawRequested => LoopAction::DrawFrame,
        LoopEvent::Other => LoopAction::Ignore,
    }
}

} // verus!
