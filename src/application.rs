//! The decisions of the application loop: what each window event leads to.
use vstd::prelude::*;

verus! {

/// Where the application stands in its life.
#[derive(Debug, Clone, Copy, PartialEq, Eq, Structural)]
pub enum Phase {
    /// No window exists yet.
    Initializing,
    /// The window exists and the renderer is being set up.
    Starting,
    /// Frames are being produced.
    Running,
    /// Exit was requested.
    Exiting,
}

/// An event delivered by the window system, or the end of renderer setup.
#[derive(Debug, Clone, Copy, PartialEq, Eq, Structural)]
pub enum LoopEvent {
    /// The application may create its window.
    Resumed,
    /// Renderer setup has completed.
    Initialized,
    /// The window was asked to close.
    CloseRequested,
    /// The window was resized to the given size in pixels.
    Resized { width: u32, height: u32 },
    /// The window asks for a new frame.
    RedrawRequested,
    /// Any other event.
    Other,
}

/// What the loop does in response to an event.
#[derive(Debug, Clone, Copy, PartialEq, Eq, Structural)]
pub enum LoopAction {
    /// Create the window and set up the renderer.
    StartInitialization,
    /// Size the surface to the window and ask for the first frame.
    ResizeToWindowAndRedraw,
    /// Leave the event loop.
    Exit,
    /// Resize the surface to the given size.
    Resize { width: u32, height: u32 },
    /// Run the update systems, render a frame, and ask for the next frame.
    UpdateAndRender,
    /// Do nothing.
    Nothing,
}

/// The phase and action that follow an event.
pub open spec fn step_spec(phase: Phase, event: LoopEvent) -> (Phase, LoopAction) {
    match (phase, event) {
        (Phase::Initializing, LoopEvent::Resumed) => (Phase::Starting, LoopAction::StartInitialization),
        (Phase::Starting, LoopEvent::Initialized) => (Phase::Running, LoopAction::ResizeToWindowAndRedraw),
        (Phase::Running, LoopEvent::CloseRequested) => (Phase::Exiting, LoopAction::Exit),
        (Phase::Running, LoopEvent::Resized { width, height }) => (
            Phase::Running,
            LoopAction::Resize { width, height },
        ),
        (Phase::Running, LoopEvent::RedrawRequested) => (Phase::Running, LoopAction::UpdateAndRender),
        _ => (phase, LoopAction::Nothing),
    }
}

/// Decides the response to an event: the window is created once, window events
/// are ignored until setup has completed, a close request exits, a resize
/// resizes the surface, and each redraw request updates and renders a frame.
pub fn step(phase: Phase, event: LoopEvent) -> (r: (Phase, LoopAction))
    ensures
        r == step_spec(phase, event),
{
    match (phase, event) {
        (Phase::Initializing, LoopEvent::Resumed) => (Phase::Starting, LoopAction::StartInitialization),
        (Phase::Starting, LoopEvent::Initialized) => (Phase::Running, LoopAction::ResizeToWindowAndRedraw),
        (Phase::Running, LoopEvent::CloseRequested) => (Phase::Exiting, LoopAction::Exit),
        (Phase::Running, LoopEvent::Resized { width, height }) => (
            Phase::Running,
            LoopAction::Resize { width, height },
        ),
        (Phase::Running, LoopEvent::RedrawRequested) => (Phase::Running, LoopAction::UpdateAndRender),
        _ => (phase, LoopAction::Nothing),
    }
}

} // verus!
