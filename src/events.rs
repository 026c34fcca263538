//! What the application does on each event of the window's event loop. The
//! loop itself, the window and the renderer stay with the caller, which
//! performs the step decided here.
use vstd::prelude::*;

verus! {

/// The window events that the application tells apart.
#[derive(Clone, Copy, Debug, PartialEq, Eq, Structural)]
pub enum WindowInput {
    CloseRequested,
    Resized { width: u32, height: u32 },
    RedrawRequested,
    /// Any other event: the control panel may still want it.
    Other,
}

/// What the caller is to do next.
#[derive(Clone, Copy, Debug, PartialEq, Eq, Structural)]
pub enum Step {
    /// Nothing.
    Idle,
    /// Leave the event loop.
    Exit,
    /// Resize the surface and what depends on its size.
    Resize { width: u32, height: u32 },
    /// Draw a frame.
    Redraw,
}

/// The reaction to one window event.
#[derive(Clone, Copy, Debug, PartialEq, Eq, Structural)]
pub struct Reaction {
    /// Whether the event goes to the control panel first.
    pub forward_to_ui: bool,
    pub step: Step,
}

/// Whether the application is running with its window and renderer.
#[derive(Clone, Copy, Debug, PartialEq, Eq, Structural)]
pub enum Lifecycle {
    Uninitialized,
    Initialized,
}

impl Lifecycle {
    pub fn is_initialized(&self) -> (r: bool)
        ensures
            r == (*self is Initialized),
    {
        match self {
            Lifecycle::Initialized => true,
            Lifecycle::Uninitialized => false,
        }
    }

    /// Whether a resume of the event loop is to create the window and the
    /// renderer: only the first time.
    pub fn needs_setup(&self) -> (r: bool)
        ensures
            r == (*self is Uninitialized),
    {
        !self.is_initialized()
    }

    /// The state once a resume has been handled: the window and renderer
    /// exist from then on.
    pub fn resumed(&mut self)
        ensures
            *final(self) == Lifecycle::Initialized,
    {
        *self = Lifecycle::Initialized;
    }

    /// The reaction to a window event. Before setup every event is ignored;
    /// after it, every event goes to the control panel, then a close request
    /// ends the loop, a resize resizes, and a redraw request draws a frame.
    pub fn window_event(&self, input: WindowInput) -> (r: Reaction)
        ensures
            r.forward_to_ui == (*self is Initialized),
            *self is Uninitialized ==> r.step == Step::Idle,
            *self is Initialized ==> r.step == match input {
                WindowInput::CloseRequested => Step::Exit,
                WindowInput::Resized { width, height } => Step::Resize { width, height },
                WindowInput::RedrawRequested => Step::Redraw,
                WindowInput::Other => Step::Idle,
            },
    {
        if !self.is_initialized() {
            return Reaction { forward_to_ui: false, step: Step::Idle };
        }
        let step = match input {
            WindowInput::CloseRequested => Step::Exit,
            WindowInput::Resized { width, height } => Step::Resize { width, height },
            WindowInput::RedrawRequested => Step::Redraw,
            WindowInput::Other => Step::Idle,
        };
        Reaction { forward_to_ui: true, step }
    }
}

/// The step after drawing a frame: a frame that could not be drawn ends the
/// loop.
pub fn after_redraw(drawn: bool) -> (r: Step)
    ensures
        r == if drawn {
            Step::Idle
        } else {
            Step::Exit
        },
{
    if drawn {
        Step::Idle
    } else {
        Step::Exit
    }
}

} // verus!
