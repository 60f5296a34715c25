//! The event-loop state machine.
//!
//! The demo's run loop makes a handful of decisions: render on a redraw
//! request, exit on the escape key or a quit signal, resize the presentation
//! surface and its buffer when the window resizes, stop on any presentation or
//! resize failure, and otherwise ask for another frame. Those decisions are
//! pure: this module states them as a step function from the current state and
//! an incoming event to the next state and the action the shell must perform.
//! The shell performs each action against the window system and reports the
//! outcome back as the next event.

use vstd::prelude::*;

verus! {

/// A window or buffer size in physical pixels.
#[derive(Clone, Copy, PartialEq, Eq, Structural, Debug)]
pub struct WindowSize {
    pub width: u32,
    pub height: u32,
}

/// Whether the run loop is still alive.
#[derive(Clone, Copy, PartialEq, Eq, Structural, Debug)]
pub enum Phase {
    Running,
    Terminated,
}

/// Which fallible call of the shell failed, for the error report.
#[derive(Clone, Copy, PartialEq, Eq, Structural, Debug)]
pub enum FailureSite {
    Render,
    ResizeSurface,
    ResizeBuffer,
}

/// An event handed to the driver: a stimulus from the window system, or the
/// outcome of an action the shell performed on the driver's behalf.
#[derive(Clone, Copy, PartialEq, Eq, Structural, Debug)]
pub enum DriverEvent {
    /// The window system asked for a frame; `window` is the window's current
    /// physical size.
    RedrawRequested { window: WindowSize },
    /// The shell pushed the finished frame to the screen.
    Presented { ok: bool },
    /// One round of input was polled.
    InputTick { escape_pressed: bool, quit_requested: bool, resized: Option<WindowSize> },
    /// The shell resized the presentation surface.
    SurfaceResized { ok: bool, size: WindowSize },
    /// The shell resized the presentation buffer.
    BufferResized { ok: bool, size: WindowSize },
}

/// What the shell must do next.
#[derive(Clone, Copy, PartialEq, Eq, Structural, Debug)]
pub enum DriverAction {
    /// Build a bitmap target of exactly `size`, draw the canvas, copy the
    /// pixels out and present them.
    RenderFrame { size: WindowSize },
    /// Resize the presentation surface to `size`.
    ResizeSurface { size: WindowSize },
    /// Resize the presentation buffer to `size`.
    ResizeBuffer { size: WindowSize },
    /// Ask the window system for another frame.
    RequestRedraw,
    /// Log the failure of `site` and stop the loop.
    ReportFailure { site: FailureSite },
    /// Stop the loop.
    Exit,
    /// Nothing to do for this event.
    Continue,
}

/// The driver's whole state: the loop phase, the window size it last saw, and
/// the size the presentation buffer was last resized to.
#[derive(Clone, Copy, PartialEq, Eq, Structural, Debug)]
pub struct Driver {
    pub phase: Phase,
    pub window: WindowSize,
    pub buffer: WindowSize,
}

/// The byte length of an RGBA buffer of size `s`.
pub open spec fn rgba_byte_len(s: WindowSize) -> int {
    s.width * s.height * 4
}

/// The next state and action for one event, as a single mathematical function.
pub open spec fn step_spec(pre: Driver, event: DriverEvent) -> (Driver, DriverAction) {
    if pre.phase is Terminated {
        (pre, DriverAction::Exit)
    } else {
        match event {
            DriverEvent::RedrawRequested { window } => (
                Driver { window, ..pre },
                DriverAction::RenderFrame { size: window },
            ),
            DriverEvent::Presented { ok } => if ok {
                (pre, DriverAction::Continue)
            } else {
                (
                    Driver { phase: Phase::Terminated, ..pre },
                    DriverAction::ReportFailure { site: FailureSite::Render },
                )
            },
            DriverEvent::InputTick { escape_pressed, quit_requested, resized } => if escape_pressed
                || quit_requested {
                (Driver { phase: Phase::Terminated, ..pre }, DriverAction::Exit)
            } else {
                match resized {
                    Some(size) => (
                        Driver { window: size, ..pre },
                        DriverAction::ResizeSurface { size },
                    ),
                    None => (pre, DriverAction::RequestRedraw),
                }
            },
            DriverEvent::SurfaceResized { ok, size } => if ok {
                (pre, DriverAction::ResizeBuffer { size })
            } else {
                (
                    Driver { phase: Phase::Terminated, ..pre },
                    DriverAction::ReportFailure { site: FailureSite::ResizeSurface },
                )
            },
            DriverEvent::BufferResized { ok, size } => if ok {
                (Driver { buffer: size, ..pre }, DriverAction::RequestRedraw)
            } else {
                (
                    Driver { phase: Phase::Terminated, ..pre },
                    DriverAction::ReportFailure { site: FailureSite::ResizeBuffer },
                )
            },
        }
    }
}

impl Driver {
    /// A fresh driver: running, with the window and buffer both at the given
    /// initial size.
    pub fn new(initial: WindowSize) -> (d: Driver)
        ensures
            d.phase is Running,
            d.window == initial,
            d.buffer == initial,
    {
        Driver { phase: Phase::Running, window: initial, buffer: initial }
    }

    /// Advance the state machine by one event and say what the shell must do.
    ///
    /// The result is exactly `step_spec` of the old state and the event.
    pub fn step(&mut self, event: DriverEvent) -> (action: DriverAction)
        ensures
            (*final(self), action) == step_spec(*old(self), event),
    {
        if matches!(self.phase, Phase::Terminated) {
            return DriverAction::Exit;
        }
        match event {
            DriverEvent::RedrawRequested { window } => {
                self.window = window;
                DriverAction::RenderFrame { size: window }
            },
            DriverEvent::Presented { ok } => {
                if ok {
                    DriverAction::Continue
                } else {
                    self.phase = Phase::Terminated;
                    DriverAction::ReportFailure { site: FailureSite::Render }
                }
            },
            DriverEvent::InputTick { escape_pressed, quit_requested, resized } => {
                if escape_pressed || quit_requested {
                    self.phase = Phase::Terminated;
                    DriverAction::Exit
                } else {
                    match resized {
                        Some(size) => {
                            self.window = size;
                            DriverAction::ResizeSurface { size }
                        },
                        None => DriverAction::RequestRedraw,
                    }
                }
            },
            DriverEvent::SurfaceResized { ok, size } => {
                if ok {
                    DriverAction::ResizeBuffer { size }
                } else {
                    self.phase = Phase::Terminated;
                    DriverAction::ReportFailure { site: FailureSite::ResizeSurface }
                }
            },
            DriverEvent::BufferResized { ok, size } => {
                if ok {
                    self.buffer = size;
                    DriverAction::RequestRedraw
                } else {
                    self.phase = Phase::Terminated;
                    DriverAction::ReportFailure { site: FailureSite::ResizeBuffer }
                }
            },
        }
    }
}

/// The escape key or a quit signal always terminates a running loop within the
/// very input poll that reports it, whatever else that poll reports.
pub proof fn lemma_quit_terminates(pre: Driver, escape_pressed: bool, quit_requested: bool, resized: Option<WindowSize>)
    requires
        pre.phase is Running,
        escape_pressed || quit_requested,
    ensures
        (step_spec(
            pre,
            DriverEvent::InputTick { escape_pressed, quit_requested, resized },
        ).0.phase is Terminated),
        step_spec(pre, DriverEvent::InputTick { escape_pressed, quit_requested, resized }).1
            == DriverAction::Exit,
{
}

/// A failed surface or buffer resize terminates the loop at once: the only
/// action is the error report, so no frame of that tick is rendered and no
/// further redraw is requested.
pub proof fn lemma_resize_failure_terminates(pre: Driver, event: DriverEvent)
    requires
        pre.phase is Running,
        (event matches DriverEvent::SurfaceResized { ok: false, .. })
            || (event matches DriverEvent::BufferResized { ok: false, .. }),
    ensures
        step_spec(pre, event).0.phase is Terminated,
        step_spec(pre, event).1 matches DriverAction::ReportFailure { site }
            && site != FailureSite::Render,
        !(step_spec(pre, event).1 is RenderFrame),
        !(step_spec(pre, event).1 is RequestRedraw),
{
}

/// A terminated loop never comes back: every later event leaves the driver
/// terminated and only asks the shell to exit.
pub proof fn lemma_no_recovery(pre: Driver, event: DriverEvent)
    requires
        pre.phase is Terminated,
    ensures
        step_spec(pre, event).0 == pre,
        step_spec(pre, event).1 == DriverAction::Exit,
{
}

/// After a resize event whose surface and buffer resizes both succeed, the
/// driver's buffer size is the new size, the buffer's byte length is
/// `width * height * 4`, and the bitmap target of the next frame is built at
/// exactly that size.
pub proof fn lemma_resize_syncs_sizes(pre: Driver, size: WindowSize)
    requires
        pre.phase is Running,
    ensures
        ({
            let (s1, a1) = step_spec(
                pre,
                DriverEvent::InputTick {
                    escape_pressed: false,
                    quit_requested: false,
                    resized: Some(size),
                },
            );
            let (s2, a2) = step_spec(s1, DriverEvent::SurfaceResized { ok: true, size });
            let (s3, a3) = step_spec(s2, DriverEvent::BufferResized { ok: true, size });
            let (s4, a4) = step_spec(s3, DriverEvent::RedrawRequested { window: size });
            &&& a1 == (DriverAction::ResizeSurface { size })
            &&& a2 == (DriverAction::ResizeBuffer { size })
            &&& a3 == DriverAction::RequestRedraw
            &&& s3.buffer == size
            &&& rgba_byte_len(s3.buffer) == size.width * size.height * 4
            &&& a4 == (DriverAction::RenderFrame { size })
        }),
{
}

} // verus!
