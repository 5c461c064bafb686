//! The window host's event loop as a state machine: each platform event,
//! and each frame's outcome, moves the host to its next state and names the
//! one thing the loop has to do.
use vstd::prelude::*;
use crate::graphics::{GraphicsState, Viewport};

verus! {

/// Where the host stands.
#[derive(Clone, Copy, Debug, PartialEq, Eq, Structural)]
pub enum Phase {
    /// The window exists; the graphics context does not yet.
    Uninitialized,
    /// The graphics context is up.
    Ready(GraphicsState),
    /// Close was requested or the surface was lost: the loop stops.
    Closing,
}

/// The platform events that the host tells apart.
#[derive(Clone, Copy, Debug, PartialEq, Eq, Structural)]
pub enum Event {
    CloseRequested,
    Resized { width: u32, height: u32 },
    ScaleFactorChanged { width: u32, height: u32 },
    RedrawRequested,
    EventsDrained,
    Other,
}

/// Why the surface gave no image for a frame.
#[derive(Clone, Copy, Debug, PartialEq, Eq, Structural)]
pub enum SurfaceError {
    Timeout,
    Outdated,
    Lost,
    OutOfMemory,
}

/// What the loop does after an event.
#[derive(Clone, Copy, Debug, PartialEq, Eq, Structural)]
pub enum Action {
    Nothing,
    /// Configure the surface and the text viewport to this size.
    Reconfigure(Viewport),
    /// Ask the window for a redraw.
    RequestRedraw,
    /// Run the update hook, then render a frame.
    RenderFrame,
    /// Report a frame that was skipped; the next one retries.
    Report(SurfaceError),
    /// Stop the loop.
    Exit,
}

#[derive(Clone, Copy, Debug, PartialEq, Eq, Structural)]
pub struct Host {
    pub phase: Phase,
}

impl Host {
    /// The host is in `Closing`.
    pub open spec fn spec_is_closing(&self) -> bool {
        self.phase is Closing
    }

    /// The next state and action for `event` in state `self`.
    pub open spec fn next(self, event: Event) -> (Host, Action) {
        match self.phase {
            Phase::Ready(g) => match event {
                Event::CloseRequested => (Host { phase: Phase::Closing }, Action::Exit),
                Event::Resized { width, height } | Event::ScaleFactorChanged { width, height } => {
                    if width > 0 && height > 0 {
                        (
                            Host { phase: Phase::Ready(g.resized(width, height)) },
                            Action::Reconfigure(Viewport { width, height }),
                        )
                    } else {
                        (self, Action::Nothing)
                    }
                },
                Event::RedrawRequested => (self, Action::RenderFrame),
                Event::EventsDrained => (self, Action::RequestRedraw),
                Event::Other => (self, Action::Nothing),
            },
            _ => (self, Action::Nothing),
        }
    }

    /// The next state and action once a frame was rendered with `result`.
    pub open spec fn after_frame(self, result: Result<(), SurfaceError>) -> (Host, Action) {
        match self.phase {
            Phase::Ready(_) => match result {
                Ok(()) => (self, Action::Nothing),
                Err(SurfaceError::OutOfMemory) => (Host { phase: Phase::Closing }, Action::Exit),
                Err(e) => (self, Action::Report(e)),
            },
            _ => (self, Action::Nothing),
        }
    }

    /// A host whose graphics context is not up yet.
    pub fn new() -> (r: Host)
        ensures
            r.phase is Uninitialized,
    {
        Host { phase: Phase::Uninitialized }
    }

    /// Hands the host its graphics context. Only an uninitialized host takes
    /// it and becomes ready; the result says whether it did.
    pub fn initialize(&mut self, graphics: GraphicsState) -> (r: bool)
        ensures
            r == (old(self).phase is Uninitialized),
            r ==> final(self).phase == Phase::Ready(graphics),
            !r ==> *final(self) == *old(self),
    {
        match self.phase {
            Phase::Uninitialized => {
                self.phase = Phase::Ready(graphics);
                true
            },
            _ => false,
        }
    }

    pub fn is_ready(&self) -> (r: bool)
        ensures
            r == (self.phase is Ready),
    {
        match self.phase {
            Phase::Ready(_) => true,
            _ => false,
        }
    }

    pub fn is_closing(&self) -> (r: bool)
        ensures
            r == self.spec_is_closing(),
    {
        match self.phase {
            Phase::Closing => true,
            _ => false,
        }
    }

    /// Dispatches one platform event. Before the graphics context is up, and
    /// once closing, every event is ignored. When ready: close stops the loop;
    /// a resize or scale change goes to the graphics context; a redraw
    /// request renders a frame; drained events ask for a redraw.
    pub fn handle_event(&mut self, event: Event) -> (r: Action)
        ensures
            (*final(self), r) == old(self).next(event),
    {
        match &mut self.phase {
            Phase::Ready(g) => match event {
                Event::CloseRequested => {
                    self.phase = Phase::Closing;
                    Action::Exit
                },
                Event::Resized { width, height } | Event::ScaleFactorChanged { width, height } => {
                    match g.reconfigure(width, height) {
                        Some(v) => Action::Reconfigure(v),
                        None => Action::Nothing,
                    }
                },
                Event::RedrawRequested => Action::RenderFrame,
                Event::EventsDrained => Action::RequestRedraw,
                Event::Other => Action::Nothing,
            },
            _ => Action::Nothing,
        }
    }

    /// Takes the outcome of a rendered frame. A lost surface (out of memory)
    /// stops the loop; any other surface error is reported and the loop goes on.
    pub fn frame_finished(&mut self, result: Result<(), SurfaceError>) -> (r: Action)
        ensures
            (*final(self), r) == old(self).after_frame(result),
    {
        match self.phase {
            Phase::Ready(_) => match result {
                Ok(()) => Action::Nothing,
                Err(SurfaceError::OutOfMemory) => {
                    self.phase = Phase::Closing;
                    Action::Exit
                },
                Err(e) => Action::Report(e),
            },
            _ => Action::Nothing,
        }
    }
}

/// A resize (or scale change) to positive dimensions, while ready, leaves
/// the surface configured to exactly those dimensions, the rest of the
/// configuration as it was, and hands the same dimensions to the text viewport.
pub proof fn lemma_positive_resize_applies(host: Host, g: GraphicsState, event: Event, width: u32, height: u32)
    requires
        host.phase == Phase::Ready(g),
        event == (Event::Resized { width, height }) || event == (Event::ScaleFactorChanged { width, height }),
        width > 0,
        height > 0,
    ensures
        host.next(event).0.phase matches Phase::Ready(h) && {
            &&& h.config.width == width
            &&& h.config.height == height
            &&& h.config.format == g.config.format
            &&& h.config.present_mode == g.config.present_mode
            &&& h.config.alpha_mode == g.config.alpha_mode
        },
        host.next(event).1 == Action::Reconfigure(Viewport { width, height }),
{
}

/// A resize (or scale change) with a zero dimension leaves the host, and so
/// the surface configuration, unchanged, and applies nothing.
pub proof fn lemma_degenerate_resize_is_ignored(host: Host, event: Event, width: u32, height: u32)
    requires
        event == (Event::Resized { width, height }) || event == (Event::ScaleFactorChanged { width, height }),
        width == 0 || height == 0,
    ensures
        host.next(event) == (host, Action::Nothing),
{
}

/// A redraw request changes no state: rendering twice in a row works from
/// the same configuration (and, by `lemma_layout_deterministic`, the same text).
pub proof fn lemma_redraw_keeps_state(host: Host)
    ensures
        host.next(Event::RedrawRequested).0 == host,
        host.next(Event::RedrawRequested).0.next(Event::RedrawRequested) == host.next(Event::RedrawRequested),
{
}

/// Once closing, no event renders another frame or changes the state.
pub proof fn lemma_closing_is_final(host: Host, event: Event)
    requires
        host.phase is Closing,
    ensures
        host.next(event) == (host, Action::Nothing),
{
}

/// Before the graphics context is up, every event is ignored.
pub proof fn lemma_uninitialized_ignores_events(host: Host, event: Event)
    requires
        host.phase is Uninitialized,
    ensures
        host.next(event) == (host, Action::Nothing),
{
}

} // verus!
