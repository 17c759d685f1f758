//! The render-loop controller: an explicit state machine over window-system
//! events.
//!
//! The controller owns the decisions of the render loop. Each protocol
//! event is handed to [`Controller::dispatch`], which updates the state and
//! returns the exact sequence of [`Command`]s the unverified shell must
//! perform, in order: surface reconfiguration, render passes with the
//! frame parameters to use, frame-callback re-registration and surface
//! commits. The spec functions [`next_state`] and [`emitted`] are the
//! mathematical model of the machine; `dispatch` is proved equal to them.

use vstd::prelude::*;

use crate::DEFAULT_SIZE;

verus! {

/// A window-system event, as the event bridge hands it to the controller.
#[derive(Clone, Copy, Debug)]
pub enum Event {
    /// Window configure (size negotiation). `None` in a dimension means the
    /// compositor left that dimension up to the client; `Some(v)` carries a
    /// compositor-chosen size, which the protocol guarantees nonzero.
    Configure { width: Option<u32>, height: Option<u32> },
    /// One-shot frame-ready callback from the compositor: the ideal moment
    /// to prepare the next frame.
    FrameReady,
    /// Close request from the window system.
    CloseRequested,
    /// Compositor scale factor changed; not acted on.
    ScaleFactorChanged,
    /// Compositor transform changed; not acted on.
    TransformChanged,
    /// The window surface entered or left an output; not acted on.
    SurfaceOutputChanged,
    /// An output was added, updated or removed; not acted on.
    OutputChanged,
    /// A seat or seat capability was added or removed; not acted on.
    SeatChanged,
}

/// A command the shell must perform, in the order returned.
#[derive(Clone, Copy, Debug, PartialEq, Eq, Structural)]
pub enum Command {
    /// (Re)configure the presentation surface to the given size. This
    /// atomically replaces any previously allocated swap resources.
    ConfigureSurface { width: u32, height: u32 },
    /// Record and submit exactly one render pass whose frame parameters
    /// carry this resolution and this elapsed time since loop start.
    RenderFrame { width: u32, height: u32, elapsed_nanos: u64 },
    /// Re-register interest in the next one-shot frame-ready callback.
    RearmFrameCallback,
    /// Commit the window's pending state to the compositor.
    CommitSurface,
}

/// The controller state. `running` starts true and only ever becomes
/// false; once false no further command is ever emitted. `configured`
/// records whether the presentation surface has been configured at least
/// once: no render may be emitted before that. `width` and `height` always
/// hold the last successfully configured surface size.
#[derive(Clone, Copy, Debug, PartialEq, Eq, Structural)]
pub struct Controller {
    /// False once a close request has been observed.
    pub running: bool,
    /// True once the first configure event has been processed.
    pub configured: bool,
    /// Width of the last configured surface size.
    pub width: u32,
    /// Height of the last configured surface size.
    pub height: u32,
    /// Reading of the monotonic clock at loop start, in nanoseconds.
    pub start_nanos: u64,
}

/// A size hint is well formed when an explicit dimension is nonzero, as
/// the windowing protocol guarantees.
pub open spec fn size_hint_wf(hint: Option<u32>) -> bool {
    match hint {
        Some(v) => v > 0,
        None => true,
    }
}

impl Event {
    /// Well-formedness of an event: explicit configure dimensions are
    /// nonzero, as the windowing protocol guarantees.
    pub open spec fn wf(self) -> bool {
        match self {
            Event::Configure { width, height } => size_hint_wf(width) && size_hint_wf(height),
            _ => true,
        }
    }
}

/// The dimension a configure hint yields: the explicit size when one is
/// carried, the default otherwise.
pub open spec fn effective_dim(hint: Option<u32>) -> u32 {
    match hint {
        Some(v) => v,
        None => DEFAULT_SIZE,
    }
}

/// The elapsed time a render at clock reading `now_nanos` carries:
/// nanoseconds since loop start.
pub open spec fn elapsed_at(c: Controller, now_nanos: u64) -> u64 {
    if now_nanos >= c.start_nanos {
        (now_nanos - c.start_nanos) as u64
    } else {
        0
    }
}

/// The controller state after one event. A stopped controller never
/// changes again; a configure event records the new size and marks the
/// surface configured; a close request clears `running`; every other
/// event leaves the state unchanged.
pub open spec fn next_state(c: Controller, ev: Event) -> Controller {
    if !c.running {
        c
    } else {
        match ev {
            Event::Configure { width, height } => Controller {
                configured: true,
                width: effective_dim(width),
                height: effective_dim(height),
                ..c
            },
            Event::CloseRequested => Controller { running: false, ..c },
            _ => c,
        }
    }
}

/// The commands one event emits at clock reading `now_nanos`. A stopped
/// controller emits nothing. A configure event reconfigures the surface
/// and then renders once at the new size, in that order, so the window is
/// never shown blank. A frame-ready callback on a configured surface
/// renders once at the current size, re-arms the one-shot frame callback,
/// and commits the surface; before the first configure it is ignored,
/// since an unconfigured surface cannot be rendered to. Close requests and
/// all unhandled events emit nothing.
pub open spec fn emitted(c: Controller, ev: Event, now_nanos: u64) -> Seq<Command> {
    if !c.running {
        Seq::empty()
    } else {
        match ev {
            Event::Configure { width, height } => seq![
                Command::ConfigureSurface {
                    width: effective_dim(width),
                    height: effective_dim(height),
                },
                Command::RenderFrame {
                    width: effective_dim(width),
                    height: effective_dim(height),
                    elapsed_nanos: elapsed_at(c, now_nanos),
                },
            ],
            Event::FrameReady => {
                if c.configured {
                    seq![
                        Command::RenderFrame {
                            width: c.width,
                            height: c.height,
                            elapsed_nanos: elapsed_at(c, now_nanos),
                        },
                        Command::RearmFrameCallback,
                        Command::CommitSurface,
                    ]
                } else {
                    Seq::empty()
                }
            },
            _ => Seq::empty(),
        }
    }
}

impl Controller {
    /// The controller invariant: the recorded surface size is never zero.
    pub open spec fn wf(self) -> bool {
        self.width > 0 && self.height > 0
    }

    /// A fresh controller at clock reading `start_nanos`: running, not yet
    /// configured, with the default size on record.
    pub fn new(start_nanos: u64) -> (c: Controller)
        ensures
            c.running,
            !c.configured,
            c.width == DEFAULT_SIZE,
            c.height == DEFAULT_SIZE,
            c.start_nanos == start_nanos,
            c.wf(),
    {
        Controller {
            running: true,
            configured: false,
            width: DEFAULT_SIZE,
            height: DEFAULT_SIZE,
            start_nanos,
        }
    }

    /// Handles one window-system event at monotonic clock reading
    /// `now_nanos` and returns the commands the shell must perform, in
    /// order. State and output are exactly [`next_state`] and [`emitted`].
    pub fn dispatch(&mut self, ev: Event, now_nanos: u64) -> (cmds: Vec<Command>)
        requires
            old(self).wf(),
            ev.wf(),
            now_nanos >= old(self).start_nanos,
        ensures
            *final(self) == next_state(*old(self), ev),
            cmds@ == emitted(*old(self), ev, now_nanos),
            final(self).wf(),
            final(self).start_nanos == old(self).start_nanos,
            ev is CloseRequested ==> !final(self).running,
            !old(self).running ==> cmds@.len() == 0 && *final(self) == *old(self),
    {
        let mut cmds: Vec<Command> = Vec::new();
        if self.running {
            match ev {
                Event::Configure { width, height } => {
                    let w = match width {
                        Some(v) => v,
                        None => DEFAULT_SIZE,
                    };
                    let h = match height {
                        Some(v) => v,
                        None => DEFAULT_SIZE,
                    };
                    self.width = w;
                    self.height = h;
                    self.configured = true;
                    let elapsed: u64 = now_nanos - self.start_nanos;
                    cmds.push(Command::ConfigureSurface { width: w, height: h });
                    cmds.push(Command::RenderFrame { width: w, height: h, elapsed_nanos: elapsed });
                },
                Event::FrameReady => {
                    if self.configured {
                        let elapsed: u64 = now_nanos - self.start_nanos;
                        cmds.push(
                            Command::RenderFrame {
                                width: self.width,
                                height: self.height,
                                elapsed_nanos: elapsed,
                            },
                        );
                        cmds.push(Command::RearmFrameCallback);
                        cmds.push(Command::CommitSurface);
                    }
                },
                Event::CloseRequested => {
                    self.running = false;
                },
                _ => {},
            }
        }
        proof {
            assert(cmds@ =~= emitted(*old(self), ev, now_nanos));
        }
        cmds
    }
}

} // verus!
