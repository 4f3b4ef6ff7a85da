//! The controller as a state machine over plain values: which state follows
//! each report of the host, and which actions it answers with.

use vstd::prelude::*;
use crate::event::{
    Action, Diagnostic, ExitReason, Provision, Window, WindowCreationFailure, WindowSignal,
};
use crate::surface::{FrameOutcome, SurfaceConfiguration, SurfaceModel, SurfaceSize};

verus! {

/// The two lifecycle states. Only `Active` holds a window and a surface, so
/// there is no surface without a window.
pub enum StateModel {
    Uninitialized,
    Active { window: Window, surface: SurfaceModel },
}

/// The controller: its lifecycle state and, once the loop has been told to
/// stop, the reason why.
pub struct Controller {
    pub state: StateModel,
    pub exit: Option<ExitReason>,
}

/// The result of one transition.
pub struct Step {
    pub next: Controller,
    pub actions: Seq<Action>,
}

/// Everything the host can report.
pub enum HostEvent {
    /// The application was activated; holds what creating a window would give.
    Activated(Result<Provision, WindowCreationFailure>),
    /// No event is pending.
    Idle,
    /// The window raised an event.
    Window(WindowSignal),
    /// The render pass asked for by `Action::RenderFrame` ended this way.
    Frame(FrameOutcome),
}

impl Controller {
    /// The controller before anything was reported to it.
    pub open spec fn initial() -> Controller {
        Controller { state: StateModel::Uninitialized, exit: None }
    }

    pub open spec fn is_active(self) -> bool {
        self.state is Active
    }

    pub open spec fn is_terminated(self) -> bool {
        self.exit is Some
    }

    /// The configuration of the surface, if there is a surface and it has one.
    pub open spec fn surface_config(self) -> Option<SurfaceConfiguration> {
        match self.state {
            StateModel::Active { surface, .. } => surface.config(),
            StateModel::Uninitialized => None,
        }
    }

    /// The size the surface is configured at, if there is a surface and it
    /// has been configured.
    pub open spec fn surface_size(self) -> Option<SurfaceSize> {
        match self.state {
            StateModel::Active { surface, .. } => surface.size,
            StateModel::Uninitialized => None,
        }
    }

    /// The surface belongs to the window, never has a zero-sized
    /// configuration, and is configured at the window's client size whenever
    /// that size can be applied at all.
    pub open spec fn wf(self) -> bool {
        match self.state {
            StateModel::Uninitialized => true,
            StateModel::Active { window, surface } => {
                &&& surface.window == window.id
                &&& surface.wf()
                &&& window.client_size.is_drawable() ==> surface.size == Some(window.client_size)
            },
        }
    }

    /// Whether an activation would create the window: only before the first
    /// one, and not once the loop has been told to stop.
    pub open spec fn wants_window(self) -> bool {
        !self.is_active() && !self.is_terminated()
    }

    /// This controller with nothing to do.
    pub open spec fn stay(self) -> Step {
        Step { next: self, actions: Seq::empty() }
    }

    /// The loop is told to stop for `reason`, unless it was already told so
    /// for another: the first reason stands.
    pub open spec fn halted(self, reason: ExitReason) -> Controller {
        Controller {
            state: self.state,
            exit: Some(
                match self.exit {
                    Some(first) => first,
                    None => reason,
                },
            ),
        }
    }

    /// The surface that activation binds to a freshly made window.
    pub open spec fn first_surface(made: Provision) -> SurfaceModel {
        SurfaceModel::bound(
            made.window.id,
            made.window.client_size,
            made.format,
            made.present_mode,
        )
    }

    /// Activation. Where a window is wanted, `created` is what creating it
    /// gave: a window makes the controller active, with a surface bound to
    /// it and configured at once if the window has a drawable size; a failure
    /// stops the loop. Otherwise nothing happens and `created` is not looked
    /// at.
    pub open spec fn activate(self, created: Result<Provision, WindowCreationFailure>) -> Step {
        if !self.wants_window() {
            self.stay()
        } else {
            match created {
                Ok(made) => Step {
                    next: Controller {
                        state: StateModel::Active {
                            window: made.window,
                            surface: Self::first_surface(made),
                        },
                        exit: None,
                    },
                    actions: match Self::first_surface(made).config() {
                        Some(config) => seq![Action::Configure(config)],
                        None => Seq::empty(),
                    },
                },
                Err(_) => Step {
                    next: self.halted(ExitReason::WindowCreationFailure),
                    actions: seq![
                        Action::Log(Diagnostic::WindowCreationFailed),
                        Action::Exit(ExitReason::WindowCreationFailure),
                    ],
                },
            }
        }
    }

    /// An idle tick: a running, active controller asks for a redraw.
    pub open spec fn idle(self) -> Step {
        if self.is_active() && !self.is_terminated() {
            Step { next: self, actions: seq![Action::RequestRedraw] }
        } else {
            self.stay()
        }
    }

    /// The window was resized: the window's client size is recorded, and a
    /// drawable size is applied to the surface.
    pub open spec fn resized(self, size: SurfaceSize) -> Step {
        match self.state {
            StateModel::Active { window, surface } if !self.is_terminated() => Step {
                next: Controller {
                    state: StateModel::Active {
                        window: Window { id: window.id, client_size: size },
                        surface: surface.reconfigured(size),
                    },
                    exit: self.exit,
                },
                actions: if size.is_drawable() {
                    seq![
                        Action::Configure(
                            SurfaceConfiguration {
                                size,
                                format: surface.format,
                                present_mode: surface.present_mode,
                            },
                        ),
                    ]
                } else {
                    Seq::empty()
                },
            },
            _ => self.stay(),
        }
    }

    /// The window wants to be drawn: the next redraw is asked for first, then
    /// one render pass, which is left out while the surface has no
    /// configuration to draw with.
    pub open spec fn redraw(self) -> Step {
        match self.state {
            StateModel::Active { surface, .. } if !self.is_terminated() => Step {
                next: self,
                actions: if surface.size is Some {
                    seq![Action::RequestRedraw, Action::RenderFrame]
                } else {
                    seq![Action::RequestRedraw]
                },
            },
            _ => self.stay(),
        }
    }

    /// A close request stops the loop, whatever the state.
    pub open spec fn closed(self) -> Step {
        let next = self.halted(ExitReason::CloseRequested);
        Step { next, actions: seq![Action::Exit(next.exit->0)] }
    }

    /// Dispatch on the kind of a window event.
    pub open spec fn window_event(self, event: WindowSignal) -> Step {
        match event {
            WindowSignal::CloseRequested => self.closed(),
            WindowSignal::Resized(size) => self.resized(size),
            WindowSignal::RedrawRequested => self.redraw(),
            WindowSignal::Other => self.stay(),
        }
    }

    /// A render pass ended. A recoverable error has the surface configured
    /// again at the size it already has; a fatal one is logged and stops the
    /// loop; a timeout is logged and nothing else.
    pub open spec fn frame_outcome(self, outcome: FrameOutcome) -> Step {
        match self.state {
            StateModel::Active { surface, .. } if !self.is_terminated() => match outcome {
                FrameOutcome::Presented => self.stay(),
                FrameOutcome::RecoverableSurfaceError(_) => Step {
                    next: self,
                    actions: match surface.config() {
                        Some(config) => seq![Action::Configure(config)],
                        None => Seq::empty(),
                    },
                },
                FrameOutcome::FatalSurfaceError(_) => Step {
                    next: self.halted(ExitReason::FatalSurfaceError),
                    actions: seq![
                        Action::Log(Diagnostic::OutOfMemory),
                        Action::Exit(ExitReason::FatalSurfaceError),
                    ],
                },
                FrameOutcome::TransientTimeout => Step {
                    next: self,
                    actions: seq![Action::Log(Diagnostic::SurfaceTimeout)],
                },
            },
            _ => self.stay(),
        }
    }

    /// One report of the host, of any kind.
    pub open spec fn step(self, event: HostEvent) -> Step {
        match event {
            HostEvent::Activated(created) => self.activate(created),
            HostEvent::Idle => self.idle(),
            HostEvent::Window(event) => self.window_event(event),
            HostEvent::Frame(outcome) => self.frame_outcome(outcome),
        }
    }

    /// The controller after a whole sequence of reports, taken in order.
    pub open spec fn run(self, events: Seq<HostEvent>) -> Controller
        decreases events.len(),
    {
        if events.len() == 0 {
            self
        } else {
            self.run(events.drop_last()).step(events.last()).next
        }
    }

    /// Every action asked for during a sequence of reports, in order.
    pub open spec fn trace(self, events: Seq<HostEvent>) -> Seq<Action>
        decreases events.len(),
    {
        if events.len() == 0 {
            Seq::empty()
        } else {
            self.trace(events.drop_last()) + self.run(events.drop_last()).step(
                events.last(),
            ).actions
        }
    }
}

} // verus!
