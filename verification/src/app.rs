//! The controller that the host drives: one window, one surface, and the
//! decision what to do on each report.

use vstd::prelude::*;
use crate::event::{
    Action, Diagnostic, ExitReason, Provision, Window, WindowCreationFailure, WindowSignal,
    EXIT_CLOSED, WINDOW_TITLE,
};
use crate::model::{Controller, StateModel};
use crate::surface::{FrameOutcome, RenderSurface, SurfaceConfiguration, SurfaceSize};

verus! {

/// Lifecycle state of the application. A window and its surface exist
/// together or not at all.
#[derive(Clone, Copy, Debug)]
pub enum ApplicationState {
    Uninitialized,
    Active { window: Window, surface: RenderSurface },
}

impl View for ApplicationState {
    type V = StateModel;

    open spec fn view(&self) -> StateModel {
        match *self {
            ApplicationState::Uninitialized => StateModel::Uninitialized,
            ApplicationState::Active { window, surface } => StateModel::Active {
                window,
                surface: surface@,
            },
        }
    }
}

/// The event loop controller.
#[derive(Debug)]
pub struct App {
    state: ApplicationState,
    exit: Option<ExitReason>,
}

impl View for App {
    type V = Controller;

    closed spec fn view(&self) -> Controller {
        Controller { state: self.state@, exit: self.exit }
    }
}

impl Default for App {
    fn default() -> (app: App)
        ensures
            app@ == Controller::initial(),
    {
        App::new()
    }
}

impl App {
    #[verifier::type_invariant]
    spec fn inv(self) -> bool {
        self@.wf()
    }

    /// A controller that has seen no activation yet.
    pub fn new() -> (app: App)
        ensures
            app@ == Controller::initial(),
            app@.wf(),
    {
        App { state: ApplicationState::Uninitialized, exit: None }
    }

    fn is_running_active(&self) -> (r: bool)
        ensures
            r == (self@.is_active() && !self@.is_terminated()),
    {
        self.exit.is_none() && matches!(self.state, ApplicationState::Active { .. })
    }

    /// Reaction to an activation, given what creating the window gave. Only
    /// the first activation of a running controller looks at `created`.
    pub fn activate_with(
        &mut self,
        created: Result<Provision, WindowCreationFailure>,
    ) -> (actions: Vec<Action>)
        ensures
            final(self)@ == old(self)@.activate(created).next,
            actions@ == old(self)@.activate(created).actions,
            final(self)@.wf(),
    {
        proof {
            use_type_invariant(&*self);
        }
        if self.exit.is_some() || matches!(self.state, ApplicationState::Active { .. }) {
            return Vec::new();
        }
        match created {
            Ok(made) => {
                let surface = RenderSurface::bind(
                    made.window.id,
                    made.window.client_size,
                    made.format,
                    made.present_mode,
                );
                self.state = ApplicationState::Active { window: made.window, surface };
                let mut actions = Vec::new();
                match surface.config() {
                    Some(config) => {
                        actions.push(Action::Configure(config));
                    },
                    None => {},
                }
                actions
            },
            Err(_) => {
                self.exit = Some(ExitReason::WindowCreationFailure);
                let mut actions = Vec::new();
                actions.push(Action::Log(Diagnostic::WindowCreationFailed));
                actions.push(Action::Exit(ExitReason::WindowCreationFailure));
                actions
            },
        }
    }

    /// Activation. The first activation of a running controller calls
    /// `create_window` once, with the window's title, and goes on as
    /// `activate_with` does on what it returned; any other activation does
    /// nothing and creates nothing.
    pub fn on_activate<F>(&mut self, create_window: F) -> (actions: Vec<Action>)
        where
            F: FnOnce(&'static str) -> Result<Provision, WindowCreationFailure>,
        requires
            old(self)@.wants_window() ==> call_requires(create_window, (WINDOW_TITLE,)),
        ensures
            !old(self)@.wants_window() ==> {
                &&& final(self)@ == old(self)@
                &&& actions@ == Seq::<Action>::empty()
            },
            old(self)@.wants_window() ==> exists|created: Result<Provision, WindowCreationFailure>|
                {
                    &&& call_ensures(create_window, (WINDOW_TITLE,), created)
                    &&& final(self)@ == old(self)@.activate(created).next
                    &&& actions@ == old(self)@.activate(created).actions
                },
            final(self)@.wf(),
    {
        proof {
            use_type_invariant(&*self);
        }
        if self.exit.is_some() || matches!(self.state, ApplicationState::Active { .. }) {
            return Vec::new();
        }
        let created = create_window(WINDOW_TITLE);
        self.activate_with(created)
    }

    /// An idle tick: asks for a redraw while the controller is active and
    /// running. This is what keeps frames coming.
    pub fn on_idle(&self) -> (actions: Vec<Action>)
        ensures
            actions@ == self@.idle().actions,
    {
        let mut actions = Vec::new();
        if self.is_running_active() {
            actions.push(Action::RequestRedraw);
        }
        actions
    }

    /// Reaction to an event of the window.
    pub fn on_window_event(&mut self, event: WindowSignal) -> (actions: Vec<Action>)
        ensures
            final(self)@ == old(self)@.window_event(event).next,
            actions@ == old(self)@.window_event(event).actions,
            final(self)@.wf(),
    {
        proof {
            use_type_invariant(&*self);
        }
        let mut actions = Vec::new();
        match event {
            WindowSignal::CloseRequested => {
                let reason = match self.exit {
                    Some(first) => first,
                    None => ExitReason::CloseRequested,
                };
                self.exit = Some(reason);
                actions.push(Action::Exit(reason));
            },
            WindowSignal::Resized(size) => {
                if self.exit.is_none() {
                    match self.state {
                        ApplicationState::Active { window, surface } => {
                            let mut surface = surface;
                            let applied = surface.reconfigure(size);
                            self.state = ApplicationState::Active {
                                window: Window { id: window.id, client_size: size },
                                surface,
                            };
                            match surface.config() {
                                Some(config) if applied => {
                                    actions.push(Action::Configure(config));
                                },
                                _ => {},
                            }
                        },
                        ApplicationState::Uninitialized => {},
                    }
                }
            },
            WindowSignal::RedrawRequested => {
                if self.exit.is_none() {
                    match self.state {
                        ApplicationState::Active { window: _, surface } => {
                            actions.push(Action::RequestRedraw);
                            if surface.size().is_some() {
                                actions.push(Action::RenderFrame);
                            }
                        },
                        ApplicationState::Uninitialized => {},
                    }
                }
            },
            WindowSignal::Other => {},
        }
        actions
    }

    /// Reaction to the end of the render pass that `Action::RenderFrame`
    /// asked for.
    pub fn on_frame_outcome(&mut self, outcome: FrameOutcome) -> (actions: Vec<Action>)
        ensures
            final(self)@ == old(self)@.frame_outcome(outcome).next,
            actions@ == old(self)@.frame_outcome(outcome).actions,
            final(self)@.wf(),
    {
        proof {
            use_type_invariant(&*self);
        }
        let mut actions = Vec::new();
        if self.exit.is_some() {
            return actions;
        }
        match self.state {
            ApplicationState::Active { window: _, surface } => match outcome {
                FrameOutcome::Presented => {},
                FrameOutcome::RecoverableSurfaceError(_) => {
                    match surface.config() {
                        Some(config) => {
                            actions.push(Action::Configure(config));
                        },
                        None => {},
                    }
                },
                FrameOutcome::FatalSurfaceError(_) => {
                    self.exit = Some(ExitReason::FatalSurfaceError);
                    actions.push(Action::Log(Diagnostic::OutOfMemory));
                    actions.push(Action::Exit(ExitReason::FatalSurfaceError));
                },
                FrameOutcome::TransientTimeout => {
                    actions.push(Action::Log(Diagnostic::SurfaceTimeout));
                },
            },
            ApplicationState::Uninitialized => {},
        }
        actions
    }

    /// Whether a window and its surface exist.
    pub fn is_active(&self) -> (r: bool)
        ensures
            r == self@.is_active(),
    {
        matches!(self.state, ApplicationState::Active { .. })
    }

    /// Whether the loop has been told to stop.
    pub fn is_terminated(&self) -> (r: bool)
        ensures
            r == self@.is_terminated(),
    {
        self.exit.is_some()
    }

    /// Why the loop was told to stop, once it has been.
    pub fn exit_reason(&self) -> (reason: Option<ExitReason>)
        ensures
            reason == self@.exit,
    {
        self.exit
    }

    /// The exit code that the process should end with: that of the reason
    /// the loop was stopped for, and that of a normal close while it runs.
    pub fn exit_code(&self) -> (code: i32)
        ensures
            code == match self@.exit {
                Some(reason) => reason.code(),
                None => EXIT_CLOSED,
            },
    {
        match self.exit {
            Some(reason) => reason.exit_code(),
            None => EXIT_CLOSED,
        }
    }

    /// The lifecycle state.
    pub fn state(&self) -> (state: ApplicationState)
        ensures
            state@ == self@.state,
            self@.wf(),
    {
        proof {
            use_type_invariant(self);
        }
        self.state
    }

    /// The window, once there is one.
    pub fn window(&self) -> (window: Option<Window>)
        ensures
            window == match self@.state {
                StateModel::Active { window, .. } => Some(window),
                StateModel::Uninitialized => None,
            },
    {
        match self.state {
            ApplicationState::Active { window, surface: _ } => Some(window),
            ApplicationState::Uninitialized => None,
        }
    }

    /// The size the surface is configured at, if there is a surface and it
    /// has been configured.
    pub fn surface_size(&self) -> (size: Option<SurfaceSize>)
        ensures
            size == self@.surface_size(),
            size matches Some(s) ==> s.is_drawable(),
    {
        match self.state {
            ApplicationState::Active { window: _, surface } => surface.size(),
            ApplicationState::Uninitialized => None,
        }
    }

    /// The configuration of the surface, if there is a surface and it has
    /// been configured.
    pub fn surface_config(&self) -> (config: Option<SurfaceConfiguration>)
        ensures
            config == self@.surface_config(),
            config matches Some(c) ==> c.size.is_drawable(),
    {
        match self.state {
            ApplicationState::Active { window: _, surface } => surface.config(),
            ApplicationState::Uninitialized => None,
        }
    }
}

} // verus!
