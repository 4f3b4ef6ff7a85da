//! Event-driven render loop for one window and the surface bound to it.
//!
//! The controller in [`app`] turns what the host platform reports (activation,
//! idle ticks, window events, the result of each frame) into a new state and a
//! list of actions for the host to perform, in order. Nothing here touches the
//! platform: the host creates the window, draws and presents.

pub mod app;
pub mod event;
pub mod host;
pub mod laws;
pub mod model;
pub mod surface;

pub use surface::{BackendError, FatalReason, FrameOutcome, RecoverableReason, RenderSurface,
    SurfaceConfiguration, SurfaceModel, SurfaceSize};
pub use event::{Action, Diagnostic, ExitReason, Provision, Severity, Window, WindowCreationFailure,
    WindowSignal, EXIT_CLOSED, EXIT_FATAL_SURFACE, EXIT_NO_WINDOW, WINDOW_TITLE};
pub use model::{Controller, HostEvent, StateModel, Step};
pub use app::{App, ApplicationState};
pub use host::{backend_error, backend_result, outcome_of_attempt, surface_error_kind,
    window_signal};
