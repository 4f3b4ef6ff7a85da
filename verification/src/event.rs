//! What the host reports to the controller, and what the controller asks of
//! the host in return.

use vstd::prelude::*;
use crate::surface::{SurfaceConfiguration, SurfaceSize};

verus! {

/// The platform window, as far as the controller knows it: an identity that
/// never changes, and the client size that the platform reported last.
#[derive(Clone, Copy, Debug, PartialEq, Eq, Structural)]
pub struct Window {
    pub id: u64,
    pub client_size: SurfaceSize,
}

/// Title of the one window.
pub const WINDOW_TITLE: &'static str = "winit example";

/// What the platform made on activation: the window, and the presentation
/// format and present mode that its surface is to use.
#[derive(Clone, Copy, Debug, PartialEq, Eq)]
pub struct Provision {
    pub window: Window,
    pub format: wgpu::TextureFormat,
    pub present_mode: wgpu::PresentMode,
}

/// The platform could not create the window.
#[derive(Clone, Copy, Debug, PartialEq, Eq, Structural)]
pub struct WindowCreationFailure;

/// An event of the window, reduced to what the controller reacts to.
#[derive(Clone, Copy, Debug, PartialEq, Eq, Structural)]
pub enum WindowSignal {
    /// The user asked to close the window.
    CloseRequested,
    /// The client area has this size now.
    Resized(SurfaceSize),
    /// The window wants its contents drawn.
    RedrawRequested,
    /// Any other event.
    Other,
}

/// Why the loop was told to stop.
#[derive(Clone, Copy, Debug, PartialEq, Eq, Structural)]
pub enum ExitReason {
    CloseRequested,
    FatalSurfaceError,
    WindowCreationFailure,
}

/// Exit code of a run that the user closed.
pub const EXIT_CLOSED: i32 = 0;

/// Exit code of a run that ended because no window could be created.
pub const EXIT_NO_WINDOW: i32 = 1;

/// Exit code of a run that ended on a fatal surface error.
pub const EXIT_FATAL_SURFACE: i32 = 2;

impl ExitReason {
    /// The process exit code that stands for this reason: zero for a normal
    /// close, and a non-zero code of its own for each failure.
    pub open spec fn code(self) -> i32 {
        match self {
            ExitReason::CloseRequested => EXIT_CLOSED,
            ExitReason::WindowCreationFailure => EXIT_NO_WINDOW,
            ExitReason::FatalSurfaceError => EXIT_FATAL_SURFACE,
        }
    }

    pub fn exit_code(&self) -> (code: i32)
        ensures
            code == self.code(),
            code == 0 <==> *self == ExitReason::CloseRequested,
    {
        match self {
            ExitReason::CloseRequested => EXIT_CLOSED,
            ExitReason::WindowCreationFailure => EXIT_NO_WINDOW,
            ExitReason::FatalSurfaceError => EXIT_FATAL_SURFACE,
        }
    }
}

/// How serious a diagnostic is.
#[derive(Clone, Copy, Debug, PartialEq, Eq, Structural)]
pub enum Severity {
    Warning,
    Error,
}

/// A condition that the host is asked to put in its log.
#[derive(Clone, Copy, Debug, PartialEq, Eq, Structural)]
pub enum Diagnostic {
    /// No window could be created.
    WindowCreationFailed,
    /// The backend ran out of memory.
    OutOfMemory,
    /// A frame took too long and was dropped.
    SurfaceTimeout,
}

impl Diagnostic {
    /// Dropped frames are warnings; what ends the loop is an error.
    pub open spec fn level(self) -> Severity {
        match self {
            Diagnostic::SurfaceTimeout => Severity::Warning,
            Diagnostic::WindowCreationFailed => Severity::Error,
            Diagnostic::OutOfMemory => Severity::Error,
        }
    }

    /// The text to log.
    pub open spec fn text(self) -> Seq<char> {
        match self {
            Diagnostic::WindowCreationFailed => "create window err."@,
            Diagnostic::OutOfMemory => "OutOfMemory"@,
            Diagnostic::SurfaceTimeout => "Surface timeout"@,
        }
    }

    pub fn severity(&self) -> (severity: Severity)
        ensures
            severity == self.level(),
    {
        match self {
            Diagnostic::SurfaceTimeout => Severity::Warning,
            Diagnostic::WindowCreationFailed => Severity::Error,
            Diagnostic::OutOfMemory => Severity::Error,
        }
    }

    pub fn message(&self) -> (message: &'static str)
        ensures
            message@ == self.text(),
    {
        match self {
            Diagnostic::WindowCreationFailed => "create window err.",
            Diagnostic::OutOfMemory => "OutOfMemory",
            Diagnostic::SurfaceTimeout => "Surface timeout",
        }
    }
}

/// One thing the host is asked to do. The host performs the actions of a list
/// in the order of the list.
#[derive(Clone, Copy, Debug, PartialEq, Eq)]
pub enum Action {
    /// Ask the platform for another redraw of the window.
    RequestRedraw,
    /// Configure the backend surface with this.
    Configure(SurfaceConfiguration),
    /// Attempt one render pass and report how it ended.
    RenderFrame,
    /// Write this to the log.
    Log(Diagnostic),
    /// Stop the loop.
    Exit(ExitReason),
}

} // verus!
