//! Where the controller meets the windowing and graphics crates: their event
//! and error types are reduced to the controller's own, and the reaction is
//! the controller's.

use vstd::prelude::*;
use crate::app::App;
use crate::event::{Action, WindowSignal};
use crate::surface::{BackendError, FrameOutcome, SurfaceSize};

verus! {

/// `wgpu::SurfaceError`, the error of `wgpu::Surface::get_current_texture`:
/// an enum of four variants without fields, which the verifier reads as they
/// are declared.
#[verifier::external_type_specification]
pub struct ExSurfaceError(wgpu::SurfaceError);

/// `wgpu::TextureFormat`, the pixel format of a surface. The controller never
/// looks into a value; it hands on the one it was given.
#[verifier::external_type_specification]
#[verifier::external_body]
pub struct ExTextureFormat(wgpu::TextureFormat);

/// `wgpu::PresentMode`, the way frames of a surface reach the screen. The
/// controller never looks into a value; it hands on the one it was given.
#[verifier::external_type_specification]
#[verifier::external_body]
pub struct ExPresentMode(wgpu::PresentMode);

/// `winit::event::WindowEvent`. The verifier sees nothing inside a value;
/// what the controller makes of one is `window_signal`.
#[verifier::external_type_specification]
#[verifier::external_body]
pub struct ExWindowEvent(winit::event::WindowEvent);

/// The backend error that an error of the graphics crate stands for.
pub open spec fn backend_error(error: wgpu::SurfaceError) -> BackendError {
    match error {
        wgpu::SurfaceError::Timeout => BackendError::Timeout,
        wgpu::SurfaceError::Outdated => BackendError::Outdated,
        wgpu::SurfaceError::Lost => BackendError::Lost,
        wgpu::SurfaceError::OutOfMemory => BackendError::OutOfMemory,
    }
}

/// What a frame attempt returned, with the error in the controller's terms.
pub open spec fn backend_result(
    result: Result<(), wgpu::SurfaceError>,
) -> Result<(), BackendError> {
    match result {
        Ok(_) => Ok(()),
        Err(error) => Err(backend_error(error)),
    }
}

/// Reduces an error of the graphics crate to the backend error it stands for.
pub fn surface_error_kind(error: &wgpu::SurfaceError) -> (kind: BackendError)
    ensures
        kind == backend_error(*error),
{
    match error {
        wgpu::SurfaceError::Timeout => BackendError::Timeout,
        wgpu::SurfaceError::Outdated => BackendError::Outdated,
        wgpu::SurfaceError::Lost => BackendError::Lost,
        wgpu::SurfaceError::OutOfMemory => BackendError::OutOfMemory,
    }
}

/// The signal that an event of the windowing crate stands for. It depends on
/// the event alone: the same event is always the same signal.
pub uninterp spec fn window_signal(event: winit::event::WindowEvent) -> WindowSignal;

/// Tells the variants of `winit::event::WindowEvent` apart: `CloseRequested`
/// and `RedrawRequested` as themselves, `Resized` with the width and height of
/// its `PhysicalSize<u32>`, every other variant as `Other`. Unproved: the
/// contract claims only that the result is the event's `window_signal`, and
/// which signal that is for a given event is stated nowhere.
#[verifier::external_body]
fn window_event_kind(event: &winit::event::WindowEvent) -> (kind: WindowSignal)
    ensures
        kind == window_signal(*event),
{
    match event {
        winit::event::WindowEvent::CloseRequested => WindowSignal::CloseRequested,
        winit::event::WindowEvent::Resized(size) => WindowSignal::Resized(
            SurfaceSize { width: size.width, height: size.height },
        ),
        winit::event::WindowEvent::RedrawRequested => WindowSignal::RedrawRequested,
        _ => WindowSignal::Other,
    }
}

/// The outcome of a render pass whose frame the backend handed out, or
/// refused with an error: success is `Presented`, a lost or outdated surface
/// is recoverable, exhausted memory is fatal, a timeout is transient.
pub fn outcome_of_attempt(result: &Result<(), wgpu::SurfaceError>) -> (outcome: FrameOutcome)
    ensures
        outcome == FrameOutcome::of(backend_result(*result)),
{
    match result {
        Ok(_) => FrameOutcome::classify(Ok(())),
        Err(error) => {
            let kind = surface_error_kind(error);
            FrameOutcome::classify(Err(kind))
        },
    }
}

impl App {
    /// Reaction to an event of the window as the windowing crate delivers it:
    /// that of `on_window_event` to the signal the event stands for.
    pub fn on_host_window_event(
        &mut self,
        event: &winit::event::WindowEvent,
    ) -> (actions: Vec<Action>)
        ensures
            final(self)@ == old(self)@.window_event(window_signal(*event)).next,
            actions@ == old(self)@.window_event(window_signal(*event)).actions,
            final(self)@.wf(),
    {
        let kind = window_event_kind(event);
        self.on_window_event(kind)
    }

    /// Reaction to the end of a render pass as the graphics crate reports it:
    /// that of `on_frame_outcome` to the classified result.
    pub fn on_render_result(
        &mut self,
        result: &Result<(), wgpu::SurfaceError>,
    ) -> (actions: Vec<Action>)
        ensures
            final(self)@ == old(self)@.frame_outcome(
                FrameOutcome::of(backend_result(*result)),
            ).next,
            actions@ == old(self)@.frame_outcome(
                FrameOutcome::of(backend_result(*result)),
            ).actions,
            final(self)@.wf(),
    {
        let outcome = outcome_of_attempt(result);
        self.on_frame_outcome(outcome)
    }
}

} // verus!
