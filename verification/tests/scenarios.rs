use std::collections::VecDeque;

use tow::{
    Action, App, BackendError, Diagnostic, ExitReason, FrameOutcome, Provision, SurfaceSize,
    Window, WindowSignal,
};

/// A host that performs the controller's actions against a scripted backend.
struct MockHost {
    script: VecDeque<Result<(), BackendError>>,
    backend_stale: bool,
    configured: Vec<SurfaceSize>,
    redraw_requests: usize,
    frame_attempts: usize,
    outcomes: Vec<FrameOutcome>,
    logged: Vec<Diagnostic>,
    exits: Vec<ExitReason>,
}

impl MockHost {
    fn new(script: Vec<Result<(), BackendError>>) -> MockHost {
        MockHost {
            script: script.into(),
            backend_stale: false,
            configured: Vec::new(),
            redraw_requests: 0,
            frame_attempts: 0,
            outcomes: Vec::new(),
            logged: Vec::new(),
            exits: Vec::new(),
        }
    }

    fn attempt_frame(&mut self) -> Result<(), BackendError> {
        self.frame_attempts += 1;
        if self.backend_stale {
            return Err(BackendError::Lost);
        }
        self.script.pop_front().unwrap_or(Ok(()))
    }

    fn perform(&mut self, app: &mut App, actions: Vec<Action>) {
        for action in actions {
            match action {
                Action::RequestRedraw => self.redraw_requests += 1,
                Action::Configure(config) => {
                    self.configured.push(config.size);
                    self.backend_stale = false;
                }
                Action::RenderFrame => {
                    let outcome = FrameOutcome::classify(self.attempt_frame());
                    self.outcomes.push(outcome);
                    let follow_up = app.on_frame_outcome(outcome);
                    self.perform(app, follow_up);
                }
                Action::Log(diagnostic) => self.logged.push(diagnostic),
                Action::Exit(reason) => self.exits.push(reason),
            }
        }
    }

    fn activate(&mut self, app: &mut App, width: u32, height: u32) {
        let actions = app.on_activate(|_title| {
            Ok(Provision {
                window: Window { id: 1, client_size: SurfaceSize::new(width, height) },
                format: wgpu::TextureFormat::Bgra8UnormSrgb,
                present_mode: wgpu::PresentMode::Fifo,
            })
        });
        self.perform(app, actions);
    }

    fn deliver(&mut self, app: &mut App, signal: WindowSignal) {
        let actions = app.on_window_event(signal);
        self.perform(app, actions);
    }

    fn idle(&mut self, app: &mut App) {
        let actions = app.on_idle();
        self.perform(app, actions);
    }
}

#[test]
fn activate_resize_redraw_presents_at_new_size() {
    let mut app = App::new();
    let mut host = MockHost::new(vec![Ok(())]);
    host.activate(&mut app, 640, 480);
    host.deliver(&mut app, WindowSignal::Resized(SurfaceSize::new(800, 600)));
    host.deliver(&mut app, WindowSignal::RedrawRequested);
    assert_eq!(app.surface_size(), Some(SurfaceSize::new(800, 600)));
    assert_eq!(host.configured.last(), Some(&SurfaceSize::new(800, 600)));
    assert_eq!(host.outcomes, vec![FrameOutcome::Presented]);
    assert_eq!(host.frame_attempts, 1);
    assert_eq!(host.redraw_requests, 1);
    assert_eq!(host.exits, vec![]);
    assert!(!app.is_terminated());
}

#[test]
fn activate_redraw_fatal_terminates_once() {
    let mut app = App::new();
    let mut host = MockHost::new(vec![Err(BackendError::OutOfMemory)]);
    host.activate(&mut app, 640, 480);
    host.deliver(&mut app, WindowSignal::RedrawRequested);
    assert_eq!(host.exits, vec![ExitReason::FatalSurfaceError]);
    assert_eq!(host.logged, vec![Diagnostic::OutOfMemory]);
    assert_eq!(host.frame_attempts, 1);
    host.deliver(&mut app, WindowSignal::RedrawRequested);
    host.idle(&mut app);
    host.deliver(&mut app, WindowSignal::RedrawRequested);
    assert_eq!(host.frame_attempts, 1);
    assert_eq!(host.redraw_requests, 1);
    assert_eq!(host.exits, vec![ExitReason::FatalSurfaceError]);
    assert_eq!(app.exit_reason().map(|reason| reason.exit_code()), Some(2));
}

#[test]
fn recoverable_error_heals_on_next_frame() {
    let mut app = App::new();
    let mut host = MockHost::new(vec![]);
    host.activate(&mut app, 640, 480);
    host.backend_stale = true;
    host.deliver(&mut app, WindowSignal::RedrawRequested);
    host.deliver(&mut app, WindowSignal::RedrawRequested);
    assert_eq!(host.outcomes.len(), 2);
    assert!(matches!(host.outcomes[0], FrameOutcome::RecoverableSurfaceError(_)));
    assert_eq!(host.outcomes[1], FrameOutcome::Presented);
    assert_eq!(host.configured, vec![SurfaceSize::new(640, 480), SurfaceSize::new(640, 480)]);
    assert_eq!(host.exits, vec![]);
    assert!(!app.is_terminated());
}

#[test]
fn outdated_then_success_keeps_looping() {
    let mut app = App::new();
    let mut host = MockHost::new(vec![Err(BackendError::Outdated), Ok(())]);
    host.activate(&mut app, 1280, 720);
    host.deliver(&mut app, WindowSignal::RedrawRequested);
    host.deliver(&mut app, WindowSignal::RedrawRequested);
    assert_eq!(
        host.outcomes,
        vec![
            FrameOutcome::RecoverableSurfaceError(tow::RecoverableReason::Outdated),
            FrameOutcome::Presented,
        ]
    );
    assert_eq!(host.redraw_requests, 2);
    assert_eq!(app.surface_size(), Some(SurfaceSize::new(1280, 720)));
}

#[test]
fn timeout_drops_one_frame() {
    let mut app = App::new();
    let mut host = MockHost::new(vec![Err(BackendError::Timeout), Ok(())]);
    host.activate(&mut app, 640, 480);
    host.deliver(&mut app, WindowSignal::RedrawRequested);
    assert_eq!(host.logged, vec![Diagnostic::SurfaceTimeout]);
    assert_eq!(host.configured, vec![SurfaceSize::new(640, 480)]);
    host.deliver(&mut app, WindowSignal::RedrawRequested);
    assert_eq!(host.outcomes, vec![FrameOutcome::TransientTimeout, FrameOutcome::Presented]);
    assert_eq!(host.exits, vec![]);
}

#[test]
fn idle_ticks_drive_frames_until_close() {
    let mut app = App::new();
    let mut host = MockHost::new(vec![]);
    host.idle(&mut app);
    assert_eq!(host.redraw_requests, 0);
    host.activate(&mut app, 640, 480);
    for _ in 0..3 {
        host.idle(&mut app);
        host.deliver(&mut app, WindowSignal::RedrawRequested);
    }
    assert_eq!(host.redraw_requests, 6);
    assert_eq!(host.frame_attempts, 3);
    host.deliver(&mut app, WindowSignal::CloseRequested);
    assert_eq!(host.exits, vec![ExitReason::CloseRequested]);
    host.idle(&mut app);
    host.deliver(&mut app, WindowSignal::RedrawRequested);
    assert_eq!(host.redraw_requests, 6);
    assert_eq!(host.frame_attempts, 3);
    assert_eq!(app.exit_reason().map(|reason| reason.exit_code()), Some(0));
}

#[test]
fn minimize_and_restore_keeps_surface_valid() {
    let mut app = App::new();
    let mut host = MockHost::new(vec![]);
    host.activate(&mut app, 640, 480);
    host.deliver(&mut app, WindowSignal::Resized(SurfaceSize::new(0, 0)));
    assert_eq!(app.surface_size(), Some(SurfaceSize::new(640, 480)));
    host.deliver(&mut app, WindowSignal::Resized(SurfaceSize::new(1024, 768)));
    assert_eq!(app.surface_size(), Some(SurfaceSize::new(1024, 768)));
    assert_eq!(host.configured, vec![SurfaceSize::new(640, 480), SurfaceSize::new(1024, 768)]);
}
