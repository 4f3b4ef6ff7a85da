//! What holds of the controller over whole histories, proved from the state
//! machine in `model`.

use vstd::prelude::*;
use crate::event::{Action, Diagnostic, ExitReason, Provision, WindowCreationFailure, WindowSignal};
use crate::model::{Controller, HostEvent, StateModel};
use crate::surface::{FatalReason, FrameOutcome, RecoverableReason, SurfaceSize};

verus! {

/// The reports of a window that is resized to each of `sizes` in turn.
pub open spec fn resize_events(sizes: Seq<SurfaceSize>) -> Seq<HostEvent> {
    Seq::new(sizes.len(), |i: int| HostEvent::Window(WindowSignal::Resized(sizes[i])))
}

/// Whether `action` makes the host touch the window or the surface.
pub open spec fn is_frame_work(action: Action) -> bool {
    action is RequestRedraw || action is Configure || action is RenderFrame
}

/// Activating twice is activating once: whatever the first activation made of
/// the controller, a second one changes nothing and asks for nothing, so no
/// second window or surface comes to be. Where the first one was given a
/// window, the controller holds exactly that window, and a surface bound to
/// it.
pub proof fn activation_is_idempotent(
    c: Controller,
    first: Result<Provision, WindowCreationFailure>,
    second: Result<Provision, WindowCreationFailure>,
)
    ensures
        c.activate(first).next.activate(second) == c.activate(first).next.stay(),
        c.wants_window() && first is Ok ==> c.activate(first).next.activate(second).next.state
            == (StateModel::Active {
            window: first->Ok_0.window,
            surface: Controller::first_surface(first->Ok_0),
        }),
        !c.is_terminated() && first is Ok ==> c.activate(first).next.activate(
            second,
        ).next.is_active(),
{
}

/// Every transition keeps the controller well-formed.
pub proof fn step_preserves_wf(c: Controller, event: HostEvent)
    requires
        c.wf(),
    ensures
        c.step(event).next.wf(),
{
}

/// The controller is well-formed after any history: the surface stays bound
/// to its window, never holds a zero-sized configuration, and matches the
/// window's client size whenever that size is drawable.
pub proof fn run_preserves_wf(c: Controller, events: Seq<HostEvent>)
    requires
        c.wf(),
    ensures
        c.run(events).wf(),
    decreases events.len(),
{
    if events.len() > 0 {
        run_preserves_wf(c, events.drop_last());
        step_preserves_wf(c.run(events.drop_last()), events.last());
    }
}

/// The lifecycle only moves forward: an active controller stays active
/// through any history, with the window it has.
pub proof fn run_never_deactivates(c: Controller, events: Seq<HostEvent>)
    requires
        c.is_active(),
    ensures
        c.run(events).is_active(),
        c.run(events).state->window.id == c.state->window.id,
        c.run(events).state->surface.window == c.state->surface.window,
    decreases events.len(),
{
    if events.len() > 0 {
        run_never_deactivates(c, events.drop_last());
    }
}

/// Format and present mode of the surface are chosen once: no history
/// changes them, and every configuration asked of the host carries them.
pub proof fn run_keeps_format_and_present_mode(c: Controller, events: Seq<HostEvent>)
    requires
        c.is_active(),
    ensures
        c.run(events).is_active(),
        c.run(events).state->surface.format == c.state->surface.format,
        c.run(events).state->surface.present_mode == c.state->surface.present_mode,
        forall|i: int|
            0 <= i < c.trace(events).len() ==> ((#[trigger] c.trace(events)[i])
                matches Action::Configure(config) ==> config.format == c.state->surface.format
                && config.present_mode == c.state->surface.present_mode),
    decreases events.len(),
{
    if events.len() > 0 {
        run_keeps_format_and_present_mode(c, events.drop_last());
    }
}

/// No configuration with a zero dimension is ever asked of the host.
pub proof fn configure_is_never_zero_sized(c: Controller, event: HostEvent, i: int)
    requires
        c.wf(),
        0 <= i < c.step(event).actions.len(),
        c.step(event).actions[i] is Configure,
    ensures
        c.step(event).actions[i]->Configure_0.size.is_drawable(),
        Some(c.step(event).actions[i]->Configure_0) == c.step(event).next.surface_config(),
{
}

/// Once the loop has been told to stop, the reason stands through any
/// history.
pub proof fn run_keeps_exit_reason(c: Controller, events: Seq<HostEvent>)
    requires
        c.is_terminated(),
    ensures
        c.run(events).exit == c.exit,
        c.run(events).state == c.state,
    decreases events.len(),
{
    if events.len() > 0 {
        run_keeps_exit_reason(c, events.drop_last());
    }
}

/// After resizes to drawable sizes, one or many, the surface of a running,
/// active controller is configured at the last of them.
pub proof fn resizes_configure_last_size(c: Controller, sizes: Seq<SurfaceSize>)
    requires
        c.is_active(),
        !c.is_terminated(),
        sizes.len() > 0,
        forall|i: int| 0 <= i < sizes.len() ==> (#[trigger] sizes[i]).is_drawable(),
    ensures
        c.run(resize_events(sizes)).surface_size() == Some(sizes.last()),
        c.run(resize_events(sizes)).state->window.client_size == sizes.last(),
        !c.run(resize_events(sizes)).is_terminated(),
    decreases sizes.len(),
{
    let events = resize_events(sizes);
    assert(events.last() == HostEvent::Window(WindowSignal::Resized(sizes.last())));
    assert(events.drop_last() =~= resize_events(sizes.drop_last()));
    let before = c.run(events.drop_last());
    if sizes.len() > 1 {
        resizes_configure_last_size(c, sizes.drop_last());
    } else {
        assert(events.drop_last().len() == 0);
    }
    run_never_deactivates(c, events.drop_last());
    assert(before.is_active() && !before.is_terminated());
}

/// A resize to a size with a zero dimension leaves the surface as it is and
/// asks nothing of the host.
pub proof fn zero_sized_resize_keeps_surface(c: Controller, size: SurfaceSize)
    requires
        !size.is_drawable(),
    ensures
        c.window_event(WindowSignal::Resized(size)).next.surface_config() == c.surface_config(),
        c.window_event(WindowSignal::Resized(size)).next.surface_size() == c.surface_size(),
        c.is_active() ==> c.window_event(WindowSignal::Resized(size)).next.state->surface
            == c.state->surface,
        c.window_event(WindowSignal::Resized(size)).actions == Seq::<Action>::empty(),
{
}

/// Whatever is reported, a configuration in force is never zero-sized, and
/// only a resize to a drawable size or an activation can change it.
pub proof fn configuration_changes_only_by_drawable_resize(c: Controller, event: HostEvent)
    requires
        c.wf(),
    ensures
        c.step(event).next.surface_size() matches Some(size) ==> size.is_drawable(),
        c.step(event).next.surface_size() != c.surface_size() ==> {
            ||| event matches HostEvent::Window(WindowSignal::Resized(size)) && size.is_drawable()
            ||| event is Activated && !c.is_active()
        },
{
}

/// A recoverable surface error heals itself: the surface is configured again
/// at the size it has, the loop goes on, and the next redraw makes a render
/// attempt against the surface so configured.
pub proof fn recoverable_error_reconfigures(c: Controller, reason: RecoverableReason)
    requires
        c.is_active(),
        !c.is_terminated(),
        c.surface_size() is Some,
    ensures
        c.frame_outcome(FrameOutcome::RecoverableSurfaceError(reason)).next == c,
        c.frame_outcome(FrameOutcome::RecoverableSurfaceError(reason)).actions == seq![
            Action::Configure(c.surface_config()->0),
        ],
        c.frame_outcome(FrameOutcome::RecoverableSurfaceError(reason)).next.redraw().actions
            == seq![Action::RequestRedraw, Action::RenderFrame],
{
}

/// The reaction to a frame outcome never draws: it asks for no render pass
/// and no redraw, so a surface that keeps failing is configured once per
/// failed frame and cannot spin the controller.
pub proof fn frame_outcome_never_draws(c: Controller, outcome: FrameOutcome, i: int)
    requires
        0 <= i < c.frame_outcome(outcome).actions.len(),
    ensures
        !(c.frame_outcome(outcome).actions[i] is RenderFrame),
        !(c.frame_outcome(outcome).actions[i] is RequestRedraw),
        c.frame_outcome(outcome).actions.len() <= 2,
{
}

/// A timeout drops one frame and nothing more: the state is untouched and the
/// host is asked only to log a warning.
pub proof fn timeout_is_ignored(c: Controller)
    requires
        c.is_active(),
        !c.is_terminated(),
    ensures
        c.frame_outcome(FrameOutcome::TransientTimeout).next == c,
        c.frame_outcome(FrameOutcome::TransientTimeout).actions == seq![
            Action::Log(Diagnostic::SurfaceTimeout),
        ],
{
}

/// After the loop has been told to stop, no history makes the host touch the
/// window or the surface again: every action asked for is a repeated `Exit`,
/// in answer to a close request, with the reason that stands.
pub proof fn terminated_asks_no_frame_work(c: Controller, events: Seq<HostEvent>)
    requires
        c.is_terminated(),
    ensures
        forall|i: int|
            0 <= i < c.trace(events).len() ==> (#[trigger] c.trace(events)[i]) == Action::Exit(
                c.exit->0,
            ),
        (forall|j: int|
            0 <= j < events.len() ==> (#[trigger] events[j]) != HostEvent::Window(
                WindowSignal::CloseRequested,
            )) ==> c.trace(events) == Seq::<Action>::empty(),
    decreases events.len(),
{
    if events.len() > 0 {
        let prefix = events.drop_last();
        terminated_asks_no_frame_work(c, prefix);
        run_keeps_exit_reason(c, prefix);
        let before = c.run(prefix);
        let last = before.step(events.last());
        assert(c.trace(events) == c.trace(prefix) + last.actions);
        assert forall|i: int| 0 <= i < last.actions.len() implies (#[trigger] last.actions[i])
            == Action::Exit(c.exit->0) by {}
        if forall|j: int|
            0 <= j < events.len() ==> (#[trigger] events[j]) != HostEvent::Window(
                WindowSignal::CloseRequested,
            ) {
            assert forall|j: int| 0 <= j < prefix.len() implies (#[trigger] prefix[j])
                != HostEvent::Window(WindowSignal::CloseRequested) by {
                assert(prefix[j] == events[j]);
            }
            assert(events.last() == events[events.len() - 1]);
            assert(last.actions =~= Seq::<Action>::empty());
            assert(c.trace(events) =~= Seq::<Action>::empty());
        }
    }
}

/// A fatal surface error halts the loop: it is logged, the loop is told to
/// stop exactly once, and whatever is reported afterwards, redraw requests
/// included, no render pass, redraw or configuration is asked for again.
/// Unless the window is also asked to close, nothing at all is asked for
/// again.
pub proof fn fatal_error_halts(c: Controller, reason: FatalReason, later: Seq<HostEvent>)
    requires
        c.is_active(),
        !c.is_terminated(),
    ensures
        c.frame_outcome(FrameOutcome::FatalSurfaceError(reason)).actions == seq![
            Action::Log(Diagnostic::OutOfMemory),
            Action::Exit(ExitReason::FatalSurfaceError),
        ],
        c.frame_outcome(FrameOutcome::FatalSurfaceError(reason)).next.exit == Some(
            ExitReason::FatalSurfaceError,
        ),
        c.frame_outcome(FrameOutcome::FatalSurfaceError(reason)).next.run(later).exit == Some(
            ExitReason::FatalSurfaceError,
        ),
        forall|i: int|
            0 <= i < c.frame_outcome(FrameOutcome::FatalSurfaceError(reason)).next.trace(
                later,
            ).len() ==> !is_frame_work(
                #[trigger] c.frame_outcome(FrameOutcome::FatalSurfaceError(reason)).next.trace(
                    later,
                )[i],
            ),
        c.frame_outcome(FrameOutcome::FatalSurfaceError(reason)).next.redraw().actions
            == Seq::<Action>::empty(),
        (forall|j: int|
            0 <= j < later.len() ==> (#[trigger] later[j]) != HostEvent::Window(
                WindowSignal::CloseRequested,
            )) ==> c.frame_outcome(FrameOutcome::FatalSurfaceError(reason)).next.trace(later)
            == Seq::<Action>::empty(),
{
    let halted = c.frame_outcome(FrameOutcome::FatalSurfaceError(reason)).next;
    terminated_asks_no_frame_work(halted, later);
    run_keeps_exit_reason(halted, later);
}

/// A close request always stops the loop, before activation as well as
/// after: the controller is terminated and the host is told to exit. The
/// reason is the close request unless an earlier one stands.
pub proof fn close_always_terminates(c: Controller)
    ensures
        c.window_event(WindowSignal::CloseRequested).next.is_terminated(),
        c.window_event(WindowSignal::CloseRequested).next.state == c.state,
        c.window_event(WindowSignal::CloseRequested).actions == seq![
            Action::Exit(c.window_event(WindowSignal::CloseRequested).next.exit->0),
        ],
        !c.is_terminated() ==> c.window_event(WindowSignal::CloseRequested).next.exit == Some(
            ExitReason::CloseRequested,
        ),
        c.is_terminated() ==> c.window_event(WindowSignal::CloseRequested).next.exit == c.exit,
{
}

/// The loop stops only for a cause: a controller that was running is
/// terminated after a report only if that report was a close request, a
/// fatal frame outcome, or an activation that could create no window.
pub proof fn termination_has_a_cause(c: Controller, event: HostEvent)
    requires
        !c.is_terminated(),
        c.step(event).next.is_terminated(),
    ensures
        match event {
            HostEvent::Window(signal) => signal == WindowSignal::CloseRequested
                && c.step(event).next.exit == Some(ExitReason::CloseRequested),
            HostEvent::Frame(outcome) => outcome is FatalSurfaceError && c.is_active()
                && c.step(event).next.exit == Some(ExitReason::FatalSurfaceError),
            HostEvent::Activated(created) => created is Err && !c.is_active()
                && c.step(event).next.exit == Some(ExitReason::WindowCreationFailure),
            HostEvent::Idle => false,
        },
{
}

/// A render pass is only ever asked for right after the request for the next
/// redraw, and only of a running controller with a configured surface.
pub proof fn render_follows_redraw_request(c: Controller, event: HostEvent, i: int)
    requires
        0 <= i < c.step(event).actions.len(),
        c.step(event).actions[i] == Action::RenderFrame,
    ensures
        i == 1,
        c.step(event).actions[0] == Action::RequestRedraw,
        event == HostEvent::Window(WindowSignal::RedrawRequested),
        c.is_active() && !c.is_terminated(),
        c.surface_size() is Some,
{
}

} // verus!
