//! The frame cycle of the render domain.
//!
//! A frame goes from `Idle` to `Bound` when the backend's framebuffer is
//! acquired, to `Rendered` when every visible surface has been drawn into
//! it, to `Submitted` when the frame has been handed over for display, and
//! back to `Idle` once the surfaces were told and the next redraw is asked
//! for. A step that fails gives the frame up and the cycle starts again at
//! the next tick. The capture that is pending is serviced between
//! `Rendered` and `Submitted`, and at no other point.
use crate::bridge::{
    capture_of, dispatched, is_capture, ChannelEvent, PendingCapture, RenderDomain,
};
use vstd::prelude::*;

verus! {

/// Where the frame cycle stands.
#[derive(Clone, Copy, Debug, PartialEq, Eq, Structural)]
pub enum FramePhase {
    Idle,
    Bound,
    Rendered,
    Submitted,
}

/// How a step of the frame cycle ended.
#[derive(Clone, Copy, Debug, PartialEq, Eq, Structural)]
pub enum FrameEvent {
    /// The framebuffer was acquired.
    BindSucceeded,
    /// The framebuffer could not be acquired.
    BindFailed,
    /// Every visible surface was drawn.
    RenderSucceeded,
    /// Drawing failed.
    RenderFailed,
    /// The frame was handed over for display.
    SubmitSucceeded,
    /// The frame could not be handed over.
    SubmitFailed,
    /// The surfaces were told of the frame, the clients were flushed and the
    /// next redraw was asked for.
    Presented,
}

/// What the caller of the frame cycle has to do next.
#[derive(Debug)]
pub enum FrameAction {
    /// Draw every visible surface into the bound framebuffer.
    Render,
    /// Service the capture, if there is one, against the framebuffer just
    /// drawn, and resolve it whatever the outcome; then hand the frame over
    /// for display.
    Submit(Option<PendingCapture>),
    /// Tell the surfaces, flush the clients, ask for the next redraw.
    Present,
    /// The cycle is complete; wait for the next tick.
    Rest,
    /// This frame is given up; note the failure and wait for the next tick.
    Abandon,
    /// The event does not belong to the phase the cycle is in.
    Ignore,
}

/// The state after a step of the frame cycle ended with `event`, and the
/// action owed for it.
pub open spec fn frame_step(domain: RenderDomain, event: FrameEvent) -> (
    RenderDomain,
    FrameAction,
) {
    match (domain.phase, event) {
        (FramePhase::Idle, FrameEvent::BindSucceeded) => (
            RenderDomain { phase: FramePhase::Bound, pending: domain.pending },
            FrameAction::Render,
        ),
        (FramePhase::Idle, FrameEvent::BindFailed) => (domain, FrameAction::Abandon),
        (FramePhase::Bound, FrameEvent::RenderSucceeded) => (
            RenderDomain { phase: FramePhase::Rendered, pending: None },
            FrameAction::Submit(domain.pending),
        ),
        (FramePhase::Bound, FrameEvent::RenderFailed) => (
            RenderDomain { phase: FramePhase::Idle, pending: domain.pending },
            FrameAction::Abandon,
        ),
        (FramePhase::Rendered, FrameEvent::SubmitSucceeded) => (
            RenderDomain { phase: FramePhase::Submitted, pending: domain.pending },
            FrameAction::Present,
        ),
        (FramePhase::Rendered, FrameEvent::SubmitFailed) => (
            RenderDomain { phase: FramePhase::Idle, pending: domain.pending },
            FrameAction::Abandon,
        ),
        (FramePhase::Submitted, FrameEvent::Presented) => (
            RenderDomain { phase: FramePhase::Idle, pending: domain.pending },
            FrameAction::Rest,
        ),
        _ => (domain, FrameAction::Ignore),
    }
}

/// The state after the steps of `events`, taken in order.
pub open spec fn frames_run(domain: RenderDomain, events: Seq<FrameEvent>) -> RenderDomain
    decreases events.len(),
{
    if events.len() == 0 {
        domain
    } else {
        frame_step(frames_run(domain, events.drop_last()), events.last()).0
    }
}

/// Whether the step that ends with `event` in `phase` completes the drawing
/// of a frame.
pub open spec fn completes_render(phase: FramePhase, event: FrameEvent) -> bool {
    phase == FramePhase::Bound && event == FrameEvent::RenderSucceeded
}

/// The event with which the step that is due in `phase` succeeds.
pub open spec fn success_of(phase: FramePhase) -> FrameEvent {
    match phase {
        FramePhase::Idle => FrameEvent::BindSucceeded,
        FramePhase::Bound => FrameEvent::RenderSucceeded,
        FramePhase::Rendered => FrameEvent::SubmitSucceeded,
        FramePhase::Submitted => FrameEvent::Presented,
    }
}

/// The state after `steps` steps that all succeed.
pub open spec fn live_run(domain: RenderDomain, steps: nat) -> RenderDomain
    decreases steps,
{
    if steps == 0 {
        domain
    } else {
        let before = live_run(domain, (steps - 1) as nat);
        frame_step(before, success_of(before.phase)).0
    }
}

/// How many succeeding steps lead from `phase` to a bound framebuffer.
pub open spec fn steps_to_bound(phase: FramePhase) -> nat {
    match phase {
        FramePhase::Idle => 1,
        FramePhase::Bound => 0,
        FramePhase::Rendered => 3,
        FramePhase::Submitted => 2,
    }
}

impl RenderDomain {
    /// Takes the end of one step of the frame cycle and says what is due
    /// next. The pending capture leaves the state only when a frame has been
    /// drawn: it is handed out with `Submit`, and from then on nothing is
    /// pending. An event that does not belong to the current phase changes
    /// nothing.
    pub fn on_frame_event(&mut self, event: FrameEvent) -> (action: FrameAction)
        ensures
            (*final(self), action) == frame_step(*old(self), event),
    {
        match (self.phase, event) {
            (FramePhase::Idle, FrameEvent::BindSucceeded) => {
                self.phase = FramePhase::Bound;
                FrameAction::Render
            },
            (FramePhase::Idle, FrameEvent::BindFailed) => FrameAction::Abandon,
            (FramePhase::Bound, FrameEvent::RenderSucceeded) => {
                self.phase = FramePhase::Rendered;
                FrameAction::Submit(self.pending.take())
            },
            (FramePhase::Bound, FrameEvent::RenderFailed) => {
                self.phase = FramePhase::Idle;
                FrameAction::Abandon
            },
            (FramePhase::Rendered, FrameEvent::SubmitSucceeded) => {
                self.phase = FramePhase::Submitted;
                FrameAction::Present
            },
            (FramePhase::Rendered, FrameEvent::SubmitFailed) => {
                self.phase = FramePhase::Idle;
                FrameAction::Abandon
            },
            (FramePhase::Submitted, FrameEvent::Presented) => {
                self.phase = FramePhase::Idle;
                FrameAction::Rest
            },
            _ => FrameAction::Ignore,
        }
    }

    /// Where the frame cycle stands.
    pub fn phase(&self) -> (phase: FramePhase)
        ensures
            phase == self.phase,
    {
        self.phase
    }
}

/// A capture stays pending until a frame has been drawn: steps of which none
/// completes the drawing of a frame leave the pending capture as it was.
pub proof fn lemma_pending_waits_for_render(domain: RenderDomain, events: Seq<FrameEvent>)
    requires
        forall|i: int|
            0 <= i < events.len() ==> !completes_render(
                #[trigger] frames_run(domain, events.subrange(0, i)).phase,
                events[i],
            ),
    ensures
        frames_run(domain, events).pending == domain.pending,
    decreases events.len(),
{
    if events.len() > 0 {
        let head = events.drop_last();
        assert forall|i: int| 0 <= i < head.len() implies !completes_render(
            #[trigger] frames_run(domain, head.subrange(0, i)).phase,
            head[i],
        ) by {
            assert(head.subrange(0, i) =~= events.subrange(0, i));
            assert(head[i] == events[i]);
        }
        lemma_pending_waits_for_render(domain, head);
        let last = events.len() - 1;
        assert(events.subrange(0, last) =~= head);
        assert(!completes_render(frames_run(domain, events.subrange(0, last)).phase, events[last]));
    }
}

/// The first frame that is drawn serves the capture: the step that
/// completes the drawing hands out what was pending, and leaves nothing
/// pending.
pub proof fn lemma_render_serves_pending(domain: RenderDomain)
    requires
        domain.phase == FramePhase::Bound,
    ensures
        frame_step(domain, FrameEvent::RenderSucceeded).1 == FrameAction::Submit(domain.pending),
        frame_step(domain, FrameEvent::RenderSucceeded).0.pending is None,
        frame_step(domain, FrameEvent::RenderSucceeded).0.phase == FramePhase::Rendered,
{
}

/// In a render loop whose steps succeed, a pending capture is served after
/// at most four steps: wherever the cycle stands, the steps that lead to a
/// bound framebuffer keep the capture pending, and the step after them
/// hands it out.
pub proof fn lemma_live_loop_serves_pending(domain: RenderDomain)
    ensures
        steps_to_bound(domain.phase) <= 3,
        live_run(domain, steps_to_bound(domain.phase)).phase == FramePhase::Bound,
        live_run(domain, steps_to_bound(domain.phase)).pending == domain.pending,
        frame_step(
            live_run(domain, steps_to_bound(domain.phase)),
            FrameEvent::RenderSucceeded,
        ).1 == FrameAction::Submit(domain.pending),
{
    reveal_with_fuel(live_run, 4);
}

/// A frame that is given up keeps the capture pending and returns the cycle
/// to rest, so that the next tick starts a fresh attempt.
pub proof fn lemma_abandoned_frame_keeps_pending(domain: RenderDomain, event: FrameEvent)
    requires
        frame_step(domain, event).1 == FrameAction::Abandon,
    ensures
        frame_step(domain, event).0.phase == FramePhase::Idle,
        frame_step(domain, event).0.pending == domain.pending,
{
}

/// A capture that is asked for waits for the first frame that is drawn and
/// is served by it: after the capture command, steps of which none
/// completes the drawing of a frame leave it pending, and when they end
/// with a bound framebuffer, the drawing that succeeds next hands out this
/// capture and no other.
pub proof fn lemma_capture_is_served_by_next_frame(
    domain: RenderDomain,
    event: ChannelEvent,
    events: Seq<FrameEvent>,
)
    requires
        is_capture(event),
        forall|i: int|
            0 <= i < events.len() ==> !completes_render(
                #[trigger] frames_run(dispatched(domain, event).0, events.subrange(0, i)).phase,
                events[i],
            ),
        frames_run(dispatched(domain, event).0, events).phase == FramePhase::Bound,
    ensures
        frames_run(dispatched(domain, event).0, events).pending == Some(capture_of(event)),
        frame_step(
            frames_run(dispatched(domain, event).0, events),
            FrameEvent::RenderSucceeded,
        ).1 == FrameAction::Submit(Some(capture_of(event))),
        frame_step(
            frames_run(dispatched(domain, event).0, events),
            FrameEvent::RenderSucceeded,
        ).0.pending is None,
{
    lemma_pending_waits_for_render(dispatched(domain, event).0, events);
}

/// The cycle is closed: four steps that succeed lead back to the phase
/// they started from, and on the way the frame was drawn once, so nothing
/// is pending after them.
pub proof fn lemma_cycle_is_closed(domain: RenderDomain)
    ensures
        live_run(domain, 4).phase == domain.phase,
        live_run(domain, 4).pending is None,
{
    reveal_with_fuel(live_run, 5);
}

} // verus!
