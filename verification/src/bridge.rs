//! The command bridge: what the render domain does with each command that
//! its channel delivers.
//!
//! A launch is immediate work: the bridge hands out a ticket, the caller
//! starts the process and completes the ticket before it looks at the next
//! command. A capture is deferred work: the bridge stores it as the pending
//! capture, and the frame cycle services it once a frame has been rendered.
//! One capture can be pending at a time; a later one replaces it, and the
//! replaced request's slot is dropped unwritten.
use crate::command::McpCommand;
use crate::frame::FramePhase;
use crate::slot::write_slot;
use tokio::sync::oneshot::Sender;
use vstd::prelude::*;

verus! {

/// What the command channel delivers to the render domain.
pub enum ChannelEvent {
    /// A command was received.
    Msg(McpCommand),
    /// Every sending side is gone; no further command will come.
    Closed,
}

/// A launch that is owed an answer: the program, its arguments, and the
/// slot of the caller that asked for it.
#[derive(Debug)]
pub struct LaunchTicket {
    pub command: String,
    pub args: Vec<String>,
    pub response_tx: Sender<Result<u32, String>>,
}

/// A capture that waits for the next rendered frame: the destination path
/// and the slot of the caller that asked for it.
#[derive(Debug)]
pub struct PendingCapture {
    pub filename: String,
    pub response_tx: Sender<Result<String, String>>,
}

/// What the caller of the bridge has to do for an event.
#[derive(Debug)]
pub enum BridgeAction {
    /// Start the process now and complete the ticket with the outcome.
    Launch(LaunchTicket),
    /// Nothing now: the capture was stored for the frame cycle.
    Deferred,
    /// Note that the channel is closed and go on rendering.
    ChannelClosed,
}

/// The state that the render domain keeps between wake-ups: where the frame
/// cycle stands, and the capture that waits for a rendered frame.
#[derive(Debug)]
pub struct RenderDomain {
    pub phase: FramePhase,
    pub pending: Option<PendingCapture>,
}

/// The state after `event`, and the action owed for it.
pub open spec fn dispatched(domain: RenderDomain, event: ChannelEvent) -> (
    RenderDomain,
    BridgeAction,
) {
    match event {
        ChannelEvent::Msg(McpCommand::LaunchApp { command, args, response_tx }) => (
            domain,
            BridgeAction::Launch(LaunchTicket { command, args, response_tx }),
        ),
        ChannelEvent::Msg(McpCommand::Screenshot { filename, response_tx }) => (
            RenderDomain {
                phase: domain.phase,
                pending: Some(PendingCapture { filename, response_tx }),
            },
            BridgeAction::Deferred,
        ),
        ChannelEvent::Closed => (domain, BridgeAction::ChannelClosed),
    }
}

/// The state after the events of `events`, taken in order.
pub open spec fn dispatched_all(domain: RenderDomain, events: Seq<ChannelEvent>) -> RenderDomain
    decreases events.len(),
{
    if events.len() == 0 {
        domain
    } else {
        dispatched(dispatched_all(domain, events.drop_last()), events.last()).0
    }
}

/// The actions owed for the events of `events`, in order.
pub open spec fn actions_of(domain: RenderDomain, events: Seq<ChannelEvent>) -> Seq<BridgeAction>
    decreases events.len(),
{
    if events.len() == 0 {
        Seq::empty()
    } else {
        actions_of(domain, events.drop_last()).push(
            dispatched(dispatched_all(domain, events.drop_last()), events.last()).1,
        )
    }
}

/// Whether `event` delivers a launch command.
pub open spec fn is_launch(event: ChannelEvent) -> bool {
    event matches ChannelEvent::Msg(McpCommand::LaunchApp { .. })
}

/// Whether `event` delivers a capture command.
pub open spec fn is_capture(event: ChannelEvent) -> bool {
    event matches ChannelEvent::Msg(McpCommand::Screenshot { .. })
}

/// The ticket that a launch command is turned into.
pub open spec fn ticket_of(event: ChannelEvent) -> LaunchTicket
    recommends
        is_launch(event),
{
    match event {
        ChannelEvent::Msg(McpCommand::LaunchApp { command, args, response_tx }) => LaunchTicket {
            command,
            args,
            response_tx,
        },
        _ => arbitrary(),
    }
}

/// The pending capture that a capture command is turned into.
pub open spec fn capture_of(event: ChannelEvent) -> PendingCapture
    recommends
        is_capture(event),
{
    match event {
        ChannelEvent::Msg(McpCommand::Screenshot { filename, response_tx }) => PendingCapture {
            filename,
            response_tx,
        },
        _ => arbitrary(),
    }
}

impl RenderDomain {
    /// A render domain at rest, with no capture pending.
    pub fn new() -> (domain: RenderDomain)
        ensures
            domain.phase == FramePhase::Idle,
            domain.pending is None,
    {
        RenderDomain { phase: FramePhase::Idle, pending: None }
    }

    /// Takes one event of the command channel. A launch comes back as a
    /// ticket and leaves the state as it was. A capture becomes the pending
    /// capture, whatever was pending before. A closed channel changes
    /// nothing.
    pub fn on_command(&mut self, event: ChannelEvent) -> (action: BridgeAction)
        ensures
            (*final(self), action) == dispatched(*old(self), event),
    {
        match event {
            ChannelEvent::Msg(McpCommand::LaunchApp { command, args, response_tx }) => {
                BridgeAction::Launch(LaunchTicket { command, args, response_tx })
            },
            ChannelEvent::Msg(McpCommand::Screenshot { filename, response_tx }) => {
                self.pending = Some(PendingCapture { filename, response_tx });
                BridgeAction::Deferred
            },
            ChannelEvent::Closed => BridgeAction::ChannelClosed,
        }
    }

    /// Whether a capture waits for a rendered frame.
    pub fn has_pending(&self) -> (b: bool)
        ensures
            b == self.pending is Some,
    {
        self.pending.is_some()
    }
}

impl LaunchTicket {
    /// Writes the outcome of the launch, a process id or the reason of the
    /// failure, to the slot of the caller that asked for it. The ticket is
    /// used up, so a slot is written once at most. A caller that has stopped
    /// waiting is no error: its outcome comes back unchanged, and nobody
    /// else gets it.
    pub fn complete(self, outcome: Result<u32, String>) -> (unsent: Result<
        (),
        Result<u32, String>,
    >)
        ensures
            unsent matches Err(back) ==> back == outcome,
    {
        write_slot(self.response_tx, outcome)
    }
}

impl PendingCapture {
    /// Writes the outcome of the capture, a descriptor or the reason of the
    /// failure, to the slot of the caller that asked for it. The pending
    /// capture is used up, so a slot is written once at most. A caller that
    /// has stopped waiting is no error: its outcome comes back unchanged,
    /// and nobody else gets it.
    pub fn resolve(self, outcome: Result<String, String>) -> (unsent: Result<
        (),
        Result<String, String>,
    >)
        ensures
            unsent matches Err(back) ==> back == outcome,
    {
        write_slot(self.response_tx, outcome)
    }
}

/// Launch commands are answered one for one: a run of launch commands
/// yields as many tickets, in the order of arrival, and the ticket at each
/// place carries the program, the arguments and the slot of the command at
/// that place. The state is left as it was.
pub proof fn lemma_launches_one_for_one(domain: RenderDomain, events: Seq<ChannelEvent>)
    requires
        forall|i: int| 0 <= i < events.len() ==> is_launch(#[trigger] events[i]),
    ensures
        dispatched_all(domain, events) == domain,
        actions_of(domain, events).len() == events.len(),
        forall|i: int|
            0 <= i < events.len() ==> #[trigger] actions_of(domain, events)[i]
                == BridgeAction::Launch(ticket_of(events[i])),
    decreases events.len(),
{
    if events.len() > 0 {
        let head = events.drop_last();
        lemma_launches_one_for_one(domain, head);
        assert(is_launch(events.last()));
        assert forall|i: int| 0 <= i < events.len() implies #[trigger] actions_of(domain, events)[i]
            == BridgeAction::Launch(ticket_of(events[i])) by {
            if i < head.len() {
                assert(head[i] == events[i]);
                assert(actions_of(domain, events)[i] == actions_of(domain, head)[i]);
            } else {
                assert(events[i] == events.last());
            }
        }
    }
}

/// The last capture wins: after a run of events that ends in a capture
/// command, the pending capture is that command's, whatever was pending
/// before and whatever came earlier in the run.
pub proof fn lemma_last_capture_wins(domain: RenderDomain, events: Seq<ChannelEvent>)
    requires
        events.len() > 0,
        is_capture(events.last()),
    ensures
        dispatched_all(domain, events).pending == Some(capture_of(events.last())),
        dispatched_all(domain, events).phase == dispatched_all(domain, events.drop_last()).phase,
{
}

/// Commands never move the frame cycle, and only a capture command changes
/// what is pending.
pub proof fn lemma_commands_keep_phase(domain: RenderDomain, event: ChannelEvent)
    ensures
        dispatched(domain, event).0.phase == domain.phase,
        !is_capture(event) ==> dispatched(domain, event).0 == domain,
        dispatched(domain, event).0.pending is None ==> domain.pending is None,
{
}

} // verus!
