//! The connection actor as a mathematical state machine: its states, the
//! events it reacts to, and for each pair the next state and the actions
//! that the surrounding runtime has to carry out.

use crate::api_model::{server_check_envelope, setup_envelope};
use crate::channel::OUTBOUND_QUEUE_CAPACITY;
use crate::dispatcher::{is_terminal, DispatchPhase, InboundReadView};
use crate::payload::PayloadView;
use vstd::prelude::*;

verus! {

/// Milliseconds between two liveness probes.
pub const HEARTBEAT_INTERVAL_MS: u64 = 5000;

/// Where the actor stands in its life.
#[derive(Clone, Copy, Debug, PartialEq, Eq, Structural)]
pub enum Phase {
    /// Constructed, not started.
    Created,
    /// Started; the duplex stream is being opened.
    Connecting,
    /// The duplex stream is open and the dispatcher reads it.
    Streaming,
    /// Terminated. Nothing follows.
    Stopped,
}

/// The part of the actor's state that its decisions depend on.
pub struct ClientState {
    pub phase: Phase,
    /// Whether the outbound sender of an open stream is held.
    pub stream_sender: bool,
    /// Whether the inbound dispatcher is active.
    pub stream_reader: bool,
    /// Whether the setup handshake has been handed out.
    pub setup_sent: bool,
    /// Where the inbound dispatcher stands.
    pub dispatch: DispatchPhase,
    /// The address that the client gives as its own.
    pub client_ip: Seq<char>,
}

/// What the actor reacts to.
pub enum EventView {
    /// The actor was started.
    Started,
    /// The duplex stream opened; `setup_body` is the serialised setup request.
    StreamOpened { setup_body: Seq<char> },
    /// The duplex stream could not be opened.
    StreamFailed,
    /// The setup handshake could not be put on the outbound queue.
    SetupSendFailed,
    /// The dispatcher read from the inbound stream.
    Inbound(InboundReadView),
    /// The heartbeat timer fired.
    HeartbeatTick,
    /// A caller asks for a unary exchange; `reply` says whether a completion
    /// slot waits for the response.
    UnaryRequest { payload: PayloadView, reply: bool },
    /// The actor was told to stop.
    StopRequested,
}

/// What the runtime has to do for the actor.
pub enum ActionView {
    /// Create the outbound queue with this capacity and open the duplex
    /// stream over it.
    OpenStream { queue_capacity: usize },
    /// Begin reading the inbound stream: one first read, then the loop.
    StartDispatcher,
    /// Put the setup handshake on the outbound queue.
    SendSetup(PayloadView),
    /// Fire the heartbeat timer after this many milliseconds.
    ScheduleHeartbeat { delay_ms: u64 },
    /// Make a unary call with this envelope.
    UnaryCall { payload: PayloadView, reply: bool },
    /// Hand the inbound envelope to the actor's mailbox.
    Deliver(PayloadView),
    /// Stop the actor and everything it spawned.
    Stop,
}

/// The state of a freshly constructed actor.
pub open spec fn initial_state(client_ip: Seq<char>) -> ClientState {
    ClientState {
        phase: Phase::Created,
        stream_sender: false,
        stream_reader: false,
        setup_sent: false,
        dispatch: DispatchPhase::AwaitingFirst,
        client_ip,
    }
}

/// The states that the actor can be in: sender and dispatcher are there
/// exactly while streaming, the handshake has gone out once the stream was
/// open, and the dispatcher has finished only in a stopped actor.
pub open spec fn well_formed(s: ClientState) -> bool {
    &&& s.stream_sender == (s.phase == Phase::Streaming)
    &&& s.stream_reader == (s.phase == Phase::Streaming)
    &&& s.phase == Phase::Streaming ==> s.setup_sent
    &&& s.setup_sent ==> s.phase == Phase::Streaming || s.phase == Phase::Stopped
    &&& s.phase == Phase::Streaming ==> s.dispatch != DispatchPhase::Finished
    &&& (s.phase == Phase::Created || s.phase == Phase::Connecting) ==> s.dispatch
        == DispatchPhase::AwaitingFirst
}

/// The state of a stopped actor: sender and dispatcher are gone.
pub open spec fn stopped(s: ClientState) -> ClientState {
    ClientState {
        phase: Phase::Stopped,
        stream_sender: false,
        stream_reader: false,
        dispatch: if s.phase == Phase::Streaming {
            DispatchPhase::Finished
        } else {
            s.dispatch
        },
        ..s
    }
}

/// The state that follows `s` on event `e`.
pub open spec fn next_state(s: ClientState, e: EventView) -> ClientState {
    match e {
        EventView::Started => if s.phase == Phase::Created {
            ClientState { phase: Phase::Connecting, ..s }
        } else {
            s
        },
        EventView::StreamOpened { setup_body } => if s.phase == Phase::Connecting {
            ClientState {
                phase: Phase::Streaming,
                stream_sender: true,
                stream_reader: true,
                setup_sent: true,
                ..s
            }
        } else {
            s
        },
        EventView::StreamFailed => if s.phase == Phase::Connecting {
            stopped(s)
        } else {
            s
        },
        EventView::Inbound(read) => if s.phase == Phase::Streaming {
            if is_terminal(read) {
                stopped(s)
            } else {
                ClientState { dispatch: DispatchPhase::Looping, ..s }
            }
        } else {
            s
        },
        EventView::SetupSendFailed => s,
        EventView::HeartbeatTick => s,
        EventView::UnaryRequest { payload, reply } => s,
        EventView::StopRequested => if s.phase == Phase::Stopped {
            s
        } else {
            stopped(s)
        },
    }
}

/// The actions that the actor asks for in state `s` on event `e`, in order.
pub open spec fn emitted(s: ClientState, e: EventView) -> Seq<ActionView> {
    match e {
        EventView::Started => if s.phase == Phase::Created {
            seq![ActionView::OpenStream { queue_capacity: OUTBOUND_QUEUE_CAPACITY }]
        } else {
            Seq::empty()
        },
        EventView::StreamOpened { setup_body } => if s.phase == Phase::Connecting {
            seq![
                ActionView::StartDispatcher,
                ActionView::SendSetup(setup_envelope(s.client_ip, setup_body)),
                ActionView::ScheduleHeartbeat { delay_ms: HEARTBEAT_INTERVAL_MS },
            ]
        } else {
            Seq::empty()
        },
        EventView::StreamFailed => if s.phase == Phase::Connecting {
            seq![ActionView::Stop]
        } else {
            Seq::empty()
        },
        EventView::Inbound(read) => if s.phase == Phase::Streaming {
            match read {
                InboundReadView::Frame(p) => seq![ActionView::Deliver(p)],
                InboundReadView::Malformed => Seq::empty(),
                InboundReadView::StreamError | InboundReadView::End => seq![ActionView::Stop],
            }
        } else {
            Seq::empty()
        },
        EventView::SetupSendFailed => Seq::empty(),
        EventView::HeartbeatTick => if s.phase == Phase::Streaming {
            seq![
                ActionView::UnaryCall { payload: server_check_envelope(), reply: false },
                ActionView::ScheduleHeartbeat { delay_ms: HEARTBEAT_INTERVAL_MS },
            ]
        } else {
            Seq::empty()
        },
        EventView::UnaryRequest { payload, reply } => if s.phase == Phase::Streaming {
            seq![ActionView::UnaryCall { payload, reply }]
        } else {
            Seq::empty()
        },
        EventView::StopRequested => if s.phase == Phase::Stopped {
            Seq::empty()
        } else {
            seq![ActionView::Stop]
        },
    }
}

/// The state after a whole sequence of events.
pub open spec fn state_after(s: ClientState, events: Seq<EventView>) -> ClientState
    decreases events.len(),
{
    if events.len() == 0 {
        s
    } else {
        next_state(state_after(s, events.drop_last()), events.last())
    }
}

/// All actions asked for over a whole sequence of events, in order.
pub open spec fn trace(s: ClientState, events: Seq<EventView>) -> Seq<ActionView>
    decreases events.len(),
{
    if events.len() == 0 {
        Seq::empty()
    } else {
        trace(s, events.drop_last()) + emitted(
            state_after(s, events.drop_last()),
            events.last(),
        )
    }
}

} // verus!
