//! The connection actor: the state it owns and its reaction to each event.
//!
//! The actor performs no I/O itself. Every transition returns the actions
//! that the runtime around it has to carry out, in order, and the runtime
//! reports back what happened as the next event.

use crate::api_model::{server_check_payload, ClientConfig};
use crate::channel::OUTBOUND_QUEUE_CAPACITY;
use crate::dispatcher::{Dispatch, InboundDispatcher, InboundRead};
use crate::machine::{
    emitted, initial_state, next_state, state_after, trace, well_formed, ActionView, ClientState,
    EventView, Phase, HEARTBEAT_INTERVAL_MS,
};
use crate::payload::Payload;
use crate::transport::{accepted_address, connect_lazy_on, current_runtime, ParsedEndpoint};
use tokio::runtime::{Handle, TryCurrentError};
use tokio::sync::mpsc::Sender;
use tonic::transport::Channel;
use vstd::prelude::*;

verus! {

/// What the runtime has to do for the actor.
#[derive(Clone, Debug, PartialEq, Eq)]
pub enum Action {
    /// Create the outbound queue with this capacity and open the duplex
    /// stream over it.
    OpenStream { queue_capacity: usize },
    /// Begin reading the inbound stream: one first read, then the loop.
    StartDispatcher,
    /// Put the setup handshake on the outbound queue.
    SendSetup(Payload),
    /// Fire the heartbeat timer after this many milliseconds.
    ScheduleHeartbeat { delay_ms: u64 },
    /// Make a unary call with this envelope; `reply` says whether a
    /// completion slot waits for the response.
    UnaryCall { payload: Payload, reply: bool },
    /// Hand the inbound envelope to the actor's mailbox.
    Deliver(Payload),
    /// Stop the actor and everything it spawned.
    Stop,
}

impl View for Action {
    type V = ActionView;

    open spec fn view(&self) -> ActionView {
        match self {
            Action::OpenStream { queue_capacity } => ActionView::OpenStream {
                queue_capacity: *queue_capacity,
            },
            Action::StartDispatcher => ActionView::StartDispatcher,
            Action::SendSetup(p) => ActionView::SendSetup(p@),
            Action::ScheduleHeartbeat { delay_ms } => ActionView::ScheduleHeartbeat {
                delay_ms: *delay_ms,
            },
            Action::UnaryCall { payload, reply } => ActionView::UnaryCall {
                payload: payload@,
                reply: *reply,
            },
            Action::Deliver(p) => ActionView::Deliver(p@),
            Action::Stop => ActionView::Stop,
        }
    }
}

/// A list of actions as a sequence of their values.
pub open spec fn actions_view(actions: Seq<Action>) -> Seq<ActionView> {
    Seq::new(actions.len(), |i: int| actions[i]@)
}

/// What the actor reacts to.
pub enum Event {
    /// The actor was started.
    Started,
    /// The duplex stream opened. `sender` feeds its outbound queue and
    /// `setup_body` is the serialised setup request.
    StreamOpened { sender: Sender<Option<Payload>>, setup_body: String },
    /// The duplex stream could not be opened.
    StreamFailed,
    /// The setup handshake could not be put on the outbound queue.
    SetupSendFailed,
    /// The dispatcher read from the inbound stream.
    Inbound(InboundRead),
    /// The heartbeat timer fired.
    HeartbeatTick,
    /// A caller asks for a unary exchange.
    UnaryRequest { payload: Payload, reply: bool },
    /// The actor was told to stop.
    StopRequested,
}

impl View for Event {
    type V = EventView;

    open spec fn view(&self) -> EventView {
        match self {
            Event::Started => EventView::Started,
            Event::StreamOpened { sender, setup_body } => EventView::StreamOpened {
                setup_body: setup_body@,
            },
            Event::StreamFailed => EventView::StreamFailed,
            Event::SetupSendFailed => EventView::SetupSendFailed,
            Event::Inbound(read) => EventView::Inbound(read@),
            Event::HeartbeatTick => EventView::HeartbeatTick,
            Event::UnaryRequest { payload, reply } => EventView::UnaryRequest {
                payload: payload@,
                reply: *reply,
            },
            Event::StopRequested => EventView::StopRequested,
        }
    }
}

/// A list of events as a sequence of their values.
pub open spec fn events_view(events: Seq<Event>) -> Seq<EventView> {
    Seq::new(events.len(), |i: int| events[i]@)
}

/// The sender that the actor holds after `event`, having held `held` in
/// state `s`: the one that came with the open stream, the one it held while
/// it goes on streaming, none once it has stopped.
pub open spec fn sender_after(
    held: Option<Sender<Option<Payload>>>,
    s: ClientState,
    event: Event,
) -> Option<Sender<Option<Payload>>> {
    match event {
        Event::StreamOpened { sender, setup_body } if s.phase == Phase::Connecting => Some(
            sender,
        ),
        _ => if next_state(s, event@).stream_sender {
            held
        } else {
            None
        },
    }
}

/// The sender that the actor holds after a whole list of events.
pub open spec fn sender_after_all(
    held: Option<Sender<Option<Payload>>>,
    s: ClientState,
    events: Seq<Event>,
) -> Option<Sender<Option<Payload>>>
    decreases events.len(),
{
    if events.len() == 0 {
        held
    } else {
        sender_after(
            sender_after_all(held, s, events.drop_last()),
            state_after(s, events_view(events.drop_last())),
            events.last(),
        )
    }
}

/// Why a client could not be constructed.
#[derive(Clone, Copy, Debug, PartialEq, Eq, Structural)]
pub enum ClientError {
    /// The server address is not a URI.
    InvalidAddress,
    /// No Tokio runtime surrounds the caller, so no channel can be made.
    NoRuntime,
}

/// Messages of the actor's mailbox.
#[derive(Clone, Debug, PartialEq, Eq)]
pub enum InnerGrpcClientCmd {
    /// An envelope that the server pushed.
    ReceiverStreamItem(Payload),
    /// A liveness check of the actor itself.
    Ping,
}

/// Answer to a mailbox message.
#[derive(Clone, Copy, Debug, PartialEq, Eq, Structural)]
pub enum InnerGrpcClientResult {
    /// The message was taken; there is nothing to report.
    NoResult,
}

/// The connection actor's state.
pub struct InnerGrpcClient {
    channel: Channel,
    stream_sender: Option<Sender<Option<Payload>>>,
    stream_reader: bool,
    phase: Phase,
    setup_sent: bool,
    dispatcher: InboundDispatcher,
    config: ClientConfig,
}

impl View for InnerGrpcClient {
    type V = ClientState;

    closed spec fn view(&self) -> ClientState {
        ClientState {
            phase: self.phase,
            stream_sender: self.stream_sender.is_some(),
            stream_reader: self.stream_reader,
            setup_sent: self.setup_sent,
            dispatch: self.dispatcher.phase(),
            client_ip: self.config@.client_ip,
        }
    }
}

impl InnerGrpcClient {
    /// The invariant of the actor's state.
    pub open spec fn wf(&self) -> bool {
        well_formed(self@)
    }

    /// The sender of the outbound queue that the actor holds, if any.
    pub closed spec fn sender_handle(&self) -> Option<Sender<Option<Payload>>> {
        self.stream_sender
    }

    /// The channel that the actor was made over.
    pub closed spec fn channel_handle(&self) -> Channel {
        self.channel
    }

    /// The configuration that the actor was made with.
    pub closed spec fn config_view(&self) -> crate::api_model::ClientConfigView {
        self.config@
    }

    /// A client for the server at `addr`, with the default configuration and
    /// a channel that connects on first use. An address that is no URI is
    /// refused; so is a call outside a Tokio runtime, where no channel can
    /// be made.
    pub fn new(addr: String) -> (r: Result<InnerGrpcClient, ClientError>)
        ensures
            !accepted_address(addr@) ==> r == Err::<InnerGrpcClient, ClientError>(
                ClientError::InvalidAddress,
            ),
            accepted_address(addr@) ==> match r {
                Ok(client) => client.wf() && client@ == initial_state(
                    crate::api_model::default_client_ip(),
                ) && client.config_view() == crate::api_model::default_config()
                    && client.sender_handle().is_none(),
                Err(e) => e == ClientError::NoRuntime,
            },
    {
        Self::new_on(ParsedEndpoint::parse(addr), current_runtime())
    }

    /// A client from what parsing the address and looking for the runtime
    /// gave: an address that was refused is refused here, for the same
    /// reason; then a missing runtime is reported; with both at hand the
    /// client is made over a lazy channel to the endpoint.
    pub fn new_on(
        endpoint: Result<ParsedEndpoint, ClientError>,
        runtime: Result<Handle, TryCurrentError>,
    ) -> (r: Result<InnerGrpcClient, ClientError>)
        ensures
            match r {
                Ok(client) => endpoint.is_ok() && runtime.is_ok() && client.wf() && client@
                    == initial_state(crate::api_model::default_client_ip())
                    && client.config_view() == crate::api_model::default_config()
                    && client.sender_handle().is_none(),
                Err(e) => match endpoint {
                    Err(refused) => e == refused,
                    Ok(_) => runtime.is_err() && e == ClientError::NoRuntime,
                },
            },
    {
        match endpoint {
            Err(refused) => Err(refused),
            Ok(endpoint) => match runtime {
                Err(_) => Err(ClientError::NoRuntime),
                Ok(runtime) => Self::new_by_channel(connect_lazy_on(&endpoint, &runtime)),
            },
        }
    }

    /// A client over an existing channel, with the default configuration.
    /// Always succeeds.
    pub fn new_by_channel(channel: Channel) -> (r: Result<InnerGrpcClient, ClientError>)
        ensures
            r matches Ok(client) && client.wf() && client@ == initial_state(
                crate::api_model::default_client_ip(),
            ) && client.config_view() == crate::api_model::default_config()
                && client.channel_handle() == channel && client.sender_handle().is_none(),
    {
        Ok(Self::new_with_config(channel, ClientConfig::default()))
    }

    /// A client over an existing channel that identifies itself as `config`
    /// says.
    pub fn new_with_config(channel: Channel, config: ClientConfig) -> (client: InnerGrpcClient)
        ensures
            client.wf(),
            client@ == initial_state(config@.client_ip),
            client.config_view() == config@,
            client.channel_handle() == channel,
            client.sender_handle().is_none(),
    {
        InnerGrpcClient {
            channel,
            stream_sender: None,
            stream_reader: false,
            phase: Phase::Created,
            setup_sent: false,
            dispatcher: InboundDispatcher::new(),
            config,
        }
    }
}

impl InnerGrpcClient {
    /// Where the actor stands in its life.
    pub fn phase(&self) -> (phase: Phase)
        ensures
            phase == self@.phase,
    {
        self.phase
    }

    /// Whether the inbound dispatcher is active.
    pub fn stream_reader(&self) -> (active: bool)
        ensures
            active == self@.stream_reader,
    {
        self.stream_reader
    }

    /// The sender of the open stream's outbound queue, while there is one.
    pub fn stream_sender(&self) -> (sender: Option<&Sender<Option<Payload>>>)
        ensures
            sender.is_some() == self@.stream_sender,
            match sender {
                Some(held) => self.sender_handle() == Some(*held),
                None => self.sender_handle().is_none(),
            },
    {
        self.stream_sender.as_ref()
    }

    /// The shared channel, for the runtime to clone into each call.
    pub fn channel(&self) -> (channel: &Channel)
        ensures
            *channel == self.channel_handle(),
    {
        &self.channel
    }

    /// The configuration that the actor was made with.
    pub fn config(&self) -> (config: &ClientConfig)
        ensures
            config@ == self.config_view(),
    {
        &self.config
    }

    /// The actor starts: a created actor begins to connect and asks for the
    /// duplex stream to be opened over a queue of the fixed capacity. In any
    /// other state nothing happens.
    pub fn started(&mut self) -> (actions: Vec<Action>)
        requires
            old(self).wf(),
        ensures
            final(self).wf(),
            final(self)@ == next_state(old(self)@, EventView::Started),
            actions_view(actions@) == emitted(old(self)@, EventView::Started),
            final(self).config_view() == old(self).config_view(),
            final(self).channel_handle() == old(self).channel_handle(),
            final(self).sender_handle() == sender_after(
                old(self).sender_handle(),
                old(self)@,
                Event::Started,
            ),
    {
        let mut actions: Vec<Action> = Vec::new();
        if self.phase == Phase::Created {
            self.phase = Phase::Connecting;
            actions.push(Action::OpenStream { queue_capacity: OUTBOUND_QUEUE_CAPACITY });
        }
        assert(actions_view(actions@) =~= emitted(old(self)@, EventView::Started));
        actions
    }

    /// The setup handshake for this client: the full envelope with the setup
    /// type tag, the serialised request as body and the client's address.
    pub fn bi_stream_setup(&self, setup_body: String) -> (p: Payload)
        ensures
            p@ == crate::api_model::setup_envelope(self@.client_ip, setup_body@),
    {
        self.config.setup_payload(setup_body)
    }

    /// The duplex stream opened: a connecting actor keeps the sender, marks
    /// the dispatcher active, and asks for the dispatcher to start, for the
    /// setup handshake to be sent and then for the first heartbeat to be
    /// scheduled. In any other state the sender is dropped and nothing
    /// happens.
    pub fn conn_bi_stream_opened(
        &mut self,
        sender: Sender<Option<Payload>>,
        setup_body: String,
    ) -> (actions: Vec<Action>)
        requires
            old(self).wf(),
        ensures
            final(self).wf(),
            final(self)@ == next_state(
                old(self)@,
                EventView::StreamOpened { setup_body: setup_body@ },
            ),
            actions_view(actions@) == emitted(
                old(self)@,
                EventView::StreamOpened { setup_body: setup_body@ },
            ),
            final(self).config_view() == old(self).config_view(),
            final(self).channel_handle() == old(self).channel_handle(),
            final(self).sender_handle() == sender_after(
                old(self).sender_handle(),
                old(self)@,
                Event::StreamOpened { sender, setup_body },
            ),
    {
        let mut actions: Vec<Action> = Vec::new();
        if self.phase == Phase::Connecting {
            let setup = self.bi_stream_setup(setup_body);
            self.stream_sender = Some(sender);
            self.stream_reader = true;
            self.setup_sent = true;
            self.phase = Phase::Streaming;
            actions.push(Action::StartDispatcher);
            actions.push(Action::SendSetup(setup));
            actions.push(Action::ScheduleHeartbeat { delay_ms: HEARTBEAT_INTERVAL_MS });
        }
        assert(actions_view(actions@) =~= emitted(
            old(self)@,
            EventView::StreamOpened { setup_body: setup_body@ },
        ));
        actions
    }

    /// The duplex stream could not be opened: a connecting actor stops. There
    /// is no retry. In any other state nothing happens.
    pub fn conn_bi_stream_failed(&mut self) -> (actions: Vec<Action>)
        requires
            old(self).wf(),
        ensures
            final(self).wf(),
            final(self)@ == next_state(old(self)@, EventView::StreamFailed),
            actions_view(actions@) == emitted(old(self)@, EventView::StreamFailed),
            final(self).config_view() == old(self).config_view(),
            final(self).channel_handle() == old(self).channel_handle(),
            final(self).sender_handle() == sender_after(
                old(self).sender_handle(),
                old(self)@,
                Event::StreamFailed,
            ),
    {
        let mut actions: Vec<Action> = Vec::new();
        if self.phase == Phase::Connecting {
            self.phase = Phase::Stopped;
            actions.push(Action::Stop);
        }
        assert(actions_view(actions@) =~= emitted(old(self)@, EventView::StreamFailed));
        actions
    }

    /// The setup handshake could not be sent: the actor goes on as it is,
    /// without a retry, since the inbound side may still work.
    pub fn bi_stream_setup_failed(&self) -> (actions: Vec<Action>)
        ensures
            actions_view(actions@) == emitted(self@, EventView::SetupSendFailed),
            self@ == next_state(self@, EventView::SetupSendFailed),
    {
        let actions: Vec<Action> = Vec::new();
        assert(actions_view(actions@) =~= emitted(self@, EventView::SetupSendFailed));
        actions
    }

    /// One read of the inbound stream: a streaming actor delivers a decoded
    /// frame to its mailbox, drops a malformed one, and stops at a stream
    /// error or at the end of the stream, giving up sender and dispatcher. In
    /// any other state nothing happens.
    pub fn receive_bi_stream(&mut self, read: InboundRead) -> (actions: Vec<Action>)
        requires
            old(self).wf(),
        ensures
            final(self).wf(),
            final(self)@ == next_state(old(self)@, EventView::Inbound(read@)),
            actions_view(actions@) == emitted(old(self)@, EventView::Inbound(read@)),
            final(self).config_view() == old(self).config_view(),
            final(self).channel_handle() == old(self).channel_handle(),
            final(self).sender_handle() == sender_after(
                old(self).sender_handle(),
                old(self)@,
                Event::Inbound(read),
            ),
    {
        let mut actions: Vec<Action> = Vec::new();
        if self.phase == Phase::Streaming {
            match self.dispatcher.on_read(read) {
                Dispatch::Forward(p) => {
                    actions.push(Action::Deliver(p));
                },
                Dispatch::Skip => {},
                Dispatch::Stop => {
                    self.stream_sender = None;
                    self.stream_reader = false;
                    self.phase = Phase::Stopped;
                    actions.push(Action::Stop);
                },
            }
        }
        assert(actions_view(actions@) =~= emitted(old(self)@, EventView::Inbound(read@)));
        actions
    }

    /// A unary request: a streaming actor asks for the call to be made. In
    /// any other state the request is not dispatched.
    pub fn do_request(&self, payload: Payload, reply: bool) -> (actions: Vec<Action>)
        ensures
            actions_view(actions@) == emitted(
                self@,
                EventView::UnaryRequest { payload: payload@, reply },
            ),
    {
        let mut actions: Vec<Action> = Vec::new();
        let ghost event = EventView::UnaryRequest { payload: payload@, reply };
        if self.phase == Phase::Streaming {
            actions.push(Action::UnaryCall { payload, reply });
        }
        assert(actions_view(actions@) =~= emitted(self@, event));
        actions
    }

    /// The liveness probe: while the dispatcher is active, one unary call
    /// with the server check envelope, whose response nobody waits for.
    /// Otherwise nothing.
    pub fn check_heartbeat(&self) -> (actions: Vec<Action>)
        requires
            self.wf(),
        ensures
            self@.stream_reader ==> actions_view(actions@) == seq![
                ActionView::UnaryCall {
                    payload: crate::api_model::server_check_envelope(),
                    reply: false,
                },
            ],
            !self@.stream_reader ==> actions@.len() == 0,
    {
        if self.stream_reader {
            let actions = self.do_request(server_check_payload(), false);
            assert(actions_view(actions@) =~= seq![
                ActionView::UnaryCall {
                    payload: crate::api_model::server_check_envelope(),
                    reply: false,
                },
            ]);
            actions
        } else {
            Vec::new()
        }
    }

    /// The heartbeat timer: while the dispatcher is active, the next tick is
    /// due after the fixed interval. Otherwise the timer is not set again.
    pub fn heartbeat(&self) -> (actions: Vec<Action>)
        ensures
            self@.stream_reader ==> actions_view(actions@) == seq![
                ActionView::ScheduleHeartbeat { delay_ms: HEARTBEAT_INTERVAL_MS },
            ],
            !self@.stream_reader ==> actions@.len() == 0,
    {
        let mut actions: Vec<Action> = Vec::new();
        if self.stream_reader {
            actions.push(Action::ScheduleHeartbeat { delay_ms: HEARTBEAT_INTERVAL_MS });
            assert(actions_view(actions@) =~= seq![
                ActionView::ScheduleHeartbeat { delay_ms: HEARTBEAT_INTERVAL_MS },
            ]);
        }
        actions
    }

    /// The heartbeat timer fired: the probe, then the next tick.
    pub fn heartbeat_tick(&self) -> (actions: Vec<Action>)
        requires
            self.wf(),
        ensures
            actions_view(actions@) == emitted(self@, EventView::HeartbeatTick),
    {
        let mut actions = self.check_heartbeat();
        let ghost probe = actions_view(actions@);
        let mut timer = self.heartbeat();
        let ghost next = actions_view(timer@);
        actions.append(&mut timer);
        assert(actions_view(actions@) =~= probe + next);
        assert(actions_view(actions@) =~= emitted(self@, EventView::HeartbeatTick));
        actions
    }

    /// The actor is told to stop: unless it has stopped already, it gives up
    /// sender and dispatcher and stops.
    pub fn stop(&mut self) -> (actions: Vec<Action>)
        requires
            old(self).wf(),
        ensures
            final(self).wf(),
            final(self)@ == next_state(old(self)@, EventView::StopRequested),
            actions_view(actions@) == emitted(old(self)@, EventView::StopRequested),
            final(self).config_view() == old(self).config_view(),
            final(self).channel_handle() == old(self).channel_handle(),
            final(self).sender_handle() == sender_after(
                old(self).sender_handle(),
                old(self)@,
                Event::StopRequested,
            ),
    {
        let mut actions: Vec<Action> = Vec::new();
        if self.phase != Phase::Stopped {
            if self.phase == Phase::Streaming {
                let _ = self.dispatcher.on_read(InboundRead::End);
            }
            self.stream_sender = None;
            self.stream_reader = false;
            self.phase = Phase::Stopped;
            actions.push(Action::Stop);
        }
        assert(actions_view(actions@) =~= emitted(old(self)@, EventView::StopRequested));
        actions
    }

    /// A mailbox message. The actor takes it and does nothing of its own
    /// with it: this is where collaborators hook in.
    pub fn handle(&mut self, msg: InnerGrpcClientCmd) -> (r: Result<
        InnerGrpcClientResult,
        ClientError,
    >)
        ensures
            r == Ok::<InnerGrpcClientResult, ClientError>(InnerGrpcClientResult::NoResult),
            *final(self) == *old(self),
    {
        match msg {
            InnerGrpcClientCmd::ReceiverStreamItem(_payload) => Ok(InnerGrpcClientResult::NoResult),
            InnerGrpcClientCmd::Ping => Ok(InnerGrpcClientResult::NoResult),
        }
    }

    /// Reacts to one event: the state moves as `next_state` says and the
    /// actions returned are those of `emitted`, in order.
    pub fn on_event(&mut self, event: Event) -> (actions: Vec<Action>)
        requires
            old(self).wf(),
        ensures
            final(self).wf(),
            final(self)@ == next_state(old(self)@, event@),
            actions_view(actions@) == emitted(old(self)@, event@),
            final(self).config_view() == old(self).config_view(),
            final(self).channel_handle() == old(self).channel_handle(),
            final(self).sender_handle() == sender_after(
                old(self).sender_handle(),
                old(self)@,
                event,
            ),
    {
        match event {
            Event::Started => self.started(),
            Event::StreamOpened { sender, setup_body } => self.conn_bi_stream_opened(
                sender,
                setup_body,
            ),
            Event::StreamFailed => self.conn_bi_stream_failed(),
            Event::SetupSendFailed => self.bi_stream_setup_failed(),
            Event::Inbound(read) => self.receive_bi_stream(read),
            Event::HeartbeatTick => self.heartbeat_tick(),
            Event::UnaryRequest { payload, reply } => self.do_request(payload, reply),
            Event::StopRequested => self.stop(),
        }
    }

    /// Reacts to a list of events, one after the other, and returns all the
    /// actions asked for, in order.
    pub fn on_events(&mut self, events: Vec<Event>) -> (actions: Vec<Action>)
        requires
            old(self).wf(),
        ensures
            final(self).wf(),
            final(self)@ == state_after(old(self)@, events_view(events@)),
            actions_view(actions@) == trace(old(self)@, events_view(events@)),
            final(self).config_view() == old(self).config_view(),
            final(self).channel_handle() == old(self).channel_handle(),
            final(self).sender_handle() == sender_after_all(
                old(self).sender_handle(),
                old(self)@,
                events@,
            ),
    {
        let ghost all = events_view(events@);
        let ghost original = events@;
        let ghost start = self@;
        let mut events = events;
        let mut actions: Vec<Action> = Vec::new();
        let n = events.len();
        let mut i: usize = 0;
        assert(all.take(0) =~= Seq::<EventView>::empty());
        assert(actions_view(actions@) =~= Seq::<ActionView>::empty());
        while i < n
            invariant
                0 <= i <= n,
                n == original.len(),
                all == events_view(original),
                events@ =~= original.subrange(i as int, n as int),
                self.wf(),
                self@ == state_after(start, all.take(i as int)),
                actions_view(actions@) == trace(start, all.take(i as int)),
                self.config_view() == old(self).config_view(),
                self.channel_handle() == old(self).channel_handle(),
                self.sender_handle() == sender_after_all(
                    old(self).sender_handle(),
                    start,
                    original.take(i as int),
                ),
            decreases n - i,
        {
            let ghost sofar = actions_view(actions@);
            let event = events.remove(0);
            proof {
                assert(event == original[i as int]);
                assert(all.take(i + 1).drop_last() =~= all.take(i as int));
                assert(all.take(i + 1).last() == event@);
                assert(original.take(i + 1).drop_last() =~= original.take(i as int));
                assert(original.take(i + 1).last() == event);
                assert(events_view(original.take(i as int)) =~= all.take(i as int));
            }
            let mut step = self.on_event(event);
            let ghost asked = actions_view(step@);
            actions.append(&mut step);
            assert(actions_view(actions@) =~= sofar + asked);
            i += 1;
        }
        assert(all.take(n as int) =~= all);
        assert(original.take(n as int) =~= original);
        actions
    }
}

} // verus!
