//! The life of one connection: how it is opened, what each inbound frame and
//! each outbound event leads to, and how it is torn down.

use vstd::prelude::*;
use tokio::sync::mpsc::{Receiver, Sender};
use crate::auth::{
    authorize_upgrade, optional_string, optional_text, upgrade_allowed, UpgradeDecision,
    WsQueryParams,
};
use crate::clock::{utc_now, Timestamp};
use crate::filter::{names, remaining};
use crate::message::WsMessage;
use crate::outbound::{outbound_queue, receiver_bound, OUTBOUND_QUEUE_CAPACITY};
use crate::registry::{counter_down, counter_up, WsMetrics, WsState};

verus! {

/// Seconds between two heartbeats that the service sends to a client.
pub const HEARTBEAT_INTERVAL_SECONDS: u64 = 30;

/// The text form of a connection id: what `uuid::Uuid` with these 128 bits
/// displays as.
pub uninterp spec fn hyphenated_text(id: u128) -> Seq<char>;

/// `Uuid::new_v4`, handed back as its 128 bits (`Uuid::as_u128`). The id is
/// random, so nothing is claimed of it.
#[verifier::external_body]
fn fresh_connection_id() -> (id: u128)
{
    uuid::Uuid::new_v4().as_u128()
}

/// The `Display` form of the `Uuid` made of these 128 bits
/// (`Uuid::from_u128`): the same text for the same id, always.
#[verifier::external_body]
fn connection_label(id: u128) -> (label: String)
    ensures
        label@ == hyphenated_text(id),
{
    uuid::Uuid::from_u128(id).to_string()
}

/// Where a connection stands in its life.
#[derive(Clone, Copy, Debug, PartialEq, Eq, Structural)]
pub enum ConnectionState {
    /// The upgrade request has arrived and is not decided yet.
    Connecting,
    /// Registered; both halves run.
    Open,
    /// One half has ended; teardown is due.
    Closing,
    /// Torn down. Nothing happens to the connection any more.
    Closed,
}

/// What can happen to a connection as a whole.
#[derive(Clone, Copy, Debug, PartialEq, Eq, Structural)]
pub enum LifecycleEvent {
    /// The handshake let the request through.
    Accepted,
    /// The handshake rejected the request.
    Rejected,
    /// The inbound or the outbound half has ended.
    HalfEnded,
    /// The registry entries are gone.
    TornDown,
}

/// The state that follows `state` on `event`. An event that does not fit the
/// state leaves it as it is.
pub open spec fn next_state(state: ConnectionState, event: LifecycleEvent) -> ConnectionState {
    match (state, event) {
        (ConnectionState::Connecting, LifecycleEvent::Accepted) => ConnectionState::Open,
        (ConnectionState::Connecting, LifecycleEvent::Rejected) => ConnectionState::Closed,
        (ConnectionState::Open, LifecycleEvent::HalfEnded) => ConnectionState::Closing,
        (ConnectionState::Open, LifecycleEvent::TornDown) => ConnectionState::Closed,
        (ConnectionState::Closing, LifecycleEvent::TornDown) => ConnectionState::Closed,
        (state, _) => state,
    }
}

/// How far along its life a state is.
pub open spec fn progress(state: ConnectionState) -> nat {
    match state {
        ConnectionState::Connecting => 0,
        ConnectionState::Open => 1,
        ConnectionState::Closing => 2,
        ConnectionState::Closed => 3,
    }
}

impl ConnectionState {
    /// The state that follows on `event`.
    pub fn on(self, event: LifecycleEvent) -> (next: ConnectionState)
        ensures
            next == next_state(self, event),
    {
        match (self, event) {
            (ConnectionState::Connecting, LifecycleEvent::Accepted) => ConnectionState::Open,
            (ConnectionState::Connecting, LifecycleEvent::Rejected) => ConnectionState::Closed,
            (ConnectionState::Open, LifecycleEvent::HalfEnded) => ConnectionState::Closing,
            (ConnectionState::Open, LifecycleEvent::TornDown) => ConnectionState::Closed,
            (ConnectionState::Closing, LifecycleEvent::TornDown) => ConnectionState::Closed,
            (state, _) => state,
        }
    }
}

/// One frame that a client has sent.
#[derive(Debug, PartialEq, Eq)]
pub enum InboundFrame {
    /// A text frame, with the envelope its payload was read as, or nothing
    /// where the payload is no envelope.
    Text(Option<WsMessage>),
    /// A transport-level ping with its payload.
    Ping(Vec<u8>),
    /// A transport-level close.
    Close,
    /// Any other frame.
    Other,
}

/// What the inbound half does after a frame.
#[derive(Debug, PartialEq, Eq)]
pub enum InboundAction {
    /// Send this envelope to the client.
    Reply(WsMessage),
    /// Answer with a transport-level pong that carries this payload.
    TransportPong(Vec<u8>),
    /// Go on reading.
    Nothing,
    /// Go on reading; the client sent an envelope that only the service sends.
    Unexpected,
    /// Stop reading.
    Stop,
}

/// One thing the outbound half has waited for.
#[derive(Debug, PartialEq, Eq)]
pub enum OutboundEvent {
    /// The heartbeat timer fired.
    Heartbeat,
    /// The broadcast channel delivered an event.
    Broadcast(WsMessage),
    /// The connection's private queue delivered an event.
    Queued(WsMessage),
}

/// What an open connection answers to a frame.
pub open spec fn inbound_action(frame: InboundFrame) -> InboundAction {
    match frame {
        InboundFrame::Text(Some(WsMessage::Ping { timestamp })) => InboundAction::Reply(
            WsMessage::Pong { timestamp },
        ),
        InboundFrame::Text(Some(WsMessage::Subscribe { .. })) => InboundAction::Nothing,
        InboundFrame::Text(Some(WsMessage::Unsubscribe { .. })) => InboundAction::Nothing,
        InboundFrame::Text(Some(WsMessage::Pong { .. })) => InboundAction::Nothing,
        InboundFrame::Text(Some(_)) => InboundAction::Unexpected,
        InboundFrame::Text(None) => InboundAction::Nothing,
        InboundFrame::Ping(payload) => InboundAction::TransportPong(payload),
        InboundFrame::Close => InboundAction::Stop,
        InboundFrame::Other => InboundAction::Nothing,
    }
}

/// The subscriptions after an open connection has handled a frame: a
/// subscribe request replaces the connection's list, an unsubscribe request
/// takes the named channels out of it, and nothing else touches it.
pub open spec fn subscriptions_after(
    subscriptions: Map<u128, Seq<Seq<char>>>,
    id: u128,
    frame: InboundFrame,
) -> Map<u128, Seq<Seq<char>>> {
    if !subscriptions.dom().contains(id) {
        subscriptions
    } else {
        match frame {
            InboundFrame::Text(Some(WsMessage::Subscribe { channels })) => subscriptions.insert(
                id,
                names(channels@),
            ),
            InboundFrame::Text(Some(WsMessage::Unsubscribe { channels })) => subscriptions.insert(
                id,
                remaining(subscriptions[id], names(channels@)),
            ),
            _ => subscriptions,
        }
    }
}

/// The counters after an open connection has handled a frame: every text
/// frame counts as received, whatever it holds.
pub open spec fn counters_after(counters: WsMetrics, frame: InboundFrame) -> WsMetrics {
    if frame is Text {
        WsMetrics { messages_received: counter_up(counters.messages_received), ..counters }
    } else {
        counters
    }
}

/// The envelope that is written to the client for an outbound event: a
/// heartbeat becomes a ping stamped with the seconds of `now`, an event from
/// either queue goes out as it is.
pub open spec fn outbound_frame(event: OutboundEvent, now: Timestamp) -> WsMessage {
    match event {
        OutboundEvent::Heartbeat => WsMessage::Ping { timestamp: now.secs },
        OutboundEvent::Broadcast(msg) => msg,
        OutboundEvent::Queued(msg) => msg,
    }
}

/// One connection, from the moment it is registered.
#[derive(Debug)]
pub struct Connection {
    id: u128,
    state: ConnectionState,
}

/// What the service holds for a connection that has just been opened.
pub struct Opened {
    /// The connection, open.
    pub connection: Connection,
    /// The acknowledgement to send to the client first.
    pub ack: WsMessage,
    /// The receiving end of the connection's private queue.
    pub outbound: Receiver<WsMessage>,
}

/// How a registry changes when connection `id` is opened in it: the id is
/// registered with an empty channel list, and is counted once as opened and
/// once as active.
pub open spec fn opened_in(before: WsState, after: WsState, id: u128) -> bool {
    &&& after.wf()
    &&& after.connection_ids() == before.connection_ids().insert(id)
    &&& after.subscriptions() == before.subscriptions().insert(id, Seq::<Seq<char>>::empty())
    &&& after.counters() == (WsMetrics {
        total_connections: counter_up(before.counters().total_connections),
        active_connections: counter_up(before.counters().active_connections),
        ..before.counters()
    })
}

/// Whether a registry shows the same connections, subscriptions and counters
/// as another.
pub open spec fn untouched(before: WsState, after: WsState) -> bool {
    &&& after.connection_ids() == before.connection_ids()
    &&& after.subscriptions() == before.subscriptions()
    &&& after.counters() == before.counters()
}

impl Connection {
    /// The connection's id.
    pub closed spec fn spec_id(&self) -> u128 {
        self.id
    }

    /// The connection's state.
    pub closed spec fn spec_state(&self) -> ConnectionState {
        self.state
    }

    #[verifier::when_used_as_spec(spec_id)]
    pub fn id(&self) -> (id: u128)
        ensures
            id == self.spec_id(),
    {
        self.id
    }

    #[verifier::when_used_as_spec(spec_state)]
    pub fn state(&self) -> (state: ConnectionState)
        ensures
            state == self.spec_state(),
    {
        self.state
    }

    /// Opens a connection under a given id and outbound handle: registers
    /// it, counts it, and hands back the acknowledgement that names the id.
    pub fn open_with(registry: &mut WsState, id: u128, handle: Sender<WsMessage>) -> (opened: (
        Connection,
        WsMessage,
    ))
        requires
            old(registry).wf(),
        ensures
            opened.0.id() == id,
            opened.0.state() == ConnectionState::Open,
            opened_in(*old(registry), *final(registry), id),
            opened.1 matches WsMessage::Connected { connection_id } && connection_id@
                == hyphenated_text(id),
    {
        registry.record_opened();
        registry.register(id, handle);
        let ack = WsMessage::connected(connection_label(id));
        (Connection { id, state: ConnectionState::Connecting.on(LifecycleEvent::Accepted) }, ack)
    }

    /// Opens a connection under a fresh random id with a fresh private queue,
    /// whose receiving end is handed back.
    pub fn open(registry: &mut WsState) -> (opened: Opened)
        requires
            old(registry).wf(),
        ensures
            opened.connection.state() == ConnectionState::Open,
            receiver_bound(opened.outbound) == OUTBOUND_QUEUE_CAPACITY,
            opened_in(*old(registry), *final(registry), opened.connection.id()),
            opened.ack matches WsMessage::Connected { connection_id } && connection_id@
                == hyphenated_text(opened.connection.id()),
    {
        let id = fresh_connection_id();
        let (handle, outbound) = outbound_queue();
        let (connection, ack) = Connection::open_with(registry, id, handle);
        Opened { connection, ack, outbound }
    }

    /// Handles one frame from the client. An open connection counts every
    /// text frame, answers a ping envelope with a pong of the same
    /// timestamp, applies subscribe and unsubscribe requests to its own
    /// channel list, echoes a transport-level ping, and stops reading on a
    /// close frame. A connection that is not open does nothing and stops.
    pub fn on_frame(&mut self, registry: &mut WsState, frame: InboundFrame) -> (action:
        InboundAction)
        requires
            old(registry).wf(),
        ensures
            final(registry).wf(),
            final(self).id() == old(self).id(),
            final(registry).connection_ids() == old(registry).connection_ids(),
            old(self).state() != ConnectionState::Open ==> {
                &&& action == InboundAction::Stop
                &&& final(self).state() == old(self).state()
                &&& untouched(*old(registry), *final(registry))
            },
            old(self).state() == ConnectionState::Open ==> {
                &&& action == inbound_action(frame)
                &&& final(self).state() == if frame is Close {
                    ConnectionState::Closing
                } else {
                    ConnectionState::Open
                }
                &&& final(registry).subscriptions() == subscriptions_after(
                    old(registry).subscriptions(),
                    old(self).id(),
                    frame,
                )
                &&& final(registry).counters() == counters_after(old(registry).counters(), frame)
            },
    {
        match self.state {
            ConnectionState::Open => {},
            _ => {
                return InboundAction::Stop;
            },
        }
        match frame {
            InboundFrame::Text(parsed) => {
                registry.record_received();
                match parsed {
                    Some(WsMessage::Ping { timestamp }) => InboundAction::Reply(
                        WsMessage::Pong { timestamp },
                    ),
                    Some(WsMessage::Subscribe { channels }) => {
                        registry.subscribe(self.id, channels);
                        InboundAction::Nothing
                    },
                    Some(WsMessage::Unsubscribe { channels }) => {
                        registry.unsubscribe(self.id, channels);
                        InboundAction::Nothing
                    },
                    Some(WsMessage::Pong { .. }) => InboundAction::Nothing,
                    Some(_) => InboundAction::Unexpected,
                    None => InboundAction::Nothing,
                }
            },
            InboundFrame::Ping(payload) => InboundAction::TransportPong(payload),
            InboundFrame::Close => {
                self.state = self.state.on(LifecycleEvent::HalfEnded);
                InboundAction::Stop
            },
            InboundFrame::Other => InboundAction::Nothing,
        }
    }

    /// The envelope to write for an outbound event at `now`, or nothing for
    /// a connection that is not open.
    pub fn outbound_at(&self, event: OutboundEvent, now: Timestamp) -> (frame: Option<WsMessage>)
        ensures
            frame == if self.state() == ConnectionState::Open {
                Some(outbound_frame(event, now))
            } else {
                None
            },
    {
        match self.state {
            ConnectionState::Open => {},
            _ => {
                return None;
            },
        }
        match event {
            OutboundEvent::Heartbeat => Some(WsMessage::Ping { timestamp: now.secs }),
            OutboundEvent::Broadcast(msg) => Some(msg),
            OutboundEvent::Queued(msg) => Some(msg),
        }
    }

    /// The envelope to write for an outbound event now. A heartbeat is
    /// stamped with a reading of the clock; an event from either queue goes
    /// out as it is.
    pub fn on_outbound(&self, event: OutboundEvent) -> (frame: Option<WsMessage>)
        ensures
            frame is Some <==> self.state() == ConnectionState::Open,
            frame matches Some(msg) ==> match event {
                OutboundEvent::Heartbeat => msg is Ping,
                OutboundEvent::Broadcast(sent) => msg == sent,
                OutboundEvent::Queued(sent) => msg == sent,
            },
    {
        self.outbound_at(event, utc_now())
    }

    /// Notes that one half of the connection has ended: an open connection
    /// is now closing.
    pub fn half_ended(&mut self)
        ensures
            final(self).id() == old(self).id(),
            final(self).state() == next_state(old(self).state(), LifecycleEvent::HalfEnded),
    {
        self.state = self.state.on(LifecycleEvent::HalfEnded);
    }

    /// Tears the connection down: its id leaves both maps of the registry
    /// and the count of active connections goes down by one. A connection
    /// that is already closed is left alone, and so is the registry.
    pub fn close(&mut self, registry: &mut WsState)
        requires
            old(registry).wf(),
        ensures
            final(registry).wf(),
            final(self).id() == old(self).id(),
            final(self).state() == ConnectionState::Closed,
            old(self).state() == ConnectionState::Closed ==> untouched(
                *old(registry),
                *final(registry),
            ),
            old(self).state() != ConnectionState::Closed ==> {
                &&& final(registry).connection_ids() == old(registry).connection_ids().remove(
                    old(self).id(),
                )
                &&& final(registry).subscriptions() == old(registry).subscriptions().remove(
                    old(self).id(),
                )
                &&& !final(registry).connection_ids().contains(old(self).id())
                &&& !final(registry).subscriptions().dom().contains(old(self).id())
                &&& final(registry).counters() == (WsMetrics {
                    active_connections: counter_down(old(registry).counters().active_connections),
                    ..old(registry).counters()
                })
            },
    {
        match self.state {
            ConnectionState::Closed => {},
            _ => {
                registry.remove(self.id);
                registry.record_closed();
                self.state = ConnectionState::Closed;
            },
        }
    }
}

/// The whole handshake: decides the request and, where it is let through,
/// opens a connection for it. A rejected request leaves the registry as it
/// was: no id is allocated and nothing is counted.
pub fn upgrade(registry: &mut WsState, configured: Option<&str>, params: &WsQueryParams) -> (opened:
    Option<Opened>)
    requires
        old(registry).wf(),
    ensures
        final(registry).wf(),
        opened is Some <==> upgrade_allowed(
            optional_text(configured),
            optional_string(params.token),
        ),
        opened is None ==> untouched(*old(registry), *final(registry)),
        opened matches Some(o) ==> {
            &&& o.connection.state() == ConnectionState::Open
            &&& opened_in(*old(registry), *final(registry), o.connection.id())
            &&& o.ack matches WsMessage::Connected { connection_id } && connection_id@
                == hyphenated_text(o.connection.id())
        },
{
    match authorize_upgrade(configured, params) {
        UpgradeDecision::Proceed => Some(Connection::open(registry)),
        UpgradeDecision::Unauthorized => None,
    }
}

/// A closed connection stays closed, whatever happens.
pub proof fn lemma_closed_is_final(event: LifecycleEvent)
    ensures
        next_state(ConnectionState::Closed, event) == ConnectionState::Closed,
{
}

/// No event takes a connection back to an earlier state.
pub proof fn lemma_state_never_goes_back(state: ConnectionState, event: LifecycleEvent)
    ensures
        progress(next_state(state, event)) >= progress(state),
{
}

} // verus!
