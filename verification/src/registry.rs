//! The connection registry: who is connected, what each connection has
//! subscribed to, and the counters that describe the traffic.

use vstd::prelude::*;
use dashmap::DashMap;
use std::collections::hash_map::RandomState;
use std::time::Instant;
use tokio::sync::mpsc::Sender;
use crate::clock::{elapsed_since, monotonic_now, whole_seconds};
use crate::filter::{
    admits, corridor_channel, lemma_remaining_without_overlap, lemma_single_corridor_subscription,
    names, remaining, retain_unlisted, should_deliver,
};
use crate::message::{Route, WsMessage};
use crate::outbound::{
    broadcast_ring, broadcast_send, shared_channel, try_deliver, DeliveryOutcome, BROADCAST_RING,
};
use crate::shared_map::{
    handle_contains, handle_count, handle_insert, handle_remove, handle_snapshot, new_handle_map,
    new_subscription_map, registered_ids, subscription_entries, subscription_get,
    subscription_insert, subscription_remove,
};

verus! {

/// The counter that follows `n`; the largest value is followed by zero.
pub open spec fn counter_up(n: u64) -> u64 {
    if n == u64::MAX {
        0
    } else {
        (n + 1) as u64
    }
}

/// The counter that precedes `n`; zero is preceded by the largest value.
pub open spec fn counter_down(n: u64) -> u64 {
    if n == 0 {
        u64::MAX
    } else {
        (n - 1) as u64
    }
}

/// Traffic counters of the registry, and the moment it was started.
#[derive(Debug)]
pub struct WsMetrics {
    /// Connections ever opened.
    pub total_connections: u64,
    /// Connections open now.
    pub active_connections: u64,
    /// Events handed to the broadcast channel.
    pub messages_sent: u64,
    /// Text frames received from clients.
    pub messages_received: u64,
    /// Connection errors.
    pub connection_errors: u64,
    /// When the registry was started.
    pub start_time: Instant,
}

/// The counters at one moment, with the uptime in place of the start time.
#[derive(Clone, Copy, Debug, PartialEq, Eq, Structural)]
pub struct WsMetricsSnapshot {
    pub total_connections: u64,
    pub active_connections: u64,
    pub messages_sent: u64,
    pub messages_received: u64,
    pub connection_errors: u64,
    pub uptime_seconds: u64,
}

impl WsMetrics {
    /// The snapshot that shows these counters beside the given uptime.
    pub open spec fn spec_snapshot(self, uptime_seconds: u64) -> WsMetricsSnapshot {
        WsMetricsSnapshot {
            total_connections: self.total_connections,
            active_connections: self.active_connections,
            messages_sent: self.messages_sent,
            messages_received: self.messages_received,
            connection_errors: self.connection_errors,
            uptime_seconds,
        }
    }

    /// Whether every counter stands at zero.
    pub open spec fn is_fresh(self) -> bool {
        &&& self.total_connections == 0
        &&& self.active_connections == 0
        &&& self.messages_sent == 0
        &&& self.messages_received == 0
        &&& self.connection_errors == 0
    }

    /// Counters at zero, started at `start_time`.
    pub fn new(start_time: Instant) -> (metrics: WsMetrics)
        ensures
            metrics.is_fresh(),
            metrics.start_time == start_time,
    {
        WsMetrics {
            total_connections: 0,
            active_connections: 0,
            messages_sent: 0,
            messages_received: 0,
            connection_errors: 0,
            start_time,
        }
    }

    /// The counters as they stand, beside the given uptime.
    pub fn snapshot(&self, uptime_seconds: u64) -> (snapshot: WsMetricsSnapshot)
        ensures
            snapshot == self.spec_snapshot(uptime_seconds),
    {
        WsMetricsSnapshot {
            total_connections: self.total_connections,
            active_connections: self.active_connections,
            messages_sent: self.messages_sent,
            messages_received: self.messages_received,
            connection_errors: self.connection_errors,
            uptime_seconds,
        }
    }
}

/// One attempt to push an event into a connection's private queue.
#[derive(Clone, Copy, Debug, PartialEq, Eq, Structural)]
pub struct Delivery {
    pub connection: u128,
    pub outcome: DeliveryOutcome,
}

/// The connections named in a report, in its order.
pub open spec fn attempted(report: Seq<Delivery>) -> Seq<u128> {
    report.map_values(|d: Delivery| d.connection)
}

/// Whether the pushes of a report went to the recipients of `route` in
/// `state`: to each of them once and to nobody else.
pub open spec fn reached(deliveries: Seq<Delivery>, state: WsState, route: Route) -> bool {
    attempted(deliveries).no_duplicates() && attempted(deliveries).to_set() == state.recipients(
        route,
    )
}

/// What one fan-out did: the event that was pushed, and every push that was
/// attempted. Only a fan-out makes one.
#[derive(Debug, PartialEq, Eq)]
pub struct FanOut {
    event: WsMessage,
    deliveries: Vec<Delivery>,
}

/// A fan-out as the contracts see it.
pub struct FanOutView {
    /// The event that was pushed.
    pub event: WsMessage,
    /// The pushes that were attempted, in the order they were made.
    pub deliveries: Seq<Delivery>,
}

impl View for FanOut {
    type V = FanOutView;

    closed spec fn view(&self) -> FanOutView {
        FanOutView { event: self.event, deliveries: self.deliveries@ }
    }
}

impl FanOut {
    /// The event that was pushed.
    pub fn event(&self) -> (event: &WsMessage)
        ensures
            *event == self@.event,
    {
        &self.event
    }

    /// The pushes that were attempted.
    pub fn deliveries(&self) -> (deliveries: &Vec<Delivery>)
        ensures
            deliveries@ == self@.deliveries,
    {
        &self.deliveries
    }
}

/// The registry of live connections.
pub struct WsState {
    /// Connection id to the sending end of its private queue.
    connections: DashMap<u128, Sender<WsMessage>, RandomState>,
    /// Connection id to the channels it has subscribed to.
    subscriptions: DashMap<u128, Vec<String>, RandomState>,
    /// The channel every connection listens to.
    tx: tokio::sync::broadcast::Sender<WsMessage>,
    /// Traffic counters.
    metrics: WsMetrics,
}

impl WsState {
    /// The ids of the registered connections.
    pub closed spec fn connection_ids(&self) -> Set<u128> {
        registered_ids(self.connections)
    }

    /// The channel names of each connection that has a subscription entry.
    pub closed spec fn subscriptions(&self) -> Map<u128, Seq<Seq<char>>> {
        subscription_entries(self.subscriptions)
    }

    /// The traffic counters.
    pub closed spec fn counters(&self) -> WsMetrics {
        self.metrics
    }

    /// The sending end of the broadcast channel.
    pub closed spec fn broadcast_channel(&self) -> tokio::sync::broadcast::Sender<WsMessage> {
        self.tx
    }

    /// The registry's invariant: a connection has an outbound handle exactly
    /// when it has a subscription entry, and the connections are finitely many.
    pub open spec fn wf(&self) -> bool {
        &&& self.connection_ids() == self.subscriptions().dom()
        &&& self.connection_ids().finite()
    }

    /// The connections an event with this route is handed to: the registered
    /// ones whose channel list lets it through.
    pub open spec fn recipients(&self, route: Route) -> Set<u128> {
        Set::new(
            |id: u128|
                self.connection_ids().contains(id) && admits(self.subscriptions()[id], route),
        )
    }

    /// An empty registry with all counters at zero and a fresh broadcast
    /// channel.
    pub fn new() -> (state: WsState)
        ensures
            state.wf(),
            state.connection_ids() == Set::<u128>::empty(),
            state.subscriptions() == Map::<u128, Seq<Seq<char>>>::empty(),
            state.counters().is_fresh(),
            broadcast_ring(state.broadcast_channel()) == BROADCAST_RING,
    {
        WsState {
            connections: new_handle_map(),
            subscriptions: new_subscription_map(),
            tx: shared_channel(),
            metrics: WsMetrics::new(monotonic_now()),
        }
    }

    /// The traffic counters and the start time.
    pub fn metrics(&self) -> (metrics: &WsMetrics)
        ensures
            *metrics == self.counters(),
    {
        &self.metrics
    }

    /// The sending end of the broadcast channel, for those who want to listen.
    pub fn broadcast_sender(&self) -> (sender: &tokio::sync::broadcast::Sender<WsMessage>)
        ensures
            *sender == self.broadcast_channel(),
    {
        &self.tx
    }

    /// Enters a connection with its outbound handle and an empty channel list.
    /// An id that is already registered gets the new handle and loses its
    /// channels.
    pub fn register(&mut self, id: u128, handle: Sender<WsMessage>)
        requires
            old(self).wf(),
        ensures
            final(self).wf(),
            final(self).connection_ids() == old(self).connection_ids().insert(id),
            final(self).subscriptions() == old(self).subscriptions().insert(
                id,
                Seq::<Seq<char>>::empty(),
            ),
            final(self).counters() == old(self).counters(),
    {
        handle_insert(&mut self.connections, id, handle);
        let none: Vec<String> = Vec::new();
        assert(names(none@) =~= Seq::<Seq<char>>::empty());
        subscription_insert(&mut self.subscriptions, id, none);
    }

    /// Takes a connection out of both maps. Nothing happens where the id is
    /// not registered.
    pub fn remove(&mut self, id: u128)
        requires
            old(self).wf(),
        ensures
            final(self).wf(),
            final(self).connection_ids() == old(self).connection_ids().remove(id),
            final(self).subscriptions() == old(self).subscriptions().remove(id),
            !old(self).connection_ids().contains(id) ==> {
                &&& final(self).connection_ids() == old(self).connection_ids()
                &&& final(self).subscriptions() == old(self).subscriptions()
            },
            final(self).counters() == old(self).counters(),
    {
        handle_remove(&mut self.connections, id);
        subscription_remove(&mut self.subscriptions, id);
    }

    /// Whether a connection with this id is registered.
    pub fn is_registered(&self, id: u128) -> (found: bool)
        ensures
            found == self.connection_ids().contains(id),
    {
        handle_contains(&self.connections, id)
    }

    /// The channels a connection is subscribed to, or nothing for an id that
    /// is not registered.
    pub fn subscriptions_of(&self, id: u128) -> (channels: Option<Vec<String>>)
        requires
            self.wf(),
        ensures
            channels is Some <==> self.connection_ids().contains(id),
            channels matches Some(list) ==> names(list@) == self.subscriptions()[id],
    {
        subscription_get(&self.subscriptions, id)
    }

    /// The number of registered connections.
    pub fn connection_count(&self) -> (count: usize)
        ensures
            count == self.connection_ids().len(),
    {
        handle_count(&self.connections)
    }

    /// Replaces the channel list of a registered connection by `channels`.
    /// What it held before is gone: the lists are not merged. Nothing
    /// happens where the id is not registered.
    pub fn subscribe(&mut self, id: u128, channels: Vec<String>)
        requires
            old(self).wf(),
        ensures
            final(self).wf(),
            final(self).connection_ids() == old(self).connection_ids(),
            final(self).subscriptions() == if old(self).connection_ids().contains(id) {
                old(self).subscriptions().insert(id, names(channels@))
            } else {
                old(self).subscriptions()
            },
            final(self).counters() == old(self).counters(),
    {
        if handle_contains(&self.connections, id) {
            subscription_insert(&mut self.subscriptions, id, channels);
            assert(final(self).subscriptions().dom() =~= old(self).subscriptions().dom());
        }
    }

    /// Takes the named channels out of a registered connection's list and
    /// leaves its other channels as they are. Nothing happens where the id is
    /// not registered, or where the list holds none of the named channels.
    pub fn unsubscribe(&mut self, id: u128, channels: Vec<String>)
        requires
            old(self).wf(),
        ensures
            final(self).wf(),
            final(self).connection_ids() == old(self).connection_ids(),
            final(self).subscriptions() == if old(self).connection_ids().contains(id) {
                old(self).subscriptions().insert(
                    id,
                    remaining(old(self).subscriptions()[id], names(channels@)),
                )
            } else {
                old(self).subscriptions()
            },
            (forall|i: int|
                0 <= i < channels.len() ==> !old(self).subscriptions()[id].contains(
                    #[trigger] names(channels@)[i],
                )) ==> final(self).subscriptions() == old(self).subscriptions(),
            final(self).counters() == old(self).counters(),
    {
        let current = subscription_get(&self.subscriptions, id);
        match current {
            Some(list) => {
                let kept = retain_unlisted(&list, &channels);
                subscription_insert(&mut self.subscriptions, id, kept);
                proof {
                    if forall|i: int|
                        0 <= i < channels.len() ==> !old(self).subscriptions()[id].contains(
                            #[trigger] names(channels@)[i],
                        ) {
                        lemma_remaining_without_overlap(
                            old(self).subscriptions()[id],
                            names(channels@),
                        );
                        assert(final(self).subscriptions() =~= old(self).subscriptions());
                    }
                }
            },
            None => {},
        }
    }

    /// Hands an event to the broadcast channel and counts it as sent. Every
    /// connection that listens at that moment will see it; where none
    /// listens the event is lost, which is no error.
    pub fn broadcast(&mut self, message: WsMessage)
        ensures
            final(self).connection_ids() == old(self).connection_ids(),
            final(self).subscriptions() == old(self).subscriptions(),
            final(self).counters() == (WsMetrics {
                messages_sent: counter_up(old(self).counters().messages_sent),
                ..old(self).counters()
            }),
            final(self).broadcast_channel() == old(self).broadcast_channel(),
    {
        self.metrics.messages_sent = self.metrics.messages_sent.wrapping_add(1);
        let _ = broadcast_send(&self.tx, message);
    }

    /// Counts a connection that has just been opened.
    pub fn record_opened(&mut self)
        ensures
            final(self).connection_ids() == old(self).connection_ids(),
            final(self).subscriptions() == old(self).subscriptions(),
            final(self).counters() == (WsMetrics {
                total_connections: counter_up(old(self).counters().total_connections),
                active_connections: counter_up(old(self).counters().active_connections),
                ..old(self).counters()
            }),
    {
        self.metrics.total_connections = self.metrics.total_connections.wrapping_add(1);
        self.metrics.active_connections = self.metrics.active_connections.wrapping_add(1);
    }

    /// Counts a connection that has just been closed.
    pub fn record_closed(&mut self)
        ensures
            final(self).connection_ids() == old(self).connection_ids(),
            final(self).subscriptions() == old(self).subscriptions(),
            final(self).counters() == (WsMetrics {
                active_connections: counter_down(old(self).counters().active_connections),
                ..old(self).counters()
            }),
    {
        self.metrics.active_connections = self.metrics.active_connections.wrapping_sub(1);
    }

    /// Counts a text frame that a client has sent.
    pub fn record_received(&mut self)
        ensures
            final(self).connection_ids() == old(self).connection_ids(),
            final(self).subscriptions() == old(self).subscriptions(),
            final(self).counters() == (WsMetrics {
                messages_received: counter_up(old(self).counters().messages_received),
                ..old(self).counters()
            }),
    {
        self.metrics.messages_received = self.metrics.messages_received.wrapping_add(1);
    }

    /// The counters as they stand, beside the seconds that have passed since
    /// the registry was started.
    pub fn get_metrics(&self) -> (snapshot: WsMetricsSnapshot)
        ensures
            snapshot == self.counters().spec_snapshot(snapshot.uptime_seconds),
    {
        let running = elapsed_since(&self.metrics.start_time);
        self.metrics.snapshot(whole_seconds(&running))
    }

    /// Pushes an event into the private queue of every registered connection
    /// whose channel list lets it through, without waiting: where a queue is
    /// full or closed the event is dropped for that connection alone. The
    /// report holds the event and names each such connection once, with what
    /// became of the push.
    #[verifier::loop_isolation(false)]
    pub fn fan_out(&self, msg: WsMessage) -> (report: FanOut)
        requires
            self.wf(),
        ensures
            report@.event == msg,
            reached(report@.deliveries, *self, msg.route()),
    {
        let handles = handle_snapshot(&self.connections);
        let mut report: Vec<Delivery> = Vec::new();
        let ghost route = msg.route();
        let ghost mut origin: Seq<int> = Seq::empty();
        let mut i: usize = 0;
        while i < handles.len()
            invariant
                i <= handles.len(),
                origin.len() == report.len(),
                forall|k: int|
                    0 <= k < report.len() ==> 0 <= #[trigger] origin[k] < i && report[k].connection
                        == handles[origin[k]].0 && admits(
                        self.subscriptions()[report[k].connection],
                        route,
                    ),
                forall|a: int, b: int|
                    0 <= a < b < report.len() ==> #[trigger] origin[a] < #[trigger] origin[b],
                forall|j: int|
                    0 <= j < i && admits(self.subscriptions()[(#[trigger] handles[j]).0], route)
                        ==> exists|k: int| 0 <= k < report.len() && #[trigger] origin[k] == j,
            decreases handles.len() - i,
        {
            let id = handles[i].0;
            let listed = subscription_get(&self.subscriptions, id);
            let deliver = match &listed {
                Some(list) => should_deliver(list, &msg),
                None => true,
            };
            if deliver {
                let outcome = try_deliver(&handles[i].1, msg.clone());
                let ghost before = origin;
                report.push(Delivery { connection: id, outcome });
                proof {
                    origin = origin.push(i as int);
                    assert(origin[report.len() - 1] == i);
                    assert forall|j: int|
                        0 <= j < i + 1 && admits(
                            self.subscriptions()[(#[trigger] handles[j]).0],
                            route,
                        ) implies exists|k: int| 0 <= k < report.len() && #[trigger] origin[k]
                        == j by {
                        if j < i {
                            let k = choose|k: int|
                                0 <= k < before.len() && #[trigger] before[k] == j;
                            assert(origin[k] == j);
                        }
                    }
                }
            }
            i = i + 1;
        }
        proof {
            let named = attempted(report@);
            assert forall|a: int, b: int| 0 <= a < named.len() && 0 <= b < named.len() && a != b
                implies named[a] != named[b] by {
                assert(origin[a] != origin[b]);
            }
            assert forall|id: u128| named.to_set().contains(id) <==> self.recipients(
                route,
            ).contains(id) by {
                if named.to_set().contains(id) {
                    let k = choose|k: int| 0 <= k < named.len() && named[k] == id;
                    assert(report[k].connection == handles[origin[k]].0);
                }
                if self.recipients(route).contains(id) {
                    let j = choose|j: int|
                        0 <= j < handles.len() && (#[trigger] handles[j]).0 == id;
                    let k = choose|k: int| 0 <= k < report.len() && #[trigger] origin[k] == j;
                    assert(named[k] == id);
                }
            }
            assert(named.to_set() =~= self.recipients(route));
        }
        FanOut { event: msg, deliveries: report }
    }
}

/// A registered connection with an empty channel list is among the
/// recipients of every event.
pub proof fn lemma_unfiltered_connection_receives_all(state: WsState, id: u128, route: Route)
    requires
        state.connection_ids().contains(id),
        state.subscriptions()[id].len() == 0,
    ensures
        state.recipients(route).contains(id),
{
}

/// A registered connection whose only channel is that of one corridor is
/// among the recipients of that corridor's updates and of no other corridor's.
pub proof fn lemma_corridor_subscriber_receives_its_corridor_only(
    state: WsState,
    id: u128,
    subscribed_key: Seq<char>,
    event_key: Seq<char>,
)
    requires
        state.connection_ids().contains(id),
        state.subscriptions()[id] == seq![corridor_channel(subscribed_key)],
    ensures
        state.recipients(Route::Corridor(event_key)).contains(id) <==> event_key == subscribed_key,
{
    lemma_single_corridor_subscription(subscribed_key, event_key);
}

} // verus!
