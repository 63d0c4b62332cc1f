//! The periodic broadcaster: corridor updates, held back so that no corridor
//! is announced more often than once per interval, and the direct
//! publication of anchor and payment events.

use vstd::prelude::*;
use dashmap::DashMap;
use std::collections::hash_map::RandomState;
use crate::clock::{utc_now, Timestamp};
use crate::message::{AnchorMetrics, CorridorMetrics, PaymentRecord, Route, WsMessage};
use crate::registry::{reached, FanOut, FanOutView, WsState};
use crate::shared_map::{ledger_entries, ledger_get, ledger_insert, ledger_len, new_ledger};

verus! {

/// Seconds that must lie between two announcements of one corridor.
pub const CORRIDOR_INTERVAL_SECONDS: u32 = 30;

/// Seconds between two ticks of the periodic broadcaster.
pub const TICK_PERIOD_SECONDS: u64 = 30;

/// The time of the last dispatch that a ledger holds for a key, if any.
pub open spec fn last_dispatch_in(ledger: Map<Seq<char>, Timestamp>, key: Seq<char>) -> Option<
    Timestamp,
> {
    if ledger.dom().contains(key) {
        Some(ledger[key])
    } else {
        None
    }
}

/// Whether a corridor may be announced at `now`: it was never announced, or
/// the interval has passed since it last was.
pub open spec fn is_due(last: Option<Timestamp>, now: Timestamp) -> bool {
    match last {
        None => true,
        Some(at) => now.spec_has_elapsed(at, CORRIDOR_INTERVAL_SECONDS),
    }
}

/// The ledger after one attempt to announce `key` at `now`: stamped with
/// `now` where the corridor was due, untouched where it was not.
pub open spec fn ledger_step(
    ledger: Map<Seq<char>, Timestamp>,
    key: Seq<char>,
    now: Timestamp,
) -> Map<Seq<char>, Timestamp> {
    if is_due(last_dispatch_in(ledger, key), now) {
        ledger.insert(key, now)
    } else {
        ledger
    }
}

/// The ledger after a run of attempts, the i-th for `keys[i]` at `times[i]`.
pub open spec fn ledger_after(
    ledger: Map<Seq<char>, Timestamp>,
    keys: Seq<Seq<char>>,
    times: Seq<Timestamp>,
) -> Map<Seq<char>, Timestamp>
    decreases keys.len(),
{
    if keys.len() == 0 || times.len() != keys.len() {
        ledger
    } else {
        ledger_step(
            ledger_after(ledger, keys.drop_last(), times.drop_last()),
            keys.last(),
            times.last(),
        )
    }
}

/// The corridor keys of a list of records, in order.
pub open spec fn corridor_keys(records: Seq<CorridorMetrics>) -> Seq<Seq<char>> {
    records.map_values(|r: CorridorMetrics| r.corridor_key@)
}

/// What one tick did with one record.
#[derive(Debug, PartialEq, Eq)]
pub struct CorridorDispatch {
    /// The clock reading the decision was made with.
    pub checked_at: Timestamp,
    /// The report of the fan-out, or nothing where the corridor was held back.
    pub sent: Option<FanOut>,
}

/// The clock readings of a tick's outcomes, in order.
pub open spec fn checked_times(outcomes: Seq<CorridorDispatch>) -> Seq<Timestamp> {
    outcomes.map_values(|o: CorridorDispatch| o.checked_at)
}

/// What a tick over `records` leaves behind. There is one outcome per record,
/// in order. The ledger ends as the attempts, each made at the reading its
/// outcome names, leave it, and holds every key it held before. A record was
/// sent exactly when it was due after the attempts before it, and where it
/// was sent, the corridor event that carries its five fields was fanned out
/// to the recipients of its corridor.
pub open spec fn tick_result(
    before: Map<Seq<char>, Timestamp>,
    after: Map<Seq<char>, Timestamp>,
    state: WsState,
    records: Seq<CorridorMetrics>,
    outcomes: Seq<CorridorDispatch>,
) -> bool {
    &&& outcomes.len() == records.len()
    &&& after == ledger_after(before, corridor_keys(records), checked_times(outcomes))
    &&& before.dom().subset_of(after.dom())
    &&& forall|i: int|
        0 <= i < outcomes.len() ==> ((#[trigger] outcomes[i]).sent is Some <==> is_due(
            last_dispatch_in(
                ledger_after(
                    before,
                    corridor_keys(records).take(i),
                    checked_times(outcomes).take(i),
                ),
                records[i].corridor_key@,
            ),
            outcomes[i].checked_at,
        ))
    &&& forall|i: int|
        0 <= i < outcomes.len() ==> ((#[trigger] outcomes[i]).sent matches Some(report)
            ==> corridor_fanned_out(report@, state, records[i]))
}

/// Whether a report is that of announcing `record`: it holds the corridor
/// event that carries the record's five fields, and its pushes went to the
/// recipients of the record's corridor.
pub open spec fn corridor_fanned_out(report: FanOutView, state: WsState, record: CorridorMetrics) -> bool {
    &&& report.event == WsMessage::spec_corridor_update(record)
    &&& reached(report.deliveries, state, Route::Corridor(record.corridor_key@))
}

/// The broadcaster and its rate-limit ledger.
pub struct RealtimeBroadcaster {
    /// Corridor key to the time it was last announced.
    last_sent: DashMap<String, Timestamp, RandomState>,
}

impl RealtimeBroadcaster {
    /// The ledger: for each corridor key ever announced, the time of the last
    /// announcement.
    pub closed spec fn ledger(&self) -> Map<Seq<char>, Timestamp> {
        ledger_entries(self.last_sent)
    }

    /// A broadcaster that has announced nothing yet.
    pub fn new() -> (broadcaster: RealtimeBroadcaster)
        ensures
            broadcaster.ledger() == Map::<Seq<char>, Timestamp>::empty(),
    {
        RealtimeBroadcaster { last_sent: new_ledger() }
    }

    /// The number of corridor keys the ledger holds.
    pub fn tracked_corridors(&self) -> (count: usize)
        ensures
            count == self.ledger().dom().len(),
    {
        ledger_len(&self.last_sent)
    }

    /// When a corridor was last announced, if ever.
    pub fn last_dispatch(&self, corridor_key: &str) -> (last: Option<Timestamp>)
        ensures
            last == last_dispatch_in(self.ledger(), corridor_key@),
    {
        ledger_get(&self.last_sent, corridor_key)
    }

    /// Whether a corridor may be announced at `now`.
    pub fn should_dispatch(&self, corridor_key: &str, now: Timestamp) -> (due: bool)
        ensures
            due == is_due(last_dispatch_in(self.ledger(), corridor_key@), now),
    {
        match ledger_get(&self.last_sent, corridor_key) {
            Some(at) => now.has_elapsed(&at, CORRIDOR_INTERVAL_SECONDS),
            None => true,
        }
    }

    /// One attempt to announce a corridor at `now`. Where the corridor is due
    /// its update is fanned out to the connections whose channel lists let
    /// it through, and the ledger is stamped with `now`. Where it is not due,
    /// nothing is sent and the ledger stays as it is.
    pub fn dispatch_corridor(
        &mut self,
        state: &WsState,
        record: &CorridorMetrics,
        now: Timestamp,
    ) -> (sent: Option<FanOut>)
        requires
            state.wf(),
        ensures
            sent is Some <==> is_due(
                last_dispatch_in(old(self).ledger(), record.corridor_key@),
                now,
            ),
            sent matches Some(report) ==> corridor_fanned_out(report@, *state, *record),
            final(self).ledger() == ledger_step(old(self).ledger(), record.corridor_key@, now),
    {
        if !self.should_dispatch(record.corridor_key.as_str(), now) {
            return None;
        }
        let report = state.fan_out(WsMessage::corridor_update(record));
        ledger_insert(&mut self.last_sent, record.corridor_key.clone(), now);
        Some(report)
    }

    /// One tick: every record is attempted in turn, each with a fresh reading
    /// of the clock. The outcomes name, record by record, the reading that
    /// was used and what was sent; the ledger ends as those attempts leave
    /// it, and no key ever leaves it.
    pub fn publish_corridor_updates(
        &mut self,
        state: &WsState,
        metrics: Vec<CorridorMetrics>,
    ) -> (outcomes: Vec<CorridorDispatch>)
        requires
            state.wf(),
        ensures
            tick_result(old(self).ledger(), final(self).ledger(), *state, metrics@, outcomes@),
    {
        let mut outcomes: Vec<CorridorDispatch> = Vec::new();
        let ghost keys = corridor_keys(metrics@);
        let mut i: usize = 0;
        while i < metrics.len()
            invariant
                i <= metrics.len(),
                state.wf(),
                keys == corridor_keys(metrics@),
                outcomes.len() == i,
                self.ledger() == ledger_after(
                    old(self).ledger(),
                    keys.take(i as int),
                    checked_times(outcomes@),
                ),
                forall|k: int|
                    0 <= k < i ==> ((#[trigger] outcomes[k]).sent is Some <==> is_due(
                        last_dispatch_in(
                            ledger_after(
                                old(self).ledger(),
                                keys.take(k),
                                checked_times(outcomes@).take(k),
                            ),
                            metrics[k].corridor_key@,
                        ),
                        outcomes[k].checked_at,
                    )),
                forall|k: int|
                    0 <= k < i ==> ((#[trigger] outcomes[k]).sent matches Some(report)
                        ==> corridor_fanned_out(report@, *state, metrics[k])),
                old(self).ledger().dom().subset_of(self.ledger().dom()),
            decreases metrics.len() - i,
        {
            let now = utc_now();
            let ghost before = outcomes@;
            let sent = self.dispatch_corridor(state, &metrics[i], now);
            outcomes.push(CorridorDispatch { checked_at: now, sent });
            proof {
                let times = checked_times(outcomes@);
                assert(keys.take(i + 1).drop_last() =~= keys.take(i as int));
                assert(times.take(i as int) =~= checked_times(before));
                assert forall|k: int| 0 <= k < i implies checked_times(before).take(k)
                    =~= times.take(k) by {}
            }
            i = i + 1;
        }
        assert(keys.take(metrics.len() as int) =~= keys);
        outcomes
    }

    /// One turn of the periodic loop, given what storage returned. Where the
    /// read failed the tick is skipped: nothing is sent, the ledger stays as
    /// it is, and the next tick tries again. Otherwise the records are
    /// published.
    pub fn on_tick(&mut self, state: &WsState, fetched: Option<Vec<CorridorMetrics>>) -> (outcomes:
        Option<Vec<CorridorDispatch>>)
        requires
            state.wf(),
        ensures
            outcomes is Some <==> fetched is Some,
            fetched is None ==> final(self).ledger() == old(self).ledger(),
            fetched matches Some(records) ==> tick_result(
                old(self).ledger(),
                final(self).ledger(),
                *state,
                records@,
                outcomes->0@,
            ),
    {
        match fetched {
            Some(records) => Some(self.publish_corridor_updates(state, records)),
            None => None,
        }
    }

    /// Publishes an anchor's status: the anchor event with its score and
    /// the label of its status goes to every connection whose channel list
    /// lets anchor events through. Every call sends: nothing is held back.
    pub fn broadcast_anchor_status(&self, state: &WsState, anchor: AnchorMetrics) -> (report:
        FanOut)
        requires
            state.wf(),
        ensures
            report@.event.is_anchor_update(anchor),
            reached(report@.deliveries, *state, Route::Anchor),
    {
        state.fan_out(WsMessage::anchor_update(&anchor))
    }

    /// Publishes a payment: the payment event that carries it unchanged goes
    /// to every connection whose channel list lets payment events through.
    /// Every call sends: nothing is held back.
    pub fn broadcast_payment(&self, state: &WsState, payment: PaymentRecord) -> (report: FanOut)
        requires
            state.wf(),
        ensures
            report@.event == WsMessage::spec_new_payment(payment),
            reached(report@.deliveries, *state, Route::Payments),
    {
        state.fan_out(WsMessage::new_payment(payment))
    }
}

/// Of two attempts to announce one corridor, the first of which was sent,
/// the second is sent exactly when the interval has passed since the first.
pub proof fn lemma_second_attempt_waits_for_interval(
    ledger: Map<Seq<char>, Timestamp>,
    key: Seq<char>,
    first: Timestamp,
    second: Timestamp,
)
    requires
        is_due(last_dispatch_in(ledger, key), first),
    ensures
        is_due(last_dispatch_in(ledger_step(ledger, key, first), key), second)
            <==> second.nanos_since(first) >= 30 * 1_000_000_000,
{
}

/// An attempt never takes a key out of the ledger.
pub proof fn lemma_ledger_keeps_keys(
    ledger: Map<Seq<char>, Timestamp>,
    key: Seq<char>,
    now: Timestamp,
)
    ensures
        ledger.dom().subset_of(ledger_step(ledger, key, now).dom()),
{
}

} // verus!
