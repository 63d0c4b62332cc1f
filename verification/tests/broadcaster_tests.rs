use insights_realtime::broadcaster::{
    RealtimeBroadcaster, CORRIDOR_INTERVAL_SECONDS, TICK_PERIOD_SECONDS,
};
use insights_realtime::clock::Timestamp;
use insights_realtime::message::{
    AnchorMetrics, AnchorStatus, CorridorMetrics, PaymentRecord, WsMessage,
};
use insights_realtime::outbound::{DeliveryOutcome, OUTBOUND_QUEUE_CAPACITY};
use insights_realtime::registry::{Delivery, WsState};
use tokio::sync::mpsc::Receiver;

fn strings(items: &[&str]) -> Vec<String> {
    items.iter().map(|s| s.to_string()).collect()
}

fn record(key: &str) -> CorridorMetrics {
    CorridorMetrics {
        corridor_key: key.to_string(),
        asset_a_code: "USDC".to_string(),
        asset_a_issuer: "GISSUER".to_string(),
        asset_b_code: "XLM".to_string(),
        asset_b_issuer: "native".to_string(),
    }
}

fn update(key: &str) -> WsMessage {
    WsMessage::CorridorUpdate {
        corridor_key: key.to_string(),
        asset_a_code: "USDC".to_string(),
        asset_a_issuer: "GISSUER".to_string(),
        asset_b_code: "XLM".to_string(),
        asset_b_issuer: "native".to_string(),
    }
}

fn test_payment() -> PaymentRecord {
    PaymentRecord {
        id: "test_payment".to_string(),
        transaction_hash: "test_hash".to_string(),
        source_account: "GTEST1".to_string(),
        destination_account: "GTEST2".to_string(),
        asset_type: "credit_alphanum4".to_string(),
        asset_code: Some("USDC".to_string()),
        asset_issuer: Some("GTEST3".to_string()),
        amount: "100.0".to_string(),
        created_at: chrono::Utc::now().to_rfc3339(),
    }
}

fn join(state: &mut WsState, id: u128) -> Receiver<WsMessage> {
    let (tx, rx) = tokio::sync::mpsc::channel(OUTBOUND_QUEUE_CAPACITY);
    state.register(id, tx);
    rx
}

fn wall_clock() -> Timestamp {
    let now = chrono::Utc::now();
    Timestamp::new(now.timestamp(), now.timestamp_subsec_nanos())
}

fn received(rx: &mut Receiver<WsMessage>) -> Vec<WsMessage> {
    let mut all = Vec::new();
    while let Ok(msg) = rx.try_recv() {
        all.push(msg);
    }
    all
}

#[test]
fn test_broadcaster_creation() {
    let dummy_state = WsState::new();
    let broadcaster = RealtimeBroadcaster::new();
    assert_eq!(dummy_state.connection_count(), 0);
    assert_eq!(broadcaster.tracked_corridors(), 0);
}

#[test]
fn test_broadcast_anchor_status() {
    let dummy_state = WsState::new();
    let broadcaster = RealtimeBroadcaster::new();
    let anchor_metrics =
        AnchorMetrics { reliability_score_bits: 95.5f64.to_bits(), status: AnchorStatus::Green };
    // No connections: nothing is sent and nothing changes.
    let report = broadcaster.broadcast_anchor_status(&dummy_state, anchor_metrics);
    assert!(report.deliveries().is_empty());
    assert_eq!(dummy_state.connection_count(), 0);
}

#[test]
fn test_broadcast_payment() {
    let dummy_state = WsState::new();
    let broadcaster = RealtimeBroadcaster::new();
    // No connections: nothing is sent and nothing changes.
    let report = broadcaster.broadcast_payment(&dummy_state, test_payment());
    assert!(report.deliveries().is_empty());
    assert_eq!(dummy_state.connection_count(), 0);
}

#[test]
fn test_rate_limiting() {
    let state = WsState::new();
    let mut broadcaster = RealtimeBroadcaster::new();
    let corridor_key = "USDC-XLM".to_string();

    // First update is allowed and stamps the ledger.
    let first = wall_clock();
    assert!(broadcaster.dispatch_corridor(&state, &record(&corridor_key), first).is_some());

    // An immediate second update is rate limited.
    let now = wall_clock();
    let last_sent = broadcaster.last_dispatch(&corridor_key).unwrap();
    assert_eq!(last_sent, first);
    assert!(!now.has_elapsed(&last_sent, 30));
    assert!(!broadcaster.should_dispatch(&corridor_key, now));
}

#[test]
fn intervals_are_thirty_seconds() {
    assert_eq!(CORRIDOR_INTERVAL_SECONDS, 30);
    assert_eq!(TICK_PERIOD_SECONDS, 30);
}

#[test]
fn two_attempts_less_than_thirty_seconds_apart_deliver_once() {
    let mut state = WsState::new();
    let mut rx = join(&mut state, 1);
    let mut broadcaster = RealtimeBroadcaster::new();
    let first = Timestamp::new(1_000, 0);
    let second = Timestamp::new(1_029, 999_999_999);
    let sent = broadcaster.dispatch_corridor(&state, &record("USDC-XLM"), first).unwrap();
    assert_eq!(sent.event(), &update("USDC-XLM"));
    assert_eq!(
        sent.deliveries(),
        &vec![Delivery { connection: 1, outcome: DeliveryOutcome::Queued }]
    );
    assert_eq!(broadcaster.dispatch_corridor(&state, &record("USDC-XLM"), second), None);
    assert_eq!(received(&mut rx), vec![update("USDC-XLM")]);
    // The suppressed attempt did not move the window.
    assert_eq!(broadcaster.last_dispatch("USDC-XLM"), Some(first));
}

#[test]
fn two_attempts_thirty_seconds_apart_deliver_twice() {
    let mut state = WsState::new();
    let mut rx = join(&mut state, 1);
    let mut broadcaster = RealtimeBroadcaster::new();
    let first = Timestamp::new(1_000, 250);
    let second = Timestamp::new(1_030, 250);
    assert!(broadcaster.dispatch_corridor(&state, &record("USDC-XLM"), first).is_some());
    assert!(broadcaster.dispatch_corridor(&state, &record("USDC-XLM"), second).is_some());
    assert_eq!(received(&mut rx), vec![update("USDC-XLM"), update("USDC-XLM")]);
    assert_eq!(broadcaster.last_dispatch("USDC-XLM"), Some(second));
}

#[test]
fn a_suppressed_attempt_does_not_reset_the_window() {
    let state = WsState::new();
    let mut broadcaster = RealtimeBroadcaster::new();
    assert!(broadcaster.dispatch_corridor(&state, &record("K"), Timestamp::new(0, 0)).is_some());
    assert!(broadcaster.dispatch_corridor(&state, &record("K"), Timestamp::new(20, 0)).is_none());
    // 30 s after the first dispatch, only 10 s after the suppressed attempt.
    assert!(broadcaster.dispatch_corridor(&state, &record("K"), Timestamp::new(30, 0)).is_some());
}

#[test]
fn each_corridor_has_its_own_window() {
    let state = WsState::new();
    let mut broadcaster = RealtimeBroadcaster::new();
    let t = Timestamp::new(500, 0);
    assert!(broadcaster.dispatch_corridor(&state, &record("A"), t).is_some());
    assert!(broadcaster.dispatch_corridor(&state, &record("B"), t).is_some());
    assert!(broadcaster.dispatch_corridor(&state, &record("A"), t).is_none());
    assert_eq!(broadcaster.tracked_corridors(), 2);
    assert_eq!(broadcaster.last_dispatch("A"), Some(t));
    assert_eq!(broadcaster.last_dispatch("C"), None);
    assert!(broadcaster.should_dispatch("C", Timestamp::new(0, 0)));
}

#[test]
fn a_due_corridor_is_stamped_even_when_nobody_listens() {
    let state = WsState::new();
    let mut broadcaster = RealtimeBroadcaster::new();
    let t = Timestamp::new(42, 7);
    let sent = broadcaster.dispatch_corridor(&state, &record("A"), t).unwrap();
    assert!(sent.deliveries().is_empty());
    assert_eq!(sent.event(), &update("A"));
    assert_eq!(broadcaster.last_dispatch("A"), Some(t));
}

#[test]
fn corridor_dispatch_respects_subscriptions() {
    let mut state = WsState::new();
    let mut all = join(&mut state, 1);
    let mut mine = join(&mut state, 2);
    let mut other = join(&mut state, 3);
    state.subscribe(2, strings(&["corridor:USDC-XLM"]));
    state.subscribe(3, strings(&["corridor:EURC-XLM", "payments", "anchor:a"]));
    let mut broadcaster = RealtimeBroadcaster::new();
    let sent = broadcaster
        .dispatch_corridor(&state, &record("USDC-XLM"), Timestamp::new(1, 0))
        .unwrap();
    assert_eq!(sent.event(), &update("USDC-XLM"));
    let mut ids: Vec<u128> = sent.deliveries().iter().map(|d| d.connection).collect();
    ids.sort();
    assert_eq!(ids, vec![1, 2]);
    assert_eq!(received(&mut all), vec![update("USDC-XLM")]);
    assert_eq!(received(&mut mine), vec![update("USDC-XLM")]);
    assert!(received(&mut other).is_empty());
}

#[test]
fn a_tick_sends_each_corridor_once() {
    let mut state = WsState::new();
    let mut rx = join(&mut state, 1);
    let mut broadcaster = RealtimeBroadcaster::new();
    let before = wall_clock();
    let outcomes = broadcaster
        .publish_corridor_updates(&state, vec![record("A"), record("B"), record("A")]);
    assert_eq!(outcomes.len(), 3);
    assert_eq!(outcomes[0].sent.as_ref().map(|r| r.event()), Some(&update("A")));
    assert_eq!(outcomes[1].sent.as_ref().map(|r| r.event()), Some(&update("B")));
    assert!(outcomes[2].sent.is_none());
    assert!(outcomes[0].checked_at.has_elapsed(&before, 0));
    assert_eq!(received(&mut rx), vec![update("A"), update("B")]);
    assert_eq!(broadcaster.tracked_corridors(), 2);
    assert_eq!(broadcaster.last_dispatch("A"), Some(outcomes[0].checked_at));
    assert_eq!(broadcaster.last_dispatch("B"), Some(outcomes[1].checked_at));

    // The next tick comes too early for both.
    let again = broadcaster.publish_corridor_updates(&state, vec![record("A"), record("B")]);
    assert!(again.iter().all(|o| o.sent.is_none()));
    assert!(received(&mut rx).is_empty());
}

#[test]
fn a_failed_storage_read_skips_the_tick() {
    let mut state = WsState::new();
    let mut rx = join(&mut state, 1);
    let mut broadcaster = RealtimeBroadcaster::new();
    assert_eq!(broadcaster.on_tick(&state, None), None);
    assert_eq!(broadcaster.tracked_corridors(), 0);
    assert!(received(&mut rx).is_empty());

    // The next tick finds storage again and publishes.
    let outcomes = broadcaster.on_tick(&state, Some(vec![record("A")])).unwrap();
    assert_eq!(outcomes.len(), 1);
    let sent = outcomes[0].sent.as_ref().unwrap();
    assert_eq!(sent.event(), &update("A"));
    assert_eq!(
        sent.deliveries(),
        &vec![Delivery { connection: 1, outcome: DeliveryOutcome::Queued }]
    );
    assert_eq!(received(&mut rx), vec![update("A")]);
    assert_eq!(broadcaster.last_dispatch("A"), Some(outcomes[0].checked_at));

    // A failed read in between leaves the ledger alone.
    assert_eq!(broadcaster.on_tick(&state, None), None);
    assert_eq!(broadcaster.last_dispatch("A"), Some(outcomes[0].checked_at));
    assert_eq!(broadcaster.tracked_corridors(), 1);
}

#[test]
fn a_tick_without_records_does_nothing() {
    let state = WsState::new();
    let mut broadcaster = RealtimeBroadcaster::new();
    assert!(broadcaster.publish_corridor_updates(&state, Vec::new()).is_empty());
    assert_eq!(broadcaster.tracked_corridors(), 0);
}

#[test]
fn anchor_status_reaches_every_anchor_subscriber() {
    let mut state = WsState::new();
    let mut all = join(&mut state, 1);
    let mut anchors = join(&mut state, 2);
    let mut payments = join(&mut state, 3);
    state.subscribe(2, strings(&["anchor:some-other-anchor"]));
    state.subscribe(3, strings(&["payments"]));
    let broadcaster = RealtimeBroadcaster::new();
    let anchor =
        AnchorMetrics { reliability_score_bits: 12.25f64.to_bits(), status: AnchorStatus::Red };
    let expected = WsMessage::AnchorUpdate {
        anchor_id: String::new(),
        name: String::new(),
        reliability_score_bits: 12.25f64.to_bits(),
        status: "red".to_string(),
    };
    for _ in 0..2 {
        // Every call sends: there is no debounce on this path.
        let report = broadcaster.broadcast_anchor_status(&state, anchor);
        assert_eq!(report.event(), &expected);
        let mut ids: Vec<u128> = report.deliveries().iter().map(|d| d.connection).collect();
        ids.sort();
        assert_eq!(ids, vec![1, 2]);
    }
    assert_eq!(received(&mut all), vec![expected.clone(), expected.clone()]);
    assert_eq!(received(&mut anchors), vec![expected.clone(), expected]);
    assert!(received(&mut payments).is_empty());
    assert_eq!(broadcaster.tracked_corridors(), 0);
}

#[test]
fn payment_reaches_payment_subscribers() {
    let mut state = WsState::new();
    let mut all = join(&mut state, 1);
    let mut anchors = join(&mut state, 2);
    let mut payments = join(&mut state, 3);
    state.subscribe(2, strings(&["anchor:x"]));
    state.subscribe(3, strings(&["payments"]));
    let broadcaster = RealtimeBroadcaster::new();
    let payment = test_payment();
    let report = broadcaster.broadcast_payment(&state, payment.clone());
    assert_eq!(report.event(), &WsMessage::NewPayment { payment: payment.clone() });
    let mut ids: Vec<u128> = report.deliveries().iter().map(|d| d.connection).collect();
    ids.sort();
    assert_eq!(ids, vec![1, 3]);
    let expected = WsMessage::NewPayment { payment };
    assert_eq!(received(&mut all), vec![expected.clone()]);
    assert_eq!(received(&mut payments), vec![expected]);
    assert!(received(&mut anchors).is_empty());
}

#[test]
fn a_tick_sends_each_record_with_its_own_fields() {
    let mut state = WsState::new();
    let mut all = join(&mut state, 1);
    let mut usdc_xlm = join(&mut state, 2);
    state.subscribe(2, strings(&["corridor:USDC-XLM"]));
    let mut broadcaster = RealtimeBroadcaster::new();
    let first = CorridorMetrics {
        corridor_key: "USDC-XLM".to_string(),
        asset_a_code: "USDC".to_string(),
        asset_a_issuer: "GUSDC".to_string(),
        asset_b_code: "XLM".to_string(),
        asset_b_issuer: "native".to_string(),
    };
    let second = CorridorMetrics {
        corridor_key: "EURC-BTC".to_string(),
        asset_a_code: "EURC".to_string(),
        asset_a_issuer: "GEURC".to_string(),
        asset_b_code: "BTC".to_string(),
        asset_b_issuer: "GBTC".to_string(),
    };
    let outcomes =
        broadcaster.publish_corridor_updates(&state, vec![first.clone(), second.clone()]);
    let first_update = WsMessage::CorridorUpdate {
        corridor_key: "USDC-XLM".to_string(),
        asset_a_code: "USDC".to_string(),
        asset_a_issuer: "GUSDC".to_string(),
        asset_b_code: "XLM".to_string(),
        asset_b_issuer: "native".to_string(),
    };
    let second_update = WsMessage::CorridorUpdate {
        corridor_key: "EURC-BTC".to_string(),
        asset_a_code: "EURC".to_string(),
        asset_a_issuer: "GEURC".to_string(),
        asset_b_code: "BTC".to_string(),
        asset_b_issuer: "GBTC".to_string(),
    };
    assert_eq!(outcomes.len(), 2);
    assert_eq!(outcomes[0].sent.as_ref().unwrap().event(), &first_update);
    assert_eq!(outcomes[1].sent.as_ref().unwrap().event(), &second_update);
    assert_eq!(received(&mut all), vec![first_update.clone(), second_update]);
    assert_eq!(received(&mut usdc_xlm), vec![first_update]);
}
