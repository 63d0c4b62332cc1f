use insights_realtime::filter::{
    contains_channel, matches_anchor, matches_corridor, matches_payments, retain_unlisted,
    should_deliver,
};
use insights_realtime::message::{PaymentRecord, WsMessage};

fn strings(items: &[&str]) -> Vec<String> {
    items.iter().map(|s| s.to_string()).collect()
}

fn corridor(key: &str) -> WsMessage {
    WsMessage::CorridorUpdate {
        corridor_key: key.to_string(),
        asset_a_code: "USDC".to_string(),
        asset_a_issuer: "GA".to_string(),
        asset_b_code: "XLM".to_string(),
        asset_b_issuer: "native".to_string(),
    }
}

fn anchor() -> WsMessage {
    WsMessage::AnchorUpdate {
        anchor_id: String::new(),
        name: String::new(),
        reliability_score_bits: 95.5f64.to_bits(),
        status: "green".to_string(),
    }
}

fn payment() -> WsMessage {
    WsMessage::NewPayment {
        payment: PaymentRecord {
            id: "p1".to_string(),
            transaction_hash: "h1".to_string(),
            source_account: "GSRC".to_string(),
            destination_account: "GDST".to_string(),
            asset_type: "native".to_string(),
            asset_code: None,
            asset_issuer: None,
            amount: "1.0".to_string(),
            created_at: "2024-01-01T00:00:00Z".to_string(),
        },
    }
}

#[test]
fn empty_subscription_list_receives_everything() {
    let none: Vec<String> = Vec::new();
    assert!(should_deliver(&none, &corridor("USDC-XLM")));
    assert!(should_deliver(&none, &anchor()));
    assert!(should_deliver(&none, &payment()));
    assert!(should_deliver(&none, &WsMessage::Ping { timestamp: 1 }));
    assert!(should_deliver(
        &none,
        &WsMessage::HealthAlert {
            corridor_id: "c".to_string(),
            severity: "high".to_string(),
            message: "m".to_string(),
        }
    ));
}

#[test]
fn corridor_subscription_matches_only_its_own_key() {
    let subs = strings(&["corridor:USDC-XLM"]);
    assert!(should_deliver(&subs, &corridor("USDC-XLM")));
    assert!(!should_deliver(&subs, &corridor("USDC-EUR")));
    assert!(!should_deliver(&subs, &corridor("USDC-XLM2")));
    assert!(!should_deliver(&subs, &corridor("USDC")));
    assert!(!should_deliver(&subs, &corridor("")));
    assert!(!should_deliver(&subs, &anchor()));
    assert!(!should_deliver(&subs, &payment()));
}

#[test]
fn corridor_match_is_exact_on_the_whole_channel() {
    assert!(matches_corridor(&strings(&["corridor:"]), ""));
    assert!(!matches_corridor(&strings(&["corridor:corridor:X"]), "X"));
    assert!(matches_corridor(&strings(&["corridor:corridor:X"]), "corridor:X"));
    assert!(!matches_corridor(&strings(&["Corridor:X"]), "X"));
    assert!(!matches_corridor(&strings(&["X"]), "X"));
    assert!(matches_corridor(&strings(&["payments", "corridor:A", "corridor:B"]), "B"));
    assert!(!matches_corridor(&Vec::new(), "B"));
}

#[test]
fn any_anchor_channel_matches_every_anchor_event() {
    assert!(matches_anchor(&strings(&["anchor:abc"])));
    assert!(matches_anchor(&strings(&["anchor:"])));
    assert!(matches_anchor(&strings(&["payments", "anchor:other"])));
    assert!(!matches_anchor(&strings(&["anchor"])));
    assert!(!matches_anchor(&strings(&["xanchor:abc"])));
    assert!(!matches_anchor(&strings(&["corridor:anchor:"])));
    assert!(!matches_anchor(&Vec::new()));
    assert!(should_deliver(&strings(&["anchor:some-other-anchor"]), &anchor()));
}

#[test]
fn payments_channel_is_a_literal() {
    assert!(matches_payments(&strings(&["payments"])));
    assert!(!matches_payments(&strings(&["payment"])));
    assert!(!matches_payments(&strings(&["payments:all"])));
    assert!(!matches_payments(&strings(&["Payments"])));
    assert!(should_deliver(&strings(&["corridor:A", "payments"]), &payment()));
    assert!(!should_deliver(&strings(&["corridor:A"]), &payment()));
}

#[test]
fn unrecognized_channels_match_nothing() {
    let subs = strings(&["everything", "health"]);
    assert!(!should_deliver(&subs, &corridor("everything")));
    assert!(!should_deliver(&subs, &anchor()));
    assert!(!should_deliver(&subs, &payment()));
    assert!(!should_deliver(
        &subs,
        &WsMessage::HealthAlert {
            corridor_id: "health".to_string(),
            severity: "low".to_string(),
            message: String::new(),
        }
    ));
}

#[test]
fn events_without_a_route_reach_only_unfiltered_connections() {
    let subs = strings(&["corridor:A", "anchor:x", "payments"]);
    assert!(!should_deliver(&subs, &WsMessage::Ping { timestamp: 5 }));
    assert!(!should_deliver(&subs, &WsMessage::Error { message: "e".to_string() }));
    assert!(!should_deliver(
        &subs,
        &WsMessage::SnapshotUpdate {
            snapshot_id: "s".to_string(),
            epoch: 1,
            timestamp: "t".to_string(),
            hash: "h".to_string(),
        }
    ));
}

#[test]
fn contains_channel_compares_whole_names() {
    let list = strings(&["a", "bb", "ccc"]);
    assert!(contains_channel(&list, &"bb".to_string()));
    assert!(!contains_channel(&list, &"b".to_string()));
    assert!(!contains_channel(&Vec::new(), &"a".to_string()));
}

#[test]
fn retain_unlisted_keeps_order_and_duplicates() {
    let current = strings(&["a", "b", "a", "c", "b"]);
    assert_eq!(retain_unlisted(&current, &strings(&["b"])), strings(&["a", "a", "c"]));
    assert_eq!(retain_unlisted(&current, &strings(&["a", "c"])), strings(&["b", "b"]));
    assert_eq!(retain_unlisted(&current, &strings(&["x", "y"])), current);
    assert_eq!(retain_unlisted(&current, &Vec::new()), current);
    assert_eq!(retain_unlisted(&Vec::new(), &strings(&["a"])), Vec::<String>::new());
    assert_eq!(retain_unlisted(&current, &current), Vec::<String>::new());
}
