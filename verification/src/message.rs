//! The wire envelope and the records that events are built from.

use vstd::prelude::*;

verus! {

/// One payment as the payment watcher reports it.
#[derive(Clone, Debug, PartialEq, Eq)]
pub struct PaymentRecord {
    pub id: String,
    pub transaction_hash: String,
    pub source_account: String,
    pub destination_account: String,
    pub asset_type: String,
    pub asset_code: Option<String>,
    pub asset_issuer: Option<String>,
    pub amount: String,
    pub created_at: String,
}

/// One corridor's aggregate for a day, as storage returns it.
#[derive(Clone, Debug, PartialEq, Eq)]
pub struct CorridorMetrics {
    pub corridor_key: String,
    pub asset_a_code: String,
    pub asset_a_issuer: String,
    pub asset_b_code: String,
    pub asset_b_issuer: String,
}

/// Traffic-light health of an anchor.
#[derive(Clone, Copy, Debug, PartialEq, Eq, Structural)]
pub enum AnchorStatus {
    Green,
    Yellow,
    Red,
}

/// An anchor's current score and health. The score is carried as the bit
/// pattern of a 64-bit IEEE 754 number, so that it can be copied and compared
/// exactly.
#[derive(Clone, Copy, Debug, PartialEq, Eq, Structural)]
pub struct AnchorMetrics {
    pub reliability_score_bits: u64,
    pub status: AnchorStatus,
}

/// Every event that travels between the service and a client.
#[derive(Clone, Debug, PartialEq, Eq)]
#[allow(inconsistent_fields)]
pub enum WsMessage {
    /// New snapshot available.
    SnapshotUpdate { snapshot_id: String, epoch: i64, timestamp: String, hash: String },
    /// Corridor metrics updated.
    CorridorUpdate {
        corridor_key: String,
        asset_a_code: String,
        asset_a_issuer: String,
        asset_b_code: String,
        asset_b_issuer: String,
    },
    /// Anchor metrics updated; the score is an IEEE 754 bit pattern.
    AnchorUpdate { anchor_id: String, name: String, reliability_score_bits: u64, status: String },
    /// Heartbeat.
    Ping { timestamp: i64 },
    /// Heartbeat reply.
    Pong { timestamp: i64 },
    /// Connection established.
    Connected { connection_id: String },
    /// Error report.
    Error { message: String },
    /// Client asks for exactly these channels.
    Subscribe { channels: Vec<String> },
    /// Client gives up these channels.
    Unsubscribe { channels: Vec<String> },
    /// New payment event.
    NewPayment { payment: PaymentRecord },
    /// Health alert for a corridor.
    HealthAlert { corridor_id: String, severity: String, message: String },
    /// Connection status notification.
    ConnectionStatus { status: String },
}

/// Where an event is routed: the namespace it belongs to and, for corridors,
/// the key inside it.
pub enum Route {
    Corridor(Seq<char>),
    Anchor,
    Payments,
    Unrouted,
}

impl AnchorStatus {
    /// The lower-case colour name that goes on the wire.
    pub open spec fn spec_label(self) -> Seq<char> {
        match self {
            AnchorStatus::Green => "green"@,
            AnchorStatus::Yellow => "yellow"@,
            AnchorStatus::Red => "red"@,
        }
    }

    pub fn label(&self) -> (text: String)
        ensures
            text@ == self.spec_label(),
    {
        match self {
            AnchorStatus::Green => String::from_str("green"),
            AnchorStatus::Yellow => String::from_str("yellow"),
            AnchorStatus::Red => String::from_str("red"),
        }
    }
}

impl WsMessage {
    /// The routing key derived from the event's own fields.
    pub open spec fn route(self) -> Route {
        match self {
            WsMessage::CorridorUpdate { corridor_key, .. } => Route::Corridor(corridor_key@),
            WsMessage::AnchorUpdate { .. } => Route::Anchor,
            WsMessage::NewPayment { .. } => Route::Payments,
            _ => Route::Unrouted,
        }
    }

    /// The value of the `type` field that tags the event on the wire.
    pub open spec fn spec_type_tag(self) -> Seq<char> {
        match self {
            WsMessage::SnapshotUpdate { .. } => "snapshot_update"@,
            WsMessage::CorridorUpdate { .. } => "corridor_update"@,
            WsMessage::AnchorUpdate { .. } => "anchor_update"@,
            WsMessage::Ping { .. } => "ping"@,
            WsMessage::Pong { .. } => "pong"@,
            WsMessage::Connected { .. } => "connected"@,
            WsMessage::Error { .. } => "error"@,
            WsMessage::Subscribe { .. } => "subscribe"@,
            WsMessage::Unsubscribe { .. } => "unsubscribe"@,
            WsMessage::NewPayment { .. } => "new_payment"@,
            WsMessage::HealthAlert { .. } => "health_alert"@,
            WsMessage::ConnectionStatus { .. } => "connection_status"@,
        }
    }

    pub fn type_tag(&self) -> (tag: &'static str)
        ensures
            tag@ == self.spec_type_tag(),
    {
        match self {
            WsMessage::SnapshotUpdate { .. } => "snapshot_update",
            WsMessage::CorridorUpdate { .. } => "corridor_update",
            WsMessage::AnchorUpdate { .. } => "anchor_update",
            WsMessage::Ping { .. } => "ping",
            WsMessage::Pong { .. } => "pong",
            WsMessage::Connected { .. } => "connected",
            WsMessage::Error { .. } => "error",
            WsMessage::Subscribe { .. } => "subscribe",
            WsMessage::Unsubscribe { .. } => "unsubscribe",
            WsMessage::NewPayment { .. } => "new_payment",
            WsMessage::HealthAlert { .. } => "health_alert",
            WsMessage::ConnectionStatus { .. } => "connection_status",
        }
    }

    /// The corridor event announced for one storage record: its five fields,
    /// unchanged.
    pub open spec fn spec_corridor_update(record: CorridorMetrics) -> WsMessage {
        WsMessage::CorridorUpdate {
            corridor_key: record.corridor_key,
            asset_a_code: record.asset_a_code,
            asset_a_issuer: record.asset_a_issuer,
            asset_b_code: record.asset_b_code,
            asset_b_issuer: record.asset_b_issuer,
        }
    }

    /// Whether this is the anchor event for a status change: the anchor's
    /// score, the label of its status, and an empty id and name, since the
    /// anchor's identity is not known where the change is published.
    pub open spec fn is_anchor_update(self, anchor: AnchorMetrics) -> bool {
        self matches WsMessage::AnchorUpdate { anchor_id, name, reliability_score_bits, status }
            && anchor_id@ == Seq::<char>::empty() && name@ == Seq::<char>::empty()
            && reliability_score_bits == anchor.reliability_score_bits && status@
            == anchor.status.spec_label()
    }

    /// The payment event that carries `payment` unchanged.
    pub open spec fn spec_new_payment(payment: PaymentRecord) -> WsMessage {
        WsMessage::NewPayment { payment }
    }

    /// The corridor event announced for one storage record.
    pub fn corridor_update(record: &CorridorMetrics) -> (msg: WsMessage)
        ensures
            msg == WsMessage::spec_corridor_update(*record),
    {
        WsMessage::CorridorUpdate {
            corridor_key: record.corridor_key.clone(),
            asset_a_code: record.asset_a_code.clone(),
            asset_a_issuer: record.asset_a_issuer.clone(),
            asset_b_code: record.asset_b_code.clone(),
            asset_b_issuer: record.asset_b_issuer.clone(),
        }
    }

    /// The anchor event for a status change.
    pub fn anchor_update(anchor: &AnchorMetrics) -> (msg: WsMessage)
        ensures
            msg.is_anchor_update(*anchor),
    {
        WsMessage::AnchorUpdate {
            anchor_id: String::new(),
            name: String::new(),
            reliability_score_bits: anchor.reliability_score_bits,
            status: anchor.status.label(),
        }
    }

    /// The acknowledgement that tells a client the id of its connection.
    pub fn connected(connection_id: String) -> (msg: WsMessage)
        ensures
            msg == (WsMessage::Connected { connection_id }),
    {
        WsMessage::Connected { connection_id }
    }

    /// The payment event for one payment.
    pub fn new_payment(payment: PaymentRecord) -> (msg: WsMessage)
        ensures
            msg == WsMessage::spec_new_payment(payment),
    {
        WsMessage::NewPayment { payment }
    }
}

} // verus!
