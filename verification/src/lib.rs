//! Real-time distribution layer: a registry of live connections, the
//! subscription filter that routes events to them, the per-connection
//! protocol decisions, and the debounced periodic broadcaster.

pub mod auth;
pub mod broadcaster;
pub mod clock;
pub mod connection;
pub mod filter;
pub mod message;
pub mod outbound;
pub mod registry;
pub mod shared_map;
