//! The three concurrent maps of the service and what each of them holds.

use vstd::prelude::*;
use dashmap::DashMap;
use std::collections::hash_map::RandomState;
use tokio::sync::mpsc::Sender;
use crate::clock::Timestamp;
use crate::filter::names;
use crate::message::WsMessage;

verus! {

/// `dashmap::DashMap`, the sharded concurrent hash map. Every wrapper below that
/// changes a map takes it by `&mut`, so that the map cannot change under a
/// reader's eyes.
#[verifier::external_type_specification]
#[verifier::external_body]
#[verifier::reject_recursive_types(K)]
#[verifier::reject_recursive_types(V)]
#[verifier::reject_recursive_types(S)]
pub struct ExDashMap<K, V, S>(DashMap<K, V, S>);

/// The connection ids that have an outbound handle in the map.
pub uninterp spec fn registered_ids(m: DashMap<u128, Sender<WsMessage>, RandomState>) -> Set<u128>;

/// `DashMap::new`: a map that holds nothing.
#[verifier::external_body]
pub(crate) fn new_handle_map() -> (m: DashMap<u128, Sender<WsMessage>, RandomState>)
    ensures
        registered_ids(m) == Set::<u128>::empty(),
{
    DashMap::new()
}

/// `DashMap::insert`: afterwards `id` has a handle, and every other id is as before.
#[verifier::external_body]
pub(crate) fn handle_insert(
    m: &mut DashMap<u128, Sender<WsMessage>, RandomState>,
    id: u128,
    handle: Sender<WsMessage>,
)
    ensures
        registered_ids(*final(m)) == registered_ids(*old(m)).insert(id),
{
    m.insert(id, handle);
}

/// `DashMap::remove`: afterwards `id` has no handle, and every other id is as before.
#[verifier::external_body]
pub(crate) fn handle_remove(m: &mut DashMap<u128, Sender<WsMessage>, RandomState>, id: u128)
    ensures
        registered_ids(*final(m)) == registered_ids(*old(m)).remove(id),
{
    m.remove(&id);
}

/// `DashMap::contains_key`: whether `id` has a handle.
#[verifier::external_body]
pub(crate) fn handle_contains(
    m: &DashMap<u128, Sender<WsMessage>, RandomState>,
    id: u128,
) -> (found: bool)
    ensures
        found == registered_ids(*m).contains(id),
{
    m.contains_key(&id)
}

/// `DashMap::len`: the number of ids that have a handle.
#[verifier::external_body]
pub(crate) fn handle_count(m: &DashMap<u128, Sender<WsMessage>, RandomState>) -> (count: usize)
    ensures
        count == registered_ids(*m).len(),
{
    m.len()
}

/// `DashMap::iter`, with each entry handed out as its id and a clone of its
/// handle. Every id that has a handle comes out once and no other id does;
/// the order is left open.
#[verifier::external_body]
pub(crate) fn handle_snapshot(m: &DashMap<u128, Sender<WsMessage>, RandomState>) -> (handles: Vec<
    (u128, Sender<WsMessage>),
>)
    ensures
        forall|i: int|
            0 <= i < handles.len() ==> registered_ids(*m).contains((#[trigger] handles[i]).0),
        forall|id: u128|
            registered_ids(*m).contains(id) ==> exists|i: int|
                0 <= i < handles.len() && (#[trigger] handles[i]).0 == id,
        forall|i: int, j: int|
            0 <= i < j < handles.len() ==> (#[trigger] handles[i]).0 != (#[trigger] handles[j]).0,
{
    m.iter().map(|entry| (*entry.key(), entry.value().clone())).collect()
}

/// The channel names each connection id is subscribed to.
pub uninterp spec fn subscription_entries(m: DashMap<u128, Vec<String>, RandomState>) -> Map<
    u128,
    Seq<Seq<char>>,
>;

/// `DashMap::new`: a map that holds nothing.
#[verifier::external_body]
pub(crate) fn new_subscription_map() -> (m: DashMap<u128, Vec<String>, RandomState>)
    ensures
        subscription_entries(m).dom() == Set::<u128>::empty(),
{
    DashMap::new()
}

/// `DashMap::insert`: afterwards `id` maps to `channels`, and every other id is as before.
#[verifier::external_body]
pub(crate) fn subscription_insert(
    m: &mut DashMap<u128, Vec<String>, RandomState>,
    id: u128,
    channels: Vec<String>,
)
    ensures
        subscription_entries(*final(m)) == subscription_entries(*old(m)).insert(
            id,
            names(channels@),
        ),
{
    m.insert(id, channels);
}

/// `DashMap::remove`: afterwards `id` has no entry, and every other id is as before.
#[verifier::external_body]
pub(crate) fn subscription_remove(m: &mut DashMap<u128, Vec<String>, RandomState>, id: u128)
    ensures
        subscription_entries(*final(m)) == subscription_entries(*old(m)).remove(id),
{
    m.remove(&id);
}

/// `DashMap::get`, with the entry handed out as a clone: the channels of `id`
/// where it has an entry, nothing where it has none.
#[verifier::external_body]
pub(crate) fn subscription_get(m: &DashMap<u128, Vec<String>, RandomState>, id: u128) -> (channels:
    Option<Vec<String>>)
    ensures
        channels is Some <==> subscription_entries(*m).dom().contains(id),
        channels matches Some(list) ==> names(list@) == subscription_entries(*m)[id],
{
    m.get(&id).map(|entry| entry.value().clone())
}

/// The time of the last dispatch recorded for each corridor key.
pub uninterp spec fn ledger_entries(m: DashMap<String, Timestamp, RandomState>) -> Map<
    Seq<char>,
    Timestamp,
>;

/// `DashMap::new`: a map that holds nothing.
#[verifier::external_body]
pub(crate) fn new_ledger() -> (m: DashMap<String, Timestamp, RandomState>)
    ensures
        ledger_entries(m).dom() == Set::<Seq<char>>::empty(),
{
    DashMap::new()
}

/// `DashMap::insert`: afterwards `key` maps to `at`, and every other key is as before.
#[verifier::external_body]
pub(crate) fn ledger_insert(
    m: &mut DashMap<String, Timestamp, RandomState>,
    key: String,
    at: Timestamp,
)
    ensures
        ledger_entries(*final(m)) == ledger_entries(*old(m)).insert(key@, at),
{
    m.insert(key, at);
}

/// `DashMap::get`, with the entry handed out as a copy: the time recorded for
/// `key` where it has an entry, nothing where it has none.
#[verifier::external_body]
pub(crate) fn ledger_get(m: &DashMap<String, Timestamp, RandomState>, key: &str) -> (at: Option<
    Timestamp,
>)
    ensures
        at is Some <==> ledger_entries(*m).dom().contains(key@),
        at matches Some(t) ==> t == ledger_entries(*m)[key@],
{
    m.get(key).map(|entry| *entry.value())
}

/// `DashMap::len`: the number of keys that have an entry.
#[verifier::external_body]
pub(crate) fn ledger_len(m: &DashMap<String, Timestamp, RandomState>) -> (count: usize)
    ensures
        count == ledger_entries(*m).dom().len(),
{
    m.len()
}

} // verus!
