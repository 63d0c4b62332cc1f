//! The subscription filter: which events a connection's channel list lets through.

use vstd::prelude::*;
use crate::message::{Route, WsMessage};

verus! {

/// The channel names held in a list of strings, in order.
pub open spec fn names(channels: Seq<String>) -> Seq<Seq<char>> {
    channels.map_values(|s: String| s@)
}

/// The channel that carries the updates of one corridor.
pub open spec fn corridor_channel(key: Seq<char>) -> Seq<char> {
    "corridor:"@ + key
}

/// Whether one subscribed channel lets an event with this route through.
/// A corridor event needs its exact channel; an anchor event is let through
/// by any channel in the anchor namespace; a payment event needs the channel
/// `payments`. Nothing matches an event without a route.
pub open spec fn channel_matches(channel: Seq<char>, route: Route) -> bool {
    match route {
        Route::Corridor(key) => channel == corridor_channel(key),
        Route::Anchor => "anchor:"@.is_prefix_of(channel),
        Route::Payments => channel == "payments"@,
        Route::Unrouted => false,
    }
}

/// Whether some channel among the first `upto` lets the route through.
pub open spec fn any_matches(subscribed: Seq<Seq<char>>, route: Route, upto: int) -> bool {
    exists|i: int| 0 <= i < upto && channel_matches(#[trigger] subscribed[i], route)
}

/// The filter rule: an empty list lets everything through, any other list
/// lets an event through when one of its channels matches.
pub open spec fn admits(subscribed: Seq<Seq<char>>, route: Route) -> bool {
    subscribed.len() == 0 || any_matches(subscribed, route, subscribed.len() as int)
}

/// `str::starts_with` for a string pattern: whether `prefix` is a prefix of
/// `text`, character for character.
#[verifier::external_body]
fn has_prefix(text: &str, prefix: &str) -> (found: bool)
    ensures
        found == prefix@.is_prefix_of(text@),
{
    text.starts_with(prefix)
}

/// Whether one of `subscriptions` is exactly the channel of `corridor_key`.
pub fn matches_corridor(subscriptions: &Vec<String>, corridor_key: &str) -> (found: bool)
    ensures
        found == any_matches(
            names(subscriptions@),
            Route::Corridor(corridor_key@),
            subscriptions.len() as int,
        ),
{
    let wanted = String::from_str("corridor:").concat(corridor_key);
    let ghost route = Route::Corridor(corridor_key@);
    let mut i: usize = 0;
    while i < subscriptions.len()
        invariant
            i <= subscriptions.len(),
            wanted@ == corridor_channel(corridor_key@),
            route == Route::Corridor(corridor_key@),
            !any_matches(names(subscriptions@), route, i as int),
        decreases subscriptions.len() - i,
    {
        if subscriptions[i] == wanted {
            assert(channel_matches(names(subscriptions@)[i as int], route));
            return true;
        }
        i = i + 1;
    }
    false
}

/// Whether one of `subscriptions` lies in the anchor namespace.
pub fn matches_anchor(subscriptions: &Vec<String>) -> (found: bool)
    ensures
        found == any_matches(names(subscriptions@), Route::Anchor, subscriptions.len() as int),
{
    let mut i: usize = 0;
    while i < subscriptions.len()
        invariant
            i <= subscriptions.len(),
            !any_matches(names(subscriptions@), Route::Anchor, i as int),
        decreases subscriptions.len() - i,
    {
        if has_prefix(subscriptions[i].as_str(), "anchor:") {
            assert(channel_matches(names(subscriptions@)[i as int], Route::Anchor));
            return true;
        }
        i = i + 1;
    }
    false
}

/// Whether one of `subscriptions` is the payments channel.
pub fn matches_payments(subscriptions: &Vec<String>) -> (found: bool)
    ensures
        found == any_matches(names(subscriptions@), Route::Payments, subscriptions.len() as int),
{
    let wanted = String::from_str("payments");
    let mut i: usize = 0;
    while i < subscriptions.len()
        invariant
            i <= subscriptions.len(),
            wanted@ == "payments"@,
            !any_matches(names(subscriptions@), Route::Payments, i as int),
        decreases subscriptions.len() - i,
    {
        if subscriptions[i] == wanted {
            assert(channel_matches(names(subscriptions@)[i as int], Route::Payments));
            return true;
        }
        i = i + 1;
    }
    false
}

/// The filter applied to one event and one connection's channel list.
pub fn should_deliver(subscriptions: &Vec<String>, msg: &WsMessage) -> (deliver: bool)
    ensures
        deliver == admits(names(subscriptions@), msg.route()),
{
    if subscriptions.len() == 0 {
        return true;
    }
    match msg {
        WsMessage::CorridorUpdate { corridor_key, .. } => matches_corridor(
            subscriptions,
            corridor_key.as_str(),
        ),
        WsMessage::AnchorUpdate { .. } => matches_anchor(subscriptions),
        WsMessage::NewPayment { .. } => matches_payments(subscriptions),
        _ => false,
    }
}

/// What is left of `current` once every channel named in `dropped` is taken
/// out: the other channels, in their order.
pub open spec fn remaining(current: Seq<Seq<char>>, dropped: Seq<Seq<char>>) -> Seq<Seq<char>> {
    current.filter(|c: Seq<char>| !dropped.contains(c))
}

/// Whether `channel` is one of `channels`.
pub fn contains_channel(channels: &Vec<String>, channel: &String) -> (found: bool)
    ensures
        found == names(channels@).contains(channel@),
{
    let mut i: usize = 0;
    while i < channels.len()
        invariant
            i <= channels.len(),
            forall|k: int| 0 <= k < i ==> names(channels@)[k] != channel@,
        decreases channels.len() - i,
    {
        if channels[i] == *channel {
            assert(names(channels@)[i as int] == channel@);
            return true;
        }
        i = i + 1;
    }
    false
}

/// The channels of `current` that `dropped` does not name, in their order.
pub fn retain_unlisted(current: &Vec<String>, dropped: &Vec<String>) -> (kept: Vec<String>)
    ensures
        names(kept@) == remaining(names(current@), names(dropped@)),
{
    let mut kept: Vec<String> = Vec::new();
    let ghost all = names(current@);
    let ghost gone = names(dropped@);
    let ghost stays = |c: Seq<char>| !gone.contains(c);
    let mut i: usize = 0;
    while i < current.len()
        invariant
            i <= current.len(),
            all == names(current@),
            gone == names(dropped@),
            stays == |c: Seq<char>| !gone.contains(c),
            names(kept@) == all.take(i as int).filter(stays),
        decreases current.len() - i,
    {
        let listed = contains_channel(dropped, &current[i]);
        proof {
            assert(all.take(i + 1) =~= all.take(i as int).push(all[i as int]));
            all.take(i as int).lemma_filter_push(all[i as int], stays);
        }
        if !listed {
            kept.push(current[i].clone());
        }
        i = i + 1;
    }
    assert(all.take(current.len() as int) =~= all);
    kept
}

/// Taking out channels that are not in the list leaves the list as it was.
pub proof fn lemma_remaining_without_overlap(current: Seq<Seq<char>>, dropped: Seq<Seq<char>>)
    requires
        forall|i: int| 0 <= i < dropped.len() ==> !current.contains(#[trigger] dropped[i]),
    ensures
        remaining(current, dropped) == current,
    decreases current.len(),
{
    reveal(Seq::filter);
    if current.len() > 0 {
        let head = current.drop_last();
        lemma_remaining_without_overlap(head, dropped);
    }
}

/// A connection that has subscribed to nothing is sent every event.
pub proof fn lemma_empty_subscription_admits_all(route: Route)
    ensures
        admits(Seq::<Seq<char>>::empty(), route),
{
}

/// A connection whose only channel is that of one corridor is sent the
/// updates of that corridor and of no other.
pub proof fn lemma_single_corridor_subscription(subscribed_key: Seq<char>, event_key: Seq<char>)
    ensures
        admits(seq![corridor_channel(subscribed_key)], Route::Corridor(event_key)) <==> event_key
            == subscribed_key,
{
    let subscribed = seq![corridor_channel(subscribed_key)];
    let route = Route::Corridor(event_key);
    let prefix = "corridor:"@;
    if event_key == subscribed_key {
        assert(channel_matches(subscribed[0], route));
    }
    if admits(subscribed, route) {
        assert((prefix + subscribed_key).subrange(
            prefix.len() as int,
            (prefix + subscribed_key).len() as int,
        ) =~= subscribed_key);
        assert((prefix + event_key).subrange(
            prefix.len() as int,
            (prefix + event_key).len() as int,
        ) =~= event_key);
    }
}

} // verus!
