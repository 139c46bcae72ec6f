//! The per-session event hub: a broadcast channel that fans every published
//! event out to all current subscribers. Publishing never blocks; a slow
//! subscriber is lapped (it sees a lag signal) rather than stalling the
//! session's critical path.

use vstd::prelude::*;

use crate::game::GameMessage;

verus! {

#[verifier::external_type_specification]
#[verifier::external_body]
#[verifier::reject_recursive_types(T)]
pub struct ExSender<T>(tokio::sync::broadcast::Sender<T>);

#[verifier::external_type_specification]
#[verifier::external_body]
#[verifier::reject_recursive_types(T)]
pub struct ExReceiver<T>(tokio::sync::broadcast::Receiver<T>);

/// Relies on tokio::sync::broadcast::Sender::clone: another handle to
/// the same channel, which derived clones of the shared state use.
pub assume_specification<T>[ <tokio::sync::broadcast::Sender<T> as Clone>::clone ](
    tx: &tokio::sync::broadcast::Sender<T>,
) -> tokio::sync::broadcast::Sender<T>;

/// Events a hub retains per subscriber before a slow one starts lagging.
pub const HUB_CAPACITY: usize = 100;

/// Relies on tokio::sync::broadcast::channel: a fan-out channel with the
/// given per-subscriber backlog. It panics when the capacity is zero or
/// above usize::MAX / 2, which the precondition rules out.
#[verifier::external_body]
pub(crate) fn hub_channel(capacity: usize) -> (tx: tokio::sync::broadcast::Sender<GameMessage>)
    requires
        1 <= capacity <= usize::MAX / 2,
{
    tokio::sync::broadcast::channel(capacity).0
}

/// Relies on tokio::sync::broadcast::Sender::subscribe: a new independent
/// receiver that observes every event published after this call.
#[verifier::external_body]
pub(crate) fn hub_subscribe(
    tx: &tokio::sync::broadcast::Sender<GameMessage>,
) -> tokio::sync::broadcast::Receiver<GameMessage> {
    tx.subscribe()
}

/// Relies on tokio::sync::broadcast::Sender::send: delivers the event to
/// every current subscriber without blocking; when none is subscribed the
/// event is dropped, which is the intended publish-then-forget behaviour.
#[verifier::external_body]
pub(crate) fn hub_publish(tx: &tokio::sync::broadcast::Sender<GameMessage>, msg: GameMessage) {
    let _ = tx.send(msg);
}

} // verus!
