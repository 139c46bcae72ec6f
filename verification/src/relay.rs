//! The relay pipeline's decisions. Two tasks bridge each session's hub to
//! a connection's socket: a relay that drains the hub subscription into
//! the connection's outbound queue, and a writer that drains that queue
//! onto the transport. The awaits and the serialization live with the
//! transport; the decision each task takes per event is made here, under
//! contract.

use vstd::prelude::*;

use crate::game::GameMessage;

verus! {

/// What one read of a hub subscription yields: an event, a lag signal
/// counting the events dropped for this subscriber, or the hub's closure
/// (the session was disposed).
#[derive(Debug, PartialEq)]
pub enum RelayEvent {
    Received(GameMessage),
    Lagged(u64),
    Closed,
}

/// What the relay does in response: forward the event into the outbound
/// queue, skip (lag is reported, later events still flow), or stop.
#[derive(Debug, PartialEq)]
pub enum RelayAction {
    Forward(GameMessage),
    Skip,
    Stop,
}

/// One relay decision: every received event is forwarded unchanged, a
/// lag signal is skipped rather than ending the relay, and the hub's
/// closure stops it.
pub fn relay_step(e: RelayEvent) -> (a: RelayAction)
    ensures
        e matches RelayEvent::Received(m) ==> a == RelayAction::Forward(m),
        e matches RelayEvent::Lagged(n) ==> a == RelayAction::Skip,
        e is Closed ==> a is Stop,
{
    match e {
        RelayEvent::Received(m) => RelayAction::Forward(m),
        RelayEvent::Lagged(_) => RelayAction::Skip,
        RelayEvent::Closed => RelayAction::Stop,
    }
}

/// What the writer does with one outbound message: close the connection,
/// or serialize and send the message on.
#[derive(Debug, PartialEq)]
pub enum WriterAction {
    Close,
    Forward,
}

/// One writer decision: a terminal error notice closes the connection,
/// and exactly that; every other message is sent on.
pub fn writer_step(m: &GameMessage) -> (a: WriterAction)
    ensures
        a is Close <==> m matches GameMessage::Error { .. },
        a is Forward <==> !(m matches GameMessage::Error { .. }),
{
    match m {
        GameMessage::Error { .. } => WriterAction::Close,
        _ => WriterAction::Forward,
    }
}

} // verus!
