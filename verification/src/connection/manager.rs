//! The decisions of the loop that serves one control stream: what each event
//! of the connection leads to. The transport around it waits for the events
//! and carries the actions out.
use crate::protocol::Message;
use vstd::prelude::*;

verus! {

/// How often a served connection sends a Ping: every 15 seconds.
pub const HEARTBEAT_INTERVAL_SECS: u64 = 15;

/// What happened on a served connection.
pub enum ServeEvent {
    /// A message arrived from the peer; `None` when the peer closed the stream.
    Received(Option<Message>),
    /// A message was queued for the peer; `None` when nobody can queue any more.
    Queued(Option<Message>),
    /// A heartbeat period went by.
    Heartbeat,
}

/// What the loop does next.
pub enum ServeAction {
    /// Hand the message to the connection's handler and go on serving.
    Deliver(Message),
    /// Write the message to the peer and go on serving.
    Send(Message),
    /// Stop serving: the connection is over.
    Stop,
}

/// The next action of the loop: a message from the peer is delivered, a
/// queued one is sent, a heartbeat sends a Ping, and the end of either stream
/// stops the loop.
pub fn serve_step(event: ServeEvent) -> (r: ServeAction)
    ensures
        match event {
            ServeEvent::Received(Some(m)) => r == ServeAction::Deliver(m),
            ServeEvent::Queued(Some(m)) => r == ServeAction::Send(m),
            ServeEvent::Heartbeat => r == ServeAction::Send(Message::Ping),
            _ => r is Stop,
        },
{
    match event {
        ServeEvent::Received(Some(m)) => ServeAction::Deliver(m),
        ServeEvent::Queued(Some(m)) => ServeAction::Send(m),
        ServeEvent::Heartbeat => ServeAction::Send(Message::Ping),
        _ => ServeAction::Stop,
    }
}

} // verus!
