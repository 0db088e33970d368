//! Plain-value forms of the addresses, datagrams and events that flow
//! between the dispatch core and the secure session engine.

use vstd::prelude::*;

verus! {

/// An IPv4 peer address as plain values: host-order address and port.
#[derive(Clone, Copy, PartialEq, Eq, Structural, Debug)]
pub struct Addr {
    pub ip: u32,
    pub port: u16,
}

/// One outbound datagram: the payload bytes and the address they go to.
#[derive(Clone, Debug)]
pub struct Datagram {
    pub dest: Addr,
    pub bytes: Vec<u8>,
}

/// Why a connection ended, as the engine reports it: the application
/// close code and the peer's reason bytes.
#[derive(Clone, Debug)]
pub struct CloseReason {
    pub code: u64,
    pub reason: Vec<u8>,
}

/// An application-level event surfaced by one session.
#[derive(Clone, Debug)]
pub enum AppEvent {
    /// Handshake data became available; observational only.
    HandshakeDataReady,
    /// The handshake finished; the session is usable for application data.
    Connected,
    /// The connection ended; the session is terminal from here on.
    ConnectionLost { reason: CloseReason },
    /// Something happened on a stream; stream acceptance follows.
    StreamActivity,
    /// An out-of-stream application datagram arrived; observational only.
    DatagramReceived,
}

/// A connection-scoped event handed to one session. Applying it may queue
/// further egress on that session.
#[derive(Clone, Debug)]
pub struct ConnEvent {
    pub transmits: Vec<Datagram>,
}

/// An endpoint-scoped event surfaced by a session. Forwarding it to the
/// endpoint may hand back a connection-scoped event in reply; the reply
/// travels inside the event, which is what the endpoint handler returns.
#[derive(Clone, Debug)]
pub struct EndpointEvent {
    pub reply: Option<ConnEvent>,
}

/// Whether an application event is the terminal one: only a lost
/// connection makes a session terminal.
pub open spec fn is_lost(e: AppEvent) -> bool {
    e is ConnectionLost
}

/// Whether an optional application event is present and terminal.
pub open spec fn is_lost_event(e: Option<AppEvent>) -> bool {
    e matches Some(ev) && is_lost(ev)
}

/// Executable test for the terminal application event.
pub fn event_is_lost(e: &AppEvent) -> (r: bool)
    ensures
        r == is_lost(*e),
{
    match e {
        AppEvent::ConnectionLost { .. } => true,
        _ => false,
    }
}

} // verus!
