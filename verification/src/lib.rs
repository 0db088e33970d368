//! Core of a single-socket, single-threaded multiplexer for secure,
//! stream-capable transport sessions over one UDP endpoint.
//!
//! The crate verifies the decision logic of the server side: routing of
//! inbound datagrams to sessions, the session table with its checkout and
//! checkin lifecycle, and the fixed-order per-session poll cycle
//! (transmit drain, timeout check, endpoint-event propagation,
//! application-event consumption, stream acceptance and drain).
//! The secure session engine itself and the socket are outside
//! collaborators: the engine is modelled by [`engine::EngineSession`],
//! and an unverified shell performs the actual socket and engine calls,
//! driven step by step by [`driver::Driver`].

pub mod creds;
pub mod cycle;
pub mod driver;
pub mod engine;
pub mod event;
pub mod laws;
pub mod runner;
