//! Tests driving the poll-cycle state machine step by step, as the
//! unverified shell around the real engine does.

use quic_mux::cycle::Action;
use quic_mux::cycle::Cycle;
use quic_mux::cycle::Reply;

#[test]
fn cycle_machine_follows_the_fixed_order() {
    let mut c = Cycle::begin(1, 10);
    assert!(matches!(c.step(Reply::EventApplied), Action::PollTransmit));
    assert!(matches!(c.step(Reply::TransmitTaken), Action::PollTransmit));
    assert!(matches!(c.step(Reply::TransmitEmpty), Action::PollTimer));
    assert!(matches!(
        c.step(Reply::Deadline { deadline: Some(5) }),
        Action::FireTimeout { deadline: 5 }
    ));
    assert!(matches!(c.step(Reply::Fired), Action::PollEndpointEvent));
    assert!(matches!(
        c.step(Reply::EndpointSurfaced { present: true }),
        Action::ForwardEndpointEvent
    ));
    assert!(matches!(
        c.step(Reply::EndpointReplied { present: true }),
        Action::ApplyConnEvent
    ));
    // the re-drain after propagation is an explicit transition
    assert!(matches!(c.step(Reply::EventApplied), Action::PollTransmit));
    assert!(matches!(c.step(Reply::TransmitEmpty), Action::PollAppEvent));
    assert!(matches!(c.step(Reply::Event { lost: false }), Action::AcceptStream));
    assert!(matches!(c.step(Reply::Accepted { id: Some(3) }), Action::AcceptStream));
    assert!(matches!(c.step(Reply::Accepted { id: None }), Action::ReadChunk { stream: 3 }));
    assert!(matches!(c.step(Reply::Chunk { more: true }), Action::ReadChunk { stream: 3 }));
    assert!(matches!(c.step(Reply::Chunk { more: false }), Action::Finish { terminal: false }));
}

#[test]
fn future_deadline_is_not_fired() {
    let mut c = Cycle::begin(2, 10);
    assert!(matches!(c.step(Reply::EventApplied), Action::PollTransmit));
    assert!(matches!(c.step(Reply::TransmitEmpty), Action::PollTimer));
    // deadline 50 has not elapsed at time 10: the machine skips the fire
    assert!(matches!(
        c.step(Reply::Deadline { deadline: Some(50) }),
        Action::PollEndpointEvent
    ));
}

#[test]
fn stream_read_failure_finishes_terminal() {
    let mut c = Cycle::begin(4, 0);
    assert!(matches!(c.step(Reply::EventApplied), Action::PollTransmit));
    assert!(matches!(c.step(Reply::TransmitEmpty), Action::PollTimer));
    assert!(matches!(c.step(Reply::Deadline { deadline: None }), Action::PollEndpointEvent));
    assert!(matches!(
        c.step(Reply::EndpointSurfaced { present: false }),
        Action::PollAppEvent
    ));
    assert!(matches!(c.step(Reply::Event { lost: false }), Action::AcceptStream));
    assert!(matches!(c.step(Reply::Accepted { id: Some(7) }), Action::AcceptStream));
    assert!(matches!(c.step(Reply::Accepted { id: None }), Action::ReadChunk { stream: 7 }));
    // a read or framing error is surfaced as a connection-level outcome:
    // the cycle ends terminal, so the session is discarded, never a crash
    assert!(matches!(c.step(Reply::ChunkFailed), Action::Finish { terminal: true }));
}

#[test]
fn lost_connection_finishes_terminal() {
    let mut c = Cycle::begin(3, 0);
    assert!(matches!(c.step(Reply::EventApplied), Action::PollTransmit));
    assert!(matches!(c.step(Reply::TransmitEmpty), Action::PollTimer));
    assert!(matches!(c.step(Reply::Deadline { deadline: None }), Action::PollEndpointEvent));
    assert!(matches!(
        c.step(Reply::EndpointSurfaced { present: false }),
        Action::PollAppEvent
    ));
    assert!(matches!(c.step(Reply::Event { lost: true }), Action::AcceptStream));
    assert!(matches!(c.step(Reply::Accepted { id: None }), Action::Finish { terminal: true }));
}
