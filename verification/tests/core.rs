//! Scenario tests driving the verified dispatch core against scripted
//! model-engine sessions.

use quic_mux::driver::Driver;
use quic_mux::driver::RouteKind;
use quic_mux::engine::EngineSession;
use quic_mux::event::Addr;
use quic_mux::event::AppEvent;
use quic_mux::event::CloseReason;
use quic_mux::event::ConnEvent;
use quic_mux::event::Datagram;
use quic_mux::event::EndpointEvent;
use quic_mux::engine::StreamBuf;
use quic_mux::runner::dispatch;
use quic_mux::runner::CycleOutcome;
use quic_mux::runner::DispatchOutcome;

fn peer() -> Addr {
    Addr { ip: 0x7f000001, port: 12000 }
}

fn dg(bytes: &[u8]) -> Datagram {
    Datagram { dest: peer(), bytes: bytes.to_vec() }
}

fn empty_event() -> ConnEvent {
    ConnEvent { transmits: Vec::new() }
}

fn run_cycle(drv: &mut Driver<EngineSession>, now: u64, handle: u64, ev: ConnEvent) -> CycleOutcome {
    match dispatch(drv, now, Some((handle, RouteKind::ConnEvent(ev)))) {
        DispatchOutcome::CycleRan { handle: h, outcome } => {
            assert_eq!(h, handle);
            outcome
        }
        _ => panic!("expected a poll cycle to run"),
    }
}

#[test]
fn new_session_is_adopted_once() {
    let mut drv: Driver<EngineSession> = Driver::new();
    let out = dispatch(&mut drv, 0, Some((7, RouteKind::NewSession(EngineSession::new(peer())))));
    assert!(matches!(out, DispatchOutcome::SessionInserted { handle: 7 }));
    assert!(drv.is_tracked(7));
    assert_eq!(drv.tracked_count(), 1);
    // a second new-session report for the same handle changes nothing
    let out = dispatch(&mut drv, 1, Some((7, RouteKind::NewSession(EngineSession::new(peer())))));
    assert!(matches!(out, DispatchOutcome::DuplicateSession { handle: 7 }));
    assert_eq!(drv.tracked_count(), 1);
}

#[test]
fn event_before_entry_is_unrouted() {
    let mut drv: Driver<EngineSession> = Driver::new();
    // no new-session report has been processed for handle 3 yet
    let out = dispatch(&mut drv, 0, Some((3, RouteKind::ConnEvent(empty_event()))));
    assert!(matches!(out, DispatchOutcome::UnknownHandle { handle: 3 }));
    assert_eq!(drv.tracked_count(), 0);
}

#[test]
fn unroutable_datagram_is_dropped() {
    let mut drv: Driver<EngineSession> = Driver::new();
    let out = dispatch(&mut drv, 0, None);
    assert!(matches!(out, DispatchOutcome::NotRouted));
    assert_eq!(drv.tracked_count(), 0);
}

#[test]
fn transmit_drain_runs_to_quiescence() {
    let mut drv: Driver<EngineSession> = Driver::new();
    let mut sess = EngineSession::new(peer());
    sess.transmits = vec![dg(b"a"), dg(b"b"), dg(b"c")];
    dispatch(&mut drv, 0, Some((1, RouteKind::NewSession(sess))));

    let routed = ConnEvent { transmits: vec![dg(b"d")] };
    let out = run_cycle(&mut drv, 0, 1, routed);
    let bytes: Vec<&[u8]> = out.egress.iter().map(|d| d.bytes.as_slice()).collect();
    assert_eq!(bytes, vec![b"a" as &[u8], b"b", b"c", b"d"]);

    // an immediate further cycle finds no pending transmit
    let out = run_cycle(&mut drv, 1, 1, empty_event());
    assert!(out.egress.is_empty());
}

#[test]
fn endpoint_event_reply_is_flushed_in_the_same_cycle() {
    let mut drv: Driver<EngineSession> = Driver::new();
    let mut sess = EngineSession::new(peer());
    sess.transmits = vec![dg(b"first")];
    sess.endpoint_events = vec![EndpointEvent {
        reply: Some(ConnEvent { transmits: vec![dg(b"caused")] }),
    }];
    dispatch(&mut drv, 0, Some((2, RouteKind::NewSession(sess))));

    let out = run_cycle(&mut drv, 0, 2, empty_event());
    let bytes: Vec<&[u8]> = out.egress.iter().map(|d| d.bytes.as_slice()).collect();
    assert_eq!(bytes, vec![b"first" as &[u8], b"caused"]);
    assert!(!out.terminal);
}

#[test]
fn timer_is_never_fired_early() {
    let mut drv: Driver<EngineSession> = Driver::new();
    let mut sess = EngineSession::new(peer());
    sess.timer = Some(100);
    dispatch(&mut drv, 0, Some((4, RouteKind::NewSession(sess))));

    // deadline in the future: not fired
    let out = run_cycle(&mut drv, 50, 4, empty_event());
    assert_eq!(out.fired, None);
    // deadline elapsed: fired, exactly once
    let out = run_cycle(&mut drv, 150, 4, empty_event());
    assert_eq!(out.fired, Some(100));
    // the deadline was consumed: no second fire for it
    let out = run_cycle(&mut drv, 200, 4, empty_event());
    assert_eq!(out.fired, None);
}

#[test]
fn timer_fires_at_exactly_the_deadline() {
    let mut drv: Driver<EngineSession> = Driver::new();
    let mut sess = EngineSession::new(peer());
    sess.timer = Some(u64::MAX);
    dispatch(&mut drv, 0, Some((5, RouteKind::NewSession(sess))));
    let out = run_cycle(&mut drv, u64::MAX, 5, empty_event());
    assert_eq!(out.fired, Some(u64::MAX));
}

#[test]
fn live_session_is_reinserted_under_the_same_handle() {
    let mut drv: Driver<EngineSession> = Driver::new();
    dispatch(&mut drv, 0, Some((9, RouteKind::NewSession(EngineSession::new(peer())))));
    let out = run_cycle(&mut drv, 0, 9, empty_event());
    assert!(!out.terminal);
    assert!(drv.is_tracked(9));
    assert_eq!(drv.tracked_count(), 1);
}

#[test]
fn streams_are_accepted_ascending_and_drained() {
    let mut drv: Driver<EngineSession> = Driver::new();
    let mut sess = EngineSession::new(peer());
    sess.pending_streams = vec![1, 5, 9];
    sess.streams = vec![
        StreamBuf { id: 1, chunks: vec![b"one".to_vec(), b"more".to_vec()] },
        StreamBuf { id: 5, chunks: vec![b"five".to_vec()] },
        StreamBuf { id: 9, chunks: Vec::new() },
    ];
    dispatch(&mut drv, 0, Some((6, RouteKind::NewSession(sess))));

    let out = run_cycle(&mut drv, 0, 6, empty_event());
    assert_eq!(out.reads.len(), 3);
    let ids: Vec<u64> = out.reads.iter().map(|r| r.id).collect();
    assert_eq!(ids, vec![1, 5, 9]);
    assert_eq!(out.reads[0].chunks, vec![b"one".to_vec(), b"more".to_vec()]);
    assert_eq!(out.reads[1].chunks, vec![b"five".to_vec()]);
    assert!(out.reads[2].chunks.is_empty());

    // every stream was read to exhaustion within the cycle
    let out = run_cycle(&mut drv, 1, 6, empty_event());
    assert!(out.reads.is_empty());
}

#[test]
fn hello_world_session_end_to_end() {
    // The smoke scenario: the peer opens one bidirectional stream, writes
    // thirteen bytes, finishes the stream, then closes the connection with
    // code 0 and reason "done".
    let mut drv: Driver<EngineSession> = Driver::new();
    let mut sess = EngineSession::new(peer());
    sess.app_events = vec![
        AppEvent::Connected,
        AppEvent::ConnectionLost {
            reason: CloseReason { code: 0, reason: b"done".to_vec() },
        },
    ];
    sess.pending_streams = vec![0];
    sess.streams = vec![StreamBuf { id: 0, chunks: vec![b"Hello, World!".to_vec()] }];
    dispatch(&mut drv, 0, Some((11, RouteKind::NewSession(sess))));

    // first cycle: Connected, one stream accepted, one chunk, exhaustion
    let out = run_cycle(&mut drv, 1, 11, empty_event());
    assert!(matches!(out.event, Some(AppEvent::Connected)));
    assert!(!out.terminal);
    assert_eq!(out.reads.len(), 1);
    assert_eq!(out.reads[0].id, 0);
    assert_eq!(out.reads[0].chunks, vec![b"Hello, World!".to_vec()]);
    assert!(drv.is_tracked(11));

    // second cycle: the close arrives; the session is terminal and removed
    let out = run_cycle(&mut drv, 2, 11, empty_event());
    match &out.event {
        Some(AppEvent::ConnectionLost { reason }) => {
            assert_eq!(reason.code, 0);
            assert_eq!(reason.reason, b"done".to_vec());
        }
        other => panic!("expected the lost-connection event, got {:?}", other),
    }
    assert!(out.reads.is_empty());
    assert!(out.terminal);
    assert!(!drv.is_tracked(11));
    assert_eq!(drv.tracked_count(), 0);
}

#[test]
fn terminal_handle_stays_unrouted_and_unchanged() {
    let mut drv: Driver<EngineSession> = Driver::new();
    let mut sess = EngineSession::new(peer());
    sess.app_events = vec![AppEvent::ConnectionLost {
        reason: CloseReason { code: 1, reason: b"bye".to_vec() },
    }];
    dispatch(&mut drv, 0, Some((8, RouteKind::NewSession(sess))));

    let out = run_cycle(&mut drv, 0, 8, empty_event());
    assert!(out.terminal);
    assert!(!drv.is_tracked(8));

    // feeding the same already-processed datagram again: no table mutation,
    // no egress
    let out = dispatch(&mut drv, 1, Some((8, RouteKind::ConnEvent(empty_event()))));
    assert!(matches!(out, DispatchOutcome::UnknownHandle { handle: 8 }));
    assert_eq!(drv.tracked_count(), 0);
}

#[test]
fn empty_cycle_changes_nothing_but_stays_live() {
    let mut drv: Driver<EngineSession> = Driver::new();
    dispatch(&mut drv, 0, Some((12, RouteKind::NewSession(EngineSession::new(peer())))));
    let out = run_cycle(&mut drv, 0, 12, empty_event());
    assert!(out.egress.is_empty());
    assert_eq!(out.fired, None);
    assert!(out.event.is_none());
    assert!(out.reads.is_empty());
    assert!(!out.terminal);
    assert!(drv.is_tracked(12));
}
