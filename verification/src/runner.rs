//! The verified composition: one poll cycle, and one dispatch decision,
//! driven to quiescence against the model engine session. The cycle machine
//! of [`crate::cycle`] sequences the steps; this module performs each action
//! on an [`EngineSession`] and proves what one whole cycle does: all queued
//! egress (including what endpoint-event propagation caused) leaves in
//! order and the transmit queue ends empty; a due deadline is fired exactly
//! once and never early; one application event is consumed and only a lost
//! connection makes the cycle terminal; and every pending incoming stream is
//! accepted in ascending id order and read to exhaustion.

use vstd::prelude::*;

use crate::cycle::Action;
use crate::cycle::Reply;
use crate::driver::Driver;
use crate::driver::RouteKind;
use crate::driver::Routed;
use crate::engine::EngineSession;
use crate::engine::chunks_of;
use crate::engine::fire_decision;
use crate::engine::next_transmit_spec;
use crate::event::AppEvent;
use crate::event::ConnEvent;
use crate::event::Datagram;
use crate::event::is_lost_event;

verus! {

/// The connection-scoped reply that forwarding the session's next endpoint
/// event will produce, if any.
pub open spec fn prop_reply(s: EngineSession) -> Option<ConnEvent> {
    if s.endpoint_events@.len() > 0 {
        s.endpoint_events@[0].reply
    } else {
        None
    }
}

/// The egress that endpoint-event propagation will add to the cycle.
pub open spec fn prop_transmits(s: EngineSession) -> Seq<Datagram> {
    match prop_reply(s) {
        Some(ce) => ce.transmits@,
        None => Seq::empty(),
    }
}

/// The application event the cycle will consume, if any.
pub open spec fn first_app_event(s: EngineSession) -> Option<AppEvent> {
    if s.app_events@.len() > 0 {
        Some(s.app_events@[0])
    } else {
        None
    }
}

/// Strictly ascending ids.
pub open spec fn ascending(s: Seq<u64>) -> bool {
    forall|i: int, j: int| 0 <= i < j < s.len() ==> s[i] < s[j]
}

/// Drain the session's transmit queue to quiescence: every queued datagram
/// joins `egress` in order, and afterwards an immediate further query would
/// find none. Runs the machine from either drain phase to the phase that
/// follows it.
fn drain_phase(drv: &mut Driver<EngineSession>, sess: &mut EngineSession, egress: &mut Vec<
    Datagram,
>)
    requires
        old(drv).wf(),
        old(drv).cyc.phase is Drain || old(drv).cyc.phase is Redrain,
    ensures
        final(drv).wf(),
        final(drv).table@ == old(drv).table@,
        final(drv).cyc.handle == old(drv).cyc.handle,
        final(drv).cyc.now == old(drv).cyc.now,
        final(drv).cyc.fired == old(drv).cyc.fired,
        final(drv).cyc.terminal == old(drv).cyc.terminal,
        final(drv).cyc.streams@ == old(drv).cyc.streams@,
        final(drv).cyc.next_stream == old(drv).cyc.next_stream,
        old(drv).cyc.phase is Drain ==> final(drv).cyc.phase is Timeout,
        old(drv).cyc.phase is Redrain ==> final(drv).cyc.phase is App,
        final(egress)@ == old(egress)@ + old(sess).transmits@,
        final(sess).transmits@.len() == 0,
        next_transmit_spec(*final(sess)) is None,
        final(sess).peer == old(sess).peer,
        final(sess).timer == old(sess).timer,
        final(sess).endpoint_events == old(sess).endpoint_events,
        final(sess).app_events == old(sess).app_events,
        final(sess).pending_streams == old(sess).pending_streams,
        final(sess).streams == old(sess).streams,
        old(sess).wf() ==> final(sess).wf(),
{
    let mut more = true;
    while more
        invariant
            drv.wf(),
            drv.table@ == old(drv).table@,
            drv.cyc.handle == old(drv).cyc.handle,
            drv.cyc.now == old(drv).cyc.now,
            drv.cyc.fired == old(drv).cyc.fired,
            drv.cyc.terminal == old(drv).cyc.terminal,
            drv.cyc.streams@ == old(drv).cyc.streams@,
            drv.cyc.next_stream == old(drv).cyc.next_stream,
            more ==> drv.cyc.phase == old(drv).cyc.phase,
            !more ==> (old(drv).cyc.phase is Drain ==> drv.cyc.phase is Timeout),
            !more ==> (old(drv).cyc.phase is Redrain ==> drv.cyc.phase is App),
            old(drv).cyc.phase is Drain || old(drv).cyc.phase is Redrain,
            more ==> egress@ + sess.transmits@ == old(egress)@ + old(sess).transmits@,
            !more ==> egress@ == old(egress)@ + old(sess).transmits@ && sess.transmits@.len()
                == 0,
            sess.peer == old(sess).peer,
            sess.timer == old(sess).timer,
            sess.endpoint_events == old(sess).endpoint_events,
            sess.app_events == old(sess).app_events,
            sess.pending_streams == old(sess).pending_streams,
            sess.streams == old(sess).streams,
            old(sess).wf() ==> sess.wf(),
        decreases sess.transmits@.len() + (if more {
            1int
        } else {
            0int
        }),
    {
        match sess.next_transmit() {
            Some(d) => {
                egress.push(d);
                let _a = drv.step(Reply::TransmitTaken);
                proof {
                    assert(egress@ + sess.transmits@ =~= old(egress)@ + old(sess).transmits@);
                }
            },
            None => {
                let _a = drv.step(Reply::TransmitEmpty);
                more = false;
                proof {
                    assert(egress@ =~= old(egress)@ + old(sess).transmits@);
                }
            },
        }
    }
}

/// One accepted stream with every chunk that was buffered for it.
pub struct StreamRead {
    pub id: u64,
    pub chunks: Vec<Vec<u8>>,
}

/// Accept every pending incoming bidirectional stream, in order. The ids
/// collect in the cycle state; the returned action is the machine's next
/// one: the first read, or the finish when nothing was pending.
fn accept_phase(drv: &mut Driver<EngineSession>, sess: &mut EngineSession) -> (a: Action)
    requires
        old(drv).wf(),
        old(drv).cyc.phase is Accept,
        old(drv).cyc.streams@.len() == 0,
    ensures
        final(drv).wf(),
        final(drv).table@ == old(drv).table@,
        final(drv).cyc.handle == old(drv).cyc.handle,
        final(drv).cyc.now == old(drv).cyc.now,
        final(drv).cyc.fired == old(drv).cyc.fired,
        final(drv).cyc.terminal == old(drv).cyc.terminal,
        final(drv).cyc.streams@ == old(sess).pending_streams@,
        old(sess).pending_streams@.len() == 0 ==> final(drv).cyc.phase is Done && a == (
        Action::Finish { terminal: old(drv).cyc.terminal }),
        old(sess).pending_streams@.len() > 0 ==> final(drv).cyc.phase is Read
            && final(drv).cyc.next_stream == 0 && a == (Action::ReadChunk {
            stream: old(sess).pending_streams@[0],
        }),
        final(sess).pending_streams@.len() == 0,
        final(sess).peer == old(sess).peer,
        final(sess).transmits == old(sess).transmits,
        final(sess).timer == old(sess).timer,
        final(sess).endpoint_events == old(sess).endpoint_events,
        final(sess).app_events == old(sess).app_events,
        final(sess).streams == old(sess).streams,
        old(sess).wf() ==> final(sess).wf(),
{
    let mut more = true;
    let mut a = Action::AcceptStream;
    while more
        invariant
            drv.wf(),
            drv.table@ == old(drv).table@,
            drv.cyc.handle == old(drv).cyc.handle,
            drv.cyc.now == old(drv).cyc.now,
            drv.cyc.fired == old(drv).cyc.fired,
            drv.cyc.terminal == old(drv).cyc.terminal,
            more ==> drv.cyc.phase is Accept,
            more ==> drv.cyc.streams@ + sess.pending_streams@ == old(sess).pending_streams@,
            !more ==> {
                &&& drv.cyc.streams@ == old(sess).pending_streams@
                &&& sess.pending_streams@.len() == 0
                &&& old(sess).pending_streams@.len() == 0 ==> drv.cyc.phase is Done && a == (
                Action::Finish { terminal: old(drv).cyc.terminal })
                &&& old(sess).pending_streams@.len() > 0 ==> drv.cyc.phase is Read
                    && drv.cyc.next_stream == 0 && a == (Action::ReadChunk {
                    stream: old(sess).pending_streams@[0],
                })
            },
            sess.peer == old(sess).peer,
            sess.transmits == old(sess).transmits,
            sess.timer == old(sess).timer,
            sess.endpoint_events == old(sess).endpoint_events,
            sess.app_events == old(sess).app_events,
            sess.streams == old(sess).streams,
            old(sess).wf() ==> sess.wf(),
        decreases sess.pending_streams@.len() + (if more {
            1int
        } else {
            0int
        }),
    {
        match sess.accept_bidi() {
            Some(id) => {
                let _x = drv.step(Reply::Accepted { id: Some(id) });
                proof {
                    assert(drv.cyc.streams@ + sess.pending_streams@ =~= old(
                        sess,
                    ).pending_streams@);
                }
            },
            None => {
                proof {
                    assert(drv.cyc.streams@ =~= old(sess).pending_streams@);
                }
                a = drv.step(Reply::Accepted { id: None });
                more = false;
            },
        }
    }
    a
}

/// Read every collected stream to exhaustion, in the order discovered. For
/// each collected id, every chunk the session had buffered for it comes
/// out, in order, and afterwards the session buffers nothing for that id;
/// streams that were not collected keep their bytes.
fn read_phase(drv: &mut Driver<EngineSession>, sess: &mut EngineSession) -> (reads: Vec<StreamRead>)
    requires
        old(drv).wf(),
        old(drv).cyc.phase is Read,
        old(drv).cyc.next_stream == 0,
        ascending(old(drv).cyc.streams@),
        old(sess).wf(),
    ensures
        final(drv).wf(),
        final(drv).table@ == old(drv).table@,
        final(drv).cyc.handle == old(drv).cyc.handle,
        final(drv).cyc.now == old(drv).cyc.now,
        final(drv).cyc.fired == old(drv).cyc.fired,
        final(drv).cyc.terminal == old(drv).cyc.terminal,
        final(drv).cyc.streams@ == old(drv).cyc.streams@,
        final(drv).cyc.phase is Done,
        reads@.len() == old(drv).cyc.streams@.len(),
        forall|j: int|
            0 <= j < reads@.len() ==> (#[trigger] reads@[j]).id == old(drv).cyc.streams@[j],
        forall|j: int|
            0 <= j < reads@.len() ==> (#[trigger] reads@[j]).chunks@ == chunks_of(
                old(sess).streams@,
                old(drv).cyc.streams@[j],
            ),
        forall|j: int|
            0 <= j < reads@.len() ==> chunks_of(
                final(sess).streams@,
                #[trigger] old(drv).cyc.streams@[j],
            ).len() == 0,
        forall|id: u64|
            !old(drv).cyc.streams@.contains(id) ==> chunks_of(final(sess).streams@, id)
                == chunks_of(old(sess).streams@, id),
        final(sess).peer == old(sess).peer,
        final(sess).transmits == old(sess).transmits,
        final(sess).timer == old(sess).timer,
        final(sess).endpoint_events == old(sess).endpoint_events,
        final(sess).app_events == old(sess).app_events,
        final(sess).pending_streams == old(sess).pending_streams,
        final(sess).wf(),
{
    let mut reads: Vec<StreamRead> = Vec::new();
    let mut cur: Vec<Vec<u8>> = Vec::new();
    let mut reading = true;
    proof {
        assert(cur@ + chunks_of(sess.streams@, drv.cyc.streams@[0]) =~= chunks_of(
            sess.streams@,
            drv.cyc.streams@[0],
        ));
    }
    while reading
        invariant
            drv.wf(),
            sess.wf(),
            drv.table@ == old(drv).table@,
            drv.cyc.handle == old(drv).cyc.handle,
            drv.cyc.now == old(drv).cyc.now,
            drv.cyc.fired == old(drv).cyc.fired,
            drv.cyc.terminal == old(drv).cyc.terminal,
            drv.cyc.streams@ == old(drv).cyc.streams@,
            ascending(drv.cyc.streams@),
            reading ==> drv.cyc.phase is Read,
            !reading ==> drv.cyc.phase is Done && drv.cyc.next_stream == drv.cyc.streams@.len(),
            reads@.len() == (if reading {
                drv.cyc.next_stream as int
            } else {
                drv.cyc.streams@.len() as int
            }),
            forall|j: int|
                0 <= j < reads@.len() ==> (#[trigger] reads@[j]).id == drv.cyc.streams@[j],
            forall|j: int|
                0 <= j < reads@.len() ==> (#[trigger] reads@[j]).chunks@ == chunks_of(
                    old(sess).streams@,
                    drv.cyc.streams@[j],
                ),
            forall|j: int|
                0 <= j < reads@.len() ==> chunks_of(
                    sess.streams@,
                    #[trigger] drv.cyc.streams@[j],
                ).len() == 0,
            reading ==> cur@ + chunks_of(
                sess.streams@,
                drv.cyc.streams@[drv.cyc.next_stream as int],
            ) == chunks_of(old(sess).streams@, drv.cyc.streams@[drv.cyc.next_stream as int]),
            forall|id: u64|
                !drv.cyc.streams@.take(
                    if reading {
                        drv.cyc.next_stream as int + 1
                    } else {
                        drv.cyc.streams@.len() as int
                    },
                ).contains(id) ==> chunks_of(sess.streams@, id) == chunks_of(
                    old(sess).streams@,
                    id,
                ),
            sess.peer == old(sess).peer,
            sess.transmits == old(sess).transmits,
            sess.timer == old(sess).timer,
            sess.endpoint_events == old(sess).endpoint_events,
            sess.app_events == old(sess).app_events,
            sess.pending_streams == old(sess).pending_streams,
        decreases drv.cyc.streams@.len() - drv.cyc.next_stream, (if reading {
            chunks_of(sess.streams@, drv.cyc.streams@[drv.cyc.next_stream as int]).len() as int + 1
        } else {
            0int
        }),
    {
        let i = drv.cyc.next_stream;
        let ghost upto = i as int + 1;
        let stream = drv.cyc.streams[i];
        proof {
            assert(drv.cyc.streams@.take(upto)[i as int] == stream);
        }
        match sess.read_chunk(stream) {
            Some(c) => {
                cur.push(c);
                let _a = drv.step(Reply::Chunk { more: true });
                proof {
                    assert(cur@ + chunks_of(sess.streams@, stream) =~= chunks_of(
                        old(sess).streams@,
                        stream,
                    ));
                }
            },
            None => {
                proof {
                    assert(cur@ =~= cur@ + chunks_of(sess.streams@, stream));
                }
                reads.push(StreamRead { id: stream, chunks: cur });
                cur = Vec::new();
                let a = drv.step(Reply::Chunk { more: false });
                match a {
                    Action::Finish { .. } => {
                        reading = false;
                        proof {
                            assert(drv.cyc.streams@.take(drv.cyc.streams@.len() as int)
                                =~= drv.cyc.streams@);
                        }
                    },
                    _ => {
                        proof {
                            let k = drv.cyc.next_stream as int;
                            assert(drv.cyc.streams@.take(k + 1)[k] == drv.cyc.streams@[k]);
                            assert(!drv.cyc.streams@.take(upto).contains(drv.cyc.streams@[k]));
                            assert(cur@ + chunks_of(sess.streams@, drv.cyc.streams@[k])
                                =~= chunks_of(old(sess).streams@, drv.cyc.streams@[k]));
                            assert forall|id: u64| !drv.cyc.streams@.take(k + 1).contains(id)
                                implies chunks_of(sess.streams@, id) == chunks_of(
                                old(sess).streams@,
                                id,
                            ) by {
                                assert(!drv.cyc.streams@.take(upto).contains(id)) by {
                                    if drv.cyc.streams@.take(upto).contains(id) {
                                        let w = choose|w: int|
                                            0 <= w < upto && drv.cyc.streams@.take(upto)[w] == id;
                                        assert(drv.cyc.streams@.take(k + 1)[w] == id);
                                    }
                                }
                            }
                        }
                    },
                }
            },
        }
    }
    reads
}

/// Everything one poll cycle produced, in the order the cycle produced it.
pub struct CycleOutcome {
    /// Every datagram the session had queued, including what endpoint-event
    /// propagation added, in order; each goes to the peer.
    pub egress: Vec<Datagram>,
    /// The deadline whose timeout was delivered, if one was due.
    pub fired: Option<u64>,
    /// The one application event consumed, if any was pending.
    pub event: Option<AppEvent>,
    /// The accepted streams, in the order discovered, each read to
    /// exhaustion.
    pub reads: Vec<StreamRead>,
    /// Whether the session is terminal and must not be reinserted.
    pub terminal: bool,
}

/// Run one whole poll cycle on a checked-out session, to quiescence, in the
/// fixed order: transmit drain, timeout check, endpoint-event propagation
/// with its re-drain, application-event consumption, stream acceptance and
/// drain.
pub fn drive_cycle(drv: &mut Driver<EngineSession>, sess: &mut EngineSession) -> (out: CycleOutcome)
    requires
        old(drv).wf(),
        old(drv).cyc.phase is Drain,
        !old(drv).cyc.fired,
        !old(drv).cyc.terminal,
        old(drv).cyc.streams@.len() == 0,
        old(drv).cyc.next_stream == 0,
        old(sess).wf(),
    ensures
        final(drv).wf(),
        final(drv).cyc.phase is Done,
        final(drv).cyc.handle == old(drv).cyc.handle,
        final(drv).cyc.now == old(drv).cyc.now,
        final(drv).cyc.terminal == out.terminal,
        final(drv).table@ == old(drv).table@,
        final(sess).wf(),
        final(sess).peer == old(sess).peer,
        out.egress@ == old(sess).transmits@ + prop_transmits(*old(sess)),
        final(sess).transmits@.len() == 0,
        next_transmit_spec(*final(sess)) is None,
        out.fired == fire_decision(old(sess).timer, old(drv).cyc.now),
        out.fired is Some ==> final(sess).timer is None,
        out.fired is None ==> final(sess).timer == old(sess).timer,
        old(sess).endpoint_events@.len() == 0 ==> final(sess).endpoint_events@ == old(
            sess,
        ).endpoint_events@,
        old(sess).endpoint_events@.len() > 0 ==> final(sess).endpoint_events@ == old(
            sess,
        ).endpoint_events@.drop_first(),
        out.event == first_app_event(*old(sess)),
        old(sess).app_events@.len() > 0 ==> final(sess).app_events@ == old(
            sess,
        ).app_events@.drop_first(),
        old(sess).app_events@.len() == 0 ==> final(sess).app_events@ == old(sess).app_events@,
        out.terminal == is_lost_event(out.event),
        out.reads@.len() == old(sess).pending_streams@.len(),
        forall|j: int|
            0 <= j < out.reads@.len() ==> (#[trigger] out.reads@[j]).id == old(
                sess,
            ).pending_streams@[j],
        forall|j: int|
            0 <= j < out.reads@.len() ==> (#[trigger] out.reads@[j]).chunks@ == chunks_of(
                old(sess).streams@,
                old(sess).pending_streams@[j],
            ),
        forall|j: int|
            0 <= j < out.reads@.len() ==> chunks_of(
                final(sess).streams@,
                #[trigger] old(sess).pending_streams@[j],
            ).len() == 0,
        forall|id: u64|
            !old(sess).pending_streams@.contains(id) ==> chunks_of(final(sess).streams@, id)
                == chunks_of(old(sess).streams@, id),
        final(sess).pending_streams@.len() == 0,
{
    let ghost s0 = *sess;
    let mut egress: Vec<Datagram> = Vec::new();

    // 1. transmit drain
    drain_phase(drv, sess, &mut egress);

    // 2. timeout check: deliver a due deadline exactly once, never early
    let deadline = sess.next_timer_deadline();
    let a = drv.step(Reply::Deadline { deadline });
    let fired: Option<u64> = match a {
        Action::FireTimeout { deadline: d } => {
            sess.fire_timeout(d);
            let _a = drv.step(Reply::Fired);
            Some(d)
        },
        _ => None,
    };

    // 3. endpoint-event propagation, with a re-drain when it answered
    match sess.next_endpoint_event() {
        Some(ev) => {
            let _a = drv.step(Reply::EndpointSurfaced { present: true });
            let handle = drv.cyc.handle;
            match crate::engine::handle_endpoint_event(handle, ev) {
                Some(ce) => {
                    let _a2 = drv.step(Reply::EndpointReplied { present: true });
                    sess.apply_conn_event(ce);
                    let _a3 = drv.step(Reply::EventApplied);
                    drain_phase(drv, sess, &mut egress);
                },
                None => {
                    let _a2 = drv.step(Reply::EndpointReplied { present: false });
                },
            }
        },
        None => {
            let _a = drv.step(Reply::EndpointSurfaced { present: false });
        },
    }
    proof {
        assert(egress@ =~= s0.transmits@ + prop_transmits(s0));
    }

    // 4. application-event consumption: one event, only a lost connection
    // is terminal
    let ev = sess.next_app_event();
    let lost = match &ev {
        Some(e) => crate::event::event_is_lost(e),
        None => false,
    };
    let _a = drv.step(Reply::Event { lost });

    // 5. stream acceptance and drain
    let a5 = accept_phase(drv, sess);
    let reads = match a5 {
        Action::Finish { .. } => Vec::new(),
        _ => read_phase(drv, sess),
    };

    CycleOutcome { egress, fired, event: ev, reads, terminal: lost }
}

/// Every session resident in a table is well formed.
pub open spec fn tbl_wf(m: Map<u64, EngineSession>) -> bool {
    forall|h: u64| #[trigger] m.contains_key(h) ==> m[h].wf()
}

/// What the dispatch loop did with one inbound datagram.
pub enum DispatchOutcome {
    /// Routing reported nothing: a malformed or ignored datagram, dropped
    /// silently.
    NotRouted,
    /// A fresh session was adopted under a new handle; its first events
    /// arrive with later datagrams.
    SessionInserted { handle: u64 },
    /// A new-session report for a handle already tracked was dropped.
    DuplicateSession { handle: u64 },
    /// A connection event for a handle with no resident session — among
    /// them any handle whose session ended — was dropped with no table
    /// change and no egress.
    UnknownHandle { handle: u64 },
    /// The resident session was checked out, its poll cycle ran to
    /// quiescence, and it was checked back in unless terminal.
    CycleRan { handle: u64, outcome: CycleOutcome },
}

/// Dispatch one routed inbound datagram at time `now`: adopt a new session,
/// or check the addressed session out, apply the event, run its poll cycle
/// and check it back in under the same handle unless it turned terminal.
pub fn dispatch(drv: &mut Driver<EngineSession>, now: u64, routed: Option<
    (u64, RouteKind<EngineSession, ConnEvent>),
>) -> (out: DispatchOutcome)
    requires
        old(drv).wf(),
        old(drv).is_idle(),
        tbl_wf(old(drv).table@),
        routed matches Some((h, k)) ==> (k matches RouteKind::NewSession(s) ==> s.wf()),
    ensures
        final(drv).wf(),
        final(drv).is_idle(),
        tbl_wf(final(drv).table@),
        routed is None ==> final(drv).table@ == old(drv).table@ && out is NotRouted,
        routed matches Some((h, k)) ==> {
            &&& k matches RouteKind::NewSession(s) ==> {
                &&& !old(drv).table@.contains_key(h) ==> final(drv).table@ == old(
                    drv,
                ).table@.insert(h, s) && out == (DispatchOutcome::SessionInserted { handle: h })
                &&& old(drv).table@.contains_key(h) ==> final(drv).table@ == old(drv).table@ && out
                    == (DispatchOutcome::DuplicateSession { handle: h })
            }
            &&& k matches RouteKind::ConnEvent(e) ==> {
                &&& !old(drv).table@.contains_key(h) ==> final(drv).table@ == old(drv).table@ && out
                    == (DispatchOutcome::UnknownHandle { handle: h })
                &&& old(drv).table@.contains_key(h) ==> {
                    let s0 = old(drv).table@[h];
                    &&& out matches DispatchOutcome::CycleRan { handle: h2, outcome } && h2 == h
                        && {
                        &&& outcome.egress@ == s0.transmits@ + e.transmits@ + prop_transmits(s0)
                        &&& outcome.fired == fire_decision(s0.timer, now)
                        &&& outcome.event == first_app_event(s0)
                        &&& outcome.terminal == is_lost_event(outcome.event)
                        &&& outcome.reads@.len() == s0.pending_streams@.len()
                        &&& forall|j: int|
                            0 <= j < outcome.reads@.len() ==> (#[trigger] outcome.reads@[j]).id
                                == s0.pending_streams@[j]
                        &&& forall|j: int|
                            0 <= j < outcome.reads@.len()
                                ==> (#[trigger] outcome.reads@[j]).chunks@ == chunks_of(
                                s0.streams@,
                                s0.pending_streams@[j],
                            )
                        &&& !outcome.terminal ==> {
                            let s1 = final(drv).table@[h];
                            &&& final(drv).table@.contains_key(h)
                            &&& final(drv).table@.dom() == old(drv).table@.dom()
                            &&& final(drv).table@.remove(h) == old(drv).table@.remove(h)
                            &&& s1.peer == s0.peer
                            &&& s1.transmits@.len() == 0
                            &&& s1.pending_streams@.len() == 0
                            &&& s1.timer == (if outcome.fired is Some {
                                None::<u64>
                            } else {
                                s0.timer
                            })
                            &&& s1.app_events@ == (if s0.app_events@.len() > 0 {
                                s0.app_events@.drop_first()
                            } else {
                                s0.app_events@
                            })
                            &&& s1.endpoint_events@ == (if s0.endpoint_events@.len() > 0 {
                                s0.endpoint_events@.drop_first()
                            } else {
                                s0.endpoint_events@
                            })
                            &&& forall|j: int|
                                0 <= j < s0.pending_streams@.len() ==> chunks_of(
                                    s1.streams@,
                                    #[trigger] s0.pending_streams@[j],
                                ).len() == 0
                            &&& forall|id: u64|
                                !s0.pending_streams@.contains(id) ==> chunks_of(s1.streams@, id)
                                    == chunks_of(s0.streams@, id)
                        }
                        &&& outcome.terminal ==> final(drv).table@ == old(drv).table@.remove(h)
                    }
                }
            }
        },
{
    match routed {
        None => DispatchOutcome::NotRouted,
        Some((handle, kind)) => {
            match drv.on_route(now, handle, kind) {
                Routed::Inserted => DispatchOutcome::SessionInserted { handle },
                Routed::AlreadyTracked => DispatchOutcome::DuplicateSession { handle },
                Routed::Ignored => DispatchOutcome::UnknownHandle { handle },
                Routed::Begin(sess, e) => {
                    let mut sess = sess;
                    sess.apply_conn_event(e);
                    let _a = drv.step(Reply::EventApplied);
                    let outcome = drive_cycle(drv, &mut sess);
                    let ghost h = handle;
                    let ghost t0 = old(drv).table@;
                    let terminal = outcome.terminal;
                    drv.checkin(sess);
                    proof {
                        if !terminal {
                            assert(drv.table@.dom() =~= t0.dom());
                            assert(drv.table@.remove(h) =~= t0.remove(h));
                        }
                    }
                    DispatchOutcome::CycleRan { handle, outcome }
                },
            }
        },
    }
}

} // verus!
