//! Model of one secure session as the dispatch core sees it: a synchronous,
//! non-blocking state machine holding queued egress, at most one timer
//! deadline, queued endpoint-scoped and application-scoped events, and the
//! incoming streams with their buffered bytes. The real engine is an outside
//! collaborator; the core's behaviour is verified against this model, and an
//! unverified shell answers the same queries from the real engine.

use vstd::prelude::*;

use crate::event::AppEvent;
use crate::event::Addr;
use crate::event::ConnEvent;
use crate::event::Datagram;
use crate::event::EndpointEvent;

verus! {

/// One incoming stream as the engine buffers it: the stream id and the data
/// chunks not yet read.
pub struct StreamBuf {
    pub id: u64,
    pub chunks: Vec<Vec<u8>>,
}

/// The per-session state the core may query. Engines assign stream ids in
/// ascending order, which is the well-formedness condition below.
pub struct EngineSession {
    /// The peer this session talks to.
    pub peer: Addr,
    /// Egress datagrams queued but not yet handed out, oldest first.
    pub transmits: Vec<Datagram>,
    /// The next timer deadline, if one is pending.
    pub timer: Option<u64>,
    /// Endpoint-scoped events not yet surfaced, oldest first.
    pub endpoint_events: Vec<EndpointEvent>,
    /// Application-scoped events not yet surfaced, oldest first.
    pub app_events: Vec<AppEvent>,
    /// Ids of incoming bidirectional streams not yet accepted, ascending.
    pub pending_streams: Vec<u64>,
    /// Buffered data of the streams this session knows, ids ascending.
    pub streams: Vec<StreamBuf>,
}

/// The bytes buffered for stream `id`, or the empty sequence when the
/// session knows no such stream.
pub open spec fn chunks_of(streams: Seq<StreamBuf>, id: u64) -> Seq<Vec<u8>>
    decreases streams.len(),
{
    if streams.len() == 0 {
        Seq::empty()
    } else if streams[0].id == id {
        streams[0].chunks@
    } else {
        chunks_of(streams.drop_first(), id)
    }
}

/// What a transmit query returns: the oldest queued datagram, if any.
pub open spec fn next_transmit_spec(s: EngineSession) -> Option<Datagram> {
    if s.transmits@.len() == 0 {
        None
    } else {
        Some(s.transmits@[0])
    }
}

/// The timeout decision: a deadline is due exactly when one is pending and
/// it has already elapsed at `now`.
pub open spec fn fire_decision(timer: Option<u64>, now: u64) -> Option<u64> {
    match timer {
        Some(d) => if d <= now {
            Some(d)
        } else {
            None
        },
        None => None,
    }
}

impl EngineSession {
    /// Stream ids, both pending and known, come in ascending order.
    pub open spec fn wf(self) -> bool {
        &&& forall|i: int, j: int|
            0 <= i < j < self.pending_streams@.len() ==> self.pending_streams@[i]
                < self.pending_streams@[j]
        &&& forall|i: int, j: int|
            0 <= i < j < self.streams@.len() ==> self.streams@[i].id < self.streams@[j].id
    }

    /// A fresh session for `peer` with nothing queued.
    pub fn new(peer: Addr) -> (s: EngineSession)
        ensures
            s.peer == peer,
            s.transmits@.len() == 0,
            s.timer is None,
            s.endpoint_events@.len() == 0,
            s.app_events@.len() == 0,
            s.pending_streams@.len() == 0,
            s.streams@.len() == 0,
            s.wf(),
    {
        EngineSession {
            peer,
            transmits: Vec::new(),
            timer: None,
            endpoint_events: Vec::new(),
            app_events: Vec::new(),
            pending_streams: Vec::new(),
            streams: Vec::new(),
        }
    }

    /// Hand out the oldest queued egress datagram, if any.
    pub fn next_transmit(&mut self) -> (r: Option<Datagram>)
        ensures
            r == next_transmit_spec(*old(self)),
            r is Some ==> final(self).transmits@ == old(self).transmits@.drop_first(),
            r is None ==> final(self).transmits@ == old(self).transmits@,
            final(self).peer == old(self).peer,
            final(self).timer == old(self).timer,
            final(self).endpoint_events == old(self).endpoint_events,
            final(self).app_events == old(self).app_events,
            final(self).pending_streams == old(self).pending_streams,
            final(self).streams == old(self).streams,
            old(self).wf() ==> final(self).wf(),
    {
        if self.transmits.len() == 0 {
            None
        } else {
            let d = self.transmits.remove(0);
            proof {
                assert(final(self).transmits@ =~= old(self).transmits@.drop_first());
            }
            Some(d)
        }
    }

    /// Report the pending timer deadline without consuming it.
    pub fn next_timer_deadline(&self) -> (r: Option<u64>)
        ensures
            r == self.timer,
    {
        self.timer
    }

    /// Deliver a due timeout to the session; the deadline is consumed.
    pub fn fire_timeout(&mut self, deadline: u64)
        requires
            old(self).timer == Some(deadline),
        ensures
            final(self).timer is None,
            final(self).peer == old(self).peer,
            final(self).transmits == old(self).transmits,
            final(self).endpoint_events == old(self).endpoint_events,
            final(self).app_events == old(self).app_events,
            final(self).pending_streams == old(self).pending_streams,
            final(self).streams == old(self).streams,
            old(self).wf() ==> final(self).wf(),
    {
        self.timer = None;
    }

    /// Surface the oldest endpoint-scoped event, if any.
    pub fn next_endpoint_event(&mut self) -> (r: Option<EndpointEvent>)
        ensures
            old(self).endpoint_events@.len() == 0 ==> r is None && final(self).endpoint_events@
                == old(self).endpoint_events@,
            old(self).endpoint_events@.len() > 0 ==> r == Some(old(self).endpoint_events@[0])
                && final(self).endpoint_events@ == old(self).endpoint_events@.drop_first(),
            final(self).peer == old(self).peer,
            final(self).transmits == old(self).transmits,
            final(self).timer == old(self).timer,
            final(self).app_events == old(self).app_events,
            final(self).pending_streams == old(self).pending_streams,
            final(self).streams == old(self).streams,
            old(self).wf() ==> final(self).wf(),
    {
        if self.endpoint_events.len() == 0 {
            None
        } else {
            let e = self.endpoint_events.remove(0);
            proof {
                assert(final(self).endpoint_events@ =~= old(self).endpoint_events@.drop_first());
            }
            Some(e)
        }
    }

    /// Apply a connection-scoped event: the egress it carries joins the
    /// transmit queue.
    pub fn apply_conn_event(&mut self, e: ConnEvent)
        ensures
            final(self).transmits@ == old(self).transmits@ + e.transmits@,
            final(self).peer == old(self).peer,
            final(self).timer == old(self).timer,
            final(self).endpoint_events == old(self).endpoint_events,
            final(self).app_events == old(self).app_events,
            final(self).pending_streams == old(self).pending_streams,
            final(self).streams == old(self).streams,
            old(self).wf() ==> final(self).wf(),
    {
        let mut t = e.transmits;
        self.transmits.append(&mut t);
    }

    /// Surface the oldest application-scoped event, if any.
    pub fn next_app_event(&mut self) -> (r: Option<AppEvent>)
        ensures
            old(self).app_events@.len() == 0 ==> r is None,
            old(self).app_events@.len() == 0 ==> final(self).app_events@ == old(self).app_events@,
            old(self).app_events@.len() > 0 ==> r == Some(old(self).app_events@[0]),
            old(self).app_events@.len() > 0 ==> final(self).app_events@ == old(self).app_events@.drop_first(),
            final(self).peer == old(self).peer,
            final(self).transmits == old(self).transmits,
            final(self).timer == old(self).timer,
            final(self).endpoint_events == old(self).endpoint_events,
            final(self).pending_streams == old(self).pending_streams,
            final(self).streams == old(self).streams,
            old(self).wf() ==> final(self).wf(),
    {
        if self.app_events.len() == 0 {
            None
        } else {
            let e = self.app_events.remove(0);
            proof {
                assert(final(self).app_events@ =~= old(self).app_events@.drop_first());
            }
            Some(e)
        }
    }

    /// Accept the next pending incoming bidirectional stream, if any.
    pub fn accept_bidi(&mut self) -> (r: Option<u64>)
        ensures
            old(self).pending_streams@.len() == 0 ==> r is None && final(self).pending_streams@
                == old(self).pending_streams@,
            old(self).pending_streams@.len() > 0 ==> r == Some(old(self).pending_streams@[0])
                && final(self).pending_streams@ == old(self).pending_streams@.drop_first(),
            final(self).peer == old(self).peer,
            final(self).transmits == old(self).transmits,
            final(self).timer == old(self).timer,
            final(self).endpoint_events == old(self).endpoint_events,
            final(self).app_events == old(self).app_events,
            final(self).streams == old(self).streams,
            old(self).wf() ==> final(self).wf(),
    {
        if self.pending_streams.len() == 0 {
            None
        } else {
            let id = self.pending_streams.remove(0);
            proof {
                assert(final(self).pending_streams@ =~= old(self).pending_streams@.drop_first());
            }
            Some(id)
        }
    }
}

/// `chunks_of` is decided by the first entry carrying `id`.
proof fn lemma_chunks_of_at(streams: Seq<StreamBuf>, id: u64, j: int)
    requires
        0 <= j < streams.len(),
        streams[j].id == id,
        forall|i: int| 0 <= i < j ==> streams[i].id != id,
    ensures
        chunks_of(streams, id) == streams[j].chunks@,
    decreases j,
{
    if j > 0 {
        lemma_chunks_of_at(streams.drop_first(), id, j - 1);
    }
}

/// A sequence with no entry for `id` buffers nothing for it.
proof fn lemma_chunks_of_absent(streams: Seq<StreamBuf>, id: u64)
    requires
        forall|i: int| 0 <= i < streams.len() ==> streams[i].id != id,
    ensures
        chunks_of(streams, id) == Seq::<Vec<u8>>::empty(),
    decreases streams.len(),
{
    if streams.len() > 0 {
        lemma_chunks_of_absent(streams.drop_first(), id);
    }
}

/// Replacing one entry by another with the same id leaves every other
/// stream's buffered bytes as they were.
proof fn lemma_chunks_of_update_other(streams: Seq<StreamBuf>, j: int, sb: StreamBuf, id2: u64)
    requires
        0 <= j < streams.len(),
        sb.id == streams[j].id,
        id2 != sb.id,
    ensures
        chunks_of(streams.update(j, sb), id2) == chunks_of(streams, id2),
    decreases streams.len(),
{
    let upd = streams.update(j, sb);
    if j == 0 {
        assert(upd.drop_first() =~= streams.drop_first());
    } else {
        assert(upd.drop_first() =~= streams.drop_first().update(j - 1, sb));
        lemma_chunks_of_update_other(streams.drop_first(), j - 1, sb, id2);
    }
}

impl EngineSession {
    /// Pull the next buffered chunk of stream `id`; `None` when the stream
    /// has no more data buffered right now.
    pub fn read_chunk(&mut self, id: u64) -> (r: Option<Vec<u8>>)
        ensures
            chunks_of(old(self).streams@, id).len() == 0 ==> r is None && final(self).streams@
                == old(self).streams@,
            chunks_of(old(self).streams@, id).len() > 0 ==> r == Some(
                chunks_of(old(self).streams@, id)[0],
            ) && chunks_of(final(self).streams@, id) == chunks_of(old(self).streams@,
                id,
            ).drop_first(),
            forall|id2: u64| id2 != id ==> chunks_of(final(self).streams@, id2) == chunks_of(
                old(self).streams@,
                id2,
            ),
            final(self).streams@.len() == old(self).streams@.len(),
            forall|i: int|
                0 <= i < old(self).streams@.len() ==> final(self).streams@[i].id == old(
                    self,
                ).streams@[i].id,
            final(self).peer == old(self).peer,
            final(self).transmits == old(self).transmits,
            final(self).timer == old(self).timer,
            final(self).endpoint_events == old(self).endpoint_events,
            final(self).app_events == old(self).app_events,
            final(self).pending_streams == old(self).pending_streams,
            old(self).wf() ==> final(self).wf(),
    {
        let n = self.streams.len();
        let mut j: usize = 0;
        while j < n && self.streams[j].id != id
            invariant
                j <= n,
                n == self.streams@.len(),
                forall|i: int| 0 <= i < j ==> self.streams@[i].id != id,
            decreases n - j,
        {
            j = j + 1;
        }
        if j == n {
            proof {
                lemma_chunks_of_absent(self.streams@, id);
            }
            None
        } else {
            proof {
                lemma_chunks_of_at(self.streams@, id, j as int);
            }
            let mut sb = self.streams.remove(j);
            let r = if sb.chunks.len() > 0 {
                let c = sb.chunks.remove(0);
                proof {
                    assert(sb.chunks@ =~= chunks_of(old(self).streams@, id).drop_first());
                }
                Some(c)
            } else {
                None
            };
            self.streams.insert(j, sb);
            proof {
                assert(final(self).streams@ =~= old(self).streams@.update(j as int, sb));
                lemma_chunks_of_at(final(self).streams@, id, j as int);
                assert forall|id2: u64| id2 != id implies chunks_of(final(self).streams@, id2)
                    == chunks_of(old(self).streams@, id2) by {
                    lemma_chunks_of_update_other(old(self).streams@, j as int, sb, id2);
                }
            }
            r
        }
    }
}

/// Forward an endpoint-scoped event of session `handle` to the endpoint;
/// the connection-scoped reply, if any, travels inside the event.
pub fn handle_endpoint_event(handle: u64, ev: EndpointEvent) -> (r: Option<ConnEvent>)
    ensures
        r == ev.reply,
{
    let _ = handle;
    ev.reply
}

} // verus!
