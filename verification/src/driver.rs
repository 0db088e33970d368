//! The dispatch side: the table of live sessions and its lifecycle. A
//! session is created when routing reports a new connection, checked out
//! (removed) for the one poll cycle a connection event triggers, and checked
//! back in under the same handle unless the cycle flagged it terminal — so a
//! session is never driven concurrently with itself, and a terminal session
//! is never reinserted. The table is generic in the session payload `S`: the
//! verified runner stores the model engine session, the unverified shell its
//! real engine state.

use std::collections::HashMap;

use vstd::prelude::*;

use crate::cycle::Action;
use crate::cycle::Cycle;
use crate::cycle::Reply;
use crate::cycle::cycle_steps_to;
use crate::cycle::reply_matches;

verus! {

broadcast use vstd::std_specs::hash::group_hash_axioms;

/// What the routing call of the engine reported for a datagram: a brand-new
/// session to adopt, or a connection-scoped event `E` for a known handle.
pub enum RouteKind<S, E> {
    NewSession(S),
    ConnEvent(E),
}

/// What the dispatch decided for one routed datagram.
pub enum Routed<S, E> {
    /// A connection event for a handle with no table entry: dropped
    /// silently, as an already-closed session.
    Ignored,
    /// The fresh session was adopted into the table.
    Inserted,
    /// A new-session report for a handle already tracked: dropped.
    AlreadyTracked,
    /// The session was checked out; run the poll cycle with the event.
    Begin(S, E),
}

/// The dispatch state: the session table and the one cycle in flight.
pub struct Driver<S> {
    pub table: HashMap<u64, S>,
    pub cyc: Cycle,
}

impl<S> Driver<S> {
    /// Between cycles the table owns every live session; during a cycle the
    /// checked-out handle is absent from the table.
    pub open spec fn wf(self) -> bool {
        &&& self.cyc.wf()
        &&& !(self.cyc.phase is Idle) ==> !self.table@.contains_key(self.cyc.handle)
    }

    /// No cycle is in flight.
    pub open spec fn is_idle(self) -> bool {
        self.cyc.phase is Idle
    }

    /// An empty table, idle.
    pub fn new() -> (d: Driver<S>)
        ensures
            d.wf(),
            d.is_idle(),
            d.table@ == Map::<u64, S>::empty(),
    {
        Driver { table: HashMap::new(), cyc: Cycle::idle() }
    }

    /// Whether a live session is resident under `handle`.
    pub fn is_tracked(&self, handle: u64) -> (b: bool)
        ensures
            b == self.table@.contains_key(handle),
    {
        self.table.contains_key(&handle)
    }

    /// How many live sessions are resident.
    pub fn tracked_count(&self) -> (n: usize)
        ensures
            n == self.table@.len(),
    {
        self.table.len()
    }

    /// Decide one routed datagram at time `now`. A new session is adopted
    /// only for an unseen handle; a connection event checks the session out
    /// and begins its poll cycle; an event for an unknown handle is dropped
    /// with nothing changed — in particular a datagram for a handle whose
    /// session ended is treated as unrouted.
    pub fn on_route<E>(&mut self, now: u64, handle: u64, kind: RouteKind<S, E>) -> (r: Routed<
        S,
        E,
    >)
        requires
            old(self).wf(),
            old(self).is_idle(),
        ensures
            final(self).wf(),
            kind matches RouteKind::NewSession(s) ==> {
                &&& !old(self).table@.contains_key(handle) ==> r is Inserted && final(self).table@
                    == old(self).table@.insert(handle, s) && final(self).is_idle()
                &&& old(self).table@.contains_key(handle) ==> r is AlreadyTracked
                    && final(self).table@ == old(self).table@ && final(self).is_idle()
            },
            kind matches RouteKind::ConnEvent(e) ==> {
                &&& !old(self).table@.contains_key(handle) ==> r is Ignored && final(self).table@
                    == old(self).table@ && final(self).is_idle()
                &&& old(self).table@.contains_key(handle) ==> {
                    &&& r matches Routed::Begin(s, e2) && s == old(self).table@[handle] && e2 == e
                    &&& final(self).table@ == old(self).table@.remove(handle)
                    &&& final(self).cyc.handle == handle
                    &&& final(self).cyc.now == now
                    &&& !final(self).cyc.fired
                    &&& !final(self).cyc.terminal
                    &&& final(self).cyc.streams@.len() == 0
                    &&& final(self).cyc.next_stream == 0
                    &&& final(self).cyc.phase is ApplyRoute
                }
            },
    {
        match kind {
            RouteKind::NewSession(s) => {
                if self.table.contains_key(&handle) {
                    Routed::AlreadyTracked
                } else {
                    self.table.insert(handle, s);
                    Routed::Inserted
                }
            },
            RouteKind::ConnEvent(e) => {
                match self.table.remove(&handle) {
                    Some(s) => {
                        self.cyc = Cycle::begin(handle, now);
                        Routed::Begin(s, e)
                    },
                    None => Routed::Ignored,
                }
            },
        }
    }

    /// Advance the in-flight cycle by one observation.
    pub fn step(&mut self, reply: Reply) -> (a: Action)
        requires
            old(self).wf(),
            !(old(self).cyc.phase is Idle),
            reply_matches(old(self).cyc.phase, reply),
        ensures
            final(self).wf(),
            final(self).table@ == old(self).table@,
            cycle_steps_to(old(self).cyc, reply, final(self).cyc, a),
    {
        self.cyc.step(reply)
    }

    /// End the cycle: check the session back in under the same handle, or
    /// discard it when the cycle flagged it terminal — a terminal session is
    /// never reinserted, and its handle is left untracked.
    pub fn checkin(&mut self, sess: S)
        requires
            old(self).wf(),
            old(self).cyc.phase is Done,
        ensures
            final(self).wf(),
            final(self).is_idle(),
            !old(self).cyc.terminal ==> final(self).table@ == old(self).table@.insert(
                old(self).cyc.handle,
                sess,
            ),
            old(self).cyc.terminal ==> final(self).table@ == old(self).table@
                && !final(self).table@.contains_key(old(self).cyc.handle),
    {
        if !self.cyc.terminal {
            let h = self.cyc.handle;
            self.table.insert(h, sess);
        }
        self.cyc = Cycle::idle();
    }
}

} // verus!
