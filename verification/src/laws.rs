//! The general guarantees of the core, stated and proved on their own, over
//! the same spec functions the executable contracts use: session-table
//! entries exist before any connection event for them is processed and a
//! new-session report never makes a second entry; a drained transmit queue
//! answers the next query with nothing; a timer never fires before its
//! deadline and at most once per cycle; only a lost connection makes a
//! cycle terminal; and the streams one cycle accepts come in ascending id
//! order.

use vstd::prelude::*;

use crate::cycle::Action;
use crate::cycle::Cycle;
use crate::cycle::Reply;
use crate::cycle::cycle_steps_to;
use crate::engine::EngineSession;
use crate::engine::fire_decision;
use crate::engine::next_transmit_spec;
use crate::runner::ascending;

verus! {

/// One routed input, as the dispatch decides it: a new-session report, or a
/// connection event whose poll cycle may end terminal.
pub enum RouteIn {
    New { handle: u64 },
    Event { handle: u64, terminal: bool },
}

/// The handles resident after a sequence of routed inputs, starting from an
/// empty table. This mirrors the dispatch decisions: a new session is
/// adopted (a duplicate report changes nothing), an event for an unknown
/// handle changes nothing, and a processed event removes its handle exactly
/// when the cycle flagged the session terminal.
pub open spec fn handles_after(inputs: Seq<RouteIn>) -> Set<u64>
    decreases inputs.len(),
{
    if inputs.len() == 0 {
        Set::empty()
    } else {
        let rest = handles_after(inputs.drop_last());
        match inputs.last() {
            RouteIn::New { handle } => rest.insert(handle),
            RouteIn::Event { handle, terminal } => if rest.contains(handle) && terminal {
                rest.remove(handle)
            } else {
                rest
            },
        }
    }
}

/// Law: one routed input moves the resident handles exactly as one
/// `dispatch` call moves the table's domain — a new session inserts its
/// handle (a no-op when resident), an event removes its handle exactly when
/// it was resident and the cycle ended terminal, and nothing else changes.
pub proof fn lemma_handles_after_step(inputs: Seq<RouteIn>, input: RouteIn)
    ensures
        handles_after(inputs.push(input)) == (match input {
            RouteIn::New { handle } => handles_after(inputs).insert(handle),
            RouteIn::Event { handle, terminal } => {
                if handles_after(inputs).contains(handle) && terminal {
                    handles_after(inputs).remove(handle)
                } else {
                    handles_after(inputs)
                }
            },
        }),
{
    let pushed = inputs.push(input);
    assert(pushed.drop_last() =~= inputs);
}

/// Law: a resident handle was adopted by an earlier new-session input — a
/// table entry is only ever created by a new-session report.
pub proof fn lemma_resident_handle_was_new(inputs: Seq<RouteIn>, handle: u64)
    requires
        handles_after(inputs).contains(handle),
    ensures
        exists|j: int| 0 <= j < inputs.len() && inputs[j] == (RouteIn::New { handle }),
    decreases inputs.len(),
{
    let n = inputs.len() as int;
    let rest = handles_after(inputs.drop_last());
    match inputs.last() {
        RouteIn::New { handle: h2 } => {
            if h2 == handle {
                assert(inputs[n - 1] == (RouteIn::New { handle }));
            } else {
                lemma_resident_handle_was_new(inputs.drop_last(), handle);
                let j = choose|j: int|
                    0 <= j < inputs.drop_last().len() && inputs.drop_last()[j] == (RouteIn::New {
                        handle,
                    });
                assert(inputs[j] == (RouteIn::New { handle }));
            }
        },
        RouteIn::Event { .. } => {
            lemma_resident_handle_was_new(inputs.drop_last(), handle);
            let j = choose|j: int|
                0 <= j < inputs.drop_last().len() && inputs.drop_last()[j] == (RouteIn::New {
                    handle,
                });
            assert(inputs[j] == (RouteIn::New { handle }));
        },
    }
}

/// Law: an entry is created before any connection event for its handle is
/// processed — if the handle is resident when input `i` arrives, some
/// earlier input was the new-session report for it.
pub proof fn lemma_entry_precedes_event(inputs: Seq<RouteIn>, i: int, handle: u64)
    requires
        0 <= i <= inputs.len(),
        handles_after(inputs.take(i)).contains(handle),
    ensures
        exists|j: int| 0 <= j < i && inputs[j] == (RouteIn::New { handle }),
{
    lemma_resident_handle_was_new(inputs.take(i), handle);
    let j = choose|j: int|
        0 <= j < inputs.take(i).len() && inputs.take(i)[j] == (RouteIn::New { handle });
    assert(inputs[j] == (RouteIn::New { handle }));
}

/// Law: exactly one entry per distinct handle — a second new-session report
/// for a resident handle leaves the resident handles as they were.
pub proof fn lemma_single_entry_per_handle(inputs: Seq<RouteIn>, handle: u64)
    requires
        handles_after(inputs).contains(handle),
    ensures
        handles_after(inputs.push(RouteIn::New { handle })) == handles_after(inputs),
{
    let pushed = inputs.push(RouteIn::New { handle });
    assert(pushed.drop_last() =~= inputs);
    assert(handles_after(pushed) =~= handles_after(inputs));
}

/// Law: a drained transmit queue is quiescent — after a drain emptied the
/// queue, an immediate further query for a pending transmit returns none.
pub proof fn lemma_transmit_drain_quiescent(s: EngineSession)
    requires
        s.transmits@.len() == 0,
    ensures
        next_transmit_spec(s) is None,
{
}

/// Law: the timeout decision never fires early — a deadline is due only
/// when the session reported it and it has elapsed at the current time.
pub proof fn lemma_fire_decision_never_early(timer: Option<u64>, now: u64)
    ensures
        fire_decision(timer, now) matches Some(d) ==> timer == Some(d) && d <= now,
{
}

/// Law: the cycle machine fires a timeout only for a deadline the session
/// just reported, never before that deadline has elapsed, and only when no
/// timeout was fired in this cycle yet.
pub proof fn lemma_timeout_never_early(pre: Cycle, r: Reply, post: Cycle, a: Action)
    requires
        cycle_steps_to(pre, r, post, a),
        a matches Action::FireTimeout { .. },
    ensures
        pre.phase is Timeout,
        r == (Reply::Deadline { deadline: Some(a->deadline) }),
        a->deadline <= pre.now,
        !pre.fired,
        post.fired,
{
}

/// Law: at most one timeout per cycle — once the cycle fired one, no step
/// ever fires another, and the fired mark never clears within the cycle.
pub proof fn lemma_timeout_at_most_once(pre: Cycle, r: Reply, post: Cycle, a: Action)
    requires
        cycle_steps_to(pre, r, post, a),
        pre.fired,
    ensures
        !(a matches Action::FireTimeout { .. }),
        post.fired,
{
}

/// Law: only a lost connection makes a cycle terminal — a step that turns
/// the terminal mark on is the consumption of a lost-connection event, or a
/// stream read error, which is surfaced as its equivalent; the mark never
/// clears within the cycle.
pub proof fn lemma_terminal_only_from_lost(pre: Cycle, r: Reply, post: Cycle, a: Action)
    requires
        cycle_steps_to(pre, r, post, a),
    ensures
        post.terminal && !pre.terminal ==> (pre.phase is App && r == (Reply::Event { lost: true }))
            || (pre.phase is Read && r is ChunkFailed),
        pre.terminal ==> post.terminal,
{
}

/// Law: a failed stream read ends the cycle terminal — the error is
/// surfaced as a connection-level outcome instead of crashing the loop or
/// vanishing.
pub proof fn lemma_read_failure_is_terminal(pre: Cycle, r: Reply, post: Cycle, a: Action)
    requires
        cycle_steps_to(pre, r, post, a),
        r is ChunkFailed,
    ensures
        post.terminal,
        post.phase is Done,
        a == (Action::Finish { terminal: true }),
{
}

/// Law: transmit drain stops at the first empty reply — in a drain phase
/// the machine keeps polling exactly while transmits keep coming, and
/// leaves the phase on the first empty observation. Termination therefore
/// rests only on the engine yielding finitely many transmits between
/// events, which the model states as a queue; `drain_phase` is proved to
/// terminate on it.
pub proof fn lemma_drain_stops_at_first_empty(pre: Cycle, r: Reply, post: Cycle, a: Action)
    requires
        cycle_steps_to(pre, r, post, a),
        pre.phase is Drain || pre.phase is Redrain,
    ensures
        r is TransmitTaken ==> post.phase == pre.phase && a == Action::PollTransmit,
        r is TransmitEmpty ==> !(post.phase is Drain) && !(post.phase is Redrain) && a
            != Action::PollTransmit,
{
}

/// Law: the streams one cycle accepts come in ascending id order — ids read
/// pointwise off a well-formed session's pending list are strictly
/// ascending.
pub proof fn lemma_reads_ascending(s: EngineSession, ids: Seq<u64>)
    requires
        s.wf(),
        ids.len() == s.pending_streams@.len(),
        forall|j: int| 0 <= j < ids.len() ==> ids[j] == s.pending_streams@[j],
    ensures
        ascending(ids),
{
    assert(ids =~= s.pending_streams@);
}

} // verus!
