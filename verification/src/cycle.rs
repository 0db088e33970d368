//! The per-session poll cycle as an explicit state machine. One cycle runs
//! in a fixed order — transmit drain, timeout check, endpoint-event
//! propagation (with a re-drain when it produced a connection event),
//! application-event consumption, stream acceptance and drain — and that
//! order is a contract: [`cycle_steps_to`] is the whole transition relation,
//! and [`Cycle::step`] is proved to follow it. The shell that owns the real
//! engine performs one [`Action`] at a time and hands the observation back
//! as a [`Reply`].

use vstd::prelude::*;

verus! {

/// Where in the fixed order a cycle stands. `Idle` is between cycles;
/// `Done` is after the last step, awaiting checkin of the session.
#[derive(Clone, Copy, PartialEq, Eq, Structural, Debug)]
pub enum Phase {
    Idle,
    ApplyRoute,
    Drain,
    Timeout,
    Firing,
    EndpointAsk,
    EndpointForward,
    ApplyProp,
    Redrain,
    App,
    Accept,
    Read,
    Done,
}

/// What the shell observed when it performed the last action.
pub enum Reply {
    /// The connection-scoped event was applied to the session.
    EventApplied,
    /// A queued datagram was produced (and sent to the peer).
    TransmitTaken,
    /// The transmit queue was empty.
    TransmitEmpty,
    /// The session's pending timer deadline, if any.
    Deadline { deadline: Option<u64> },
    /// The due timeout was delivered to the session.
    Fired,
    /// Whether the session surfaced an endpoint-scoped event.
    EndpointSurfaced { present: bool },
    /// Whether the endpoint answered with a connection-scoped event.
    EndpointReplied { present: bool },
    /// Whether the application event popped from the session, if any, was
    /// the terminal one (connection lost).
    Event { lost: bool },
    /// The id of the accepted incoming stream, if one was pending.
    Accepted { id: Option<u64> },
    /// Whether the stream being read yielded one more chunk.
    Chunk { more: bool },
    /// The stream being read reported a read or framing error. The machine
    /// surfaces it as a connection-level outcome: the cycle finishes
    /// terminal, as if the connection were lost.
    ChunkFailed,
}

/// What the shell must do next.
pub enum Action {
    /// Ask the session for the next queued datagram and send it.
    PollTransmit,
    /// Ask the session for its next timer deadline.
    PollTimer,
    /// Deliver the elapsed deadline to the session, exactly once.
    FireTimeout { deadline: u64 },
    /// Ask the session for an endpoint-scoped event.
    PollEndpointEvent,
    /// Forward the surfaced endpoint event to the endpoint.
    ForwardEndpointEvent,
    /// Apply the connection event the endpoint handed back.
    ApplyConnEvent,
    /// Pop one application event from the session.
    PollAppEvent,
    /// Ask the session for the next pending incoming stream.
    AcceptStream,
    /// Pull the next buffered chunk of the given stream.
    ReadChunk { stream: u64 },
    /// The cycle is over: reinsert the session, or discard it if terminal.
    Finish { terminal: bool },
}

/// One cycle's state: the handle and timestamp it runs for, whether a
/// timeout was fired, whether the session turned terminal, and the stream
/// ids collected for the read phase.
pub struct Cycle {
    pub handle: u64,
    pub now: u64,
    pub fired: bool,
    pub terminal: bool,
    pub streams: Vec<u64>,
    pub next_stream: usize,
    pub phase: Phase,
}

/// Which reply answers which phase's action.
pub open spec fn reply_matches(p: Phase, r: Reply) -> bool {
    match p {
        Phase::Idle => false,
        Phase::ApplyRoute => r is EventApplied,
        Phase::Drain => r is TransmitTaken || r is TransmitEmpty,
        Phase::Timeout => r is Deadline,
        Phase::Firing => r is Fired,
        Phase::EndpointAsk => r is EndpointSurfaced,
        Phase::EndpointForward => r is EndpointReplied,
        Phase::ApplyProp => r is EventApplied,
        Phase::Redrain => r is TransmitTaken || r is TransmitEmpty,
        Phase::App => r is Event,
        Phase::Accept => r is Accepted,
        Phase::Read => r is Chunk || r is ChunkFailed,
        Phase::Done => false,
    }
}

/// The fields a step never touches.
pub open spec fn same_cycle(pre: Cycle, post: Cycle) -> bool {
    post.handle == pre.handle && post.now == pre.now
}

/// All fields but the phase stay as they were.
pub open spec fn keeps_rest(pre: Cycle, post: Cycle) -> bool {
    &&& post.fired == pre.fired
    &&& post.terminal == pre.terminal
    &&& post.streams@ == pre.streams@
    &&& post.next_stream == pre.next_stream
}

/// The whole transition relation of the poll cycle: from the phase of
/// `pre` and the reply to its action, the next state and the next action.
pub open spec fn cycle_steps_to(pre: Cycle, r: Reply, post: Cycle, a: Action) -> bool {
    &&& same_cycle(pre, post)
    &&& match (pre.phase, r) {
        (Phase::ApplyRoute, Reply::EventApplied) => {
            &&& keeps_rest(pre, post)
            &&& post.phase is Drain
            &&& a == Action::PollTransmit
        },
        (Phase::Drain, Reply::TransmitTaken) => {
            &&& keeps_rest(pre, post)
            &&& post.phase is Drain
            &&& a == Action::PollTransmit
        },
        (Phase::Drain, Reply::TransmitEmpty) => {
            &&& keeps_rest(pre, post)
            &&& post.phase is Timeout
            &&& a == Action::PollTimer
        },
        (Phase::Timeout, Reply::Deadline { deadline }) => {
            if deadline matches Some(d) && d <= pre.now && !pre.fired {
                &&& post.fired
                &&& post.terminal == pre.terminal
                &&& post.streams@ == pre.streams@
                &&& post.next_stream == pre.next_stream
                &&& post.phase is Firing
                &&& deadline matches Some(d2) && a == Action::FireTimeout { deadline: d2 }
            } else {
                &&& keeps_rest(pre, post)
                &&& post.phase is EndpointAsk
                &&& a == Action::PollEndpointEvent
            }
        },
        (Phase::Firing, Reply::Fired) => {
            &&& keeps_rest(pre, post)
            &&& post.phase is EndpointAsk
            &&& a == Action::PollEndpointEvent
        },
        (Phase::EndpointAsk, Reply::EndpointSurfaced { present }) => {
            &&& keeps_rest(pre, post)
            &&& if present {
                post.phase is EndpointForward && a == Action::ForwardEndpointEvent
            } else {
                post.phase is App && a == Action::PollAppEvent
            }
        },
        (Phase::EndpointForward, Reply::EndpointReplied { present }) => {
            &&& keeps_rest(pre, post)
            &&& if present {
                post.phase is ApplyProp && a == Action::ApplyConnEvent
            } else {
                post.phase is App && a == Action::PollAppEvent
            }
        },
        (Phase::ApplyProp, Reply::EventApplied) => {
            &&& keeps_rest(pre, post)
            &&& post.phase is Redrain
            &&& a == Action::PollTransmit
        },
        (Phase::Redrain, Reply::TransmitTaken) => {
            &&& keeps_rest(pre, post)
            &&& post.phase is Redrain
            &&& a == Action::PollTransmit
        },
        (Phase::Redrain, Reply::TransmitEmpty) => {
            &&& keeps_rest(pre, post)
            &&& post.phase is App
            &&& a == Action::PollAppEvent
        },
        (Phase::App, Reply::Event { lost }) => {
            &&& post.fired == pre.fired
            &&& post.streams@ == pre.streams@
            &&& post.next_stream == pre.next_stream
            &&& post.terminal == (pre.terminal || lost)
            &&& post.phase is Accept
            &&& a == Action::AcceptStream
        },
        (Phase::Accept, Reply::Accepted { id }) => {
            match id {
                Some(s) => {
                    &&& post.fired == pre.fired
                    &&& post.terminal == pre.terminal
                    &&& post.streams@ == pre.streams@.push(s)
                    &&& post.next_stream == pre.next_stream
                    &&& post.phase is Accept
                    &&& a == Action::AcceptStream
                },
                None => {
                    &&& post.fired == pre.fired
                    &&& post.terminal == pre.terminal
                    &&& post.streams@ == pre.streams@
                    &&& if pre.streams@.len() == 0 {
                        &&& post.phase is Done
                        &&& post.next_stream == pre.next_stream
                        &&& a == Action::Finish { terminal: pre.terminal }
                    } else {
                        &&& post.phase is Read
                        &&& post.next_stream == 0
                        &&& a == Action::ReadChunk { stream: pre.streams@[0] }
                    }
                },
            }
        },
        (Phase::Read, Reply::ChunkFailed) => {
            &&& post.fired == pre.fired
            &&& post.terminal == true
            &&& post.streams@ == pre.streams@
            &&& post.next_stream == pre.next_stream
            &&& post.phase is Done
            &&& a == Action::Finish { terminal: true }
        },
        (Phase::Read, Reply::Chunk { more }) => {
            &&& post.fired == pre.fired
            &&& post.terminal == pre.terminal
            &&& post.streams@ == pre.streams@
            &&& if more {
                &&& post.next_stream == pre.next_stream
                &&& post.phase is Read
                &&& a == Action::ReadChunk { stream: pre.streams@[pre.next_stream as int] }
            } else {
                &&& post.next_stream == pre.next_stream + 1
                &&& if pre.next_stream + 1 < pre.streams@.len() {
                    &&& post.phase is Read
                    &&& a == Action::ReadChunk {
                        stream: pre.streams@[pre.next_stream as int + 1],
                    }
                } else {
                    &&& post.phase is Done
                    &&& a == Action::Finish { terminal: pre.terminal }
                }
            }
        },
        _ => false,
    }
}

impl Cycle {
    /// The read phase always points at a collected stream.
    pub open spec fn wf(self) -> bool {
        &&& self.next_stream <= self.streams@.len()
        &&& self.phase is Read ==> self.next_stream < self.streams@.len()
    }

    /// The resting state before any cycle has run.
    pub fn idle() -> (c: Cycle)
        ensures
            c.phase is Idle,
            c.wf(),
    {
        Cycle {
            handle: 0,
            now: 0,
            fired: false,
            terminal: false,
            streams: Vec::new(),
            next_stream: 0,
            phase: Phase::Idle,
        }
    }

    /// Start a cycle for `handle` at time `now`, at the routed-event step.
    pub fn begin(handle: u64, now: u64) -> (c: Cycle)
        ensures
            c.handle == handle,
            c.now == now,
            !c.fired,
            !c.terminal,
            c.streams@.len() == 0,
            c.next_stream == 0,
            c.phase is ApplyRoute,
            c.wf(),
    {
        Cycle {
            handle,
            now,
            fired: false,
            terminal: false,
            streams: Vec::new(),
            next_stream: 0,
            phase: Phase::ApplyRoute,
        }
    }

    /// Advance the cycle by one observation; the result is the next action.
    pub fn step(&mut self, reply: Reply) -> (a: Action)
        requires
            old(self).wf(),
            reply_matches(old(self).phase, reply),
        ensures
            final(self).wf(),
            cycle_steps_to(*old(self), reply, *final(self), a),
    {
        match (self.phase, reply) {
            (Phase::ApplyRoute, Reply::EventApplied) => {
                self.phase = Phase::Drain;
                Action::PollTransmit
            },
            (Phase::Drain, Reply::TransmitTaken) => Action::PollTransmit,
            (Phase::Drain, Reply::TransmitEmpty) => {
                self.phase = Phase::Timeout;
                Action::PollTimer
            },
            (Phase::Timeout, Reply::Deadline { deadline }) => {
                match deadline {
                    Some(d) if d <= self.now && !self.fired => {
                        self.fired = true;
                        self.phase = Phase::Firing;
                        Action::FireTimeout { deadline: d }
                    },
                    _ => {
                        self.phase = Phase::EndpointAsk;
                        Action::PollEndpointEvent
                    },
                }
            },
            (Phase::Firing, Reply::Fired) => {
                self.phase = Phase::EndpointAsk;
                Action::PollEndpointEvent
            },
            (Phase::EndpointAsk, Reply::EndpointSurfaced { present }) => {
                if present {
                    self.phase = Phase::EndpointForward;
                    Action::ForwardEndpointEvent
                } else {
                    self.phase = Phase::App;
                    Action::PollAppEvent
                }
            },
            (Phase::EndpointForward, Reply::EndpointReplied { present }) => {
                if present {
                    self.phase = Phase::ApplyProp;
                    Action::ApplyConnEvent
                } else {
                    self.phase = Phase::App;
                    Action::PollAppEvent
                }
            },
            (Phase::ApplyProp, Reply::EventApplied) => {
                self.phase = Phase::Redrain;
                Action::PollTransmit
            },
            (Phase::Redrain, Reply::TransmitTaken) => Action::PollTransmit,
            (Phase::Redrain, Reply::TransmitEmpty) => {
                self.phase = Phase::App;
                Action::PollAppEvent
            },
            (Phase::App, Reply::Event { lost }) => {
                self.terminal = self.terminal || lost;
                self.phase = Phase::Accept;
                Action::AcceptStream
            },
            (Phase::Accept, Reply::Accepted { id }) => {
                match id {
                    Some(s) => {
                        self.streams.push(s);
                        Action::AcceptStream
                    },
                    None => {
                        if self.streams.len() == 0 {
                            self.phase = Phase::Done;
                            Action::Finish { terminal: self.terminal }
                        } else {
                            self.next_stream = 0;
                            self.phase = Phase::Read;
                            let first = self.streams[0];
                            Action::ReadChunk { stream: first }
                        }
                    },
                }
            },
            (Phase::Read, Reply::ChunkFailed) => {
                self.terminal = true;
                self.phase = Phase::Done;
                Action::Finish { terminal: true }
            },
            (Phase::Read, Reply::Chunk { more }) => {
                if more {
                    let cur = self.streams[self.next_stream];
                    Action::ReadChunk { stream: cur }
                } else {
                    let n = self.streams.len();
                    self.next_stream = self.next_stream + 1;
                    if self.next_stream < n {
                        let cur = self.streams[self.next_stream];
                        Action::ReadChunk { stream: cur }
                    } else {
                        self.phase = Phase::Done;
                        Action::Finish { terminal: self.terminal }
                    }
                }
            },
            _ => {
                proof {
                    assert(false);
                }
                Action::PollTransmit
            },
        }
    }
}

} // verus!
