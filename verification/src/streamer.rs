//! The console streamer's framing rules.
//!
//! One streamer task per job owns the container's standard output and
//! error pipes.  Its decisions live here: every non-empty chunk is
//! forwarded under a strictly monotonic chunk offset, a zero-length
//! read marks the stream closed and probes the child's liveness, a
//! detected exit triggers a *detached* stop (a direct call would
//! deadlock, since the stop awaits this very task), and the task
//! terminates only on an explicit shutdown command.

use vstd::prelude::*;

use crate::ids::Uuid;
use crate::messages::StdioFd;

verus! {

/// The streamer's state between two waits: which streams are still
/// open, the next chunk offset, and whether a shutdown command has
/// arrived.
#[derive(Clone, Copy, Debug, PartialEq, Eq, Structural)]
pub struct StreamerState {
    pub job_id: Uuid,
    pub stdout_closed: bool,
    pub stderr_closed: bool,
    pub next_offset: u64,
    pub done: bool,
}

/// What one read of a console stream produced.
pub enum ReadOutcome {
    Data(Vec<u8>),
    Closed,
    ReadError(String),
}

/// What the opportunistic liveness probe of the child found.
pub enum ProbeOutcome {
    LockUnavailable,
    Running,
    Exited,
    InspectError(String),
}

/// One wakeup of the streamer task.
pub enum StreamerEvent {
    Shutdown,
    ChannelClosed,
    Read(StdioFd, ReadOutcome),
    Probe(ProbeOutcome),
}

/// An effect the application must perform for the streamer.
#[derive(Debug, PartialEq, Eq)]
pub enum StreamerAction {
    SendConsoleLog { job_id: Uuid, start: u64, end: u64, fd: StdioFd, bytes: Vec<u8> },
    ProbeChild,
    SpawnDetachedStop { job_id: Uuid },
    Fatal { message: String },
}

/// One forwarded console chunk, as the coordinator sees it.
#[verifier::ext_equal]
pub struct ConsoleChunk {
    pub job_id: Uuid,
    pub offset: u64,
    pub fd: StdioFd,
    pub bytes: Seq<u8>,
}

/// The abstract content of a streamer action.
#[verifier::ext_equal]
pub enum StreamerActionView {
    Send(ConsoleChunk),
    ProbeChild,
    SpawnDetachedStop { job_id: Uuid },
    Fatal { message: Seq<char> },
}

pub open spec fn act_view(a: StreamerAction) -> StreamerActionView {
    match a {
        StreamerAction::SendConsoleLog { job_id, start, end, fd, bytes } => {
            StreamerActionView::Send(
                ConsoleChunk { job_id, offset: start, fd, bytes: bytes@ },
            )
        },
        StreamerAction::ProbeChild => StreamerActionView::ProbeChild,
        StreamerAction::SpawnDetachedStop { job_id } => {
            StreamerActionView::SpawnDetachedStop { job_id }
        },
        StreamerAction::Fatal { message } => StreamerActionView::Fatal { message: message@ },
    }
}

pub open spec fn acts_view(acts: Seq<StreamerAction>) -> Seq<StreamerActionView> {
    acts.map_values(|a: StreamerAction| act_view(a))
}

pub open spec fn channel_closed_msg_chars() -> Seq<char> {
    "Streamer command channel closed before shutdown!"@
}

pub open spec fn read_error_msg_chars(e: Seq<char>) -> Seq<char> {
    "Error reading process output: "@ + e
}

pub open spec fn probe_error_msg_chars(e: Seq<char>) -> Seq<char> {
    "Error while determining whether child exited: "@ + e
}

/// Which wakeups can happen: closed streams are no longer selected
/// on, data chunks are non-empty, and the chunk counter never wraps.
pub open spec fn streamer_admissible(s: StreamerState, ev: StreamerEvent) -> bool {
    &&& !s.done
    &&& match ev {
        StreamerEvent::Read(fd, outcome) => {
            &&& (fd == StdioFd::Stdout ==> !s.stdout_closed)
            &&& (fd == StdioFd::Stderr ==> !s.stderr_closed)
            &&& (outcome matches ReadOutcome::Data(b) ==> b@.len() > 0 && s.next_offset
                < u64::MAX)
        },
        _ => true,
    }
}

/// One decision of the streamer: the new state and the effects.
pub open spec fn spec_streamer_step(s: StreamerState, ev: StreamerEvent) -> (
    StreamerState,
    Seq<StreamerActionView>,
) {
    match ev {
        StreamerEvent::Shutdown => {
            (
                StreamerState {
                    job_id: s.job_id,
                    stdout_closed: s.stdout_closed,
                    stderr_closed: s.stderr_closed,
                    next_offset: s.next_offset,
                    done: true,
                },
                Seq::<StreamerActionView>::empty(),
            )
        },
        StreamerEvent::ChannelClosed => {
            (
                s,
                seq![StreamerActionView::Fatal { message: channel_closed_msg_chars() }],
            )
        },
        StreamerEvent::Read(fd, outcome) => {
            match outcome {
                ReadOutcome::Data(bytes) => {
                    (
                        StreamerState {
                            job_id: s.job_id,
                            stdout_closed: s.stdout_closed,
                            stderr_closed: s.stderr_closed,
                            next_offset: (s.next_offset + 1) as u64,
                            done: s.done,
                        },
                        seq![
                            StreamerActionView::Send(
                                ConsoleChunk {
                                    job_id: s.job_id,
                                    offset: s.next_offset,
                                    fd,
                                    bytes: bytes@,
                                },
                            ),
                        ],
                    )
                },
                ReadOutcome::Closed => {
                    (
                        StreamerState {
                            job_id: s.job_id,
                            stdout_closed: s.stdout_closed || fd == StdioFd::Stdout,
                            stderr_closed: s.stderr_closed || fd == StdioFd::Stderr,
                            next_offset: s.next_offset,
                            done: s.done,
                        },
                        seq![StreamerActionView::ProbeChild],
                    )
                },
                ReadOutcome::ReadError(e) => {
                    (
                        s,
                        seq![StreamerActionView::Fatal { message: read_error_msg_chars(e@) }],
                    )
                },
            }
        },
        StreamerEvent::Probe(outcome) => {
            match outcome {
                ProbeOutcome::Exited => {
                    (
                        s,
                        seq![StreamerActionView::SpawnDetachedStop { job_id: s.job_id }],
                    )
                },
                ProbeOutcome::InspectError(e) => {
                    (
                        s,
                        seq![
                            StreamerActionView::Fatal { message: probe_error_msg_chars(e@) },
                        ],
                    )
                },
                _ => (s, Seq::<StreamerActionView>::empty()),
            }
        },
    }
}

impl StreamerState {
    /// A fresh streamer for a job: both streams open, offsets from 0.
    pub fn new(job_id: Uuid) -> (s: Self)
        ensures
            s == (StreamerState {
                job_id,
                stdout_closed: false,
                stderr_closed: false,
                next_offset: 0u64,
                done: false,
            }),
    {
        StreamerState {
            job_id,
            stdout_closed: false,
            stderr_closed: false,
            next_offset: 0,
            done: false,
        }
    }

    /// Drive the streamer by one wakeup.
    pub fn handle_event(&mut self, ev: StreamerEvent) -> (acts: Vec<StreamerAction>)
        requires
            streamer_admissible(*old(self), ev),
        ensures
            *final(self) == spec_streamer_step(*old(self), ev).0,
            acts_view(acts@) == spec_streamer_step(*old(self), ev).1,
            forall|k: int|
                0 <= k < acts@.len() ==> ((#[trigger] acts@[k]) matches
                StreamerAction::SendConsoleLog { start, end, .. } ==> end == start + 1),
    {
        let mut acts: Vec<StreamerAction> = Vec::new();
        match ev {
            StreamerEvent::Shutdown => {
                self.done = true;
            },
            StreamerEvent::ChannelClosed => {
                proof {
                    reveal_strlit("Streamer command channel closed before shutdown!");
                }
                acts.push(StreamerAction::Fatal {
                    message: String::from_str(
                        "Streamer command channel closed before shutdown!",
                    ),
                });
            },
            StreamerEvent::Read(fd, outcome) => {
                match outcome {
                    ReadOutcome::Data(bytes) => {
                        let start = self.next_offset;
                        acts.push(StreamerAction::SendConsoleLog {
                            job_id: self.job_id,
                            start,
                            end: start + 1,
                            fd,
                            bytes,
                        });
                        self.next_offset = start + 1;
                    },
                    ReadOutcome::Closed => {
                        match fd {
                            StdioFd::Stdout => {
                                self.stdout_closed = true;
                            },
                            StdioFd::Stderr => {
                                self.stderr_closed = true;
                            },
                        }
                        acts.push(StreamerAction::ProbeChild);
                    },
                    ReadOutcome::ReadError(e) => {
                        proof {
                            reveal_strlit("Error reading process output: ");
                        }
                        let mut message = String::from_str("Error reading process output: ");
                        message.append(e.as_str());
                        acts.push(StreamerAction::Fatal { message });
                    },
                }
            },
            StreamerEvent::Probe(outcome) => {
                match outcome {
                    ProbeOutcome::Exited => {
                        acts.push(StreamerAction::SpawnDetachedStop { job_id: self.job_id });
                    },
                    ProbeOutcome::InspectError(e) => {
                        proof {
                            reveal_strlit("Error while determining whether child exited: ");
                        }
                        let mut message = String::from_str(
                            "Error while determining whether child exited: ",
                        );
                        message.append(e.as_str());
                        acts.push(StreamerAction::Fatal { message });
                    },
                    _ => {},
                }
            },
        }
        proof {
            assert(acts_view(acts@) =~~= spec_streamer_step(*old(self), ev).1);
        }
        acts
    }
}

// ---------------------------------------------------------------
// Streamer laws.
// ---------------------------------------------------------------

/// A whole run of the streamer over a sequence of wakeups.
pub open spec fn streamer_run(s: StreamerState, evs: Seq<StreamerEvent>) -> (
    StreamerState,
    Seq<StreamerActionView>,
)
    decreases evs.len(),
{
    if evs.len() == 0 {
        (s, Seq::<StreamerActionView>::empty())
    } else {
        let prefix = streamer_run(s, evs.drop_last());
        let step = spec_streamer_step(prefix.0, evs.last());
        (step.0, prefix.1 + step.1)
    }
}

/// Every wakeup of the run is admissible in the state it meets.
pub open spec fn run_admissible(s: StreamerState, evs: Seq<StreamerEvent>) -> bool
    decreases evs.len(),
{
    if evs.len() == 0 {
        true
    } else {
        run_admissible(s, evs.drop_last()) && streamer_admissible(
            streamer_run(s, evs.drop_last()).0,
            evs.last(),
        )
    }
}

/// The chunks forwarded by a list of streamer effects, in order.
pub open spec fn sends(acts: Seq<StreamerActionView>) -> Seq<ConsoleChunk>
    decreases acts.len(),
{
    if acts.len() == 0 {
        Seq::<ConsoleChunk>::empty()
    } else {
        sends(acts.drop_last()) + (match acts.last() {
            StreamerActionView::Send(c) => seq![c],
            _ => Seq::<ConsoleChunk>::empty(),
        })
    }
}

pub proof fn lemma_sends_concat(a: Seq<StreamerActionView>, b: Seq<StreamerActionView>)
    ensures
        sends(a + b) == sends(a) + sends(b),
    decreases b.len(),
{
    if b.len() == 0 {
        assert(a + b =~= a);
        assert(sends(b) =~= Seq::<ConsoleChunk>::empty());
        assert(sends(a) + sends(b) =~= sends(a));
    } else {
        lemma_sends_concat(a, b.drop_last());
        assert((a + b).drop_last() =~= a + b.drop_last());
        assert((a + b).last() == b.last());
        assert(sends(a + b) =~= sends(a) + sends(b));
    }
}

/// One step forwards at most one chunk; it carries the state's
/// counter as its offset, and the counter only ever grows.
pub proof fn lemma_step_offsets(st: StreamerState, ev: StreamerEvent)
    requires
        streamer_admissible(st, ev),
    ensures
        ({
            let (s2, acts) = spec_streamer_step(st, ev);
            &&& s2.next_offset >= st.next_offset
            &&& s2.job_id == st.job_id
            &&& sends(acts).len() <= 1
            &&& forall|k: int|
                0 <= k < sends(acts).len() ==> st.next_offset <= (
                #[trigger] sends(acts)[k]).offset < s2.next_offset
        }),
{
    let (s2, acts) = spec_streamer_step(st, ev);
    if acts.len() > 0 {
        assert(acts.drop_last() =~= Seq::<StreamerActionView>::empty());
        assert(sends(acts.drop_last()) =~= Seq::<ConsoleChunk>::empty());
    } else {
        assert(acts =~= Seq::<StreamerActionView>::empty());
        assert(sends(acts) =~= Seq::<ConsoleChunk>::empty());
    }
}

/// Over a whole run, the offset counter never decreases, every
/// forwarded chunk's offset lies between the starting counter and the
/// final one, and the offsets are strictly increasing in emission
/// order: each chunk's offset is strictly greater than those of all
/// chunks before it.
pub proof fn lemma_console_offsets_monotonic(s: StreamerState, evs: Seq<StreamerEvent>)
    requires
        run_admissible(s, evs),
    ensures
        streamer_run(s, evs).0.next_offset >= s.next_offset,
        streamer_run(s, evs).0.job_id == s.job_id,
        forall|k: int|
            0 <= k < sends(streamer_run(s, evs).1).len() ==> s.next_offset <= (
            #[trigger] sends(streamer_run(s, evs).1)[k]).offset
                < streamer_run(s, evs).0.next_offset,
        forall|i: int, j: int|
            0 <= i < j < sends(streamer_run(s, evs).1).len() ==> sends(streamer_run(s, evs).1)[i].offset
                < sends(streamer_run(s, evs).1)[j].offset,
    decreases evs.len(),
{
    if evs.len() > 0 {
        lemma_console_offsets_monotonic(s, evs.drop_last());
        let prefix = streamer_run(s, evs.drop_last());
        let step = spec_streamer_step(prefix.0, evs.last());
        lemma_step_offsets(prefix.0, evs.last());
        lemma_sends_concat(prefix.1, step.1);
        let cnew = sends(streamer_run(s, evs).1);
        let cold = sends(prefix.1);
        let cstep = sends(step.1);
        assert(cnew =~= cold + cstep);
        assert forall|k: int|
            0 <= k < cnew.len() implies s.next_offset <= (#[trigger] cnew[k]).offset
            < streamer_run(s, evs).0.next_offset by {
            if k < cold.len() {
                assert(cnew[k] == cold[k]);
            } else {
                assert(cnew[k] == cstep[k - cold.len()]);
            }
        }
        assert forall|i: int, j: int|
            0 <= i < j < cnew.len() implies cnew[i].offset < cnew[j].offset by {
            if j < cold.len() {
                assert(cnew[i] == cold[i] && cnew[j] == cold[j]);
            } else {
                assert(cnew[j] == cstep[j - cold.len()]);
                assert(cnew[j].offset >= prefix.0.next_offset);
                if i < cold.len() {
                    assert(cnew[i] == cold[i]);
                    assert(cnew[i].offset < prefix.0.next_offset);
                } else {
                    assert(i == j);
                }
            }
        }
    }
}

/// The streamer terminates only upon the explicit shutdown command;
/// in particular, detecting the child's exit does not end the task.
pub proof fn lemma_exit_only_on_shutdown(s: StreamerState, ev: StreamerEvent)
    requires
        streamer_admissible(s, ev),
        spec_streamer_step(s, ev).0.done,
    ensures
        ev is Shutdown,
{
}

/// When a stream closes and the child turns out to have exited, the
/// streamer spawns a detached stop for its job and keeps running.
pub proof fn lemma_exit_detection_detached(s: StreamerState, fd: StdioFd)
    requires
        streamer_admissible(s, StreamerEvent::Read(fd, ReadOutcome::Closed)),
    ensures
        ({
            let (s1, acts1) = spec_streamer_step(s, StreamerEvent::Read(fd, ReadOutcome::Closed));
            let (s2, acts2) = spec_streamer_step(s1, StreamerEvent::Probe(ProbeOutcome::Exited));
            &&& acts1 == seq![StreamerActionView::ProbeChild]
            &&& acts2 == seq![StreamerActionView::SpawnDetachedStop { job_id: s.job_id }]
            &&& !s2.done
            &&& s2.next_offset == s.next_offset
        }),
{
}

} // verus!
