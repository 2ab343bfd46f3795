use nspawn_runner::ids::Uuid;
use nspawn_runner::messages::StdioFd;
use nspawn_runner::streamer::{
    ProbeOutcome, ReadOutcome, StreamerAction, StreamerEvent, StreamerState,
};

fn j() -> Uuid {
    Uuid { bits: 0x00112233445566778899aabbccddeeffu128 }
}

#[test]
fn console_ordering_two_chunks() {
    // The container writes "A" to stdout and then "B" to stderr: two
    // chunks, at offsets 0 and 1, in that order.
    let mut st = StreamerState::new(j());
    let acts = st.handle_event(StreamerEvent::Read(
        StdioFd::Stdout,
        ReadOutcome::Data(b"A".to_vec()),
    ));
    assert_eq!(
        acts,
        vec![StreamerAction::SendConsoleLog {
            job_id: j(),
            start: 0,
            end: 1,
            fd: StdioFd::Stdout,
            bytes: b"A".to_vec(),
        }]
    );
    let acts = st.handle_event(StreamerEvent::Read(
        StdioFd::Stderr,
        ReadOutcome::Data(b"B".to_vec()),
    ));
    assert_eq!(
        acts,
        vec![StreamerAction::SendConsoleLog {
            job_id: j(),
            start: 1,
            end: 2,
            fd: StdioFd::Stderr,
            bytes: b"B".to_vec(),
        }]
    );
    assert_eq!(st.next_offset, 2);
}

#[test]
fn offsets_strictly_increase_across_streams() {
    let mut st = StreamerState::new(j());
    let mut seen: Vec<u64> = Vec::new();
    for (fd, data) in [
        (StdioFd::Stdout, b"one".to_vec()),
        (StdioFd::Stderr, b"two".to_vec()),
        (StdioFd::Stdout, b"three".to_vec()),
        (StdioFd::Stdout, b"four".to_vec()),
    ] {
        let acts = st.handle_event(StreamerEvent::Read(fd, ReadOutcome::Data(data)));
        for a in acts {
            if let StreamerAction::SendConsoleLog { start, end, .. } = a {
                assert_eq!(end, start + 1);
                seen.push(start);
            }
        }
    }
    for w in seen.windows(2) {
        assert!(w[0] < w[1]);
    }
}

#[test]
fn child_exit_triggers_detached_stop_and_streamer_keeps_running() {
    let mut st = StreamerState::new(j());
    let acts = st.handle_event(StreamerEvent::Read(StdioFd::Stdout, ReadOutcome::Closed));
    assert_eq!(acts, vec![StreamerAction::ProbeChild]);
    assert!(st.stdout_closed);
    assert!(!st.done);

    let acts = st.handle_event(StreamerEvent::Probe(ProbeOutcome::Exited));
    assert_eq!(acts, vec![StreamerAction::SpawnDetachedStop { job_id: j() }]);
    assert!(!st.done);

    // Stderr can still deliver data afterwards.
    let acts = st.handle_event(StreamerEvent::Read(
        StdioFd::Stderr,
        ReadOutcome::Data(b"tail".to_vec()),
    ));
    assert_eq!(acts.len(), 1);
    assert!(!st.done);
}

#[test]
fn probe_with_lock_held_changes_nothing() {
    let mut st = StreamerState::new(j());
    st.handle_event(StreamerEvent::Read(StdioFd::Stderr, ReadOutcome::Closed));
    let acts = st.handle_event(StreamerEvent::Probe(ProbeOutcome::LockUnavailable));
    assert!(acts.is_empty());
    let acts = st.handle_event(StreamerEvent::Probe(ProbeOutcome::Running));
    assert!(acts.is_empty());
    assert!(!st.done);
}

#[test]
fn streamer_exits_only_on_shutdown_command() {
    let mut st = StreamerState::new(j());
    st.handle_event(StreamerEvent::Read(StdioFd::Stdout, ReadOutcome::Closed));
    st.handle_event(StreamerEvent::Probe(ProbeOutcome::Exited));
    assert!(!st.done);
    let acts = st.handle_event(StreamerEvent::Shutdown);
    assert!(acts.is_empty());
    assert!(st.done);
}

#[test]
fn read_error_is_fatal() {
    let mut st = StreamerState::new(j());
    let acts = st.handle_event(StreamerEvent::Read(
        StdioFd::Stdout,
        ReadOutcome::ReadError("broken pipe".to_string()),
    ));
    assert_eq!(
        acts,
        vec![StreamerAction::Fatal {
            message: "Error reading process output: broken pipe".to_string(),
        }]
    );
}
