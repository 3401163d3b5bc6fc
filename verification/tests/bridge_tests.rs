use transport_bridge::bridge::{
    CloseOutcome, FlushOutcome, QueueEvent, ReadEvent, TcpTransport, TcpTransportMessage,
    Termination,
};
use transport_bridge::drain::DrainSlot;
use transport_bridge::errors::{HostError, IoErrorKind};
use transport_bridge::machine::{poll_cycle, run, CycleOutcome, CycleScript, HostCall};

fn data(bytes: &[u8]) -> QueueEvent {
    QueueEvent::Msg(TcpTransportMessage::Bytes(bytes.to_vec()))
}

fn close() -> QueueEvent {
    QueueEvent::Msg(TcpTransportMessage::Close)
}

fn script(
    reads: Vec<ReadEvent>,
    queue: Vec<QueueEvent>,
    accepts: usize,
    flush: FlushOutcome,
) -> CycleScript {
    CycleScript { reads, queue, accepts, flush, close: CloseOutcome::Done }
}

fn count_terminal(trace: &[HostCall]) -> usize {
    trace
        .iter()
        .filter(|c| {
            matches!(c, HostCall::ConnectionLost) || matches!(c, HostCall::ConnectionError(_))
        })
        .count()
}

#[test]
fn inbound_chunks_are_delivered_in_wire_order() {
    let mut t = TcpTransport::new();
    let mut slot = DrainSlot::new();
    let (calls, sent, outcome) = poll_cycle(
        &mut t,
        &mut slot,
        script(
            vec![
                ReadEvent::Data(vec![1]),
                ReadEvent::Data(vec![2, 3]),
                ReadEvent::NotReady,
            ],
            vec![],
            0,
            FlushOutcome::Done,
        ),
    );
    assert_eq!(
        calls,
        vec![
            HostCall::DataReceived(vec![1]),
            HostCall::DataReceived(vec![2, 3])
        ]
    );
    assert!(sent.is_empty());
    assert_eq!(outcome, CycleOutcome::Pending);
}

#[test]
fn writes_reach_the_wire_in_enqueue_order_across_backpressure() {
    let mut t = TcpTransport::new();
    let mut slot = DrainSlot::new();
    // The socket accepts two chunks in the first cycle; the third is
    // buffered and retried before anything else in the second cycle.
    let (trace, wire) = run(
        &mut t,
        &mut slot,
        vec![
            script(
                vec![ReadEvent::NotReady],
                vec![data(&[1]), data(&[2]), data(&[3])],
                2,
                FlushOutcome::Pending,
            ),
            script(
                vec![ReadEvent::NotReady],
                vec![data(&[4])],
                2,
                FlushOutcome::Done,
            ),
        ],
    );
    assert_eq!(wire, vec![vec![1], vec![2], vec![3], vec![4]]);
    assert_eq!(count_terminal(&trace), 0);
}

#[test]
fn close_flushes_pending_writes_before_shutdown() {
    let mut t = TcpTransport::new();
    let mut slot = DrainSlot::new();
    let (trace, wire) = run(
        &mut t,
        &mut slot,
        vec![script(
            vec![ReadEvent::NotReady],
            vec![data(&[10]), data(&[20]), close()],
            8,
            FlushOutcome::Done,
        )],
    );
    assert_eq!(wire, vec![vec![10], vec![20]]);
    assert_eq!(*trace.last().unwrap(), HostCall::ConnectionLost);
    assert_eq!(count_terminal(&trace), 1);
}

#[test]
fn eof_with_nothing_pending_terminates_with_single_connection_lost() {
    let mut t = TcpTransport::new();
    let mut slot = DrainSlot::new();
    let (trace, wire) = run(
        &mut t,
        &mut slot,
        vec![script(vec![ReadEvent::Eof], vec![], 0, FlushOutcome::Done)],
    );
    assert!(wire.is_empty());
    assert_eq!(trace, vec![HostCall::ConnectionLost]);
}

#[test]
fn timeout_error_reaches_host_as_socket_timeout_exactly_once() {
    let mut t = TcpTransport::new();
    let mut slot = DrainSlot::new();
    let (trace, _wire) = run(
        &mut t,
        &mut slot,
        vec![script(
            vec![ReadEvent::Failed(IoErrorKind::TimedOut)],
            vec![],
            0,
            FlushOutcome::Done,
        )],
    );
    assert_eq!(
        trace,
        vec![HostCall::ConnectionError(HostError::SocketTimeout)]
    );
}

#[test]
fn non_timeout_error_reaches_host_as_os_error() {
    let mut t = TcpTransport::new();
    let mut slot = DrainSlot::new();
    let (trace, _wire) = run(
        &mut t,
        &mut slot,
        vec![script(
            vec![ReadEvent::NotReady],
            vec![QueueEvent::Broken(IoErrorKind::Other)],
            0,
            FlushOutcome::Done,
        )],
    );
    assert_eq!(
        trace,
        vec![HostCall::ConnectionError(HostError::OsError(
            IoErrorKind::Other
        ))]
    );
}

#[test]
fn double_close_behaves_like_single_close() {
    let mut once_t = TcpTransport::new();
    let mut once_slot = DrainSlot::new();
    let once = run(
        &mut once_t,
        &mut once_slot,
        vec![script(
            vec![ReadEvent::NotReady],
            vec![data(&[7]), close()],
            8,
            FlushOutcome::Done,
        )],
    );
    let mut twice_t = TcpTransport::new();
    let mut twice_slot = DrainSlot::new();
    let twice = run(
        &mut twice_t,
        &mut twice_slot,
        vec![script(
            vec![ReadEvent::NotReady],
            vec![data(&[7]), close(), close()],
            8,
            FlushOutcome::Done,
        )],
    );
    assert_eq!(once.0, twice.0);
    assert_eq!(once.1, twice.1);
}

#[test]
fn drain_resolves_only_after_the_flush_completes() {
    let mut t = TcpTransport::new();
    let mut slot = DrainSlot::new();
    // The host writes, then awaits a drain signal.
    let id = slot.drain();
    let (calls, sent, _) = poll_cycle(
        &mut t,
        &mut slot,
        script(
            vec![ReadEvent::NotReady],
            vec![data(&[1, 2, 3])],
            1,
            FlushOutcome::Pending,
        ),
    );
    // The chunk was accepted but the flush has not completed: the
    // signal must still be pending.
    assert_eq!(sent, vec![vec![1, 2, 3]]);
    assert!(calls.is_empty());
    let (calls, _, _) = poll_cycle(
        &mut t,
        &mut slot,
        script(vec![ReadEvent::NotReady], vec![], 1, FlushOutcome::Done),
    );
    assert_eq!(calls, vec![HostCall::Drained(id)]);
}

#[test]
fn drain_waits_for_a_refused_chunk_to_reach_the_socket() {
    let mut t = TcpTransport::new();
    let mut slot = DrainSlot::new();
    // The host writes, then awaits a drain signal; the socket refuses
    // the chunk. Even a completed flush must not resolve the drain
    // while the chunk still waits for retry.
    let id = slot.drain();
    let (calls, sent, _) = poll_cycle(
        &mut t,
        &mut slot,
        script(
            vec![ReadEvent::NotReady],
            vec![data(&[1])],
            0,
            FlushOutcome::Done,
        ),
    );
    assert!(sent.is_empty());
    assert!(calls.is_empty());
    // Next cycle the retry reaches the socket and the flush completes:
    // only now does the signal resolve.
    let (calls, sent, _) = poll_cycle(
        &mut t,
        &mut slot,
        script(vec![ReadEvent::NotReady], vec![], 1, FlushOutcome::Done),
    );
    assert_eq!(sent, vec![vec![1]]);
    assert_eq!(calls, vec![HostCall::Drained(id)]);
}

#[test]
fn drain_while_pending_is_the_same_signal_until_resolved() {
    let mut t = TcpTransport::new();
    let mut slot = DrainSlot::new();
    let first = slot.drain();
    let again = slot.drain();
    assert_eq!(first, again);
    let (calls, _, _) = poll_cycle(
        &mut t,
        &mut slot,
        script(
            vec![ReadEvent::NotReady],
            vec![data(&[9])],
            1,
            FlushOutcome::Done,
        ),
    );
    assert_eq!(calls, vec![HostCall::Drained(first)]);
    let fresh = slot.drain();
    assert_ne!(fresh, first);
}

#[test]
fn buffered_chunk_is_retried_first() {
    let mut t = TcpTransport::new();
    // The socket refuses the chunk: it must come back out first, ahead
    // of any further queue traffic.
    let mut slot = DrainSlot::new();
    let (_, sent, _) = poll_cycle(
        &mut t,
        &mut slot,
        script(
            vec![ReadEvent::NotReady],
            vec![data(&[5])],
            0,
            FlushOutcome::Pending,
        ),
    );
    assert!(sent.is_empty());
    let retried = t.take_buffered();
    assert_eq!(retried, Some(vec![5]));
}

#[test]
fn shutdown_is_retried_until_the_socket_completes_it() {
    let mut t = TcpTransport::new();
    let mut slot = DrainSlot::new();
    let (trace, wire) = run(
        &mut t,
        &mut slot,
        vec![
            CycleScript {
                reads: vec![ReadEvent::NotReady],
                queue: vec![data(&[1]), close()],
                accepts: 4,
                flush: FlushOutcome::Done,
                close: CloseOutcome::Pending,
            },
            CycleScript {
                reads: vec![ReadEvent::NotReady],
                queue: vec![],
                accepts: 0,
                flush: FlushOutcome::Done,
                close: CloseOutcome::Done,
            },
        ],
    );
    assert_eq!(wire, vec![vec![1]]);
    assert_eq!(*trace.last().unwrap(), HostCall::ConnectionLost);
    assert_eq!(count_terminal(&trace), 1);
}

#[test]
fn termination_yields_while_work_remains() {
    let t = TcpTransport::new();
    assert_eq!(t.termination_check(), Termination::Yield);
}
