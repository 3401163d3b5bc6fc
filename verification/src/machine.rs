//! The bridge task, whole: one verified poll cycle over scripted readiness
//! events, and a verified driver loop that repeats cycles until the task
//! ends and then delivers the terminal host callback exactly once.
//!
//! A script is the sequence of answers the reactor's socket and the
//! outbound queue would give during one cycle: what each read returned,
//! what each queue poll returned, how many chunks the socket accepts
//! before refusing, what the flush reported, and whether a requested
//! shutdown completed. Running the machine over scripts is exactly the
//! poll loop of the live system with the I/O factored out, so everything
//! proved here holds of every schedule the reactor could produce.

use vstd::prelude::*;

use crate::bridge::{
    buf_view, CloseOutcome, FlushOutcome, FlushStep, InboundStep, OutboundStep, QueueEvent,
    ReadEvent, SendOutcome, SendStep, TcpTransport, TcpTransportMessage, Termination,
};
use crate::drain::DrainSlot;
use crate::errors::{classify, classify_error, HostError, IoErrorKind};

verus! {

/// One invocation of a host callback, in the order the bridge issues them.
#[derive(Debug, PartialEq, Eq)]
pub enum HostCall {
    /// `data_received` with one decoded inbound chunk.
    DataReceived(Vec<u8>),
    /// The pending drain signal with this identity was resolved.
    Drained(u64),
    /// `connection_lost` with no error: clean termination.
    ConnectionLost,
    /// `connection_lost` with a classified error: failed termination.
    ConnectionError(HostError),
}

/// Whether a callback ends the connection's life.
pub open spec fn is_terminal(c: HostCall) -> bool {
    c is ConnectionLost || c is ConnectionError
}

/// The chunks a read script yields before its first non-data answer:
/// what one inbound phase delivers to the host, in wire order.
pub open spec fn delivered(reads: Seq<ReadEvent>) -> Seq<Seq<u8>>
    decreases reads.len(),
{
    if reads.len() == 0 {
        Seq::empty()
    } else {
        match reads[0] {
            ReadEvent::Data(b) => seq![b@] + delivered(reads.skip(1)),
            _ => Seq::empty(),
        }
    }
}

/// The payloads carried by the `data_received` calls of a trace, in order.
pub open spec fn datas_of(calls: Seq<HostCall>) -> Seq<Seq<u8>>
    decreases calls.len(),
{
    if calls.len() == 0 {
        Seq::empty()
    } else {
        match calls[0] {
            HostCall::DataReceived(b) => seq![b@] + datas_of(calls.skip(1)),
            _ => datas_of(calls.skip(1)),
        }
    }
}

/// What appending one call does to the delivered payloads.
proof fn lemma_datas_of_push(calls: Seq<HostCall>, c: HostCall)
    ensures
        datas_of(calls.push(c)) == datas_of(calls) + (match c {
            HostCall::DataReceived(b) => seq![b@],
            _ => Seq::<Seq<u8>>::empty(),
        }),
    decreases calls.len(),
{
    let tail = match c {
        HostCall::DataReceived(b) => seq![b@],
        _ => Seq::<Seq<u8>>::empty(),
    };
    if calls.len() == 0 {
        assert(calls.push(c)[0] == c);
        assert(calls.push(c).skip(1) =~= Seq::<HostCall>::empty());
        assert(datas_of(Seq::<HostCall>::empty()) == Seq::<Seq<u8>>::empty());
        match c {
            HostCall::DataReceived(b) => {
                assert(datas_of(calls.push(c)) == seq![b@] + Seq::<Seq<u8>>::empty());
                assert(seq![b@] + Seq::<Seq<u8>>::empty() =~= Seq::<Seq<u8>>::empty() + seq![b@]);
            },
            _ => {
                assert(Seq::<Seq<u8>>::empty() + Seq::<Seq<u8>>::empty() =~= Seq::<
                    Seq<u8>,
                >::empty());
            },
        }
    } else {
        assert(calls.push(c)[0] == calls[0]);
        assert(calls.push(c).skip(1) =~= calls.skip(1).push(c));
        lemma_datas_of_push(calls.skip(1), c);
        match calls[0] {
            HostCall::DataReceived(b) => {
                assert(datas_of(calls.push(c)) == seq![b@] + (datas_of(calls.skip(1)) + tail));
                assert(seq![b@] + (datas_of(calls.skip(1)) + tail) =~= (seq![b@] + datas_of(
                    calls.skip(1),
                )) + tail);
            },
            _ => {},
        }
    }
}

/// The byte sequences a list of chunks holds, in order.
pub open spec fn views_of(s: Seq<Vec<u8>>) -> Seq<Seq<u8>> {
    s.map_values(|v: Vec<u8>| v@)
}

/// Appending no chunks appends no payloads.
proof fn lemma_views_of_empty(a: Seq<Seq<u8>>)
    ensures
        a + views_of(Seq::<Vec<u8>>::empty()) == a,
{
    assert(a + views_of(Seq::<Vec<u8>>::empty()) =~= a);
}

/// Whether the inbound phase of one cycle hits end of stream: data
/// answers are consumed until the first other answer, and only an `Eof`
/// there sets the sticky flag.
pub open spec fn reads_eof(reads: Seq<ReadEvent>) -> bool
    decreases reads.len(),
{
    if reads.len() == 0 {
        false
    } else {
        match reads[0] {
            ReadEvent::Data(_) => reads_eof(reads.skip(1)),
            ReadEvent::Eof => true,
            _ => false,
        }
    }
}

/// The native error the inbound phase fails with, if any.
pub open spec fn reads_fail(reads: Seq<ReadEvent>) -> Option<IoErrorKind>
    decreases reads.len(),
{
    if reads.len() == 0 {
        None
    } else {
        match reads[0] {
            ReadEvent::Data(_) => reads_fail(reads.skip(1)),
            ReadEvent::Failed(k) => Some(k),
            _ => None,
        }
    }
}

/// What one outbound phase does: which payloads it dequeues and which the
/// socket accepts (in order), what stays buffered for retry, whether a
/// close request or a queue failure was observed, and whether any chunk
/// was handed to the socket at all (clearing the `flushed` flag).
pub struct OutboundSpec {
    /// Payloads the socket accepted this phase, in order, the retried
    /// buffered chunk first.
    pub sent: Seq<Seq<u8>>,
    /// Payloads dequeued from the queue this phase, in order.
    pub deq: Seq<Seq<u8>>,
    /// The payload left buffered for retry, if the socket refused one.
    pub buf: Option<Seq<u8>>,
    /// A close request was observed.
    pub closing: bool,
    /// The queue failed with this native error.
    pub fail: Option<IoErrorKind>,
    /// Some chunk was handed to the socket's write path.
    pub touched: bool,
}

/// An outbound phase in which nothing happened.
pub open spec fn outbound_idle() -> OutboundSpec {
    OutboundSpec {
        sent: Seq::empty(),
        deq: Seq::empty(),
        buf: None,
        closing: false,
        fail: None,
        touched: false,
    }
}

/// Draining the queue alone: each data payload is dequeued in FIFO order
/// and accepted while the socket has capacity; the first refused payload
/// is buffered and stops the phase, as do a close request, an empty
/// queue, and a queue failure.
pub open spec fn outbound_queue(queue: Seq<QueueEvent>, accepts: nat) -> OutboundSpec
    decreases queue.len(),
{
    if queue.len() == 0 {
        outbound_idle()
    } else {
        match queue[0] {
            QueueEvent::Msg(TcpTransportMessage::Bytes(b)) => if accepts > 0 {
                let rest = outbound_queue(queue.skip(1), (accepts - 1) as nat);
                OutboundSpec {
                    sent: seq![b@] + rest.sent,
                    deq: seq![b@] + rest.deq,
                    touched: true,
                    ..rest
                }
            } else {
                OutboundSpec { deq: seq![b@], buf: Some(b@), touched: true, ..outbound_idle() }
            },
            QueueEvent::Msg(TcpTransportMessage::Close) => (OutboundSpec {
                closing: true,
                ..outbound_idle()
            }),
            QueueEvent::Empty => outbound_idle(),
            QueueEvent::Broken(k) => (OutboundSpec { fail: Some(k), ..outbound_idle() }),
        }
    }
}

/// The whole outbound phase: a chunk buffered by an earlier refusal is
/// retried first, before anything is taken from the queue.
pub open spec fn outbound_phase(
    buffered: Option<Seq<u8>>,
    queue: Seq<QueueEvent>,
    accepts: nat,
) -> OutboundSpec {
    match buffered {
        None => outbound_queue(queue, accepts),
        Some(b) => if accepts > 0 {
            let rest = outbound_queue(queue, (accepts - 1) as nat);
            OutboundSpec { sent: seq![b] + rest.sent, touched: true, ..rest }
        } else {
            OutboundSpec { buf: Some(b), touched: true, ..outbound_idle() }
        },
    }
}

/// The part of the bridge state that decides a cycle's visible behaviour.
pub struct BridgeV {
    pub buf: Option<Seq<u8>>,
    pub eof: bool,
    pub flushed: bool,
    pub closing: bool,
}

pub open spec fn view_of(t: TcpTransport) -> BridgeV {
    BridgeV {
        buf: buf_view(t.buf),
        eof: t.incoming_eof,
        flushed: t.flushed,
        closing: t.closing,
    }
}

/// The native error the cycle's inbound phase fails with, if it runs.
pub open spec fn cycle_read_fail(v: BridgeV, script: CycleScript) -> Option<IoErrorKind> {
    if v.eof {
        None
    } else {
        reads_fail(script.reads@)
    }
}

/// Whether end of stream holds after the cycle's inbound phase.
pub open spec fn cycle_eof(v: BridgeV, script: CycleScript) -> bool {
    v.eof || reads_eof(script.reads@)
}

/// The cycle's outbound phase.
pub open spec fn cycle_outbound(v: BridgeV, script: CycleScript) -> OutboundSpec {
    outbound_phase(v.buf, script.queue@, script.accepts as nat)
}

/// Whether a close request holds after the cycle's outbound phase.
pub open spec fn cycle_closing(v: BridgeV, script: CycleScript) -> bool {
    v.closing || cycle_outbound(v, script).closing
}

/// Whether outbound data awaits a flush when the flush phase is reached.
pub open spec fn cycle_dirty(v: BridgeV, script: CycleScript) -> bool {
    !v.flushed || cycle_outbound(v, script).touched
}

/// The `flushed` flag after the flush phase, when it is reached.
pub open spec fn cycle_flushed(v: BridgeV, script: CycleScript) -> bool {
    if cycle_dirty(v, script) {
        script.flush is Done
    } else {
        true
    }
}

/// The native error the cycle fails with before the termination check:
/// a failed read preempts the outbound phase, and a broken queue
/// preempts the flush.
pub open spec fn cycle_fail(v: BridgeV, script: CycleScript) -> Option<IoErrorKind> {
    if cycle_read_fail(v, script) is Some {
        cycle_read_fail(v, script)
    } else if cycle_outbound(v, script).fail is Some {
        cycle_outbound(v, script).fail
    } else {
        match script.flush {
            FlushOutcome::Failed(k) => if cycle_dirty(v, script) {
                Some(k)
            } else {
                None
            },
            _ => None,
        }
    }
}

/// How the cycle leaves the task: the first failure ends it with that
/// native error; otherwise a requested close ends it as the shutdown
/// attempt reports; otherwise end of stream with a full flush ends it
/// cleanly; otherwise it stays pending.
pub open spec fn cycle_outcome(v: BridgeV, script: CycleScript) -> CycleOutcome {
    match cycle_fail(v, script) {
        Some(k) => CycleOutcome::Failed(k),
        None => if cycle_closing(v, script) {
            match script.close {
                CloseOutcome::Done => CycleOutcome::Finished,
                CloseOutcome::Pending => CycleOutcome::Pending,
                CloseOutcome::Failed(k) => CycleOutcome::Failed(k),
            }
        } else if cycle_flushed(v, script) && cycle_eof(v, script) {
            CycleOutcome::Finished
        } else {
            CycleOutcome::Pending
        },
    }
}

/// The visible bridge state after one cycle.
pub open spec fn cycle_post(v: BridgeV, script: CycleScript) -> BridgeV {
    if cycle_read_fail(v, script) is Some {
        v
    } else {
        let ob = cycle_outbound(v, script);
        BridgeV {
            buf: ob.buf,
            eof: cycle_eof(v, script),
            closing: cycle_closing(v, script),
            flushed: if ob.fail is Some {
                v.flushed && !ob.touched
            } else {
                cycle_flushed(v, script)
            },
        }
    }
}

/// The environment's answers for one poll cycle.
pub struct CycleScript {
    /// What successive reads of the socket return, first answer first.
    /// When the script runs out the socket counts as not ready.
    pub reads: Vec<ReadEvent>,
    /// What successive polls of the outbound queue return. When the
    /// script runs out the queue counts as empty.
    pub queue: Vec<QueueEvent>,
    /// How many chunks the socket's write path accepts this cycle
    /// before refusing one.
    pub accepts: usize,
    /// What the flush attempt reports, if one is made.
    pub flush: FlushOutcome,
    /// What a shutdown attempt reports, if the bridge is closing.
    pub close: CloseOutcome,
}

/// How one poll cycle left the task.
#[derive(Debug, PartialEq, Eq, Structural)]
pub enum CycleOutcome {
    /// The task stays pending and will be polled again.
    Pending,
    /// The task ended cleanly: the driver reports `connection_lost(None)`.
    Finished,
    /// The task ended with this native error.
    Failed(IoErrorKind),
}

/// One poll cycle of the bridge task: inbound phase, outbound phase,
/// flush phase, termination check, exactly in the order the live task
/// performs them, each phase behaving as its spec-level counterpart
/// says. Returns the host calls issued during the cycle — never a
/// terminal one; those belong to the driver — the chunks the socket
/// accepted, in order, and the cycle's outcome.
///
/// A drain signal is resolved exactly when the flush phase completes
/// with no chunk left buffered for retry and a signal is pending — and
/// then every payload dequeued so far is confirmed on the wire.
pub fn poll_cycle(
    t: &mut TcpTransport,
    slot: &mut DrainSlot,
    script: CycleScript,
) -> (r: (Vec<HostCall>, Vec<Vec<u8>>, CycleOutcome))
    requires
        old(t).wf(),
        old(t).inflight@ is None,
        old(slot).wf(),
    ensures
        final (t).wf(),
        final (slot).wf(),
        old(t).incoming_eof ==> final (t).incoming_eof,
        old(t).closing ==> final (t).closing,
        forall|i: int| 0 <= i < r.0@.len() ==> !is_terminal(r.0@[i]),
        forall|i: int|
            0 <= i < r.0@.len() && r.0@[i] is Drained ==> final (t).flushed && final (t).buf
                is None && final (t).confirmed@ == final (t).dequeued@,
        final (t).accepted@ == old(t).accepted@ + views_of(r.1@),
        !old(t).incoming_eof ==> datas_of(r.0@) == delivered(script.reads@),
        old(t).incoming_eof ==> datas_of(r.0@) == Seq::<Seq<u8>>::empty(),
        r.2 == cycle_outcome(view_of(*old(t)), script),
        view_of(*final (t)) == cycle_post(view_of(*old(t)), script),
        cycle_read_fail(view_of(*old(t)), script) is Some ==> *final (t) == *old(t)
            && r.1@.len() == 0,
        cycle_read_fail(view_of(*old(t)), script) is None ==> final (t).dequeued@ == old(
            t,
        ).dequeued@ + cycle_outbound(view_of(*old(t)), script).deq,
        cycle_read_fail(view_of(*old(t)), script) is None ==> views_of(r.1@) == cycle_outbound(
            view_of(*old(t)),
            script,
        ).sent,
        ({
            let guard = cycle_read_fail(view_of(*old(t)), script) is None && cycle_outbound(
                view_of(*old(t)),
                script,
            ).fail is None && cycle_dirty(view_of(*old(t)), script) && script.flush is Done
                && cycle_outbound(view_of(*old(t)), script).buf is None && old(
                slot,
            ).pending_id() is Some;
            &&& (guard ==> r.0@.len() > 0 && r.0@[r.0@.len() - 1] == HostCall::Drained(
                old(slot).pending_id()->Some_0,
            ) && final (slot).pending_id() is None)
            &&& (!guard ==> (forall|i: int| 0 <= i < r.0@.len() ==> !(r.0@[i] is Drained)))
            &&& (!guard ==> *final (slot) == *old(slot))
        }),
        r.2 == CycleOutcome::Pending ==> final (t).inflight@ is None,
{
    let ghost v0 = view_of(*old(t));
    let ghost reads0 = script.reads@;
    let ghost queue0 = script.queue@;
    let CycleScript { mut reads, mut queue, accepts, flush, close } = script;
    let mut calls: Vec<HostCall> = Vec::new();
    let mut failure: Option<IoErrorKind> = None;

    // Inbound phase: deliver decoded chunks in wire order until the
    // socket has nothing more, sticky once end of stream is seen.
    if t.reading() {
        let mut go = true;
        proof {
            assert(Seq::<Seq<u8>>::empty() + delivered(reads@) =~= delivered(reads@));
        }
        while go
            invariant
                t.wf(),
                t.inflight@ is None,
                *slot == *old(slot),
                go ==> !t.incoming_eof,
                go ==> *t == *old(t),
                go ==> failure is None,
                t.closing == old(t).closing,
                t.buf == old(t).buf,
                t.flushed == old(t).flushed,
                t.accepted == old(t).accepted,
                t.dequeued == old(t).dequeued,
                t.confirmed == old(t).confirmed,
                old(t).incoming_eof ==> t.incoming_eof,
                failure is Some ==> *t == *old(t),
                go ==> delivered(reads0) == datas_of(calls@) + delivered(reads@),
                !go ==> delivered(reads0) == datas_of(calls@),
                go ==> reads_eof(reads0) == reads_eof(reads@),
                go ==> reads_fail(reads0) == reads_fail(reads@),
                !go ==> t.incoming_eof == reads_eof(reads0),
                !go ==> failure == reads_fail(reads0),
                forall|i: int| 0 <= i < calls@.len() ==> calls@[i] is DataReceived,
            decreases reads@.len() as int + (if go { 1int } else { 0int }),
        {
            let ghost pre = reads@;
            let ev = if reads.is_empty() {
                ReadEvent::NotReady
            } else {
                reads.remove(0)
            };
            proof {
                if pre.len() > 0 {
                    assert(reads@ =~= pre.skip(1));
                }
            }
            let was_empty = reads.is_empty();
            match t.on_read_event(ev) {
                InboundStep::Deliver(bytes) => {
                    proof {
                        lemma_datas_of_push(calls@, HostCall::DataReceived(bytes));
                        assert(delivered(pre) == seq![bytes@] + delivered(pre.skip(1)));
                        assert(reads_eof(pre) == reads_eof(pre.skip(1)));
                        assert(reads_fail(pre) == reads_fail(pre.skip(1)));
                    }
                    calls.push(HostCall::DataReceived(bytes));
                    proof {
                        assert(delivered(reads0) =~= datas_of(calls@) + delivered(reads@));
                    }
                    if was_empty {
                        go = false;
                        proof {
                            assert(delivered(reads@) == Seq::<Seq<u8>>::empty());
                            assert(datas_of(calls@) + Seq::<Seq<u8>>::empty() =~= datas_of(
                                calls@,
                            ));
                        }
                    }
                },
                InboundStep::Stop => {
                    go = false;
                    proof {
                        assert(delivered(pre) == Seq::<Seq<u8>>::empty());
                        assert(datas_of(calls@) + Seq::<Seq<u8>>::empty() =~= datas_of(calls@));
                    }
                },
                InboundStep::Fail(kind) => {
                    failure = Some(kind);
                    go = false;
                    proof {
                        assert(delivered(pre) == Seq::<Seq<u8>>::empty());
                        assert(datas_of(calls@) + Seq::<Seq<u8>>::empty() =~= datas_of(calls@));
                    }
                },
            }
        }
    } else {
        proof {
            assert(datas_of(calls@) == Seq::<Seq<u8>>::empty());
        }
    }
    let ghost datas1 = datas_of(calls@);
    if let Some(kind) = failure {
        proof {
            lemma_views_of_empty(t.accepted@);
        }
        return (calls, Vec::new(), CycleOutcome::Failed(kind));
    }

    // Outbound phase: retry the buffered chunk first, then drain the
    // queue in FIFO order; stop at the first refusal, a close request,
    // or an empty queue. The chunks the socket accepts are returned as
    // the cycle's contribution to the wire, in order.
    let ghost eof1 = t.incoming_eof;
    let ghost osp = outbound_phase(buf_view(t.buf), queue0, accepts as nat);
    let mut sent: Vec<Vec<u8>> = Vec::new();
    let mut accepts_left = accepts;
    let mut draining = true;
    let ghost mut deq_acc: Seq<Seq<u8>> = Seq::empty();
    let ghost mut closing_acc: bool = false;
    let ghost mut touched_acc: bool = false;
    proof {
        lemma_views_of_empty(t.accepted@);
        assert(views_of(sent@) =~= Seq::<Seq<u8>>::empty());
        assert(views_of(sent@) + osp.sent =~= osp.sent);
        assert(deq_acc + osp.deq =~= osp.deq);
    }
    while draining
        invariant
            t.wf(),
            t.inflight@ is None,
            *slot == *old(slot),
            t.incoming_eof == eof1,
            t.closing == (old(t).closing || closing_acc),
            t.flushed == (old(t).flushed && !touched_acc),
            t.accepted@ == old(t).accepted@ + views_of(sent@),
            t.dequeued@ == old(t).dequeued@ + deq_acc,
            t.confirmed == old(t).confirmed,
            draining ==> failure is None,
            draining ==> !closing_acc,
            draining ==> osp == (OutboundSpec {
                sent: views_of(sent@) + outbound_phase(
                    buf_view(t.buf),
                    queue@,
                    accepts_left as nat,
                ).sent,
                deq: deq_acc + outbound_phase(buf_view(t.buf), queue@, accepts_left as nat).deq,
                buf: outbound_phase(buf_view(t.buf), queue@, accepts_left as nat).buf,
                closing: outbound_phase(buf_view(t.buf), queue@, accepts_left as nat).closing,
                fail: outbound_phase(buf_view(t.buf), queue@, accepts_left as nat).fail,
                touched: touched_acc || outbound_phase(
                    buf_view(t.buf),
                    queue@,
                    accepts_left as nat,
                ).touched,
            }),
            !draining ==> osp.sent == views_of(sent@),
            !draining ==> osp.deq == deq_acc,
            !draining ==> osp.buf == buf_view(t.buf),
            !draining ==> osp.closing == closing_acc,
            !draining ==> osp.fail == failure,
            !draining ==> osp.touched == touched_acc,
            datas_of(calls@) == datas1,
            forall|i: int| 0 <= i < calls@.len() ==> calls@[i] is DataReceived,
        decreases queue@.len() as int + accepts_left as int + (if draining { 1int } else { 0int }),
    {
        let ghost pre_q = queue@;
        let ghost sent_pre = sent@;
        let ghost deq_pre = deq_acc;
        let chunk = match t.take_buffered() {
            Some(b) => {
                proof {
                    touched_acc = true;
                }
                Some(b)
            },
            None => {
                let ev = if queue.is_empty() {
                    QueueEvent::Empty
                } else {
                    queue.remove(0)
                };
                let ghost evg = ev;
                proof {
                    if pre_q.len() > 0 {
                        assert(queue@ =~= pre_q.skip(1));
                    }
                }
                match t.on_queue_event(ev) {
                    OutboundStep::Send(b) => {
                        proof {
                            deq_acc = deq_acc + seq![b@];
                            touched_acc = true;
                        }
                        Some(b)
                    },
                    OutboundStep::Stop => {
                        proof {
                            match evg {
                                QueueEvent::Msg(TcpTransportMessage::Close) => {
                                    closing_acc = true;
                                },
                                _ => {},
                            }
                        }
                        None
                    },
                    OutboundStep::Fail(kind) => {
                        failure = Some(kind);
                        None
                    },
                }
            },
        };
        match chunk {
            Some(b) => {
                if accepts_left > 0 {
                    accepts_left = accepts_left - 1;
                    sent.push(b);
                    match t.on_send_outcome(SendOutcome::Accepted) {
                        SendStep::Continue => {
                            proof {
                                let rest_new = outbound_phase(
                                    buf_view(t.buf),
                                    queue@,
                                    accepts_left as nat,
                                );
                                assert(views_of(sent@) =~= views_of(sent_pre) + seq![b@]);
                                assert(t.accepted@ =~= old(t).accepted@ + views_of(sent@));
                                assert(t.dequeued@ =~= old(t).dequeued@ + deq_acc);
                                assert((views_of(sent_pre) + seq![b@]) + rest_new.sent
                                    =~= views_of(sent_pre) + (seq![b@] + rest_new.sent));
                                assert((deq_pre + seq![b@]) + rest_new.deq =~= deq_pre + (
                                seq![b@] + rest_new.deq));
                                assert(deq_pre + (Seq::<Seq<u8>>::empty() + rest_new.deq)
                                    =~= deq_pre + rest_new.deq);
                            }
                        },
                        SendStep::Yield => {
                            draining = false;
                        },
                        SendStep::Fail(_) => {
                            draining = false;
                        },
                    }
                } else {
                    match t.on_send_outcome(SendOutcome::NotReady(b)) {
                        SendStep::Yield => {
                            draining = false;
                            proof {
                                assert(views_of(sent@) + Seq::<Seq<u8>>::empty() =~= views_of(
                                    sent@,
                                ));
                                assert(deq_acc + Seq::<Seq<u8>>::empty() =~= deq_acc);
                                assert(t.dequeued@ =~= old(t).dequeued@ + deq_acc);
                                assert(osp.buf == buf_view(t.buf));
                            }
                        },
                        _ => {
                            draining = false;
                        },
                    }
                }
            },
            None => {
                draining = false;
                proof {
                    assert(views_of(sent@) + Seq::<Seq<u8>>::empty() =~= views_of(sent@));
                    assert(deq_acc + Seq::<Seq<u8>>::empty() =~= deq_acc);
                    assert(osp.buf == buf_view(t.buf));
                }
            },
        }
    }
    if let Some(kind) = failure {
        return (calls, sent, CycleOutcome::Failed(kind));
    }

    // Flush phase: only a completed flush resolves a pending drain
    // signal, and only when no refused chunk still awaits the socket.
    if t.needs_flush() {
        match t.on_flush_outcome(flush) {
            FlushStep::NotifyDrained => {
                match slot.take_pending() {
                    Some(id) => {
                        proof {
                            lemma_datas_of_push(calls@, HostCall::Drained(id));
                            assert(t.accepted@ + t.outstanding() == t.dequeued@);
                            assert(t.accepted@ + t.outstanding() =~= t.accepted@);
                        }
                        calls.push(HostCall::Drained(id));
                        proof {
                            assert(datas_of(calls@) =~= datas1);
                        }
                    },
                    None => (),
                }
            },
            FlushStep::Wait => (),
            FlushStep::Fail(kind) => {
                return (calls, sent, CycleOutcome::Failed(kind));
            },
        }
    }

    // Termination check: a requested close supersedes everything; end of
    // stream with a full flush ends the task cleanly.
    match t.termination_check() {
        Termination::CloseSocket => {
            match close {
                CloseOutcome::Done => (calls, sent, CycleOutcome::Finished),
                CloseOutcome::Pending => (calls, sent, CycleOutcome::Pending),
                CloseOutcome::Failed(kind) => (calls, sent, CycleOutcome::Failed(kind)),
            }
        },
        Termination::Finished => (calls, sent, CycleOutcome::Finished),
        Termination::Yield => (calls, sent, CycleOutcome::Pending),
    }
}

/// The outcome of driving the task over a list of cycle scripts: the
/// first cycle that does not stay pending decides it; if every script is
/// exhausted first, the task is still pending.
pub open spec fn run_outcome(v: BridgeV, cycles: Seq<CycleScript>) -> CycleOutcome
    decreases cycles.len(),
{
    if cycles.len() == 0 {
        CycleOutcome::Pending
    } else if cycle_outcome(v, cycles[0]) is Pending {
        run_outcome(cycle_post(v, cycles[0]), cycles.skip(1))
    } else {
        cycle_outcome(v, cycles[0])
    }
}

/// The payloads the socket accepts over the executed cycles, in order:
/// the wire contents of the whole run.
pub open spec fn run_sent(v: BridgeV, cycles: Seq<CycleScript>) -> Seq<Seq<u8>>
    decreases cycles.len(),
{
    if cycles.len() == 0 {
        Seq::empty()
    } else {
        let here = if cycle_read_fail(v, cycles[0]) is Some {
            Seq::<Seq<u8>>::empty()
        } else {
            cycle_outbound(v, cycles[0]).sent
        };
        if cycle_outcome(v, cycles[0]) is Pending {
            here + run_sent(cycle_post(v, cycles[0]), cycles.skip(1))
        } else {
            here
        }
    }
}

/// Drive the bridge task over successive cycles until it ends or the
/// scripts run out, and deliver the terminal callback: `connection_lost`
/// with no error exactly when the deciding cycle finished cleanly, the
/// classified native error exactly when it failed. The returned wire is
/// the concatenation of the cycles' accepted chunks, in order.
///
/// The trace contains a terminal call only as its very last entry, and
/// it contains one precisely when the run's outcome is not pending:
/// after the task ends, no further callback of any kind is issued.
pub fn run(t: &mut TcpTransport, slot: &mut DrainSlot, cycles: Vec<CycleScript>) -> (r: (
    Vec<HostCall>,
    Vec<Vec<u8>>,
))
    requires
        old(t).wf(),
        old(t).inflight@ is None,
        old(slot).wf(),
    ensures
        final (t).wf(),
        final (slot).wf(),
        forall|i: int|
            0 <= i < r.0@.len() && is_terminal(r.0@[i]) ==> i == r.0@.len() - 1,
        final (t).accepted@ == old(t).accepted@ + views_of(r.1@),
        views_of(r.1@) == run_sent(view_of(*old(t)), cycles@),
        run_outcome(view_of(*old(t)), cycles@) == CycleOutcome::Finished ==> r.0@.len() > 0
            && r.0@[r.0@.len() - 1] == HostCall::ConnectionLost,
        forall|k: IoErrorKind|
            run_outcome(view_of(*old(t)), cycles@) == CycleOutcome::Failed(k) ==> r.0@.len() > 0
                && r.0@[r.0@.len() - 1] == HostCall::ConnectionError(classify(k)),
        run_outcome(view_of(*old(t)), cycles@) == CycleOutcome::Pending ==> (forall|i: int|
            0 <= i < r.0@.len() ==> !is_terminal(r.0@[i])),
{
    let ghost v0 = view_of(*old(t));
    let ghost cycles0 = cycles@;
    let mut todo = cycles;
    let mut trace: Vec<HostCall> = Vec::new();
    let mut wire: Vec<Vec<u8>> = Vec::new();
    let mut ended: Option<CycleOutcome> = None;
    proof {
        lemma_views_of_empty(t.accepted@);
        assert(views_of(wire@) =~= Seq::<Seq<u8>>::empty());
        assert(views_of(wire@) + run_sent(view_of(*t), todo@) =~= run_sent(
            view_of(*t),
            todo@,
        ));
    }
    while !todo.is_empty() && ended.is_none()
        invariant
            t.wf(),
            ended is None ==> t.inflight@ is None,
            slot.wf(),
            t.accepted@ == old(t).accepted@ + views_of(wire@),
            forall|i: int| 0 <= i < trace@.len() ==> !is_terminal(trace@[i]),
            match ended {
                Some(o) => o == run_outcome(v0, cycles0) && !(o is Pending) && run_sent(
                    v0,
                    cycles0,
                ) == views_of(wire@),
                None => run_outcome(v0, cycles0) == run_outcome(view_of(*t), todo@)
                    && run_sent(v0, cycles0) == views_of(wire@) + run_sent(
                    view_of(*t),
                    todo@,
                ),
            },
        decreases todo@.len(),
    {
        let ghost v_pre = view_of(*t);
        let ghost cy_pre = todo@;
        let script = todo.remove(0);
        proof {
            assert(todo@ =~= cy_pre.skip(1));
        }
        let (mut calls, mut sent, outcome) = poll_cycle(t, slot, script);
        let ghost sent_here = sent@;
        trace.append(&mut calls);
        wire.append(&mut sent);
        proof {
            assert(forall|i: int| 0 <= i < trace@.len() ==> !is_terminal(trace@[i]));
            assert(views_of(wire@) =~= views_of(wire@.subrange(
                0,
                wire@.len() - sent_here.len(),
            )) + views_of(sent_here));
            assert(t.accepted@ =~= old(t).accepted@ + views_of(wire@));
            if cycle_read_fail(v_pre, script) is Some {
                assert(views_of(sent_here) =~= Seq::<Seq<u8>>::empty());
            }
            assert(run_sent(v0, cycles0) =~= views_of(wire@) + (if cycle_outcome(
                v_pre,
                script,
            ) is Pending {
                run_sent(cycle_post(v_pre, script), todo@)
            } else {
                Seq::<Seq<u8>>::empty()
            }));
            assert(run_outcome(v0, cycles0) == (if cycle_outcome(v_pre, script) is Pending {
                run_outcome(cycle_post(v_pre, script), todo@)
            } else {
                cycle_outcome(v_pre, script)
            }));
            assert(outcome == cycle_outcome(v_pre, script));
        }
        match outcome {
            CycleOutcome::Pending => (),
            _ => {
                ended = Some(outcome);
                proof {
                    assert(views_of(wire@) + Seq::<Seq<u8>>::empty() =~= views_of(wire@));
                }
            },
        }
    }
    match ended {
        Some(CycleOutcome::Finished) => {
            trace.push(HostCall::ConnectionLost);
            (trace, wire)
        },
        Some(CycleOutcome::Failed(kind)) => {
            trace.push(HostCall::ConnectionError(classify_error(kind)));
            (trace, wire)
        },
        _ => {
            proof {
                if todo@.len() == 0 {
                    assert(run_sent(view_of(*t), todo@) =~= Seq::<Seq<u8>>::empty());
                    assert(views_of(wire@) + Seq::<Seq<u8>>::empty() =~= views_of(wire@));
                }
            }
            (trace, wire)
        },
    }
}

} // verus!
