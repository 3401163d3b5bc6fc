//! The transport bridge state machine.
//!
//! One bridge owns one live connection. Each poll cycle it reads inbound
//! bytes and hands them to the host in wire order, drains the outbound
//! queue in enqueue order (buffering at most one chunk the socket was not
//! ready to accept), flushes, and checks for termination. The bridge itself
//! is a pure state machine: the driver around it performs the socket and
//! queue operations and reports their outcomes as events, and every
//! decision — what to deliver, what to send next, when to signal a drain,
//! when to shut down — is made here, under contract.
//!
//! Two ghost histories record what has been dequeued from the outbound
//! queue and what the socket has accepted; the well-formedness invariant
//! ties them together and carries the ordering guarantee: the socket
//! accepts exactly the dequeued payloads, in order, with none dropped.

use vstd::prelude::*;

use crate::errors::IoErrorKind;

verus! {

/// A write request carried from the host-callable entry points to the
/// bridge through the outbound queue.
pub enum TcpTransportMessage {
    Bytes(Vec<u8>),
    Close,
}

/// What one poll of the inbound side of the socket reported.
pub enum ReadEvent {
    /// A non-empty decoded chunk arrived.
    Data(Vec<u8>),
    /// The peer closed its side: end of stream.
    Eof,
    /// Nothing available yet.
    NotReady,
    /// The read failed.
    Failed(IoErrorKind),
}

/// What one poll of the outbound queue reported.
pub enum QueueEvent {
    /// The next enqueued message, in FIFO order.
    Msg(TcpTransportMessage),
    /// No message available (empty, or all producers gone).
    Empty,
    /// The queue itself failed with this native error.
    Broken(IoErrorKind),
}

/// What the socket's write path did with a chunk it was handed.
pub enum SendOutcome {
    /// The chunk was accepted into the wire buffer.
    Accepted,
    /// The socket was not ready; it hands the chunk back for retry.
    NotReady(Vec<u8>),
    /// The write path failed with this native error.
    Failed(IoErrorKind),
}

/// What a flush attempt reported.
pub enum FlushOutcome {
    /// Everything previously accepted has left the local buffer.
    Done,
    /// The flush is still in progress.
    Pending,
    /// The flush failed.
    Failed(IoErrorKind),
}

/// What a shutdown attempt on the socket reported.
pub enum CloseOutcome {
    /// The shutdown completed; the task ends.
    Done,
    /// The shutdown is still in progress; the task stays pending.
    Pending,
    /// The shutdown failed.
    Failed(IoErrorKind),
}

/// The bridge's reaction to an inbound event.
pub enum InboundStep {
    /// Hand this chunk to the host's `data_received`, then read again.
    Deliver(Vec<u8>),
    /// Stop reading for this cycle.
    Stop,
    /// Terminate the connection with this native error.
    Fail(IoErrorKind),
}

/// The bridge's reaction to an outbound queue event.
pub enum OutboundStep {
    /// Hand this chunk to the socket's write path.
    Send(Vec<u8>),
    /// Stop draining the queue for this cycle.
    Stop,
    /// Terminate the connection with this native error.
    Fail(IoErrorKind),
}

/// The bridge's reaction to a send outcome.
#[derive(Debug, PartialEq, Eq, Structural)]
pub enum SendStep {
    /// The chunk went through; keep draining the queue.
    Continue,
    /// The socket is busy; yield until it is ready again.
    Yield,
    /// Terminate the connection with this native error.
    Fail(IoErrorKind),
}

/// The bridge's reaction to a flush outcome.
#[derive(Debug, PartialEq, Eq, Structural)]
pub enum FlushStep {
    /// The flush completed: resolve a pending drain signal, if any.
    NotifyDrained,
    /// Still flushing; yield.
    Wait,
    /// Terminate the connection with this native error.
    Fail(IoErrorKind),
}

/// What the bridge does at the end of a poll cycle.
#[derive(Debug, PartialEq, Eq, Structural)]
pub enum Termination {
    /// A close was requested: shut the socket down and end the task.
    CloseSocket,
    /// End of stream and fully flushed: end the task cleanly.
    Finished,
    /// Stay pending; the driver yields to the scheduler.
    Yield,
}

/// The payloads a buffered chunk contributes to the outstanding sequence.
pub open spec fn opt_chunk(b: Option<Vec<u8>>) -> Seq<Seq<u8>> {
    match b {
        Some(v) => seq![v@],
        None => Seq::empty(),
    }
}

/// The payload a buffered chunk holds.
pub open spec fn buf_view(b: Option<Vec<u8>>) -> Option<Seq<u8>> {
    match b {
        Some(v) => Some(v@),
        None => None,
    }
}

/// The payloads an in-flight chunk contributes to the outstanding sequence.
pub open spec fn opt_payload(b: Option<Seq<u8>>) -> Seq<Seq<u8>> {
    match b {
        Some(s) => seq![s],
        None => Seq::empty(),
    }
}

/// The state after the inbound side reports end of stream.
pub open spec fn eof_post(t: TcpTransport) -> TcpTransport {
    TcpTransport { incoming_eof: true, ..t }
}

/// The state after a data payload is dequeued from the outbound queue and
/// handed to the socket's write path.
pub open spec fn send_post(t: TcpTransport, b: Seq<u8>) -> TcpTransport {
    TcpTransport {
        dequeued: Ghost(t.dequeued@ + seq![b]),
        inflight: Ghost(Some(b)),
        flushed: false,
        ..t
    }
}

/// The state after the socket accepts the chunk in hand.
pub open spec fn accept_post(t: TcpTransport) -> TcpTransport {
    TcpTransport { accepted: Ghost(t.accepted@ + opt_payload(t.inflight@)), inflight: Ghost(None), ..t }
}

/// The state after a close request is observed on the queue.
pub open spec fn close_post(t: TcpTransport) -> TcpTransport {
    TcpTransport { closing: true, ..t }
}

/// The state after a flush fully completes.
pub open spec fn flush_done_post(t: TcpTransport) -> TcpTransport {
    TcpTransport { flushed: true, confirmed: Ghost(t.accepted@), ..t }
}

/// What the termination check decides in state `t`.
pub open spec fn termination_of(t: TcpTransport) -> Termination {
    if t.closing {
        Termination::CloseSocket
    } else if t.flushed && t.incoming_eof {
        Termination::Finished
    } else {
        Termination::Yield
    }
}

/// The per-connection bridge state.
pub struct TcpTransport {
    /// A chunk the socket was not ready to accept, kept for retry first.
    pub buf: Option<Vec<u8>>,
    /// End of stream was seen on the inbound side; sticky.
    pub incoming_eof: bool,
    /// True iff no outbound data awaits confirmation on the wire.
    pub flushed: bool,
    /// A close request was observed; sticky.
    pub closing: bool,
    /// History: payloads dequeued from the outbound queue, in order.
    pub dequeued: Ghost<Seq<Seq<u8>>>,
    /// History: payloads the socket accepted, in order.
    pub accepted: Ghost<Seq<Seq<u8>>>,
    /// History: payloads whose flush to the wire has been confirmed.
    pub confirmed: Ghost<Seq<Seq<u8>>>,
    /// The chunk currently handed to the socket's write path, if any.
    pub inflight: Ghost<Option<Seq<u8>>>,
}

impl TcpTransport {
    /// The dequeued payloads not yet accepted by the socket, in order.
    pub open spec fn outstanding(self) -> Seq<Seq<u8>> {
        opt_payload(self.inflight@) + opt_chunk(self.buf)
    }

    /// Well-formedness: the socket has accepted exactly the dequeued
    /// payloads in order, except for at most one chunk still in hand;
    /// confirmed flushes never outrun acceptance; a clean `flushed` flag
    /// means everything accepted is confirmed on the wire; and a dirty
    /// one means some dequeued payload still awaits confirmation.
    pub open spec fn wf(self) -> bool {
        &&& self.accepted@ + self.outstanding() == self.dequeued@
        &&& !(self.inflight@ is Some && self.buf is Some)
        &&& self.confirmed@.is_prefix_of(self.accepted@)
        &&& (self.flushed ==> self.confirmed@ == self.accepted@)
        &&& (!self.flushed ==> self.confirmed@ != self.dequeued@)
        &&& (self.inflight@ is Some ==> !self.flushed)
    }

    /// A fresh bridge for a newly connected socket: nothing read, nothing
    /// queued, nothing to flush.
    pub fn new() -> (r: TcpTransport)
        ensures
            r.wf(),
            r.buf is None,
            !r.incoming_eof,
            r.flushed,
            !r.closing,
            r.dequeued@ == Seq::<Seq<u8>>::empty(),
            r.accepted@ == Seq::<Seq<u8>>::empty(),
            r.confirmed@ == Seq::<Seq<u8>>::empty(),
            r.inflight@ is None,
    {
        let r = TcpTransport {
            buf: None,
            incoming_eof: false,
            flushed: true,
            closing: false,
            dequeued: Ghost(Seq::empty()),
            accepted: Ghost(Seq::empty()),
            confirmed: Ghost(Seq::empty()),
            inflight: Ghost(None),
        };
        proof {
            assert(r.accepted@ + r.outstanding() =~= r.dequeued@);
        }
        r
    }

    /// Whether the inbound side should still be read.
    pub fn reading(&self) -> (r: bool)
        ensures
            r == !self.incoming_eof,
    {
        !self.incoming_eof
    }

    /// Whether outbound data awaits a flush.
    pub fn needs_flush(&self) -> (r: bool)
        ensures
            r == !self.flushed,
    {
        !self.flushed
    }

    /// React to one inbound poll: data is delivered to the host at once and
    /// in wire order; end of stream sets the sticky `incoming_eof`; an
    /// error terminates the connection.
    pub fn on_read_event(&mut self, ev: ReadEvent) -> (r: InboundStep)
        requires
            old(self).wf(),
            !old(self).incoming_eof,
        ensures
            final (self).wf(),
            final (self).buf == old(self).buf,
            final (self).flushed == old(self).flushed,
            final (self).closing == old(self).closing,
            final (self).dequeued == old(self).dequeued,
            final (self).accepted == old(self).accepted,
            final (self).confirmed == old(self).confirmed,
            final (self).inflight == old(self).inflight,
            match ev {
                ReadEvent::Data(b) => r matches InboundStep::Deliver(d) && d@ == b@
                    && !final (self).incoming_eof,
                ReadEvent::Eof => r == InboundStep::Stop && *final (self) == eof_post(
                    *old(self),
                ),
                ReadEvent::NotReady => r == InboundStep::Stop && !final (self).incoming_eof,
                ReadEvent::Failed(k) => r == InboundStep::Fail(k) && !final (self).incoming_eof,
            },
    {
        match ev {
            ReadEvent::Data(b) => InboundStep::Deliver(b),
            ReadEvent::Eof => {
                self.incoming_eof = true;
                InboundStep::Stop
            },
            ReadEvent::NotReady => InboundStep::Stop,
            ReadEvent::Failed(k) => InboundStep::Fail(k),
        }
    }

    /// Take the chunk buffered from an earlier not-ready socket, if any, to
    /// retry it before anything else: FIFO order is preserved. Taking it
    /// marks the outbound side dirty (`flushed` cleared).
    pub fn take_buffered(&mut self) -> (r: Option<Vec<u8>>)
        requires
            old(self).wf(),
            old(self).inflight@ is None,
        ensures
            final (self).wf(),
            final (self).incoming_eof == old(self).incoming_eof,
            final (self).closing == old(self).closing,
            final (self).dequeued == old(self).dequeued,
            final (self).accepted == old(self).accepted,
            final (self).confirmed == old(self).confirmed,
            r is Some <==> old(self).buf is Some,
            match r {
                Some(b) => b@ == old(self).buf->Some_0@ && final (self).buf is None && final (self).inflight@ == Some(b@) && !final (self).flushed,
                None => *final (self) == *old(self),
            },
    {
        match self.buf.take() {
            Some(b) => {
                self.flushed = false;
                self.inflight = Ghost(Some(b@));
                proof {
                    assert(self.accepted@ + self.outstanding() =~= self.dequeued@);
                    assert(self.dequeued@.len() > self.confirmed@.len());
                }
                Some(b)
            },
            None => None,
        }
    }

    /// React to one outbound queue poll, made only when no chunk is in hand:
    /// a data message is dequeued and handed to the socket; a close request
    /// sets the sticky `closing` and stops draining; an empty queue stops
    /// draining; a broken queue terminates the connection.
    pub fn on_queue_event(&mut self, ev: QueueEvent) -> (r: OutboundStep)
        requires
            old(self).wf(),
            old(self).inflight@ is None,
            old(self).buf is None,
        ensures
            final (self).wf(),
            final (self).incoming_eof == old(self).incoming_eof,
            final (self).buf is None,
            final (self).accepted == old(self).accepted,
            final (self).confirmed == old(self).confirmed,
            match ev {
                QueueEvent::Msg(TcpTransportMessage::Bytes(b)) => r matches OutboundStep::Send(s)
                    && s@ == b@ && *final (self) == send_post(*old(self), b@),
                QueueEvent::Msg(TcpTransportMessage::Close) => r == OutboundStep::Stop && *final (self) == close_post(*old(self)),
                QueueEvent::Empty => r == OutboundStep::Stop && *final (self) == *old(self),
                QueueEvent::Broken(k) => r == OutboundStep::Fail(k) && *final (self) == *old(
                    self,
                ),
            },
    {
        match ev {
            QueueEvent::Msg(TcpTransportMessage::Bytes(b)) => {
                self.dequeued = Ghost(self.dequeued@ + seq![b@]);
                self.inflight = Ghost(Some(b@));
                self.flushed = false;
                proof {
                    assert(self.accepted@ + self.outstanding() =~= self.dequeued@);
                    assert(self.dequeued@.len() > self.confirmed@.len());
                }
                OutboundStep::Send(b)
            },
            QueueEvent::Msg(TcpTransportMessage::Close) => {
                self.closing = true;
                OutboundStep::Stop
            },
            QueueEvent::Empty => OutboundStep::Stop,
            QueueEvent::Broken(k) => OutboundStep::Fail(k),
        }
    }

    /// React to the socket's verdict on the chunk in hand. On a not-ready
    /// socket the driver must hand back the very chunk it was given; the
    /// bridge buffers it and retries it first next cycle.
    pub fn on_send_outcome(&mut self, oc: SendOutcome) -> (r: SendStep)
        requires
            old(self).wf(),
            old(self).inflight@ is Some,
            old(self).buf is None,
            oc matches SendOutcome::NotReady(b) ==> Some(b@) == old(self).inflight@,
        ensures
            final (self).wf(),
            final (self).incoming_eof == old(self).incoming_eof,
            final (self).closing == old(self).closing,
            final (self).flushed == old(self).flushed,
            final (self).dequeued == old(self).dequeued,
            final (self).confirmed == old(self).confirmed,
            match oc {
                SendOutcome::Accepted => r == SendStep::Continue && *final (self) == accept_post(
                    *old(self),
                ),
                SendOutcome::NotReady(nb) => r == SendStep::Yield && final (self).accepted == old(
                    self,
                ).accepted && final (self).inflight@ is None && buf_view(final (self).buf)
                    == Some(nb@) && final (self).outstanding() == old(self).outstanding(),
                SendOutcome::Failed(k) => r == SendStep::Fail(k) && *final (self) == *old(self),
            },
    {
        match oc {
            SendOutcome::Accepted => {
                self.accepted = Ghost(self.accepted@ + opt_payload(self.inflight@));
                self.inflight = Ghost(None);
                proof {
                    assert(self.accepted@ + self.outstanding() =~= self.dequeued@);
                    assert(self.dequeued@.len() > self.confirmed@.len());
                    let c = self.confirmed@;
                    assert(c.is_prefix_of(self.accepted@)) by {
                        assert(self.accepted@.subrange(0, c.len() as int) =~= old(self).accepted@.subrange(0, c.len() as int));
                    };
                }
                SendStep::Continue
            },
            SendOutcome::NotReady(b) => {
                self.buf = Some(b);
                self.inflight = Ghost(None);
                proof {
                    assert(self.outstanding() =~= old(self).outstanding());
                }
                SendStep::Yield
            },
            SendOutcome::Failed(k) => SendStep::Fail(k),
        }
    }

    /// React to a flush attempt, made only while outbound data awaits
    /// confirmation. Only a completed flush sets `flushed`, and the driver
    /// is told to resolve a pending drain signal only when no refused
    /// chunk is still waiting for the socket: a drain resolves after every
    /// payload written so far is confirmed on the wire, never earlier.
    pub fn on_flush_outcome(&mut self, oc: FlushOutcome) -> (r: FlushStep)
        requires
            old(self).wf(),
            !old(self).flushed,
            old(self).inflight@ is None,
        ensures
            final (self).wf(),
            final (self).incoming_eof == old(self).incoming_eof,
            final (self).closing == old(self).closing,
            final (self).buf == old(self).buf,
            final (self).dequeued == old(self).dequeued,
            final (self).accepted == old(self).accepted,
            final (self).inflight == old(self).inflight,
            match oc {
                FlushOutcome::Done => *final (self) == flush_done_post(*old(self)) && (r
                    == FlushStep::NotifyDrained <==> old(self).buf is None) && (old(self).buf
                    is Some ==> r == FlushStep::Wait),
                FlushOutcome::Pending => r == FlushStep::Wait && *final (self) == *old(self),
                FlushOutcome::Failed(k) => r == FlushStep::Fail(k) && *final (self) == *old(self),
            },
    {
        match oc {
            FlushOutcome::Done => {
                self.flushed = true;
                self.confirmed = Ghost(self.accepted@);
                if self.buf.is_none() {
                    FlushStep::NotifyDrained
                } else {
                    FlushStep::Wait
                }
            },
            FlushOutcome::Pending => FlushStep::Wait,
            FlushOutcome::Failed(k) => FlushStep::Fail(k),
        }
    }

    /// The termination check closing each poll cycle: a requested close
    /// supersedes everything and shuts the socket down; end of stream with
    /// a full flush ends the task cleanly; otherwise the task stays pending.
    pub fn termination_check(&self) -> (r: Termination)
        ensures
            r == termination_of(*self),
    {
        if self.closing {
            Termination::CloseSocket
        } else if self.flushed && self.incoming_eof {
            Termination::Finished
        } else {
            Termination::Yield
        }
    }
}

/// Order preservation: in every well-formed bridge state, the payloads the
/// socket has accepted are exactly a prefix of the payloads dequeued from
/// the outbound queue, in enqueue order — no payload is dropped, reordered,
/// or invented, and at most one dequeued chunk is still on its way.
pub proof fn lemma_order_preservation(t: TcpTransport)
    requires
        t.wf(),
    ensures
        t.accepted@.is_prefix_of(t.dequeued@),
        t.dequeued@.len() - t.accepted@.len() <= 1,
        forall|i: int|
            0 <= i < t.accepted@.len() ==> t.accepted@[i] == t.dequeued@[i],
{
    assert(t.accepted@.is_prefix_of(t.dequeued@)) by {
        assert(t.dequeued@ == t.accepted@ + t.outstanding());
    };
}

/// Backpressure correctness: the bridge reports `flushed` — the only state
/// in which it resolves a drain signal — only when every payload the socket
/// has accepted has had its flush to the wire confirmed.
pub proof fn lemma_backpressure(t: TcpTransport)
    requires
        t.wf(),
        t.flushed,
    ensures
        t.confirmed@ == t.accepted@,
{
}

/// Close flushes pending writes: from a quiescent well-formed state, when
/// two payloads are enqueued and the socket accepts each, and a close
/// request follows them on the queue, then by the time the close is
/// observed both payloads have already been handed to the socket, in
/// order — only then does the termination check decide to shut the socket
/// down, and the shutdown itself flushes the wire buffer before closing.
pub proof fn lemma_close_flushes_pending(t: TcpTransport, w1: Seq<u8>, w2: Seq<u8>)
    requires
        t.wf(),
        t.buf is None,
        t.inflight@ is None,
    ensures
        ({
            let t3 = close_post(accept_post(send_post(accept_post(send_post(t, w1)), w2)));
            &&& t3.wf()
            &&& t3.accepted@ == t.accepted@ + seq![w1, w2]
            &&& termination_of(t3) == Termination::CloseSocket
        }),
{
    let t1 = accept_post(send_post(t, w1));
    let t2 = accept_post(send_post(t1, w2));
    let t3 = close_post(t2);
    assert(t3.accepted@ =~= t.accepted@ + seq![w1, w2]);
    assert(t3.accepted@ + t3.outstanding() =~= t3.dequeued@);
    assert(t3.confirmed@.is_prefix_of(t3.accepted@)) by {
        assert(t3.accepted@.subrange(0, t.confirmed@.len() as int) =~= t.accepted@.subrange(
            0,
            t.confirmed@.len() as int,
        ));
    };
}

/// EOF-then-flush termination: with nothing left to flush and no close
/// requested, an end-of-stream report makes the bridge terminate cleanly.
/// This is the one state in which the driver invokes `connection_lost`
/// with no error, once, and then drops the task for good.
pub proof fn lemma_eof_then_flush_termination(t: TcpTransport)
    requires
        t.wf(),
        t.flushed,
        !t.closing,
    ensures
        eof_post(t).wf(),
        termination_of(eof_post(t)) == Termination::Finished,
{
}

/// Idempotent close: a second close request observed after a first one
/// changes nothing — the bridge state, and with it everything observable
/// downstream (a single shutdown, a single `connection_lost`), is the same
/// as after a single close.
pub proof fn lemma_idempotent_close(t: TcpTransport)
    ensures
        close_post(close_post(t)) == close_post(t),
        termination_of(close_post(t)) == Termination::CloseSocket,
{
}

} // verus!
