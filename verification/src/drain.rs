//! The drain slot: the host proxy's single pending backpressure signal.
//!
//! A writer that wants to wait for its bytes to flush asks for a completion
//! signal. At most one such signal is outstanding at a time: while one is
//! pending, further requests return the same signal; once the bridge takes
//! and resolves it, the next request creates a fresh one. Signals are
//! modelled by identity: each created signal carries a fresh number, so two
//! requests that return the same number return the same signal object.

use vstd::prelude::*;

verus! {

/// The slot holding the at-most-one pending drain signal.
pub struct DrainSlot {
    /// The identity of the pending signal, if one is outstanding.
    pub pending: Option<u64>,
    /// The identity the next fresh signal will get.
    pub next_id: u64,
}

impl DrainSlot {
    /// Every signal ever handed out has an identity below `next_id`,
    /// so a fresh identity never collides with the pending one.
    pub open spec fn wf(self) -> bool {
        match self.pending {
            Some(id) => id < self.next_id,
            None => true,
        }
    }

    pub open spec fn pending_id(self) -> Option<u64> {
        self.pending
    }

    /// The machine limit on signal identities has not been reached.
    pub open spec fn can_issue(self) -> bool {
        self.next_id < u64::MAX
    }

    /// The signal identity a drain request returns in state `s`.
    pub open spec fn drain_result(s: DrainSlot) -> u64 {
        match s.pending {
            Some(id) => id,
            None => s.next_id,
        }
    }

    /// The slot state after a drain request in state `s`.
    pub open spec fn drain_post(s: DrainSlot) -> DrainSlot {
        match s.pending {
            Some(_) => s,
            None => DrainSlot { pending: Some(s.next_id), next_id: (s.next_id + 1) as u64 },
        }
    }

    /// The slot state after the bridge takes the pending signal.
    pub open spec fn resolve_post(s: DrainSlot) -> DrainSlot {
        DrainSlot { pending: None, ..s }
    }

    pub fn new() -> (r: DrainSlot)
        ensures
            r.wf(),
            r.can_issue(),
            r.next_id == 0,
            r.pending_id() is None,
    {
        DrainSlot { pending: None, next_id: 0 }
    }

    /// A host-side drain request: return the pending signal, creating one
    /// if none is outstanding.
    pub fn drain(&mut self) -> (r: u64)
        requires
            old(self).wf(),
            old(self).can_issue(),
        ensures
            final (self).wf(),
            r == DrainSlot::drain_result(*old(self)),
            *final (self) == DrainSlot::drain_post(*old(self)),
            final (self).pending_id() == Some(r),
            final (self).next_id <= old(self).next_id + 1,
            old(self).pending_id() is Some ==> *final (self) == *old(self),
    {
        match self.pending {
            Some(id) => id,
            None => {
                let id = self.next_id;
                self.pending = Some(id);
                self.next_id = id + 1;
                id
            },
        }
    }

    /// The bridge-side take: remove and return the pending signal so the
    /// bridge can resolve it; a no-op when none is outstanding.
    pub fn take_pending(&mut self) -> (r: Option<u64>)
        requires
            old(self).wf(),
        ensures
            final (self).wf(),
            r == old(self).pending_id(),
            *final (self) == DrainSlot::resolve_post(*old(self)),
            final (self).pending_id() is None,
    {
        let r = self.pending;
        self.pending = None;
        r
    }
}

/// At most one drain signal is pending at a time: a second request made
/// while one is outstanding returns the same signal and leaves the slot
/// unchanged; and once the pending signal is taken and resolved, the next
/// request returns a fresh signal, distinct from the one before.
pub proof fn lemma_at_most_one_pending_drain(s: DrainSlot)
    requires
        s.wf(),
        s.can_issue(),
    ensures
        DrainSlot::drain_result(DrainSlot::drain_post(s)) == DrainSlot::drain_result(s),
        DrainSlot::drain_post(DrainSlot::drain_post(s)) == DrainSlot::drain_post(s),
        DrainSlot::drain_result(DrainSlot::resolve_post(DrainSlot::drain_post(s)))
            != DrainSlot::drain_result(s),
{
}

} // verus!
