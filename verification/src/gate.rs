//! The completion gate: a single-slot, single-use notification.
//!
//! The orchestrator creates one gate per job before submission and waits
//! on it; the drain loop sends exactly once, on the buffer-close reason.
//! At most one send is ever delivered and at most one wait ever succeeds.
//! A send after the slot is filled is absorbed: best-effort notification
//! with a capacity of one, never a panic or a deadlock.
//!
//! This type tracks this completion gate's protocol state; whatever primitive
//! actually parks the waiting thread lives outside the library and
//! follows the same transitions.

use vstd::prelude::*;

verus! {

/// Protocol state of one job's completion gate.
pub struct CompletionGate {
    sent: bool,
    received: bool,
}

impl CompletionGate {
    /// Whether the end-of-stream signal has been sent.
    pub closed spec fn sent(self) -> bool {
        self.sent
    }

    /// Whether a wait has already consumed the signal.
    pub closed spec fn received(self) -> bool {
        self.received
    }
}

/// A fresh gate: nothing sent, nothing received.
pub open spec fn spec_gate_is_fresh(g: CompletionGate) -> bool {
    !g.sent() && !g.received()
}

/// Whether a send on `g` is the one that gets delivered.
pub open spec fn spec_gate_send_delivers(g: CompletionGate) -> bool {
    !g.sent()
}

/// Gate state after a send: the slot is filled, waits are unaffected.
pub closed spec fn spec_gate_after_send(g: CompletionGate) -> CompletionGate {
    CompletionGate { sent: true, received: g.received }
}

/// Whether a wait started on `g` succeeds: the signal was sent and no
/// earlier wait has consumed it.
pub open spec fn spec_gate_wait_succeeds(g: CompletionGate) -> bool {
    g.sent() && !g.received()
}

/// Gate state after one wait: a successful wait consumes the signal.
pub closed spec fn spec_gate_after_wait(g: CompletionGate) -> CompletionGate {
    CompletionGate { sent: g.sent, received: g.received || spec_gate_wait_succeeds(g) }
}

impl CompletionGate {
    /// A fresh, unsignaled gate.
    pub fn new() -> (g: CompletionGate)
        ensures
            spec_gate_is_fresh(g),
    {
        CompletionGate { sent: false, received: false }
    }

    /// Send the end-of-stream signal.  The first send is delivered; any
    /// later send is absorbed without effect and without panicking.
    pub fn send(&mut self) -> (delivered: bool)
        ensures
            delivered == spec_gate_send_delivers(*old(self)),
            *final(self) == spec_gate_after_send(*old(self)),
            final(self).sent(),
            final(self).received() == old(self).received(),
    {
        let delivered = !self.sent;
        self.sent = true;
        delivered
    }

    /// Start one wait on this gate.  It succeeds just in case a send
    /// already happened and no earlier wait used it up; success uses the
    /// slot up.
    pub fn try_wait(&mut self) -> (got: bool)
        ensures
            got == spec_gate_wait_succeeds(*old(self)),
            *final(self) == spec_gate_after_wait(*old(self)),
            final(self).sent() == old(self).sent(),
            final(self).received() == (old(self).received() || got),
    {
        let got = self.sent && !self.received;
        if got {
            self.received = true;
        }
        got
    }
}

/// Single use: from a fresh gate, the first send is delivered and the
/// wait that follows it succeeds; after that, neither a further send nor
/// a further wait can succeed, so no two waits ever both succeed.
pub proof fn lemma_gate_single_use(g0: CompletionGate)
    requires
        spec_gate_is_fresh(g0),
    ensures
        spec_gate_send_delivers(g0),
        spec_gate_wait_succeeds(spec_gate_after_send(g0)),
        !spec_gate_send_delivers(spec_gate_after_send(g0)),
        !spec_gate_wait_succeeds(spec_gate_after_wait(spec_gate_after_send(g0))),
{
}

/// A wait on a gate that was never signaled does not succeed, no matter
/// how many waits came before it.
pub proof fn lemma_gate_no_spurious_wakeup(g: CompletionGate)
    requires
        !g.sent(),
    ensures
        !spec_gate_wait_succeeds(g),
        !spec_gate_wait_succeeds(spec_gate_after_wait(g)),
{
}

} // verus!
