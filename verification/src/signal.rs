//! The resize signal: a payload-free channel between whoever notices that the
//! window changed and the routine that resizes the surface.
//!
//! A signal says only that the window size may have changed. All that is
//! tracked is how many signals were sent and not yet received. A receiver
//! takes one at a time and reads the window afresh, so what it does depends
//! on whether a signal is pending, never on how many are.

use vstd::prelude::*;

verus! {

/// The channel's state: the signals sent and not yet received.
#[derive(Debug)]
pub struct ResizeSignal {
    pending: u64,
}

impl View for ResizeSignal {
    type V = nat;

    /// The number of pending signals.
    closed spec fn view(&self) -> nat {
        self.pending as nat
    }
}

impl ResizeSignal {
    /// The count of pending signals always fits the `u64` that holds it.
    pub proof fn lemma_pending_fits_u64(&self)
        ensures
            self@ <= u64::MAX,
    {
    }

    /// A fresh channel, with nothing pending.
    pub fn new() -> (signal: Self)
        ensures
            signal@ == 0,
    {
        ResizeSignal { pending: 0 }
    }

    /// The number of pending signals.
    pub fn pending(&self) -> (n: u64)
        ensures
            n == self@,
    {
        self.pending
    }

    /// Whether a receive would find a signal.
    pub fn is_pending(&self) -> (b: bool)
        ensures
            b == (self@ > 0),
    {
        self.pending > 0
    }

    /// Sends one signal. The count of pending signals is kept in a `u64`,
    /// which must have room for one more.
    pub fn send(&mut self)
        requires
            old(self)@ < u64::MAX,
        ensures
            final(self)@ == old(self)@ + 1,
    {
        self.pending = self.pending + 1;
    }

    /// Receives one signal if there is one, without waiting. Returns whether
    /// there was one; an empty channel is left as it is.
    pub fn try_recv(&mut self) -> (received: bool)
        ensures
            received == (old(self)@ > 0),
            received ==> final(self)@ == old(self)@ - 1,
            !received ==> final(self)@ == old(self)@,
    {
        if self.pending > 0 {
            self.pending = self.pending - 1;
            true
        } else {
            false
        }
    }
}

} // verus!
