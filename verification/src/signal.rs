//! Single-slot notification primitive.
//!
//! A `Signal` carries at most one undelivered value from a single producer
//! (an event source) to a single consumer (the one task waiting on it).
//! A new notification overwrites an unread pending value (latest wins,
//! no queue), and notifying with no registered waiter simply leaves the
//! value pending for the next poll.
//!
//! Suspension is modelled as an explicit poll step: the consumer resets
//! the signal, then polls it repeatedly; a poll either consumes the
//! pending value or registers the consumer as the waiter. An executor
//! that drives real futures can park on `poll_wait` returning `None` and
//! re-poll when `notify` reports that a waiter was woken.

use vstd::prelude::*;

verus! {

/// A single-slot async wake/notify channel: at most one pending value and
/// at most one registered waiter.
pub struct Signal<T> {
    /// The undelivered value, if any.
    pub pending: Option<T>,
    /// Whether a consumer is currently suspended on this signal.
    pub waiter: bool,
}

impl<T> Signal<T> {
    /// The state after a reset: nothing pending, no waiter registered.
    pub open spec fn spec_reset(self) -> Signal<T> {
        Signal { pending: None, waiter: false }
    }

    /// The state after a notification: `v` pending (overwriting any unread
    /// value) and the waiter, if one was suspended, woken and deregistered.
    pub open spec fn spec_notify(self, v: T) -> Signal<T> {
        Signal { pending: Some(v), waiter: false }
    }

    /// One poll step: consume the pending value if there is one, otherwise
    /// register the caller as the waiter and report "not ready".
    pub open spec fn spec_poll(self) -> (Signal<T>, Option<T>) {
        match self.pending {
            Some(v) => (Signal { pending: None, waiter: false }, Some(v)),
            None => (Signal { pending: None, waiter: true }, None),
        }
    }

    /// The state after `n` consecutive polls with no intervening notify.
    pub open spec fn spec_polls(self, n: nat) -> Signal<T>
        decreases n,
    {
        if n == 0 {
            self
        } else {
            self.spec_polls((n - 1) as nat).spec_poll().0
        }
    }

    /// Creates an empty signal: no pending value, no waiter.
    pub fn new() -> (s: Signal<T>)
        ensures
            s.pending is None,
            !s.waiter,
    {
        Signal { pending: None, waiter: false }
    }

    /// Clears any pending value and discards any prior waiter registration.
    /// The consumer calls this before each wait so that a stale notification
    /// is not consumed.
    pub fn reset(&mut self)
        ensures
            *final(self) == old(self).spec_reset(),
    {
        self.pending = None;
        self.waiter = false;
    }

    /// Stores `value` as pending, overwriting any unread prior value, and
    /// wakes the suspended waiter if there is one. Returns whether a waiter
    /// was woken, so the caller can resume the parked task.
    pub fn notify(&mut self, value: T) -> (woke: bool)
        ensures
            *final(self) == old(self).spec_notify(value),
            woke == old(self).waiter,
    {
        let woke = self.waiter;
        self.pending = Some(value);
        self.waiter = false;
        woke
    }

    /// One poll of the suspension point: yields the pending value if a
    /// notification has arrived since the last reset, otherwise registers
    /// the caller as the waiter and reports "not ready" with `None`.
    pub fn poll_wait(&mut self) -> (r: Option<T>)
        ensures
            (*final(self), r) == old(self).spec_poll(),
    {
        match self.pending.take() {
            Some(v) => {
                self.waiter = false;
                Some(v)
            },
            None => {
                self.waiter = true;
                None
            },
        }
    }
}

/// After a reset, no number of polls completes until a notify occurs:
/// every poll reports "not ready" and leaves nothing pending.
pub proof fn lemma_wait_needs_notify<T>(s: Signal<T>, n: nat)
    ensures
        s.spec_reset().spec_polls(n).spec_poll().1 is None,
        s.spec_reset().spec_polls(n).pending is None,
    decreases n,
{
    if n > 0 {
        lemma_wait_needs_notify(s, (n - 1) as nat);
    }
}

/// Each notification completes exactly one wait: the first poll after a
/// notify yields the value, and the next poll is suspended again.
pub proof fn lemma_notify_completes_once<T>(s: Signal<T>, v: T)
    ensures
        s.spec_notify(v).spec_poll().1 == Some(v),
        s.spec_notify(v).spec_poll().0.spec_poll().1 is None,
{
}

/// A notification issued while no waiter is registered is kept pending and
/// observed by the next poll without a further notify (latest value wins).
pub proof fn lemma_notify_without_waiter_is_kept<T>(s: Signal<T>, v: T)
    requires
        !s.waiter,
    ensures
        s.spec_notify(v).spec_poll().1 == Some(v),
{
}

} // verus!
