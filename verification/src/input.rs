//! Simulated digital input pin.
//!
//! An [`InputPin`] holds the current boolean level and one
//! [`Signal`](crate::signal::Signal). An external event source — a UI
//! click, standing in for a push button — drives [`InputPin::on_event`],
//! which toggles the level and notifies the signal; the owning task waits
//! for the next toggle by resetting with [`InputPin::wait`] and then
//! polling [`InputPin::poll_edge`] until it yields. Registering the click
//! callback against a concrete presentation element is wiring around this
//! crate: the callback it installs just calls `on_event`.

use crate::signal::Signal;
use vstd::prelude::*;

verus! {

/// A digital input pin: a boolean level toggled by an external event
/// source, plus the notification slot a waiting task parks on.
pub struct InputPin {
    /// The current logical level; starts high.
    pub high: bool,
    /// Notifies the task waiting for the next edge.
    pub signal: Signal<()>,
}

/// The level after `n` toggles starting from `initial`.
pub open spec fn toggled(initial: bool, n: nat) -> bool
    decreases n,
{
    if n == 0 {
        initial
    } else {
        !toggled(initial, (n - 1) as nat)
    }
}

/// The level after `n` toggles is the initial level XORed with the parity
/// of `n`.
pub proof fn lemma_toggle_parity(initial: bool, n: nat)
    ensures
        toggled(initial, n) == (initial != (n % 2 == 1)),
    decreases n,
{
    if n > 0 {
        lemma_toggle_parity(initial, (n - 1) as nat);
    }
}

impl InputPin {
    /// Creates a pin at the high level with an empty signal.
    pub fn new() -> (p: InputPin)
        ensures
            p.high,
            p.signal.pending is None,
            !p.signal.waiter,
    {
        InputPin { high: true, signal: Signal::new() }
    }

    /// Returns the current level; never fails and never suspends.
    pub fn get_value(&self) -> (r: bool)
        ensures
            r == self.high,
    {
        self.high
    }

    /// The event handler the external source fires on each click: toggles
    /// the stored level and notifies the signal with the unit value.
    /// Returns whether a suspended waiter was woken, so the surrounding
    /// event loop can resume the parked task.
    pub fn on_event(&mut self) -> (woke: bool)
        ensures
            final(self).high == !old(self).high,
            final(self).signal == old(self).signal.spec_notify(()),
            woke == old(self).signal.waiter,
    {
        self.high = !self.high;
        self.signal.notify(())
    }

    /// Fires the event handler `n` times in a row, as `n` clicks would.
    pub fn fire_events(&mut self, n: usize)
        ensures
            final(self).high == (old(self).high != (n % 2 == 1)),
            n > 0 ==> final(self).signal == old(self).signal.spec_notify(()),
            n == 0 ==> final(self).signal == old(self).signal,
    {
        let mut i: usize = 0;
        while i < n
            invariant
                i <= n,
                self.high == toggled(old(self).high, i as nat),
                i > 0 ==> self.signal == old(self).signal.spec_notify(()),
                i == 0 ==> self.signal == old(self).signal,
            decreases n - i,
        {
            self.on_event();
            i = i + 1;
        }
        proof {
            lemma_toggle_parity(old(self).high, n as nat);
        }
    }

    /// Begins a wait for the next edge: resets the signal so that a stale
    /// notification is discarded. The next toggle, and only a toggle after
    /// this reset, makes [`InputPin::poll_edge`] yield.
    pub fn wait(&mut self)
        ensures
            final(self).high == old(self).high,
            final(self).signal == old(self).signal.spec_reset(),
    {
        self.signal.reset();
    }

    /// One poll of the pending wait: yields once a toggle has occurred
    /// since the last [`InputPin::wait`], without reporting the direction
    /// of the edge; otherwise registers the waiter and reports "not
    /// ready".
    pub fn poll_edge(&mut self) -> (r: Option<()>)
        ensures
            final(self).high == old(self).high,
            (final(self).signal, r) == old(self).signal.spec_poll(),
    {
        self.signal.poll_wait()
    }
}

} // verus!
