//! The two live handles over one shared slot: the unique [`Lever`] that
//! mutates the state, and the cloneable [`Gate`] that reads it or polls a
//! wait for a target value.
//!
//! A reading of the slot can go stale the moment it is taken — another
//! handle may act concurrently — so no method here can promise what it
//! returns. Every decision taken on a reading is made by the verified
//! functions of [`crate::cell`], whose contracts pin the protocol down for
//! every reading whatsoever.

use crate::cell::{controller_read, lowered_poll, mutate_outcome, observer_read, raised_poll};
use crate::channel::{channel_new, receiver_clone, receiver_value, sender_is_closed, sender_set,
    sender_value, sender_was_dropped};
use crate::errors::{BeforeGateDropped, GateDropped, LeverDroppedWhileLowered,
    LeverDroppedWhileRaised};
use crate::state::Gateway;
use tokio::sync::watch;
use vstd::prelude::*;

verus! {

/// The unique controlling handle: the one place the shared state is set.
/// Dropping it freezes the state at its last value.
pub struct Lever {
    sender: watch::Sender<Gateway>,
}

impl Lever {
    /// Set the state to `Raised`, waking every waiter for that value if this
    /// is an actual change; setting an already-raised gate is a silent
    /// no-op. Errs with `GateDropped` once every gate clone is gone, and the
    /// lever stays usable after that.
    pub fn raise(&self) -> (r: Result<(), GateDropped>) {
        self.set_to(Gateway::Raised)
    }

    /// Set the state to `Lowered`; the mirror image of [`Lever::raise`].
    pub fn lower(&self) -> (r: Result<(), GateDropped>) {
        self.set_to(Gateway::Lowered)
    }

    /// The mutation both of the above make: write through the channel —
    /// which runs the verified `Gateway::step_to` under its lock and wakes
    /// waiters iff the value actually changed — unless the observing side
    /// is gone, and report as [`mutate_outcome`]'s contract fixes for the
    /// closed reading: `Err(GateDropped)` exactly when it was closed.
    fn set_to(&self, target: Gateway) -> (r: Result<(), GateDropped>) {
        let observer_closed = self.gate_was_dropped();
        if !observer_closed {
            sender_set(&self.sender, target);
        }
        mutate_outcome(observer_closed)
    }

    /// Whether the state is `Raised`. Once every gate clone is gone the
    /// answer comes as `Err(BeforeGateDropped(..))` carrying the frozen
    /// state, so the caller can still learn the final value.
    pub fn is_raised(&self) -> (r: Result<bool, BeforeGateDropped>) {
        let state = sender_value(&self.sender);
        let observer_closed = self.gate_was_dropped();
        controller_read(state, observer_closed, Gateway::Raised)
    }

    /// Whether the state is `Lowered`; the mirror image of
    /// [`Lever::is_raised`].
    pub fn is_lowered(&self) -> (r: Result<bool, BeforeGateDropped>) {
        let state = sender_value(&self.sender);
        let observer_closed = self.gate_was_dropped();
        controller_read(state, observer_closed, Gateway::Lowered)
    }

    /// Whether every gate clone bound to this lever has been dropped. Never
    /// fails, never blocks.
    pub fn gate_was_dropped(&self) -> (r: bool) {
        sender_is_closed(&self.sender)
    }
}

/// A cloneable observing handle: reads the shared state, or polls a wait
/// for a target value. Dropping the last clone closes the observing side.
pub struct Gate {
    receiver: watch::Receiver<Gateway>,
}

impl Gate {
    /// Whether the state is `Raised`. Always answers, even after the lever
    /// is dropped: the frozen value is still meaningful to a reader.
    pub fn is_raised(&self) -> (r: bool) {
        let state = receiver_value(&self.receiver);
        observer_read(state, Gateway::Raised)
    }

    /// Whether the state is `Lowered`; the mirror image of
    /// [`Gate::is_raised`].
    pub fn is_lowered(&self) -> (r: bool) {
        let state = receiver_value(&self.receiver);
        observer_read(state, Gateway::Lowered)
    }

    /// One poll of a wait until the state is `Raised`: `Some(Ok(()))` when
    /// it already is, `Some(Err(..))` when the lever is gone while it is
    /// not — that wait can never succeed — and `None` while the wait must
    /// keep suspending. An async integration loops this against
    /// [`Gate::waiter`].
    ///
    /// The closed flag is read before the value: the lever only closes
    /// after its last write, so a reading with the flag set carries the
    /// frozen final state, and no interleaving can turn a wait whose value
    /// arrived into the wrong-side error.
    pub fn poll_raised(&self) -> (r: Option<Result<(), LeverDroppedWhileLowered>>) {
        let controller_closed = self.lever_was_dropped();
        let state = receiver_value(&self.receiver);
        raised_poll(state, controller_closed)
    }

    /// One poll of a wait until the state is `Lowered`; the mirror image of
    /// [`Gate::poll_raised`].
    pub fn poll_lowered(&self) -> (r: Option<Result<(), LeverDroppedWhileRaised>>) {
        let controller_closed = self.lever_was_dropped();
        let state = receiver_value(&self.receiver);
        lowered_poll(state, controller_closed)
    }

    /// Whether the lever bound to this gate has been dropped. Never fails,
    /// never blocks.
    pub fn lever_was_dropped(&self) -> (r: bool) {
        sender_was_dropped(&self.receiver)
    }

    /// A fresh receiving handle on the underlying channel, for an
    /// integration that awaits change notifications between polls.
    pub fn waiter(&self) -> watch::Receiver<Gateway> {
        receiver_clone(&self.receiver)
    }
}

impl Clone for Gate {
    /// Another observing handle on the same slot; the observing side stays
    /// open until the last clone is dropped.
    fn clone(&self) -> (r: Gate) {
        Gate { receiver: receiver_clone(&self.receiver) }
    }
}

/// Make a bound pair in the given initial state: the unique lever, and one
/// gate that may be cloned freely.
pub fn new(initial: Gateway) -> (Lever, Gate) {
    let (sender, receiver) = channel_new(initial);
    let lever = Lever { sender };
    let gate = Gate { receiver };
    (lever, gate)
}

/// Make a pair whose state starts `Raised`.
pub fn new_raised() -> (Lever, Gate) {
    new(Gateway::Raised)
}

/// Make a pair whose state starts `Lowered`.
pub fn new_lowered() -> (Lever, Gate) {
    new(Gateway::Lowered)
}

} // verus!
