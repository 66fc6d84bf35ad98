//! The shared slot at the heart of the signal, as a pure state machine: the
//! current state, a version counter bumped on every actual transition, and
//! one irreversible closed flag per side.
//!
//! The live handles keep this slot inside a watch channel; the decision
//! functions here are the ones their calls route through, so every rule of
//! the protocol is stated and proved on plain values.

use crate::errors::{BeforeGateDropped, GateDropped, LeverDroppedWhileLowered,
    LeverDroppedWhileRaised};
use crate::state::Gateway;
use vstd::prelude::*;

verus! {

/// The synchronized storage shared by one lever and all gate clones.
#[derive(Debug, PartialEq, Eq, Structural, Clone, Copy)]
pub struct SharedCell {
    /// The last value the controlling side set.
    pub state: Gateway,
    /// Bumped on every transition that actually changes `state`, and the
    /// signal by which suspended waiters are woken.
    pub version: u64,
    /// True once the controlling side (the lever) has been dropped.
    pub controller_closed: bool,
    /// True once the last observing handle (gate clone) has been dropped.
    pub observer_closed: bool,
}

/// What a wait for a target value does next.
#[derive(Debug, PartialEq, Eq, Structural, Clone, Copy)]
pub enum WaitOutcome {
    /// The state already equals the target: resolve at once, successfully.
    Resolved,
    /// The controlling side is gone while the frozen state differs from the
    /// target: the wait can never succeed.
    Failed,
    /// The state differs from the target but may still change: suspend until
    /// the next transition.
    Suspended,
}

/// The cell a constructor makes: the chosen state, version zero, both sides
/// open.
pub open spec fn spec_fresh(initial: Gateway) -> SharedCell {
    SharedCell { state: initial, version: 0, controller_closed: false, observer_closed: false }
}

/// The version counter after one actual transition.
pub open spec fn bumped(v: u64) -> u64 {
    if v < u64::MAX {
        (v + 1) as u64
    } else {
        v
    }
}

/// The transition a mutation makes, with its report: refused whole when the
/// observing side is gone, a silent no-op when the state already equals the
/// target, and otherwise a write that bumps the version.
pub open spec fn spec_set(c: SharedCell, target: Gateway) -> (SharedCell, Result<
    bool,
    GateDropped,
>) {
    if c.observer_closed {
        (c, Err(GateDropped))
    } else if c.state == target {
        (c, Ok(false))
    } else {
        (SharedCell { state: target, version: bumped(c.version), ..c }, Ok(true))
    }
}

/// What the controlling side's query answers: the reading while any gate
/// clone lives, and otherwise an error carrying the frozen state.
pub open spec fn spec_controller_read(state: Gateway, observer_closed: bool, want: Gateway) -> Result<
    bool,
    BeforeGateDropped,
> {
    if observer_closed {
        Err(BeforeGateDropped(state))
    } else {
        Ok(state == want)
    }
}

/// What a wait for `target` does next, given the current reading.
pub open spec fn spec_wait(state: Gateway, controller_closed: bool, target: Gateway) -> WaitOutcome {
    if state == target {
        WaitOutcome::Resolved
    } else if controller_closed {
        WaitOutcome::Failed
    } else {
        WaitOutcome::Suspended
    }
}

/// The cell after the controlling side is dropped: its flag set, everything
/// else frozen as it was.
pub open spec fn spec_close_controller(c: SharedCell) -> SharedCell {
    SharedCell { controller_closed: true, ..c }
}

/// The cell after the last observing handle is dropped.
pub open spec fn spec_close_observer(c: SharedCell) -> SharedCell {
    SharedCell { observer_closed: true, ..c }
}

impl SharedCell {
    /// Make the cell in the given initial state, with both sides open.
    pub fn new(initial: Gateway) -> (c: SharedCell)
        ensures
            c == spec_fresh(initial),
    {
        SharedCell { state: initial, version: 0, controller_closed: false, observer_closed: false }
    }

    /// A mutation by the controlling side: set the state to `target`.
    ///
    /// Refused with `GateDropped`, and without any change, once every
    /// observing handle is gone. Otherwise the state becomes `target`, and
    /// the report says whether that was an actual change: a no-op neither
    /// bumps the version nor wakes any waiter.
    pub fn set_state(&mut self, target: Gateway) -> (r: Result<bool, GateDropped>)
        ensures
            (*final(self), r) == spec_set(*old(self), target),
            old(self).observer_closed ==> r == Err::<bool, GateDropped>(GateDropped)
                && *final(self) == *old(self),
            !old(self).observer_closed ==> r == Ok::<bool, GateDropped>(old(self).state != target)
                && final(self).state == target,
            old(self).state == target ==> *final(self) == *old(self),
            final(self).controller_closed == old(self).controller_closed,
            final(self).observer_closed == old(self).observer_closed,
    {
        if self.observer_closed {
            Err(GateDropped)
        } else {
            let changed = self.state.step_to(target);
            if changed && self.version < u64::MAX {
                self.version = self.version + 1;
            }
            Ok(changed)
        }
    }

    /// The controlling side's query: whether the state equals `want`, or,
    /// once every observing handle is gone, an error carrying the frozen
    /// state.
    pub fn controller_query(&self, want: Gateway) -> (r: Result<bool, BeforeGateDropped>)
        ensures
            r == spec_controller_read(self.state, self.observer_closed, want),
    {
        controller_read(self.state, self.observer_closed, want)
    }

    /// The observing side's query: whether the state equals `want`. It
    /// always answers; a frozen value is still meaningful to a reader.
    pub fn observer_query(&self, want: Gateway) -> (r: bool)
        ensures
            r == (self.state == want),
    {
        observer_read(self.state, want)
    }

    /// What a wait for `target` does next against this cell.
    pub fn poll_wait(&self, target: Gateway) -> (o: WaitOutcome)
        ensures
            o == spec_wait(self.state, self.controller_closed, target),
    {
        wait_step(self.state, self.controller_closed, target)
    }

    /// Record that the controlling side was dropped: its flag goes true and
    /// never back, and the state freezes at its last value.
    pub fn close_controller(&mut self)
        ensures
            *final(self) == spec_close_controller(*old(self)),
            final(self).controller_closed,
            final(self).state == old(self).state,
            final(self).version == old(self).version,
            final(self).observer_closed == old(self).observer_closed,
    {
        self.controller_closed = true;
    }

    /// Record that the last observing handle was dropped.
    pub fn close_observer(&mut self)
        ensures
            *final(self) == spec_close_observer(*old(self)),
            final(self).observer_closed,
            final(self).state == old(self).state,
            final(self).version == old(self).version,
            final(self).controller_closed == old(self).controller_closed,
    {
        self.observer_closed = true;
    }
}

/// Decide the controlling side's query from one reading of the slot.
pub fn controller_read(state: Gateway, observer_closed: bool, want: Gateway) -> (r: Result<
    bool,
    BeforeGateDropped,
>)
    ensures
        r == spec_controller_read(state, observer_closed, want),
        observer_closed ==> r == Err::<bool, BeforeGateDropped>(BeforeGateDropped(state)),
        !observer_closed ==> r == Ok::<bool, BeforeGateDropped>(state == want),
{
    if observer_closed {
        Err(BeforeGateDropped(state))
    } else {
        Ok(state == want)
    }
}

/// Decide the controlling side's mutation report from one reading of the
/// closed flag: refused with `GateDropped` exactly when every observing
/// handle is gone, accepted otherwise. The mutation twin of
/// [`controller_read`].
pub fn mutate_outcome(observer_closed: bool) -> (r: Result<(), GateDropped>)
    ensures
        observer_closed ==> r == Err::<(), GateDropped>(GateDropped),
        !observer_closed ==> r == Ok::<(), GateDropped>(()),
{
    if observer_closed {
        Err(GateDropped)
    } else {
        Ok(())
    }
}

/// Decide the observing side's query from one reading of the slot: whether
/// the state equals `want`. It always answers; a frozen value is still
/// meaningful to a reader.
pub fn observer_read(state: Gateway, want: Gateway) -> (r: bool)
    ensures
        r == (state == want),
{
    state == want
}

/// Decide what a wait for `target` does next from one reading of the slot:
/// resolve at once when the state already matches, fail when it differs and
/// the controlling side is gone, and suspend otherwise.
pub fn wait_step(state: Gateway, controller_closed: bool, target: Gateway) -> (o: WaitOutcome)
    ensures
        o == spec_wait(state, controller_closed, target),
        state == target ==> o == WaitOutcome::Resolved,
        state != target && controller_closed ==> o == WaitOutcome::Failed,
        state != target && !controller_closed ==> o == WaitOutcome::Suspended,
{
    if state == target {
        WaitOutcome::Resolved
    } else if controller_closed {
        WaitOutcome::Failed
    } else {
        WaitOutcome::Suspended
    }
}

/// One poll of a wait for `Raised`: the result when the wait is over, and
/// `None` while it must keep suspending.
pub fn raised_poll(state: Gateway, controller_closed: bool) -> (r: Option<Result<
    (),
    LeverDroppedWhileLowered,
>>)
    ensures
        state == Gateway::Raised ==> r == Some(Ok::<(), LeverDroppedWhileLowered>(())),
        state != Gateway::Raised && controller_closed ==> r == Some(Err::<
            (),
            LeverDroppedWhileLowered,
        >(LeverDroppedWhileLowered)),
        state != Gateway::Raised && !controller_closed ==> r is None,
{
    match wait_step(state, controller_closed, Gateway::Raised) {
        WaitOutcome::Resolved => Some(Ok(())),
        WaitOutcome::Failed => Some(Err(LeverDroppedWhileLowered)),
        WaitOutcome::Suspended => None,
    }
}

/// One poll of a wait for `Lowered`.
pub fn lowered_poll(state: Gateway, controller_closed: bool) -> (r: Option<Result<
    (),
    LeverDroppedWhileRaised,
>>)
    ensures
        state == Gateway::Lowered ==> r == Some(Ok::<(), LeverDroppedWhileRaised>(())),
        state != Gateway::Lowered && controller_closed ==> r == Some(Err::<
            (),
            LeverDroppedWhileRaised,
        >(LeverDroppedWhileRaised)),
        state != Gateway::Lowered && !controller_closed ==> r is None,
{
    match wait_step(state, controller_closed, Gateway::Lowered) {
        WaitOutcome::Resolved => Some(Ok(())),
        WaitOutcome::Failed => Some(Err(LeverDroppedWhileRaised)),
        WaitOutcome::Suspended => None,
    }
}

} // verus!
