//! The protocol's laws, proved over the pure model of the shared slot.
//!
//! Each proof function states one rule of the signal for every value it
//! quantifies over; together they pin down how the two sides of a pair see
//! one another through a whole lifetime.

use crate::cell::{bumped, spec_close_controller, spec_close_observer, spec_controller_read, spec_fresh,
    spec_set, spec_wait, SharedCell, WaitOutcome};
use crate::errors::{BeforeGateDropped, GateDropped, ParseGatewayError};
use crate::state::{spec_label, spec_parse, Gateway};
use vstd::prelude::*;

verus! {

/// A freshly made pair reads consistently on both sides, whatever the
/// initial state: the controlling side's query answers `Ok` of the very
/// boolean the observing side reads, it is `true` exactly when the initial
/// state is the queried one, and the two queries always disagree with one
/// another.
pub proof fn law_fresh_pair_agrees(initial: Gateway)
    ensures
        ({
            let c = spec_fresh(initial);
            &&& spec_controller_read(c.state, c.observer_closed, Gateway::Raised) == Ok::<
                bool,
                BeforeGateDropped,
            >(c.state == Gateway::Raised)
            &&& spec_controller_read(c.state, c.observer_closed, Gateway::Lowered) == Ok::<
                bool,
                BeforeGateDropped,
            >(c.state == Gateway::Lowered)
            &&& (c.state == Gateway::Raised) == (initial == Gateway::Raised)
            &&& (c.state == Gateway::Lowered) == (initial == Gateway::Lowered)
            &&& (c.state == Gateway::Raised) == !(c.state == Gateway::Lowered)
        }),
{
}

/// The inversion on the two states is total: it swaps them, never fixes a
/// point, and twice over is the identity.
pub proof fn law_inverse_involutive(g: Gateway)
    ensures
        g.inverse().inverse() == g,
        g.inverse() != g,
        (g.inverse() == Gateway::Raised) == (g == Gateway::Lowered),
{
}

/// The version counter counts exactly the actual transitions: an accepted
/// mutation leaves it alone when the state already matched, bumps it when
/// the state changed, and it never goes backwards.
pub proof fn law_version_counts_transitions(c: SharedCell, target: Gateway)
    requires
        !c.observer_closed,
    ensures
        c.state == target ==> spec_set(c, target).0.version == c.version,
        c.state != target ==> spec_set(c, target).0.version == bumped(c.version),
        spec_set(c, target).0.version >= c.version,
{
}

/// A wait for a value the state already holds resolves at once, whatever
/// either closed flag says.
pub proof fn law_wait_already_satisfied(c: SharedCell, target: Gateway)
    requires
        c.state == target,
    ensures
        spec_wait(c.state, c.controller_closed, target) == WaitOutcome::Resolved,
{
}

/// While the state differs from the waited-for target and both sides live,
/// a wait suspends; after one mutation it resolves exactly when that
/// mutation set the target value.
pub proof fn law_wait_resolves_on_matching_set(c: SharedCell, target: Gateway, next: Gateway)
    requires
        c.state != target,
        !c.controller_closed,
        !c.observer_closed,
    ensures
        spec_wait(c.state, c.controller_closed, target) == WaitOutcome::Suspended,
        ({
            let after = spec_set(c, next).0;
            (spec_wait(after.state, after.controller_closed, target) == WaitOutcome::Resolved)
                <==> next == target
        }),
{
}

/// Setting the value the slot already holds changes nothing: the cell stays
/// the very same — version included — and the report says no waiter is to
/// be woken.
pub proof fn law_no_op_set(c: SharedCell, target: Gateway)
    requires
        !c.observer_closed,
        c.state == target,
    ensures
        spec_set(c, target) == (c, Ok::<bool, GateDropped>(false)),
{
}

/// Once the observing side is gone, a mutation errs with `GateDropped` and
/// leaves the cell untouched — the controlling side stays usable — and the
/// controlling side's queries err with `BeforeGateDropped` carrying the
/// frozen state, whichever value they ask about.
pub proof fn law_observer_gone_faults(c: SharedCell, target: Gateway, want: Gateway)
    requires
        c.observer_closed,
    ensures
        spec_set(c, target) == (c, Err::<bool, GateDropped>(GateDropped)),
        spec_controller_read(c.state, c.observer_closed, want) == Err::<bool, BeforeGateDropped>(
            BeforeGateDropped(c.state),
        ),
{
}

/// Once the controlling side is gone, a wait fails exactly when the frozen
/// state differs from its target, and resolves successfully exactly when
/// the frozen state already matches it: dropping the lever is only an error
/// for the wait on the wrong side.
pub proof fn law_controller_gone_wait(c: SharedCell, target: Gateway)
    requires
        c.controller_closed,
    ensures
        (spec_wait(c.state, c.controller_closed, target) == WaitOutcome::Failed) <==> c.state
            != target,
        (spec_wait(c.state, c.controller_closed, target) == WaitOutcome::Resolved) <==> c.state
            == target,
{
}

/// The closed flags only ever go from false to true: a mutation preserves
/// both, and closing a side sets that side's flag, freezes everything else,
/// and does nothing the second time.
pub proof fn law_closed_flags_monotonic(c: SharedCell, target: Gateway)
    ensures
        spec_set(c, target).0.controller_closed == c.controller_closed,
        spec_set(c, target).0.observer_closed == c.observer_closed,
        spec_close_controller(c).controller_closed,
        spec_close_controller(c).observer_closed == c.observer_closed,
        spec_close_controller(c).state == c.state,
        spec_close_controller(c).version == c.version,
        c.controller_closed ==> spec_close_controller(c) == c,
        spec_close_observer(c).observer_closed,
        spec_close_observer(c).controller_closed == c.controller_closed,
        spec_close_observer(c).state == c.state,
        spec_close_observer(c).version == c.version,
        c.observer_closed ==> spec_close_observer(c) == c,
{
}

/// A state's display name parses back to that very state.
pub proof fn law_label_parses_back(g: Gateway)
    ensures
        spec_parse(spec_label(g)) == Ok::<Gateway, ParseGatewayError>(g),
{
    reveal_strlit("Raised");
    reveal_strlit("Lowered");
    assert("Raised"@.len() == 6);
    assert("Lowered"@.len() == 7);
}

} // verus!
