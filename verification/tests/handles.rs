//! Tests of the live handle pair over the real channel.

use gateway_signal::{
    new_lowered, new_raised, BeforeGateDropped, GateDropped, Gateway, LeverDroppedWhileLowered,
    LeverDroppedWhileRaised, Lowered,
};

/// Tests that the `new_raised` function returns
/// a `Gate` that is initially raised,
/// just like the name / docs claim it does.
#[test]
fn starts_raised_like_it_claims() {
    let (lever, gate) = new_raised();

    assert!(gate.is_raised());
    assert!(!gate.is_lowered());

    assert!(lever.is_raised().unwrap());
    assert!(!lever.is_lowered().unwrap());
}

/// Tests that the `new_lowered` function returns
/// a `Gate` that is initially lowered,
/// just like the name / docs claim it does.
#[test]
fn starts_lowered_like_it_claims() {
    let (lever, gate) = new_lowered();

    assert!(gate.is_lowered());
    assert!(!gate.is_raised());

    assert!(lever.is_lowered().unwrap());
    assert!(!lever.is_raised().unwrap());
}

/// Tests that a `Lever` can check if its `Gate` dropped.
#[test]
fn lever_can_check_gate_was_dropped() {
    let (lever, gate) = new_raised();

    assert!(!lever.gate_was_dropped());

    drop(gate);

    assert!(lever.gate_was_dropped());
}

/// Tests that a `Gate` can check if its `Lever` dropped.
#[test]
fn gate_can_check_lever_was_dropped() {
    let (lever, gate) = new_raised();

    assert!(!gate.lever_was_dropped());

    drop(lever);

    assert!(gate.lever_was_dropped());
}

/// Tests that a `Lever` can retrieve the state of a `Gate`
/// both before being dropped and after being dropped.
#[test]
fn lever_can_retrieve_dropped_gate_state() {
    let (lever, gate) = new_lowered();

    assert!(lever.is_lowered().unwrap());
    assert!(!lever.is_raised().unwrap());

    drop(gate);

    assert!(matches!(
        lever.is_lowered().unwrap_err(),
        BeforeGateDropped(Lowered)
    ));
    assert!(matches!(
        lever.is_raised().unwrap_err(),
        BeforeGateDropped(Lowered)
    ));
}

/// A poll of a wait resolves at once when the state already matches.
#[test]
fn poll_resolves_instantly_when_satisfied() {
    let (_raised_lever, raised_gate) = new_raised();
    let (_lowered_lever, lowered_gate) = new_lowered();

    assert!(matches!(raised_gate.poll_raised(), Some(Ok(()))));
    assert!(matches!(lowered_gate.poll_lowered(), Some(Ok(()))));
}

/// A poll of a wait suspends while the state differs, and resolves exactly
/// once the matching mutation has been made.
#[test]
fn poll_suspends_until_matching_set() {
    let (raised_lever, raised_gate) = new_raised();
    let (lowered_lever, lowered_gate) = new_lowered();

    assert!(raised_gate.poll_lowered().is_none());
    assert!(lowered_gate.poll_raised().is_none());

    raised_lever.lower().unwrap();
    lowered_lever.raise().unwrap();

    assert!(matches!(raised_gate.poll_lowered(), Some(Ok(()))));
    assert!(matches!(lowered_gate.poll_raised(), Some(Ok(()))));
}

/// A wait for `Raised` fails once the lever is dropped while lowered, while
/// a wait for `Lowered` on the same gate still resolves.
#[test]
fn lowered_gate_fails_raised_poll_when_lever_dropped() {
    let (lever, gate) = new_lowered();

    drop(lever);

    assert!(gate.lever_was_dropped());
    assert!(matches!(
        gate.poll_raised(),
        Some(Err(LeverDroppedWhileLowered))
    ));
    assert!(matches!(gate.poll_lowered(), Some(Ok(()))));
}

/// The symmetric case: the lever dropped while raised fails a wait for
/// `Lowered` and resolves a wait for `Raised`.
#[test]
fn raised_gate_fails_lowered_poll_when_lever_dropped() {
    let (lever, gate) = new_raised();

    drop(lever);

    assert!(gate.lever_was_dropped());
    assert!(matches!(
        gate.poll_lowered(),
        Some(Err(LeverDroppedWhileRaised))
    ));
    assert!(matches!(gate.poll_raised(), Some(Ok(()))));
}

/// Once every gate clone is gone, mutations err with `GateDropped`, queries
/// err with `BeforeGateDropped`, and the lever stays usable throughout.
#[test]
fn lever_calls_fail_once_gate_dropped() {
    let (lever, gate) = new_raised();

    assert!(!lever.gate_was_dropped());
    drop(gate);
    assert!(lever.gate_was_dropped());

    assert!(matches!(lever.raise(), Err(GateDropped)));
    assert!(matches!(lever.lower(), Err(GateDropped)));
    assert!(matches!(
        lever.is_raised(),
        Err(BeforeGateDropped(Gateway::Raised))
    ));
    assert!(matches!(
        lever.is_lowered(),
        Err(BeforeGateDropped(Gateway::Raised))
    ));
    assert!(lever.gate_was_dropped());
}

/// Every clone reads the same slot, and the observing side only closes once
/// the last clone is gone.
#[test]
fn gate_clones_share_the_slot() {
    let (lever, gate) = new_lowered();
    let clone = gate.clone();

    lever.raise().unwrap();
    assert!(gate.is_raised());
    assert!(clone.is_raised());

    drop(gate);
    assert!(!lever.gate_was_dropped());
    assert!(clone.is_raised());

    drop(clone);
    assert!(lever.gate_was_dropped());
}

/// A mutation to the value already held changes nothing and signals no
/// receiver, while an actual change does.
#[test]
fn no_op_set_wakes_nobody() {
    let (lever, gate) = new_raised();
    let waiter = gate.waiter();

    assert!(!waiter.has_changed().unwrap());

    lever.raise().unwrap();
    assert!(!waiter.has_changed().unwrap());

    lever.lower().unwrap();
    assert!(waiter.has_changed().unwrap());
}
