//! The error values of the signal: each names one way in which the other
//! side of a pair has gone away, and none of them poisons the surviving
//! handle.

use crate::state::Gateway;
use vstd::prelude::*;

verus! {

/// Parsing a state name failed: the text was neither `Raised` nor `Lowered`.
#[derive(Debug, PartialEq, Eq, Structural, Clone, Copy)]
pub struct ParseGatewayError;

/// Every gate clone is gone; this error carries the frozen state, so the
/// caller can read the final value anyway.
#[derive(Debug, PartialEq, Eq, Structural, Clone, Copy)]
pub struct BeforeGateDropped(pub Gateway);

/// Every gate clone was dropped, so raising or lowering reaches nobody.
/// The lever stays usable after this.
#[derive(Debug, PartialEq, Eq, Structural, Clone, Copy)]
pub struct GateDropped;

/// The lever was dropped while the state was `Raised`, so a wait for
/// `Lowered` can never succeed.
#[derive(Debug, PartialEq, Eq, Structural, Clone, Copy)]
pub struct LeverDroppedWhileRaised;

/// The lever was dropped while the state was `Lowered`, so a wait for
/// `Raised` can never succeed.
#[derive(Debug, PartialEq, Eq, Structural, Clone, Copy)]
pub struct LeverDroppedWhileLowered;

} // verus!
