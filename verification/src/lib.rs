//! A two-state signal shared between one controlling handle and any number
//! of observing handles.
//!
//! The condition being signalled is a [`Gateway`]: either `Raised` or
//! `Lowered`. [`new`] builds a bound pair: a unique [`Lever`] that can flip
//! the state, and a cloneable [`Gate`] that reads it or polls a wait for a
//! target value. Each side can tell, without blocking, whether the other
//! side has been dropped.
//!
//! The shared slot itself is modelled by [`SharedCell`], a pure state
//! machine whose transitions carry the exact contracts of the protocol; the
//! live handles route every decision through the same verified functions,
//! over a watch channel that carries the state between tasks.

pub mod cell;
mod channel;
pub mod errors;
pub mod handles;
pub mod laws;
pub mod state;

pub use cell::{controller_read, lowered_poll, mutate_outcome, observer_read, raised_poll,
    wait_step, SharedCell, WaitOutcome};
pub use errors::{
    BeforeGateDropped, GateDropped, LeverDroppedWhileLowered, LeverDroppedWhileRaised,
    ParseGatewayError,
};
pub use handles::{new, new_lowered, new_raised, Gate, Lever};
pub use state::Gateway;
pub use state::Gateway::{Lowered, Raised};
