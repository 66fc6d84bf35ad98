//! The bridge to the outside notification primitive: a `tokio` watch
//! channel carries the shared state between the live handles.
//!
//! Everything here is trusted: each wrapper holds one call into `tokio`, and
//! nothing is claimed of a reading beyond what the channel's own
//! documentation promises — the value and the closed flags live in shared
//! storage that other handles may move between any two calls, so no wrapper
//! pins a result down. The handles route every decision taken on a reading
//! through the verified functions of [`crate::cell`].

use crate::state::Gateway;
use tokio::sync::watch;
use vstd::prelude::*;

verus! {

#[verifier::external_type_specification]
#[verifier::external_body]
#[verifier::reject_recursive_types(T)]
pub struct ExWatchSender<T>(watch::Sender<T>);

#[verifier::external_type_specification]
#[verifier::external_body]
#[verifier::reject_recursive_types(T)]
pub struct ExWatchReceiver<T>(watch::Receiver<T>);

/// Relies on tokio::sync::watch::channel: makes one channel that initially
/// holds `initial`, with one sending and one receiving handle on it.
#[verifier::external_body]
pub(crate) fn channel_new(initial: Gateway) -> (watch::Sender<Gateway>, watch::Receiver<Gateway>) {
    watch::channel(initial)
}

/// Relies on tokio::sync::watch::Sender::borrow: reads the value the channel
/// holds at some moment during the call.
#[verifier::external_body]
pub(crate) fn sender_value(s: &watch::Sender<Gateway>) -> Gateway {
    *s.borrow()
}

/// Relies on tokio::sync::watch::Sender::is_closed: whether every receiving
/// handle had been dropped at some moment during the call.
#[verifier::external_body]
pub(crate) fn sender_is_closed(s: &watch::Sender<Gateway>) -> bool {
    s.is_closed()
}

/// Relies on tokio::sync::watch::Sender::send_if_modified: runs the closure
/// on the held value under the channel's lock, and wakes the receivers'
/// waiters iff the closure reports a change, which it returns. The closure
/// only calls the verified `Gateway::step_to`.
#[verifier::external_body]
pub(crate) fn sender_set(s: &watch::Sender<Gateway>, target: Gateway) -> bool {
    s.send_if_modified(|g: &mut Gateway| g.step_to(target))
}

/// Relies on tokio::sync::watch::Receiver::borrow: reads the value the
/// channel holds at some moment during the call.
#[verifier::external_body]
pub(crate) fn receiver_value(r: &watch::Receiver<Gateway>) -> Gateway {
    *r.borrow()
}

/// Relies on tokio::sync::watch::Receiver::has_changed, which errs exactly
/// when the sending handle had been dropped at some moment during the call.
#[verifier::external_body]
pub(crate) fn sender_was_dropped(r: &watch::Receiver<Gateway>) -> bool {
    r.has_changed().is_err()
}

/// Relies on tokio::sync::watch::Receiver::clone: a new receiving handle on
/// the same channel.
#[verifier::external_body]
pub(crate) fn receiver_clone(r: &watch::Receiver<Gateway>) -> watch::Receiver<Gateway> {
    r.clone()
}

} // verus!
