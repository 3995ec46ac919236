//! Graceful shutdown coordination.
//!
//! A [`registry::Registry`] records whether a shutdown was initiated and, for every
//! shutdown guard handed out, whether that guard has departed (was cancelled or
//! released). A shutdown is complete once it was initiated and every guard has
//! departed. The [`tokio::Departure`] builder collects the conditions on which a
//! shutdown is initiated automatically.

pub mod deplist;
pub mod registry;
pub mod signal;
pub mod history;
pub mod tokio;
mod wake;

use crate::registry::{Registry, ShutdownGuard, Waiter};
use vstd::prelude::*;

verus! {

/// Creates a new shutdown guard in `registry`; the shutdown waits for it until it is
/// cancelled or released.
pub fn get_shutdown_guard(registry: &mut Registry) -> (g: ShutdownGuard)
    ensures
        final(registry)@ == old(registry)@.with_guard(),
        g.index() == old(registry)@.departed.len(),
        g.made_by(final(registry)),
        !g.initiates_on_drop(),
        !g.was_cancelled(),
        final(registry).keeps_tokens_of(old(registry)),
        old(registry).wakes_waiters() ==> final(registry).wakes_waiters(),
{
    registry.create_guard()
}

/// A waiter for the completion of the shutdown of `registry`; see
/// [`Registry::wait_step`].
pub fn wait_for_shutdown_complete(registry: &Registry) -> (it: Waiter)
    ensures
        it.position() == 0,
        it.made_for(registry),
        registry@.waited_past(it.position()),
{
    registry.wait_for_shutdown_complete()
}

/// Initiates the shutdown of `registry` and returns a waiter for its completion.
pub fn shutdown(registry: &mut Registry) -> (it: Waiter)
    ensures
        final(registry)@ == old(registry)@.initiated(),
        final(registry).shutdown_woken(),
        final(registry).keeps_tokens_of(old(registry)),
        old(registry).wakes_waiters() ==> final(registry).wakes_waiters(),
        it.position() == 0,
        it.made_for(final(registry)),
        final(registry)@.waited_past(it.position()),
{
    registry.shutdown();
    registry.wait_for_shutdown_complete()
}

} // verus!
