//! A one-shot flag paired with a cancellation token that wakes waiting tasks.

use crate::wake::{cancel, new_wake_token, new_wake_token_unlike, WakeToken};
use tokio_util::sync::CancellationToken;
use vstd::prelude::*;

verus! {

/// A flag that can be raised once and never lowered.
///
/// Raising it also cancels the token, so that tasks awaiting a handle obtained from
/// [`Signal::handle`] are woken. The flag is the record of whether [`Signal::set`] was
/// called on this value. A signal is not cloned: every holder of a handle observes the
/// one token, and the flag lives in the one value that owns it.
pub struct Signal {
    wake: WakeToken,
    raised: bool,
}

impl View for Signal {
    type V = bool;

    closed spec fn view(&self) -> bool {
        self.raised
    }
}

impl Signal {
    /// The token that raising this signal cancels.
    pub closed spec fn token(&self) -> CancellationToken {
        self.wake.token()
    }

    /// Whether the cancellation of the token was requested by this signal.
    pub closed spec fn cancel_requested(&self) -> bool {
        self.wake.cancel_requested()
    }

    /// Tasks waiting on the token are woken exactly when the signal is raised: the
    /// cancellation of its token was requested just when the signal was raised.
    pub open spec fn wakes_waiters(&self) -> bool {
        self@ == self.cancel_requested()
    }
}

/// The text `Signal { is_set: .. }`.
pub open spec fn signal_debug_text(is_set: bool) -> Seq<char> {
    if is_set {
        "Signal { is_set: true }"@
    } else {
        "Signal { is_set: false }"@
    }
}

impl Default for Signal {
    fn default() -> (s: Self)
        ensures
            !s@,
            !s.cancel_requested(),
    {
        Signal::new()
    }
}

impl Signal {
    /// A signal that is not set.
    pub fn new() -> (s: Self)
        ensures
            !s@,
            !s.cancel_requested(),
    {
        Signal { wake: new_wake_token(), raised: false }
    }

    /// A signal that is not set, with a token other than that of `other`.
    pub fn new_unlike(other: &Signal) -> (s: Self)
        ensures
            !s@,
            !s.cancel_requested(),
            s.token() != other.token(),
    {
        Signal { wake: new_wake_token_unlike(&other.wake), raised: false }
    }

    /// Raises the signal, cancelling its token; raising it again changes nothing.
    pub fn set(&mut self)
        ensures
            final(self)@,
            final(self).cancel_requested(),
            final(self).token() == old(self).token(),
    {
        cancel(&mut self.wake);
        self.raised = true;
    }

    /// Whether the signal was raised.
    pub fn is_set(&self) -> (b: bool)
        ensures
            b == self@,
    {
        self.raised
    }

    /// A token that is cancelled when this signal is raised; tasks await it.
    pub fn handle(&self) -> (t: CancellationToken)
        ensures
            t == self.token(),
    {
        self.wake.handle()
    }

    /// The text that `Debug` shows for the signal.
    pub fn debug_text(&self) -> (s: String)
        ensures
            s@ == signal_debug_text(self@),
    {
        proof {
            reveal_strlit("Signal { is_set: true }");
            reveal_strlit("Signal { is_set: false }");
        }
        if self.raised {
            "Signal { is_set: true }".to_owned()
        } else {
            "Signal { is_set: false }".to_owned()
        }
    }
}

} // verus!
