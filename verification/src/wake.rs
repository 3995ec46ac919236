//! A cancellation token together with the record of whether this library asked for its
//! cancellation. Only the trusted wrappers below make a token or write its record.

use tokio_util::sync::CancellationToken;
use vstd::prelude::*;

verus! {

#[verifier::external_type_specification]
#[verifier::external_body]
pub struct ExCancellationToken(tokio_util::sync::CancellationToken);

/// `CancellationToken::clone`: the clone holds a clone of the same `Arc` to the token's
/// node (the source builds `CancellationToken { inner: self.inner.clone() }`), so it is
/// the same value: the documentation's `==` on tokens holds between a token and its
/// clone, and cancelling either cancels both.
pub assume_specification[ <tokio_util::sync::CancellationToken as Clone>::clone ](
    token: &CancellationToken,
) -> (res: CancellationToken)
    ensures
        res == *token,
;

/// `<CancellationToken as PartialEq>::eq`: whether the two tokens share one node (the
/// source compares with `Arc::ptr_eq`). Tokens are equal as values exactly when they
/// share a node: a clone shares it, a token made by `new` has its own.
#[verifier::external_body]
pub(crate) fn same_token(a: &CancellationToken, b: &CancellationToken) -> (r: bool)
    ensures
        r == (*a == *b),
{
    a == b
}

/// A cancellation token, and whether its cancellation was requested through
/// [`cancel`].
pub struct WakeToken {
    token: CancellationToken,
    requested: Ghost<bool>,
}

impl WakeToken {
    /// The token.
    pub closed spec fn token(&self) -> CancellationToken {
        self.token
    }

    /// Whether [`cancel`] was called on this token.
    pub closed spec fn cancel_requested(&self) -> bool {
        self.requested@
    }

    /// A handle to the token: cancelling either cancels both.
    pub fn handle(&self) -> (t: CancellationToken)
        ensures
            t == self.token(),
    {
        self.token.clone()
    }
}

/// `CancellationToken::new`: a fresh token in the non-cancelled state, whose
/// cancellation was not requested. Nothing more is stated of the token: its state is
/// shared with its clones.
#[verifier::external_body]
pub(crate) fn new_wake_token() -> (t: WakeToken)
    ensures
        !t.cancel_requested(),
{
    WakeToken { token: CancellationToken::new(), requested: Ghost(false) }
}

/// `CancellationToken::new` while `other` is alive: the fresh token has a node of its
/// own, so it differs from the token of `other`.
#[verifier::external_body]
pub(crate) fn new_wake_token_unlike(other: &WakeToken) -> (t: WakeToken)
    ensures
        !t.cancel_requested(),
        t.token() != other.token(),
{
    let _ = other;
    WakeToken { token: CancellationToken::new(), requested: Ghost(false) }
}

/// `CancellationToken::cancel`: cancels the token and wakes every task that waits on it
/// or on one of its clones; the record says that this was done, and the token stays the
/// same. The token's own state is shared with its clones and is not stated.
#[verifier::external_body]
pub(crate) fn cancel(t: &mut WakeToken)
    ensures
        final(t).cancel_requested(),
        final(t).token() == old(t).token(),
{
    t.token.cancel()
}

} // verus!
