//! The one-shot broadcast that tells every subservice task to stop at once.

use vstd::prelude::*;
use tokio_util::sync::CancellationToken;

verus! {

/// `tokio_util::sync::CancellationToken`, carried as an opaque value.
#[verifier::external_type_specification]
#[verifier::external_body]
pub struct ExCancellationToken(tokio_util::sync::CancellationToken);

/// Calls `CancellationToken::new`. Nothing is claimed of the token it returns.
#[verifier::external_body]
fn token_new() -> (token: CancellationToken) {
    CancellationToken::new()
}

/// Calls `CancellationToken::cancel`, which marks the token and all its
/// clones cancelled and wakes their waiters. Nothing is claimed here: the
/// token's state lies behind a shared reference.
#[verifier::external_body]
fn token_cancel(token: &CancellationToken) {
    token.cancel()
}

/// Calls `CancellationToken::clone`. The clone is claimed to equal the token,
/// as the crate's own `==` has it: the two share one state, so that
/// cancelling either cancels both.
#[verifier::external_body]
fn token_clone(token: &CancellationToken) -> (copy: CancellationToken)
    ensures
        copy == *token,
{
    token.clone()
}

/// Calls `CancellationToken::is_cancelled`. The answer depends on what other
/// holders of the token have done, so nothing is claimed of it.
#[verifier::external_body]
fn token_is_cancelled(token: &CancellationToken) -> (cancelled: bool) {
    token.is_cancelled()
}

/// One waiter's end of the signal. It reports the cancellation once, however
/// often it is asked and whatever other observers have done.
pub struct Observer {
    token: CancellationToken,
    seen: bool,
}

impl Observer {
    /// Whether this observer has already reported the cancellation.
    pub closed spec fn has_seen(&self) -> bool {
        self.seen
    }

    /// Tells whether this observer has already reported the cancellation.
    pub fn seen(&self) -> (s: bool)
        ensures
            s == self.has_seen(),
    {
        self.seen
    }

    /// The token that this observer watches.
    pub closed spec fn watched(&self) -> CancellationToken {
        self.token
    }

    /// The token to await; it completes when the signal is given.
    pub fn token(&self) -> (token: &CancellationToken)
        ensures
            *token == self.watched(),
    {
        &self.token
    }

    /// Takes note of what the token was found to be. The result is `true` for
    /// the first sighting of a cancellation and for no other.
    pub fn observe(&mut self, cancelled: bool) -> (fresh: bool)
        ensures
            fresh == (cancelled && !old(self).has_seen()),
            final(self).has_seen() == (old(self).has_seen() || cancelled),
            final(self).watched() == old(self).watched(),
    {
        if cancelled && !self.seen {
            self.seen = true;
            true
        } else {
            false
        }
    }

    /// Looks at the token without waiting. Whatever the token says, a
    /// cancellation is reported at most once.
    pub fn poll(&mut self) -> (fresh: bool)
        ensures
            old(self).has_seen() ==> !fresh && final(self).has_seen(),
            fresh ==> final(self).has_seen(),
            !fresh ==> final(self).has_seen() == old(self).has_seen(),
            final(self).watched() == old(self).watched(),
    {
        let cancelled = token_is_cancelled(&self.token);
        self.observe(cancelled)
    }
}

/// The "stop now" signal of one shutdown episode.
pub struct CancellationSignal {
    token: CancellationToken,
    fired: bool,
}

impl CancellationSignal {
    /// Whether the signal has been given.
    pub closed spec fn signalled(&self) -> bool {
        self.fired
    }

    /// The token that carries the signal to its observers.
    pub closed spec fn carrier(&self) -> CancellationToken {
        self.token
    }

    /// A fresh signal, not yet given.
    pub fn new() -> (s: Self)
        ensures
            !s.signalled(),
    {
        CancellationSignal { token: token_new(), fired: false }
    }

    /// Tells whether the signal has been given.
    pub fn is_signalled(&self) -> (b: bool)
        ensures
            b == self.signalled(),
    {
        self.fired
    }

    /// Gives the signal. The first call cancels the token; later calls do
    /// nothing. The result tells whether this call was the first.
    pub fn signal(&mut self) -> (first: bool)
        ensures
            final(self).signalled(),
            first == !old(self).signalled(),
            final(self).carrier() == old(self).carrier(),
    {
        if self.fired {
            false
        } else {
            token_cancel(&self.token);
            self.fired = true;
            true
        }
    }

    /// A new observer of this signal, independent of all others, that has
    /// reported nothing yet.
    pub fn subscribe(&self) -> (o: Observer)
        ensures
            !o.has_seen(),
            o.watched() == self.carrier(),
    {
        Observer { token: token_clone(&self.token), seen: false }
    }
}

} // verus!
