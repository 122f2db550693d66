//! The caller's side of the event loop: who knows the subscriptions.

use crate::types::Instant;
use vstd::prelude::*;

verus! {

/// A trait for managing subscription state in the event loop.
///
/// This is just a handle to something that tracks subscriptions, letting the event loop query
/// when the next publish should be sent.
pub trait SubscriptionCache {
    /// Whether a cache in this state, asked with `set_last_publish`, may answer `next` and be
    /// left in the state `after`. It is for an implementation to say here what it promises; one
    /// that does not say so promises nothing.
    open spec fn answers(&self, set_last_publish: bool, after: &Self, next: Option<Instant>) -> bool {
        true
    }

    /// Get and update the time for the next publish. If `set_last_publish` is true,
    /// the last publish time is updated to now, affecting future calls to this method.
    fn next_publish_time(&mut self, set_last_publish: bool) -> (next: Option<Instant>)
        ensures
            old(self).answers(set_last_publish, final(self), next),
    ;
}

/// Whether asking a cache in the state `before` once, with `set_last_publish`, may leave it in the
/// state `after`.
pub open spec fn asked<S: SubscriptionCache>(before: S, set_last_publish: bool, after: S) -> bool {
    exists|next: Option<Instant>| before.answers(set_last_publish, &after, next)
}

/// Asking a cache leaves it in a state that goes with one of the answers that it may give, and in
/// any such state.
pub proof fn law_asking_goes_with_an_answer<S: SubscriptionCache>(
    before: S,
    set_last_publish: bool,
    after: S,
)
    ensures
        asked(before, set_last_publish, after) <==> exists|next: Option<Instant>|
            before.answers(set_last_publish, &after, next),
{
}

} // verus!
