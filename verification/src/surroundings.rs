//! What the event loop calls: the function that starts a publish request, and the cache.

use core::marker::PhantomData;

use crate::cache::SubscriptionCache;
use crate::types::Instant;
use vstd::prelude::*;

verus! {

/// A call that the event loop makes.
pub enum Call {
    /// The function that starts a publish request.
    PublishSource,
    /// [`SubscriptionCache::next_publish_time`], with this argument.
    NextPublishTime(bool),
}

/// The function that starts a publish request and the cache, with a record of the calls made.
/// Only [`start`](Self::start) and [`ask`](Self::ask) can reach the two, and each makes one call
/// and records it.
pub struct Surroundings<T, R, S> {
    publish_source: R,
    subscription_cache: S,
    calls: Ghost<Seq<Call>>,
    request: PhantomData<T>,
}

impl<T, R, S> Surroundings<T, R, S> {
    /// The function that starts a publish request.
    pub closed spec fn source(&self) -> R {
        self.publish_source
    }

    /// The cache.
    pub closed spec fn cache(&self) -> S {
        self.subscription_cache
    }

    /// All the calls made so far, in order.
    pub closed spec fn calls(&self) -> Seq<Call> {
        self.calls@
    }
}

impl<T, R: Fn() -> T, S: SubscriptionCache> Surroundings<T, R, S> {
    /// The surroundings before any call.
    pub fn new(publish_source: R, subscription_cache: S) -> (surroundings: Self)
        ensures
            surroundings.source() == publish_source,
            surroundings.cache() == subscription_cache,
            surroundings.calls() == Seq::<Call>::empty(),
    {
        Surroundings {
            publish_source,
            subscription_cache,
            calls: Ghost(Seq::empty()),
            request: PhantomData,
        }
    }

    /// Start a publish request.
    pub fn start(&mut self) -> (request: T)
        requires
            call_requires(old(self).source(), ()),
        ensures
            call_ensures(old(self).source(), (), request),
            final(self).source() == old(self).source(),
            final(self).cache() == old(self).cache(),
            final(self).calls() == old(self).calls().push(Call::PublishSource),
    {
        proof {
            self.calls@ = self.calls@.push(Call::PublishSource);
        }
        (self.publish_source)()
    }

    /// Ask the cache for the time of the next publish.
    pub fn ask(&mut self, set_last_publish: bool) -> (next: Option<Instant>)
        ensures
            old(self).cache().answers(set_last_publish, &final(self).cache(), next),
            final(self).source() == old(self).source(),
            final(self).calls() == old(self).calls().push(Call::NextPublishTime(set_last_publish)),
    {
        proof {
            self.calls@ = self.calls@.push(Call::NextPublishTime(set_last_publish));
        }
        self.subscription_cache.next_publish_time(set_last_publish)
    }
}

} // verus!
