//! The state machine of the subscription event loop.

use crate::cache::SubscriptionCache;
use crate::model::LoopView;
use crate::surroundings::{Call, Surroundings};
use crate::types::{
    ActivityOrNext, Error, Event, Instant, PublishLimits, StatusCode, SubscriptionActivity, WaitPlan,
};
use vstd::prelude::*;

verus! {

/// The state machine for the subscription event loop.
///
/// This is made generic and does no waiting of its own, to make it possible for users to
/// implement their own event loop that doesn't depend on a session, which can allow for several
/// useful features, such as:
///
///  - Backpressure, letting users replace the `publish` implementation with one that
///    waits for the consumer to be ready before passing the publish response to the
///    event loop.
///  - Custom subscription caches, for example for persisting subscription state.
///
/// `T` is a publish request under way, `R` the function that starts one, and `S` the cache. The
/// state machine does not hold the requests in flight, only their number: whoever drives it keeps
/// each request that [`tick`](Self::tick) hands out until it ends.
pub struct SubscriptionEventLoopState<T, R, S> {
    last_external_trigger: Instant,
    in_flight: usize,
    // This is true if the client has received BadTooManyPublishRequests
    // and is waiting for a response before making further requests.
    waiting_for_response: bool,
    // This is true at first, and if the client has received a no_subscriptions response,
    // and is waiting for a manual trigger or successful response before resuming publishing.
    no_active_subscription: bool,
    surroundings: Surroundings<T, R, S>,
    session_id: u32,
}

/// What handling one event comes to, with the request that it started.
#[derive(Debug)]
pub struct Ticked<T> {
    /// A publish request that was started and is now in flight.
    pub request: Option<T>,
    /// Whether there was reason to start a request, but the loop backs off.
    pub held_back: bool,
    /// Whether the iteration ends, and if not, when the next publish is due.
    pub outcome: ActivityOrNext,
}

impl<T, R, S> View for SubscriptionEventLoopState<T, R, S> {
    type V = LoopView;

    closed spec fn view(&self) -> LoopView {
        LoopView {
            last_external_trigger: self.last_external_trigger,
            in_flight: self.in_flight as nat,
            waiting_for_response: self.waiting_for_response,
            no_active_subscription: self.no_active_subscription,
        }
    }
}

/// The result of the publish request that ended the wait, where `polled` is what the collection
/// of requests in flight gave.
pub fn publish_result(polled: Option<Result<bool, Error>>) -> (result: Result<bool, Error>)
    ensures
        polled matches Some(ended) ==> result == ended,
        polled is None ==> {
            &&& result matches Err(error)
            &&& error.status == StatusCode::BadInvalidState
            &&& error.message@
                == "Invalid state, polling for publish completion returned None"@
        },
{
    match polled {
        Some(ended) => ended,
        None => Err(
            Error::new(
                StatusCode::BadInvalidState,
                "Invalid state, polling for publish completion returned None",
            ),
        ),
    }
}

impl<T, R, S> SubscriptionEventLoopState<T, R, S> {
    /// The function that starts a publish request.
    pub closed spec fn source(&self) -> R {
        self.surroundings.source()
    }

    /// The cache.
    pub closed spec fn cache(&self) -> S {
        self.surroundings.cache()
    }

    /// All the calls made so far, of the function that starts a publish request and of the cache,
    /// in order.
    pub closed spec fn calls(&self) -> Seq<Call> {
        self.surroundings.calls()
    }

    /// The session id.
    pub closed spec fn session(&self) -> u32 {
        self.session_id
    }

    /// Whether the event loop holds back all requests until one that is in flight ends.
    pub fn backing_off(&self) -> (backing_off: bool)
        ensures
            backing_off == self@.backing_off(),
    {
        self.waiting_for_response && self.in_flight != 0
    }

    /// The session id, for logging purposes.
    pub fn session_id(&self) -> (session_id: u32)
        ensures
            session_id == self.session(),
    {
        self.session_id
    }

    /// The number of publish requests in flight.
    pub fn in_flight(&self) -> (in_flight: usize)
        ensures
            in_flight == self@.in_flight,
    {
        self.in_flight
    }

    /// The last external trigger that was acted on, or the one that the loop started with. A
    /// later value of the trigger channel is a new trigger.
    pub fn last_external_trigger(&self) -> (trigger: Instant)
        ensures
            trigger == self@.last_external_trigger,
    {
        self.last_external_trigger
    }

    /// Whether a value of the trigger channel is a trigger that was not acted on yet.
    pub fn is_new_trigger(&self, value: Instant) -> (is_new: bool)
        ensures
            is_new == self@.is_new_trigger(value),
    {
        value.is_after(self.last_external_trigger)
    }

    /// Whether the event can end a wait, when the next publish is due at `next_publish`.
    pub fn awaits(&self, next_publish: Option<Instant>, event: &Event) -> (awaits: bool)
        ensures
            awaits == self@.awaits(next_publish, *event),
    {
        match event {
            Event::Trigger(Some(value)) => !self.backing_off() && self.is_new_trigger(*value),
            Event::Trigger(None) => !self.backing_off(),
            Event::Tick => !self.backing_off() && next_publish.is_some(),
            Event::Publish(_) => self.in_flight != 0,
        }
    }

    /// What to wait for, when the next publish is due at `next_publish`.
    ///
    /// While backing off, external triggers are left pending instead of being dropped. They fire
    /// once the back-off ends, after the response that ended it.
    pub fn wait_plan(&self, next_publish: Option<Instant>) -> (plan: WaitPlan)
        ensures
            plan == self@.wait_plan(next_publish),
    {
        let backing_off = self.backing_off();
        WaitPlan {
            trigger_after: if backing_off {
                None
            } else {
                Some(self.last_external_trigger)
            },
            tick_at: if backing_off {
                None
            } else {
                next_publish
            },
            publish: self.in_flight != 0,
        }
    }
}

impl<T, R: Fn() -> T, S: SubscriptionCache> SubscriptionEventLoopState<T, R, S> {
    /// Whether the function that starts a publish request can be called.
    pub open spec fn can_publish(&self) -> bool {
        call_requires(self.source(), ())
    }

    /// Construct a new subscription event loop state.
    ///
    /// # Arguments
    ///
    /// * `session_id` - The session id for logging purposes.
    /// * `last_external_trigger` - The value that the channel for external publish triggers holds
    ///   now. Only a later one is a trigger.
    /// * `publish_source` - A function that starts a publish operation.
    /// * `subscription_cache` - An implementation of the [SubscriptionCache] trait.
    pub fn new(
        session_id: u32,
        last_external_trigger: Instant,
        publish_source: R,
        subscription_cache: S,
    ) -> (state: Self)
        requires
            call_requires(publish_source, ()),
        ensures
            state.can_publish(),
            state@ == (LoopView {
                last_external_trigger,
                in_flight: 0,
                waiting_for_response: false,
                no_active_subscription: true,
            }),
            state.source() == publish_source,
            state.cache() == subscription_cache,
            state.calls() == Seq::<Call>::empty(),
            state.session() == session_id,
    {
        SubscriptionEventLoopState {
            last_external_trigger,
            in_flight: 0,
            waiting_for_response: false,
            no_active_subscription: true,
            surroundings: Surroundings::new(publish_source, subscription_cache),
            session_id,
        }
    }

    /// Begin an iteration of the event loop: the time at which the first publish is due.
    ///
    /// The iteration then waits as [`wait_plan`](Self::wait_plan) says and hands each event to
    /// [`tick`](Self::tick), until that comes to an activity.
    pub fn begin_iteration(&mut self) -> (next_publish: Option<Instant>)
        ensures
            final(self)@ == old(self)@,
            final(self).source() == old(self).source(),
            final(self).session() == old(self).session(),
            old(self).cache().answers(false, &final(self).cache(), next_publish),
            final(self).calls() == old(self).calls().push(Call::NextPublishTime(false)),
    {
        self.surroundings.ask(false)
    }

    /// Start a publish request.
    fn publish(&mut self) -> (request: T)
        requires
            old(self).can_publish(),
            old(self)@.in_flight < usize::MAX,
        ensures
            final(self)@ == (LoopView { in_flight: old(self)@.in_flight + 1, ..old(self)@ }),
            final(self).source() == old(self).source(),
            final(self).cache() == old(self).cache(),
            final(self).session() == old(self).session(),
            call_ensures(old(self).source(), (), request),
            final(self).calls() == old(self).calls().push(Call::PublishSource),
    {
        let request = self.surroundings.start();
        self.in_flight = self.in_flight + 1;
        request
    }

    /// Handle the event that ended a wait, where `next_publish` is when the next publish was due
    /// and `limits` holds the limits as they are now.
    ///
    /// A driver that cannot tell whether the event can have ended the wait asks
    /// [`awaits`](Self::awaits).
    pub fn tick(
        &mut self,
        next_publish: Option<Instant>,
        event: Event,
        limits: PublishLimits,
    ) -> (ticked: Ticked<T>)
        requires
            old(self).can_publish(),
            old(self)@.awaits(next_publish, event),
            event matches Event::Trigger(Some(_)) ==> old(self)@.in_flight < usize::MAX,
        ensures
            final(self).can_publish(),
            final(self)@ == old(self)@.after(event, limits),
            final(self).source() == old(self).source(),
            final(self).session() == old(self).session(),
            final(self).calls() == old(self).calls() + old(self)@.calls(event, limits),
            ticked.held_back == old(self)@.holds_back(event, limits),
            ticked.request is Some <==> old(self)@.publishes(event, limits),
            ticked.request matches Some(request) ==> call_ensures(
                old(self).source(),
                (),
                request,
            ),
            match crate::model::activity(event) {
                Some(activity) => ticked.outcome == ActivityOrNext::Activity(activity),
                None => ticked.outcome is Next,
            },
            ticked.outcome matches ActivityOrNext::Next(next) ==> if old(self)@.reschedules(
                event,
                limits,
            ) {
                old(self).cache().answers(true, &final(self).cache(), next)
            } else {
                next == next_publish
            },
            event is Tick || (event matches Event::Trigger(Some(_))) ==> {
                &&& ticked.outcome matches ActivityOrNext::Next(next)
                &&& old(self).cache().answers(true, &final(self).cache(), next)
            },
            event matches Event::Trigger(Some(_)) ==> ticked.request is Some,
            event matches Event::Trigger(None) ==> {
                &&& ticked.outcome == ActivityOrNext::Next(next_publish)
                &&& ticked.request is None
                &&& final(self).cache() == old(self).cache()
                &&& final(self)@ == old(self)@
            },
            event matches Event::Publish(Some(Err(_))) ==> {
                &&& ticked.request is None
                &&& final(self).cache() == old(self).cache()
            },
            old(self)@.reschedules(event, limits) ==> crate::cache::asked(
                old(self).cache(),
                true,
                final(self).cache(),
            ),
            !old(self)@.reschedules(event, limits) ==> final(self).cache() == old(self).cache(),
    {
        match event {
            Event::Trigger(trigger) => {
                let mut request: Option<T> = None;
                let mut next: Option<Instant> = next_publish;
                if let Some(value) = trigger {
                    // On an external trigger, we always publish.
                    request = Some(self.publish());
                    next = self.surroundings.ask(true);
                    self.last_external_trigger = value;
                    self.no_active_subscription = false;
                }
                Ticked { request, held_back: false, outcome: ActivityOrNext::Next(next) }
            },
            Event::Tick => {
                let mut request: Option<T> = None;
                let mut held_back = false;
                if !self.no_active_subscription && self.in_flight < limits.max_publish_requests {
                    if !self.backing_off() {
                        request = Some(self.publish());
                    } else {
                        held_back = true;
                    }
                }
                let next = self.surroundings.ask(true);
                Ticked { request, held_back, outcome: ActivityOrNext::Next(next) }
            },
            Event::Publish(polled) => {
                self.in_flight = match polled {
                    Some(_) => self.in_flight - 1,
                    None => 0,
                };
                match publish_result(polled) {
                    Ok(more_notifications) => {
                        let mut request: Option<T> = None;
                        let mut held_back = false;
                        if more_notifications || self.in_flight < limits.min_publish_requests {
                            if !self.backing_off() {
                                request = Some(self.publish());
                                // Set the last publish time to avoid a buildup
                                // of publish requests if exhausting the queue takes
                                // more time than a single publishing interval.
                                let _ = self.surroundings.ask(true);
                            } else {
                                held_back = true;
                            }
                        }
                        self.waiting_for_response = false;
                        self.no_active_subscription = false;
                        Ticked {
                            request,
                            held_back,
                            outcome: ActivityOrNext::Activity(SubscriptionActivity::Publish),
                        }
                    },
                    Err(error) => {
                        let status = error.status();
                        match status {
                            StatusCode::BadTooManyPublishRequests => {
                                self.waiting_for_response = true;
                            },
                            StatusCode::BadSessionClosed | StatusCode::BadSessionIdInvalid => {
                                // If this happens we will probably eventually fail keep-alive,
                                // defer to that.
                                return Ticked {
                                    request: None,
                                    held_back: false,
                                    outcome: ActivityOrNext::Activity(
                                        SubscriptionActivity::FatalFailure(status),
                                    ),
                                };
                            },
                            StatusCode::BadNoSubscription => {
                                self.no_active_subscription = true;
                            },
                            _ => {},
                        }
                        Ticked {
                            request: None,
                            held_back: false,
                            outcome: ActivityOrNext::Activity(
                                SubscriptionActivity::PublishFailed(status),
                            ),
                        }
                    },
                }
            },
        }
    }
}

} // verus!
