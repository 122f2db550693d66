//! What the event loop decides, as functions of its state and of what happened.

use crate::surroundings::Call;
use crate::types::{Error, Event, Instant, PublishLimits, StatusCode, SubscriptionActivity, WaitPlan};
use vstd::prelude::*;

verus! {

/// The state on which the event loop decides.
pub struct LoopView {
    /// The last external trigger that was acted on, or the one that the loop started with.
    pub last_external_trigger: Instant,
    /// The number of publish requests that were sent and have not ended.
    pub in_flight: nat,
    /// The server has refused a request as one too many, and none has succeeded since.
    pub waiting_for_response: bool,
    /// No subscription is known to be active, so the publishing interval sends nothing.
    pub no_active_subscription: bool,
}

/// How a publish request ended: whether more notifications are queued, or the status code of the
/// failure. A collection of requests that turns out to be empty counts as a failure.
pub open spec fn ended_as(polled: Option<Result<bool, Error>>) -> Result<bool, StatusCode> {
    match polled {
        Some(Ok(more_notifications)) => Ok(more_notifications),
        Some(Err(error)) => Err(error.status),
        None => Err(StatusCode::BadInvalidState),
    }
}

/// The status codes that say that the session is dead.
pub open spec fn is_fatal(status: StatusCode) -> bool {
    status == StatusCode::BadSessionClosed || status == StatusCode::BadSessionIdInvalid
}

/// What an event makes the loop report; `None` if the loop goes on without a report.
pub open spec fn activity(event: Event) -> Option<SubscriptionActivity> {
    match event {
        Event::Publish(polled) => Some(
            match ended_as(polled) {
                Ok(_) => SubscriptionActivity::Publish,
                Err(status) => if is_fatal(status) {
                    SubscriptionActivity::FatalFailure(status)
                } else {
                    SubscriptionActivity::PublishFailed(status)
                },
            },
        ),
        _ => None,
    }
}

/// Whether the event is the success of a publish request.
pub open spec fn is_success(event: Event) -> bool {
    event matches Event::Publish(polled) && ended_as(polled) is Ok
}

/// Whether the event is the failure of a publish request with the given status code.
pub open spec fn is_failure(event: Event, status: StatusCode) -> bool {
    event matches Event::Publish(polled) && ended_as(polled) == Err::<bool, StatusCode>(status)
}

impl LoopView {
    /// Back off only while a request is still in flight: its completion is what ends
    /// the back-off. With none left, nothing would end it and publishing would stop.
    pub open spec fn backing_off(self) -> bool {
        self.waiting_for_response && self.in_flight > 0
    }

    /// Whether a value of the trigger channel is a trigger that was not acted on yet.
    pub open spec fn is_new_trigger(self, value: Instant) -> bool {
        value.nanos > self.last_external_trigger.nanos
    }

    /// What the loop waits for when the next publish is due at `next_publish`: while it backs
    /// off, for the end of a request and for nothing else.
    pub open spec fn wait_plan(self, next_publish: Option<Instant>) -> WaitPlan {
        WaitPlan {
            trigger_after: if self.backing_off() {
                None
            } else {
                Some(self.last_external_trigger)
            },
            tick_at: if self.backing_off() {
                None
            } else {
                next_publish
            },
            publish: self.in_flight > 0,
        }
    }

    /// Whether the event can end a wait in this state, when the next publish is due at
    /// `next_publish`.
    pub open spec fn awaits(self, next_publish: Option<Instant>, event: Event) -> bool {
        match event {
            Event::Trigger(Some(value)) => !self.backing_off() && self.is_new_trigger(value),
            Event::Trigger(None) => !self.backing_off(),
            Event::Tick => !self.backing_off() && next_publish is Some,
            Event::Publish(_) => self.in_flight > 0,
        }
    }

    /// The number of requests in flight once the event has taken away the one that it ended.
    pub open spec fn left_in_flight(self, event: Event) -> nat {
        match event {
            Event::Publish(Some(_)) => if self.in_flight > 0 {
                (self.in_flight - 1) as nat
            } else {
                0
            },
            Event::Publish(None) => 0,
            _ => self.in_flight,
        }
    }

    /// Whether the event gives the loop a reason to send a publish request.
    pub open spec fn has_reason_to_publish(self, event: Event, limits: PublishLimits) -> bool {
        match event {
            Event::Trigger(trigger) => trigger is Some,
            Event::Tick => {
                &&& !self.no_active_subscription
                &&& self.in_flight < limits.max_publish_requests
            },
            Event::Publish(polled) => {
                &&& ended_as(polled) matches Ok(more_notifications)
                &&& {
                    ||| more_notifications
                    ||| self.left_in_flight(event) < limits.min_publish_requests
                }
            },
        }
    }

    /// Whether the loop keeps back a request that it has reason to send, since the server has
    /// refused one and another is still in flight.
    pub open spec fn holds_back(self, event: Event, limits: PublishLimits) -> bool {
        &&& self.has_reason_to_publish(event, limits)
        &&& self.waiting_for_response
        &&& self.left_in_flight(event) > 0
    }

    /// Whether the event makes the loop send a publish request.
    pub open spec fn publishes(self, event: Event, limits: PublishLimits) -> bool {
        self.has_reason_to_publish(event, limits) && !self.holds_back(event, limits)
    }

    /// Whether the event makes the loop ask the cache for the time of the next publish.
    pub open spec fn reschedules(self, event: Event, limits: PublishLimits) -> bool {
        event is Tick || self.publishes(event, limits)
    }

    /// The calls that the event makes the loop make, in order.
    pub open spec fn calls(self, event: Event, limits: PublishLimits) -> Seq<Call> {
        if self.publishes(event, limits) {
            seq![Call::PublishSource, Call::NextPublishTime(true)]
        } else if self.reschedules(event, limits) {
            seq![Call::NextPublishTime(true)]
        } else {
            seq![]
        }
    }

    /// The state after the event.
    pub open spec fn after(self, event: Event, limits: PublishLimits) -> LoopView {
        LoopView {
            last_external_trigger: match event {
                Event::Trigger(Some(value)) => value,
                _ => self.last_external_trigger,
            },
            in_flight: self.left_in_flight(event) + if self.publishes(event, limits) {
                1nat
            } else {
                0nat
            },
            waiting_for_response: if is_success(event) {
                false
            } else {
                self.waiting_for_response || is_failure(
                    event,
                    StatusCode::BadTooManyPublishRequests,
                )
            },
            no_active_subscription: if is_success(event) || event matches Event::Trigger(Some(_)) {
                false
            } else {
                self.no_active_subscription || is_failure(event, StatusCode::BadNoSubscription)
            },
        }
    }
}

} // verus!
