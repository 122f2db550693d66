//! What holds of the event loop as a whole, over single events and over sequences of them.

use crate::model::LoopView;
use crate::surroundings::Call;
use crate::types::{Error, Event, Instant, PublishLimits, StatusCode, SubscriptionActivity, WaitPlan};
use vstd::prelude::*;

verus! {

/// An event, with when the next publish was due and with the publish limits at the time at which
/// it is handled.
pub struct Occurrence {
    pub next_publish: Option<Instant>,
    pub event: Event,
    pub limits: PublishLimits,
}

impl LoopView {
    /// The state after all the events of a trace.
    pub open spec fn run(self, trace: Seq<Occurrence>) -> LoopView
        decreases trace.len(),
    {
        if trace.len() == 0 {
            self
        } else {
            self.run(trace.drop_last()).after(trace.last().event, trace.last().limits)
        }
    }

    /// Whether each event of a trace can end the wait that precedes it.
    pub open spec fn awaits_all(self, trace: Seq<Occurrence>) -> bool {
        forall|k: int|
            0 <= k < trace.len() ==> self.run(#[trigger] trace.take(k)).awaits(trace[k].next_publish, trace[k].event)
    }

    /// The number of publish requests that are sent in the course of a trace.
    pub open spec fn sent(self, trace: Seq<Occurrence>) -> nat
        decreases trace.len(),
    {
        if trace.len() == 0 {
            0
        } else {
            self.sent(trace.drop_last()) + if self.run(trace.drop_last()).publishes(
                trace.last().event,
                trace.last().limits,
            ) {
                1nat
            } else {
                0nat
            }
        }
    }
}

impl LoopView {
    /// The calls that an iteration makes which begins in this state and handles the events of a
    /// trace, in order.
    pub open spec fn iteration_calls(self, trace: Seq<Occurrence>) -> Seq<Call>
        decreases trace.len(),
    {
        if trace.len() == 0 {
            seq![Call::NextPublishTime(false)]
        } else {
            self.iteration_calls(trace.drop_last()) + self.run(trace.drop_last()).calls(
                trace.last().event,
                trace.last().limits,
            )
        }
    }
}

/// The number of publish requests that end in the course of a trace.
pub open spec fn ended(trace: Seq<Occurrence>) -> nat
    decreases trace.len(),
{
    if trace.len() == 0 {
        0
    } else {
        ended(trace.drop_last()) + if trace.last().event is Publish {
            1nat
        } else {
            0nat
        }
    }
}

proof fn lemma_run_step(view: LoopView, trace: Seq<Occurrence>, k: int)
    requires
        0 <= k < trace.len(),
    ensures
        view.run(trace.take(k + 1)) == view.run(trace.take(k)).after(
            trace[k].event,
            trace[k].limits,
        ),
{
    assert(trace.take(k + 1).drop_last() =~= trace.take(k));
}

proof fn lemma_awaits_prefix(view: LoopView, trace: Seq<Occurrence>)
    requires
        trace.len() > 0,
        view.awaits_all(trace),
    ensures
        view.awaits_all(trace.drop_last()),
        view.run(trace.drop_last()).awaits(trace.last().next_publish, trace.last().event),
{
    assert(trace.take(trace.len() - 1) =~= trace.drop_last());
    assert forall|k: int| 0 <= k < trace.drop_last().len() implies view.run(
        #[trigger] trace.drop_last().take(k),
    ).awaits(trace.drop_last()[k].next_publish, trace.drop_last()[k].event) by {
        assert(trace.drop_last().take(k) =~= trace.take(k));
    }
}

/// With no request in flight the loop does not back off, whatever the server has answered: it
/// listens for triggers, and it wakes up when the next publish is due.
pub proof fn law_nothing_in_flight_nothing_held_back(view: LoopView, next_publish: Option<Instant>)
    requires
        view.in_flight == 0,
    ensures
        !view.backing_off(),
        view.wait_plan(next_publish) == (WaitPlan {
            trigger_after: Some(view.last_external_trigger),
            tick_at: next_publish,
            publish: false,
        }),
{
}

/// The wait plan says of each kind of event whether it can end the wait.
pub proof fn law_wait_plan_covers_the_events(
    view: LoopView,
    next_publish: Option<Instant>,
    event: Event,
)
    ensures
        view.awaits(next_publish, event) <==> match event {
            Event::Trigger(Some(value)) => view.wait_plan(next_publish).trigger_after matches Some(
                last,
            ) && value.nanos > last.nanos,
            Event::Trigger(None) => view.wait_plan(next_publish).trigger_after is Some,
            Event::Tick => view.wait_plan(next_publish).tick_at is Some,
            Event::Publish(_) => view.wait_plan(next_publish).publish,
        },
        view.wait_plan(next_publish).tick_at matches Some(due) ==> next_publish == Some(due),
{
}

/// While the loop backs off, it waits for the end of a request and for nothing else.
pub proof fn law_back_off_waits_for_a_response(
    view: LoopView,
    next_publish: Option<Instant>,
    event: Event,
)
    requires
        view.backing_off(),
    ensures
        view.wait_plan(next_publish) == (WaitPlan {
            trigger_after: None,
            tick_at: None,
            publish: true,
        }),
        view.awaits(next_publish, event) <==> event is Publish,
{
}

/// While the loop backs off, nothing makes it send a request but the success of the last request
/// in flight.
pub proof fn law_back_off_sends_nothing(
    view: LoopView,
    next_publish: Option<Instant>,
    event: Event,
    limits: PublishLimits,
)
    requires
        view.backing_off(),
        view.awaits(next_publish, event),
        view.publishes(event, limits),
    ensures
        crate::model::is_success(event),
        view.left_in_flight(event) == 0,
        !view.after(event, limits).backing_off(),
{
}

/// A refusal for too many requests sends nothing, and makes the loop back off if and only if
/// another request is still in flight.
pub proof fn law_refusal_backs_off(
    view: LoopView,
    next_publish: Option<Instant>,
    event: Event,
    limits: PublishLimits,
)
    requires
        view.awaits(next_publish, event),
        crate::model::is_failure(event, StatusCode::BadTooManyPublishRequests),
    ensures
        !view.publishes(event, limits),
        view.after(event, limits).backing_off() <==> view.in_flight > 1,
{
}

/// A success ends the back-off.
pub proof fn law_success_ends_back_off(view: LoopView, event: Event, limits: PublishLimits)
    requires
        crate::model::is_success(event),
    ensures
        !view.after(event, limits).backing_off(),
        !view.after(event, limits).waiting_for_response,
        !view.after(event, limits).no_active_subscription,
{
}

/// The success of the last request in flight sends a request at once, whether or not the loop
/// backed off, if more notifications are queued or the limits ask for a request in flight.
pub proof fn law_success_of_the_last_in_flight_publishes(
    view: LoopView,
    more_notifications: bool,
    limits: PublishLimits,
)
    requires
        view.in_flight == 1,
        more_notifications || limits.min_publish_requests > 0,
    ensures
        view.publishes(Event::Publish(Some(Ok(more_notifications))), limits),
        view.after(Event::Publish(Some(Ok(more_notifications))), limits).in_flight == 1,
{
}

/// A back-off ends by the time that as many events have come as there were requests in flight at
/// its start, and up to then all of them are ends of requests.
pub proof fn law_back_off_ends(view: LoopView, trace: Seq<Occurrence>)
    requires
        view.backing_off(),
        view.awaits_all(trace),
        trace.len() >= view.in_flight,
    ensures
        exists|k: int|
            {
                &&& 0 < k <= view.in_flight
                &&& !view.run(#[trigger] trace.take(k)).backing_off()
                &&& forall|j: int|
                    0 <= j < k ==> view.run(#[trigger] trace.take(j)).backing_off()
                        && trace[j].event is Publish
            },
{
    let n = view.in_flight as int;
    assert(trace.take(0).len() == 0);
    lemma_back_off_or_fewer(view, trace, n);
    if forall|j: int| 0 <= j <= n ==> view.run(#[trigger] trace.take(j)).backing_off() {
        assert(view.run(trace.take(n)).backing_off());
        assert(false);
    }
    let some = choose|j: int|
        0 <= j <= n && !view.run(#[trigger] trace.take(j)).backing_off();
    let k = lemma_first_end(view, trace, some);
    assert forall|j: int| 0 <= j < k implies view.run(#[trigger] trace.take(j)).backing_off()
        && trace[j].event is Publish by {
        assert(view.run(trace.take(j)).awaits(trace[j].next_publish, trace[j].event));
    }
    assert(!view.run(trace.take(k)).backing_off());
}

/// While all of the first `n` states back off, each event takes one request away.
proof fn lemma_back_off_or_fewer(view: LoopView, trace: Seq<Occurrence>, n: int)
    requires
        view.awaits_all(trace),
        0 <= n <= trace.len(),
    ensures
        (forall|j: int| 0 <= j <= n ==> view.run(#[trigger] trace.take(j)).backing_off())
            ==> view.run(trace.take(n)).in_flight <= view.in_flight - n,
    decreases n,
{
    if n == 0 {
        assert(trace.take(0).len() == 0);
    } else {
        lemma_back_off_or_fewer(view, trace, n - 1);
        lemma_run_step(view, trace, n - 1);
        if forall|j: int| 0 <= j <= n ==> view.run(#[trigger] trace.take(j)).backing_off() {
            let before = view.run(trace.take(n - 1));
            assert(before.backing_off());
            assert(before.awaits(trace[n - 1].next_publish, trace[n - 1].event));
            assert(view.run(trace.take(n)).backing_off());
        }
    }
}

/// The first state of a run that does not back off, given one that does not.
proof fn lemma_first_end(view: LoopView, trace: Seq<Occurrence>, some: int) -> (first: int)
    requires
        view.backing_off(),
        0 <= some <= trace.len(),
        !view.run(trace.take(some)).backing_off(),
    ensures
        0 < first <= some,
        !view.run(trace.take(first)).backing_off(),
        forall|j: int| 0 <= j < first ==> view.run(#[trigger] trace.take(j)).backing_off(),
    decreases some,
{
    assert(trace.take(0).len() == 0);
    if forall|j: int| 0 <= j < some ==> view.run(#[trigger] trace.take(j)).backing_off() {
        some
    } else {
        let earlier = choose|j: int|
            0 <= j < some && !view.run(#[trigger] trace.take(j)).backing_off();
        lemma_first_end(view, trace, earlier)
    }
}

/// A new trigger stays new until a trigger is acted on.
pub proof fn law_trigger_is_kept(view: LoopView, trace: Seq<Occurrence>, value: Instant)
    requires
        view.is_new_trigger(value),
        forall|k: int|
            0 <= k < trace.len() ==> !((#[trigger] trace[k]).event matches Event::Trigger(Some(_))),
    ensures
        view.run(trace).is_new_trigger(value),
    decreases trace.len(),
{
    if trace.len() > 0 {
        assert forall|k: int| 0 <= k < trace.drop_last().len() implies !((
        #[trigger] trace.drop_last()[k]).event matches Event::Trigger(Some(_))) by {
            assert(trace.drop_last()[k] == trace[k]);
        }
        law_trigger_is_kept(view, trace.drop_last(), value);
        assert(!(trace[trace.len() - 1].event matches Event::Trigger(Some(_))));
    }
}

/// Outside a back-off a new trigger ends the wait and sends a request, whatever the limits; after
/// that it is no longer new, so that it sends no second one.
pub proof fn law_trigger_publishes_once(
    view: LoopView,
    next_publish: Option<Instant>,
    value: Instant,
    limits: PublishLimits,
)
    requires
        !view.backing_off(),
        view.is_new_trigger(value),
    ensures
        view.awaits(next_publish, Event::Trigger(Some(value))),
        view.publishes(Event::Trigger(Some(value)), limits),
        view.after(Event::Trigger(Some(value)), limits).in_flight == view.in_flight + 1,
        !view.after(Event::Trigger(Some(value)), limits).is_new_trigger(value),
        !view.after(Event::Trigger(Some(value)), limits).awaits(
            next_publish,
            Event::Trigger(Some(value)),
        ),
{
}

/// A trigger that comes while the loop backs off is not lost: it sends a request once the
/// back-off has ended, after the response that ended it.
pub proof fn law_trigger_fires_after_back_off(
    view: LoopView,
    trace: Seq<Occurrence>,
    next_publish: Option<Instant>,
    value: Instant,
    limits: PublishLimits,
)
    requires
        view.backing_off(),
        view.is_new_trigger(value),
        view.awaits_all(trace),
        trace.len() >= view.in_flight,
    ensures
        exists|k: int|
            {
                &&& 0 < k <= view.in_flight
                &&& trace[k - 1].event is Publish
                &&& view.run(#[trigger] trace.take(k)).awaits(
                    next_publish,
                    Event::Trigger(Some(value)),
                )
                &&& view.run(trace.take(k)).publishes(Event::Trigger(Some(value)), limits)
                &&& forall|j: int|
                    0 <= j < k ==> !view.run(#[trigger] trace.take(j)).awaits(
                        next_publish,
                        Event::Trigger(Some(value)),
                    )
            },
{
    law_back_off_ends(view, trace);
    let k = choose|k: int|
        {
            &&& 0 < k <= view.in_flight
            &&& !view.run(#[trigger] trace.take(k)).backing_off()
            &&& forall|j: int|
                0 <= j < k ==> view.run(#[trigger] trace.take(j)).backing_off()
                    && trace[j].event is Publish
        };
    assert forall|j: int| 0 <= j < trace.take(k).len() implies !((
    #[trigger] trace.take(k)[j]).event matches Event::Trigger(Some(_))) by {
        assert(view.run(trace.take(j)).backing_off());
        assert(trace[j].event is Publish);
    }
    law_trigger_is_kept(view, trace.take(k), value);
    assert(view.run(trace.take(k - 1)).backing_off());
    law_trigger_publishes_once(view.run(trace.take(k)), next_publish, value, limits);
}

/// The last trigger that was acted on never goes back in time.
pub proof fn law_triggers_move_forward(view: LoopView, trace: Seq<Occurrence>)
    requires
        view.awaits_all(trace),
    ensures
        view.run(trace).last_external_trigger.nanos >= view.last_external_trigger.nanos,
    decreases trace.len(),
{
    if trace.len() > 0 {
        lemma_awaits_prefix(view, trace);
        law_triggers_move_forward(view, trace.drop_last());
    }
}

/// How far one event moves the number of requests in flight: a trigger adds one whatever the
/// limits, the publishing interval never goes past the upper limit, and the end of a request
/// never leaves more in flight than before, nor more than the lower limit unless notifications
/// are queued or that many were left.
pub proof fn law_in_flight_stays_within_limits(
    view: LoopView,
    next_publish: Option<Instant>,
    event: Event,
    limits: PublishLimits,
)
    requires
        view.awaits(next_publish, event),
    ensures
        event matches Event::Trigger(trigger) ==> view.after(event, limits).in_flight
            == view.in_flight + if trigger is Some {
            1int
        } else {
            0int
        },
        event is Tick ==> {
            ||| view.after(event, limits).in_flight == view.in_flight
            ||| view.after(event, limits).in_flight <= limits.max_publish_requests
        },
        event matches Event::Publish(polled) ==> {
            &&& view.after(event, limits).in_flight <= view.in_flight
            &&& crate::model::ended_as(polled) != Ok::<bool, StatusCode>(true) ==> {
                ||| view.after(event, limits).in_flight == view.left_in_flight(event)
                ||| view.after(event, limits).in_flight <= limits.min_publish_requests
            }
        },
{
}

/// No request is lost or counted twice: those in flight at the start and those sent since have
/// either ended or are in flight.
pub proof fn law_requests_are_accounted_for(view: LoopView, trace: Seq<Occurrence>)
    requires
        view.awaits_all(trace),
        forall|k: int|
            0 <= k < trace.len() ==> !((#[trigger] trace[k]).event matches Event::Publish(None)),
    ensures
        view.run(trace).in_flight + ended(trace) == view.in_flight + view.sent(trace),
    decreases trace.len(),
{
    if trace.len() > 0 {
        lemma_awaits_prefix(view, trace);
        assert forall|k: int| 0 <= k < trace.drop_last().len() implies !((
        #[trigger] trace.drop_last()[k]).event matches Event::Publish(None)) by {
            assert(trace.drop_last()[k] == trace[k]);
        }
        law_requests_are_accounted_for(view, trace.drop_last());
        assert(!(trace[trace.len() - 1].event matches Event::Publish(None)));
    }
}

/// Without an active subscription nothing is sent until an external trigger or a successful
/// response comes, not even if the channel for triggers is closed.
pub proof fn law_no_subscription_sends_nothing(view: LoopView, trace: Seq<Occurrence>)
    requires
        view.no_active_subscription,
        forall|k: int|
            0 <= k < trace.len() ==> {
                &&& !((#[trigger] trace[k]).event matches Event::Trigger(Some(_)))
                &&& !crate::model::is_success(trace[k].event)
            },
    ensures
        view.sent(trace) == 0,
        view.run(trace).no_active_subscription,
    decreases trace.len(),
{
    if trace.len() > 0 {
        assert forall|k: int| 0 <= k < trace.drop_last().len() implies {
            &&& !((#[trigger] trace.drop_last()[k]).event matches Event::Trigger(Some(_)))
            &&& !crate::model::is_success(trace.drop_last()[k].event)
        } by {
            assert(trace.drop_last()[k] == trace[k]);
        }
        law_no_subscription_sends_nothing(view, trace.drop_last());
        assert(!(trace[trace.len() - 1].event matches Event::Trigger(Some(_))));
    }
}

/// A loop that was just set up sends nothing before an external trigger comes.
pub proof fn law_first_request_is_triggered(view: LoopView, trace: Seq<Occurrence>)
    requires
        view.in_flight == 0,
        view.no_active_subscription,
        view.awaits_all(trace),
        forall|k: int|
            0 <= k < trace.len() ==> !((#[trigger] trace[k]).event matches Event::Trigger(Some(_))),
    ensures
        view.sent(trace) == 0,
        view.run(trace) == view,
    decreases trace.len(),
{
    if trace.len() > 0 {
        lemma_awaits_prefix(view, trace);
        assert forall|k: int| 0 <= k < trace.drop_last().len() implies !((
        #[trigger] trace.drop_last()[k]).event matches Event::Trigger(Some(_))) by {
            assert(trace.drop_last()[k] == trace[k]);
        }
        law_first_request_is_triggered(view, trace.drop_last());
        assert(!(trace[trace.len() - 1].event matches Event::Trigger(Some(_))));
    }
}

/// Whether the call at `i`, if it starts a request, is directly followed by one that asks the cache
/// and sets the last publish time.
pub open spec fn is_scheduled_after(calls: Seq<Call>, i: int) -> bool {
    calls[i] is PublishSource ==> {
        &&& i + 1 < calls.len()
        &&& calls[i + 1] == Call::NextPublishTime(true)
    }
}

/// The first call of an iteration asks the cache without setting the last publish time, and no
/// later one does. Each call that starts a request is directly followed by one that asks the cache
/// and sets the last publish time.
pub proof fn law_calls_of_an_iteration(view: LoopView, trace: Seq<Occurrence>)
    ensures
        view.iteration_calls(trace).len() > 0,
        view.iteration_calls(trace)[0] == Call::NextPublishTime(false),
        forall|i: int|
            0 < i < view.iteration_calls(trace).len() ==> #[trigger] view.iteration_calls(trace)[i]
                != Call::NextPublishTime(false),
        forall|i: int|
            0 <= i < view.iteration_calls(trace).len() ==> #[trigger] is_scheduled_after(
                view.iteration_calls(trace),
                i,
            ),
    decreases trace.len(),
{
    if trace.len() > 0 {
        law_calls_of_an_iteration(view, trace.drop_last());
        let before = view.iteration_calls(trace.drop_last());
        let step = view.run(trace.drop_last()).calls(trace.last().event, trace.last().limits);
        let calls = view.iteration_calls(trace);
        assert(calls == before + step);
        assert forall|i: int| 0 <= i < calls.len() implies #[trigger] is_scheduled_after(
            calls,
            i,
        ) by {
            if i < before.len() {
                assert(is_scheduled_after(before, i));
            }
        }
    }
}

/// As many calls start a request as requests are sent.
pub proof fn law_one_call_per_request(view: LoopView, trace: Seq<Occurrence>)
    ensures
        view.iteration_calls(trace).filter(|call: Call| call is PublishSource).len() == view.sent(
            trace,
        ),
    decreases trace.len(),
{
    let starts = |call: Call| call is PublishSource;
    reveal_with_fuel(Seq::filter, 3);
    if trace.len() > 0 {
        law_one_call_per_request(view, trace.drop_last());
        let before = view.iteration_calls(trace.drop_last());
        let step = view.run(trace.drop_last()).calls(trace.last().event, trace.last().limits);
        Seq::filter_distributes_over_add(before, step, starts);
        assert(seq![Call::PublishSource, Call::NextPublishTime(true)].drop_last()
            =~= seq![Call::PublishSource]);
        assert(seq![Call::PublishSource].drop_last() =~= seq![]);
        assert(seq![Call::NextPublishTime(true)].drop_last() =~= seq![]);
    } else {
        assert(view.iteration_calls(trace).drop_last() =~= seq![]);
    }
}

/// With subscriptions active and nothing in flight, the publishing interval sends a request, even
/// if the last one was refused: publishing does not stop.
pub proof fn law_idle_loop_publishes_on_tick(view: LoopView, due: Instant, limits: PublishLimits)
    requires
        view.in_flight == 0,
        !view.no_active_subscription,
        limits.max_publish_requests > 0,
    ensures
        view.awaits(Some(due), Event::Tick),
        view.publishes(Event::Tick, limits),
{
}

/// The failure of a request sends nothing and leaves alone all that its status code has no
/// bearing on.
pub proof fn law_failure_sends_nothing(
    view: LoopView,
    event: Event,
    status: StatusCode,
    limits: PublishLimits,
)
    requires
        crate::model::is_failure(event, status),
    ensures
        !view.publishes(event, limits),
        !view.reschedules(event, limits),
        view.after(event, limits).last_external_trigger == view.last_external_trigger,
        view.after(event, limits).waiting_for_response == (view.waiting_for_response || status
            == StatusCode::BadTooManyPublishRequests),
        view.after(event, limits).no_active_subscription == (view.no_active_subscription || status
            == StatusCode::BadNoSubscription),
{
}

/// An iteration ends with the first end of a request and with nothing else, and reports a dead
/// session if and only if the request failed with a status code that says so.
pub proof fn law_iteration_ends_with_a_response(event: Event, status: StatusCode)
    ensures
        crate::model::activity(event) is Some <==> event is Publish,
        crate::model::activity(event) == Some(SubscriptionActivity::Publish)
            <==> crate::model::is_success(event),
        crate::model::activity(event) == Some(SubscriptionActivity::FatalFailure(status))
            <==> crate::model::is_failure(event, status) && (status == StatusCode::BadSessionClosed
            || status == StatusCode::BadSessionIdInvalid),
{
}

/// The loop backs off exactly while a refusal is remembered and a request is in flight. It then
/// waits for the end of a request only; else it waits for a trigger later than the last one and for
/// the time of the next publish, and for the end of a request if there is one.
pub proof fn law_what_is_waited_for(view: LoopView, next_publish: Option<Instant>, value: Instant)
    ensures
        view.backing_off() <==> view.waiting_for_response && view.in_flight >= 1,
        view.is_new_trigger(value) <==> view.last_external_trigger.nanos < value.nanos,
        view.waiting_for_response && view.in_flight >= 1 ==> view.wait_plan(next_publish) == (
        WaitPlan { trigger_after: None, tick_at: None, publish: true }),
        !view.waiting_for_response || view.in_flight == 0 ==> view.wait_plan(next_publish) == (
        WaitPlan {
            trigger_after: Some(view.last_external_trigger),
            tick_at: next_publish,
            publish: view.in_flight >= 1,
        }),
{
}

/// What can end a wait, by the state alone.
pub proof fn law_what_is_awaited(
    view: LoopView,
    next_publish: Option<Instant>,
    value: Instant,
    polled: Option<Result<bool, Error>>,
)
    ensures
        view.awaits(next_publish, Event::Trigger(Some(value))) <==> (!view.waiting_for_response
            || view.in_flight == 0) && view.last_external_trigger.nanos < value.nanos,
        view.awaits(next_publish, Event::Trigger(None)) <==> !view.waiting_for_response
            || view.in_flight == 0,
        view.awaits(next_publish, Event::Tick) <==> (!view.waiting_for_response || view.in_flight
            == 0) && next_publish is Some,
        view.awaits(next_publish, Event::Publish(polled)) <==> view.in_flight >= 1,
{
}

/// A trigger that is waited for sends one request, restarts the schedule, becomes the last trigger
/// and shows that a subscription is active. It does not make the loop forget a refusal: if there
/// was one, the loop backs off until the new request ends.
pub proof fn law_what_a_trigger_does(
    view: LoopView,
    next_publish: Option<Instant>,
    value: Instant,
    limits: PublishLimits,
)
    requires
        view.awaits(next_publish, Event::Trigger(Some(value))),
    ensures
        view.publishes(Event::Trigger(Some(value)), limits),
        !view.holds_back(Event::Trigger(Some(value)), limits),
        view.reschedules(Event::Trigger(Some(value)), limits),
        view.calls(Event::Trigger(Some(value)), limits) == seq![
            Call::PublishSource,
            Call::NextPublishTime(true),
        ],
        crate::model::activity(Event::Trigger(Some(value))) is None,
        view.after(Event::Trigger(Some(value)), limits) == (LoopView {
            last_external_trigger: value,
            in_flight: view.in_flight + 1,
            waiting_for_response: view.waiting_for_response,
            no_active_subscription: false,
        }),
        view.waiting_for_response ==> view.after(
            Event::Trigger(Some(value)),
            limits,
        ).wait_plan(next_publish) == (WaitPlan { trigger_after: None, tick_at: None, publish: true }),
{
}

/// The closing of the trigger channel does nothing.
pub proof fn law_what_a_closed_channel_does(view: LoopView, limits: PublishLimits)
    ensures
        !view.publishes(Event::Trigger(None), limits),
        !view.holds_back(Event::Trigger(None), limits),
        !view.reschedules(Event::Trigger(None), limits),
        view.calls(Event::Trigger(None), limits) == Seq::<Call>::empty(),
        crate::model::activity(Event::Trigger(None)) is None,
        view.after(Event::Trigger(None), limits) == view,
{
}

/// A tick that is waited for sends a request exactly if a subscription is active and fewer
/// requests than the upper limit are in flight. Sending or not, it asks the cache anew for the
/// time of the next publish. Apart from the request that it sends, it changes nothing: a refusal
/// stays remembered.
pub proof fn law_what_a_tick_does(
    view: LoopView,
    next_publish: Option<Instant>,
    limits: PublishLimits,
)
    requires
        view.awaits(next_publish, Event::Tick),
    ensures
        view.publishes(Event::Tick, limits) <==> !view.no_active_subscription && view.in_flight
            < limits.max_publish_requests,
        !view.holds_back(Event::Tick, limits),
        view.calls(Event::Tick, limits) == if !view.no_active_subscription && view.in_flight
            < limits.max_publish_requests {
            seq![Call::PublishSource, Call::NextPublishTime(true)]
        } else {
            seq![Call::NextPublishTime(true)]
        },
        view.after(Event::Tick, limits) == (LoopView {
            in_flight: if !view.no_active_subscription && view.in_flight
                < limits.max_publish_requests {
                view.in_flight + 1
            } else {
                view.in_flight
            },
            ..view
        }),
        view.waiting_for_response && view.publishes(Event::Tick, limits) ==> view.after(
            Event::Tick,
            limits,
        ).wait_plan(next_publish) == (WaitPlan { trigger_after: None, tick_at: None, publish: true }),
{
}

/// Every tick asks the cache anew, whatever the state and the limits, and does so last.
pub proof fn law_every_tick_reschedules(view: LoopView, limits: PublishLimits)
    ensures
        view.reschedules(Event::Tick, limits),
        view.calls(Event::Tick, limits).len() > 0,
        view.calls(Event::Tick, limits).last() == Call::NextPublishTime(true),
        crate::model::activity(Event::Tick) is None,
{
}

/// A success of which no refusal stands in the way sends a request exactly if more notifications
/// are queued or fewer requests than the lower limit are left in flight. A refusal stands in the
/// way while another request is left in flight; the request that was due is then held back.
/// Either way the refusal is forgotten, a subscription is known to be active, and the cache is
/// asked exactly if a request is sent.
pub proof fn law_what_a_success_does(
    view: LoopView,
    more_notifications: bool,
    limits: PublishLimits,
)
    requires
        view.in_flight >= 1,
    ensures
        ({
            let event = Event::Publish(Some(Ok(more_notifications)));
            let due = more_notifications || view.in_flight - 1 < limits.min_publish_requests;
            let refused = view.waiting_for_response && view.in_flight >= 2;
            &&& view.publishes(event, limits) <==> due && !refused
            &&& view.holds_back(event, limits) <==> due && refused
            &&& view.reschedules(event, limits) <==> due && !refused
            &&& view.calls(event, limits) == if due && !refused {
                seq![Call::PublishSource, Call::NextPublishTime(true)]
            } else {
                seq![]
            }
            &&& crate::model::activity(event) == Some(SubscriptionActivity::Publish)
            &&& view.after(event, limits).last_external_trigger == view.last_external_trigger
            &&& view.after(event, limits).in_flight == if due && !refused {
                view.in_flight as int
            } else {
                view.in_flight - 1
            }
            &&& !view.after(event, limits).waiting_for_response
            &&& !view.after(event, limits).no_active_subscription
        }),
{
}

/// A failure takes its request out of flight, sends nothing and asks nothing. It is remembered as
/// a refusal exactly if its status code is `BadTooManyPublishRequests`, and says that no
/// subscription is active exactly if it is `BadNoSubscription`. It is reported with its own status
/// code, as fatal exactly if that says that the session is closed or unknown.
pub proof fn law_what_a_failure_does(
    view: LoopView,
    error: Error,
    limits: PublishLimits,
)
    requires
        view.in_flight >= 1,
    ensures
        ({
            let event = Event::Publish(Some(Err(error)));
            &&& !view.publishes(event, limits)
            &&& !view.holds_back(event, limits)
            &&& !view.reschedules(event, limits)
            &&& view.calls(event, limits) == Seq::<Call>::empty()
            &&& crate::model::activity(event) == Some(
                if error.status == StatusCode::BadSessionClosed || error.status
                    == StatusCode::BadSessionIdInvalid {
                    SubscriptionActivity::FatalFailure(error.status)
                } else {
                    SubscriptionActivity::PublishFailed(error.status)
                },
            )
            &&& view.after(event, limits).last_external_trigger == view.last_external_trigger
            &&& view.after(event, limits).in_flight == view.in_flight - 1
            &&& view.after(event, limits).waiting_for_response == (view.waiting_for_response
                || error.status == StatusCode::BadTooManyPublishRequests)
            &&& view.after(event, limits).no_active_subscription == (view.no_active_subscription
                || error.status == StatusCode::BadNoSubscription)
        }),
{
}

/// A collection of requests that turns out to be empty leaves nothing in flight, changes nothing
/// else, and is reported as an invalid state.
pub proof fn law_what_an_empty_collection_does(view: LoopView, limits: PublishLimits)
    ensures
        !view.publishes(Event::Publish(None), limits),
        !view.holds_back(Event::Publish(None), limits),
        !view.reschedules(Event::Publish(None), limits),
        view.calls(Event::Publish(None), limits) == Seq::<Call>::empty(),
        crate::model::activity(Event::Publish(None)) == Some(
            SubscriptionActivity::PublishFailed(StatusCode::BadInvalidState),
        ),
        view.after(Event::Publish(None), limits) == (LoopView { in_flight: 0, ..view }),
{
}

/// A refusal is remembered until a success: whatever else happens, triggers and ticks among it,
/// the loop backs off for as long as a request is in flight.
pub proof fn law_refusal_is_remembered_until_a_success(
    view: LoopView,
    trace: Seq<Occurrence>,
    next_publish: Option<Instant>,
)
    requires
        view.waiting_for_response,
        forall|k: int|
            0 <= k < trace.len() ==> !((#[trigger] trace[k]).event matches Event::Publish(
                Some(Ok(_)),
            )),
    ensures
        view.run(trace).waiting_for_response,
        view.run(trace).in_flight >= 1 ==> view.run(trace).wait_plan(next_publish) == (WaitPlan {
            trigger_after: None,
            tick_at: None,
            publish: true,
        }),
    decreases trace.len(),
{
    if trace.len() > 0 {
        assert forall|k: int| 0 <= k < trace.drop_last().len() implies !((
        #[trigger] trace.drop_last()[k]).event matches Event::Publish(Some(Ok(_)))) by {
            assert(trace.drop_last()[k] == trace[k]);
        }
        law_refusal_is_remembered_until_a_success(view, trace.drop_last(), next_publish);
        assert(!(trace[trace.len() - 1].event matches Event::Publish(Some(Ok(_)))));
    }
}

/// Without a refusal there is no back-off: whatever else happens, failures of any other status
/// code among it, the loop goes on to wait for triggers and for the time of the next publish.
pub proof fn law_no_back_off_without_a_refusal(
    view: LoopView,
    trace: Seq<Occurrence>,
    next_publish: Option<Instant>,
)
    requires
        !view.waiting_for_response,
        forall|k: int|
            0 <= k < trace.len() ==> ((#[trigger] trace[k]).event matches Event::Publish(
                Some(Err(error)),
            ) ==> error.status != StatusCode::BadTooManyPublishRequests),
    ensures
        !view.run(trace).waiting_for_response,
        view.run(trace).wait_plan(next_publish).trigger_after == Some(
            view.run(trace).last_external_trigger,
        ),
        view.run(trace).wait_plan(next_publish).tick_at == next_publish,
    decreases trace.len(),
{
    if trace.len() > 0 {
        assert forall|k: int| 0 <= k < trace.drop_last().len() implies ((
        #[trigger] trace.drop_last()[k]).event matches Event::Publish(Some(Err(error)))
            ==> error.status != StatusCode::BadTooManyPublishRequests) by {
            assert(trace.drop_last()[k] == trace[k]);
        }
        law_no_back_off_without_a_refusal(view, trace.drop_last(), next_publish);
        let last = trace[trace.len() - 1].event;
        assert(last matches Event::Publish(Some(Err(error))) ==> error.status
            != StatusCode::BadTooManyPublishRequests);
    }
}

/// Once a subscription is active, it is taken to be so until a failure says that there is none.
pub proof fn law_subscription_stays_active(view: LoopView, trace: Seq<Occurrence>)
    requires
        !view.no_active_subscription,
        forall|k: int|
            0 <= k < trace.len() ==> ((#[trigger] trace[k]).event matches Event::Publish(
                Some(Err(error)),
            ) ==> error.status != StatusCode::BadNoSubscription),
    ensures
        !view.run(trace).no_active_subscription,
    decreases trace.len(),
{
    if trace.len() > 0 {
        assert forall|k: int| 0 <= k < trace.drop_last().len() implies ((
        #[trigger] trace.drop_last()[k]).event matches Event::Publish(Some(Err(error)))
            ==> error.status != StatusCode::BadNoSubscription) by {
            assert(trace.drop_last()[k] == trace[k]);
        }
        law_subscription_stays_active(view, trace.drop_last());
        let last = trace[trace.len() - 1].event;
        assert(last matches Event::Publish(Some(Err(error))) ==> error.status
            != StatusCode::BadNoSubscription);
    }
}

/// Ticks add one request each until as many are in flight as the upper limit allows, and then no
/// more.
pub proof fn law_ticks_fill_up_to_the_upper_limit(
    view: LoopView,
    trace: Seq<Occurrence>,
    limits: PublishLimits,
)
    requires
        !view.waiting_for_response,
        !view.no_active_subscription,
        view.in_flight <= limits.max_publish_requests,
        forall|k: int|
            0 <= k < trace.len() ==> (#[trigger] trace[k]).event is Tick && trace[k].limits
                == limits,
    ensures
        view.run(trace) == (LoopView {
            in_flight: if view.in_flight + trace.len() <= limits.max_publish_requests {
                view.in_flight + trace.len()
            } else {
                limits.max_publish_requests as nat
            },
            ..view
        }),
    decreases trace.len(),
{
    if trace.len() > 0 {
        assert forall|k: int| 0 <= k < trace.drop_last().len() implies (
        #[trigger] trace.drop_last()[k]).event is Tick && trace.drop_last()[k].limits == limits by {
            assert(trace.drop_last()[k] == trace[k]);
        }
        law_ticks_fill_up_to_the_upper_limit(view, trace.drop_last(), limits);
        assert(trace[trace.len() - 1].event is Tick && trace[trace.len() - 1].limits == limits);
    }
}

/// Successes after which no notifications are queued let the number of requests in flight fall to
/// the lower limit, and hold it there.
pub proof fn law_successes_hold_the_lower_limit(
    view: LoopView,
    trace: Seq<Occurrence>,
    limits: PublishLimits,
)
    requires
        !view.waiting_for_response,
        1 <= limits.min_publish_requests <= view.in_flight,
        forall|k: int|
            0 <= k < trace.len() ==> (#[trigger] trace[k]).event == Event::Publish(
                Some(Ok::<bool, Error>(false)),
            ) && trace[k].limits == limits,
    ensures
        !view.run(trace).waiting_for_response,
        view.run(trace).in_flight == if view.in_flight - trace.len()
            >= limits.min_publish_requests {
            view.in_flight - trace.len()
        } else {
            limits.min_publish_requests as int
        },
    decreases trace.len(),
{
    if trace.len() > 0 {
        assert forall|k: int| 0 <= k < trace.drop_last().len() implies (
        #[trigger] trace.drop_last()[k]).event == Event::Publish(
            Some(Ok::<bool, Error>(false)),
        ) && trace.drop_last()[k].limits == limits by {
            assert(trace.drop_last()[k] == trace[k]);
        }
        law_successes_hold_the_lower_limit(view, trace.drop_last(), limits);
        assert(trace[trace.len() - 1].limits == limits);
    }
}

/// Failures, whatever their status codes, take one request each out of flight and put none in.
pub proof fn law_failures_drain_the_loop(view: LoopView, trace: Seq<Occurrence>)
    requires
        trace.len() <= view.in_flight,
        forall|k: int|
            0 <= k < trace.len() ==> (#[trigger] trace[k]).event matches Event::Publish(
                Some(Err(_)),
            ),
    ensures
        view.run(trace).in_flight == view.in_flight - trace.len(),
        view.sent(trace) == 0,
    decreases trace.len(),
{
    if trace.len() > 0 {
        assert forall|k: int| 0 <= k < trace.drop_last().len() implies (
        #[trigger] trace.drop_last()[k]).event matches Event::Publish(Some(Err(_))) by {
            assert(trace.drop_last()[k] == trace[k]);
        }
        law_failures_drain_the_loop(view, trace.drop_last());
        assert(trace[trace.len() - 1].event matches Event::Publish(Some(Err(_))));
    }
}

} // verus!
