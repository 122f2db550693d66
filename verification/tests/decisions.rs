//! Single decisions of the event loop, on given values.

use std::cell::{Cell, RefCell};
use std::rc::Rc;

use opcua_subscriptions::{
    publish_result, ActivityOrNext, Error, Event, Instant, PublishLimits, StatusCode,
    SubscriptionActivity, SubscriptionCache, SubscriptionEventLoopState, Ticked, WaitPlan,
};

fn at(nanos: i128) -> Instant {
    Instant { nanos }
}

/// What the event loop asked of its surroundings, in order.
#[derive(Clone, Copy, Debug, PartialEq)]
enum Asked {
    Source,
    Cache(bool),
}

type Log = Rc<RefCell<Vec<Asked>>>;

struct LoggingCache {
    log: Log,
    next: Rc<Cell<Option<Instant>>>,
}

impl SubscriptionCache for LoggingCache {
    fn next_publish_time(&mut self, set_last_publish: bool) -> Option<Instant> {
        self.log.borrow_mut().push(Asked::Cache(set_last_publish));
        self.next.get()
    }
}

type Source = Box<dyn Fn() -> u32>;
type State = SubscriptionEventLoopState<u32, Source, LoggingCache>;

/// A state that was just set up with session id 7 and the trigger 10. Its requests are numbered
/// from 100, and its cache answers 1000.
fn fresh() -> (State, Log) {
    let log: Log = Rc::new(RefCell::new(Vec::new()));
    let source_log = Rc::clone(&log);
    let started = Cell::new(100u32);
    let source: Source = Box::new(move || {
        source_log.borrow_mut().push(Asked::Source);
        started.set(started.get() + 1);
        started.get() - 1
    });
    let next = Rc::new(Cell::new(Some(at(1000))));
    let cache = LoggingCache { log: Rc::clone(&log), next };
    (SubscriptionEventLoopState::new(7, at(10), source, cache), log)
}

/// A state with `n` requests in flight, all of them triggered, the last by the trigger 10 + n.
fn with_in_flight(n: usize) -> (State, Log) {
    let (mut state, log) = fresh();
    for k in 0..n {
        tick(&mut state, None, Event::Trigger(Some(at(11 + k as i128))), limits(1, 2));
    }
    assert_eq!(state.in_flight(), n);
    log.borrow_mut().clear();
    (state, log)
}

/// Hands the state an event that it waits for.
fn tick(
    state: &mut State,
    next_publish: Option<Instant>,
    event: Event,
    limits: PublishLimits,
) -> Ticked<u32> {
    assert!(state.awaits(next_publish, &event));
    state.tick(next_publish, event, limits)
}

fn limits(min: usize, max: usize) -> PublishLimits {
    PublishLimits { min_publish_requests: min, max_publish_requests: max }
}

fn failure(status: StatusCode) -> Event {
    Event::Publish(Some(Err(Error::new(status, "failed"))))
}

fn success(more_notifications: bool) -> Event {
    Event::Publish(Some(Ok(more_notifications)))
}

fn asked(log: &Log) -> Vec<Asked> {
    log.borrow().clone()
}

const NEXT: ActivityOrNext = ActivityOrNext::Next(Some(Instant { nanos: 1000 }));

#[test]
fn a_fresh_state() {
    let (mut state, log) = fresh();
    assert_eq!(state.session_id(), 7);
    assert_eq!(state.in_flight(), 0);
    assert!(!state.backing_off());
    assert_eq!(state.last_external_trigger(), at(10));
    assert_eq!(asked(&log), vec![]);
    assert_eq!(state.begin_iteration(), Some(at(1000)));
    assert_eq!(asked(&log), vec![Asked::Cache(false)]);
}

#[test]
fn a_fresh_state_waits_for_triggers_and_for_the_next_publish() {
    let (state, _) = fresh();
    assert_eq!(
        state.wait_plan(Some(at(20))),
        WaitPlan { trigger_after: Some(at(10)), tick_at: Some(at(20)), publish: false }
    );
    assert_eq!(
        state.wait_plan(None),
        WaitPlan { trigger_after: Some(at(10)), tick_at: None, publish: false }
    );
}

#[test]
fn a_plan_awaits_new_triggers_only() {
    let (mut state, _) = with_in_flight(2);
    let plan = state.wait_plan(None);
    assert!(plan.is_awaited_trigger(at(13)));
    assert!(!plan.is_awaited_trigger(at(12)));
    assert!(!plan.is_awaited_trigger(at(11)));
    tick(&mut state, None, failure(StatusCode::BadTooManyPublishRequests), limits(2, 2));
    assert!(!state.wait_plan(None).is_awaited_trigger(at(13)));
}

#[test]
fn a_fresh_state_sends_nothing_on_ticks() {
    let (mut state, log) = fresh();
    for _ in 0..5 {
        let ticked = tick(&mut state, Some(at(20)), Event::Tick, limits(1, 5));
        assert_eq!(ticked.request, None);
        assert_eq!(ticked.outcome, NEXT);
    }
    assert_eq!(state.in_flight(), 0);
    assert_eq!(asked(&log), vec![Asked::Cache(true); 5]);
}

#[test]
fn a_trigger_publishes_whatever_the_limits() {
    let (mut state, log) = fresh();
    let ticked = tick(&mut state, Some(at(20)), Event::Trigger(Some(at(11))), limits(0, 0));
    assert_eq!(ticked.request, Some(100));
    assert_eq!(ticked.outcome, NEXT);
    assert_eq!(state.in_flight(), 1);
    assert_eq!(state.last_external_trigger(), at(11));
    assert_eq!(asked(&log), vec![Asked::Source, Asked::Cache(true)]);
    let ticked = tick(&mut state, Some(at(20)), Event::Trigger(Some(at(12))), limits(0, 0));
    assert_eq!(ticked.request, Some(101));
    assert_eq!(state.in_flight(), 2);
}

#[test]
fn a_trigger_is_new_only_once() {
    let (mut state, _) = fresh();
    assert!(!state.is_new_trigger(at(9)));
    assert!(!state.is_new_trigger(at(10)));
    assert!(state.is_new_trigger(at(11)));
    tick(&mut state, None, Event::Trigger(Some(at(11))), limits(1, 2));
    assert!(!state.is_new_trigger(at(11)));
    assert!(state.is_new_trigger(at(12)));
    assert!(!at(-1).is_after(at(0)));
}

#[test]
fn a_closed_trigger_channel_does_not_resume_publishing() {
    let (mut state, log) = fresh();
    let ticked = tick(&mut state, Some(at(20)), Event::Trigger(None), limits(1, 2));
    assert_eq!(ticked.request, None);
    assert_eq!(ticked.outcome, ActivityOrNext::Next(Some(at(20))));
    assert_eq!(state.in_flight(), 0);
    assert_eq!(state.last_external_trigger(), at(10));
    assert_eq!(asked(&log), vec![]);
    let ticked = tick(&mut state, Some(at(20)), Event::Tick, limits(1, 2));
    assert_eq!(ticked.request, None);
}

#[test]
fn a_closed_trigger_channel_does_not_stop_publishing() {
    let (mut state, _) = with_in_flight(1);
    tick(&mut state, Some(at(20)), Event::Trigger(None), limits(1, 2));
    let ticked = tick(&mut state, Some(at(20)), Event::Tick, limits(1, 2));
    assert_eq!(ticked.request, Some(101));
}

#[test]
fn a_tick_publishes_up_to_the_upper_limit() {
    let (mut state, log) = with_in_flight(1);
    let ticked = tick(&mut state, Some(at(20)), Event::Tick, limits(0, 2));
    assert_eq!(ticked.request, Some(101));
    assert_eq!(ticked.outcome, NEXT);
    assert_eq!(state.in_flight(), 2);
    assert_eq!(asked(&log), vec![Asked::Source, Asked::Cache(true)]);
    let ticked = tick(&mut state, Some(at(20)), Event::Tick, limits(0, 2));
    assert_eq!(ticked.request, None);
    assert_eq!(ticked.outcome, NEXT);
    assert_eq!(state.in_flight(), 2);
    assert_eq!(asked(&log), vec![Asked::Source, Asked::Cache(true), Asked::Cache(true)]);
}

#[test]
fn a_success_publishes_up_to_the_lower_limit() {
    // Two are left in flight, which is not below the limit.
    let (mut state, log) = with_in_flight(3);
    let ticked = tick(&mut state, None, success(false), limits(2, 5));
    assert_eq!(ticked.request, None);
    assert!(!ticked.held_back);
    assert_eq!(ticked.outcome, ActivityOrNext::Activity(SubscriptionActivity::Publish));
    assert_eq!(state.in_flight(), 2);
    assert_eq!(asked(&log), vec![]);
    // One is left in flight.
    let ticked = tick(&mut state, None, success(false), limits(2, 5));
    assert_eq!(ticked.request, Some(103));
    assert_eq!(ticked.outcome, ActivityOrNext::Activity(SubscriptionActivity::Publish));
    assert_eq!(state.in_flight(), 2);
    assert_eq!(asked(&log), vec![Asked::Source, Asked::Cache(true)]);
}

#[test]
fn queued_notifications_publish_whatever_the_limits() {
    let (mut state, _) = with_in_flight(3);
    let ticked = tick(&mut state, None, success(true), limits(0, 0));
    assert_eq!(ticked.request, Some(103));
    assert_eq!(state.in_flight(), 3);
}

#[test]
fn a_refusal_backs_off_while_another_is_in_flight() {
    let (mut state, log) = with_in_flight(2);
    let ticked =
        tick(&mut state, None, failure(StatusCode::BadTooManyPublishRequests), limits(2, 2));
    assert_eq!(ticked.request, None);
    assert_eq!(
        ticked.outcome,
        ActivityOrNext::Activity(SubscriptionActivity::PublishFailed(
            StatusCode::BadTooManyPublishRequests
        ))
    );
    assert!(state.backing_off());
    assert_eq!(
        state.wait_plan(Some(at(20))),
        WaitPlan { trigger_after: None, tick_at: None, publish: true }
    );
    assert_eq!(asked(&log), vec![]);
}

#[test]
fn a_refusal_of_the_only_one_in_flight_does_not_back_off() {
    let (mut state, _) = with_in_flight(1);
    tick(&mut state, None, failure(StatusCode::BadTooManyPublishRequests), limits(2, 2));
    assert!(!state.backing_off());
    assert_eq!(
        state.wait_plan(Some(at(20))),
        WaitPlan { trigger_after: Some(at(11)), tick_at: Some(at(20)), publish: false }
    );
    // The refusal is remembered until a success: the next request in flight backs off again.
    let ticked = tick(&mut state, Some(at(20)), Event::Tick, limits(2, 2));
    assert_eq!(ticked.request, Some(101));
    assert!(state.backing_off());
    tick(&mut state, None, success(false), limits(0, 2));
    assert!(!state.backing_off());
    tick(&mut state, Some(at(20)), Event::Tick, limits(0, 2));
    assert!(!state.backing_off());
}

#[test]
fn a_success_ends_the_back_off_without_a_request_while_another_is_in_flight() {
    let (mut state, log) = with_in_flight(3);
    tick(&mut state, None, failure(StatusCode::BadTooManyPublishRequests), limits(5, 5));
    let ticked = tick(&mut state, None, success(true), limits(5, 5));
    assert_eq!(ticked.request, None);
    assert!(ticked.held_back);
    assert_eq!(ticked.outcome, ActivityOrNext::Activity(SubscriptionActivity::Publish));
    assert!(!state.backing_off());
    assert_eq!(state.in_flight(), 1);
    assert_eq!(asked(&log), vec![]);
}

#[test]
fn failures_end_the_back_off_once_none_is_in_flight() {
    let (mut state, _) = with_in_flight(3);
    tick(&mut state, None, failure(StatusCode::BadTooManyPublishRequests), limits(2, 2));
    assert!(state.backing_off());
    tick(&mut state, None, failure(StatusCode::BadTimeout), limits(2, 2));
    assert!(state.backing_off());
    tick(&mut state, None, failure(StatusCode::from_bits(1)), limits(2, 2));
    assert!(!state.backing_off());
    assert_eq!(state.in_flight(), 0);
}

#[test]
fn what_is_awaited() {
    let (mut state, _) = fresh();
    assert!(state.awaits(None, &Event::Trigger(Some(at(11)))));
    assert!(!state.awaits(None, &Event::Trigger(Some(at(10)))));
    assert!(state.awaits(None, &Event::Trigger(None)));
    assert!(state.awaits(Some(at(20)), &Event::Tick));
    assert!(!state.awaits(None, &Event::Tick));
    assert!(!state.awaits(Some(at(20)), &success(true)));
    tick(&mut state, None, Event::Trigger(Some(at(11))), limits(1, 2));
    assert!(state.awaits(None, &success(true)));
    assert!(state.awaits(None, &Event::Publish(None)));
}

#[test]
fn only_the_end_of_a_request_is_awaited_while_backing_off() {
    let (mut state, _) = with_in_flight(2);
    tick(&mut state, None, failure(StatusCode::BadTooManyPublishRequests), limits(2, 2));
    assert!(!state.awaits(Some(at(20)), &Event::Tick));
    assert!(!state.awaits(Some(at(20)), &Event::Trigger(Some(at(99)))));
    assert!(!state.awaits(Some(at(20)), &Event::Trigger(None)));
    assert!(state.awaits(Some(at(20)), &success(false)));
    assert!(state.is_new_trigger(at(99)));
    // The trigger is still there once the back-off has ended.
    tick(&mut state, None, failure(StatusCode::BadTimeout), limits(2, 2));
    assert!(state.awaits(Some(at(20)), &Event::Trigger(Some(at(99)))));
}

#[test]
fn status_codes_by_their_value() {
    let named = [
        (0x800A_0000, StatusCode::BadTimeout),
        (0x8078_0000, StatusCode::BadTooManyPublishRequests),
        (0x8026_0000, StatusCode::BadSessionClosed),
        (0x8025_0000, StatusCode::BadSessionIdInvalid),
        (0x8079_0000, StatusCode::BadNoSubscription),
        (0x80AF_0000, StatusCode::BadInvalidState),
    ];
    for (bits, status) in named {
        assert_eq!(StatusCode::from_bits(bits), status);
        assert_eq!(status.bits(), bits);
    }
    for bits in [0, 1, 0x8002_0000, 0x800A_0001, u32::MAX] {
        let status = StatusCode::from_bits(bits);
        assert!(matches!(status, StatusCode::Other(_)));
        assert_eq!(status.bits(), bits);
        assert_eq!(status, StatusCode::from_bits(bits));
    }
    assert_ne!(StatusCode::from_bits(1), StatusCode::from_bits(2));
}

#[test]
fn a_dead_session_is_fatal() {
    for status in [StatusCode::BadSessionClosed, StatusCode::BadSessionIdInvalid] {
        let (mut state, log) = with_in_flight(2);
        let ticked = tick(&mut state, None, failure(status), limits(2, 2));
        assert_eq!(ticked.request, None);
        assert_eq!(
            ticked.outcome,
            ActivityOrNext::Activity(SubscriptionActivity::FatalFailure(status))
        );
        assert_eq!(state.in_flight(), 1);
        assert!(!state.backing_off());
        assert_eq!(asked(&log), vec![]);
    }
}

#[test]
fn other_failures_are_reported_and_send_nothing() {
    for status in [
        StatusCode::BadTimeout,
        StatusCode::BadTooManyPublishRequests,
        StatusCode::BadNoSubscription,
        StatusCode::BadInvalidState,
        StatusCode::from_bits(0x8002_0000),
    ] {
        let (mut state, log) = with_in_flight(1);
        let ticked = tick(&mut state, None, failure(status), limits(2, 2));
        assert_eq!(ticked.request, None);
        assert_eq!(
            ticked.outcome,
            ActivityOrNext::Activity(SubscriptionActivity::PublishFailed(status))
        );
        assert_eq!(state.in_flight(), 0);
        assert_eq!(asked(&log), vec![]);
    }
}

#[test]
fn no_subscription_blocks_ticks_until_a_trigger() {
    let (mut state, _) = with_in_flight(1);
    tick(&mut state, None, failure(StatusCode::BadNoSubscription), limits(2, 2));
    assert_eq!(tick(&mut state, Some(at(20)), Event::Tick, limits(2, 2)).request, None);
    assert_eq!(
        tick(&mut state, None, Event::Trigger(Some(at(50))), limits(2, 2)).request,
        Some(101)
    );
    assert_eq!(tick(&mut state, Some(at(20)), Event::Tick, limits(2, 2)).request, Some(102));
}

#[test]
fn no_subscription_blocks_ticks_until_a_success() {
    let (mut state, _) = with_in_flight(2);
    tick(&mut state, None, failure(StatusCode::BadNoSubscription), limits(0, 2));
    assert_eq!(tick(&mut state, Some(at(20)), Event::Tick, limits(0, 2)).request, None);
    tick(&mut state, None, success(false), limits(0, 2));
    assert_eq!(tick(&mut state, Some(at(20)), Event::Tick, limits(0, 2)).request, Some(102));
}

#[test]
fn an_empty_collection_is_an_invalid_state() {
    let (mut state, _) = with_in_flight(2);
    let ticked = tick(&mut state, None, Event::Publish(None), limits(2, 2));
    assert_eq!(ticked.request, None);
    assert_eq!(
        ticked.outcome,
        ActivityOrNext::Activity(SubscriptionActivity::PublishFailed(StatusCode::BadInvalidState))
    );
    assert_eq!(state.in_flight(), 0);
}

#[test]
fn publish_results() {
    assert!(matches!(publish_result(Some(Ok(true))), Ok(true)));
    assert!(matches!(publish_result(Some(Ok(false))), Ok(false)));
    let error = publish_result(Some(Err(Error::new(StatusCode::BadTimeout, "late")))).unwrap_err();
    assert_eq!(error.status(), StatusCode::BadTimeout);
    assert_eq!(error.message, "late");
    let error = publish_result(None).unwrap_err();
    assert_eq!(error.status(), StatusCode::BadInvalidState);
    assert_eq!(error.message, "Invalid state, polling for publish completion returned None");
}

#[test]
fn requests_are_accounted_for() {
    let (mut state, log) = with_in_flight(1);
    let events = vec![
        Event::Tick,
        Event::Trigger(Some(at(30))),
        success(true),
        failure(StatusCode::BadTimeout),
        Event::Tick,
        success(false),
        failure(StatusCode::BadTooManyPublishRequests),
    ];
    let mut ended = 0usize;
    for event in events {
        if matches!(event, Event::Publish(_)) {
            ended += 1;
        }
        tick(&mut state, Some(at(20)), event, limits(2, 3));
    }
    let sent = asked(&log).iter().filter(|a| **a == Asked::Source).count();
    assert_eq!(sent, 4);
    assert_eq!(ended, 4);
    assert_eq!(state.in_flight() + ended, 1 + sent);
}
