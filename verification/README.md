# opcua_subscriptions

The subscription event loop of an OPC UA client session, verified with Verus.

- `src/types.rs`: the plain values that go in and out.
- `src/cache.rs`: `SubscriptionCache`, by which a caller says when the next publish is due.
- `src/surroundings.rs`: the calls that the loop makes, each with its record.
- `src/model.rs`: what the loop decides, as functions of its state and of what happened.
- `src/event_loop_state.rs`: `SubscriptionEventLoopState`, the state machine that decides so.
- `src/laws.rs`: what holds of the loop as a whole, over sequences of events.
- `app/`: the loop on top of tokio. It waits, keeps the requests in flight, and logs.
- `tests/`: single decisions, and whole runs against a fake server in virtual time.

One turn of the loop asks `wait_plan` what to wait for, waits, and hands the event to `tick`. That
may start a publish request, which the driver keeps until it ends, and says either what to report
or when the next publish is due.
