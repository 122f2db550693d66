//! The subscription event loop of an OPC UA client session.
//!
//! The loop keeps publish requests in flight, so that the server can answer them with the
//! notifications of the session's subscriptions. It sends one when it is triggered from outside,
//! when the publishing interval has passed, and after a response while notifications are queued or
//! few requests are left. It backs off when the server refuses requests as too many.
//!
//! [`SubscriptionEventLoopState`] decides; it neither waits nor talks to a server. Whoever drives
//! it waits for what its plan names, hands it the event, and keeps the request that it starts.

pub mod cache;
pub mod event_loop_state;
pub mod laws;
pub mod model;
mod surroundings;
pub mod types;

pub use cache::SubscriptionCache;
pub use event_loop_state::{publish_result, SubscriptionEventLoopState, Ticked};
pub use surroundings::Call;
pub use types::{
    ActivityOrNext, Error, Event, Instant, OtherStatusCode, PublishLimits, StatusCode,
    SubscriptionActivity, WaitPlan,
};
