//! The plain values that the event loop receives, decides on and hands back.

use vstd::prelude::*;

verus! {

/// A point in time: nanoseconds, counted from an origin that the caller picks once and keeps.
#[derive(Clone, Copy, Debug, PartialEq, Eq, Structural)]
pub struct Instant {
    /// Nanoseconds since the origin, negative for a time before it.
    pub nanos: i128,
}

impl Instant {
    /// Whether this is strictly later than `other`.
    pub fn is_after(self, other: Instant) -> (after: bool)
        ensures
            after == (self.nanos > other.nanos),
    {
        self.nanos > other.nanos
    }
}

/// The status codes by which the event loop tells failed publish requests apart, and any other.
#[derive(Clone, Copy, Debug, PartialEq, Eq, Structural)]
pub enum StatusCode {
    /// The request was not answered in time.
    BadTimeout,
    /// The server holds as many publish requests as it is willing to queue.
    BadTooManyPublishRequests,
    /// The session was closed.
    BadSessionClosed,
    /// The server does not know the session.
    BadSessionIdInvalid,
    /// The session has no subscription.
    BadNoSubscription,
    /// The client is in a state that it should never reach.
    BadInvalidState,
    /// A status code that has no name here.
    Other(OtherStatusCode),
}

/// The 32-bit value of a status code that has no name in [`StatusCode`].
#[derive(Clone, Copy, Debug, PartialEq, Eq, Structural)]
pub struct OtherStatusCode {
    bits: u32,
}

/// The 32-bit values of the status codes that have a name in [`StatusCode`].
pub const BAD_TIMEOUT: u32 = 0x800A_0000;

pub const BAD_TOO_MANY_PUBLISH_REQUESTS: u32 = 0x8078_0000;

pub const BAD_SESSION_CLOSED: u32 = 0x8026_0000;

pub const BAD_SESSION_ID_INVALID: u32 = 0x8025_0000;

pub const BAD_NO_SUBSCRIPTION: u32 = 0x8079_0000;

pub const BAD_INVALID_STATE: u32 = 0x80AF_0000;

/// Whether a status code with this 32-bit value has a name in [`StatusCode`].
pub open spec fn is_named(bits: u32) -> bool {
    ||| bits == BAD_TIMEOUT
    ||| bits == BAD_TOO_MANY_PUBLISH_REQUESTS
    ||| bits == BAD_SESSION_CLOSED
    ||| bits == BAD_SESSION_ID_INVALID
    ||| bits == BAD_NO_SUBSCRIPTION
    ||| bits == BAD_INVALID_STATE
}

impl OtherStatusCode {
    /// The 32-bit value.
    pub closed spec fn code(self) -> u32 {
        self.bits
    }

    /// A status code that has a name goes by that name.
    #[verifier::type_invariant]
    pub closed spec fn wf(self) -> bool {
        !is_named(self.bits)
    }
}

impl StatusCode {
    /// The 32-bit value of the status code.
    pub open spec fn code(self) -> u32 {
        match self {
            StatusCode::BadTimeout => BAD_TIMEOUT,
            StatusCode::BadTooManyPublishRequests => BAD_TOO_MANY_PUBLISH_REQUESTS,
            StatusCode::BadSessionClosed => BAD_SESSION_CLOSED,
            StatusCode::BadSessionIdInvalid => BAD_SESSION_ID_INVALID,
            StatusCode::BadNoSubscription => BAD_NO_SUBSCRIPTION,
            StatusCode::BadInvalidState => BAD_INVALID_STATE,
            StatusCode::Other(other) => other.code(),
        }
    }

    /// Whether the status code goes by its name if it has one. All that a program can make do.
    pub open spec fn wf(self) -> bool {
        self matches StatusCode::Other(other) ==> other.wf()
    }

    /// The status code with the given 32-bit value.
    pub fn from_bits(bits: u32) -> (status: StatusCode)
        ensures
            status.wf(),
            status.code() == bits,
            status is Other <==> !is_named(bits),
    {
        if bits == BAD_TIMEOUT {
            StatusCode::BadTimeout
        } else if bits == BAD_TOO_MANY_PUBLISH_REQUESTS {
            StatusCode::BadTooManyPublishRequests
        } else if bits == BAD_SESSION_CLOSED {
            StatusCode::BadSessionClosed
        } else if bits == BAD_SESSION_ID_INVALID {
            StatusCode::BadSessionIdInvalid
        } else if bits == BAD_NO_SUBSCRIPTION {
            StatusCode::BadNoSubscription
        } else if bits == BAD_INVALID_STATE {
            StatusCode::BadInvalidState
        } else {
            StatusCode::Other(OtherStatusCode { bits })
        }
    }

    /// The 32-bit value of the status code.
    pub fn bits(self) -> (bits: u32)
        ensures
            self.wf(),
            bits == self.code(),
    {
        match self {
            StatusCode::BadTimeout => BAD_TIMEOUT,
            StatusCode::BadTooManyPublishRequests => BAD_TOO_MANY_PUBLISH_REQUESTS,
            StatusCode::BadSessionClosed => BAD_SESSION_CLOSED,
            StatusCode::BadSessionIdInvalid => BAD_SESSION_ID_INVALID,
            StatusCode::BadNoSubscription => BAD_NO_SUBSCRIPTION,
            StatusCode::BadInvalidState => BAD_INVALID_STATE,
            StatusCode::Other(other) => {
                proof {
                    use_type_invariant(other);
                }
                other.bits
            },
        }
    }
}

/// A status code has one form only: two with the same 32-bit value are the same.
pub proof fn law_status_codes_are_unique(a: StatusCode, b: StatusCode)
    requires
        a.wf(),
        b.wf(),
        a.code() == b.code(),
    ensures
        a == b,
{
}

/// The 32-bit value of each status code that has a name.
pub proof fn law_values_of_the_named_status_codes()
    ensures
        StatusCode::BadTimeout.code() == 0x800A_0000,
        StatusCode::BadTooManyPublishRequests.code() == 0x8078_0000,
        StatusCode::BadSessionClosed.code() == 0x8026_0000,
        StatusCode::BadSessionIdInvalid.code() == 0x8025_0000,
        StatusCode::BadNoSubscription.code() == 0x8079_0000,
        StatusCode::BadInvalidState.code() == 0x80AF_0000,
{
}

/// Why a publish request failed.
#[derive(Debug)]
pub struct Error {
    /// The status code that the request ended with.
    pub status: StatusCode,
    /// What went wrong, for people to read.
    pub message: String,
}

impl Error {
    /// An error with the given status code and message.
    pub fn new(status: StatusCode, message: &str) -> (error: Error)
        ensures
            error.status == status,
            error.message@ == message@,
    {
        Error { status, message: message.to_string() }
    }

    /// The status code that the request ended with.
    pub fn status(&self) -> (status: StatusCode)
        ensures
            status == self.status,
    {
        self.status
    }
}

/// What the event loop reports to its caller.
#[derive(Clone, Copy, Debug, PartialEq, Eq, Structural)]
pub enum SubscriptionActivity {
    /// A publish request succeeded.
    Publish,
    /// A publish request failed with this status code; the session lives on.
    PublishFailed(StatusCode),
    /// A publish request failed with this status code, which says that the session is dead.
    FatalFailure(StatusCode),
}

/// How many publish requests to keep in flight.
#[derive(Clone, Copy, Debug, PartialEq, Eq, Structural)]
pub struct PublishLimits {
    /// With fewer than this many in flight, a successful response is followed by a new request.
    pub min_publish_requests: usize,
    /// With this many or more in flight, the publishing interval adds none.
    pub max_publish_requests: usize,
}

/// What can happen to the event loop while it waits.
#[derive(Debug)]
pub enum Event {
    /// The channel for external triggers holds a new trigger, or `None`: it was closed.
    Trigger(Option<Instant>),
    /// The time of the next publish has come.
    Tick,
    /// The collection of requests in flight was polled to readiness. `Some` is the result of a
    /// request that has ended, and says whether the server has more notifications queued;
    /// `None` says that the collection holds no request.
    Publish(Option<Result<bool, Error>>),
}

/// What the event loop waits for.
#[derive(Clone, Copy, Debug, PartialEq, Eq, Structural)]
pub struct WaitPlan {
    /// The time after which an external trigger is new and ends the wait; `None` if no trigger
    /// does.
    pub trigger_after: Option<Instant>,
    /// When the wait ends by itself; `None` if it does not.
    pub tick_at: Option<Instant>,
    /// Whether the end of a request in flight ends the wait.
    pub publish: bool,
}

impl WaitPlan {
    /// Whether a value of the trigger channel ends the wait.
    pub fn is_awaited_trigger(self, value: Instant) -> (is_awaited: bool)
        ensures
            is_awaited == (self.trigger_after matches Some(last) && value.nanos > last.nanos),
    {
        match self.trigger_after {
            Some(last) => value.is_after(last),
            None => false,
        }
    }
}

/// What handling one event comes to.
#[derive(Clone, Copy, Debug, PartialEq, Eq, Structural)]
pub enum ActivityOrNext {
    /// The iteration ends, with this to report.
    Activity(SubscriptionActivity),
    /// The iteration goes on; the next publish is due at this time, if at any.
    Next(Option<Instant>),
}

} // verus!
