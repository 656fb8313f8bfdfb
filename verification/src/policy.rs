//! The retry policy of one request: whether to send it again, and after what
//! wait.

use crate::clock::{lemma_at_second, lemma_nanos_since_fits, utc_now, Delay, UtcInstant};
use crate::headers::{header_fields, HeaderFields, REFUSAL_THRESHOLD};
use crate::rate_limit::{
    lemma_reported_in_range, lemma_reported_needs_every_field, RateLimitInfo, LIMIT_HEADER,
    REMAINING_HEADER, RESET_HEADER,
};
use crate::request::{copy_fields, ClonedRequest, CloneError, RequestParts};
use http::header::{HeaderMap, HeaderValue};
use vstd::prelude::*;

verus! {

/// The status that tells a client it has sent too many requests.
pub const TOO_MANY_REQUESTS: u16 = 429;

/// The status that refuses a request; a rate limit may be the reason.
pub const FORBIDDEN: u16 = 403;

/// What a status means to the policy.
#[derive(Clone, Copy, Debug, PartialEq, Eq, Structural)]
pub enum StatusClass {
    /// The server failed: 500 to 599.
    ServerError,
    /// The server may be holding the client back: 429 or 403.
    Throttled,
    /// Anything else, success included.
    Other,
}

/// The class of a status.
pub open spec fn spec_classify(status: u16) -> StatusClass {
    if 500 <= status < 600 {
        StatusClass::ServerError
    } else if status == TOO_MANY_REQUESTS || status == FORBIDDEN {
        StatusClass::Throttled
    } else {
        StatusClass::Other
    }
}

/// The class of a status.
pub fn classify(status: u16) -> (class: StatusClass)
    ensures
        class == spec_classify(status),
{
    if 500 <= status && status < 600 {
        StatusClass::ServerError
    } else if status == TOO_MANY_REQUESTS || status == FORBIDDEN {
        StatusClass::Throttled
    } else {
        StatusClass::Other
    }
}

/// How one attempt at a request ended.
#[derive(Clone, Copy, Debug)]
pub enum Attempt<'a> {
    /// A response arrived, with this status and these headers.
    Response { status: u16, headers: &'a HeaderMap<HeaderValue> },
    /// No response arrived: the transport failed.
    TransportError,
}

impl<'a> Attempt<'a> {
    /// The class of the status, where a response arrived.
    pub open spec fn class(self) -> Option<StatusClass> {
        match self {
            Attempt::Response { status, .. } => Some(spec_classify(status)),
            Attempt::TransportError => None,
        }
    }

    /// Whether the attempt ended in a failure of the transport or of the
    /// server.
    pub open spec fn retries_at_once(self) -> bool {
        self is TransportError || self.class() == Some(StatusClass::ServerError)
    }
}

/// The retry policy bound to one request.
#[derive(Clone, Copy, Debug, PartialEq, Eq, Structural)]
pub enum RetryConfig {
    /// Never retry.
    Disabled,
    /// Retry while attempts are left; the number counts them down.
    Simple(usize),
}

/// The wait that the headers of a throttling response ask for at `now`: the
/// time until the window ends, where they report a state in which the caller
/// is held back; none where they report no state, or one that holds nobody
/// back.
pub open spec fn throttle_wait(fields: HeaderFields, now: UtcInstant) -> Option<Delay> {
    match RateLimitInfo::reported(fields, now) {
        Some(info) => if info.spec_is_rate_limited(now) {
            Some(info.spec_time_until_reset(now))
        } else {
            None
        },
        None => None,
    }
}

/// The wait that an attempt asks for at `now`, of a policy that has an
/// attempt to spend: none at all after a failure of the transport or of the
/// server, the wait of the headers after a throttling response, and no retry
/// after anything else.
pub open spec fn attempt_wait(attempt: Attempt, now: UtcInstant) -> Option<Delay> {
    match attempt {
        Attempt::TransportError => Some(Delay::of_nanos(0)),
        Attempt::Response { status, headers } => match spec_classify(status) {
            StatusClass::ServerError => Some(Delay::of_nanos(0)),
            StatusClass::Throttled => throttle_wait(header_fields(*headers), now),
            StatusClass::Other => None,
        },
    }
}

impl RetryConfig {
    /// Whether the policy still has an attempt to spend.
    pub open spec fn has_attempts(self) -> bool {
        self matches RetryConfig::Simple(remaining) && remaining > 0
    }

    /// The policy after it has judged one attempt: one attempt fewer, where
    /// it had any.
    pub open spec fn after_attempt(self) -> RetryConfig {
        match self {
            RetryConfig::Simple(remaining) => if remaining > 0 {
                RetryConfig::Simple((remaining - 1) as usize)
            } else {
                self
            },
            RetryConfig::Disabled => self,
        }
    }

    /// The wait before the next attempt that the policy answers to an
    /// attempt judged at `now`, or none where it answers not to retry.
    pub open spec fn spec_retry(self, attempt: Attempt, now: UtcInstant) -> Option<Delay> {
        if self.has_attempts() {
            attempt_wait(attempt, now)
        } else {
            None
        }
    }

    /// Judges one attempt, taking the instant from `clock` where it is given
    /// and from the system clock, if it is needed at all, where it is not.
    fn decide(&mut self, attempt: &Attempt<'_>, clock: Option<UtcInstant>) -> (r: (
        Option<Delay>,
        Ghost<UtcInstant>,
    ))
        ensures
            r.1@.in_range(),
            clock matches Some(now) ==> r.1@ == now,
            *final(self) == old(self).after_attempt(),
            r.0 == old(self).spec_retry(*attempt, r.1@),
    {
        proof {
            lemma_at_second(0);
            if let Some(now) = clock {
                use_type_invariant(now);
            }
        }
        let ghost any = match clock {
            Some(now) => now,
            None => UtcInstant::at_second(0),
        };
        let remaining = match *self {
            RetryConfig::Disabled => {
                return (None, Ghost(any));
            },
            RetryConfig::Simple(remaining) => remaining,
        };
        if remaining == 0 {
            return (None, Ghost(any));
        }
        *self = RetryConfig::Simple(remaining - 1);
        match attempt {
            Attempt::TransportError => (Some(Delay::zero()), Ghost(any)),
            Attempt::Response { status, headers } => match classify(*status) {
                StatusClass::ServerError => (Some(Delay::zero()), Ghost(any)),
                StatusClass::Throttled => {
                    let now = match clock {
                        Some(now) => now,
                        None => utc_now(),
                    };
                    proof {
                        use_type_invariant(now);
                    }
                    let wait = match RateLimitInfo::from_headers_at(headers, now) {
                        Some(info) => if info.is_rate_limited_at(now) {
                            Some(info.time_until_reset_at(now))
                        } else {
                            None
                        },
                        None => None,
                    };
                    (wait, Ghost(now))
                },
                StatusClass::Other => (None, Ghost(any)),
            },
        }
    }

    /// Judges one attempt: answers the wait before the next one, or `None`
    /// for no retry, and spends one attempt where any was left. The system
    /// clock is read where a throttling response has to be judged, and then
    /// once; the answer is the one that `retry_at` gives at that instant.
    pub fn retry(&mut self, attempt: &Attempt<'_>) -> (wait: Option<Delay>)
        ensures
            *final(self) == old(self).after_attempt(),
            exists|now: UtcInstant| now.in_range() && wait == old(self).spec_retry(*attempt, now),
            !old(self).has_attempts() ==> wait is None,
            old(self).has_attempts() && attempt.retries_at_once() ==> wait == Some(
                Delay::of_nanos(0),
            ),
            attempt.class() == Some(StatusClass::Other) ==> wait is None,
    {
        let (wait, Ghost(now)) = self.decide(attempt, None);
        wait
    }

    /// Judges one attempt as `retry` does, at the instant `now` in place of
    /// the one the system clock gives.
    pub fn retry_at(&mut self, attempt: &Attempt<'_>, now: UtcInstant) -> (wait: Option<Delay>)
        ensures
            *final(self) == old(self).after_attempt(),
            wait == old(self).spec_retry(*attempt, now),
    {
        let (wait, Ghost(at)) = self.decide(attempt, Some(now));
        wait
    }

    /// A copy of the request for a later resend, or `None` where the policy
    /// never retries and so needs none; a policy that has spent its attempts
    /// still copies. The policy stays as it is. A request with fewer than
    /// `REFUSAL_THRESHOLD` header names is always copied; the copy of one
    /// with more fails where its header map refuses a field.
    pub fn clone_request<B: Clone>(&mut self, req: &RequestParts<'_, B>) -> (copy: Result<
        Option<ClonedRequest<B>>,
        CloneError,
    >)
        ensures
            *final(self) == *old(self),
            *old(self) is Disabled ==> copy matches Ok(None),
            !(*old(self) is Disabled) ==> !(copy matches Ok(None)),
            copy matches Ok(Some(fresh)) ==> fresh.is_copy_of(*req),
            header_fields(*req.headers).dom().len() < REFUSAL_THRESHOLD ==> copy is Ok,
            !(*old(self) is Disabled) && header_fields(*req.headers).dom().len()
                < REFUSAL_THRESHOLD ==> copy matches Ok(Some(_)),
    {
        match *self {
            RetryConfig::Disabled => Ok(None),
            _ => {
                let uri = req.uri.to_owned();
                let method = req.method.to_owned();
                let version = req.version;
                let headers = copy_fields(req.headers)?;
                let body = req.body.clone();
                Ok(Some(ClonedRequest { method, uri, version, headers, body }))
            },
        }
    }
}

/// A policy that never retries, or that has spent its attempts, answers no
/// retry to every attempt at every instant, and stays as it is.
pub proof fn lemma_spent_policy_stops(policy: RetryConfig, attempt: Attempt, now: UtcInstant)
    requires
        policy is Disabled || policy == RetryConfig::Simple(0),
    ensures
        policy.spec_retry(attempt, now) is None,
        policy.after_attempt() == policy,
{
}

/// Judging an attempt takes exactly one from the attempts left, whatever
/// the attempt was and whatever the answer is.
pub proof fn lemma_attempt_spends_one(remaining: usize)
    requires
        remaining > 0,
    ensures
        RetryConfig::Simple(remaining).after_attempt() == RetryConfig::Simple(
            (remaining - 1) as usize,
        ),
{
}

/// While attempts are left, a failure of the transport and every status from
/// 500 to 599 are answered with a retry at once, whatever the headers say.
pub proof fn lemma_failure_retries_at_once(policy: RetryConfig, attempt: Attempt, now: UtcInstant)
    requires
        policy.has_attempts(),
        attempt.retries_at_once(),
    ensures
        policy.spec_retry(attempt, now) == Some(Delay { secs: 0, nanos: 0 }),
{
}

/// A status that is neither 500 to 599 nor 429 nor 403, and so every
/// success, is never answered with a retry.
pub proof fn lemma_other_status_stops(
    policy: RetryConfig,
    status: u16,
    headers: &HeaderMap<HeaderValue>,
    now: UtcInstant,
)
    requires
        !(500 <= status < 600),
        status != TOO_MANY_REQUESTS,
        status != FORBIDDEN,
    ensures
        policy.spec_retry(Attempt::Response { status, headers }, now) is None,
{
}

/// A throttling response whose headers report no state, because one of the
/// three fields that make it is missing or is no number, is never answered
/// with a retry.
pub proof fn lemma_throttled_without_state_stops(
    policy: RetryConfig,
    status: u16,
    headers: &HeaderMap<HeaderValue>,
    now: UtcInstant,
)
    requires
        status == TOO_MANY_REQUESTS || status == FORBIDDEN,
        RateLimitInfo::reported(header_fields(*headers), now) is None,
    ensures
        policy.spec_retry(Attempt::Response { status, headers }, now) is None,
{
}

/// A throttling response that lacks the header of the quota, of the requests
/// left or of the reset second is never answered with a retry, whatever its
/// other headers say.
pub proof fn lemma_throttled_without_field_stops(
    policy: RetryConfig,
    status: u16,
    headers: &HeaderMap<HeaderValue>,
    now: UtcInstant,
    name: Seq<char>,
)
    requires
        status == TOO_MANY_REQUESTS || status == FORBIDDEN,
        name == LIMIT_HEADER@ || name == REMAINING_HEADER@ || name == RESET_HEADER@,
        !header_fields(*headers).contains_key(name),
    ensures
        policy.spec_retry(Attempt::Response { status, headers }, now) is None,
{
    lemma_reported_needs_every_field(header_fields(*headers), now);
}

/// While attempts are left, a throttling response whose headers report no
/// request left and a window that ends after `now` is answered with the wait
/// until the window ends, which is more than none; one whose headers report
/// a request left, or a window that has ended, is answered with no retry.
pub proof fn lemma_throttled_waits_for_reset(
    policy: RetryConfig,
    status: u16,
    headers: &HeaderMap<HeaderValue>,
    now: UtcInstant,
    info: RateLimitInfo,
)
    requires
        now.in_range(),
        policy.has_attempts(),
        status == TOO_MANY_REQUESTS || status == FORBIDDEN,
        RateLimitInfo::reported(header_fields(*headers), now) == Some(info),
    ensures
        info.remaining == 0 && info.reset_time@ > now@ ==> (policy.spec_retry(
            Attempt::Response { status, headers },
            now,
        ) matches Some(wait) && wait@ == info.reset_time@ - now@ && wait@ > 0),
        info.remaining > 0 || info.reset_time@ <= now@ ==> policy.spec_retry(
            Attempt::Response { status, headers },
            now,
        ) is None,
{
    lemma_reported_in_range(header_fields(*headers), now);
    lemma_nanos_since_fits(info.reset_time, now);
}

} // verus!
