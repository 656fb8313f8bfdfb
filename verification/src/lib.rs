//! Retry decisions for an HTTP client.
//!
//! A [`RetryConfig`] is bound to one request. After each attempt it is told
//! how the attempt ended and answers whether to send the request again, and
//! after what wait: at once after a failure of the transport or of the
//! server, and after a throttling response once the rate-limit window that
//! the response reports has ended. It also copies the request for the
//! resend. Sending and waiting are the caller's part.

pub mod clock;
pub mod decimal;
pub mod headers;
pub mod policy;
pub mod rate_limit;
pub mod request;

pub use clock::{Delay, UtcInstant};
pub use policy::{Attempt, RetryConfig, StatusClass};
pub use rate_limit::RateLimitInfo;
pub use request::{CloneError, ClonedRequest, HttpVersion, RequestParts};
