//! The rate-limit state that a response reports in its headers.

use crate::clock::{
    lemma_at_second, utc_from_timestamp, utc_now, Delay, UtcInstant, MAX_TIMESTAMP, MIN_TIMESTAMP,
};
use crate::decimal::{
    is_digit, parse_i64, parse_u32, spec_parse_i64, spec_parse_u32, MINUS_SIGN, PLUS_SIGN,
};
use crate::headers::{
    field_text, first_field, header_fields, is_plain_name, is_text, HeaderFields,
};
use http::header::{HeaderMap, HeaderValue};
use vstd::prelude::*;

verus! {

/// The header that carries the quota of a window.
pub const LIMIT_HEADER: &'static str = "x-ratelimit-limit";

/// The header that carries the requests left in the window.
pub const REMAINING_HEADER: &'static str = "x-ratelimit-remaining";

/// The header that carries the second at which the window ends.
pub const RESET_HEADER: &'static str = "x-ratelimit-reset";

/// The header that carries the requests made in the window.
pub const USED_HEADER: &'static str = "x-ratelimit-used";

/// The rate-limit state of one response.
#[derive(Clone, Copy, Debug, PartialEq, Eq, Structural)]
pub struct RateLimitInfo {
    /// The requests allowed in a window.
    pub limit: u32,
    /// The requests left in the current window.
    pub remaining: u32,
    /// The instant at which the current window ends.
    pub reset_time: UtcInstant,
    /// The requests made in the current window.
    pub used: u32,
}

/// The `u32` that the first value under `name` writes.
pub open spec fn field_u32(fields: HeaderFields, name: Seq<char>) -> Option<u32> {
    match first_field(fields, name) {
        Some(value) => spec_parse_u32(value),
        None => None,
    }
}

/// The `i64` that the first value under `name` writes.
pub open spec fn field_i64(fields: HeaderFields, name: Seq<char>) -> Option<i64> {
    match first_field(fields, name) {
        Some(value) => spec_parse_i64(value),
        None => None,
    }
}

/// The instant that a reported reset second stands for: the start of that
/// second, or `now` where no instant has that second.
pub open spec fn reset_instant(secs: i64, now: UtcInstant) -> UtcInstant {
    if MIN_TIMESTAMP <= secs <= MAX_TIMESTAMP {
        UtcInstant::at_second(secs)
    } else {
        now
    }
}

/// Bytes that write a number are text: a value that is no text is no number
/// either, and needs no word of its own.
pub proof fn lemma_number_is_text(bytes: Seq<u8>)
    requires
        spec_parse_u32(bytes) is Some || spec_parse_i64(bytes) is Some,
    ensures
        is_text(bytes),
{
    assert forall|i: int| 0 <= i < bytes.len() implies is_digit(bytes[i]) || bytes[i] == PLUS_SIGN
        || bytes[i] == MINUS_SIGN by {
        if i > 0 && (bytes[0] == PLUS_SIGN || bytes[0] == MINUS_SIGN) {
            assert(bytes.skip(1)[i - 1] == bytes[i]);
        }
    }
}

/// Reads the first value under `name` as a `u32`.
fn read_u32(headers: &HeaderMap<HeaderValue>, name: &str) -> (r: Option<u32>)
    requires
        is_plain_name(name@),
    ensures
        r == field_u32(header_fields(*headers), name@),
{
    proof {
        if let Some(value) = first_field(header_fields(*headers), name@) {
            if spec_parse_u32(value) is Some {
                lemma_number_is_text(value);
            }
        }
    }
    match field_text(headers, name) {
        Some(bytes) => parse_u32(bytes),
        None => None,
    }
}

/// Reads the first value under `name` as an `i64`.
fn read_i64(headers: &HeaderMap<HeaderValue>, name: &str) -> (r: Option<i64>)
    requires
        is_plain_name(name@),
    ensures
        r == field_i64(header_fields(*headers), name@),
{
    proof {
        if let Some(value) = first_field(header_fields(*headers), name@) {
            if spec_parse_i64(value) is Some {
                lemma_number_is_text(value);
            }
        }
    }
    match field_text(headers, name) {
        Some(bytes) => parse_i64(bytes),
        None => None,
    }
}

impl RateLimitInfo {
    /// The state that the fields report to a reader at `now`. The quota, the
    /// requests left and the reset second must all be there and be numbers;
    /// the requests made count as none where they are not.
    pub open spec fn reported(fields: HeaderFields, now: UtcInstant) -> Option<
        RateLimitInfo,
    > {
        match (
            field_u32(fields, LIMIT_HEADER@),
            field_u32(fields, REMAINING_HEADER@),
            field_i64(fields, RESET_HEADER@),
        ) {
            (Some(limit), Some(remaining), Some(reset)) => Some(
                RateLimitInfo {
                    limit,
                    remaining,
                    reset_time: reset_instant(reset, now),
                    used: match field_u32(fields, USED_HEADER@) {
                        Some(used) => used,
                        None => 0,
                    },
                },
            ),
            _ => None,
        }
    }

    /// Whether the fields hold a reset second that no instant has, so that
    /// the state they report hangs on the instant at which they are read.
    pub open spec fn reset_out_of_range(fields: HeaderFields) -> bool {
        field_i64(fields, RESET_HEADER@) matches Some(reset) && !(MIN_TIMESTAMP <= reset
            <= MAX_TIMESTAMP)
    }

    /// Reads the state from the headers of a response, taking the instant
    /// from `clock` where it is given and from the system clock, if it is
    /// needed at all, where it is not.
    fn read(headers: &HeaderMap<HeaderValue>, clock: Option<UtcInstant>) -> (r: (
        Option<RateLimitInfo>,
        Ghost<UtcInstant>,
    ))
        ensures
            r.1@.in_range(),
            clock matches Some(now) ==> r.1@ == now,
            r.0 == Self::reported(header_fields(*headers), r.1@),
    {
        proof {
            reveal_strlit("x-ratelimit-limit");
            reveal_strlit("x-ratelimit-remaining");
            reveal_strlit("x-ratelimit-reset");
            reveal_strlit("x-ratelimit-used");
            lemma_at_second(0);
        }
        let ghost any = match clock {
            Some(now) => now,
            None => UtcInstant::at_second(0),
        };
        proof {
            if let Some(now) = clock {
                use_type_invariant(now);
            }
        }
        let limit = match read_u32(headers, LIMIT_HEADER) {
            Some(limit) => limit,
            None => {
                return (None, Ghost(any));
            },
        };
        let remaining = match read_u32(headers, REMAINING_HEADER) {
            Some(remaining) => remaining,
            None => {
                return (None, Ghost(any));
            },
        };
        let reset = match read_i64(headers, RESET_HEADER) {
            Some(reset) => reset,
            None => {
                return (None, Ghost(any));
            },
        };
        let (reset_time, at) = match utc_from_timestamp(reset) {
            Some(reset_time) => (reset_time, Ghost(any)),
            None => {
                let now = match clock {
                    Some(now) => now,
                    None => utc_now(),
                };
                proof {
                    use_type_invariant(now);
                }
                (now, Ghost(now))
            },
        };
        let used = match read_u32(headers, USED_HEADER) {
            Some(used) => used,
            None => 0,
        };
        (Some(RateLimitInfo { limit, remaining, reset_time, used }), at)
    }

    /// Reads the state from the headers of a response. Where the reset
    /// second is one that no instant has, the window counts as ending at the
    /// instant the system clock then gives; the clock is not read otherwise,
    /// and the state is the same at whatever instant the headers are read.
    pub fn from_headers(headers: &HeaderMap<HeaderValue>) -> (info: Option<RateLimitInfo>)
        ensures
            exists|now: UtcInstant|
                now.in_range() && info == Self::reported(header_fields(*headers), now),
            !Self::reset_out_of_range(header_fields(*headers)) ==> forall|at: UtcInstant|
                info == #[trigger] Self::reported(header_fields(*headers), at),
    {
        let (info, Ghost(now)) = Self::read(headers, None);
        info
    }

    /// Reads the state from the headers of a response, as a reader at `now`
    /// finds it.
    pub fn from_headers_at(headers: &HeaderMap<HeaderValue>, now: UtcInstant) -> (info: Option<
        RateLimitInfo,
    >)
        ensures
            info == Self::reported(header_fields(*headers), now),
    {
        let (info, Ghost(at)) = Self::read(headers, Some(now));
        info
    }

    /// The instant at which the current window ends.
    pub fn reset_time(&self) -> (at: UtcInstant)
        ensures
            at == self.reset_time,
    {
        self.reset_time
    }

    /// Whether less than `numerator / denominator` of the quota is left,
    /// that is, whether `remaining / limit` is the smaller fraction. A
    /// quota of zero has no share left to compare, and is never near.
    pub open spec fn spec_is_near_limit(self, numerator: u32, denominator: u32) -> bool {
        self.remaining * denominator < numerator * self.limit
    }

    /// Whether less than `numerator / denominator` of the quota is left.
    pub fn is_near_limit(&self, numerator: u32, denominator: u32) -> (near: bool)
        ensures
            near == self.spec_is_near_limit(numerator, denominator),
    {
        assert(self.remaining * denominator <= 0xffff_ffff * 0xffff_ffff) by (nonlinear_arith)
            requires
                self.remaining <= 0xffff_ffff,
                denominator <= 0xffff_ffff,
        ;
        assert(numerator * self.limit <= 0xffff_ffff * 0xffff_ffff) by (nonlinear_arith)
            requires
                self.limit <= 0xffff_ffff,
                numerator <= 0xffff_ffff,
        ;
        (self.remaining as u64) * (denominator as u64) < (numerator as u64) * (self.limit as u64)
    }

    /// The wait from `now` until the window ends: none where it has ended.
    pub open spec fn spec_time_until_reset(self, now: UtcInstant) -> Delay {
        Delay::of_nanos(self.reset_time.nanos_since(now))
    }

    /// The wait from `now` until the window ends, or no wait where it has
    /// ended.
    pub fn time_until_reset_at(&self, now: UtcInstant) -> (wait: Delay)
        ensures
            wait == self.spec_time_until_reset(now),
            wait@ == self.reset_time.nanos_since(now),
    {
        self.reset_time.saturating_since(&now)
    }

    /// The wait from the instant the system clock gives until the window
    /// ends, or no wait where it has ended.
    pub fn time_until_reset(&self) -> (wait: Delay)
        ensures
            exists|now: UtcInstant| now.in_range() && wait == self.spec_time_until_reset(now),
    {
        let now = utc_now();
        proof {
            use_type_invariant(now);
        }
        self.time_until_reset_at(now)
    }

    /// Whether the caller is held back at `now`: no request is left and the
    /// window ends strictly after `now`.
    pub open spec fn spec_is_rate_limited(self, now: UtcInstant) -> bool {
        self.remaining == 0 && self.reset_time@ > now@
    }

    /// Whether the caller is held back at `now`.
    pub fn is_rate_limited_at(&self, now: UtcInstant) -> (limited: bool)
        ensures
            limited == self.spec_is_rate_limited(now),
    {
        self.remaining == 0 && self.reset_time.is_after(&now)
    }

    /// Whether the caller is held back at the instant the system clock
    /// gives, which is read only where no request is left.
    pub fn is_rate_limited(&self) -> (limited: bool)
        ensures
            self.remaining > 0 ==> !limited,
            exists|now: UtcInstant| now.in_range() && limited == self.spec_is_rate_limited(now),
    {
        if self.remaining != 0 {
            proof {
                lemma_at_second(0);
                assert(UtcInstant::at_second(0).in_range());
            }
            false
        } else {
            let now = utc_now();
            proof {
                use_type_invariant(now);
            }
            self.is_rate_limited_at(now)
        }
    }
}

/// The headers report a state exactly where the quota, the requests left
/// and the reset second are all there and are numbers; where one of the
/// three names is missing they report none.
pub proof fn lemma_reported_needs_every_field(fields: HeaderFields, now: UtcInstant)
    ensures
        RateLimitInfo::reported(fields, now) is Some <==> field_u32(fields, LIMIT_HEADER@) is Some
            && field_u32(fields, REMAINING_HEADER@) is Some && field_i64(fields, RESET_HEADER@)
            is Some,
        !fields.contains_key(LIMIT_HEADER@) ==> RateLimitInfo::reported(fields, now) is None,
        !fields.contains_key(REMAINING_HEADER@) ==> RateLimitInfo::reported(fields, now) is None,
        !fields.contains_key(RESET_HEADER@) ==> RateLimitInfo::reported(fields, now) is None,
{
}

/// Every state that comes of reading headers at an instant ends its window
/// at an instant.
pub proof fn lemma_reported_in_range(fields: HeaderFields, now: UtcInstant)
    requires
        now.in_range(),
    ensures
        RateLimitInfo::reported(fields, now) matches Some(info) ==> info.reset_time.in_range(),
{
    if let Some(reset) = field_i64(fields, RESET_HEADER@) {
        if MIN_TIMESTAMP <= reset <= MAX_TIMESTAMP {
            lemma_at_second(reset);
        }
    }
}

/// The caller is held back exactly where no request is left and there is
/// still time to wait until the window ends; with a request left it never
/// is.
pub proof fn lemma_rate_limited_iff_wait(info: RateLimitInfo, now: UtcInstant)
    requires
        info.reset_time.in_range(),
        now.in_range(),
    ensures
        info.remaining > 0 ==> !info.spec_is_rate_limited(now),
        info.spec_is_rate_limited(now) <==> info.remaining == 0 && info.reset_time@ > now@,
        info.spec_is_rate_limited(now) <==> info.remaining == 0 && info.spec_time_until_reset(now)@
            > 0,
{
    crate::clock::lemma_nanos_since_fits(info.reset_time, now);
}

} // verus!
