//! Request pacing from the quota that the server declares in its response
//! headers.

use crate::headers::{has_header, header_str, header_string, header_values};
use crate::time::{now, Timestamp, CLOCK_LIMIT_SECONDS};
use crate::util::{decimal_value, parse_i64, parse_u32, within};
use reqwest::header::{HeaderMap, HeaderValue};
use vstd::prelude::*;

verus! {

/// Longest wait, in seconds, that throttling puts between two requests.
pub const MAX_THROTTLE_SECONDS: i64 = 10;

/// What a response says of the quota.
#[derive(Clone, Copy, Debug, PartialEq, Eq)]
pub enum QuotaHeaders {
    /// The response carries no `x-ratelimit-remaining`: the endpoint is not
    /// metered.
    Unmetered,
    /// The response is metered: seconds until the quota window resets, the
    /// allowance that remains in the window, and requests used in it.
    Metered { seconds_to_reset: i64, remaining: i64, used: u32 },
    /// The response is metered, but `x-ratelimit-remaining` is no number
    /// that fits `i64`, or `x-ratelimit-reset` or `x-ratelimit-used` is
    /// missing or is no number of its type.
    Unreadable,
}

/// The quota state of one session.
#[derive(Clone, Copy, Debug, PartialEq, Eq)]
pub struct RateLimiter {
    /// Remaining allowance in the window, counted in seconds.
    pub remaining: Option<i64>,
    /// When the next request may go out.
    pub next_request_timestamp: Option<Timestamp>,
    /// When the quota window resets.
    pub reset_timestamp: Option<Timestamp>,
    /// Requests used in the window.
    pub used: Option<u32>,
}

/// The seconds-until-reset that a response declares, where it is a number
/// that fits `i64`.
pub open spec fn declared_reset(headers: HeaderMap<HeaderValue>) -> Option<int> {
    match header_string(headers, "x-ratelimit-reset"@) {
        Some(text) => within(decimal_value(text, true), i64::MIN as int, i64::MAX as int),
        None => None,
    }
}

/// The remaining allowance that a response declares, where it is a number
/// that fits `i64`.
pub open spec fn declared_remaining(headers: HeaderMap<HeaderValue>) -> Option<int> {
    match header_string(headers, "x-ratelimit-remaining"@) {
        Some(text) => within(decimal_value(text, true), i64::MIN as int, i64::MAX as int),
        None => None,
    }
}

/// The used-requests count that a response declares, where it is a number
/// that fits `u32`.
pub open spec fn declared_used(headers: HeaderMap<HeaderValue>) -> Option<int> {
    match header_string(headers, "x-ratelimit-used"@) {
        Some(text) => within(decimal_value(text, false), 0, u32::MAX as int),
        None => None,
    }
}

/// What the headers of a response say of the quota.
pub open spec fn quota_headers(headers: HeaderMap<HeaderValue>) -> QuotaHeaders {
    if !header_values(headers).contains_key("x-ratelimit-remaining"@) {
        QuotaHeaders::Unmetered
    } else {
        match (declared_reset(headers), declared_remaining(headers), declared_used(headers)) {
            (Some(reset), Some(remaining), Some(used)) => QuotaHeaders::Metered {
                seconds_to_reset: reset as i64,
                remaining: remaining as i64,
                used: used as u32,
            },
            _ => QuotaHeaders::Unreadable,
        }
    }
}

/// Reads the quota headers of a response.
pub fn read_quota_headers(headers: &HeaderMap<HeaderValue>) -> (quota: QuotaHeaders)
    ensures
        quota == quota_headers(*headers),
{
    if !has_header(headers, "x-ratelimit-remaining") {
        return QuotaHeaders::Unmetered;
    }
    let reset = match header_str(headers, "x-ratelimit-reset") {
        Some(text) => parse_i64(text.as_str()),
        None => None,
    };
    let remaining = match header_str(headers, "x-ratelimit-remaining") {
        Some(text) => parse_i64(text.as_str()),
        None => None,
    };
    let used = match header_str(headers, "x-ratelimit-used") {
        Some(text) => parse_u32(text.as_str()),
        None => None,
    };
    match (reset, remaining, used) {
        (Some(seconds_to_reset), Some(remaining), Some(used)) => QuotaHeaders::Metered {
            seconds_to_reset,
            remaining,
            used,
        },
        _ => QuotaHeaders::Unreadable,
    }
}

/// Seconds to wait before the next request so that what is left of the
/// quota spreads over the window: half of what separates the seconds until
/// reset from the remaining allowance, held within zero and ten.
pub open spec fn throttle_delay(reset_seconds: int, remaining_seconds: int) -> int {
    let half = (reset_seconds - remaining_seconds) / 2;
    if half < 0 {
        0
    } else if half > MAX_THROTTLE_SECONDS {
        MAX_THROTTLE_SECONDS as int
    } else {
        half
    }
}

/// Whole seconds from `now` until `next`; zero where `next` is unset or not
/// in a later second than `now`.
pub open spec fn pacing_delay(next: Option<Timestamp>, now: Timestamp) -> int {
    match next {
        Some(t) if t.seconds() > now.seconds() => t.seconds() - now.seconds(),
        _ => 0,
    }
}

impl RateLimiter {
    /// The limiter after a response that carries no quota: unchanged where
    /// no quota was seen before; else the remaining allowance goes down by
    /// one (it is lost where it cannot go lower) and the used count goes up
    /// by one (it stays where it cannot go higher).
    pub open spec fn after_unmetered(self) -> RateLimiter {
        match self.remaining {
            Some(remaining) => RateLimiter {
                remaining: if remaining > i64::MIN {
                    Some((remaining - 1) as i64)
                } else {
                    None
                },
                used: match self.used {
                    Some(used) => Some(
                        if used < u32::MAX {
                            (used + 1) as u32
                        } else {
                            used
                        },
                    ),
                    None => Some(1u32),
                },
                ..self
            },
            None => self,
        }
    }

    /// Whether the timestamps that a quota makes can be formed from `now`.
    pub open spec fn can_record(now: Timestamp, reset_seconds: int, remaining_seconds: int) -> bool {
        &&& now.can_add_seconds(reset_seconds)
        &&& remaining_seconds != 0 ==> now.can_add_seconds(
            throttle_delay(reset_seconds, remaining_seconds),
        )
    }

    /// The limiter that a quota observed at `now` makes: the window resets
    /// `reset_seconds` on, and the allowance that is kept is the seconds
    /// until then; with nothing remaining the next request waits for the
    /// reset, else for the throttle delay or the reset, whichever comes
    /// first.
    pub open spec fn with_quota(
        now: Timestamp,
        reset_seconds: i64,
        remaining_seconds: i64,
        used: u32,
    ) -> RateLimiter {
        let reset_timestamp = now.plus_seconds(reset_seconds as int);
        RateLimiter {
            remaining: Some(reset_seconds),
            used: Some(used),
            reset_timestamp: Some(reset_timestamp),
            next_request_timestamp: Some(
                if remaining_seconds == 0 {
                    reset_timestamp
                } else {
                    reset_timestamp.earlier_of(
                        now.plus_seconds(
                            throttle_delay(reset_seconds as int, remaining_seconds as int),
                        ),
                    )
                },
            ),
        }
    }

    /// The limiter after a response with the quota headers `quota`, seen at
    /// `now`. A metered response makes the limiter of its quota. An
    /// unreadable one, or one whose timestamps cannot be formed, leaves the
    /// limiter as it was.
    pub open spec fn after_response(self, quota: QuotaHeaders, now: Timestamp) -> RateLimiter {
        match quota {
            QuotaHeaders::Unmetered => self.after_unmetered(),
            QuotaHeaders::Metered { seconds_to_reset, remaining, used } => if Self::can_record(
                now,
                seconds_to_reset as int,
                remaining as int,
            ) {
                Self::with_quota(now, seconds_to_reset, remaining, used)
            } else {
                self
            },
            QuotaHeaders::Unreadable => self,
        }
    }

    /// A limiter that has seen no response yet.
    pub fn new() -> (limiter: RateLimiter)
        ensures
            limiter.remaining is None,
            limiter.next_request_timestamp is None,
            limiter.reset_timestamp is None,
            limiter.used is None,
    {
        RateLimiter {
            remaining: None,
            next_request_timestamp: None,
            reset_timestamp: None,
            used: None,
        }
    }

    /// Takes note of a response that carries no quota.
    pub fn note_unmetered(&mut self)
        ensures
            *final(self) == old(self).after_unmetered(),
    {
        match self.remaining {
            Some(remaining) => {
                self.remaining = remaining.checked_sub(1);
                self.used = match self.used {
                    Some(used) => Some(
                        if used < u32::MAX {
                            used + 1
                        } else {
                            used
                        },
                    ),
                    None => Some(1),
                };
            },
            None => {},
        }
    }

    /// The throttle delay in seconds for a quota.
    pub fn throttle_seconds(reset_seconds: i64, remaining_seconds: i64) -> (delay: i64)
        ensures
            delay == throttle_delay(reset_seconds as int, remaining_seconds as int),
            0 <= delay <= MAX_THROTTLE_SECONDS,
    {
        if reset_seconds <= remaining_seconds {
            0
        } else {
            let half: i128 = (reset_seconds as i128 - remaining_seconds as i128) / 2;
            if half > MAX_THROTTLE_SECONDS as i128 {
                MAX_THROTTLE_SECONDS
            } else {
                half as i64
            }
        }
    }

    /// Whether the timestamps that a quota makes can be formed from `now`.
    pub fn fits(now: Timestamp, reset_seconds: i64, remaining_seconds: i64) -> (ok: bool)
        ensures
            ok == Self::can_record(now, reset_seconds as int, remaining_seconds as int),
    {
        now.checked_add_seconds(reset_seconds).is_some() && (remaining_seconds == 0
            || now.checked_add_seconds(
            Self::throttle_seconds(reset_seconds, remaining_seconds),
        ).is_some())
    }

    /// Records a quota observed at `now`.
    pub fn record_quota(
        &mut self,
        now: Timestamp,
        reset_seconds: i64,
        remaining_seconds: i64,
        used: u32,
    )
        requires
            Self::can_record(now, reset_seconds as int, remaining_seconds as int),
        ensures
            *final(self) == Self::with_quota(now, reset_seconds, remaining_seconds, used),
    {
        let reset_timestamp = now.checked_add_seconds(reset_seconds).unwrap();
        self.remaining = Some(reset_seconds);
        self.used = Some(used);
        self.reset_timestamp = Some(reset_timestamp);
        if remaining_seconds == 0 {
            self.next_request_timestamp = Some(reset_timestamp);
        } else {
            let delay = Self::throttle_seconds(reset_seconds, remaining_seconds);
            let throttled = now.checked_add_seconds(delay).unwrap();
            self.next_request_timestamp = Some(reset_timestamp.earlier(throttled));
        }
    }

    /// Updates the limiter from the headers of a response received at `now`.
    pub fn update_at(&mut self, response_headers: &HeaderMap<HeaderValue>, now: Timestamp)
        ensures
            *final(self) == old(self).after_response(quota_headers(*response_headers), now),
    {
        match read_quota_headers(response_headers) {
            QuotaHeaders::Unmetered => self.note_unmetered(),
            QuotaHeaders::Metered { seconds_to_reset, remaining, used } => {
                if Self::fits(now, seconds_to_reset, remaining) {
                    self.record_quota(now, seconds_to_reset, remaining, used);
                }
            },
            QuotaHeaders::Unreadable => {},
        }
    }

    /// Updates the limiter from the headers of a response that has just
    /// been received: as `update_at` does, at a reading of the clock. A
    /// quota whose reset lies within reach of every clock reading is
    /// always recorded.
    pub fn update(&mut self, response_headers: HeaderMap<HeaderValue>)
        ensures
            exists|now: Timestamp|
                now.is_clock_reading() && *final(self) == #[trigger] old(self).after_response(
                    quota_headers(response_headers),
                    now,
                ),
            quota_headers(response_headers) is Unmetered ==> *final(self) == old(
                self,
            ).after_unmetered(),
            quota_headers(response_headers) is Unreadable ==> *final(self) == *old(self),
            ({
                let quota = quota_headers(response_headers);
                quota is Metered ==> *final(self) == *old(self) || final(self).remaining == Some(
                    quota->seconds_to_reset,
                )
            }),
            ({
                let quota = quota_headers(response_headers);
                quota is Metered && quota->seconds_to_reset <= i64::MAX - CLOCK_LIMIT_SECONDS ==> {
                    &&& final(self).remaining == Some(quota->seconds_to_reset)
                    &&& final(self).used == Some(quota->used)
                    &&& final(self).reset_timestamp is Some
                    &&& final(self).next_request_timestamp is Some
                    &&& quota->remaining == 0 ==> final(self).next_request_timestamp
                        == final(self).reset_timestamp
                }
            }),
    {
        let now = now();
        self.update_at(&response_headers, now);
    }

    /// Whole seconds that a caller at `now` has to wait before the next
    /// request; zero where it may go out at once.
    pub fn delay_at(&self, now: Timestamp) -> (seconds: u64)
        ensures
            seconds == pacing_delay(self.next_request_timestamp, now),
    {
        match self.next_request_timestamp {
            Some(next) => {
                if next.timestamp() > now.timestamp() {
                    (next.timestamp() as i128 - now.timestamp() as i128) as u64
                } else {
                    0
                }
            },
            None => 0,
        }
    }

    /// Whole seconds that the caller has to wait before the next request,
    /// by a reading of the clock.
    pub fn delay(&self) -> (seconds: u64)
        ensures
            exists|now: Timestamp|
                now.is_clock_reading() && seconds == #[trigger] pacing_delay(
                    self.next_request_timestamp,
                    now,
                ),
            self.next_request_timestamp is None ==> seconds == 0,
            self.next_request_timestamp matches Some(next) && next.seconds() <= 0 ==> seconds == 0,
            self.next_request_timestamp matches Some(next) && next.seconds() >= CLOCK_LIMIT_SECONDS
                ==> seconds > 0,
    {
        let now = now();
        self.delay_at(now)
    }
}

/// With nothing remaining, the next request waits exactly until the
/// window resets.
pub proof fn lemma_exhausted_quota_waits_for_reset(now: Timestamp, reset_seconds: i64, used: u32)
    ensures
        RateLimiter::with_quota(now, reset_seconds, 0, used).next_request_timestamp
            == RateLimiter::with_quota(now, reset_seconds, 0, used).reset_timestamp,
{
}

/// A response that declares that nothing remains puts the next request
/// exactly at the reset of the window, however far off that is.
pub proof fn lemma_nothing_remaining_waits_for_reset(
    limiter: RateLimiter,
    now: Timestamp,
    seconds_to_reset: i64,
    used: u32,
)
    requires
        now.can_add_seconds(seconds_to_reset as int),
    ensures
        ({
            let after = limiter.after_response(
                QuotaHeaders::Metered { seconds_to_reset, remaining: 0, used },
                now,
            );
            after.next_request_timestamp == after.reset_timestamp && after.reset_timestamp
                == Some(now.plus_seconds(seconds_to_reset as int))
        }),
{
}

/// A response that declares a remaining allowance puts the next request
/// at the throttle delay from now or at the reset of the window,
/// whichever comes first: with the reset ahead, never before now, never
/// past the reset and never more than ten seconds on.
pub proof fn lemma_remaining_allowance_is_throttled(
    limiter: RateLimiter,
    now: Timestamp,
    seconds_to_reset: i64,
    remaining: i64,
    used: u32,
)
    requires
        remaining != 0,
        RateLimiter::can_record(now, seconds_to_reset as int, remaining as int),
    ensures
        ({
            let after = limiter.after_response(
                QuotaHeaders::Metered { seconds_to_reset, remaining, used },
                now,
            );
            let delay = throttle_delay(seconds_to_reset as int, remaining as int);
            &&& after.reset_timestamp == Some(now.plus_seconds(seconds_to_reset as int))
            &&& after.next_request_timestamp == Some(
                if seconds_to_reset < delay {
                    now.plus_seconds(seconds_to_reset as int)
                } else {
                    now.plus_seconds(delay)
                },
            )
            &&& after.remaining == Some(seconds_to_reset)
            &&& after.used == Some(used)
            &&& seconds_to_reset >= 0 ==> !after.next_request_timestamp->0.is_before(now)
            &&& !after.reset_timestamp->0.is_before(after.next_request_timestamp->0)
            &&& after.next_request_timestamp->0.seconds() <= now.seconds() + MAX_THROTTLE_SECONDS
        }),
{
    broadcast use Timestamp::lemma_plus_seconds;

    now.lemma_seconds_fit();
    let reset = now.plus_seconds(seconds_to_reset as int);
    let throttled = now.plus_seconds(throttle_delay(seconds_to_reset as int, remaining as int));
    if !(seconds_to_reset < throttle_delay(seconds_to_reset as int, remaining as int)) {
        if reset.seconds() == throttled.seconds() {
            throttled.lemma_same_instant(reset);
        }
    }
}

/// The throttle delay lies within zero and ten seconds: it is zero where
/// no more seconds are left until reset than allowance remains, and ten
/// where at least twenty more are.
pub proof fn lemma_throttle_delay_bounds(reset_seconds: int, remaining_seconds: int)
    ensures
        0 <= throttle_delay(reset_seconds, remaining_seconds) <= MAX_THROTTLE_SECONDS,
        reset_seconds <= remaining_seconds ==> throttle_delay(reset_seconds, remaining_seconds) == 0,
        reset_seconds - remaining_seconds >= 20 ==> throttle_delay(reset_seconds, remaining_seconds)
            == MAX_THROTTLE_SECONDS,
{
}

/// The next request is never put later than the reset of the window, nor
/// more than ten seconds after the quota was seen.
pub proof fn lemma_next_request_is_bounded(
    now: Timestamp,
    reset_seconds: i64,
    remaining_seconds: i64,
    used: u32,
)
    requires
        RateLimiter::can_record(now, reset_seconds as int, remaining_seconds as int),
    ensures
        ({
            let limiter = RateLimiter::with_quota(now, reset_seconds, remaining_seconds, used);
            &&& limiter.next_request_timestamp is Some
            &&& limiter.reset_timestamp is Some
            &&& !limiter.reset_timestamp->0.is_before(limiter.next_request_timestamp->0)
            &&& remaining_seconds != 0 ==> limiter.next_request_timestamp->0.seconds()
                <= now.seconds() + MAX_THROTTLE_SECONDS
        }),
{
    broadcast use Timestamp::lemma_plus_seconds;

}

} // verus!
