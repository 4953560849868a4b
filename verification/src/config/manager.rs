//! Rate limiting support of the configuration manager: the rate-limit error,
//! the per-minute request counter, and the checks on the manager's limits.

use vstd::prelude::*;
use crate::text::{concat, to_owned};

verus! {

#[verifier::external_type_specification]
#[verifier::external_body]
pub struct ExInstant(std::time::Instant);

/// A request was refused by the rate limiter.
#[derive(Debug)]
pub struct RateLimitError {
    pub retry_after: std::time::Duration,
    pub available_tokens: usize,
    pub requested_tokens: usize,
}

/// The `Debug` text of a duration (such as `5s` or `1.5ms`), a function of
/// the duration alone.
pub uninterp spec fn duration_debug_text(d: std::time::Duration) -> Seq<char>;

/// `<Duration as Debug>::fmt` through `format!("{:?}", d)`: its text is
/// named `duration_debug_text` of the duration.
#[verifier::external_body]
fn duration_debug(d: &std::time::Duration) -> (r: String)
    ensures
        r@ == duration_debug_text(*d),
{
    format!("{:?}", d)
}

/// The whole seconds of a duration (`Duration::as_secs`).
pub uninterp spec fn duration_secs(d: std::time::Duration) -> u64;

/// `Duration::as_secs`: the number of whole seconds, named `duration_secs`.
#[verifier::external_body]
fn as_secs(d: &std::time::Duration) -> (r: u64)
    ensures
        r == duration_secs(*d),
{
    d.as_secs()
}

/// `Instant::duration_since`: the time from `start` to `now` (zero when
/// `start` is later); it depends on the clock, so nothing is stated of it.
#[verifier::external_body]
fn elapsed_between(start: &std::time::Instant, now: &std::time::Instant) -> (r: std::time::Duration) {
    now.duration_since(*start)
}

/// The length of a request window, in seconds.
pub const WINDOW_SECS: u64 = 60;

/// A window is over once a full minute has passed: a duration of at least
/// 60 s is exactly one of at least 60 whole seconds.
pub fn window_over(elapsed_secs: u64) -> (r: bool)
    ensures
        r == (elapsed_secs >= WINDOW_SECS),
{
    elapsed_secs >= WINDOW_SECS
}

impl RateLimitError {
    pub fn new(retry_after: std::time::Duration, available_tokens: usize, requested_tokens: usize) -> (r: Self)
        ensures
            r.retry_after == retry_after,
            r.available_tokens == available_tokens,
            r.requested_tokens == requested_tokens,
    {
        RateLimitError { retry_after, available_tokens, requested_tokens }
    }

    /// The error message: `Rate limit exceeded. Retry after <duration>`.
    pub fn to_string(&self) -> (r: String)
        ensures
            r@ == "Rate limit exceeded. Retry after "@ + duration_debug_text(self.retry_after),
    {
        let d = duration_debug(&self.retry_after);
        concat("Rate limit exceeded. Retry after ", d.as_str())
    }
}

/// `Instant::now`: the current time; nothing is stated of it.
#[verifier::external_body]
fn instant_now() -> (r: std::time::Instant) {
    std::time::Instant::now()
}

/// Counts requests in a one-minute window.
#[derive(Debug)]
pub struct RequestCounter {
    count: usize,
    window_start: std::time::Instant,
    max_requests: usize,
}

impl RequestCounter {
    /// Requests counted in the current window.
    pub closed spec fn count(&self) -> usize {
        self.count
    }

    /// Requests allowed per window.
    pub closed spec fn max_requests(&self) -> usize {
        self.max_requests
    }

    /// When the current window started.
    pub closed spec fn started_at(&self) -> std::time::Instant {
        self.window_start
    }

    /// A counter allowing `max_requests_per_minute` requests a minute.
    pub fn new(max_requests_per_minute: usize) -> (r: Self)
        ensures
            r.count() == 0,
            r.max_requests() == max_requests_per_minute,
    {
        RequestCounter { count: 0, window_start: instant_now(), max_requests: max_requests_per_minute }
    }

    /// Counts a request when the window (restarted first if `window_over`)
    /// has room; returns whether it was counted.
    pub fn record_at(&mut self, window_over: bool, now: std::time::Instant) -> (r: bool)
        ensures
            final(self).max_requests() == old(self).max_requests(),
            final(self).started_at() == if window_over {
                now
            } else {
                old(self).started_at()
            },
            ({
                let c: int = if window_over {
                    0
                } else {
                    old(self).count() as int
                };
                &&& r == (c < old(self).max_requests())
                &&& final(self).count() == if r {
                    c + 1
                } else {
                    c
                }
            }),
    {
        if window_over {
            self.count = 0;
            self.window_start = now;
        }
        if self.count < self.max_requests {
            self.count = self.count + 1;
            true
        } else {
            false
        }
    }

    /// Counts a request if the current window has room.
    pub fn record(&mut self) -> (r: bool)
        ensures
            final(self).max_requests() == old(self).max_requests(),
            r ==> final(self).count() <= old(self).max_requests(),
            r ==> final(self).count() >= 1,
            !r ==> final(self).count() >= old(self).max_requests(),
            !r ==> final(self).count() == old(self).count() || final(self).count() == 0,
            old(self).count() < old(self).max_requests() ==> r,
    {
        let now = instant_now();
        let elapsed = elapsed_between(&self.window_start, &now);
        let over = window_over(as_secs(&elapsed));
        self.record_at(over, now)
    }

    /// Requests still allowed in the window (all of them once it is over).
    pub fn remaining_at(&self, window_over: bool) -> (r: usize)
        ensures
            window_over ==> r == self.max_requests(),
            !window_over ==> r == if self.count() <= self.max_requests() {
                self.max_requests() - self.count()
            } else {
                0
            },
    {
        if window_over {
            self.max_requests
        } else {
            self.max_requests.saturating_sub(self.count)
        }
    }

    /// When the current window started.
    pub fn window_start(&self) -> (r: std::time::Instant)
        ensures
            r == self.started_at(),
    {
        self.window_start
    }

    /// Changes the number of requests allowed per window, keeping the window
    /// and what it has counted.
    pub fn set_limit(&mut self, max_requests: usize)
        ensures
            final(self).max_requests() == max_requests,
            final(self).count() == old(self).count(),
            final(self).started_at() == old(self).started_at(),
    {
        self.max_requests = max_requests;
    }

    /// Requests allowed per window.
    pub fn limit(&self) -> (r: usize)
        ensures
            r == self.max_requests(),
    {
        self.max_requests
    }

    /// Requests still allowed in the current window.
    pub fn remaining(&self) -> (r: usize)
        ensures
            r == self.max_requests() || r == if self.count() <= self.max_requests() {
                self.max_requests() - self.count()
            } else {
                0
            },
    {
        let now = instant_now();
        let elapsed = elapsed_between(&self.window_start, &now);
        let over = window_over(as_secs(&elapsed));
        self.remaining_at(over)
    }
}

/// A law of the request counter: within one window it never counts more than
/// its limit, and it refuses exactly when the limit is reached.
pub proof fn lemma_counter_bounded(count: usize, max: usize, recorded: bool, after: usize)
    requires
        count <= max,
        recorded == (count < max),
        after == if recorded {
            count + 1
        } else {
            count as int
        },
    ensures
        after <= max,
        !recorded ==> count == max,
{
}

/// The integer limits of the manager's configuration, checked before a
/// configuration is used. (The condense threshold is a fraction; the caller
/// checks that it lies in `[0, 1]`.)
#[derive(Debug, Clone, Copy, PartialEq, Eq, Structural)]
pub struct ConfigLimits {
    pub max_context_tokens: usize,
    pub max_output_tokens: usize,
    pub worker_limit: usize,
    pub rate_limit_tokens_per_minute: usize,
    pub rate_limit_requests_per_minute: usize,
}

/// The message of the first check that the limits fail, in the order the
/// checks are made, if any.
pub open spec fn limits_error(l: ConfigLimits, threshold_in_range: bool) -> Option<Seq<char>> {
    if l.max_context_tokens == 0 {
        Some("max_context_tokens must be greater than 0"@)
    } else if !threshold_in_range {
        Some("condense_threshold must be between 0.0 and 1.0"@)
    } else if l.max_output_tokens == 0 {
        Some("max_output_tokens must be greater than 0"@)
    } else if l.worker_limit == 0 {
        Some("worker_limit must be greater than 0"@)
    } else if l.rate_limit_tokens_per_minute == 0 {
        Some("rate_limit_tokens_per_minute must be greater than 0"@)
    } else if l.rate_limit_requests_per_minute == 0 {
        Some("rate_limit_requests_per_minute must be greater than 0"@)
    } else {
        None
    }
}

impl ConfigLimits {
    /// The defaults: 128000 context tokens, 4096 output tokens, 5 workers,
    /// 100000 tokens and 100 requests a minute.
    pub fn default_limits() -> (r: Self)
        ensures
            r == (ConfigLimits {
                max_context_tokens: 128000,
                max_output_tokens: 4096,
                worker_limit: 5,
                rate_limit_tokens_per_minute: 100000,
                rate_limit_requests_per_minute: 100,
            }),
    {
        ConfigLimits {
            max_context_tokens: 128000,
            max_output_tokens: 4096,
            worker_limit: 5,
            rate_limit_tokens_per_minute: 100000,
            rate_limit_requests_per_minute: 100,
        }
    }

    /// Every limit must be positive and the condense threshold in range; the
    /// error names the first that is not (the text of an invalid-value
    /// error).
    pub fn validate(&self, threshold_in_range: bool) -> (r: Result<(), String>)
        ensures
            match limits_error(*self, threshold_in_range) {
                Some(m) => r matches Err(e) && e@ == m,
                None => r is Ok,
            },
    {
        if self.max_context_tokens == 0 {
            return Err(to_owned("max_context_tokens must be greater than 0"));
        }
        if !threshold_in_range {
            return Err(to_owned("condense_threshold must be between 0.0 and 1.0"));
        }
        if self.max_output_tokens == 0 {
            return Err(to_owned("max_output_tokens must be greater than 0"));
        }
        if self.worker_limit == 0 {
            return Err(to_owned("worker_limit must be greater than 0"));
        }
        if self.rate_limit_tokens_per_minute == 0 {
            return Err(to_owned("rate_limit_tokens_per_minute must be greater than 0"));
        }
        if self.rate_limit_requests_per_minute == 0 {
            return Err(to_owned("rate_limit_requests_per_minute must be greater than 0"));
        }
        Ok(())
    }
}

} // verus!
