//! Web request rate limiter.
//!
//! A limiter grants a number of requests per minute. When the minute budget
//! is spent, the caller starts a countdown of `cool_down_seconds`; a timer
//! ticks it down once per second and, when it runs out, restores the budget.
//! An optional daily budget refuses every request once it is exhausted.

use vstd::prelude::*;
use crate::ids::{Id, new_id, now_millis};
use crate::task::{CreateRateLimiterRequest, RateLimiterImpls, RateQuota};

verus! {

/// The largest number of whole seconds a `chrono::TimeDelta` can hold:
/// `i64::MAX` milliseconds, rounded down to seconds.
pub const MAX_DELTA_SECONDS: i64 = 9_223_372_036_854_775;

/// `chrono::TimeDelta::seconds(secs).checked_sub(&TimeDelta::seconds(by))`,
/// read back with `num_seconds`. `TimeDelta::seconds` panics outside
/// `-MAX_DELTA_SECONDS..=MAX_DELTA_SECONDS`, which `requires` leaves out; the
/// difference of two whole-second deltas has no nanoseconds, and
/// `checked_sub` returns `None` exactly when it leaves that range.
#[verifier::external_body]
fn seconds_checked_sub(secs: i64, by: i64) -> (r: Option<i64>)
    requires
        -MAX_DELTA_SECONDS <= secs <= MAX_DELTA_SECONDS,
        -MAX_DELTA_SECONDS <= by <= MAX_DELTA_SECONDS,
    ensures
        r == (if -MAX_DELTA_SECONDS <= secs - by <= MAX_DELTA_SECONDS {
            Some((secs - by) as i64)
        } else {
            None::<i64>
        }),
{
    match chrono::TimeDelta::seconds(secs).checked_sub(&chrono::TimeDelta::seconds(by)) {
        Some(d) => Some(d.num_seconds()),
        None => None,
    }
}

/// `chrono::TimeDelta::seconds(secs)` read back with `num_seconds`: a delta of
/// whole seconds holds exactly the seconds it was made of. Out of range the
/// constructor panics, which `requires` leaves out.
#[verifier::external_body]
fn seconds_delta(secs: i64) -> (r: i64)
    requires
        -MAX_DELTA_SECONDS <= secs <= MAX_DELTA_SECONDS,
    ensures
        r == secs,
{
    chrono::TimeDelta::seconds(secs).num_seconds()
}

/// A negative limit was given to a rate limiter.
#[derive(Debug, Clone, Copy, PartialEq, Eq, Structural)]
pub struct InvalidLimitError;

impl InvalidLimitError {
    /// The error's message.
    pub fn message(&self) -> (s: &'static str)
        ensures
            s@ == "Limit must be a non-negative integer!"@,
    {
        proof {
            reveal_strlit("Limit must be a non-negative integer!");
        }
        "Limit must be a non-negative integer!"
    }
}

/// A countdown timer could not be started.
#[derive(Debug, Clone, Copy, PartialEq, Eq, Structural)]
pub enum TimerError {
    /// The countdown does not fit in a time delta.
    OutOfRange,
}

/// The answer of a rate limiter to a request.
#[derive(Debug, Clone, Copy, PartialEq, Eq, Structural)]
pub enum RateLimitStatus {
    /// The request may proceed; the number of requests left this minute.
    Allowed(u64),
    /// The daily budget is exhausted.
    RequestPerDayExceeded,
    /// The minute budget is exhausted: whether the caller should start the
    /// countdown, and the seconds to wait.
    RequestPerMinuteExceeded(bool, i64),
}

/// What one second of the countdown timer did.
#[derive(Debug, Clone, Copy, PartialEq, Eq, Structural)]
pub enum CountdownTick {
    /// No countdown is running; the timer keeps waiting.
    Idle,
    /// The countdown went down by one second and has this many left.
    Ticking(i64),
    /// The countdown reached zero and the minute budget was restored.
    Expired,
    /// The countdown could not be decremented; the timer stops.
    Failed,
}

/// The daily budget after one granted request: one less, when there is one.
pub open spec fn spend_daily(daily: Option<i64>) -> Option<i64> {
    match daily {
        Some(d) => Some((d - 1) as i64),
        None => None,
    }
}

/// The daily budget after `n` granted requests.
pub open spec fn daily_less(daily: Option<i64>, n: nat) -> Option<i64> {
    match daily {
        Some(d) => Some((d - n) as i64),
        None => None,
    }
}

/// The counters of a rate limiter, which decide every answer it gives.
pub struct LimiterCounters {
    pub max_minute_request: i64,
    pub remaining_minute_requests: i64,
    pub remaining_daily_requests: Option<i64>,
    pub cool_down_seconds: i64,
    pub count_down: Option<i64>,
}

impl LimiterCounters {
    /// The invariant that every operation keeps.
    pub open spec fn wf(self) -> bool {
        &&& self.max_minute_request >= 0
        &&& self.cool_down_seconds >= 0
        &&& -1 <= self.remaining_minute_requests <= self.max_minute_request
        &&& (self.remaining_daily_requests matches Some(d) ==> d >= 0)
        &&& (self.count_down matches Some(c) ==> -MAX_DELTA_SECONDS <= c <= MAX_DELTA_SECONDS)
    }

    /// The daily budget is spent.
    pub open spec fn daily_exhausted(self) -> bool {
        self.remaining_daily_requests matches Some(d) && d <= 0
    }

    /// The answer to a request.
    pub open spec fn proceed_status(self) -> RateLimitStatus {
        if self.daily_exhausted() {
            RateLimitStatus::RequestPerDayExceeded
        } else if self.count_down matches Some(c) && c > 0 {
            RateLimitStatus::RequestPerMinuteExceeded(false, self.count_down->0)
        } else if self.count_down is Some {
            // the countdown ran out: the budget is restored and one request spent
            RateLimitStatus::Allowed((self.max_minute_request - 1) as u64)
        } else if self.remaining_minute_requests <= 0 {
            RateLimitStatus::RequestPerMinuteExceeded(true, self.cool_down_seconds)
        } else {
            RateLimitStatus::Allowed((self.remaining_minute_requests - 1) as u64)
        }
    }

    /// The counters after a request was answered.
    pub open spec fn after_proceed(self) -> LimiterCounters {
        if self.daily_exhausted() {
            self
        } else if self.count_down matches Some(c) && c > 0 {
            self
        } else if self.count_down is Some {
            LimiterCounters {
                count_down: None,
                remaining_minute_requests: (self.max_minute_request - 1) as i64,
                remaining_daily_requests: spend_daily(self.remaining_daily_requests),
                ..self
            }
        } else if self.remaining_minute_requests <= 0 {
            self
        } else {
            LimiterCounters {
                remaining_minute_requests: (self.remaining_minute_requests - 1) as i64,
                remaining_daily_requests: spend_daily(self.remaining_daily_requests),
                ..self
            }
        }
    }

    /// The counters after the countdown was started; with `reset_timer` it is
    /// set to the full cool-down.
    pub open spec fn after_start_countdown(self, reset_timer: bool) -> LimiterCounters {
        if reset_timer {
            LimiterCounters { count_down: Some(self.cool_down_seconds), ..self }
        } else {
            self
        }
    }

    /// What one second of the timer does.
    pub open spec fn tick_outcome(self) -> CountdownTick {
        match self.count_down {
            None => CountdownTick::Idle,
            Some(c) => if c - 1 < -MAX_DELTA_SECONDS {
                CountdownTick::Failed
            } else if c - 1 <= 0 {
                CountdownTick::Expired
            } else {
                CountdownTick::Ticking((c - 1) as i64)
            },
        }
    }

    /// The counters after one second of the timer.
    pub open spec fn after_tick(self) -> LimiterCounters {
        match self.count_down {
            None => self,
            Some(c) => if c - 1 < -MAX_DELTA_SECONDS {
                self
            } else if c - 1 <= 0 {
                LimiterCounters {
                    count_down: Some((c - 1) as i64),
                    remaining_minute_requests: self.max_minute_request,
                    ..self
                }
            } else {
                LimiterCounters { count_down: Some((c - 1) as i64), ..self }
            },
        }
    }

    /// The counters after `n` requests in a row.
    pub open spec fn proceed_n(self, n: nat) -> LimiterCounters
        decreases n,
    {
        if n == 0 {
            self
        } else {
            self.proceed_n((n - 1) as nat).after_proceed()
        }
    }

    /// The counters after `n` seconds of the timer.
    pub open spec fn tick_n(self, n: nat) -> LimiterCounters
        decreases n,
    {
        if n == 0 {
            self
        } else {
            self.tick_n((n - 1) as nat).after_tick()
        }
    }
}

/// A rate limiter for web requests.
pub struct WebRequestRateLimiter {
    id: Id,
    max_minute_request: i64,
    remaining_minute_requests: i64,
    remaining_daily_requests: Option<i64>,
    cool_down_seconds: i64,
    count_down: Option<i64>,
    last_request_time: Option<i64>,
}

impl View for WebRequestRateLimiter {
    type V = LimiterCounters;

    closed spec fn view(&self) -> LimiterCounters {
        LimiterCounters {
            max_minute_request: self.max_minute_request,
            remaining_minute_requests: self.remaining_minute_requests,
            remaining_daily_requests: self.remaining_daily_requests,
            cool_down_seconds: self.cool_down_seconds,
            count_down: self.count_down,
        }
    }
}

impl WebRequestRateLimiter {
    /// The limiter's identifier.
    pub closed spec fn spec_id(&self) -> Id {
        self.id
    }

    /// When the last granted request was made, in milliseconds since the epoch.
    pub closed spec fn spec_last_request_time(&self) -> Option<i64> {
        self.last_request_time
    }

    /// Creates a limiter with a minute budget, an optional daily budget and an
    /// optional cool-down (60 seconds when absent). Any negative limit is
    /// refused.
    pub fn new(
        max_minute_request: i64,
        max_daily_request: Option<i64>,
        cool_down_seconds: Option<i64>,
    ) -> (r: Result<WebRequestRateLimiter, InvalidLimitError>)
        ensures
            r is Err <==> (max_minute_request < 0 || (max_daily_request matches Some(d) && d < 0)
                || (cool_down_seconds matches Some(c) && c < 0)),
            r matches Ok(l) ==> {
                &&& max_minute_request >= 0
                &&& (max_daily_request matches Some(d) ==> d >= 0)
                &&& (cool_down_seconds matches Some(c) ==> c >= 0)
                &&& l@.wf()
                &&& l@.max_minute_request == max_minute_request
                &&& l@.remaining_minute_requests == max_minute_request
                &&& l@.remaining_daily_requests == max_daily_request
                &&& l@.cool_down_seconds == (match cool_down_seconds {
                    Some(c) => c,
                    None => 60,
                })
                &&& l@.count_down is None
                &&& l.spec_last_request_time() is None
            },
    {
        if max_minute_request < 0 {
            return Err(InvalidLimitError);
        }
        if let Some(daily_limit) = max_daily_request {
            if daily_limit < 0 {
                return Err(InvalidLimitError);
            }
        }
        let mut default_cool_down_seconds: i64 = 60;
        if let Some(cooldown_sec) = cool_down_seconds {
            if cooldown_sec < 0 {
                return Err(InvalidLimitError);
            }
            default_cool_down_seconds = cooldown_sec;
        }
        Ok(WebRequestRateLimiter {
            id: new_id(),
            max_minute_request,
            remaining_minute_requests: max_minute_request,
            remaining_daily_requests: max_daily_request,
            cool_down_seconds: default_cool_down_seconds,
            count_down: None,
            last_request_time: None,
        })
    }

    /// A granted request spends one request of the daily budget, when there
    /// is one.
    fn spend_one_daily_request(&mut self)
        requires
            old(self).remaining_daily_requests matches Some(d) ==> d > 0,
        ensures
            final(self).remaining_daily_requests == spend_daily(old(self).remaining_daily_requests),
            final(self).id == old(self).id,
            final(self).max_minute_request == old(self).max_minute_request,
            final(self).remaining_minute_requests == old(self).remaining_minute_requests,
            final(self).cool_down_seconds == old(self).cool_down_seconds,
            final(self).count_down == old(self).count_down,
            final(self).last_request_time == old(self).last_request_time,
    {
        if let Some(d) = self.remaining_daily_requests {
            self.remaining_daily_requests = Some(d - 1);
        }
    }

    /// Asks whether one more request may be sent now, and spends one request
    /// of the minute budget, and one of the daily budget when there is one,
    /// when it may.
    pub fn can_proceed(&mut self) -> (r: RateLimitStatus)
        requires
            old(self)@.wf(),
        ensures
            final(self)@ == old(self)@.after_proceed(),
            r == old(self)@.proceed_status(),
            final(self)@.wf(),
            final(self).spec_id() == old(self).spec_id(),
            r is Allowed ==> final(self)@.remaining_daily_requests == spend_daily(
                old(self)@.remaining_daily_requests,
            ),
            !(r is Allowed) ==> final(self)@.remaining_daily_requests == old(self)@.remaining_daily_requests,
            r is Allowed ==> final(self).spec_last_request_time() is Some,
            !(r is Allowed) ==> final(self).spec_last_request_time() == old(self).spec_last_request_time(),
    {
        if let Some(remaining_daily_requests) = self.remaining_daily_requests {
            if remaining_daily_requests <= 0 {
                return RateLimitStatus::RequestPerDayExceeded;
            }
        }
        let mut count_down_activated = true;
        if let Some(countdown) = self.count_down {
            if countdown > 0 {
                return RateLimitStatus::RequestPerMinuteExceeded(false, countdown);
            }
            self.count_down = None;
            count_down_activated = false;
        }
        if !count_down_activated {
            // the countdown is over: restore the budget and allow this request
            self.remaining_minute_requests = self.max_minute_request - 1;
            self.spend_one_daily_request();
            self.last_request_time = Some(now_millis());
            return RateLimitStatus::Allowed(self.remaining_minute_requests as u64);
        }
        if self.remaining_minute_requests <= 0 {
            return RateLimitStatus::RequestPerMinuteExceeded(true, self.cool_down_seconds);
        }
        self.remaining_minute_requests = self.remaining_minute_requests - 1;
        self.spend_one_daily_request();
        self.last_request_time = Some(now_millis());
        RateLimitStatus::Allowed(self.remaining_minute_requests as u64)
    }

    /// Starts the countdown before the minute budget is restored; with
    /// `reset_timer` the countdown is set to the full cool-down. The timer that
    /// counts it down is driven by `tick_countdown`, once per second.
    pub fn start_countdown(&mut self, reset_timer: bool) -> (r: Result<(), TimerError>)
        requires
            old(self)@.wf(),
            reset_timer ==> old(self)@.cool_down_seconds <= MAX_DELTA_SECONDS,
        ensures
            r is Ok,
            final(self)@ == old(self)@.after_start_countdown(reset_timer),
            final(self)@.wf(),
            final(self).spec_id() == old(self).spec_id(),
            final(self).spec_last_request_time() == old(self).spec_last_request_time(),
    {
        if reset_timer {
            self.count_down = Some(seconds_delta(self.cool_down_seconds));
        }
        Ok(())
    }

    /// One second of the countdown timer: the countdown goes down by one
    /// second; when it reaches zero the minute budget is restored.
    pub fn tick_countdown(&mut self) -> (r: CountdownTick)
        requires
            old(self)@.wf(),
        ensures
            r == old(self)@.tick_outcome(),
            final(self)@ == old(self)@.after_tick(),
            final(self)@.wf(),
            final(self).spec_id() == old(self).spec_id(),
            final(self).spec_last_request_time() == old(self).spec_last_request_time(),
    {
        match self.count_down {
            None => CountdownTick::Idle,
            Some(count_down) => {
                match seconds_checked_sub(count_down, 1) {
                    None => CountdownTick::Failed,
                    Some(updated) => {
                        self.count_down = Some(updated);
                        if updated <= 0 {
                            self.remaining_minute_requests = self.max_minute_request;
                            CountdownTick::Expired
                        } else {
                            CountdownTick::Ticking(updated)
                        }
                    },
                }
            },
        }
    }

    /// The next request would be refused with a request to start the
    /// countdown.
    pub fn asks_for_countdown(&self) -> (r: bool)
        ensures
            r == (self@.proceed_status() matches RateLimitStatus::RequestPerMinuteExceeded(true, _)),
    {
        let daily_spent = match self.remaining_daily_requests {
            Some(d) => d <= 0,
            None => false,
        };
        !daily_spent && self.count_down.is_none() && self.remaining_minute_requests <= 0
    }

    /// The limiter's identifier.
    pub fn id(&self) -> (r: Id)
        ensures
            r == self.spec_id(),
    {
        self.id
    }

    /// The minute budget.
    pub fn max_minute_request(&self) -> (r: i64)
        ensures
            r == self@.max_minute_request,
    {
        self.max_minute_request
    }

    /// The requests left this minute.
    pub fn remaining_minute_requests(&self) -> (r: i64)
        ensures
            r == self@.remaining_minute_requests,
    {
        self.remaining_minute_requests
    }

    /// The requests left today, when there is a daily budget.
    pub fn remaining_daily_requests(&self) -> (r: Option<i64>)
        ensures
            r == self@.remaining_daily_requests,
    {
        self.remaining_daily_requests
    }

    /// The cool-down, in seconds.
    pub fn cool_down_seconds(&self) -> (r: i64)
        ensures
            r == self@.cool_down_seconds,
    {
        self.cool_down_seconds
    }

    /// The seconds left on the countdown, when one was started.
    pub fn count_down(&self) -> (r: Option<i64>)
        ensures
            r == self@.count_down,
    {
        self.count_down
    }

    /// When the last granted request was made.
    pub fn last_request_time(&self) -> (r: Option<i64>)
        ensures
            r == self.spec_last_request_time(),
    {
        self.last_request_time
    }
}

/// A limiter's behaviour as the task queues see it: answer a request, and
/// start the countdown after the minute budget is spent.
pub trait RateLimiter {
    /// The limiter's invariant.
    spec fn limiter_wf(&self) -> bool;

    /// Starting the countdown is possible.
    spec fn countdown_fits(&self, reset_timer: bool) -> bool;

    /// Asks whether one more request may be sent now.
    fn can_proceed(&mut self) -> (r: RateLimitStatus)
        requires
            old(self).limiter_wf(),
        ensures
            final(self).limiter_wf(),
    ;

    /// Starts the countdown before the minute budget is restored.
    fn start_countdown(&mut self, reset_timer: bool) -> (r: Result<(), TimerError>)
        requires
            old(self).limiter_wf(),
            old(self).countdown_fits(reset_timer),
        ensures
            final(self).limiter_wf(),
    ;
}

impl RateLimiter for WebRequestRateLimiter {
    open spec fn limiter_wf(&self) -> bool {
        self@.wf()
    }

    open spec fn countdown_fits(&self, reset_timer: bool) -> bool {
        reset_timer ==> self@.cool_down_seconds <= MAX_DELTA_SECONDS
    }

    fn can_proceed(&mut self) -> (r: RateLimitStatus)
        ensures
            final(self)@ == old(self)@.after_proceed(),
            r == old(self)@.proceed_status(),
    {
        WebRequestRateLimiter::can_proceed(self)
    }

    fn start_countdown(&mut self, reset_timer: bool) -> (r: Result<(), TimerError>)
        ensures
            r is Ok,
            final(self)@ == old(self)@.after_start_countdown(reset_timer),
    {
        WebRequestRateLimiter::start_countdown(self, reset_timer)
    }
}

/// An optional `u32` limit read as an `i64`.
pub open spec fn widen_limit(limit: Option<u32>) -> Option<i64> {
    match limit {
        Some(v) => Some(v as i64),
        None => None,
    }
}

/// The counters of a limiter made from unsigned limits.
pub open spec fn limiter_from_limits(
    max_request: u32,
    max_daily_request: Option<u32>,
    cooldown: Option<u32>,
) -> LimiterCounters {
    LimiterCounters {
        max_minute_request: max_request as i64,
        remaining_minute_requests: max_request as i64,
        remaining_daily_requests: widen_limit(max_daily_request),
        cool_down_seconds: match cooldown {
            Some(c) => c as i64,
            None => 60,
        },
        count_down: None,
    }
}

fn widen(limit: Option<u32>) -> (r: Option<i64>)
    ensures
        r == widen_limit(limit),
{
    match limit {
        Some(v) => Some(v as i64),
        None => None,
    }
}

/// A limiter made from unsigned limits; they are never negative, so this
/// always succeeds.
pub fn new_web_request_limiter(
    max_request: u32,
    max_daily_request: Option<u32>,
    cooldown: Option<u32>,
) -> (r: WebRequestRateLimiter)
    ensures
        r@ == limiter_from_limits(max_request, max_daily_request, cooldown),
        r@.wf(),
        r@.cool_down_seconds <= MAX_DELTA_SECONDS,
        r.spec_last_request_time() is None,
{
    let created = WebRequestRateLimiter::new(max_request as i64, widen(max_daily_request), widen(cooldown));
    match created {
        Ok(limiter) => limiter,
        Err(_) => {
            proof {
                assert(false);
            }
            WebRequestRateLimiter {
                id: 0,
                max_minute_request: 0,
                remaining_minute_requests: 0,
                remaining_daily_requests: None,
                cool_down_seconds: 0,
                count_down: None,
                last_request_time: None,
            }
        },
    }
}

/// Creates the rate limiter of the given kind with the requested limits.
pub fn create_rate_limiter(
    create_limiter_req: &CreateRateLimiterRequest,
    limiter_type: RateLimiterImpls,
) -> (r: WebRequestRateLimiter)
    ensures
        r@ == limiter_from_limits(
            create_limiter_req.max_request,
            create_limiter_req.max_daily_request,
            create_limiter_req.cooldown,
        ),
        r@.wf(),
        r@.cool_down_seconds <= MAX_DELTA_SECONDS,
{
    match limiter_type {
        RateLimiterImpls::WebRequestRateLimiter => new_web_request_limiter(
            create_limiter_req.max_request,
            create_limiter_req.max_daily_request,
            create_limiter_req.cooldown,
        ),
    }
}

/// A rate limiter of one of the supported kinds.
pub enum RateLimiterInstance {
    WebLimiter(WebRequestRateLimiter),
}

/// Creates the rate limiter a plan's quota asks for: its per-request limit as
/// the minute budget, its daily limit and its cool-down.
pub fn create_rate_limiter_by_rate_quota(rate_quota: &RateQuota) -> (r: RateLimiterInstance)
    ensures
        r matches RateLimiterInstance::WebLimiter(l) && l@ == limiter_from_limits(
            rate_quota.max_line_per_request,
            Some(rate_quota.daily_limit),
            Some(rate_quota.cooldown_seconds),
        ),
{
    match rate_quota.use_impl {
        RateLimiterImpls::WebRequestRateLimiter => RateLimiterInstance::WebLimiter(
            new_web_request_limiter(
                rate_quota.max_line_per_request,
                Some(rate_quota.daily_limit),
                Some(rate_quota.cooldown_seconds),
            ),
        ),
    }
}

/// Granting requests from a fresh minute budget: with no countdown running and
/// more daily requests left than are asked for, each request is granted and
/// spends exactly one request of the minute budget and one of the daily
/// budget, reporting how many minute requests are left; once the budget
/// is spent the next request is refused and asks the caller to start the
/// countdown of the full cool-down.
pub proof fn law_minute_budget(s: LimiterCounters, n: nat)
    requires
        s.wf(),
        s.count_down is None,
        s.remaining_daily_requests matches Some(d) ==> n < d,
        n <= s.remaining_minute_requests,
    ensures
        s.proceed_n(n) == (LimiterCounters {
            remaining_minute_requests: (s.remaining_minute_requests - n) as i64,
            remaining_daily_requests: daily_less(s.remaining_daily_requests, n),
            ..s
        }),
        n < s.remaining_minute_requests ==> s.proceed_n(n).proceed_status()
            == RateLimitStatus::Allowed((s.remaining_minute_requests - n - 1) as u64),
        n == s.remaining_minute_requests ==> s.proceed_n(n).proceed_status()
            == RateLimitStatus::RequestPerMinuteExceeded(true, s.cool_down_seconds),
    decreases n,
{
    if n > 0 {
        law_minute_budget(s, (n - 1) as nat);
    }
}

/// A spent daily budget refuses every request: the counters never change and
/// every answer is `RequestPerDayExceeded`, however many requests are made.
pub proof fn law_daily_budget_refuses(s: LimiterCounters, n: nat)
    requires
        s.daily_exhausted(),
    ensures
        s.proceed_n(n) == s,
        s.proceed_n(n).proceed_status() == RateLimitStatus::RequestPerDayExceeded,
    decreases n,
{
    if n > 0 {
        law_daily_budget_refuses(s, (n - 1) as nat);
    }
}

/// No operation of a limiter touches its minute budget or its cool-down,
/// and only a granted request touches its daily budget.
pub proof fn law_budgets_are_fixed(s: LimiterCounters, reset_timer: bool)
    ensures
        !(s.proceed_status() is Allowed) ==> s.after_proceed().remaining_daily_requests == s.remaining_daily_requests,
        s.after_tick().remaining_daily_requests == s.remaining_daily_requests,
        s.after_start_countdown(reset_timer).remaining_daily_requests == s.remaining_daily_requests,
        s.after_proceed().max_minute_request == s.max_minute_request,
        s.after_tick().max_minute_request == s.max_minute_request,
        s.after_start_countdown(reset_timer).max_minute_request == s.max_minute_request,
        s.after_proceed().cool_down_seconds == s.cool_down_seconds,
        s.after_tick().cool_down_seconds == s.cool_down_seconds,
        s.after_start_countdown(reset_timer).cool_down_seconds == s.cool_down_seconds,
{
}

proof fn lemma_ticks_before_expiry(t: LimiterCounters, i: nat)
    requires
        t.count_down matches Some(c) && 0 < c <= MAX_DELTA_SECONDS,
        i < t.count_down->0,
    ensures
        t.tick_n(i) == (LimiterCounters { count_down: Some((t.count_down->0 - i) as i64), ..t }),
    decreases i,
{
    if i > 0 {
        lemma_ticks_before_expiry(t, (i - 1) as nat);
    }
}

/// The countdown: once started with the full cool-down of `c > 0` seconds,
/// every request is refused with the seconds left, without asking for a new
/// countdown, for the first `c` seconds; after `c` seconds of the timer the
/// minute budget is restored, and the next request is granted, spending one
/// request of the restored budget and clearing the countdown.
pub proof fn law_countdown_restores_budget(s: LimiterCounters, i: nat)
    requires
        s.wf(),
        0 < s.cool_down_seconds <= MAX_DELTA_SECONDS,
        !s.daily_exhausted(),
        i <= s.cool_down_seconds,
    ensures
        ({
            let t = s.after_start_countdown(true);
            &&& i < s.cool_down_seconds ==> t.tick_n(i).proceed_status()
                == RateLimitStatus::RequestPerMinuteExceeded(false, (s.cool_down_seconds - i) as i64)
            &&& i == s.cool_down_seconds ==> {
                &&& t.tick_n(i).remaining_minute_requests == s.max_minute_request
                &&& t.tick_n(i).proceed_status()
                    == RateLimitStatus::Allowed((s.max_minute_request - 1) as u64)
                &&& t.tick_n(i).after_proceed().count_down is None
                &&& t.tick_n(i).after_proceed().remaining_minute_requests
                    == s.max_minute_request - 1
            }
        }),
{
    let t = s.after_start_countdown(true);
    if i < s.cool_down_seconds {
        lemma_ticks_before_expiry(t, i);
    } else {
        lemma_ticks_before_expiry(t, (i - 1) as nat);
        assert(t.tick_n(i) == t.tick_n((i - 1) as nat).after_tick());
    }
}

/// One thing that can happen to a limiter: a request, one second of the
/// countdown timer, or starting the countdown.
#[derive(Debug, Clone, Copy, PartialEq, Eq, Structural)]
pub enum LimiterOp {
    Proceed,
    Tick,
    StartCountdown(bool),
}

/// The counters after one operation.
pub open spec fn apply_op(s: LimiterCounters, op: LimiterOp) -> LimiterCounters {
    match op {
        LimiterOp::Proceed => s.after_proceed(),
        LimiterOp::Tick => s.after_tick(),
        LimiterOp::StartCountdown(reset_timer) => s.after_start_countdown(reset_timer),
    }
}

/// The counters after the operations, in order.
pub open spec fn run_ops(s: LimiterCounters, ops: Seq<LimiterOp>) -> LimiterCounters
    decreases ops.len(),
{
    if ops.len() == 0 {
        s
    } else {
        apply_op(run_ops(s, ops.drop_last()), ops.last())
    }
}

/// How many of the operations' requests were granted.
pub open spec fn granted_count(s: LimiterCounters, ops: Seq<LimiterOp>) -> nat
    decreases ops.len(),
{
    if ops.len() == 0 {
        0
    } else {
        granted_count(s, ops.drop_last()) + if ops.last() == LimiterOp::Proceed && run_ops(
            s,
            ops.drop_last(),
        ).proceed_status() is Allowed {
            1nat
        } else {
            0nat
        }
    }
}

/// The daily budget bounds the requests granted: whatever requests, timer
/// seconds and countdowns come, a limiter with a daily budget of `d` grants
/// at most `d` requests, each spending one of them; once `d` were granted,
/// every further request is refused as over the daily limit.
pub proof fn law_daily_budget_bounds_grants(s: LimiterCounters, d: i64, ops: Seq<LimiterOp>)
    requires
        s.remaining_daily_requests == Some(d),
        d >= 0,
    ensures
        granted_count(s, ops) <= d,
        run_ops(s, ops).remaining_daily_requests == Some((d - granted_count(s, ops)) as i64),
        granted_count(s, ops) == d ==> run_ops(s, ops).proceed_status()
            == RateLimitStatus::RequestPerDayExceeded,
    decreases ops.len(),
{
    if ops.len() > 0 {
        law_daily_budget_bounds_grants(s, d, ops.drop_last());
    }
}

/// The minute budget stays in range: for a limiter with a minute budget of
/// at least one, whatever requests, timer seconds and countdowns come, the
/// requests left stay between zero and the budget, the budget and the
/// cool-down never change, and every grant reports fewer requests left than
/// the budget.
pub proof fn law_minute_budget_stays_in_range(s: LimiterCounters, ops: Seq<LimiterOp>)
    requires
        s.max_minute_request >= 1,
        0 <= s.remaining_minute_requests <= s.max_minute_request,
    ensures
        0 <= run_ops(s, ops).remaining_minute_requests <= s.max_minute_request,
        run_ops(s, ops).max_minute_request == s.max_minute_request,
        run_ops(s, ops).cool_down_seconds == s.cool_down_seconds,
        run_ops(s, ops).proceed_status() matches RateLimitStatus::Allowed(n) ==> n < s.max_minute_request,
    decreases ops.len(),
{
    if ops.len() > 0 {
        law_minute_budget_stays_in_range(s, ops.drop_last());
    }
}

/// A request refused while a countdown runs changes nothing: with the
/// countdown at `c > 0` seconds and the daily budget not spent, the request
/// is refused with the `c` seconds left, without asking for a new
/// countdown, and the counters, the countdown among them, stay as they were.
pub proof fn law_refused_requests_leave_the_countdown_alone(s: LimiterCounters)
    requires
        s.count_down matches Some(c) && c > 0,
        !s.daily_exhausted(),
    ensures
        s.after_proceed() == s,
        s.proceed_status() == RateLimitStatus::RequestPerMinuteExceeded(false, s.count_down->0),
        apply_op(s, LimiterOp::Proceed) == s,
{
}

/// How many timer seconds the operations hold.
pub open spec fn tick_count(ops: Seq<LimiterOp>) -> nat
    decreases ops.len(),
{
    if ops.len() == 0 {
        0
    } else {
        tick_count(ops.drop_last()) + if ops.last() == LimiterOp::Tick {
            1nat
        } else {
            0nat
        }
    }
}

/// The operations are requests and timer seconds only.
pub open spec fn requests_and_ticks(ops: Seq<LimiterOp>) -> bool {
    forall|i: int| 0 <= i < ops.len() ==> #[trigger] ops[i] == LimiterOp::Proceed || ops[i] == LimiterOp::Tick
}

/// Requests do not delay a running countdown: with the countdown at `c`
/// seconds and the daily budget not spent, any mix of requests and fewer
/// than `c` timer seconds leaves the limiter exactly as the timer seconds
/// alone would: the countdown is down by one per second, and nothing else
/// changed.
pub proof fn law_requests_do_not_delay_the_countdown(s: LimiterCounters, ops: Seq<LimiterOp>)
    requires
        s.count_down matches Some(c) && 0 < c <= MAX_DELTA_SECONDS,
        !s.daily_exhausted(),
        requests_and_ticks(ops),
        tick_count(ops) < s.count_down->0,
    ensures
        run_ops(s, ops) == (LimiterCounters { count_down: Some((s.count_down->0 - tick_count(ops)) as i64), ..s }),
    decreases ops.len(),
{
    if ops.len() > 0 {
        let rest = ops.drop_last();
        assert(requests_and_ticks(rest)) by {
            assert forall|i: int| 0 <= i < rest.len() implies #[trigger] rest[i] == LimiterOp::Proceed || rest[i]
                == LimiterOp::Tick by {
                assert(rest[i] == ops[i]);
            }
        }
        law_requests_do_not_delay_the_countdown(s, rest);
        assert(ops.last() == ops[ops.len() - 1]);
    }
}

} // verus!
