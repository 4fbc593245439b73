use data_sync_tool::rate_limiter::{
    create_rate_limiter, create_rate_limiter_by_rate_quota, new_web_request_limiter, CountdownTick,
    RateLimitStatus, RateLimiterInstance, WebRequestRateLimiter,
};
use data_sync_tool::task::{CreateRateLimiterRequest, RateLimiterImpls, RateQuota};

#[test]
fn limiter_refuses_negative_limits() {
    assert!(WebRequestRateLimiter::new(-1, None, None).is_err());
    assert!(WebRequestRateLimiter::new(1, Some(-1), None).is_err());
    assert!(WebRequestRateLimiter::new(1, None, Some(-5)).is_err());
    let err = WebRequestRateLimiter::new(-1, None, None).err().unwrap();
    assert_eq!(err.message(), "Limit must be a non-negative integer!");
    assert!(WebRequestRateLimiter::new(0, Some(0), Some(0)).is_ok());
}

#[test]
fn limiter_defaults_its_cooldown_to_a_minute() {
    let limiter = WebRequestRateLimiter::new(5, None, None).unwrap();
    assert_eq!(limiter.cool_down_seconds(), 60);
    assert_eq!(limiter.max_minute_request(), 5);
    assert_eq!(limiter.remaining_minute_requests(), 5);
    assert_eq!(limiter.count_down(), None);
    assert_eq!(limiter.last_request_time(), None);
}

#[test]
fn minute_budget_is_spent_then_the_countdown_restores_it() {
    let mut limiter = WebRequestRateLimiter::new(3, None, Some(4)).unwrap();
    assert_eq!(limiter.can_proceed(), RateLimitStatus::Allowed(2));
    assert!(limiter.last_request_time().is_some());
    assert_eq!(limiter.can_proceed(), RateLimitStatus::Allowed(1));
    assert_eq!(limiter.can_proceed(), RateLimitStatus::Allowed(0));
    assert_eq!(limiter.can_proceed(), RateLimitStatus::RequestPerMinuteExceeded(true, 4));
    assert_eq!(limiter.can_proceed(), RateLimitStatus::RequestPerMinuteExceeded(true, 4));
    assert!(limiter.start_countdown(true).is_ok());
    assert_eq!(limiter.count_down(), Some(4));
    assert_eq!(limiter.can_proceed(), RateLimitStatus::RequestPerMinuteExceeded(false, 4));
    assert_eq!(limiter.tick_countdown(), CountdownTick::Ticking(3));
    assert_eq!(limiter.tick_countdown(), CountdownTick::Ticking(2));
    assert_eq!(limiter.tick_countdown(), CountdownTick::Ticking(1));
    assert_eq!(limiter.tick_countdown(), CountdownTick::Expired);
    assert_eq!(limiter.remaining_minute_requests(), 3);
    assert_eq!(limiter.can_proceed(), RateLimitStatus::Allowed(2));
    assert_eq!(limiter.count_down(), None);
    assert_eq!(limiter.tick_countdown(), CountdownTick::Idle);
}

#[test]
fn countdown_without_reset_changes_nothing() {
    let mut limiter = WebRequestRateLimiter::new(1, None, Some(10)).unwrap();
    assert!(limiter.start_countdown(false).is_ok());
    assert_eq!(limiter.count_down(), None);
    assert_eq!(limiter.can_proceed(), RateLimitStatus::Allowed(0));
}

#[test]
fn spent_daily_budget_refuses_every_request() {
    let mut limiter = WebRequestRateLimiter::new(5, Some(0), None).unwrap();
    for _ in 0..3 {
        assert_eq!(limiter.can_proceed(), RateLimitStatus::RequestPerDayExceeded);
    }
    assert_eq!(limiter.remaining_minute_requests(), 5);
    assert_eq!(limiter.last_request_time(), None);
}

#[test]
fn budgets_stay_as_made() {
    let mut limiter = WebRequestRateLimiter::new(2, Some(7), Some(3)).unwrap();
    for _ in 0..5 {
        let _ = limiter.can_proceed();
    }
    assert_eq!(limiter.max_minute_request(), 2);
    assert_eq!(limiter.remaining_daily_requests(), Some(5));
    assert_eq!(limiter.cool_down_seconds(), 3);
}

#[test]
fn each_granted_request_spends_the_daily_budget() {
    let mut limiter = WebRequestRateLimiter::new(5, Some(1), None).unwrap();
    assert_eq!(limiter.can_proceed(), RateLimitStatus::Allowed(4));
    assert_eq!(limiter.remaining_daily_requests(), Some(0));
    assert_eq!(limiter.can_proceed(), RateLimitStatus::RequestPerDayExceeded);
    assert_eq!(limiter.can_proceed(), RateLimitStatus::RequestPerDayExceeded);

    let mut limiter = WebRequestRateLimiter::new(1, Some(2), Some(1)).unwrap();
    assert_eq!(limiter.can_proceed(), RateLimitStatus::Allowed(0));
    assert_eq!(limiter.can_proceed(), RateLimitStatus::RequestPerMinuteExceeded(true, 1));
    assert_eq!(limiter.remaining_daily_requests(), Some(1));
    assert!(limiter.start_countdown(true).is_ok());
    assert_eq!(limiter.tick_countdown(), CountdownTick::Expired);
    assert_eq!(limiter.can_proceed(), RateLimitStatus::Allowed(0));
    assert_eq!(limiter.remaining_daily_requests(), Some(0));
    assert_eq!(limiter.can_proceed(), RateLimitStatus::RequestPerDayExceeded);
}

#[test]
fn limiters_are_made_from_requests_and_quotas() {
    let l = new_web_request_limiter(7, Some(100), None);
    assert_eq!(l.max_minute_request(), 7);
    assert_eq!(l.remaining_daily_requests(), Some(100));
    assert_eq!(l.cool_down_seconds(), 60);

    let req = CreateRateLimiterRequest { max_request: 4, max_daily_request: None, cooldown: Some(9) };
    let l = create_rate_limiter(&req, RateLimiterImpls::WebRequestRateLimiter);
    assert_eq!(l.max_minute_request(), 4);
    assert_eq!(l.remaining_daily_requests(), None);
    assert_eq!(l.cool_down_seconds(), 9);

    let quota = RateQuota {
        use_impl: RateLimiterImpls::WebRequestRateLimiter,
        max_line_per_request: 11,
        daily_limit: 300,
        cooldown_seconds: 30,
        max_retry: 2,
    };
    match create_rate_limiter_by_rate_quota(&quota) {
        RateLimiterInstance::WebLimiter(l) => {
            assert_eq!(l.max_minute_request(), 11);
            assert_eq!(l.remaining_daily_requests(), Some(300));
            assert_eq!(l.cool_down_seconds(), 30);
        }
    }
}

#[test]
fn each_limiter_has_its_own_id() {
    let a = WebRequestRateLimiter::new(1, None, None).unwrap();
    let b = WebRequestRateLimiter::new(1, None, None).unwrap();
    assert_ne!(a.id(), b.id());
}

/// One hundred requests against a limiter of ten a minute and a three-second
/// cool-down; whenever the limiter asks for it, the countdown is started and
/// run to its end before the next request.
fn run_requests(limiter: &mut WebRequestRateLimiter, n: usize) -> (usize, usize) {
    let mut allowed = 0;
    let mut refused = 0;
    for _ in 0..n {
        match limiter.can_proceed() {
            RateLimitStatus::Allowed(_) => allowed += 1,
            RateLimitStatus::RequestPerDayExceeded => panic!("no daily budget was set"),
            RateLimitStatus::RequestPerMinuteExceeded(should_start_timer, remaining_seconds) => {
                refused += 1;
                assert!(should_start_timer);
                assert_eq!(remaining_seconds, limiter.cool_down_seconds());
                assert!(limiter.start_countdown(true).is_ok());
                let mut ticks = 0;
                loop {
                    ticks += 1;
                    match limiter.tick_countdown() {
                        CountdownTick::Ticking(_) => {}
                        CountdownTick::Expired => break,
                        other => panic!("unexpected tick {:?}", other),
                    }
                }
                assert_eq!(ticks, remaining_seconds);
            }
        }
    }
    (allowed, refused)
}

#[test]
fn it_should_count_remaining_time_as_expected() {
    let mut web_rate_limiter = WebRequestRateLimiter::new(10, None, Some(3)).unwrap();
    let (allowed, refused) = run_requests(&mut web_rate_limiter, 100);
    assert_eq!(allowed, 91);
    assert_eq!(refused, 9);
}

#[test]
fn it_should_run_several_limiters_concurrenly() {
    let limits = [(5, 1), (10, 3), (15, 5), (20, 7), (25, 9), (30, 11)];
    for (max_request, cooldown) in limits {
        let mut limiter = WebRequestRateLimiter::new(max_request, None, Some(cooldown)).unwrap();
        let (allowed, refused) = run_requests(&mut limiter, 100);
        let cycle = (max_request + 1) as usize;
        assert_eq!(refused, 100 / cycle);
        assert_eq!(allowed, 100 - 100 / cycle);
    }
}
