use ani_cli::retry::{is_success_status, RetryDecision, RetryPolicy, MAX_RETRY_COUNT, RETRY_DELAY, STATUS_OK};

#[test]
fn image_policy_is_five_attempts_from_half_a_second() {
    let policy = RetryPolicy::image_download();
    assert_eq!(policy.max_attempts(), 5);
    assert_eq!(policy.base_delay_ms(), 500);
    assert_eq!(MAX_RETRY_COUNT, 5);
    assert_eq!(RETRY_DELAY, 500);
}

#[test]
fn delays_double_from_the_base() {
    let policy = RetryPolicy::image_download();
    assert_eq!(policy.delay_before_attempt(0), 0);
    assert_eq!(policy.delay_before_attempt(1), 0);
    assert_eq!(policy.delay_before_attempt(2), 500);
    assert_eq!(policy.delay_before_attempt(3), 1000);
    assert_eq!(policy.delay_before_attempt(4), 2000);
    assert_eq!(policy.delay_before_attempt(5), 4000);
}

#[test]
fn delay_beyond_the_last_attempt_is_the_last_delay() {
    let policy = RetryPolicy::image_download();
    assert_eq!(policy.delay_before_attempt(6), 4000);
    assert_eq!(policy.delay_before_attempt(255), 4000);
}

#[test]
fn image_policy_gives_up_after_the_fifth_failure() {
    let policy = RetryPolicy::image_download();
    assert_eq!(policy.after_failure(1), RetryDecision::RetryAfter(500));
    assert_eq!(policy.after_failure(2), RetryDecision::RetryAfter(1000));
    assert_eq!(policy.after_failure(3), RetryDecision::RetryAfter(2000));
    assert_eq!(policy.after_failure(4), RetryDecision::RetryAfter(4000));
    assert_eq!(policy.after_failure(5), RetryDecision::GiveUp);
    assert_eq!(policy.after_failure(6), RetryDecision::GiveUp);
}

#[test]
fn no_delay_before_the_first_attempt() {
    let policy = RetryPolicy::image_download();
    assert_eq!(policy.after_failure(0), RetryDecision::RetryAfter(0));
}

#[test]
fn single_attempt_policy_never_retries() {
    let policy = RetryPolicy::single_attempt();
    assert_eq!(policy.max_attempts(), 1);
    assert_eq!(policy.after_failure(1), RetryDecision::GiveUp);
}

#[test]
fn policy_needs_an_attempt() {
    assert!(RetryPolicy::new(0, 500).is_none());
    assert!(RetryPolicy::new(0, 0).is_none());
}

#[test]
fn policy_needs_delays_that_fit() {
    assert!(RetryPolicy::new(1, u64::MAX).is_some());
    assert!(RetryPolicy::new(2, u64::MAX).is_some());
    assert!(RetryPolicy::new(3, u64::MAX).is_none());
    assert!(RetryPolicy::new(3, u64::MAX / 2).is_some());
    assert!(RetryPolicy::new(3, u64::MAX / 2 + 1).is_none());
    assert!(RetryPolicy::new(255, 500).is_none());
    assert!(RetryPolicy::new(255, 0).is_some());
    assert!(RetryPolicy::new(65, 1).is_some());
    assert!(RetryPolicy::new(66, 1).is_none());
}

#[test]
fn made_policy_follows_the_formula() {
    let policy = RetryPolicy::new(4, 7).unwrap();
    assert_eq!(policy, RetryPolicy::new(4, 7).unwrap());
    assert_eq!(policy.after_failure(1), RetryDecision::RetryAfter(7));
    assert_eq!(policy.after_failure(2), RetryDecision::RetryAfter(14));
    assert_eq!(policy.after_failure(3), RetryDecision::RetryAfter(28));
    assert_eq!(policy.after_failure(4), RetryDecision::GiveUp);
    let long = RetryPolicy::new(65, 1).unwrap();
    assert_eq!(long.delay_before_attempt(65), 1u64 << 63);
}

#[test]
fn only_status_200_is_success() {
    assert_eq!(STATUS_OK, 200);
    assert!(is_success_status(200));
    for status in [0u16, 100, 199, 201, 204, 301, 404, 500, 503, 65535] {
        assert!(!is_success_status(status));
    }
}
