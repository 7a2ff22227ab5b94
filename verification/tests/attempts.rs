use s3_manifest::retry::{Retry, RetryPolicy, RetryStep, BASE_DELAY_MS, MAX_ATTEMPTS};

#[test]
fn standard_policy_is_three_attempts_from_100_ms() {
    let policy = Retry::standard_policy();
    assert_eq!(policy.max_attempts, 3);
    assert_eq!(policy.base_delay_ms, 100);
    assert_eq!(MAX_ATTEMPTS, 3);
    assert_eq!(BASE_DELAY_MS, 100);
}

#[test]
fn two_failures_leave_a_third_attempt() {
    let mut retry = Retry::new(Retry::standard_policy());
    match retry.on_failure() {
        RetryStep::Wait(ms) => assert!(ms <= 100),
        RetryStep::GiveUp => panic!("gave up after one failure"),
    }
    match retry.on_failure() {
        RetryStep::Wait(ms) => assert!(ms <= 10_000),
        RetryStep::GiveUp => panic!("gave up after two failures"),
    }
}

#[test]
fn three_failures_are_final() {
    let mut retry = Retry::new(Retry::standard_policy());
    assert!(matches!(retry.on_failure(), RetryStep::Wait(_)));
    assert!(matches!(retry.on_failure(), RetryStep::Wait(_)));
    assert_eq!(retry.on_failure(), RetryStep::GiveUp);
    assert_eq!(retry.on_failure(), RetryStep::GiveUp);
}

#[test]
fn waits_follow_the_exponential_schedule() {
    let policy = RetryPolicy { max_attempts: 5, base_delay_ms: 1 };
    let mut retry = Retry::new(policy);
    for _ in 0..4 {
        match retry.on_failure() {
            RetryStep::Wait(ms) => assert!(ms <= 1),
            RetryStep::GiveUp => panic!("gave up early"),
        }
    }
    assert_eq!(retry.on_failure(), RetryStep::GiveUp);
}

#[test]
fn waits_with_base_zero_are_zero() {
    let mut retry = Retry::new(RetryPolicy { max_attempts: 3, base_delay_ms: 0 });
    assert_eq!(retry.on_failure(), RetryStep::Wait(0));
    assert_eq!(retry.on_failure(), RetryStep::Wait(0));
    assert_eq!(retry.on_failure(), RetryStep::GiveUp);
}

#[test]
fn waits_are_shortened_at_random_but_not_to_nothing_always() {
    let mut longest: u64 = 0;
    for _ in 0..200 {
        let mut retry = Retry::new(RetryPolicy { max_attempts: 3, base_delay_ms: 1000 });
        retry.on_failure();
        match retry.on_failure() {
            RetryStep::Wait(ms) => {
                assert!(ms <= 1_000_000);
                if ms > longest {
                    longest = ms;
                }
            }
            RetryStep::GiveUp => panic!("gave up early"),
        }
    }
    assert!(longest > 1000);
}

#[test]
fn a_single_attempt_is_never_retried() {
    let mut retry = Retry::new(RetryPolicy { max_attempts: 1, base_delay_ms: 100 });
    assert_eq!(retry.on_failure(), RetryStep::GiveUp);
}

#[test]
fn a_policy_without_attempts_allows_one() {
    let mut retry = Retry::new(RetryPolicy { max_attempts: 0, base_delay_ms: 100 });
    assert_eq!(retry.on_failure(), RetryStep::GiveUp);
}

#[test]
fn huge_base_saturates() {
    let mut retry = Retry::new(RetryPolicy { max_attempts: 4, base_delay_ms: u64::MAX - 1 });
    for _ in 0..3 {
        assert!(matches!(retry.on_failure(), RetryStep::Wait(_)));
    }
    assert_eq!(retry.on_failure(), RetryStep::GiveUp);
}

#[test]
fn bounded_wait_is_the_shorter() {
    assert_eq!(s3_manifest::retry::bounded_wait(100, 37), 37);
    assert_eq!(s3_manifest::retry::bounded_wait(100, 100), 100);
    assert_eq!(s3_manifest::retry::bounded_wait(100, 101), 100);
    assert_eq!(s3_manifest::retry::bounded_wait(0, 5), 0);
}

#[test]
fn schedule_of_the_standard_policy() {
    assert_eq!(Retry::schedule(Retry::standard_policy()), vec![100, 10_000]);
}

#[test]
fn schedule_grows_by_powers_of_the_base() {
    let policy = RetryPolicy { max_attempts: 5, base_delay_ms: 10 };
    assert_eq!(Retry::schedule(policy), vec![10, 100, 1000, 10_000]);
    let doubling = RetryPolicy { max_attempts: 4, base_delay_ms: 2 };
    assert_eq!(Retry::schedule(doubling), vec![2, 4, 8]);
}

#[test]
fn schedule_saturates() {
    let policy = RetryPolicy { max_attempts: 4, base_delay_ms: u64::MAX - 1 };
    assert_eq!(Retry::schedule(policy), vec![u64::MAX - 1, u64::MAX, u64::MAX]);
}

#[test]
fn schedule_without_retries_is_empty() {
    assert_eq!(
        Retry::schedule(RetryPolicy { max_attempts: 1, base_delay_ms: 100 }),
        Vec::<u64>::new()
    );
    assert_eq!(
        Retry::schedule(RetryPolicy { max_attempts: 0, base_delay_ms: 100 }),
        Vec::<u64>::new()
    );
}
