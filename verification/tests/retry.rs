use pulsar_cli::interval::Interval;
use pulsar_cli::retry::{
    Backoff, RetryPolicy, CONNECT_BASE_DELAY_MS, SEND_RETRY_DELAY_MS, SEND_TIMEOUT_MS,
};
use pulsar_cli::supervisor::{connect_failed, first_session};

fn secs(secs: u64) -> Interval {
    Interval { secs, nanos: 0 }
}

#[test]
fn connect_delays_double_from_one_second() {
    let policy = RetryPolicy::for_connect();
    assert_eq!(policy.backoff, Backoff::Exponential);
    assert_eq!(policy.base_delay_ms, CONNECT_BASE_DELAY_MS);
    assert_eq!(policy.schedule(4), vec![secs(1), secs(2), secs(4), secs(8)]);
}

#[test]
fn schedule_of_no_failures_is_empty() {
    assert_eq!(RetryPolicy::for_connect().schedule(0), Vec::<Interval>::new());
}

#[test]
fn delay_of_failure_k_is_base_times_two_to_the_k() {
    let policy = RetryPolicy::exponential(3);
    let delays = policy.schedule(20);
    for (k, delay) in delays.iter().enumerate() {
        assert_eq!(*delay, Interval::from_millis(3u64 << k));
    }
    for pair in delays.windows(2) {
        assert!((pair[0].secs, pair[0].nanos) < (pair[1].secs, pair[1].nanos));
    }
}

#[test]
fn session_counts_failures_and_hands_out_the_current_delay() {
    let state = RetryPolicy::for_connect().begin();
    assert_eq!(state.attempt_count(), 0);
    assert_eq!(state.current_delay(), secs(1));
    let (first, state) = state.record_failure();
    assert_eq!(first, secs(1));
    assert_eq!(state.attempt_count(), 1);
    assert_eq!(state.current_delay(), secs(2));
    let (second, state) = state.record_failure();
    assert_eq!(second, secs(2));
    let (third, state) = state.record_failure();
    assert_eq!(third, secs(4));
    assert_eq!(state.attempt_count(), 3);
    assert_eq!(state.get_policy(), RetryPolicy::for_connect());
}

#[test]
fn a_new_session_starts_at_the_base_delay_again() {
    let policy = RetryPolicy::for_connect();
    let mut state = policy.begin();
    for _ in 0..5 {
        state = state.record_failure().1;
    }
    assert_eq!(state.current_delay(), secs(32));
    let again = state.reset();
    assert_eq!(again.attempt_count(), 0);
    assert_eq!(again.current_delay(), secs(1));
    assert_eq!(policy.begin().record_failure().0, secs(1));
}

#[test]
fn delay_doubles_exactly_up_to_two_to_the_63_seconds() {
    let delays = RetryPolicy::exponential(1000).schedule(64);
    for (k, delay) in delays.iter().enumerate() {
        assert_eq!(*delay, secs(1u64 << k));
    }
    assert_eq!(delays[55], secs(36_028_797_018_963_968));
    assert_eq!(delays[63], secs(9_223_372_036_854_775_808));
}

#[test]
fn delay_is_the_longest_interval_once_doubling_no_longer_fits() {
    let longest = Interval { secs: u64::MAX, nanos: 999_999_999 };
    let delays = RetryPolicy::exponential(1000).schedule(70);
    assert_eq!(delays[63], secs(1u64 << 63));
    assert_eq!(delays[64], longest);
    assert_eq!(delays[69], longest);
}

#[test]
fn delay_with_a_fraction_of_a_second_doubles_exactly() {
    let delays = RetryPolicy::exponential(1500).schedule(3);
    assert_eq!(
        delays,
        vec![Interval { secs: 1, nanos: 500_000_000 }, secs(3), secs(6)]
    );
    let delays = RetryPolicy::exponential(u64::MAX).schedule(2);
    assert_eq!(delays[0], Interval { secs: 18_446_744_073_709_551, nanos: 615_000_000 });
    assert_eq!(delays[1], Interval { secs: 36_893_488_147_419_103, nanos: 230_000_000 });
}

#[test]
fn interval_doubles_with_carry_and_stops_at_the_longest() {
    let longest = Interval { secs: u64::MAX, nanos: 999_999_999 };
    assert_eq!(Interval::zero().doubled(), Interval::zero());
    assert_eq!(Interval { secs: 0, nanos: 500_000_000 }.doubled(), secs(1));
    assert_eq!(
        Interval { secs: 7, nanos: 999_999_999 }.doubled(),
        Interval { secs: 15, nanos: 999_999_998 }
    );
    assert_eq!(
        Interval { secs: u64::MAX / 2, nanos: 499_999_999 }.doubled(),
        Interval { secs: u64::MAX - 1, nanos: 999_999_998 }
    );
    assert_eq!(Interval { secs: u64::MAX / 2, nanos: 500_000_000 }.doubled(), secs(u64::MAX));
    assert_eq!(secs(u64::MAX / 2 + 1).doubled(), longest);
    assert_eq!(longest.doubled(), longest);
}

#[test]
fn zero_base_delay_never_grows() {
    assert_eq!(RetryPolicy::exponential(0).schedule(3), vec![secs(0), secs(0), secs(0)]);
}

#[test]
fn send_retries_wait_a_fixed_second() {
    let policy = RetryPolicy::for_send();
    assert_eq!(policy.backoff, Backoff::Fixed);
    assert_eq!(policy.base_delay_ms, SEND_RETRY_DELAY_MS);
    assert_eq!(policy.schedule(5), vec![secs(1); 5]);
    assert_eq!(SEND_TIMEOUT_MS, 30000);
}

#[test]
fn fixed_policy_keeps_its_delay() {
    let policy = RetryPolicy::fixed(250);
    let (delay, state) = policy.begin().record_failure();
    assert_eq!(delay, Interval { secs: 0, nanos: 250_000_000 });
    assert_eq!(state.current_delay(), Interval { secs: 0, nanos: 250_000_000 });
    assert_eq!(state.attempt_count(), 1);
}

#[test]
fn interval_from_milliseconds() {
    assert_eq!(Interval::from_millis(0), Interval { secs: 0, nanos: 0 });
    assert_eq!(Interval::from_millis(1000), Interval { secs: 1, nanos: 0 });
    assert_eq!(Interval::from_millis(1500), Interval { secs: 1, nanos: 500_000_000 });
    assert_eq!(
        Interval::from_millis(u64::MAX),
        Interval { secs: 18_446_744_073_709_551, nanos: 615_000_000 }
    );
    assert_eq!(Interval::zero(), Interval { secs: 0, nanos: 0 });
}

#[test]
fn supervisor_waits_one_two_four_seconds_and_counts_the_attempts() {
    let mut retry = first_session();
    assert_eq!(retry.attempt_count(), 0);
    for (attempt, secs) in [(0u64, 1u64), (1, 2), (2, 4), (3, 8)] {
        let next = connect_failed(retry);
        assert_eq!(next.attempt, attempt);
        assert_eq!(next.delay, Interval { secs, nanos: 0 });
        assert_eq!(next.retry.attempt_count(), attempt + 1);
        retry = next.retry;
    }
    assert_eq!(first_session().current_delay(), secs(1));
}

#[test]
fn supervisor_keeps_doubling_past_the_55th_failure() {
    let mut retry = first_session();
    for attempt in 0..64u64 {
        let next = connect_failed(retry);
        assert_eq!(next.attempt, attempt);
        assert_eq!(next.delay, secs(1u64 << attempt));
        retry = next.retry;
    }
    let next = connect_failed(retry);
    assert_eq!(next.attempt, 64);
    assert_eq!(next.delay, Interval { secs: u64::MAX, nanos: 999_999_999 });
}
