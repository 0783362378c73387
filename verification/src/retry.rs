//! Retry schedules: exponential backoff for connecting, flat delay for sends.

use crate::interval::{lemma_of_nanos, lemma_of_nanos_grows, Interval};
use vstd::arithmetic::power2::{
    lemma2_to64, lemma_pow2_adds, lemma_pow2_strictly_increases, lemma_pow2_unfold, pow2,
};
use vstd::prelude::*;

verus! {

/// Base delay of the connect schedule, in milliseconds.
pub const CONNECT_BASE_DELAY_MS: u64 = 1000;

/// Delay between two attempts to send the same message, in milliseconds.
pub const SEND_RETRY_DELAY_MS: u64 = 1000;

/// How long a single send attempt may take, in milliseconds.
pub const SEND_TIMEOUT_MS: u64 = 30000;

/// How the delay develops from one failure to the next.
#[derive(Clone, Copy, Debug, PartialEq, Eq, Structural)]
pub enum Backoff {
    /// The delay doubles after every failure.
    Exponential,
    /// The delay stays the same.
    Fixed,
}

/// A retry schedule. There is no limit on the number of attempts.
#[derive(Clone, Copy, Debug, PartialEq, Eq, Structural)]
pub struct RetryPolicy {
    pub backoff: Backoff,
    pub base_delay_ms: u64,
}

/// Progress of one retry session: how many attempts have failed so far and
/// how long to wait before the next one.
#[derive(Clone, Copy, Debug)]
pub struct RetryState {
    pub(crate) policy: RetryPolicy,
    pub(crate) attempt_count: u64,
    pub(crate) current_delay: Interval,
}

impl RetryPolicy {
    /// The delay before the retry that follows failure number `k` (counted
    /// from zero), in nanoseconds: the base delay, doubled `k` times where
    /// the backoff is exponential.
    pub open spec fn ideal_nanos(self, k: nat) -> nat {
        match self.backoff {
            Backoff::Exponential => self.base_delay_ms as nat * 1_000_000 * pow2(k),
            Backoff::Fixed => self.base_delay_ms as nat * 1_000_000,
        }
    }

    /// The delay before the retry that follows failure number `k`: exactly
    /// `ideal_nanos(k)` for as long as an interval can be that long, and the
    /// longest interval from then on.
    pub open spec fn delay_at(self, k: nat) -> Interval {
        Interval::of_nanos(self.ideal_nanos(k))
    }

    /// A schedule that starts at `base_delay_ms` and doubles after each failure.
    pub fn exponential(base_delay_ms: u64) -> (policy: RetryPolicy)
        ensures
            policy == (RetryPolicy { backoff: Backoff::Exponential, base_delay_ms }),
    {
        RetryPolicy { backoff: Backoff::Exponential, base_delay_ms }
    }

    /// A schedule that waits `delay_ms` after every failure.
    pub fn fixed(delay_ms: u64) -> (policy: RetryPolicy)
        ensures
            policy == (RetryPolicy { backoff: Backoff::Fixed, base_delay_ms: delay_ms }),
    {
        RetryPolicy { backoff: Backoff::Fixed, base_delay_ms: delay_ms }
    }

    /// The schedule used for connecting to the broker.
    pub open spec fn for_connect_spec() -> RetryPolicy {
        RetryPolicy { backoff: Backoff::Exponential, base_delay_ms: CONNECT_BASE_DELAY_MS }
    }

    /// The schedule used for re-sending a message.
    pub open spec fn for_send_spec() -> RetryPolicy {
        RetryPolicy { backoff: Backoff::Fixed, base_delay_ms: SEND_RETRY_DELAY_MS }
    }

    /// The schedule used for connecting to the broker.
    pub fn for_connect() -> (policy: RetryPolicy)
        ensures
            policy == RetryPolicy::for_connect_spec(),
    {
        RetryPolicy::exponential(CONNECT_BASE_DELAY_MS)
    }

    /// The schedule used for re-sending a message.
    pub fn for_send() -> (policy: RetryPolicy)
        ensures
            policy == RetryPolicy::for_send_spec(),
    {
        RetryPolicy::fixed(SEND_RETRY_DELAY_MS)
    }

    /// The session in which nothing has failed yet.
    pub open spec fn fresh(self) -> RetryState {
        RetryState::of(self, 0)
    }

    /// Opens a fresh retry session: nothing has failed yet and the next
    /// delay is the base delay.
    pub fn begin(&self) -> (state: RetryState)
        ensures
            state == self.fresh(),
            state.wf(),
            state.policy() == *self,
            state.attempts() == 0,
            state.delay() == Interval::of_millis(self.base_delay_ms),
    {
        proof {
            lemma2_to64();
        }
        RetryState {
            policy: *self,
            attempt_count: 0,
            current_delay: Interval::from_millis(self.base_delay_ms),
        }
    }

    /// The delays that `failures` consecutive failures of one session incur,
    /// in order.
    pub fn schedule(&self, failures: usize) -> (delays: Vec<Interval>)
        ensures
            delays@.len() == failures,
            forall|k: int| 0 <= k < failures ==> delays@[k] == self.delay_at(k as nat),
    {
        let mut delays: Vec<Interval> = Vec::new();
        let mut state = self.begin();
        let mut done: usize = 0;
        while done < failures
            invariant
                done <= failures,
                delays@.len() == done,
                state.wf(),
                state.policy() == *self,
                state.attempts() == done,
                forall|k: int| 0 <= k < done ==> delays@[k] == self.delay_at(k as nat),
            decreases failures - done,
        {
            let (delay, next) = state.record_failure();
            delays.push(delay);
            state = next;
            done = done + 1;
        }
        delays
    }
}

impl RetryState {
    /// The schedule this session follows.
    pub open(crate) spec fn policy(self) -> RetryPolicy {
        self.policy
    }

    /// Number of failures recorded in this session.
    pub open(crate) spec fn attempts(self) -> u64 {
        self.attempt_count
    }

    /// The delay that the next failure incurs.
    pub open(crate) spec fn delay(self) -> Interval {
        self.current_delay
    }

    /// The stored delay is the one the schedule gives for the stored count.
    pub open spec fn wf(self) -> bool {
        self.delay() == self.policy().delay_at(self.attempts() as nat)
    }

    #[verifier::type_invariant]
    spec fn inv(self) -> bool {
        self.wf()
    }

    /// The session after one more failure: the count grows by one (and stays
    /// at `u64::MAX` once there), the delay follows the schedule.
    pub open spec fn after_failure(self) -> RetryState
        recommends
            self.wf(),
    {
        let count = if self.attempts() < u64::MAX {
            (self.attempts() + 1) as u64
        } else {
            u64::MAX
        };
        RetryState::of(self.policy(), count)
    }

    /// The session after `n` more failures in a row.
    pub open spec fn after_failures(self, n: nat) -> RetryState
        decreases n,
    {
        if n == 0 {
            self
        } else {
            self.after_failures((n - 1) as nat).after_failure()
        }
    }

    /// The well-formed session of `policy` with `count` recorded failures.
    pub open(crate) spec fn of(policy: RetryPolicy, count: u64) -> RetryState {
        RetryState {
            policy,
            attempt_count: count,
            current_delay: policy.delay_at(count as nat),
        }
    }

    pub fn get_policy(&self) -> (policy: RetryPolicy)
        ensures
            policy == self.policy(),
    {
        self.policy
    }

    pub fn attempt_count(&self) -> (count: u64)
        ensures
            count == self.attempts(),
    {
        self.attempt_count
    }

    pub fn current_delay(&self) -> (delay: Interval)
        ensures
            delay == self.delay(),
            delay == self.policy().delay_at(self.attempts() as nat),
            delay.wf(),
    {
        proof {
            use_type_invariant(self);
            lemma_of_nanos(self.policy().ideal_nanos(self.attempts() as nat));
        }
        self.current_delay
    }

    /// Records a failed attempt. Returns the delay to wait before the next
    /// attempt and the session as it stands after the failure.
    pub fn record_failure(self) -> (out: (Interval, RetryState))
        ensures
            out.0 == self.delay(),
            out.0 == self.policy().delay_at(self.attempts() as nat),
            out.0.wf(),
            out.1 == self.after_failure(),
            out.1.wf(),
    {
        proof {
            use_type_invariant(&self);
            lemma_of_nanos(self.policy().ideal_nanos(self.attempts() as nat));
            lemma_after_failure(self);
        }
        let wait = self.current_delay;
        let count: u64 = if self.attempt_count < u64::MAX {
            self.attempt_count + 1
        } else {
            u64::MAX
        };
        let delay = match self.policy.backoff {
            Backoff::Fixed => wait,
            Backoff::Exponential => wait.doubled(),
        };
        (wait, RetryState { policy: self.policy, attempt_count: count, current_delay: delay })
    }

    /// Starts the session over, as after a success.
    pub fn reset(self) -> (state: RetryState)
        ensures
            state == self.policy().fresh(),
            state.wf(),
            state.policy() == self.policy(),
            state.attempts() == 0,
            state.delay() == Interval::of_millis(self.policy().base_delay_ms),
    {
        self.policy.begin()
    }
}

/// A fresh session waits the base delay first, whatever came before it.
pub proof fn law_fresh_session_starts_at_base(policy: RetryPolicy)
    ensures
        policy.fresh().wf(),
        policy.fresh().attempts() == 0,
        policy.fresh().delay() == Interval::of_millis(policy.base_delay_ms),
        policy.delay_at(0) == Interval::of_millis(policy.base_delay_ms),
        policy.delay_at(0).total_nanos() == policy.base_delay_ms as nat * 1_000_000,
{
    lemma2_to64();
    let millis = policy.base_delay_ms;
    assert(millis as nat * 1_000_000 == (millis / 1000) as nat * 1_000_000_000 + (millis
        % 1000) as nat * 1_000_000);
}

/// After `n` consecutive failures of a fresh session the next delay is the
/// one the schedule gives for failure number `n`.
pub proof fn law_session_follows_schedule(policy: RetryPolicy, n: nat)
    requires
        n <= u64::MAX,
    ensures
        policy.fresh().after_failures(n) == RetryState::of(policy, n as u64),
        policy.fresh().after_failures(n).wf(),
        policy.fresh().after_failures(n).delay() == policy.delay_at(n),
    decreases n,
{
    if n > 0 {
        law_session_follows_schedule(policy, (n - 1) as nat);
        lemma_after_failure(policy.fresh().after_failures((n - 1) as nat));
    }
}

/// With exponential backoff and a positive base, the delay of failure
/// number `k` is exactly `base * 2^k` for as long as an interval can be that
/// long, and each such delay is longer than every earlier one.
pub proof fn law_exponential_delays_grow(policy: RetryPolicy, j: nat, k: nat)
    requires
        policy.backoff == Backoff::Exponential,
        policy.base_delay_ms > 0,
        j < k,
        Interval::fits(policy.base_delay_ms as nat * 1_000_000 * pow2(k)),
    ensures
        policy.delay_at(j).total_nanos() == policy.base_delay_ms as nat * 1_000_000 * pow2(j),
        policy.delay_at(k).total_nanos() == policy.base_delay_ms as nat * 1_000_000 * pow2(k),
        policy.delay_at(j).total_nanos() < policy.delay_at(k).total_nanos(),
{
    let base = policy.base_delay_ms as nat * 1_000_000;
    lemma_pow2_strictly_increases(j, k);
    assert(base * pow2(j) < base * pow2(k)) by (nonlinear_arith)
        requires
            base > 0,
            pow2(j) < pow2(k),
    ;
    lemma_of_nanos_grows(base * pow2(j), base * pow2(k));
    lemma_of_nanos(base * pow2(j));
    lemma_of_nanos(base * pow2(k));
}

/// Where `base * 2^k` is longer than any interval, the delay is the longest
/// interval; and whether it fits or not, no delay of an exponential
/// schedule is shorter than an earlier one.
pub proof fn law_exponential_delays_never_shrink(policy: RetryPolicy, j: nat, k: nat)
    requires
        policy.backoff == Backoff::Exponential,
        j <= k,
    ensures
        !Interval::fits(policy.ideal_nanos(k)) ==> policy.delay_at(k) == Interval::longest(),
        policy.delay_at(j).total_nanos() <= policy.delay_at(k).total_nanos(),
{
    let base = policy.base_delay_ms as nat * 1_000_000;
    if j < k {
        lemma_pow2_strictly_increases(j, k);
    }
    assert(base * pow2(j) <= base * pow2(k)) by (nonlinear_arith)
        requires
            pow2(j) <= pow2(k),
    ;
    lemma_of_nanos_grows(base * pow2(j), base * pow2(k));
    lemma_of_nanos(base * pow2(k));
}

/// With a fixed delay every failure waits the same time.
pub proof fn law_fixed_delay_is_constant(policy: RetryPolicy, k: nat)
    requires
        policy.backoff == Backoff::Fixed,
    ensures
        policy.delay_at(k) == Interval::of_millis(policy.base_delay_ms),
{
    let millis = policy.base_delay_ms;
    assert(millis as nat * 1_000_000 == (millis / 1000) as nat * 1_000_000_000 + (millis
        % 1000) as nat * 1_000_000);
}

/// Doubling the delay of one failure gives the delay of the next, also
/// where the delay has reached the longest interval and where the failure
/// count no longer grows.
proof fn lemma_after_failure(state: RetryState)
    requires
        state.wf(),
    ensures
        state.after_failure().wf(),
        state.after_failure().policy() == state.policy(),
        state.after_failure().attempts() == if state.attempts() < u64::MAX {
            (state.attempts() + 1) as u64
        } else {
            u64::MAX
        },
        state.policy().backoff == Backoff::Fixed ==> state.after_failure().delay()
            == state.delay(),
        state.policy().backoff == Backoff::Exponential ==> state.after_failure().delay()
            == Interval::of_nanos(2 * state.delay().total_nanos()),
{
    let policy = state.policy();
    let k = state.attempts() as nat;
    let base = policy.base_delay_ms as nat * 1_000_000;
    if policy.backoff == Backoff::Exponential {
        let now = base * pow2(k);
        lemma_of_nanos(now);
        if state.attempts() < u64::MAX {
            lemma_pow2_unfold(k + 1);
            assert(base * pow2(k + 1) == 2 * (base * pow2(k))) by (nonlinear_arith)
                requires
                    pow2(k + 1) == 2 * pow2(k),
            ;
            lemma_of_nanos(2 * now);
        } else {
            lemma_large_exponent(base, k);
            if base == 0 {
                assert(now == 0);
            } else {
                assert(!Interval::fits(now));
            }
        }
    }
}

/// From the 74th doubling on, a positive number of milliseconds is longer
/// than any interval.
proof fn lemma_large_exponent(base: nat, k: nat)
    requires
        k >= 74,
        base % 1_000_000 == 0,
    ensures
        base > 0 ==> !Interval::fits(base * pow2(k)),
        base == 0 ==> base * pow2(k) == 0,
{
    lemma2_to64();
    lemma_pow2_adds(64, 10);
    if k > 74 {
        lemma_pow2_strictly_increases(74, k);
    }
    if base > 0 {
        assert(base >= 1_000_000);
        assert(base * pow2(k) >= 1_000_000 * pow2(k)) by (nonlinear_arith)
            requires
                base >= 1_000_000,
        ;
        assert(pow2(k) >= 0x10000000000000000 * 1024);
    } else {
        assert(base * pow2(k) == 0) by (nonlinear_arith)
            requires
                base == 0,
        ;
    }
}

} // verus!
