//! The connection supervisor: an attempt to connect that fails is made again
//! for ever, each time after a longer delay and with everything built anew.

use crate::interval::Interval;
use crate::retry::{RetryPolicy, RetryState};
use vstd::arithmetic::power2::{lemma2_to64, lemma_pow2_strictly_increases, pow2};
use vstd::prelude::*;

verus! {

/// What follows a failed attempt to connect.
#[derive(Clone, Copy, Debug)]
pub struct Reconnect {
    /// The number of the attempt that failed, counted from zero within the
    /// session.
    pub attempt: u64,
    /// How long to wait before the next attempt.
    pub delay: Interval,
    /// The session as it stands after the failure.
    pub retry: RetryState,
}

/// What follows a failed attempt to connect in the session `retry`.
pub open spec fn reconnect_after(retry: RetryState) -> Reconnect {
    Reconnect {
        attempt: retry.attempts(),
        delay: retry.delay(),
        retry: retry.after_failure(),
    }
}

/// The session that a pipeline starts to connect with.
pub fn first_session() -> (retry: RetryState)
    ensures
        retry == RetryPolicy::for_connect_spec().fresh(),
        retry.wf(),
        retry.attempts() == 0,
{
    RetryPolicy::for_connect().begin()
}

/// Records that an attempt to connect has failed and says when to make the
/// next one. There is no last attempt.
pub fn connect_failed(retry: RetryState) -> (next: Reconnect)
    ensures
        next == reconnect_after(retry),
        next.retry.wf(),
{
    let attempt = retry.attempt_count();
    let (delay, after) = retry.record_failure();
    Reconnect { attempt, delay, retry: after }
}

/// In a session that starts with `first_session`, failure number `k` is
/// followed by a wait of exactly `2^k` seconds up to `2^63` seconds, and by
/// a wait of the longest interval there is from failure number 64 on.
pub proof fn law_reconnect_waits_double(k: nat)
    requires
        k <= u64::MAX,
    ensures
        reconnect_after(RetryPolicy::for_connect_spec().fresh().after_failures(k)).attempt == k,
        k < 64 ==> reconnect_after(RetryPolicy::for_connect_spec().fresh().after_failures(k)).delay
            == (Interval { secs: pow2(k) as u64, nanos: 0 }),
        k >= 64 ==> reconnect_after(
            RetryPolicy::for_connect_spec().fresh().after_failures(k),
        ).delay == Interval::longest(),
{
    let policy = RetryPolicy::for_connect_spec();
    crate::retry::law_session_follows_schedule(policy, k);
    lemma2_to64();
    let nanos = 1000 * 1_000_000 * pow2(k);
    assert(policy.ideal_nanos(k) == nanos);
    assert(nanos == pow2(k) * 1_000_000_000) by (nonlinear_arith)
        requires
            nanos == 1000 * 1_000_000 * pow2(k),
    ;
    if k < 64 {
        lemma_pow2_strictly_increases(k, 64);
    } else if k > 64 {
        lemma_pow2_strictly_increases(64, k);
    }
}

} // verus!
