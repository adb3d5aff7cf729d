//! Bounded retries with exponential backoff and jitter. The caller performs
//! each attempt and the waits; this module decides what follows a failure.

use rand::Rng;
use vstd::prelude::*;

verus! {

/// `base` doubled `times` times.
pub open spec fn doubled(base: nat, times: nat) -> nat
    decreases times,
{
    if times == 0 {
        base
    } else {
        2 * doubled(base, (times - 1) as nat)
    }
}

proof fn lemma_doubled_mono(base: nat, i: nat, j: nat)
    requires
        i <= j,
    ensures
        doubled(base, i) <= doubled(base, j),
    decreases j,
{
    if i < j {
        lemma_doubled_mono(base, i, (j - 1) as nat);
    }
}

/// Parameters of one retried operation; delays are in milliseconds.
#[derive(Debug, Clone, PartialEq, Eq)]
pub struct RetryPolicy {
    pub max_attempts: u64,
    pub base_delay_ms: u64,
    pub max_delay_ms: u64,
}

/// The delay cap after the failure of call number `attempt`:
/// `min(base * 2^(attempt - 1), max)`.
pub open spec fn capped_backoff(p: RetryPolicy, attempt: nat) -> nat {
    let d = doubled(p.base_delay_ms as nat, (attempt - 1) as nat);
    if d < p.max_delay_ms {
        d
    } else {
        p.max_delay_ms as nat
    }
}

/// The wait before the next call, in microseconds: the cap in milliseconds
/// scaled by `jitter_permille / 1000`, which is exact in this unit.
pub open spec fn jittered(cap_ms: nat, jitter_permille: nat) -> nat {
    cap_ms * jitter_permille
}

/// Relies on rand::thread_rng and Rng::gen_range, which draws uniformly from
/// the half-open range it is given.
#[verifier::external_body]
fn draw_jitter_permille() -> (r: u64)
    ensures
        500 <= r < 1500,
{
    rand::thread_rng().gen_range(500u64..1500u64)
}

/// What follows one call.
#[derive(Debug, Clone, PartialEq, Eq)]
pub enum RetryStep {
    /// The call succeeded.
    Finished,
    /// The call failed and no attempt is left: its error is final.
    GiveUp,
    /// Wait this many microseconds, then call again.
    Wait(u128),
}

/// The retry state of one operation: the number of the call being made.
#[derive(Debug, Clone, PartialEq, Eq)]
pub struct RetryRun {
    pub policy: RetryPolicy,
    pub attempt: u64,
}

/// Whether another call follows call number `attempt` when it failed.
pub open spec fn retries_after(p: RetryPolicy, attempt: nat) -> bool {
    attempt < p.max_attempts
}

/// The run and the step that follow recording an outcome of the current
/// call, with `jitter_permille` for a wait that may follow.
pub open spec fn next_step(run: RetryRun, succeeded: bool, jitter_permille: nat) -> (RetryRun, RetryStep) {
    if succeeded {
        (run, RetryStep::Finished)
    } else if !retries_after(run.policy, run.attempt as nat) {
        (run, RetryStep::GiveUp)
    } else {
        (
            RetryRun { policy: run.policy, attempt: (run.attempt + 1) as u64 },
            RetryStep::Wait(
                jittered(capped_backoff(run.policy, run.attempt as nat), jitter_permille) as u128,
            ),
        )
    }
}

/// The number of the last call made when the run goes on from `run` by
/// `next_step`, call `k` succeeding exactly where `succeeds(k)`. The jitter
/// does not change whether another call follows.
pub open spec fn calls_made(run: RetryRun, succeeds: spec_fn(nat) -> bool) -> nat
    decreases run.policy.max_attempts - run.attempt,
{
    let (next, step) = next_step(run, succeeds(run.attempt as nat), 1000);
    if step is Wait {
        calls_made(next, succeeds)
    } else {
        run.attempt as nat
    }
}

impl RetryPolicy {
    /// The policy used to deliver results: three attempts, waits of one
    /// second doubling up to three seconds.
    pub fn for_results() -> (r: RetryPolicy)
        ensures
            r.max_attempts == 3,
            r.base_delay_ms == 1000,
            r.max_delay_ms == 3000,
    {
        RetryPolicy { max_attempts: 3, base_delay_ms: 1000, max_delay_ms: 3000 }
    }

    /// `min(base * 2^(attempt - 1), max)`.
    pub fn backoff_ms(&self, attempt: u64) -> (r: u64)
        requires
            attempt >= 1,
        ensures
            r == capped_backoff(*self, attempt as nat),
    {
        let max = self.max_delay_ms as u128;
        let mut d: u128 = self.base_delay_ms as u128;
        let mut k: u64 = 1;
        while k < attempt && d < max
            invariant
                1 <= k <= attempt,
                max == self.max_delay_ms,
                d == doubled(self.base_delay_ms as nat, (k - 1) as nat),
                d <= 2 * max || k == 1,
            decreases attempt - k,
        {
            d = d * 2;
            k = k + 1;
        }
        proof {
            lemma_doubled_mono(self.base_delay_ms as nat, (k - 1) as nat, (attempt - 1) as nat);
        }
        if d < max {
            d as u64
        } else {
            self.max_delay_ms
        }
    }

    /// The wait after the failure of call number `attempt`, for a given
    /// jitter, in microseconds.
    pub fn delay_with_jitter(&self, attempt: u64, jitter_permille: u64) -> (r: u128)
        requires
            attempt >= 1,
            500 <= jitter_permille < 1500,
        ensures
            r == jittered(capped_backoff(*self, attempt as nat), jitter_permille as nat),
    {
        let cap = self.backoff_ms(attempt) as u128;
        proof {
            assert(cap * (jitter_permille as u128) <= 0xffff_ffff_ffff_ffff * 1500) by (nonlinear_arith)
                requires
                    cap <= 0xffff_ffff_ffff_ffff,
                    jitter_permille < 1500,
            ;
        }
        cap * (jitter_permille as u128)
    }
}

impl RetryRun {
    /// A run about to make its first call.
    pub fn start(policy: RetryPolicy) -> (r: RetryRun)
        ensures
            r.policy == policy,
            r.attempt == 1,
    {
        RetryRun { policy, attempt: 1 }
    }

    /// Records the outcome of the current call, with a given jitter for the
    /// wait that may follow.
    pub fn record_with_jitter(&mut self, succeeded: bool, jitter_permille: u64) -> (r: RetryStep)
        requires
            old(self).attempt >= 1,
            500 <= jitter_permille < 1500,
        ensures
            (*final(self), r) == next_step(*old(self), succeeded, jitter_permille as nat),
    {
        if succeeded {
            RetryStep::Finished
        } else if self.attempt >= self.policy.max_attempts {
            RetryStep::GiveUp
        } else {
            let d = self.policy.delay_with_jitter(self.attempt, jitter_permille);
            self.attempt = self.attempt + 1;
            RetryStep::Wait(d)
        }
    }

    /// Records the outcome of the current call; a wait that follows is
    /// scaled by a jitter drawn uniformly from [0.5, 1.5).
    pub fn record(&mut self, succeeded: bool) -> (r: RetryStep)
        requires
            old(self).attempt >= 1,
        ensures
            exists|j: nat|
                500 <= j < 1500 && (*final(self), r) == next_step(*old(self), succeeded, j),
    {
        let j = draw_jitter_permille();
        self.record_with_jitter(succeeded, j)
    }
}

/// An operation that always fails is called exactly `max_attempts` times.
pub proof fn lemma_always_failing_calls(run: RetryRun)
    requires
        1 <= run.attempt <= run.policy.max_attempts,
    ensures
        calls_made(run, |k: nat| false) == run.policy.max_attempts,
    decreases run.policy.max_attempts - run.attempt,
{
    if run.attempt < run.policy.max_attempts {
        lemma_always_failing_calls(next_step(run, false, 1000).0);
    }
}

/// An operation that first succeeds on its second call is called exactly
/// twice, and the wait before that call, in microseconds, lies in
/// [500 * base, 1500 * base) (half to one and a half times the base delay)
/// when the base delay is at most the maximum.
pub proof fn lemma_second_call_succeeds(p: RetryPolicy, jitter_permille: nat)
    requires
        p.max_attempts >= 2,
        500 <= jitter_permille < 1500,
        p.base_delay_ms <= p.max_delay_ms,
    ensures
        calls_made(RetryRun { policy: p, attempt: 1 }, |k: nat| k == 2) == 2,
        next_step(RetryRun { policy: p, attempt: 1 }, false, jitter_permille).1 matches RetryStep::Wait(d)
            && p.base_delay_ms * 500 <= d && (d < p.base_delay_ms * 1500 || p.base_delay_ms == 0),
{
    let start = RetryRun { policy: p, attempt: 1 };
    let second = RetryRun { policy: p, attempt: 2 };
    assert(next_step(start, false, 1000).0 == second);
    assert(calls_made(second, |k: nat| k == 2) == 2);
    let b = p.base_delay_ms as nat;
    assert(capped_backoff(p, 1) == b);
    assert(b * 500 <= b * jitter_permille) by (nonlinear_arith)
        requires 500 <= jitter_permille;
    assert(b * jitter_permille < b * 1500 || b == 0) by (nonlinear_arith)
        requires jitter_permille < 1500;
    assert(b * jitter_permille <= 0xffff_ffff_ffff_ffff * 1500) by (nonlinear_arith)
        requires b <= 0xffff_ffff_ffff_ffff, jitter_permille < 1500;
}

} // verus!
