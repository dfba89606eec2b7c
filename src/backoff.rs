use vstd::prelude::*;
use vstd::arithmetic::power2::{pow2, lemma_pow2_unfold, lemma_pow2_strictly_increases};
use vstd::arithmetic::power::lemma_pow0;

verus! {

/// Parameters of the exponential backoff used for one platform service.
#[derive(Clone, Copy, Debug, PartialEq, Eq, Structural)]
pub struct BackoffPolicy {
    /// Delay after the first failure has been doubled zero times, in milliseconds.
    pub base_delay_ms: u64,
    /// Number of consecutive failures after which no retry is advised.
    pub max_retries: u32,
    /// Upper bound of the backoff delay, in milliseconds.
    pub max_backoff_ms: u64,
    /// The exponent of the doubling stops growing at this value.
    pub cap_exponent: u32,
}

/// The smaller of two integers.
pub open spec fn min_int(a: int, b: int) -> int {
    if a <= b { a } else { b }
}

/// The backoff delay after `k` consecutive failures:
/// `base * 2^min(k, cap)`, clamped to the maximum backoff.
pub open spec fn backoff_after(p: BackoffPolicy, k: nat) -> int {
    min_int(p.base_delay_ms * pow2(min_int(k as int, p.cap_exponent as int) as nat), p.max_backoff_ms as int)
}

/// Whether another attempt is advised with `k` consecutive failures and the
/// given current delay.
pub open spec fn retry_advised(p: BackoffPolicy, k: nat, backoff_ms: int) -> bool {
    k < p.max_retries && backoff_ms < p.max_backoff_ms
}

impl BackoffPolicy {
    pub open spec fn bluetooth_spec() -> BackoffPolicy {
        BackoffPolicy { base_delay_ms: 100, max_retries: 3, max_backoff_ms: 30_000, cap_exponent: 10 }
    }

    /// The policy of the Bluetooth service: 100 ms base, three retries,
    /// thirty seconds at most, doubling stops at the tenth failure.
    pub fn bluetooth() -> (r: BackoffPolicy)
        ensures
            r == Self::bluetooth_spec(),
            r.base_delay_ms == 100,
            r.max_retries == 3,
            r.max_backoff_ms == 30_000,
            r.cap_exponent == 10,
    {
        BackoffPolicy { base_delay_ms: 100, max_retries: 3, max_backoff_ms: 30_000, cap_exponent: 10 }
    }

    /// `min(base * 2^min(k, cap), max)`, computed without overflow.
    pub fn backoff_for(&self, k: u32) -> (r: u64)
        ensures
            r == backoff_after(*self, k as nat),
    {
        let e: u32 = if k <= self.cap_exponent { k } else { self.cap_exponent };
        let max = self.max_backoff_ms;
        let mut d: u64 = if self.base_delay_ms <= max { self.base_delay_ms } else { max };
        let mut i: u32 = 0;
        proof {
            lemma_pow0(2);
            assert(pow2(0) == 1);
            assert(self.base_delay_ms * pow2(0) == self.base_delay_ms);
        }
        while i < e && d < max
            invariant
                i <= e,
                e == min_int(k as int, self.cap_exponent as int),
                max == self.max_backoff_ms,
                d == min_int(self.base_delay_ms * pow2(i as nat), max as int),
            decreases e - i,
        {
            proof {
                lemma_pow2_unfold((i + 1) as nat);
                let b = self.base_delay_ms as int;
                let p = pow2(i as nat) as int;
                assert(b * pow2((i + 1) as nat) == 2 * (b * p)) by (nonlinear_arith)
                    requires pow2((i + 1) as nat) == 2 * p;
            }
            if d > max / 2 {
                d = max;
            } else {
                d = d * 2;
            }
            i = i + 1;
        }
        proof {
            if i < e {
                // the delay reached the maximum early; it stays there
                lemma_pow2_strictly_increases(i as nat, e as nat);
                let b = self.base_delay_ms as int;
                let pi = pow2(i as nat) as int;
                let pe = pow2(e as nat) as int;
                assert(b * pi <= b * pe) by (nonlinear_arith)
                    requires pi < pe, b >= 0;
            }
        }
        d
    }

    /// The advice for `k` consecutive failures and the delay `backoff_ms`.
    pub fn advises_retry(&self, k: u32, backoff_ms: u64) -> (r: bool)
        ensures
            r == retry_advised(*self, k as nat, backoff_ms as int),
    {
        k < self.max_retries && backoff_ms < self.max_backoff_ms
    }
}

/// Consecutive-failure bookkeeping for one service: the last error seen,
/// how many failures happened in a row, and the delay advised before the
/// next attempt.
pub struct ErrorRecord<E> {
    pub policy: BackoffPolicy,
    pub last_error: Option<E>,
    pub error_count: u32,
    pub backoff_ms: u64,
}

impl<E> ErrorRecord<E> {
    /// The delay always agrees with the failure count.
    pub open spec fn wf(&self) -> bool {
        self.backoff_ms == backoff_after(self.policy, self.error_count as nat)
    }

    /// A record with no failures: the delay is the base delay (clamped).
    pub fn new(policy: BackoffPolicy) -> (r: ErrorRecord<E>)
        ensures
            r.wf(),
            r.policy == policy,
            r.last_error.is_none(),
            r.error_count == 0,
    {
        let backoff_ms = policy.backoff_for(0);
        ErrorRecord { policy, last_error: None, error_count: 0, backoff_ms }
    }

    /// Records one more failure: it becomes the last error, the count goes up
    /// by one (it stays at the largest `u32`), and the delay is recomputed.
    pub fn record_error(&mut self, error: E)
        requires
            old(self).wf(),
        ensures
            final(self).wf(),
            final(self).policy == old(self).policy,
            final(self).last_error == Some(error),
            final(self).error_count == if old(self).error_count < u32::MAX {
                old(self).error_count + 1
            } else {
                old(self).error_count as int
            },
            final(self).backoff_ms == backoff_after(final(self).policy, final(self).error_count as nat),
    {
        if self.error_count < u32::MAX {
            self.error_count = self.error_count + 1;
        }
        self.backoff_ms = self.policy.backoff_for(self.error_count);
        self.last_error = Some(error);
    }

    /// A success ends the run of failures: the count is back at zero.
    /// The last error is kept for diagnostics.
    pub fn record_success(&mut self)
        requires
            old(self).wf(),
        ensures
            final(self).wf(),
            final(self).policy == old(self).policy,
            final(self).last_error == old(self).last_error,
            final(self).error_count == 0,
    {
        self.error_count = 0;
        self.backoff_ms = self.policy.backoff_for(0);
    }

    /// Whether the policy advises another attempt: fewer failures than the
    /// retry limit and a delay below the maximum.
    pub fn should_retry(&self) -> (r: bool)
        ensures
            r == retry_advised(self.policy, self.error_count as nat, self.backoff_ms as int),
    {
        self.policy.advises_retry(self.error_count, self.backoff_ms)
    }
}

/// The backoff delay never decreases as consecutive failures accumulate.
pub proof fn lemma_backoff_monotone(p: BackoffPolicy, j: nat, k: nat)
    requires
        j <= k,
    ensures
        backoff_after(p, j) <= backoff_after(p, k),
{
    let ej = min_int(j as int, p.cap_exponent as int) as nat;
    let ek = min_int(k as int, p.cap_exponent as int) as nat;
    if ej < ek {
        lemma_pow2_strictly_increases(ej, ek);
        let b = p.base_delay_ms as int;
        let pj = pow2(ej) as int;
        let pk = pow2(ek) as int;
        assert(b * pj <= b * pk) by (nonlinear_arith)
            requires pj < pk, b >= 0;
    }
}

/// Below the maximum and before the exponent stops, every further failure
/// makes the delay strictly longer.
pub proof fn lemma_backoff_grows_until_cap(p: BackoffPolicy, j: nat, k: nat)
    requires
        j < k <= p.cap_exponent,
        p.base_delay_ms > 0,
        p.base_delay_ms * pow2(k) <= p.max_backoff_ms,
    ensures
        backoff_after(p, j) < backoff_after(p, k),
{
    lemma_pow2_strictly_increases(j, k);
    let b = p.base_delay_ms as int;
    let pj = pow2(j) as int;
    let pk = pow2(k) as int;
    assert(b * pj < b * pk) by (nonlinear_arith)
        requires pj < pk, b > 0;
}

} // verus!
