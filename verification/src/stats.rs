//! Counters of synchronization attempts.

use vstd::prelude::*;

verus! {

/// How many synchronization attempts were made, and how they ended.
#[derive(Debug, Clone, Copy)]
pub struct SyncStats {
    pub total_attempts: u64,
    pub successful_syncs: u64,
    pub failed_syncs: u64,
}

/// An exact percentage: `whole + remainder / divisor` percent, with
/// `remainder < divisor`.
#[derive(Debug, Clone, Copy, PartialEq, Eq, Structural)]
pub struct Percent {
    pub whole: u128,
    pub remainder: u64,
    pub divisor: u64,
}

impl Percent {
    /// The percentage is `self.scaled() / self.divisor`.
    pub open spec fn scaled(self) -> int {
        self.whole * self.divisor + self.remainder
    }
}

impl Default for SyncStats {
    fn default() -> (r: SyncStats)
        ensures
            r.total_attempts == 0,
            r.successful_syncs == 0,
            r.failed_syncs == 0,
            r.wf(),
    {
        SyncStats { total_attempts: 0, successful_syncs: 0, failed_syncs: 0 }
    }
}

impl SyncStats {
    /// Every attempt either succeeded or failed.
    pub open spec fn wf(self) -> bool {
        self.successful_syncs + self.failed_syncs == self.total_attempts
    }

    /// The counters after one more attempt that ended as `success` says.
    pub open spec fn spec_record(self, success: bool) -> SyncStats {
        SyncStats {
            total_attempts: (self.total_attempts + 1) as u64,
            successful_syncs: if success {
                (self.successful_syncs + 1) as u64
            } else {
                self.successful_syncs
            },
            failed_syncs: if success {
                self.failed_syncs
            } else {
                (self.failed_syncs + 1) as u64
            },
        }
    }

    /// The share of successful attempts as a percentage; zero percent before
    /// the first attempt.
    pub open spec fn spec_success_rate(self) -> Percent {
        if self.total_attempts == 0 {
            Percent { whole: 0, remainder: 0, divisor: 1 }
        } else {
            Percent {
                whole: (100 * self.successful_syncs / (self.total_attempts as int)) as u128,
                remainder: (100 * self.successful_syncs % (self.total_attempts as int)) as u64,
                divisor: self.total_attempts,
            }
        }
    }

    /// The share of successful attempts as an exact percentage; zero percent
    /// before the first attempt.
    pub fn success_rate(&self) -> (r: Percent)
        ensures
            r == self.spec_success_rate(),
            r.remainder < r.divisor,
            self.total_attempts > 0 ==> r.scaled() == 100 * self.successful_syncs,
            self.wf() ==> r.whole <= 100,
    {
        if self.total_attempts == 0 {
            Percent { whole: 0, remainder: 0, divisor: 1 }
        } else {
            let scaled: u128 = 100u128 * (self.successful_syncs as u128);
            let total: u128 = self.total_attempts as u128;
            let whole: u128 = scaled / total;
            let rest: u128 = scaled % total;
            proof {
                lemma_division(scaled as int, total as int, 100);
            }
            Percent { whole, remainder: rest as u64, divisor: self.total_attempts }
        }
    }

    /// Counts one more attempt, ended as `success` says.
    pub fn record(&mut self, success: bool)
        requires
            old(self).wf(),
            old(self).total_attempts < u64::MAX,
        ensures
            *final(self) == old(self).spec_record(success),
            final(self).wf(),
            final(self).total_attempts == old(self).total_attempts + 1,
            final(self).successful_syncs >= old(self).successful_syncs,
            final(self).failed_syncs >= old(self).failed_syncs,
    {
        self.total_attempts = self.total_attempts + 1;
        if success {
            self.successful_syncs = self.successful_syncs + 1;
        } else {
            self.failed_syncs = self.failed_syncs + 1;
        }
    }
}

/// Quotient and remainder of a non-negative number by a positive one put the
/// number together again, and the quotient of a number that is at most `k`
/// times the divisor is at most `k`.
pub proof fn lemma_division(n: int, d: int, k: int)
    requires
        0 <= n,
        0 < d,
    ensures
        (n / d) * d + n % d == n,
        0 <= n % d < d,
        0 <= n / d,
        n <= k * d ==> n / d <= k,
{
    assert((n / d) * d + n % d == n && 0 <= n % d < d && 0 <= n / d) by (nonlinear_arith)
        requires
            0 <= n,
            0 < d,
    ;
    if n <= k * d {
        assert(n / d <= k) by (nonlinear_arith)
            requires
                (n / d) * d + n % d == n,
                0 <= n % d < d,
                0 < d,
                n <= k * d,
        ;
    }
}

} // verus!
