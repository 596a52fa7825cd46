//! A token bucket over a monotonic clock, kept as a single "horizon" value
//! (the generic cell rate algorithm).
//!
//! A bucket of `burst` tokens that refills `burst` tokens per `period` is
//! described by two numbers: the `interval` between refills of one token,
//! `period / burst`, and the `tolerance`, `(burst - 1) * interval`, by which a
//! request may run ahead of the steady rate. The state is the `horizon`: the
//! time at which the bucket would be full again if nothing more was taken.
//!
//! The bucket never holds more than `burst` tokens, however long it was left
//! alone. The limiter of the `governor` crate answers like this bucket while
//! it is in use, but grants one request more than its burst after an idle
//! spell; the scheduler's rate limit is stated of this bucket.
use vstd::prelude::*;

verus! {

/// What the bucket answers when asked for one token.
#[derive(Clone, Copy, Debug, PartialEq, Eq, Structural)]
pub enum Verdict {
    /// A token was taken.
    Granted,
    /// No token was available; none will be before the given time.
    NotBefore(u64),
}

/// Token-bucket state. All times are nanoseconds on the caller's monotonic clock.
#[derive(Clone, Copy, Debug, PartialEq, Eq, Structural)]
pub struct TokenBucket {
    /// Time that one token takes to come back.
    pub interval: u64,
    /// How far ahead of the steady rate a request may run.
    pub tolerance: u64,
    /// Time at which the bucket is full again if left alone.
    pub horizon: u128,
}

/// The interval between refills of one token: `period / burst`, and never
/// less than one nanosecond, the finest step of the clock. A burst of zero
/// is read as one.
pub open spec fn refill_interval(period: u64, burst: u32) -> nat {
    let share: nat = if burst == 0 {
        period as nat
    } else {
        (period as nat) / (burst as nat)
    };
    if share == 0 {
        1
    } else {
        share
    }
}

/// The tolerance of a bucket: `(burst - 1)` refill intervals.
pub open spec fn burst_tolerance(period: u64, burst: u32) -> nat {
    if burst == 0 {
        0
    } else {
        ((burst - 1) * refill_interval(period, burst)) as nat
    }
}

/// The interval is at least one nanosecond, interval and tolerance together
/// fit the clock, and a bucket of one token has no tolerance and an interval
/// of the whole period.
pub proof fn lemma_tolerance_bounded(period: u64, burst: u32)
    ensures
        refill_interval(period, burst) >= 1,
        burst_tolerance(period, burst) + refill_interval(period, burst) <= u64::MAX,
        burst <= 1 ==> burst_tolerance(period, burst) == 0,
        burst <= 1 ==> refill_interval(period, burst) >= period,
{
    if burst > 0 {
        let b: int = burst as int;
        let p: int = period as int;
        let q: int = p / b;
        assert(q * b <= p) by (nonlinear_arith)
            requires
                b > 0,
                p >= 0,
                q == p / b,
        ;
        assert(q >= 0) by (nonlinear_arith)
            requires
                b > 0,
                p >= 0,
                q == p / b,
        ;
        let t: int = refill_interval(period, burst) as int;
        assert((b - 1) * t + t == t * b) by (nonlinear_arith);
        assert((b - 1) * t >= 0) by (nonlinear_arith)
            requires
                b >= 1,
                t >= 0,
        ;
        if q == 0 {
            assert(t == 1);
            assert(t * b == b) by (nonlinear_arith)
                requires
                    t == 1,
            ;
        } else {
            assert(t == q);
        }
        if burst == 1 {
            assert(p / 1 == p);
            assert((b - 1) * t == 0) by (nonlinear_arith)
                requires
                    b == 1,
            ;
        }
    }
}

impl TokenBucket {
    /// The largest horizon that is ever stored: one past the last horizon at
    /// which any request on a `u64` clock can still be granted.
    pub open spec fn ceiling(self) -> nat {
        (u64::MAX + self.tolerance + 1) as nat
    }

    /// The stored horizon never passes the ceiling.
    pub open spec fn wf(self) -> bool {
        self.horizon <= self.ceiling()
    }

    /// Whether a request at `now` finds a token.
    pub open spec fn grants(self, now: u64) -> bool {
        now + self.tolerance >= self.horizon
    }

    /// The earliest time at which a request can find a token, held to the
    /// clock's range.
    pub open spec fn earliest(self) -> u64 {
        if self.horizon <= self.tolerance {
            0
        } else if self.horizon - self.tolerance > u64::MAX {
            u64::MAX
        } else {
            (self.horizon - self.tolerance) as u64
        }
    }

    /// The bucket after a token was taken at `now`.
    pub open spec fn taken(self, now: u64) -> TokenBucket {
        let base: nat = if self.horizon > now {
            self.horizon as nat
        } else {
            now as nat
        };
        let next: nat = if base + self.interval > self.ceiling() {
            self.ceiling()
        } else {
            (base + self.interval) as nat
        };
        TokenBucket { interval: self.interval, tolerance: self.tolerance, horizon: next as u128 }
    }

    /// What a request at `now` is answered.
    pub open spec fn verdict(self, now: u64) -> Verdict {
        if self.grants(now) {
            Verdict::Granted
        } else {
            Verdict::NotBefore(self.earliest())
        }
    }

    /// The bucket after a request at `now`: a refusal leaves it as it was.
    pub open spec fn after(self, now: u64) -> TokenBucket {
        if self.grants(now) {
            self.taken(now)
        } else {
            self
        }
    }

    /// A full bucket of `burst` tokens that refills `burst` tokens per `period`
    /// nanoseconds. A burst of zero is read as one.
    pub fn new(period: u64, burst: u32) -> (r: TokenBucket)
        ensures
            r.wf(),
            r.interval == refill_interval(period, burst),
            r.tolerance == burst_tolerance(period, burst),
            r.horizon == 0,
    {
        proof {
            lemma_tolerance_bounded(period, burst);
        }
        let share: u64 = if burst == 0 {
            period
        } else {
            period / (burst as u64)
        };
        let interval: u64 = if share == 0 {
            1
        } else {
            share
        };
        if burst == 0 {
            TokenBucket { interval, tolerance: 0, horizon: 0 }
        } else {
            let spare: u64 = (burst - 1) as u64;
            assert(spare * interval == burst_tolerance(period, burst));
            TokenBucket { interval, tolerance: spare * interval, horizon: 0 }
        }
    }

    /// Asks for one token at time `now`.
    ///
    /// A token is granted exactly when `now + tolerance` has reached the
    /// horizon; the horizon then moves one interval past the later of itself
    /// and `now`. A refusal changes nothing and names the earliest time at
    /// which a token can be had.
    pub fn check(&mut self, now: u64) -> (r: Verdict)
        requires
            old(self).wf(),
        ensures
            final(self).wf(),
            r == old(self).verdict(now),
            *final(self) == old(self).after(now),
            r is NotBefore ==> r->NotBefore_0 > now || now == u64::MAX,
    {
        let reach: u128 = now as u128 + self.tolerance as u128;
        if reach >= self.horizon {
            let base: u128 = if self.horizon > now as u128 {
                self.horizon
            } else {
                now as u128
            };
            let top: u128 = u64::MAX as u128 + self.tolerance as u128 + 1;
            let moved: u128 = base + self.interval as u128;
            self.horizon = if moved > top {
                top
            } else {
                moved
            };
            Verdict::Granted
        } else {
            let gap: u128 = self.horizon - self.tolerance as u128;
            if gap > u64::MAX as u128 {
                Verdict::NotBefore(u64::MAX)
            } else {
                Verdict::NotBefore(gap as u64)
            }
        }
    }
}

} // verus!
