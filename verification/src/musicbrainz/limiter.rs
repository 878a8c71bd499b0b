//! The request limiter: at most one request per fixed interval.
//!
//! The limiter keeps a single cursor, the instant of the last request it let
//! through. It holds no queue and no stock of permits: a caller that comes
//! after a long pause is let through once, not several times.
//!
//! Instants and intervals are nanoseconds on a monotonic clock whose origin
//! the caller chooses.

use vstd::prelude::*;

verus! {

/// The default spacing between two requests: one second.
pub const RATE_LIMIT_INTERVAL: u64 = 1_000_000_000;

/// What a limiter is, mathematically: its spacing and the instant of the
/// last request it let through, if there was one.
pub struct LimiterModel {
    pub interval: nat,
    pub last_request: Option<nat>,
}

impl LimiterModel {
    /// The time from `last` to `now`. A clock reading that lies before
    /// `last` counts as no time at all.
    pub open spec fn elapsed(last: nat, now: nat) -> nat {
        if now >= last {
            (now - last) as nat
        } else {
            0
        }
    }

    /// How long a caller that arrives at `now` has to stay out.
    pub open spec fn wait(self, now: nat) -> nat {
        match self.last_request {
            None => 0,
            Some(last) => if Self::elapsed(last, now) < self.interval {
                (self.interval - Self::elapsed(last, now)) as nat
            } else {
                0
            },
        }
    }

    /// The limiter is idle at `now`: nothing went through during the last
    /// interval.
    pub open spec fn idle(self, now: nat) -> bool {
        match self.last_request {
            None => true,
            Some(last) => Self::elapsed(last, now) >= self.interval,
        }
    }

    /// The limiter after a caller asked at `now`: an idle limiter moves its
    /// cursor to `now`, a busy one stays as it is.
    pub open spec fn after(self, now: nat) -> LimiterModel {
        if self.idle(now) {
            LimiterModel { interval: self.interval, last_request: Some(now) }
        } else {
            self
        }
    }

    /// The instants at which the limiter lets a request through, in order,
    /// when callers ask at `arrivals` one after the other.
    pub open spec fn grants(self, arrivals: Seq<nat>) -> Seq<nat>
        decreases arrivals.len(),
    {
        if arrivals.len() == 0 {
            Seq::empty()
        } else {
            let rest = self.after(arrivals[0]).grants(arrivals.drop_first());
            if self.idle(arrivals[0]) {
                seq![arrivals[0]] + rest
            } else {
                rest
            }
        }
    }

    /// A limiter is idle exactly when nobody has to wait.
    pub proof fn lemma_idle_iff_no_wait(self, now: nat)
        ensures
            self.idle(now) <==> self.wait(now) == 0,
    {
    }

    /// Whoever is told to wait is let through once the wait is over: after
    /// `wait(now)` or more, the limiter is idle.
    pub proof fn lemma_idle_after_wait(self, now: nat, later: nat)
        requires
            later >= now + self.wait(now),
            self.last_request matches Some(last) ==> now >= last,
        ensures
            self.idle(later),
    {
    }

    /// Every grant lies at least one interval after the request that went
    /// through before this run, and two grants in a row lie at least one
    /// interval apart.
    pub proof fn lemma_grants_step(self, arrivals: Seq<nat>)
        requires
            self.interval > 0,
        ensures
            self.last_request matches Some(last) ==> forall|k: int|
                0 <= k < self.grants(arrivals).len() ==> #[trigger] self.grants(arrivals)[k] >= last
                    + self.interval,
            forall|k: int|
                0 <= k && k + 1 < self.grants(arrivals).len() ==> self.grants(arrivals)[k + 1]
                    >= #[trigger] self.grants(arrivals)[k] + self.interval,
        decreases arrivals.len(),
    {
        if arrivals.len() > 0 {
            let next = self.after(arrivals[0]);
            let rest = next.grants(arrivals.drop_first());
            next.lemma_grants_step(arrivals.drop_first());
            if self.idle(arrivals[0]) {
                let all = self.grants(arrivals);
                assert(all == seq![arrivals[0]] + rest);
                assert forall|k: int| 0 <= k && k + 1 < all.len() implies all[k + 1] >= #[trigger] all[k]
                    + self.interval by {
                    if k > 0 {
                        assert(all[k] == rest[k - 1]);
                        assert(all[k + 1] == rest[k]);
                    } else {
                        assert(all[1] == rest[0]);
                    }
                }
                if let Some(last) = self.last_request {
                    assert forall|k: int| 0 <= k < all.len() implies #[trigger] all[k] >= last
                        + self.interval by {
                        if k > 0 {
                            assert(all[k] == rest[k - 1]);
                        }
                    }
                }
            }
        }
    }

    /// The clock readings never go back.
    pub open spec fn ordered(arrivals: Seq<nat>) -> bool {
        forall|a: int, b: int| 0 <= a <= b < arrivals.len() ==> arrivals[a] <= arrivals[b]
    }

    /// A limiter without spacing lets every request through.
    pub proof fn lemma_grants_all_without_spacing(self, arrivals: Seq<nat>)
        requires
            self.interval == 0,
        ensures
            self.grants(arrivals) == arrivals,
        decreases arrivals.len(),
    {
        if arrivals.len() > 0 {
            self.after(arrivals[0]).lemma_grants_all_without_spacing(arrivals.drop_first());
            assert(seq![arrivals[0]] + arrivals.drop_first() =~= arrivals);
        } else {
            assert(arrivals =~= Seq::empty());
        }
    }

    /// The spacing law. The `j`-th grant lies at least `j - i` intervals
    /// after the `i`-th: with a positive interval whatever the callers'
    /// clock readings, without spacing as long as the readings never go
    /// back.
    pub proof fn lemma_spacing(self, arrivals: Seq<nat>, i: int, j: int)
        requires
            self.interval > 0 || Self::ordered(arrivals),
            0 <= i <= j < self.grants(arrivals).len(),
        ensures
            self.grants(arrivals)[j] - self.grants(arrivals)[i] >= (j - i) * self.interval,
        decreases j - i,
    {
        if self.interval == 0 {
            self.lemma_grants_all_without_spacing(arrivals);
            assert((j - i) * self.interval == 0) by (nonlinear_arith)
                requires
                    self.interval == 0,
            ;
        } else if i < j {
            self.lemma_spacing(arrivals, i, j - 1);
            self.lemma_grants_step(arrivals);
            assert(self.grants(arrivals)[(j - 1) + 1] >= self.grants(arrivals)[j - 1]
                + self.interval);
            assert((j - i) * self.interval == (j - 1 - i) * self.interval + self.interval)
                by (nonlinear_arith);
        } else {
            assert((j - i) * self.interval == 0) by (nonlinear_arith)
                requires
                    j - i == 0,
            ;
        }
    }

    /// The span of a burst. When `n` requests went through, the last left
    /// at least `n - 1` intervals after the first: with a positive interval
    /// whatever the callers' clock readings, without spacing as long as the
    /// readings never go back.
    pub proof fn lemma_burst_span(self, arrivals: Seq<nat>)
        requires
            self.interval > 0 || Self::ordered(arrivals),
            self.grants(arrivals).len() > 0,
        ensures
            self.grants(arrivals).last() - self.grants(arrivals).first() >= (self.grants(
                arrivals,
            ).len() - 1) * self.interval,
    {
        self.lemma_spacing(arrivals, 0, self.grants(arrivals).len() - 1);
    }
}

/// The answer of the limiter to a caller.
#[derive(Debug, Clone, Copy, PartialEq, Eq, Structural)]
pub enum Admission {
    /// The request may leave now; the limiter has recorded the instant.
    Granted,
    /// The caller has to stay out for this many nanoseconds and ask again.
    Wait(u64),
}

/// The request limiter.
#[derive(Debug, Clone)]
pub struct RateLimiter {
    interval: u64,
    last_request: Option<u64>,
}

impl View for RateLimiter {
    type V = LimiterModel;

    closed spec fn view(&self) -> LimiterModel {
        LimiterModel {
            interval: self.interval as nat,
            last_request: match self.last_request {
                None => None,
                Some(last) => Some(last as nat),
            },
        }
    }
}

impl RateLimiter {
    /// A limiter with the default spacing that has let nothing through yet.
    pub fn new() -> (limiter: Self)
        ensures
            limiter@ == (LimiterModel { interval: RATE_LIMIT_INTERVAL as nat, last_request: None }),
    {
        RateLimiter { interval: RATE_LIMIT_INTERVAL, last_request: None }
    }

    /// A limiter with a spacing of `interval` nanoseconds that has let nothing
    /// through yet.
    pub fn with_interval(interval: u64) -> (limiter: Self)
        ensures
            limiter@ == (LimiterModel { interval: interval as nat, last_request: None }),
    {
        RateLimiter { interval, last_request: None }
    }

    /// The spacing, in nanoseconds.
    pub fn interval(&self) -> (interval: u64)
        ensures
            interval as nat == self@.interval,
    {
        self.interval
    }

    /// The instant of the last request that went through.
    pub fn last_request(&self) -> (last: Option<u64>)
        ensures
            match last {
                None => self@.last_request is None,
                Some(at) => self@.last_request == Some(at as nat),
            },
    {
        self.last_request
    }

    /// How long a caller that arrives at `now` has to stay out; zero when
    /// the limiter is idle.
    pub fn wait_time(&self, now: u64) -> (wait: u64)
        ensures
            wait as nat == self@.wait(now as nat),
    {
        match self.last_request {
            None => 0,
            Some(last) => {
                let elapsed: u64 = if now >= last {
                    now - last
                } else {
                    0
                };
                if elapsed < self.interval {
                    self.interval - elapsed
                } else {
                    0
                }
            },
        }
    }

    /// Asks the limiter at `now`. An idle limiter grants at once and moves its
    /// cursor to `now`; a busy one says how long is left and does not change.
    pub fn acquire(&mut self, now: u64) -> (admission: Admission)
        ensures
            final(self)@ == old(self)@.after(now as nat),
            old(self)@.idle(now as nat) ==> admission == Admission::Granted,
            !old(self)@.idle(now as nat) ==> admission == Admission::Wait(
                old(self)@.wait(now as nat) as u64,
            ),
            admission matches Admission::Wait(wait) ==> wait > 0,
    {
        let wait = self.wait_time(now);
        proof {
            self@.lemma_idle_iff_no_wait(now as nat);
        }
        if wait == 0 {
            self.last_request = Some(now);
            Admission::Granted
        } else {
            Admission::Wait(wait)
        }
    }
}

} // verus!
