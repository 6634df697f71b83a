use vstd::prelude::*;

verus! {

/// The mathematical model of one leaky-bucket rate limiter: tokens
/// accumulate by `refill_amount` every `refill_interval_ms`, capped at
/// `max`, and an acquisition takes one token, suspending until one is
/// there. Times are milliseconds on a monotonic clock.
pub struct RateLimiterModel {
    pub max: nat,
    pub tokens: nat,
    pub refill_interval_ms: nat,
    pub refill_amount: nat,
    pub next_refill_ms: int,
}

impl RateLimiterModel {
    pub open spec fn wf(&self) -> bool {
        &&& self.max >= 1
        &&& self.refill_interval_ms >= 1
        &&& self.refill_amount >= 1
        &&& self.tokens <= self.max
    }
}

/// A limiter as the client builds it: full, with the first refill one
/// interval away.
pub open spec fn spec_full_bucket(max: nat, interval_ms: nat, t0: int) -> RateLimiterModel {
    RateLimiterModel {
        max,
        tokens: max,
        refill_interval_ms: interval_ms,
        refill_amount: 1,
        next_refill_ms: t0 + interval_ms,
    }
}

/// The limiter at time `now`: every elapsed refill period adds its
/// tokens, up to the cap.
pub open spec fn spec_refilled(s: RateLimiterModel, now: int) -> RateLimiterModel {
    if now >= s.next_refill_ms && s.refill_interval_ms >= 1 {
        let intervals = ((now - s.next_refill_ms) / s.refill_interval_ms as int) + 1;
        let gained = s.tokens + intervals * s.refill_amount;
        RateLimiterModel {
            tokens: if gained <= s.max {
                gained as nat
            } else {
                s.max
            },
            next_refill_ms: s.next_refill_ms + intervals * s.refill_interval_ms,
            ..s
        }
    } else {
        s
    }
}

/// Serve one acquisition that is ready to run at `t`: it completes at
/// `t` when a token is there, else it suspends until the next refill.
pub open spec fn spec_serve(s: RateLimiterModel, t: int) -> (int, RateLimiterModel) {
    let s1 = spec_refilled(s, t);
    if s1.tokens >= 1 {
        (t, RateLimiterModel { tokens: (s1.tokens - 1) as nat, ..s1 })
    } else {
        let s2 = spec_refilled(s1, s1.next_refill_ms);
        if s2.tokens >= 1 {
            (s1.next_refill_ms, RateLimiterModel { tokens: (s2.tokens - 1) as nat, ..s2 })
        } else {
            (s1.next_refill_ms, s2)
        }
    }
}

/// Serve `n` acquisitions that all arrive at `t0`, first come first
/// served, each starting when its predecessor completed: the
/// completion time of the last one and the state it leaves.
pub open spec fn spec_serve_n(s: RateLimiterModel, t0: int, n: nat) -> (int, RateLimiterModel)
    decreases n,
{
    if n == 0 {
        (t0, s)
    } else {
        let prev = spec_serve_n(s, t0, (n - 1) as nat);
        spec_serve(prev.1, prev.0)
    }
}

/// Law: the token count never leaves `[0, max]`: a refill caps at the
/// bound, and serving takes at most what is there.
pub proof fn lemma_serve_preserves_wf(s: RateLimiterModel, t: int)
    requires
        s.wf(),
    ensures
        spec_refilled(s, t).wf(),
        spec_serve(s, t).1.wf(),
{
    if t >= s.next_refill_ms {
        vstd::arithmetic::div_mod::lemma_div_pos_is_pos(
            t - s.next_refill_ms,
            s.refill_interval_ms as int,
        );
        assert(((t - s.next_refill_ms) / (s.refill_interval_ms as int) + 1)
            * (s.refill_amount as int) >= 0) by (nonlinear_arith)
            requires
                (t - s.next_refill_ms) / (s.refill_interval_ms as int) >= 0,
                s.refill_amount >= 1,
        ;
    }
    let s1 = spec_refilled(s, t);
    if s1.tokens < 1 {
        lemma_refilled_wf(s1, s1.next_refill_ms);
    }
}

proof fn lemma_refilled_wf(s: RateLimiterModel, t: int)
    requires
        s.wf(),
    ensures
        spec_refilled(s, t).wf(),
{
    if t >= s.next_refill_ms {
        vstd::arithmetic::div_mod::lemma_div_pos_is_pos(
            t - s.next_refill_ms,
            s.refill_interval_ms as int,
        );
        assert(((t - s.next_refill_ms) / (s.refill_interval_ms as int) + 1)
            * (s.refill_amount as int) >= 0) by (nonlinear_arith)
            requires
                (t - s.next_refill_ms) / (s.refill_interval_ms as int) >= 0,
                s.refill_amount >= 1,
        ;
    }
}

/// The exact shape of a full bucket under a burst: the first `max`
/// acquisitions complete at once, and from then on exactly one leaves
/// per refill period.
proof fn lemma_burst_state(max: nat, interval: nat, t0: int, n: nat)
    requires
        max >= 1,
        interval >= 1,
    ensures
        ({
            let (c, s) = spec_serve_n(spec_full_bucket(max, interval, t0), t0, n);
            &&& s.max == max
            &&& s.refill_interval_ms == interval
            &&& s.refill_amount == 1
            &&& n < max ==> s.tokens == max - n && s.next_refill_ms == t0 + interval && c == t0
            &&& n >= max ==> s.tokens == 0 && s.next_refill_ms == t0 + (n - max + 1) * interval
                && c == t0 + (n - max) * interval
        }),
    decreases n,
{
    let full = spec_full_bucket(max, interval, t0);

    if n == 0 {
        assert((0 - max) * interval == 0 - max * interval) by (nonlinear_arith);
    } else {
        lemma_burst_state(max, interval, t0, (n - 1) as nat);
        let (c0, s0) = spec_serve_n(full, t0, (n - 1) as nat);

        if n - 1 < max {
            assert(c0 == t0 && s0.tokens == max - (n - 1));
            assert(spec_refilled(s0, t0) == s0);
            assert(spec_serve(s0, c0).0 == t0);
            if n >= max {
                assert(n == max);
                assert((n - max + 1) * interval == interval) by (nonlinear_arith)
                    requires
                        n == max,
                ;
                assert((n - max) * interval == 0) by (nonlinear_arith)
                    requires
                        n == max,
                ;
            }
        } else {
            assert(s0.tokens == 0);
            assert(s0.next_refill_ms == t0 + (n - 1 - max + 1) * interval);
            assert(c0 == t0 + (n - 1 - max) * interval);
            assert((n - 1 - max) * interval < (n - 1 - max + 1) * interval) by (nonlinear_arith)
                requires
                    interval >= 1,
            ;
            assert(c0 < s0.next_refill_ms);
            assert(spec_refilled(s0, c0) == s0);

            let next = s0.next_refill_ms;
            let s2 = spec_refilled(s0, next);
            assert((next - next) / (interval as int) == 0) by {
                vstd::arithmetic::div_mod::lemma_basic_div(0, interval as int);
            }
            assert(s2.tokens == 1 && s2.next_refill_ms == next + interval);

            assert(spec_serve(s0, c0).0 == next);
            assert((n - 1 - max + 1) * interval + interval == (n - max + 1) * interval)
                by (nonlinear_arith);
            assert((n - 1 - max + 1) * interval == (n - max) * interval) by (nonlinear_arith);
        }
    }
}

/// Law: a burst against a full limiter is paced from the start. With
/// `max` tokens and one token back per period, the `n`-th of `n`
/// acquisitions that all arrive at `t0` completes exactly
/// `(n - max)` periods after `t0` once the burst outgrows the bucket,
/// and immediately before that.
pub proof fn lemma_burst_completion(max: nat, interval: nat, t0: int, n: nat)
    requires
        max >= 1,
        interval >= 1,
    ensures
        n <= max ==> spec_serve_n(spec_full_bucket(max, interval, t0), t0, n).0 == t0,
        n > max ==> spec_serve_n(spec_full_bucket(max, interval, t0), t0, n).0 == t0 + (n - max)
            * interval,
{
    lemma_burst_state(max, interval, t0, n);

    if n <= max && n >= max {
        assert((n - max) * interval == 0) by (nonlinear_arith)
            requires
                n == max,
        ;
    }
}

/// Law: the map-file limiter admits five per second, one token back
/// every 200 ms, so eleven immediate fetches cannot all go out at
/// once: the eleventh token is handed out exactly 1.2 s after the
/// first five left together.
pub proof fn lemma_map_file_burst_spacing(t0: int)
    ensures
        spec_serve_n(spec_full_bucket(5, 200, t0), t0, 11).0 == t0 + 1200,
{
    lemma_burst_completion(5, 200, t0, 11);
}

} // verus!
