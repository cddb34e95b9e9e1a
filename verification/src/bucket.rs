use vstd::math::min;
use vstd::prelude::*;

verus! {

/// Internal micro-token units per whole token. Tokens are tracked in
/// micro-tokens so that the lazy refill arithmetic is exact: a refill rate of
/// `r` milli-tokens per second accrues exactly `r` micro-tokens per
/// millisecond, with no remainder to truncate or carry.
pub const MICROS_PER_TOKEN: u64 = 1_000_000;

/// Longest single wait a `consume_with_wait_step` may advise, in
/// milliseconds. Bounding each suspension keeps a waiter re-checking
/// promptly: a wait computed under stale or contended conditions is
/// re-evaluated rather than overslept.
pub const MAX_WAIT_MS: u64 = 100;

/// What a blocking consumer should do next after one refill-and-check step:
/// either the tokens were deducted and it may proceed, or it should sleep for
/// the advised number of milliseconds and try again.
#[derive(Debug, Clone, Copy, PartialEq, Eq, Structural)]
pub enum WaitPlan {
    /// The requested tokens were available and have been deducted.
    Consumed,
    /// Not enough tokens yet: sleep this many milliseconds, then retry.
    WaitMs(u64),
}

/// The advised wait in milliseconds when `needed_micro` micro-tokens are
/// still missing: the time for them to accrue at `rate_milli` micro-tokens
/// per millisecond, rounded up so the accrual is not undershot, and capped at
/// `MAX_WAIT_MS` to bound any single suspension.
pub open spec fn wait_hint_ms(needed_micro: int, rate_milli: int) -> int
    recommends
        needed_micro > 0,
        rate_milli > 0,
{
    min((MAX_WAIT_MS as int), (needed_micro + rate_milli - 1) / rate_milli)
}

/// A token-bucket rate limiter with a caller-supplied monotonic clock.
///
/// The bucket holds between zero and `capacity` tokens. Tokens accrue
/// continuously at `refill_rate_milli` milli-tokens per second (so a rate of
/// five tokens per second is written `5_000`); accrual beyond the capacity is
/// discarded, never banked. Refill is lazy: it happens at the start of every
/// operation, from the milliseconds elapsed since `last_refill_ms`.
///
/// Every operation takes the current time on a monotonic millisecond clock.
/// The caller owns that clock (for a shared bucket, all callers must use the
/// same one); a stale reading earlier than `last_refill_ms` accrues nothing
/// and does not move the refill point backwards.
#[derive(Debug)]
pub struct TokenBucket {
    /// Maximum whole tokens the bucket can hold; also the largest burst it
    /// can grant at once.
    pub capacity: u32,
    /// Currently available micro-tokens; always at most
    /// `capacity * MICROS_PER_TOKEN`.
    pub micro_tokens: u64,
    /// Milli-tokens added per second of elapsed time, equivalently
    /// micro-tokens added per millisecond.
    pub refill_rate_milli: u64,
    /// Reading of the caller's monotonic clock at the last refill.
    pub last_refill_ms: u64,
}

impl TokenBucket {
    /// The capacity ceiling in micro-tokens.
    pub open spec fn cap_micro(self) -> int {
        (self.capacity as int) * (MICROS_PER_TOKEN as int)
    }

    /// Well-formedness: positive capacity and rate, and the available tokens
    /// never below zero nor above the capacity.
    pub open spec fn wf(self) -> bool {
        &&& self.capacity > 0
        &&& self.refill_rate_milli > 0
        &&& self.micro_tokens as int <= self.cap_micro()
    }

    /// Milliseconds counted by a refill at clock reading `now_ms`: the time
    /// since the last refill, or nothing for a stale reading.
    pub open spec fn elapsed_ms(self, now_ms: u64) -> int {
        if now_ms >= self.last_refill_ms {
            now_ms - self.last_refill_ms
        } else {
            0
        }
    }

    /// Micro-tokens available after a refill at clock reading `now_ms`:
    /// accrual at the refill rate over the elapsed time, capped at the
    /// capacity ceiling.
    pub open spec fn refilled_micro(self, now_ms: u64) -> int {
        min(
            self.cap_micro(),
            self.micro_tokens + self.elapsed_ms(now_ms) * (self.refill_rate_milli as int),
        )
    }

    /// The refill point after an operation at clock reading `now_ms`: it
    /// advances to `now_ms` and never moves backwards.
    pub open spec fn advanced_last_ms(self, now_ms: u64) -> u64 {
        if now_ms >= self.last_refill_ms {
            now_ms
        } else {
            self.last_refill_ms
        }
    }

    /// Creates a full bucket. `capacity` is in whole tokens and must be
    /// positive; `refill_rate_milli` is in milli-tokens per second and must
    /// be positive (a rate of zero would starve every waiter forever).
    /// `now_ms` is the creation time on the caller's monotonic clock.
    pub fn new(capacity: u32, refill_rate_milli: u64, now_ms: u64) -> (bucket: TokenBucket)
        requires
            capacity > 0,
            refill_rate_milli > 0,
        ensures
            bucket.wf(),
            bucket.capacity == capacity,
            bucket.refill_rate_milli == refill_rate_milli,
            bucket.micro_tokens as int == bucket.cap_micro(),
            bucket.last_refill_ms == now_ms,
    {
        TokenBucket {
            capacity,
            micro_tokens: (capacity as u64) * MICROS_PER_TOKEN,
            refill_rate_milli,
            last_refill_ms: now_ms,
        }
    }

    /// Fallible construction for callers whose parameters are not known to
    /// be valid: rejects a non-positive capacity or rate — either would make
    /// a bucket that never grants or never refills — and otherwise builds the
    /// same full bucket as `new`.
    pub fn try_new(capacity: u32, refill_rate_milli: u64, now_ms: u64) -> (result: Option<
        TokenBucket,
    >)
        ensures
            (result is Some) == (capacity > 0 && refill_rate_milli > 0),
            result matches Some(bucket) ==> {
                &&& bucket.wf()
                &&& bucket.capacity == capacity
                &&& bucket.refill_rate_milli == refill_rate_milli
                &&& bucket.micro_tokens as int == bucket.cap_micro()
                &&& bucket.last_refill_ms == now_ms
            },
    {
        if capacity > 0 && refill_rate_milli > 0 {
            Some(TokenBucket::new(capacity, refill_rate_milli, now_ms))
        } else {
            None
        }
    }

    /// Lazy refill: credits the tokens accrued since the last refill, capped
    /// at the capacity, and advances the refill point. Every public operation
    /// starts with this step — there is no background timer, so the passage
    /// of time becomes visible only when an operation touches the bucket.
    fn refill(&mut self, now_ms: u64)
        requires
            old(self).wf(),
        ensures
            final(self).wf(),
            final(self).capacity == old(self).capacity,
            final(self).refill_rate_milli == old(self).refill_rate_milli,
            final(self).micro_tokens as int == old(self).refilled_micro(now_ms),
            final(self).last_refill_ms == old(self).advanced_last_ms(now_ms),
    {
        let elapsed: u64 = if now_ms >= self.last_refill_ms {
            now_ms - self.last_refill_ms
        } else {
            0
        };
        let cap_micro: u64 = (self.capacity as u64) * MICROS_PER_TOKEN;
        proof {
            assert((elapsed as int) * (self.refill_rate_milli as int) <= (u64::MAX as int) * (
            u64::MAX as int)) by (nonlinear_arith)
                requires
                    0 <= elapsed as int <= u64::MAX as int,
                    0 <= self.refill_rate_milli as int <= u64::MAX as int,
            ;
            assert((elapsed as int) * (self.refill_rate_milli as int) >= 0) by (nonlinear_arith)
                requires
                    elapsed as int >= 0,
                    self.refill_rate_milli as int >= 0,
            ;
        }
        let accrued: u128 = (elapsed as u128) * (self.refill_rate_milli as u128);
        let total: u128 = (self.micro_tokens as u128) + accrued;
        self.micro_tokens = if total >= cap_micro as u128 {
            cap_micro
        } else {
            total as u64
        };
        if now_ms >= self.last_refill_ms {
            self.last_refill_ms = now_ms;
        }
    }

    /// Non-blocking consumption: refills, then deducts `amount` whole tokens
    /// if that many are available and reports whether it did. Running out of
    /// tokens is an expected outcome signalled by the result, not a fault;
    /// a refused call changes nothing beyond the refill itself.
    pub fn try_consume(&mut self, amount: u32, now_ms: u64) -> (granted: bool)
        requires
            old(self).wf(),
        ensures
            final(self).wf(),
            final(self).capacity == old(self).capacity,
            final(self).refill_rate_milli == old(self).refill_rate_milli,
            final(self).last_refill_ms == old(self).advanced_last_ms(now_ms),
            granted == (old(self).refilled_micro(now_ms) >= (amount as int) * (
            MICROS_PER_TOKEN as int)),
            granted ==> final(self).micro_tokens as int == old(self).refilled_micro(now_ms) - (
            amount as int) * (MICROS_PER_TOKEN as int),
            !granted ==> final(self).micro_tokens as int == old(self).refilled_micro(now_ms),
    {
        self.refill(now_ms);
        let amount_micro: u64 = (amount as u64) * MICROS_PER_TOKEN;
        if self.micro_tokens >= amount_micro {
            self.micro_tokens = self.micro_tokens - amount_micro;
            true
        } else {
            false
        }
    }

    /// One step of a blocking consumption: refills, deducts `amount` whole
    /// tokens if available, and otherwise advises how long to sleep before
    /// retrying. The caller runs the loop — sleep outside any lock guarding
    /// the bucket, re-read the clock, call again — so that other consumers
    /// can proceed while this one waits. With `amount > capacity` the step
    /// can never consume, faithfully to a blocking consumer that never
    /// returns on such a request.
    pub fn consume_with_wait_step(&mut self, amount: u32, now_ms: u64) -> (plan: WaitPlan)
        requires
            old(self).wf(),
        ensures
            final(self).wf(),
            final(self).capacity == old(self).capacity,
            final(self).refill_rate_milli == old(self).refill_rate_milli,
            final(self).last_refill_ms == old(self).advanced_last_ms(now_ms),
            ({
                let refilled = old(self).refilled_micro(now_ms);
                let want = (amount as int) * (MICROS_PER_TOKEN as int);
                if refilled >= want {
                    plan == WaitPlan::Consumed && final(self).micro_tokens as int == refilled
                        - want
                } else {
                    let hint = wait_hint_ms(want - refilled, old(self).refill_rate_milli as int);
                    &&& plan == WaitPlan::WaitMs(hint as u64)
                    &&& 1 <= hint <= MAX_WAIT_MS
                    &&& final(self).micro_tokens as int == refilled
                }
            }),
    {
        self.refill(now_ms);
        let amount_micro: u64 = (amount as u64) * MICROS_PER_TOKEN;
        if self.micro_tokens >= amount_micro {
            self.micro_tokens = self.micro_tokens - amount_micro;
            WaitPlan::Consumed
        } else {
            let needed: u64 = amount_micro - self.micro_tokens;
            let rate: u64 = self.refill_rate_milli;
            let raw: u128 = ((needed as u128) + (rate as u128) - 1) / (rate as u128);
            proof {
                vstd::arithmetic::div_mod::lemma_div_non_zero(
                    needed as int + rate as int - 1,
                    rate as int,
                );
            }
            let advised: u64 = if raw >= MAX_WAIT_MS as u128 {
                MAX_WAIT_MS
            } else {
                raw as u64
            };
            WaitPlan::WaitMs(advised)
        }
    }
}

/// Invariant: in every well-formed state the available tokens lie between
/// zero and the capacity, and so does the result of any refill.
pub proof fn lemma_tokens_in_range(bucket: TokenBucket, now_ms: u64)
    requires
        bucket.wf(),
    ensures
        0 <= bucket.micro_tokens as int <= bucket.cap_micro(),
        0 <= bucket.refilled_micro(now_ms) <= bucket.cap_micro(),
{
    assert(bucket.elapsed_ms(now_ms) * (bucket.refill_rate_milli as int) >= 0)
        by (nonlinear_arith)
        requires
            bucket.elapsed_ms(now_ms) >= 0,
            bucket.refill_rate_milli as int >= 0,
    ;
}

/// Monotonic refill: when time passes and nothing is consumed, a refill
/// grows the available tokens by exactly the smaller of the accrual over the
/// elapsed time and the headroom left below the capacity.
pub proof fn lemma_monotonic_refill(bucket: TokenBucket, now_ms: u64)
    requires
        bucket.wf(),
    ensures
        bucket.refilled_micro(now_ms) - bucket.micro_tokens as int == min(
            bucket.cap_micro() - bucket.micro_tokens as int,
            bucket.elapsed_ms(now_ms) * (bucket.refill_rate_milli as int),
        ),
{
}

/// Lazy refill loses nothing to intermediate reads: refilling at `mid_ms`
/// and then at `later_ms` leaves exactly what a single refill at `later_ms`
/// would have left.
pub proof fn lemma_refill_compose(bucket: TokenBucket, mid_ms: u64, later_ms: u64)
    requires
        bucket.wf(),
        bucket.last_refill_ms <= mid_ms <= later_ms,
    ensures
        ({
            let stepped = TokenBucket {
                micro_tokens: bucket.refilled_micro(mid_ms) as u64,
                last_refill_ms: mid_ms,
                ..bucket
            };
            stepped.refilled_micro(later_ms) == bucket.refilled_micro(later_ms)
        }),
{
    let r = bucket.refill_rate_milli as int;
    let e1 = mid_ms - bucket.last_refill_ms;
    let e2 = later_ms - mid_ms;
    assert((e1 + e2) * r == e1 * r + e2 * r) by (nonlinear_arith);
    assert(e2 * r >= 0) by (nonlinear_arith)
        requires
            e2 >= 0,
            r >= 0,
    ;
}

/// Wait termination bound: a request for at most the capacity is granted as
/// soon as the elapsed time has accrued the missing tokens — so a waiter that
/// keeps retrying while time advances succeeds within roughly
/// `needed / rate` of when it started, plus the polling granularity.
pub proof fn lemma_wait_termination(bucket: TokenBucket, amount: u32, now_ms: u64)
    requires
        bucket.wf(),
        amount <= bucket.capacity,
        bucket.elapsed_ms(now_ms) * (bucket.refill_rate_milli as int) >= (amount as int) * (
        MICROS_PER_TOKEN as int) - bucket.micro_tokens as int,
    ensures
        bucket.refilled_micro(now_ms) >= (amount as int) * (MICROS_PER_TOKEN as int),
{
    assert((amount as int) * (MICROS_PER_TOKEN as int) <= bucket.cap_micro())
        by (nonlinear_arith)
        requires
            amount as int <= bucket.capacity as int,
            MICROS_PER_TOKEN as int > 0,
    ;
}

/// The advised wait suffices: when the advice is not cut short by the
/// `MAX_WAIT_MS` cap, a waiter that sleeps exactly the advised time (with no
/// competing consumer in between) finds the missing tokens accrued. Together
/// with `lemma_wait_termination` this bounds an uncontended wait loop: each
/// capped round accrues a fixed positive amount, and the final round is
/// advised exactly.
pub proof fn lemma_wait_hint_suffices(bucket: TokenBucket, amount: u32, now_ms: u64)
    requires
        bucket.wf(),
        amount <= bucket.capacity,
        (bucket.micro_tokens as int) < (amount as int) * (MICROS_PER_TOKEN as int),
        bucket.elapsed_ms(now_ms) >= wait_hint_ms(
            (amount as int) * (MICROS_PER_TOKEN as int) - bucket.micro_tokens as int,
            bucket.refill_rate_milli as int,
        ),
        wait_hint_ms(
            (amount as int) * (MICROS_PER_TOKEN as int) - bucket.micro_tokens as int,
            bucket.refill_rate_milli as int,
        ) < MAX_WAIT_MS,
    ensures
        bucket.refilled_micro(now_ms) >= (amount as int) * (MICROS_PER_TOKEN as int),
{
    let rate = bucket.refill_rate_milli as int;
    let needed = (amount as int) * (MICROS_PER_TOKEN as int) - bucket.micro_tokens as int;
    let hint = (needed + rate - 1) / rate;
    let elapsed = bucket.elapsed_ms(now_ms);
    vstd::arithmetic::div_mod::lemma_fundamental_div_mod(needed + rate - 1, rate);
    assert(hint * rate >= needed);
    assert(elapsed * rate >= hint * rate) by (nonlinear_arith)
        requires
            elapsed >= hint,
            rate > 0,
    ;
    lemma_wait_termination(bucket, amount, now_ms);
}

/// How many of `calls` single-token consumptions succeed against
/// `tokens_micro` available micro-tokens when no time passes between them:
/// each success deducts one whole token, each refusal changes nothing.
/// This mirrors a run of serialized `try_consume(1, ..)` calls at one clock
/// reading, the order in which concurrent callers drain a shared bucket
/// through its lock.
pub open spec fn unit_drain_successes(tokens_micro: int, calls: nat) -> nat
    decreases calls,
{
    if calls == 0 {
        0
    } else if tokens_micro >= MICROS_PER_TOKEN {
        (1 + unit_drain_successes(tokens_micro - MICROS_PER_TOKEN, (calls - 1) as nat)) as nat
    } else {
        unit_drain_successes(tokens_micro, (calls - 1) as nat)
    }
}

/// Refill is the identity when no time has passed, so between the calls of a
/// same-instant drain the available tokens change only by what was consumed.
pub proof fn lemma_no_elapsed_no_refill(bucket: TokenBucket, now_ms: u64)
    requires
        bucket.wf(),
        now_ms <= bucket.last_refill_ms,
    ensures
        bucket.refilled_micro(now_ms) == bucket.micro_tokens as int,
{
}

/// Concurrency safety, serialized core: of `calls` single-token consumptions
/// at one clock reading, exactly `min(calls, available whole tokens)` succeed
/// and the rest are refused — no token is granted twice and none is lost.
pub proof fn lemma_unit_drain_count(tokens_micro: int, calls: nat)
    requires
        tokens_micro >= 0,
    ensures
        unit_drain_successes(tokens_micro, calls) == min(
            calls as int,
            tokens_micro / (MICROS_PER_TOKEN as int),
        ),
    decreases calls,
{
    let d = MICROS_PER_TOKEN as int;
    vstd::arithmetic::div_mod::lemma_div_pos_is_pos(tokens_micro, d);
    if calls == 0 {
    } else if tokens_micro >= d {
        lemma_unit_drain_count(tokens_micro - d, (calls - 1) as nat);
        vstd::arithmetic::div_mod::lemma_div_minus_one(tokens_micro, d);
    } else {
        lemma_unit_drain_count(tokens_micro, (calls - 1) as nat);
        vstd::arithmetic::div_mod::lemma_basic_div(tokens_micro, d);
    }
}

} // verus!
