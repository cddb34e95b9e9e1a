use token_bucket::bucket::{TokenBucket, WaitPlan, MAX_WAIT_MS, MICROS_PER_TOKEN};

const TOKEN: u64 = MICROS_PER_TOKEN;

#[test]
fn new_starts_full() {
    let b = TokenBucket::new(10, 5_000, 42);
    assert_eq!(b.capacity, 10);
    assert_eq!(b.micro_tokens, 10 * TOKEN);
    assert_eq!(b.refill_rate_milli, 5_000);
    assert_eq!(b.last_refill_ms, 42);
}

/// Fallible construction accepts exactly the positive parameters and
/// rejects a capacity or rate of zero.
#[test]
fn try_new_rejects_non_positive_parameters() {
    let b = TokenBucket::try_new(10, 5_000, 7).expect("valid parameters were rejected");
    assert_eq!(b.capacity, 10);
    assert_eq!(b.micro_tokens, 10 * TOKEN);
    assert_eq!(b.refill_rate_milli, 5_000);
    assert_eq!(b.last_refill_ms, 7);
    assert!(TokenBucket::try_new(0, 5_000, 7).is_none());
    assert!(TokenBucket::try_new(10, 0, 7).is_none());
    assert!(TokenBucket::try_new(0, 0, 7).is_none());
}

/// Capacity 10, rate 5 tokens/s, bucket starts full: a burst of 10 is
/// granted at once, and with no time elapsed the next request is refused.
#[test]
fn burst_then_refusal_with_no_elapsed_time() {
    let mut b = TokenBucket::new(10, 5_000, 0);
    assert!(b.try_consume(10, 0));
    assert_eq!(b.micro_tokens, 0);
    assert!(!b.try_consume(1, 0));
    assert_eq!(b.micro_tokens, 0);
}

/// Capacity 10, rate 5 tokens/s, bucket empty: after one second exactly
/// five tokens have accrued, so a request for five succeeds and drains them.
#[test]
fn one_second_accrues_five_tokens() {
    let mut b = TokenBucket::new(10, 5_000, 0);
    assert!(b.try_consume(10, 0));
    assert_eq!(b.micro_tokens, 0);
    assert!(b.try_consume(5, 1_000));
    assert_eq!(b.micro_tokens, 0);
}

/// Capacity 10, rate 2 tokens/s, bucket empty: a blocking consumer asking
/// for five tokens is advised to wait a total of exactly 2.5 seconds, in
/// bounded slices, before the step consumes; the bucket is empty afterwards.
#[test]
fn wait_loop_blocks_two_and_a_half_seconds() {
    let mut b = TokenBucket::new(10, 2_000, 0);
    assert!(b.try_consume(10, 0));
    let mut now_ms: u64 = 0;
    let mut rounds: u64 = 0;
    loop {
        match b.consume_with_wait_step(5, now_ms) {
            WaitPlan::Consumed => break,
            WaitPlan::WaitMs(ms) => {
                assert!(1 <= ms && ms <= MAX_WAIT_MS);
                now_ms += ms;
                rounds += 1;
                assert!(rounds <= 10_000, "wait loop failed to terminate");
            }
        }
    }
    assert_eq!(now_ms, 2_500);
    assert_eq!(b.micro_tokens, 0);
}

/// Fifty single-token requests staggered 100 ms apart against a capacity-10,
/// 5 tokens/s bucket: the running success count never exceeds the initial
/// burst plus what the elapsed time has refilled.
#[test]
fn staggered_successes_bounded_by_refill() {
    let mut b = TokenBucket::new(10, 5_000, 0);
    let mut successes: u64 = 0;
    for i in 0..50u64 {
        let now_ms = i * 100;
        if b.try_consume(1, now_ms) {
            successes += 1;
        }
        assert!(successes <= 10 + now_ms * 5 / 1_000);
    }
}

/// Fifty serialized single-token requests at one clock reading against a
/// full capacity-10 bucket: exactly ten succeed, the rest are refused.
#[test]
fn same_instant_drain_grants_exactly_capacity() {
    let mut b = TokenBucket::new(10, 1, 0);
    let mut successes: u32 = 0;
    for _ in 0..50 {
        if b.try_consume(1, 0) {
            successes += 1;
        }
    }
    assert_eq!(successes, 10);
    assert_eq!(b.micro_tokens, 0);
}

/// A refill with no consumption adds exactly elapsed * rate, until the
/// capacity clamps it; a refused request applies only that refill.
#[test]
fn refill_is_exact_then_clamped() {
    let mut b = TokenBucket::new(10, 5_000, 0);
    assert!(b.try_consume(10, 0));
    // 300 ms at 5 tokens/s accrues 1.5 tokens: not enough for 2.
    assert!(!b.try_consume(2, 300));
    assert_eq!(b.micro_tokens, 1_500_000);
    assert_eq!(b.last_refill_ms, 300);
    // A long idle period refills only up to the capacity ceiling.
    assert!(!b.try_consume(11, 1_000_000));
    assert_eq!(b.micro_tokens, 10 * TOKEN);
}

/// A granted request deducts exactly the requested amount from the
/// refilled balance.
#[test]
fn success_deducts_exactly_amount() {
    let mut b = TokenBucket::new(10, 5_000, 0);
    assert!(b.try_consume(3, 0));
    assert_eq!(b.micro_tokens, 7 * TOKEN);
    // 200 ms accrues one token: 8 available, consume 2, leaving 6.
    assert!(b.try_consume(2, 200));
    assert_eq!(b.micro_tokens, 6 * TOKEN);
}

/// A request for zero tokens always succeeds and changes nothing beyond
/// the refill.
#[test]
fn zero_amount_always_granted() {
    let mut b = TokenBucket::new(10, 5_000, 0);
    assert!(b.try_consume(10, 0));
    assert!(b.try_consume(0, 0));
    assert_eq!(b.micro_tokens, 0);
}

/// The advised wait is the missing tokens over the rate, rounded up and
/// capped: 5 missing tokens at 2 tokens/s would be 2500 ms, capped to 100;
/// 1 missing token at 100 tokens/s is exactly 10 ms.
#[test]
fn wait_hint_is_ceiling_of_need_over_rate_capped() {
    let mut capped = TokenBucket::new(10, 2_000, 0);
    assert!(capped.try_consume(10, 0));
    assert_eq!(capped.consume_with_wait_step(5, 0), WaitPlan::WaitMs(100));

    let mut exact = TokenBucket::new(10, 100_000, 0);
    assert!(exact.try_consume(10, 0));
    assert_eq!(exact.consume_with_wait_step(1, 0), WaitPlan::WaitMs(10));

    // 5 missing tokens at 300 tokens/s is 16.67.. ms, advised rounded up
    // to 17 so the accrual is not undershot.
    let mut rounded = TokenBucket::new(10, 300_000, 0);
    assert!(rounded.try_consume(10, 0));
    assert_eq!(rounded.consume_with_wait_step(5, 0), WaitPlan::WaitMs(17));

    // 5 missing tokens at 7000 tokens/s is 0.714.. ms, advised as 1: the
    // advice never drops to a busy-spinning zero.
    let mut fine = TokenBucket::new(10, 7_000_000, 0);
    assert!(fine.try_consume(10, 0));
    assert_eq!(fine.consume_with_wait_step(5, 0), WaitPlan::WaitMs(1));
}

/// The step consumes as soon as the balance suffices, without waiting.
#[test]
fn wait_step_consumes_when_available() {
    let mut b = TokenBucket::new(10, 2_000, 0);
    assert_eq!(b.consume_with_wait_step(4, 0), WaitPlan::Consumed);
    assert_eq!(b.micro_tokens, 6 * TOKEN);
}

/// A clock reading earlier than the last refill accrues nothing and does
/// not move the refill point backwards.
#[test]
fn stale_clock_reading_accrues_nothing() {
    let mut b = TokenBucket::new(10, 5_000, 1_000);
    assert!(b.try_consume(10, 1_000));
    assert!(!b.try_consume(1, 400));
    assert_eq!(b.micro_tokens, 0);
    assert_eq!(b.last_refill_ms, 1_000);
    // Time is still measured from the un-rewound refill point.
    assert!(b.try_consume(1, 1_200));
    assert_eq!(b.micro_tokens, 0);
}

/// A request beyond the capacity can never be granted, however long the
/// bucket idles: a blocking consumer of such a request never completes.
#[test]
fn over_capacity_request_never_granted() {
    let mut b = TokenBucket::new(10, 5_000, 0);
    assert!(!b.try_consume(11, 1_000_000_000));
    for i in 0..100u64 {
        match b.consume_with_wait_step(11, 2_000_000_000 + i * 100) {
            WaitPlan::Consumed => panic!("granted more than the capacity"),
            WaitPlan::WaitMs(ms) => assert!(1 <= ms && ms <= MAX_WAIT_MS),
        }
    }
}
