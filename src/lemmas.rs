//! Facts about series of refills.
use vstd::prelude::*;

use crate::token_bucket::{earned, refilled, BucketView, NANOS_PER_SEC};

verus! {

/// The state after refills at each reading of `times`, in order.
pub open spec fn refilled_all(b: BucketView, times: Seq<nat>) -> BucketView
    decreases times.len(),
{
    if times.len() == 0 {
        b
    } else {
        refilled(refilled_all(b, times.drop_last()), times.last())
    }
}

/// A refill never lowers the token count nor raises it past capacity, and a
/// full bucket stays full.
pub proof fn lemma_refill_never_lowers(b: BucketView, now: nat)
    requires
        b.tokens <= b.capacity,
    ensures
        b.tokens <= refilled(b, now).tokens <= b.capacity,
        refilled(b, now).capacity == b.capacity,
        refilled(b, now).rate == b.rate,
        b.tokens == b.capacity ==> refilled(b, now).tokens == b.capacity,
{
}

/// Over any series of refills, the token count never goes down from one
/// refill to a later one, and once the bucket is full it stays full.
pub proof fn lemma_refills_never_lower(b: BucketView, times: Seq<nat>, i: int, j: int)
    requires
        b.tokens <= b.capacity,
        0 <= i <= j <= times.len(),
    ensures
        refilled_all(b, times.take(i)).tokens <= refilled_all(b, times.take(j)).tokens,
        refilled_all(b, times.take(j)).tokens <= b.capacity,
        refilled_all(b, times.take(i)).tokens == b.capacity ==> refilled_all(
            b,
            times.take(j),
        ).tokens == b.capacity,
    decreases j - i,
{
    if i < j {
        lemma_refills_never_lower(b, times, i, j - 1);
        assert(times.take(j).drop_last() =~= times.take(j - 1));
        lemma_refills_keep_limits(b, times.take(j - 1));
        lemma_refill_never_lowers(refilled_all(b, times.take(j - 1)), times[j - 1]);
    } else {
        lemma_refills_keep_limits(b, times.take(j));
    }
}

/// Refills keep the rate and the capacity, and stay within capacity.
proof fn lemma_refills_keep_limits(b: BucketView, times: Seq<nat>)
    requires
        b.tokens <= b.capacity,
    ensures
        refilled_all(b, times).tokens <= b.capacity,
        refilled_all(b, times).capacity == b.capacity,
        refilled_all(b, times).rate == b.rate,
    decreases times.len(),
{
    if times.len() > 0 {
        lemma_refills_keep_limits(b, times.drop_last());
        lemma_refill_never_lowers(refilled_all(b, times.drop_last()), times.last());
    }
}

/// At least one whole token is earned over `elapsed` nanoseconds when
/// `elapsed * rate` reaches a second's worth.
proof fn lemma_earns_a_token(rate: nat, elapsed: nat)
    requires
        elapsed * rate >= NANOS_PER_SEC,
    ensures
        earned(rate, elapsed) >= 1,
{
}

/// Two refills in a row, each a whole token's time after the one before,
/// each add tokens to a bucket that is not yet full.
pub proof fn lemma_refills_accumulate(b: BucketView, t1: nat, t2: nat)
    requires
        b.tokens < b.capacity,
        b.last_time <= t1 <= t2,
        (t1 - b.last_time) * b.rate >= NANOS_PER_SEC,
        (t2 - t1) * b.rate >= NANOS_PER_SEC,
    ensures
        refilled(b, t1).tokens > b.tokens,
        refilled(b, t1).tokens < b.capacity ==> refilled(refilled(b, t1), t2).tokens > refilled(
            b,
            t1,
        ).tokens,
{
    lemma_earns_a_token(b.rate, (t1 - b.last_time) as nat);
    lemma_earns_a_token(b.rate, (t2 - t1) as nat);
}

} // verus!
