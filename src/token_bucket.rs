//! The token bucket: tokens accumulate with elapsed time, up to a capacity,
//! and each admitted operation spends some of them.
use std::time::Instant;
use vstd::prelude::*;

use crate::clock::nanos_since;

verus! {

/// Nanoseconds in one second.
pub const NANOS_PER_SEC: u64 = 1_000_000_000;

/// The abstract state of a bucket. Times are readings of the bucket's
/// monotonic clock, in nanoseconds.
pub ghost struct BucketView {
    /// Tokens added per second.
    pub rate: nat,
    /// Most tokens the bucket may hold.
    pub capacity: nat,
    /// Tokens available now.
    pub tokens: nat,
    /// Clock reading of the last refill.
    pub last_time: nat,
}

/// Whole tokens earned at `rate` tokens per second over `elapsed`
/// nanoseconds: fractions of a token are dropped.
pub open spec fn earned(rate: nat, elapsed: nat) -> nat {
    (elapsed * rate / (NANOS_PER_SEC as nat)) as nat
}

/// Token count a bucket starts with.
pub open spec fn initial_count(capacity: nat, initial_tokens: Option<usize>) -> nat {
    match initial_tokens {
        Some(v) => if v <= capacity { v as nat } else { capacity },
        None => capacity,
    }
}

/// The state after a refill at clock reading `now`. A reading earlier than
/// the last refill changes nothing; otherwise the earned tokens are added,
/// capped at capacity, and `now` becomes the last refill time.
pub open spec fn refilled(b: BucketView, now: nat) -> BucketView {
    if now < b.last_time {
        b
    } else {
        let sum = b.tokens + earned(b.rate, (now - b.last_time) as nat);
        BucketView {
            tokens: if sum <= b.capacity { sum } else { b.capacity },
            last_time: now,
            ..b
        }
    }
}

/// The state after a request for `n` tokens at clock reading `now`: a
/// refill, then the `n` tokens are spent if the bucket holds that many.
pub open spec fn consumed(b: BucketView, n: nat, now: nat) -> BucketView {
    let r = refilled(b, now);
    if n <= r.tokens {
        BucketView { tokens: (r.tokens - n) as nat, ..r }
    } else {
        r
    }
}

/// Whether a request for `n` tokens at clock reading `now` is admitted.
pub open spec fn admits(b: BucketView, n: nat, now: nat) -> bool {
    n <= refilled(b, now).tokens
}

/// A rate limiter that holds up to `capacity` tokens and gains `rate` tokens
/// per second of its monotonic clock.
#[derive(Debug)]
pub struct TokenBucket {
    rate: u32,
    capacity: usize,
    tokens: usize,
    /// Reading of the bucket's clock at the last refill, in nanoseconds.
    last_time: u64,
    /// The instant from which the bucket's clock counts.
    origin: Instant,
}

impl View for TokenBucket {
    type V = BucketView;

    closed spec fn view(&self) -> BucketView {
        BucketView {
            rate: self.rate as nat,
            capacity: self.capacity as nat,
            tokens: self.tokens as nat,
            last_time: self.last_time as nat,
        }
    }
}

impl TokenBucket {
    /// The bucket never holds more tokens than its capacity.
    #[verifier::type_invariant]
    spec fn inv(&self) -> bool {
        self.tokens <= self.capacity
    }

    /// A bucket whose clock starts now, at reading zero. It starts with
    /// `initial_tokens`, capped at `capacity`, or full when none is given.
    pub fn new(rate: u32, capacity: usize, initial_tokens: Option<usize>) -> (b: TokenBucket)
        ensures
            b@.rate == rate,
            b@.capacity == capacity,
            b@.tokens == initial_count(capacity as nat, initial_tokens),
            b@.last_time == 0,
    {
        let origin = Instant::now();
        let tokens = match initial_tokens {
            Some(v) => if v <= capacity { v } else { capacity },
            None => capacity,
        };
        TokenBucket { rate, capacity, tokens, last_time: 0, origin }
    }

    /// Adds the tokens earned since the last refill, as of clock reading
    /// `now` (nanoseconds since the bucket was created), capped at capacity.
    /// A reading earlier than the last refill leaves the bucket unchanged.
    pub fn refill_at(&mut self, now: u64)
        ensures
            final(self)@ == refilled(old(self)@, now as nat),
            final(self)@.tokens <= final(self)@.capacity,
    {
        proof {
            use_type_invariant(&*self);
        }
        if now < self.last_time {
            return;
        }
        let elapsed: u64 = now - self.last_time;
        proof {
            lemma_mul_bound(elapsed as nat, self.rate as nat);
        }
        let product: u128 = elapsed as u128 * self.rate as u128;
        let whole: u128 = product / (NANOS_PER_SEC as u128);
        let to_add: usize = if whole > usize::MAX as u128 {
            usize::MAX
        } else {
            whole as usize
        };
        let sum: usize = self.tokens.saturating_add(to_add);
        self.tokens = if sum <= self.capacity {
            sum
        } else {
            self.capacity
        };
        self.last_time = now;
    }

    /// Asks for `n` tokens at clock reading `now`. The bucket is refilled
    /// first; then, if it holds at least `n` tokens, they are spent and the
    /// request is admitted (`true`); otherwise nothing is spent (`false`).
    /// A request for zero tokens is a caller's error and is not allowed.
    pub fn consume_at(&mut self, n: usize, now: u64) -> (admitted: bool)
        requires
            n > 0,
        ensures
            admitted == admits(old(self)@, n as nat, now as nat),
            final(self)@ == consumed(old(self)@, n as nat, now as nat),
            final(self)@.tokens <= final(self)@.capacity,
    {
        self.refill_at(now);
        proof {
            use_type_invariant(&*self);
        }
        if n <= self.tokens {
            self.tokens = self.tokens - n;
            true
        } else {
            false
        }
    }

    /// Adds the tokens earned since the last refill, as of the clock's
    /// current reading, capped at capacity.
    pub fn refill(&mut self)
        ensures
            exists|now: u64| final(self)@ == refilled(old(self)@, now as nat),
            final(self)@.tokens <= final(self)@.capacity,
    {
        let now = nanos_since(&self.origin);
        self.refill_at(now);
    }

    /// Asks for `n` tokens as of the clock's current reading; see
    /// [`TokenBucket::consume_at`]. A request for zero tokens is a caller's
    /// error and is not allowed.
    pub fn consume(&mut self, n: usize) -> (admitted: bool)
        requires
            n > 0,
        ensures
            exists|now: u64|
                {
                    &&& admitted == admits(old(self)@, n as nat, now as nat)
                    &&& final(self)@ == consumed(old(self)@, n as nat, now as nat)
                },
            final(self)@.tokens <= final(self)@.capacity,
    {
        let now = nanos_since(&self.origin);
        self.consume_at(n, now)
    }

    /// Tokens available, as of the last refill.
    pub fn tokens(&self) -> (r: usize)
        ensures
            r == self@.tokens,
            r <= self@.capacity,
    {
        proof {
            use_type_invariant(self);
        }
        self.tokens
    }

    /// Most tokens the bucket may hold.
    pub fn capacity(&self) -> (r: usize)
        ensures
            r == self@.capacity,
    {
        self.capacity
    }

    /// Tokens added per second.
    pub fn rate(&self) -> (r: u32)
        ensures
            r == self@.rate,
    {
        self.rate
    }

    /// Clock reading of the last refill, in nanoseconds since the bucket was
    /// created.
    pub fn last_refill_time(&self) -> (r: u64)
        ensures
            r == self@.last_time,
    {
        self.last_time
    }
}

/// The product of a reading and a rate fits in 96 bits.
proof fn lemma_mul_bound(elapsed: nat, rate: nat)
    requires
        elapsed <= u64::MAX,
        rate <= u32::MAX,
    ensures
        elapsed * rate <= u64::MAX * u32::MAX,
{
    assert(elapsed * rate <= u64::MAX * u32::MAX) by (nonlinear_arith)
        requires
            elapsed <= u64::MAX,
            rate <= u32::MAX,
    ;
}

} // verus!
