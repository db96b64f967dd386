//! Token-bucket rate accounting: a bounded count of permits, consumed
//! one per outbound request and replenished to capacity once per refill
//! interval. The timer that triggers refills is the caller's; this
//! module owns the token arithmetic and its ceiling.

use vstd::prelude::*;

verus! {

/// The domain quota: at most this many requests per refill interval.
pub const QUOTA_CAPACITY: u64 = 300;

/// Tokens replenished each interval: refill-to-capacity.
pub const QUOTA_REFILL: u64 = 300;

/// The refill interval, in seconds: fifteen minutes.
pub const QUOTA_INTERVAL_SECS: u64 = 900;

/// A token bucket: `tokens` permits left of at most `capacity`. A fresh
/// bucket starts full.
pub struct TokenBucket {
    pub tokens: u64,
    pub capacity: u64,
}

impl TokenBucket {
    /// The token count never exceeds the capacity.
    pub open spec fn wf(self) -> bool {
        self.tokens <= self.capacity
    }

    /// A fresh bucket of the given capacity, starting full.
    pub fn new(capacity: u64) -> (b: Self)
        ensures
            b.capacity == capacity,
            b.tokens == capacity,
            b.wf(),
    {
        TokenBucket { tokens: capacity, capacity }
    }

    /// Consume one token if one is available. A granted request costs
    /// exactly one token; a denied one changes nothing.
    pub fn try_acquire(&mut self) -> (granted: bool)
        ensures
            granted == (old(self).tokens > 0),
            granted ==> final(self).tokens == old(self).tokens - 1,
            !granted ==> final(self).tokens == old(self).tokens,
            final(self).capacity == old(self).capacity,
            old(self).wf() ==> final(self).wf(),
    {
        if self.tokens > 0 {
            self.tokens = self.tokens - 1;
            true
        } else {
            false
        }
    }

    /// One refill interval elapsing: replenish to capacity.
    pub fn refill(&mut self)
        ensures
            final(self).tokens == old(self).capacity,
            final(self).capacity == old(self).capacity,
            final(self).wf(),
    {
        self.tokens = self.capacity;
    }
}

/// How many of `n` successive acquire attempts a bucket holding `tokens`
/// permits grants when no refill comes between them.
pub open spec fn grants(tokens: nat, n: nat) -> nat
    decreases n,
{
    if n == 0 {
        0
    } else if tokens > 0 {
        1 + grants((tokens - 1) as nat, (n - 1) as nat)
    } else {
        grants(tokens, (n - 1) as nat)
    }
}

/// Rate ceiling: however many requests are attempted before the next
/// refill, a bucket holding `tokens` permits grants at most that many,
/// and never more than were attempted. Starting from a full bucket of
/// capacity `c`, at most `c` requests are issued per refill interval.
pub proof fn lemma_grants_bounded(tokens: nat, n: nat)
    ensures
        grants(tokens, n) <= tokens,
        grants(tokens, n) <= n,
    decreases n,
{
    if n > 0 {
        if tokens > 0 {
            lemma_grants_bounded((tokens - 1) as nat, (n - 1) as nat);
        } else {
            lemma_grants_bounded(tokens, (n - 1) as nat);
        }
    }
}

/// The ceiling is exact: the bucket grants every attempt while tokens
/// last, so `n` attempts against `tokens` permits grant `min(tokens, n)`.
pub proof fn lemma_grants_exact(tokens: nat, n: nat)
    ensures
        grants(tokens, n) == if tokens <= n {
            tokens
        } else {
            n
        },
    decreases n,
{
    if n > 0 {
        if tokens > 0 {
            lemma_grants_exact((tokens - 1) as nat, (n - 1) as nat);
        } else {
            lemma_grants_exact(tokens, (n - 1) as nat);
        }
    }
}

} // verus!
