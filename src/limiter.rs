//! A token bucket: a counter of available units, taken one per admitted
//! request and given back one per refill tick, never above the capacity.

use vstd::prelude::*;

verus! {

/// The most units the bucket holds.
pub const CAPACITY: u32 = 5;

/// A token bucket holding between zero and `CAPACITY` units.
pub struct RateLimiter {
    tokens: u32,
}

/// The count after one consume from `c`: one less, unless already empty.
pub open spec fn consumed(c: nat) -> nat {
    if c > 0 {
        (c - 1) as nat
    } else {
        c
    }
}

/// The count after one refill tick from `c`: one more, up to the capacity.
pub open spec fn ticked(c: nat) -> nat {
    if c < CAPACITY {
        c + 1
    } else {
        c
    }
}

/// The count after `n` consumes in a row from `c`.
pub open spec fn after_consumes(c: nat, n: nat) -> nat
    decreases n,
{
    if n == 0 {
        c
    } else {
        consumed(after_consumes(c, (n - 1) as nat))
    }
}

/// How many of `n` consumes in a row from `c` are admitted.
pub open spec fn admitted_among(c: nat, n: nat) -> nat
    decreases n,
{
    if n == 0 {
        0
    } else {
        admitted_among(c, (n - 1) as nat) + if after_consumes(c, (n - 1) as nat) > 0 {
            1nat
        } else {
            0nat
        }
    }
}

/// The smaller of two counts.
pub open spec fn min_nat(a: nat, b: nat) -> nat {
    if a <= b {
        a
    } else {
        b
    }
}

impl View for RateLimiter {
    type V = nat;

    /// The units available.
    closed spec fn view(&self) -> nat {
        self.tokens as nat
    }
}

impl RateLimiter {
    /// The count lies in `0..=CAPACITY`.
    pub open spec fn wf(&self) -> bool {
        self@ <= CAPACITY
    }

    /// A full bucket.
    pub fn new() -> (r: RateLimiter)
        ensures
            r.wf(),
            r@ == CAPACITY,
    {
        RateLimiter { tokens: CAPACITY }
    }

    /// The units available.
    pub fn tokens(&self) -> (r: u32)
        ensures
            r as nat == self@,
    {
        self.tokens
    }

    /// Takes one unit if there is one: `true` when admitted, `false`, with
    /// nothing changed, when the bucket is empty.
    pub fn try_consume(&mut self) -> (r: bool)
        requires
            old(self).wf(),
        ensures
            final(self).wf(),
            r == (old(self)@ > 0),
            final(self)@ == consumed(old(self)@),
    {
        if self.tokens > 0 {
            self.tokens = self.tokens - 1;
            true
        } else {
            false
        }
    }

    /// Gives back one unit, unless the bucket is full.
    pub fn refill_tick(&mut self)
        requires
            old(self).wf(),
        ensures
            final(self).wf(),
            final(self)@ == ticked(old(self)@),
    {
        if self.tokens < CAPACITY {
            self.tokens = self.tokens + 1;
        }
    }

    /// Fills the bucket to capacity at once.
    pub fn force_refill(&mut self)
        ensures
            final(self).wf(),
            final(self)@ == CAPACITY,
    {
        self.tokens = CAPACITY;
    }
}

/// Of `n` consumes in a row on a bucket holding `c` units, exactly
/// `min(c, n)` are admitted and the rest throttled: no unit is handed out
/// twice and none is lost.
pub proof fn lemma_consumes_admit_exactly(c: nat, n: nat)
    ensures
        admitted_among(c, n) == min_nat(c, n),
        after_consumes(c, n) == c - min_nat(c, n),
    decreases n,
{
    if n > 0 {
        lemma_consumes_admit_exactly(c, (n - 1) as nat);
    }
}

/// From a full bucket, five consumes are admitted and a sixth is throttled;
/// one refill tick later one more consume is admitted.
pub proof fn lemma_full_bucket_cycle()
    ensures
        admitted_among(CAPACITY as nat, 5) == 5,
        after_consumes(CAPACITY as nat, 5) == 0,
        ticked(after_consumes(CAPACITY as nat, 5)) > 0,
        consumed(ticked(after_consumes(CAPACITY as nat, 5))) == 0,
{
    lemma_consumes_admit_exactly(CAPACITY as nat, 5);
}

} // verus!
