use vstd::prelude::*;

verus! {

/// Seconds from the first tick to tick number `n` (counting from zero) at
/// interval `d`: ticks are paced by their scheduled times alone.
pub open spec fn tick_offset(d: nat, n: nat) -> nat {
    n * d
}

/// Issues the scheduled times of successive ticks, as offsets in seconds from
/// the first one. Nothing about a poll task reaches it, so how long a task
/// runs cannot move a later tick.
pub struct Ticker {
    period: u64,
    issued: u64,
}

impl Ticker {
    /// Seconds between two ticks.
    pub closed spec fn period(&self) -> nat {
        self.period as nat
    }

    /// How many ticks have been issued.
    pub closed spec fn issued(&self) -> nat {
        self.issued as nat
    }

    /// A ticker that has issued nothing yet.
    pub fn new(period: u64) -> (r: Ticker)
        requires
            period >= 1,
        ensures
            r.period() == period,
            r.issued() == 0,
    {
        Ticker { period, issued: 0 }
    }

    /// The offset of the next tick, and one more tick issued; `None`, with
    /// nothing changed, once that offset or the count no longer fits in a
    /// `u64`.
    pub fn next_offset(&mut self) -> (r: Option<u64>)
        ensures
            final(self).period() == old(self).period(),
            ({
                let t = tick_offset(old(self).period(), old(self).issued());
                if t <= u64::MAX && old(self).issued() < u64::MAX {
                    &&& r == Some(t as u64)
                    &&& final(self).issued() == old(self).issued() + 1
                } else {
                    &&& r is None
                    &&& final(self).issued() == old(self).issued()
                }
            }),
    {
        if self.issued == u64::MAX {
            return None;
        }
        match self.issued.checked_mul(self.period) {
            Some(t) => {
                assert(t == self.issued * self.period);
                self.issued = self.issued + 1;
                Some(t)
            },
            None => None,
        }
    }
}

/// The first tick comes at once, each later one exactly one interval after
/// the previous tick's scheduled time, and the ticks fall on the multiples of
/// the interval and nowhere else: `t` is the time of tick `t / d` when `d`
/// divides it, and of no tick otherwise.
pub proof fn lemma_tick_cadence(d: nat, n: nat, t: nat)
    requires
        d >= 1,
    ensures
        tick_offset(d, 0) == 0,
        tick_offset(d, n + 1) == tick_offset(d, n) + d,
        tick_offset(d, n) % d == 0,
        t % d == 0 ==> tick_offset(d, t / d) == t,
        t % d != 0 ==> forall|k: nat| #[trigger] tick_offset(d, k) != t,
{
    assert((n + 1) * d == n * d + d) by (nonlinear_arith);
    vstd::arithmetic::div_mod::lemma_mod_multiples_basic(n as int, d as int);
    vstd::arithmetic::div_mod::lemma_fundamental_div_mod(t as int, d as int);
    vstd::arithmetic::mul::lemma_mul_is_commutative((t / d) as int, d as int);
    assert forall|k: nat| t % d != 0 implies #[trigger] tick_offset(d, k) != t by {
        vstd::arithmetic::div_mod::lemma_mod_multiples_basic(k as int, d as int);
    }
}

} // verus!
