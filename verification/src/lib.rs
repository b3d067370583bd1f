//! A pull-based generator of Fibonacci numbers.
//!
//! A [`FibStream`] holds the two most recent terms of the sequence and hands
//! out one new term per call to [`FibStream::produce_next`]. The generator
//! never ends the sequence on its own: the caller decides when to stop
//! pulling. Once the next term no longer fits in a `u64`, every further pull
//! reports [`FibError::Overflow`] instead of wrapping around.

use vstd::prelude::*;

verus! {

/// The Fibonacci sequence: `fib(0) == 0`, `fib(1) == 1`, and every later
/// term is the sum of the two terms before it.
pub open spec fn fib(n: nat) -> nat
    decreases n,
{
    if n == 0 {
        0
    } else if n == 1 {
        1
    } else {
        fib((n - 2) as nat) + fib((n - 1) as nat)
    }
}

/// The failure a pull can report: the next term does not fit in a `u64`.
#[derive(Clone, Copy, Debug, PartialEq, Eq, Structural)]
pub enum FibError {
    Overflow,
}

/// A pull-based generator of Fibonacci numbers.
///
/// The registers `prev` and `num` always hold two consecutive terms of the
/// sequence: after `k` pulls they are `fib(k)` and `fib(k + 1)`, so the
/// `k`-th pulled value is `fib(k + 1)` (the outputs start `1, 2, 3, 5, 8`).
pub struct FibStream {
    prev: u64,
    num: u64,
    pulls: Ghost<nat>,
}

impl FibStream {
    /// How many values this generator has produced so far.
    pub closed spec fn produced(self) -> nat {
        self.pulls@
    }

    /// The registers hold the pair of consecutive terms that the number of
    /// pulls determines. Every generator satisfies this: it is the type's
    /// invariant, established by `new` and preserved by `produce_next`.
    #[verifier::type_invariant]
    pub closed spec fn wf(self) -> bool {
        &&& self.prev == fib(self.pulls@)
        &&& self.num == fib(self.pulls@ + 1)
    }

    /// Creates a new generator, seeded just before the first output `1`.
    pub fn new() -> (s: FibStream)
        ensures
            s.produced() == 0,
    {
        FibStream { prev: 0, num: 1, pulls: Ghost(0) }
    }

    /// Advances the sequence by one step and returns the new term.
    ///
    /// The `k`-th call on a fresh generator returns `fib(k + 1)`, so the
    /// outputs run `1, 2, 3, 5, 8, ...`. When the next term would exceed
    /// `u64::MAX` the generator reports `Overflow` and stays where it is,
    /// so every later pull reports `Overflow` as well.
    pub fn produce_next(&mut self) -> (r: Result<u64, FibError>)
        ensures
            fib(old(self).produced() + 2) <= u64::MAX ==> final(self).produced()
                == old(self).produced() + 1,
            fib(old(self).produced() + 2) <= u64::MAX ==> r
                == Ok::<u64, FibError>(fib(old(self).produced() + 2) as u64),
            fib(old(self).produced() + 2) > u64::MAX ==> r
                == Err::<u64, FibError>(FibError::Overflow),
            fib(old(self).produced() + 2) > u64::MAX ==> *final(self) == *old(self),
    {
        proof {
            use_type_invariant(&*self);
        }
        if self.prev <= u64::MAX - self.num {
            let next: u64 = self.prev + self.num;
            let ghost k: nat = self.pulls@;
            *self = FibStream { prev: self.num, num: next, pulls: Ghost(k + 1) };
            Ok(next)
        } else {
            Err(FibError::Overflow)
        }
    }
}

/// Every Fibonacci term past the first is at least one.
pub proof fn lemma_fib_positive(n: nat)
    requires
        n >= 1,
    ensures
        fib(n) >= 1,
    decreases n,
{
    if n > 1 {
        lemma_fib_positive((n - 1) as nat);
    }
}

/// The produced values grow strictly: the `k`-th pulled value is
/// `fib(k + 1)`, and from the second pull on it is strictly greater than
/// the pull before it.
pub proof fn lemma_values_strictly_increase(k: nat)
    requires
        k >= 2,
    ensures
        fib(k + 1) > fib(k),
{
    lemma_fib_positive((k - 1) as nat);
    assert(fib(k + 1) == fib((k - 1) as nat) + fib(k));
}

/// The produced values obey the additive recurrence: from the third pull
/// on, the `k`-th pulled value `fib(k + 1)` is the sum of the two pulled
/// just before it.
pub proof fn lemma_values_recurrence(k: nat)
    requires
        k >= 3,
    ensures
        fib(k + 1) == fib(k) + fib((k - 1) as nat),
{
}

/// Two generators that have produced the same number of values are in the
/// same state, so they yield identical sequences from here on: the
/// generator is deterministic.
pub proof fn lemma_deterministic(a: FibStream, b: FibStream)
    requires
        a.wf(),
        b.wf(),
        a.produced() == b.produced(),
    ensures
        a == b,
{
}

} // verus!
