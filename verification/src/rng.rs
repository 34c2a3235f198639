//! Tiny deterministic XorShift pseudo-random generator.

use vstd::prelude::*;

verus! {

/// The seed that replaces a seed of `0`, so the generator never gets stuck.
pub const DEFAULT_SEED: u32 = 0x1234_5678;

/// One step of the 32-bit XorShift (13, 17, 5) recurrence.
pub open spec fn xorshift(x: u32) -> u32 {
    let a = x ^ (x << 13u32);
    let b = a ^ (a >> 17u32);
    b ^ (b << 5u32)
}

/// A non-zero state stays non-zero: zero is the only fixed point of the
/// recurrence and it is never reached from any other state.
pub proof fn law_state_never_zero(x: u32)
    requires
        x != 0,
    ensures
        xorshift(x) != 0,
{
    assert(x != 0 ==> (x ^ (x << 13u32)) != 0) by (bit_vector);
    let a = x ^ (x << 13u32);
    assert(a != 0 ==> (a ^ (a >> 17u32)) != 0) by (bit_vector);
    let b = a ^ (a >> 17u32);
    assert(b != 0 ==> (b ^ (b << 5u32)) != 0) by (bit_vector);
}

/// One call on the generator.
#[derive(Clone, Copy, Debug, PartialEq, Eq, Structural)]
pub enum RngCall {
    /// [`Rng::next`].
    Next,
    /// [`Rng::range`] with this bound.
    Range(u32),
    /// [`Rng::unit_numerator`].
    Unit,
}

/// The state after a call and the value it returns, from the state before.
pub open spec fn call_step(state: u32, call: RngCall) -> (u32, u32) {
    match call {
        RngCall::Next => (xorshift(state), xorshift(state)),
        RngCall::Range(max) => if max == 0 {
            (state, 0)
        } else {
            (xorshift(state), xorshift(state) % max)
        },
        RngCall::Unit => (xorshift(state), xorshift(state) % 10_000),
    }
}

/// The state after a sequence of calls and the values they return, in order.
pub open spec fn draws(state: u32, calls: Seq<RngCall>) -> (u32, Seq<u32>)
    decreases calls.len(),
{
    if calls.len() == 0 {
        (state, Seq::empty())
    } else {
        let before = draws(state, calls.drop_last());
        let step = call_step(before.0, calls.last());
        (step.0, before.1.push(step.1))
    }
}

/// Tiny deterministic XorShift PRNG. Deterministic from the seed; its state
/// is never `0`.
pub struct Rng(u32);

impl Rng {
    #[verifier::type_invariant]
    spec fn state_nonzero(self) -> bool {
        self.0 != 0
    }

    /// The generator's current state.
    pub closed spec fn state(self) -> u32 {
        self.0
    }

    /// The state after a `new` with this seed.
    pub open spec fn seeded(seed: u32) -> u32 {
        if seed == 0 {
            DEFAULT_SEED
        } else {
            seed
        }
    }

    /// Creates a generator; a seed of `0` is replaced by [`DEFAULT_SEED`].
    pub fn new(seed: u32) -> (r: Self)
        ensures
            r.state() == Self::seeded(seed),
    {
        Rng(if seed == 0 { DEFAULT_SEED } else { seed })
    }

    /// Advances the generator and returns the new raw state.
    pub fn next(&mut self) -> (v: u32)
        ensures
            v == xorshift(old(self).state()),
            final(self).state() == v,
            (final(self).state(), v) == call_step(old(self).state(), RngCall::Next),
    {
        proof {
            use_type_invariant(&*self);
            law_state_never_zero(self.0);
        }
        let x = self.0;
        let a = x ^ (x << 13u32);
        let b = a ^ (a >> 17u32);
        let c = b ^ (b << 5u32);
        self.0 = c;
        c
    }

    /// A value in `[0, max)`; returns `0` without advancing when `max == 0`.
    pub fn range(&mut self, max: u32) -> (v: u32)
        ensures
            max == 0 ==> v == 0 && final(self).state() == old(self).state(),
            max != 0 ==> v == xorshift(old(self).state()) % max
                && final(self).state() == xorshift(old(self).state()),
            max != 0 ==> v < max,
            (final(self).state(), v) == call_step(old(self).state(), RngCall::Range(max)),
    {
        if max == 0 {
            0
        } else {
            self.next() % max
        }
    }

    /// The numerator over `10_000` of a uniform fraction in `[0, 1)`:
    /// the next raw value modulo `10_000`.
    pub fn unit_numerator(&mut self) -> (v: u32)
        ensures
            v == xorshift(old(self).state()) % 10_000,
            final(self).state() == xorshift(old(self).state()),
            v < 10_000,
            (final(self).state(), v) == call_step(old(self).state(), RngCall::Unit),
    {
        self.next() % 10_000
    }
}

/// A zero seed behaves exactly like [`DEFAULT_SEED`]: both start from the
/// same state, so they give the same sequence.
pub proof fn law_zero_seed_is_default()
    ensures
        Rng::seeded(0) == Rng::seeded(DEFAULT_SEED),
        Rng::seeded(0) != 0,
{
}

/// Every seed starts the generator in a non-zero state, and equal starting
/// states give equal next values and states: the sequence is a function of
/// the seed.
pub proof fn law_deterministic_from_seed(a: u32, b: u32)
    ensures
        Rng::seeded(a) != 0,
        Rng::seeded(a) == Rng::seeded(b) ==> xorshift(Rng::seeded(a)) == xorshift(Rng::seeded(b)),
        a != 0 ==> Rng::seeded(a) == a,
{
}

/// Whatever sequence of calls two generators receive, generators started
/// from seeds with the same starting state (equal seeds, or zero and
/// [`DEFAULT_SEED`]) return the same values and end in the same state; each
/// further call extends the run by [`call_step`].
pub proof fn law_same_seed_same_draws(a: u32, b: u32, calls: Seq<RngCall>, more: RngCall)
    requires
        Rng::seeded(a) == Rng::seeded(b),
    ensures
        draws(Rng::seeded(a), calls) == draws(Rng::seeded(b), calls),
        draws(Rng::seeded(a), calls).1.len() == calls.len(),
        draws(Rng::seeded(a), calls.push(more)) == ({
            let before = draws(Rng::seeded(a), calls);
            let step = call_step(before.0, more);
            (step.0, before.1.push(step.1))
        }),
{
    lemma_draws_len(Rng::seeded(a), calls);
    assert(calls.push(more).drop_last() =~= calls);
}

/// A run of `n` calls returns `n` values.
proof fn lemma_draws_len(state: u32, calls: Seq<RngCall>)
    ensures
        draws(state, calls).1.len() == calls.len(),
    decreases calls.len(),
{
    if calls.len() > 0 {
        lemma_draws_len(state, calls.drop_last());
    }
}

} // verus!
