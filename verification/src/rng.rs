//! A small xorshift generator: the only source of chance in the crate.

use vstd::prelude::*;

verus! {

/// What an unseeded generator starts from when there is no clock to read.
pub const FALLBACK_SEED: u64 = 0x9E37_79B9_7F4A_7C15;

/// The value drawn after `x`.
pub open spec fn xorshift(x: u64) -> u64 {
    let a = x ^ (x << 13u64);
    let b = a ^ (a >> 7u64);
    b ^ (b << 17u64)
}

/// `n` with its lowest bit set.
pub open spec fn made_odd(n: u64) -> u64 {
    if n % 2 == 0 {
        (n + 1) as u64
    } else {
        n
    }
}

/// The value that a generator holds when it is resumed from `saved`, where zero stands for a
/// generator that has never been seeded.
pub open spec fn resumed(saved: u64, nanos: Option<u64>) -> u64 {
    if saved != 0 {
        saved
    } else {
        match nanos {
            Some(n) => made_odd(n),
            None => FALLBACK_SEED,
        }
    }
}

/// A seeded generator. Its view is the value drawn last, which is never zero.
pub struct Rng {
    state: u64,
}

impl View for Rng {
    type V = u64;

    closed spec fn view(&self) -> u64 {
        self.state
    }
}

impl Rng {
    #[verifier::type_invariant]
    spec fn seeded(self) -> bool {
        self.state != 0
    }

    /// Carries on from `saved`, a value that `save` gave, or seeds a new generator when `saved` is
    /// zero: from the clock reading `nanos`, made odd, or from a fixed value without one.
    pub fn resume(saved: u64, nanos: Option<u64>) -> (rng: Rng)
        ensures
            rng@ == resumed(saved, nanos),
    {
        let state: u64 = if saved != 0 {
            saved
        } else {
            match nanos {
                Some(n) => {
                    assert(n | 1 == if n % 2 == 0 { (n + 1) as u64 } else { n }) by (bit_vector);
                    n | 1
                },
                None => FALLBACK_SEED,
            }
        };
        assert(state != 0);
        Rng { state }
    }

    /// The value to resume from.
    pub fn save(&self) -> (saved: u64)
        ensures
            saved == self@,
            saved != 0,
    {
        proof {
            use_type_invariant(self);
        }
        self.state
    }
}

/// Draws the next value.
pub fn rng_next(rng: &mut Rng) -> (drawn: u64)
    ensures
        drawn == xorshift(old(rng)@),
        final(rng)@ == drawn,
        drawn != 0,
{
    proof {
        use_type_invariant(&*rng);
        law_draws_are_never_zero(rng@);
    }
    let mut x: u64 = rng.state;
    x = x ^ (x << 13);
    x = x ^ (x >> 7);
    x = x ^ (x << 17);
    rng.state = x;
    x
}

/// Seeded once, a generator stays seeded: no nonzero value is followed by zero.
pub proof fn law_draws_are_never_zero(x: u64)
    requires
        x != 0,
    ensures
        xorshift(x) != 0,
{
    assert(({
        let a = x ^ (x << 13u64);
        let b = a ^ (a >> 7u64);
        b ^ (b << 17u64)
    }) != 0) by (bit_vector)
        requires
            x != 0,
    ;
}

/// Two generators that draw the same value held the same value before: no two histories merge.
pub proof fn law_draws_do_not_merge(x: u64, y: u64)
    requires
        xorshift(x) == xorshift(y),
    ensures
        x == y,
{
    let a = x ^ (x << 13u64);
    let b = a ^ (a >> 7u64);
    let c = y ^ (y << 13u64);
    let d = c ^ (c >> 7u64);
    assert(b == d) by (bit_vector)
        requires
            b ^ (b << 17u64) == d ^ (d << 17u64),
    ;
    assert(a == c) by (bit_vector)
        requires
            a ^ (a >> 7u64) == c ^ (c >> 7u64),
    ;
    assert(x == y) by (bit_vector)
        requires
            x ^ (x << 13u64) == y ^ (y << 13u64),
    ;
}

/// A saved generator carries on as it was. A new one starts from the clock, from the next odd number
/// where the reading is even, and without a clock from a fixed seed.
pub proof fn law_generators_start_where_they_should(saved: u64, n: u64)
    ensures
        saved != 0 ==> resumed(saved, Some(n)) == saved && resumed(saved, None) == saved,
        n % 2 == 1 ==> resumed(0, Some(n)) == n,
        n % 2 == 0 ==> resumed(0, Some(n)) == n + 1,
        resumed(0, None) == 0x9E37_79B9_7F4A_7C15,
{
}

/// A draw is a matter of single bits: the draw of a sum is the sum of the draws, bit by bit.
pub proof fn law_draws_add_up(x: u64, y: u64)
    ensures
        xorshift(x ^ y) == xorshift(x) ^ xorshift(y),
{
    assert(({
        let a = (x ^ y) ^ ((x ^ y) << 13u64);
        let b = a ^ (a >> 7u64);
        b ^ (b << 17u64)
    }) == ({
        let a = x ^ (x << 13u64);
        let b = a ^ (a >> 7u64);
        b ^ (b << 17u64)
    }) ^ ({
        let a = y ^ (y << 13u64);
        let b = a ^ (a >> 7u64);
        b ^ (b << 17u64)
    })) by (bit_vector);
}

/// The lowest seventeen bits of a draw hold what the first two shifts made of the state.
pub proof fn law_draws_mix_the_state(x: u64)
    ensures
        ({
            let a = x ^ (x << 13u64);
            &&& xorshift(x) % 0x2_0000 == (a ^ (a >> 7u64)) % 0x2_0000
            &&& xorshift(x) >> 17u64 == ((a ^ (a >> 7u64)) >> 17u64) ^ ((a ^ (a >> 7u64))
                % 0x8000_0000_0000)
            &&& a % 0x2000 == x % 0x2000
            &&& a >> 13u64 == (x >> 13u64) ^ (x % 0x8_0000_0000_0000)
        }),
{
    let a = x ^ (x << 13u64);
    let b = a ^ (a >> 7u64);
    assert(a % 0x2000 == x % 0x2000 && a >> 13u64 == (x >> 13u64) ^ (x % 0x8_0000_0000_0000))
        by (bit_vector)
        requires
            a == x ^ (x << 13u64),
    ;
    assert((b ^ (b << 17u64)) % 0x2_0000 == b % 0x2_0000 && (b ^ (b << 17u64)) >> 17u64 == (b
        >> 17u64) ^ (b % 0x8000_0000_0000)) by (bit_vector);
}

} // verus!
