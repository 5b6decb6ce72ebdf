//! Deterministic random streams: a per-scenario seed derived from
//! `(base_seed, age, scenario_id)` and an xorshift64* generator.

use vstd::arithmetic::div_mod::{lemma_mul_mod_noop_left, lemma_mul_mod_noop_right};
use vstd::arithmetic::mul::lemma_mul_is_associative;
use vstd::prelude::*;
use vstd::wrapping::u64_specs::{wrapping_add, wrapping_mul};

verus! {

/// Additive constant of the splitmix64 finaliser.
pub const SPLITMIX_GAMMA: u64 = 0x9E3779B97F4A7C15;

/// First multiplier of the splitmix64 finaliser.
pub const SPLITMIX_MUL_1: u64 = 0xBF58476D1CE4E5B9;

/// Second multiplier of the splitmix64 finaliser.
pub const SPLITMIX_MUL_2: u64 = 0x94D049BB133111EB;

/// Output multiplier of xorshift64*.
pub const XORSHIFT_STAR_MUL: u64 = 0x2545F4914F6CDD1D;

/// State used in place of a zero seed, which would make xorshift stay at zero.
pub const ZERO_SEED_REPLACEMENT: u64 = 0xA5A5_A5A5_A5A5_A5A5;

/// The splitmix64 avalanche function.
pub open spec fn splitmix64_spec(x: u64) -> u64 {
    let x1 = wrapping_add(x, SPLITMIX_GAMMA);
    let z1 = wrapping_mul(x1 ^ (x1 >> 30u64), SPLITMIX_MUL_1);
    let z2 = wrapping_mul(z1 ^ (z1 >> 27u64), SPLITMIX_MUL_2);
    z2 ^ (z2 >> 31u64)
}

/// Age in the upper half, scenario id in the lower half, both xor-ed into the base seed.
pub open spec fn seed_mix(base_seed: u64, age: u32, scenario_id: u32) -> u64 {
    base_seed ^ ((age as u64) << 32u64) ^ (scenario_id as u64)
}

pub open spec fn derive_seed_spec(base_seed: u64, age: u32, scenario_id: u32) -> u64 {
    splitmix64_spec(seed_mix(base_seed, age, scenario_id))
}

/// One xorshift64 state transition.
pub open spec fn xorshift_step(x: u64) -> u64 {
    let a = x ^ (x >> 12u64);
    let b = a ^ (a << 25u64);
    b ^ (b >> 27u64)
}

/// The state a generator starts from, given its seed.
pub open spec fn initial_state(seed: u64) -> u64 {
    if seed == 0 { ZERO_SEED_REPLACEMENT } else { seed }
}

/// The value handed out for a state just reached.
pub open spec fn output_of(state: u64) -> u64 {
    wrapping_mul(state, XORSHIFT_STAR_MUL)
}

/// Mixes a 64-bit value into a well-spread 64-bit value (splitmix64).
pub fn splitmix64(x: u64) -> (r: u64)
    ensures
        r == splitmix64_spec(x),
{
    let x1 = x.wrapping_add(SPLITMIX_GAMMA);
    let mut z = x1;
    z = (z ^ (z >> 30)).wrapping_mul(SPLITMIX_MUL_1);
    z = (z ^ (z >> 27)).wrapping_mul(SPLITMIX_MUL_2);
    z ^ (z >> 31)
}

/// The seed of one scenario, derived purely from the base seed, the reported
/// age and the scenario id.
pub fn derive_seed(base_seed: u64, age: u32, scenario_id: u32) -> (r: u64)
    ensures
        r == derive_seed_spec(base_seed, age, scenario_id),
{
    let mixed = base_seed ^ ((age as u64) << 32) ^ scenario_id as u64;
    splitmix64(mixed)
}

/// The seeds of scenarios `0..simulations` at `reported_age`, in scenario order;
/// no two of them are equal.
pub fn scenario_seeds(base_seed: u64, reported_age: u32, simulations: u32) -> (r: Vec<u64>)
    ensures
        r@.len() == simulations,
        forall|i: int|
            0 <= i < simulations ==> #[trigger] r@[i] == derive_seed_spec(
                base_seed,
                reported_age,
                i as u32,
            ),
        r@.no_duplicates(),
{
    let mut r: Vec<u64> = Vec::new();
    let mut id: u32 = 0;
    while id < simulations
        invariant
            id <= simulations,
            r@.len() == id,
            forall|i: int|
                0 <= i < id ==> #[trigger] r@[i] == derive_seed_spec(base_seed, reported_age, i as u32),
        decreases simulations - id,
    {
        r.push(derive_seed(base_seed, reported_age, id));
        id = id + 1;
    }
    assert forall|i: int, j: int| 0 <= i < r@.len() && 0 <= j < r@.len() && i != j implies r@[i]
        != r@[j] by {
        lemma_derive_seed_distinct(base_seed, reported_age, i as u32, reported_age, j as u32);
    }
    r
}

/// An xorshift64* generator. Its state is never zero.
pub struct Rng {
    state: u64,
}

impl Rng {
    pub closed spec fn state(&self) -> u64 {
        self.state
    }

    pub open spec fn wf(&self) -> bool {
        self.state() != 0
    }

    /// A generator seeded with `seed`; a zero seed is replaced by a fixed non-zero state.
    pub fn new(seed: u64) -> (r: Rng)
        ensures
            r.state() == initial_state(seed),
            r.wf(),
    {
        let state = if seed == 0 { ZERO_SEED_REPLACEMENT } else { seed };
        Rng { state }
    }

    /// The next 64-bit output.
    pub fn next_u64(&mut self) -> (r: u64)
        requires
            old(self).wf(),
        ensures
            final(self).state() == xorshift_step(old(self).state()),
            final(self).wf(),
            r == output_of(final(self).state()),
    {
        let mut x = self.state;
        proof {
            lemma_xorshift_step_nonzero(x);
        }
        x = x ^ (x >> 12);
        x = x ^ (x << 25);
        x = x ^ (x >> 27);
        self.state = x;
        x.wrapping_mul(XORSHIFT_STAR_MUL)
    }

    /// The top 53 bits of the next output: the mantissa of a uniform draw in (0, 1).
    pub fn next_mantissa(&mut self) -> (r: u64)
        requires
            old(self).wf(),
        ensures
            final(self).state() == xorshift_step(old(self).state()),
            final(self).wf(),
            r == output_of(final(self).state()) >> 11u64,
            r < 0x20_0000_0000_0000u64,
    {
        let v = self.next_u64();
        assert(v >> 11u64 < 0x20_0000_0000_0000u64) by (bit_vector);
        v >> 11
    }
}

/// A non-zero state never steps to zero.
pub proof fn lemma_xorshift_step_nonzero(x: u64)
    requires
        x != 0,
    ensures
        xorshift_step(x) != 0,
{
    let a = x ^ (x >> 12u64);
    let b = a ^ (a << 25u64);
    assert(x != 0 ==> x ^ (x >> 12u64) != 0) by (bit_vector);
    assert(a != 0 ==> a ^ (a << 25u64) != 0) by (bit_vector);
    assert(b != 0 ==> b ^ (b >> 27u64) != 0) by (bit_vector);
}

/// Inverse of `SPLITMIX_MUL_1` modulo 2^64.
const SPLITMIX_MUL_1_INV: u64 = 0x96de1b173f119089;

/// Inverse of `SPLITMIX_MUL_2` modulo 2^64.
const SPLITMIX_MUL_2_INV: u64 = 0x319642b2d24d8ec3;

/// Wrapping multiplication by `m` is undone by wrapping multiplication by `inv`
/// when `m * inv` is 1 modulo 2^64.
proof fn lemma_wrapping_mul_cancel(a: u64, m: u64, inv: u64)
    requires
        (m as nat * inv as nat) % 0x1_0000_0000_0000_0000nat == 1,
    ensures
        wrapping_mul(wrapping_mul(a, m), inv) == a,
{
    let w: int = 0x1_0000_0000_0000_0000;
    let am = a as int * m as int;
    lemma_mul_mod_noop_left(am, inv as int, w);
    lemma_mul_is_associative(a as int, m as int, inv as int);
    lemma_mul_mod_noop_right(a as int, m as int * inv as int, w);
    assert((a as int * 1) % w == a as int);
}

proof fn lemma_wrapping_mul_injective(a: u64, b: u64, m: u64, inv: u64)
    requires
        (m as nat * inv as nat) % 0x1_0000_0000_0000_0000nat == 1,
        wrapping_mul(a, m) == wrapping_mul(b, m),
    ensures
        a == b,
{
    lemma_wrapping_mul_cancel(a, m, inv);
    lemma_wrapping_mul_cancel(b, m, inv);
}

/// splitmix64 is a bijection on 64-bit values: different inputs give different outputs.
pub proof fn lemma_splitmix64_injective(x: u64, y: u64)
    requires
        splitmix64_spec(x) == splitmix64_spec(y),
    ensures
        x == y,
{
    assert((SPLITMIX_MUL_1 as nat * SPLITMIX_MUL_1_INV as nat) % 0x1_0000_0000_0000_0000nat == 1)
        by (nonlinear_arith);
    assert((SPLITMIX_MUL_2 as nat * SPLITMIX_MUL_2_INV as nat) % 0x1_0000_0000_0000_0000nat == 1)
        by (nonlinear_arith);
    let x1 = wrapping_add(x, SPLITMIX_GAMMA);
    let y1 = wrapping_add(y, SPLITMIX_GAMMA);
    let xa = x1 ^ (x1 >> 30u64);
    let ya = y1 ^ (y1 >> 30u64);
    let xz1 = wrapping_mul(xa, SPLITMIX_MUL_1);
    let yz1 = wrapping_mul(ya, SPLITMIX_MUL_1);
    let xb = xz1 ^ (xz1 >> 27u64);
    let yb = yz1 ^ (yz1 >> 27u64);
    let xz2 = wrapping_mul(xb, SPLITMIX_MUL_2);
    let yz2 = wrapping_mul(yb, SPLITMIX_MUL_2);
    assert(xz2 ^ (xz2 >> 31u64) == yz2 ^ (yz2 >> 31u64) ==> xz2 == yz2) by (bit_vector);
    lemma_wrapping_mul_injective(xb, yb, SPLITMIX_MUL_2, SPLITMIX_MUL_2_INV);
    assert(xz1 ^ (xz1 >> 27u64) == yz1 ^ (yz1 >> 27u64) ==> xz1 == yz1) by (bit_vector);
    lemma_wrapping_mul_injective(xa, ya, SPLITMIX_MUL_1, SPLITMIX_MUL_1_INV);
    assert(x1 ^ (x1 >> 30u64) == y1 ^ (y1 >> 30u64) ==> x1 == y1) by (bit_vector);
}

/// Scenarios of one base seed that differ in age or in scenario id get different seeds.
pub proof fn lemma_derive_seed_distinct(base_seed: u64, age1: u32, id1: u32, age2: u32, id2: u32)
    requires
        age1 != age2 || id1 != id2,
    ensures
        derive_seed_spec(base_seed, age1, id1) != derive_seed_spec(base_seed, age2, id2),
{
    let m1 = seed_mix(base_seed, age1, id1);
    let m2 = seed_mix(base_seed, age2, id2);
    assert(m1 != m2) by {
        let (a1, a2) = (age1 as u64, age2 as u64);
        let (i1, i2) = (id1 as u64, id2 as u64);
        assert(a1 < 0x1_0000_0000 && a2 < 0x1_0000_0000 && i1 < 0x1_0000_0000 && i2 < 0x1_0000_0000);
        assert(a1 < 0x1_0000_0000 && a2 < 0x1_0000_0000 && i1 < 0x1_0000_0000 && i2 < 0x1_0000_0000
            && base_seed ^ (a1 << 32u64) ^ i1 == base_seed ^ (a2 << 32u64) ^ i2 ==> a1 == a2 && i1
            == i2) by (bit_vector);
    }
    if splitmix64_spec(m1) == splitmix64_spec(m2) {
        lemma_splitmix64_injective(m1, m2);
    }
}

} // verus!
