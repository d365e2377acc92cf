//! The seeded random number source used for initial placement.
//!
//! The simulation seeds it with a fixed constant, so a given build
//! reproduces the same draws run after run; the contracts promise nothing
//! about the drawn values, and every consumer bounds what it computes
//! from a draw, so the logic is verified for every possible outcome.

use rand::rngs::SmallRng;
use vstd::arithmetic::div_mod::lemma_div_is_ordered;
use vstd::arithmetic::div_mod::lemma_div_multiples_vanish;
use vstd::arithmetic::mul::lemma_mul_inequality;
use vstd::prelude::*;

verus! {

#[verifier::external_type_specification]
#[verifier::external_body]
pub struct ExSmallRng(SmallRng);

/// Relies on rand::SeedableRng::seed_from_u64: builds the small generator
/// from a seed; nothing is assumed about the stream it will produce.
#[verifier::external_body]
pub(crate) fn rng_from_seed(seed: u64) -> SmallRng {
    <SmallRng as rand::SeedableRng>::seed_from_u64(seed)
}

/// Relies on rand::RngCore::next_u32: draws the generator's next value;
/// nothing is assumed about which value comes out.
#[verifier::external_body]
pub(crate) fn rng_next_u32(rng: &mut SmallRng) -> u32 {
    rand::RngCore::next_u32(rng)
}

/// Maps a raw draw onto `0 ..= m` by exact integer scaling, as the
/// placement code needs; holds for every draw the generator can produce.
pub fn scale_draw(d: u32, m: u64) -> (r: i64)
    requires
        m <= 1_000_000,
    ensures
        r as int == (d as int) * (m as int) / 4294967295int,
        0 <= r <= m,
{
    proof {
        lemma_mul_inequality(d as int, 4294967295int, m as int);
        assert((d as int) * (m as int) == (m as int) * (d as int)) by (nonlinear_arith);
        assert((4294967295int) * (m as int) == (m as int) * (4294967295int)) by (nonlinear_arith);
        lemma_div_is_ordered(
            (d as int) * (m as int),
            (4294967295int) * (m as int),
            4294967295int,
        );
        lemma_div_multiples_vanish(m as int, 4294967295int);
        assert((d as int) * (m as int) >= 0) by (nonlinear_arith);
        vstd::arithmetic::div_mod::lemma_div_pos_is_pos((d as int) * (m as int), 4294967295int);
    }
    (d as u64 * m / 4294967295u64) as i64
}

} // verus!
