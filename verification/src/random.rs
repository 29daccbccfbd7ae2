//! The random source: `nanorand`'s WyRand generator.
//!
//! Nothing here is proved. Each contract states what the generator's code
//! does for every seed, and the rest of the library is verified against
//! these contracts alone.

use vstd::prelude::*;
use nanorand::{Rng, WyRand};

verus! {

/// `nanorand::WyRand`, a generator whose state the library never inspects.
#[verifier::external_type_specification]
#[verifier::external_body]
pub struct ExWyRand(WyRand);

/// `WyRand::new`: a generator seeded from the operating system. Nothing is
/// claimed of the seed.
pub assume_specification[ WyRand::new ]() -> (rng: WyRand);

/// `Rng::generate_range` on `u32` over `low..high`.
///
/// The generator scales a 32-bit draw onto the span `high - low` and adds
/// `low`, so the result lies in `low..high`; an empty range yields `low`.
/// It panics when `high < low`, which the precondition excludes.
#[verifier::external_body]
pub(crate) fn draw_between(rng: &mut WyRand, low: u32, high: u32) -> (drawn: u32)
    requires
        low <= high,
    ensures
        low <= drawn,
        drawn < high || (low == high && drawn == low),
{
    rng.generate_range(low..high)
}

/// `Rng::generate` on `u8`: one byte of the generator's output. Any byte may
/// come back.
#[verifier::external_body]
pub(crate) fn draw_byte(rng: &mut WyRand) -> (drawn: u8) {
    rng.generate::<u8>()
}

} // verus!
