//! The streaming MetroHash128 hasher of the `metrohash` crate, and what this
//! library takes for granted about it.
//!
//! Nothing in this file is proved. A hasher is described by two things that
//! it never forgets, its seed and the bytes it was given, and the functions
//! below say how the crate's methods act on them. That the digest depends on
//! the bytes alone and not on how they were cut into writes is the crate's
//! doing: it keeps a partial block back until it is full.
//!
//! The crate reads its input in 64-bit words of the machine's byte order, so
//! all of this is said of a little-endian machine; a big-endian one computes
//! other digests.

use metrohash::MetroHash128;
use std::hash::Hasher;
use vstd::prelude::*;

verus! {

/// `metrohash::MetroHash128`: four 64-bit accumulators, a buffer for a partial
/// 32-byte block, and a count of the bytes written. Its fields are private.
#[verifier::external_type_specification]
#[verifier::external_body]
pub struct ExMetroHash128(MetroHash128);

/// The seed that a hasher was made with.
pub uninterp spec fn seed_of(h: MetroHash128) -> u64;

/// Every byte that a hasher has been given since it was made, in the order
/// written. The hasher itself keeps only its accumulators, the last partial
/// block and the count; this is the whole history that they came from.
pub uninterp spec fn absorbed_by(h: MetroHash128) -> Seq<u8>;

/// The pair of lanes that `MetroHash128::finish128` returns for a hasher made
/// with `seed` that has absorbed `input`: lane 0 first, lane 1 second.
pub uninterp spec fn metro128(seed: u64, input: Seq<u8>) -> (u64, u64);

/// `MetroHash128::new`: a hasher with seed 0 that has absorbed nothing.
#[verifier::external_body]
pub(crate) fn hasher_new() -> (h: MetroHash128)
    ensures
        seed_of(h) == 0,
        absorbed_by(h) == Seq::<u8>::empty(),
{
    MetroHash128::new()
}

/// `MetroHash128::with_seed`: a hasher with that seed that has absorbed nothing.
#[verifier::external_body]
pub(crate) fn hasher_with_seed(seed: u64) -> (h: MetroHash128)
    ensures
        seed_of(h) == seed,
        absorbed_by(h) == Seq::<u8>::empty(),
{
    MetroHash128::with_seed(seed)
}

/// `Hasher::write` of `MetroHash128`: the bytes are appended to what was
/// absorbed, whatever the sizes of the writes, and the seed stays. The crate
/// counts the bytes in a `usize` and goes wrong when the count overflows, so
/// the total has to fit in one.
#[verifier::external_body]
pub(crate) fn hasher_write(h: &mut MetroHash128, bytes: &[u8])
    requires
        absorbed_by(*old(h)).len() + bytes.len() <= usize::MAX,
    ensures
        seed_of(*final(h)) == seed_of(*old(h)),
        absorbed_by(*final(h)) == absorbed_by(*old(h)) + bytes@,
{
    h.write(bytes)
}

/// `MetroHash128::finish128`: the two lanes for the seed and everything
/// absorbed so far. The hasher is left as it was.
#[verifier::external_body]
pub(crate) fn hasher_finish128(h: &MetroHash128) -> (lanes: (u64, u64))
    ensures
        lanes == metro128(seed_of(*h), absorbed_by(*h)),
{
    h.finish128()
}

} // verus!
