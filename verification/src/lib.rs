//! A 128-bit MetroHash fingerprint of a byte sequence.
//!
//! [`metrohash128`] hashes a whole buffer in one call. [`HashState`] is the
//! same computation in steps: make a state, write to it any number of times,
//! finish. The mixing itself is that of the `metrohash` crate; what this
//! library adds is the state's bookkeeping and the byte layout of the digest,
//! both stated over the bytes absorbed and proved.

pub mod digest;
pub mod engine;
pub mod state;

pub use crate::digest::pack_lanes;
pub use crate::state::{HashState, StateView, DEFAULT_SEED};

use crate::digest::{digest_bytes, lemma_digest_len};
use crate::engine::metro128;
use vstd::prelude::*;

verus! {

/// The digest of `data`: the lanes that MetroHash128 with the default seed
/// gives for it, laid out as sixteen bytes.
pub open spec fn hash128(data: Seq<u8>) -> Seq<u8> {
    digest_bytes(metro128(DEFAULT_SEED, data))
}

/// Hashes `data` and returns its digest in a buffer of its own. The input is
/// only read.
pub fn metrohash128(data: &[u8]) -> (digest: [u8; 16])
    ensures
        digest@ == hash128(data@),
{
    let mut state = HashState::new();
    state.write(data);
    proof {
        lemma_hash128_one_write(data@);
    }
    state.finish()
}

/// The digest of `data` is what a state with the default seed finishes with
/// after `data` is written to it in one piece.
pub proof fn lemma_hash128_one_write(data: Seq<u8>)
    ensures
        hash128(data) == StateView::fresh(DEFAULT_SEED).write(data).digest(),
{
    assert(Seq::<u8>::empty() + data =~= data);
}

/// Every digest has sixteen bytes.
pub proof fn lemma_hash128_len(data: Seq<u8>)
    ensures
        hash128(data).len() == 16,
{
    lemma_digest_len(metro128(DEFAULT_SEED, data));
}

/// The digest depends on the content of the input and on nothing else: two
/// inputs of the same length that agree byte for byte have the same digest.
pub proof fn lemma_hash128_deterministic(a: Seq<u8>, b: Seq<u8>)
    requires
        a.len() == b.len(),
        forall|i: int| 0 <= i < a.len() ==> a[i] == b[i],
    ensures
        hash128(a) == hash128(b),
{
    assert(a =~= b);
}

/// Hashing a buffer in one call gives the digest of writing its two parts one
/// after the other to a fresh state, wherever the buffer is cut.
pub proof fn lemma_hash128_streaming(first: Seq<u8>, second: Seq<u8>)
    ensures
        hash128(first + second) == StateView::fresh(DEFAULT_SEED).write(first).write(
            second,
        ).digest(),
{
    lemma_hash128_one_write(first + second);
    StateView::fresh(DEFAULT_SEED).lemma_write_write(first, second);
}

} // verus!
