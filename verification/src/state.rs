//! The hashing state: a seed and the bytes absorbed so far.

use crate::digest::{digest_bytes, lemma_digest_len, pack_lanes};
use crate::engine::{
    absorbed_by, hasher_finish128, hasher_new, hasher_with_seed, hasher_write, metro128, seed_of,
};
use metrohash::MetroHash128;
use vstd::prelude::*;

verus! {

/// The seed of a state that is made without one.
pub const DEFAULT_SEED: u64 = 0;

/// What a hashing state stands for: the seed it was made with and every byte
/// written to it since, in order. How the bytes were cut into writes is not
/// part of it.
#[verifier::ext_equal]
pub struct StateView {
    pub seed: u64,
    pub absorbed: Seq<u8>,
}

impl StateView {
    /// The state that has absorbed nothing.
    pub open spec fn fresh(seed: u64) -> StateView {
        StateView { seed, absorbed: Seq::empty() }
    }

    /// The state after `bytes` are written to this one.
    pub open spec fn write(self, bytes: Seq<u8>) -> StateView {
        StateView { seed: self.seed, absorbed: self.absorbed + bytes }
    }

    /// The state after each of `chunks` is written to this one, in order.
    pub open spec fn write_each(self, chunks: Seq<Seq<u8>>) -> StateView
        decreases chunks.len(),
    {
        if chunks.len() == 0 {
            self
        } else {
            self.write(chunks.first()).write_each(chunks.drop_first())
        }
    }

    /// The lanes that this state finishes with.
    pub open spec fn lanes(self) -> (u64, u64) {
        metro128(self.seed, self.absorbed)
    }

    /// The digest that this state finishes with.
    pub open spec fn digest(self) -> Seq<u8> {
        digest_bytes(self.lanes())
    }

    /// Two writes in a row leave the state that one write of the two buffers
    /// joined leaves.
    pub proof fn lemma_write_write(self, first: Seq<u8>, second: Seq<u8>)
        ensures
            self.write(first).write(second) == self.write(first + second),
    {
        assert((self.absorbed + first) + second =~= self.absorbed + (first + second));
    }

    /// Writing nothing leaves the state as it is.
    pub proof fn lemma_write_nothing(self)
        ensures
            self.write(Seq::empty()) == self,
    {
        assert(self.absorbed + Seq::<u8>::empty() =~= self.absorbed);
    }

    /// However the input is cut into writes, they leave the state that one
    /// write of the whole input leaves.
    pub proof fn lemma_write_each(self, chunks: Seq<Seq<u8>>)
        ensures
            self.write_each(chunks) == self.write(chunks.flatten()),
        decreases chunks.len(),
    {
        if chunks.len() == 0 {
            self.lemma_write_nothing();
        } else {
            self.write(chunks.first()).lemma_write_each(chunks.drop_first());
            self.lemma_write_write(chunks.first(), chunks.drop_first().flatten());
        }
    }

    /// A state finishes with a digest of sixteen bytes.
    pub proof fn lemma_digest_len(self)
        ensures
            self.digest().len() == 16,
    {
        lemma_digest_len(self.lanes());
    }
}

/// A MetroHash128 computation in progress.
pub struct HashState {
    inner: MetroHash128,
    len: usize,
}

impl View for HashState {
    type V = StateView;

    closed spec fn view(&self) -> StateView {
        StateView { seed: seed_of(self.inner), absorbed: absorbed_by(self.inner) }
    }
}

impl HashState {
    /// The state's count of the bytes absorbed is right. Every state that
    /// this library hands out is well formed.
    pub closed spec fn wf(&self) -> bool {
        self.len == absorbed_by(self.inner).len()
    }

    /// A state with the default seed that has absorbed nothing.
    pub fn new() -> (state: HashState)
        ensures
            state.wf(),
            state@ == StateView::fresh(DEFAULT_SEED),
    {
        HashState { inner: hasher_new(), len: 0 }
    }

    /// A state with the given seed that has absorbed nothing.
    pub fn with_seed(seed: u64) -> (state: HashState)
        ensures
            state.wf(),
            state@ == StateView::fresh(seed),
    {
        HashState { inner: hasher_with_seed(seed), len: 0 }
    }

    /// The number of bytes absorbed so far.
    pub fn len(&self) -> (n: usize)
        requires
            self.wf(),
        ensures
            n == self@.absorbed.len(),
    {
        self.len
    }

    /// Absorbs `bytes`. The total absorbed has to stay within `usize`.
    pub fn write(&mut self, bytes: &[u8])
        requires
            old(self).wf(),
            old(self)@.absorbed.len() + bytes.len() <= usize::MAX,
        ensures
            final(self).wf(),
            final(self)@ == old(self)@.write(bytes@),
    {
        hasher_write(&mut self.inner, bytes);
        self.len = self.len + bytes.len();
    }

    /// Absorbs `bytes` if the total absorbed stays within `usize`, and says
    /// whether it did; if not, the state is left as it was.
    pub fn try_write(&mut self, bytes: &[u8]) -> (written: bool)
        requires
            old(self).wf(),
        ensures
            final(self).wf(),
            written == (old(self)@.absorbed.len() + bytes.len() <= usize::MAX),
            written ==> final(self)@ == old(self)@.write(bytes@),
            !written ==> final(self)@ == old(self)@,
    {
        if bytes.len() <= usize::MAX - self.len {
            self.write(bytes);
            true
        } else {
            false
        }
    }

    /// Ends the computation and gives the digest of everything absorbed.
    pub fn finish(self) -> (digest: [u8; 16])
        ensures
            digest@ == self@.digest(),
    {
        let lanes: (u64, u64) = hasher_finish128(&self.inner);
        pack_lanes(lanes.0, lanes.1)
    }
}

} // verus!
