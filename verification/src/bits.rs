//! Trusted interface to the bit-vector collection that backs the board's
//! per-cell attribute sets. `Bits` holds the collection; its contents are
//! named by the uninterpreted sequence `bit_seq`, and each operation the
//! board logic uses is a thin wrapper whose contract states what the
//! operation does to `bit_seq`.

use vstd::prelude::*;

verus! {

/// A dense bit-set, one bit per index.
#[verifier::external_body]
pub struct Bits {
    inner: bitvec::vec::BitVec<u32, bitvec::order::Lsb0>,
}

/// The bits held by a bit-set, in index order.
pub uninterp spec fn bit_seq(b: Bits) -> Seq<bool>;

impl Bits {
    /// Relies on `BitVec::repeat`: builds a bit-set of `len` copies of `bit`.
    /// The length must stay within the collection's encodable capacity, an
    /// eighth of the index space; on longer lengths the call asserts.
    #[verifier::external_body]
    pub(crate) fn repeat(bit: bool, len: usize) -> (r: Bits)
        requires
            len <= usize::MAX / 8,
        ensures
            bit_seq(r).len() == len,
            forall|i: int| 0 <= i < len ==> bit_seq(r)[i] == bit,
    {
        Bits { inner: bitvec::vec::BitVec::repeat(bit, len) }
    }

    /// Relies on `BitSlice`'s `Index` impl: reads the bit at `index`, which
    /// must be within the length.
    #[verifier::external_body]
    pub(crate) fn get(&self, index: usize) -> (r: bool)
        requires
            index < bit_seq(*self).len(),
        ensures
            r == bit_seq(*self)[index as int],
    {
        self.inner[index]
    }

    /// Relies on `BitSlice::set`: writes `value` into the bit at `index`,
    /// which must be within the length; every other bit is left as it was.
    #[verifier::external_body]
    pub(crate) fn set(&mut self, index: usize, value: bool)
        requires
            index < bit_seq(*old(self)).len(),
        ensures
            bit_seq(*final(self)) == bit_seq(*old(self)).update(index as int, value),
    {
        self.inner.set(index, value);
    }
}

} // verus!
