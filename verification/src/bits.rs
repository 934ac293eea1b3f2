use bitvec::vec::BitVec;
use vstd::prelude::*;

verus! {

/// The largest number of bits that one bit vector can hold.
pub open spec fn max_bits() -> nat {
    (usize::MAX / 8) as nat
}

/// How many entries of `s` are `true`.
pub open spec fn count_true(s: Seq<bool>) -> nat
    decreases s.len(),
{
    if s.len() == 0 {
        0
    } else {
        count_true(s.drop_last()) + if s.last() {
            1nat
        } else {
            0nat
        }
    }
}

/// No more entries of `s` are `true` than it has entries.
pub proof fn lemma_count_true_bound(s: Seq<bool>)
    ensures
        count_true(s) <= s.len(),
    decreases s.len(),
{
    if s.len() > 0 {
        lemma_count_true_bound(s.drop_last());
    }
}

/// A growable vector of bits, stored by the `bitvec` crate.
///
/// Verus does not look inside: what the vector holds is `bit_contents`, and
/// every method below states, without proof, what the `bitvec` method of the
/// same name does to it.
#[verifier::external_body]
pub struct Bits {
    inner: BitVec,
}

/// The bits that a vector holds, first to last.
pub uninterp spec fn bit_contents(bits: Bits) -> Seq<bool>;

impl Bits {
    /// `BitVec::new`: a vector that holds no bit.
    #[verifier::external_body]
    pub(crate) fn new() -> (bits: Bits)
        ensures
            bit_contents(bits) == Seq::<bool>::empty(),
    {
        Bits { inner: BitVec::new() }
    }

    /// `BitVec::len`: the number of bits held.
    #[verifier::external_body]
    pub(crate) fn len(&self) -> (len: usize)
        ensures
            len == bit_contents(*self).len(),
    {
        self.inner.len()
    }

    /// Indexing a `BitVec` by `usize`: the bit at `index`. The index must be
    /// in bounds, as the crate panics otherwise.
    #[verifier::external_body]
    pub(crate) fn get(&self, index: usize) -> (bit: bool)
        requires
            index < bit_contents(*self).len(),
        ensures
            bit == bit_contents(*self)[index as int],
    {
        self.inner[index]
    }

    /// `BitSlice::set`: overwrites the bit at `index` and no other. The index
    /// must be in bounds, as the crate panics otherwise.
    #[verifier::external_body]
    pub(crate) fn set(&mut self, index: usize, value: bool)
        requires
            index < bit_contents(*old(self)).len(),
        ensures
            bit_contents(*final(self)) == bit_contents(*old(self)).update(index as int, value),
    {
        self.inner.set(index, value)
    }

    /// `BitVec::resize`: cuts the vector down to `new_len` bits, or extends it
    /// to that length with copies of `value`. The crate panics on a length
    /// above `MAX_BITS`.
    #[verifier::external_body]
    pub(crate) fn resize(&mut self, new_len: usize, value: bool)
        requires
            new_len <= max_bits(),
        ensures
            bit_contents(*final(self)).len() == new_len,
            forall|i: int|
                0 <= i < new_len ==> #[trigger] bit_contents(*final(self))[i] == if i
                    < bit_contents(*old(self)).len() {
                    bit_contents(*old(self))[i]
                } else {
                    value
                },
    {
        self.inner.resize(new_len, value)
    }

    /// `BitVec::truncate`: keeps the first `new_len` bits; a vector that is
    /// not longer than that is left as it is.
    #[verifier::external_body]
    pub(crate) fn truncate(&mut self, new_len: usize)
        ensures
            bit_contents(*final(self)) == if new_len < bit_contents(*old(self)).len() {
                bit_contents(*old(self)).subrange(0, new_len as int)
            } else {
                bit_contents(*old(self))
            },
    {
        self.inner.truncate(new_len)
    }

    /// `BitVec::clear`: removes every bit.
    #[verifier::external_body]
    pub(crate) fn clear(&mut self)
        ensures
            bit_contents(*final(self)) == Seq::<bool>::empty(),
    {
        self.inner.clear()
    }

    /// `BitSlice::last_one`: the index of the last bit that is set, or `None`
    /// where no bit is set.
    #[verifier::external_body]
    pub(crate) fn last_one(&self) -> (last: Option<usize>)
        ensures
            match last {
                Some(index) => {
                    &&& index < bit_contents(*self).len()
                    &&& bit_contents(*self)[index as int]
                    &&& forall|j: int|
                        index < j < bit_contents(*self).len() ==> !#[trigger] bit_contents(
                            *self,
                        )[j]
                },
                None => forall|j: int|
                    0 <= j < bit_contents(*self).len() ==> !#[trigger] bit_contents(*self)[j],
            },
    {
        self.inner.last_one()
    }

    /// `BitSlice::count_ones`: the number of bits that are set.
    #[verifier::external_body]
    pub(crate) fn count_ones(&self) -> (count: usize)
        ensures
            count == count_true(bit_contents(*self)),
    {
        self.inner.count_ones()
    }
}

} // verus!
