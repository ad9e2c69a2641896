//! The packed storage of the grid: `fixedbitset::FixedBitSet`, with the
//! contracts this library relies on.
use fixedbitset::FixedBitSet;
use vstd::prelude::*;

verus! {

#[verifier::external_type_specification]
#[verifier::external_body]
pub struct ExFixedBitSet(FixedBitSet);

/// The bits a `FixedBitSet` holds, position `i` being bit `i`.
pub uninterp spec fn bits_of(s: FixedBitSet) -> Seq<bool>;

/// Whether bit `k` (counted from the least significant) of `word` is set.
pub open spec fn word_bit(word: u32, k: nat) -> bool {
    (word >> (k as u32)) & 1u32 == 1u32
}

/// `words` is the block layout of `bits`: 32 bits per `u32` block, bit `i` at
/// bit `i % 32` of block `i / 32`, blocks in increasing order.
pub open spec fn packs(words: Seq<u32>, bits: Seq<bool>) -> bool {
    &&& words.len() == (bits.len() + 31) / 32
    &&& forall|i: int| 0 <= i < bits.len() ==> #[trigger] bits[i] == word_bit(words[i / 32], (i % 32) as nat)
}

/// Relies on `FixedBitSet::with_capacity`: `len` bits, all clear.
#[verifier::external_body]
pub(crate) fn bits_with_len(len: usize) -> (r: FixedBitSet)
    ensures
        bits_of(r) == Seq::new(len as nat, |i: int| false),
{
    FixedBitSet::with_capacity(len)
}

/// Relies on `FixedBitSet::contains`: the state of bit `i`, for `i` inside the set.
#[verifier::external_body]
pub(crate) fn bit_at(s: &FixedBitSet, i: usize) -> (r: bool)
    ensures
        i < bits_of(*s).len() ==> r == bits_of(*s)[i as int],
{
    s.contains(i)
}

/// Relies on `FixedBitSet::set`: writes bit `i`, leaving the others; it
/// panics when `i` is past the end, which `requires` rules out.
#[verifier::external_body]
pub(crate) fn set_bit(s: &mut FixedBitSet, i: usize, value: bool)
    requires
        i < bits_of(*old(s)).len(),
    ensures
        bits_of(*final(s)) == bits_of(*old(s)).update(i as int, value),
{
    s.set(i, value)
}

/// Relies on `FixedBitSet`'s `Clone`: a copy with the same bits.
#[verifier::external_body]
pub(crate) fn copy_bits(s: &FixedBitSet) -> (r: FixedBitSet)
    ensures
        bits_of(r) == bits_of(*s),
{
    s.clone()
}

/// Relies on `FixedBitSet::as_slice`: the backing `u32` blocks, which hold
/// bit `i` at bit `i % 32` of block `i / 32`.
#[verifier::external_body]
pub(crate) fn blocks_of(s: &FixedBitSet) -> (r: &[u32])
    ensures
        packs(r@, bits_of(*s)),
{
    s.as_slice()
}

} // verus!
