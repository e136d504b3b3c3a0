//! The bit set that records which background layers are switched on.
//!
//! The set itself is `fixedbitset::FixedBitSet`. Its behaviour is not proved
//! here: the specifications in this module restate what the methods of that
//! type do, over the set of indices whose bit is one.

use fixedbitset::FixedBitSet;
use vstd::prelude::*;

verus! {

/// `fixedbitset::FixedBitSet`, a set of bits of a size fixed when it is
/// made. Nothing is known of its inside.
#[verifier::external_type_specification]
#[verifier::external_body]
pub struct ExFixedBitSet(FixedBitSet);

/// The indices whose bit is one.
pub uninterp spec fn ones(set: FixedBitSet) -> Set<nat>;

/// The number of bits the set was made with.
pub uninterp spec fn width(set: FixedBitSet) -> nat;

/// `FixedBitSet::with_capacity`: a set of `bits` bits, all of them zero.
pub assume_specification[ FixedBitSet::with_capacity ](bits: usize) -> (set: FixedBitSet)
    ensures
        ones(set) == Set::<nat>::empty(),
        width(set) == bits,
;

/// `FixedBitSet::insert`: sets one bit and leaves the others as they were.
/// The method panics on an index outside the set, so callers must stay inside.
pub assume_specification[ FixedBitSet::insert ](set: &mut FixedBitSet, bit: usize)
    requires
        bit < width(*old(set)),
    ensures
        ones(*final(set)) == ones(*old(set)).insert(bit as nat),
        width(*final(set)) == width(*old(set)),
;

/// `FixedBitSet::toggle`: inverts one bit and leaves the others as they were.
/// The method panics on an index outside the set, so callers must stay inside.
pub assume_specification[ FixedBitSet::toggle ](set: &mut FixedBitSet, bit: usize)
    requires
        bit < width(*old(set)),
    ensures
        ones(*final(set)) == if ones(*old(set)).contains(bit as nat) {
            ones(*old(set)).remove(bit as nat)
        } else {
            ones(*old(set)).insert(bit as nat)
        },
        width(*final(set)) == width(*old(set)),
;

/// `FixedBitSet::contains`: whether the bit at `bit` is one; an index outside
/// the set is reported as zero.
pub assume_specification[ FixedBitSet::contains ](set: &FixedBitSet, bit: usize) -> (found: bool)
    ensures
        found == ones(*set).contains(bit as nat),
;

/// `FixedBitSet::is_clear`: whether every bit is zero.
pub assume_specification[ FixedBitSet::is_clear ](set: &FixedBitSet) -> (clear: bool)
    ensures
        clear == (ones(*set) == Set::<nat>::empty()),
;

} // verus!
