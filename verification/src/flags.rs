//! The set of background layers that are switched on.

use crate::assets::{BackgroundFlag, FLAG_COUNT};
use crate::bitset::{ones, width};
use crate::utils::{enabled, FixedBitSetIterator};
use fixedbitset::FixedBitSet;
use vstd::prelude::*;

verus! {

/// `bits` with the membership of `bit` inverted.
pub open spec fn flip(bits: Set<nat>, bit: nat) -> Set<nat> {
    if bits.contains(bit) {
        bits.remove(bit)
    } else {
        bits.insert(bit)
    }
}

/// The bits of all layers.
pub open spec fn all_bits() -> Set<nat> {
    Set::new(|bit: nat| bit < FLAG_COUNT)
}

/// One bit for each background layer; a layer is drawn while its bit is
/// set.
pub struct BackgroundFlags {
    bits: FixedBitSet,
}

impl View for BackgroundFlags {
    type V = Set<nat>;

    /// The positions of the layers that are switched on.
    closed spec fn view(&self) -> Set<nat> {
        ones(self.bits)
    }
}

impl BackgroundFlags {
    /// The set has one bit for each layer, and no other bit is set.
    pub closed spec fn wf(&self) -> bool {
        &&& width(self.bits) == FLAG_COUNT
        &&& ones(self.bits).subset_of(all_bits())
    }

    /// The layers that are switched on, from the farthest to the nearest.
    pub open spec fn enabled(&self) -> Seq<BackgroundFlag> {
        enabled(self@)
    }

    /// All layers switched on.
    pub fn all() -> (flags: BackgroundFlags)
        ensures
            flags.wf(),
            flags@ == all_bits(),
    {
        let mut bits = FixedBitSet::with_capacity(FLAG_COUNT);
        let mut bit: usize = 0;
        while bit < FLAG_COUNT
            invariant
                bit <= FLAG_COUNT,
                width(bits) == FLAG_COUNT,
                ones(bits) =~= Set::new(|b: nat| b < bit),
            decreases FLAG_COUNT - bit,
        {
            bits.insert(bit);
            bit = bit + 1;
        }
        assert(ones(bits) =~= all_bits());
        BackgroundFlags { bits }
    }

    /// Switches one layer: on if it was off, off if it was on.
    pub fn toggle(&mut self, flag: BackgroundFlag)
        requires
            old(self).wf(),
        ensures
            final(self).wf(),
            final(self)@ == flip(old(self)@, flag.spec_index() as nat),
    {
        self.bits.toggle(flag.index());
    }

    /// Whether a layer is switched on.
    pub fn contains(&self, flag: BackgroundFlag) -> (on: bool)
        ensures
            on == self@.contains(flag.spec_index() as nat),
    {
        self.bits.contains(flag.index())
    }

    /// Whether every layer is switched off.
    pub fn is_empty(&self) -> (empty: bool)
        requires
            self.wf(),
        ensures
            empty == (self@ == Set::<nat>::empty()),
            empty == (self.enabled().len() == 0),
    {
        proof {
            lemma_enabled_empty(self@);
        }
        self.bits.is_clear()
    }

    /// Walks the layers that are switched on, from the farthest to the
    /// nearest.
    pub fn iter(&self) -> (iter: FixedBitSetIterator<'_>)
        ensures
            iter@ == self.enabled(),
    {
        FixedBitSetIterator::new(&self.bits)
    }
}

/// Switching a layer twice leaves the set as it was.
pub proof fn lemma_flip_twice(bits: Set<nat>, bit: nat)
    ensures
        flip(flip(bits, bit), bit) == bits,
{
    assert(flip(flip(bits, bit), bit) =~= bits);
}

/// No layer is drawn exactly when no bit is set.
pub proof fn lemma_enabled_empty(bits: Set<nat>)
    requires
        bits.subset_of(all_bits()),
    ensures
        (enabled(bits).len() == 0) == (bits == Set::<nat>::empty()),
{
    crate::utils::lemma_enabled(bits);
    if bits == Set::<nat>::empty() {
        if enabled(bits).len() > 0 {
            assert(enabled(bits).contains(enabled(bits)[0]));
        }
    } else {
        assert(!(bits =~= Set::<nat>::empty()));
        let bit = choose|bit: nat| bits.contains(bit);
        assert(all_bits().contains(bit));
        let flag = BackgroundFlag::spec_from_index(bit as usize)->Some_0;
        assert(enabled(bits).contains(flag));
    }
}

} // verus!
