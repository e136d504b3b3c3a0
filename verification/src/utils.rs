//! Walking the enabled background layers in drawing order.

use crate::assets::{BackgroundFlag, FLAG_COUNT};
use crate::bitset::ones;
use fixedbitset::FixedBitSet;
use vstd::prelude::*;

verus! {

/// The layers at position `from` or later whose bit is in `bits`, in the
/// order of the enumeration.
pub open spec fn enabled_from(bits: Set<nat>, from: nat) -> Seq<BackgroundFlag>
    decreases FLAG_COUNT - from,
{
    if from >= FLAG_COUNT {
        Seq::empty()
    } else if bits.contains(from) {
        seq![BackgroundFlag::spec_from_index(from as usize)->Some_0] + enabled_from(bits, from + 1)
    } else {
        enabled_from(bits, from + 1)
    }
}

/// The layers whose bit is in `bits`, in the order of the enumeration,
/// which is the order they are drawn in.
pub open spec fn enabled(bits: Set<nat>) -> Seq<BackgroundFlag> {
    enabled_from(bits, 0)
}

/// The enabled layers of a bit set, handed out one by one from the
/// farthest to the nearest.
pub struct FixedBitSetIterator<'a> {
    bitset: &'a FixedBitSet,
    position: usize,
}

impl<'a> View for FixedBitSetIterator<'a> {
    type V = Seq<BackgroundFlag>;

    /// The layers that are still to come.
    closed spec fn view(&self) -> Seq<BackgroundFlag> {
        enabled_from(ones(*self.bitset), self.position as nat)
    }
}

impl<'a> FixedBitSetIterator<'a> {
    /// Starts before the first layer.
    pub fn new(bitset: &'a FixedBitSet) -> (iter: Self)
        ensures
            iter@ == enabled(ones(*bitset)),
    {
        FixedBitSetIterator { bitset, position: 0 }
    }

    /// Hands out the next enabled layer, or `None` when none is left.
    pub fn next(&mut self) -> (flag: Option<BackgroundFlag>)
        ensures
            flag == if old(self)@.len() > 0 {
                Some(old(self)@[0])
            } else {
                None
            },
            final(self)@ == if old(self)@.len() > 0 {
                old(self)@.skip(1)
            } else {
                old(self)@
            },
    {
        let ghost bits = ones(*self.bitset);
        while self.position < FLAG_COUNT
            invariant
                self.bitset == old(self).bitset,
                bits == ones(*self.bitset),
                enabled_from(bits, self.position as nat) == old(self)@,
            decreases FLAG_COUNT - self.position,
        {
            let index: usize = self.position;
            self.position = index + 1;
            if self.bitset.contains(index) {
                let flag = BackgroundFlag::from_index(index);
                proof {
                    let rest = enabled_from(bits, (index + 1) as nat);
                    assert((seq![flag->Some_0] + rest).skip(1) =~= rest);
                }
                return flag;
            }
        }
        None
    }
}

/// The enabled layers are exactly those whose bit is set, and each comes
/// before the layers that follow it in the enumeration.
pub proof fn lemma_enabled(bits: Set<nat>)
    ensures
        forall|flag: BackgroundFlag|
            enabled(bits).contains(flag) <==> bits.contains(flag.spec_index() as nat),
        forall|i: int, j: int|
            0 <= i < j < enabled(bits).len() ==> enabled(bits)[i].spec_index() < enabled(
                bits,
            )[j].spec_index(),
{
    lemma_enabled_from(bits, 0);
}

/// What `lemma_enabled` says, for the layers from one position on.
proof fn lemma_enabled_from(bits: Set<nat>, from: nat)
    ensures
        forall|flag: BackgroundFlag|
            enabled_from(bits, from).contains(flag) <==> (bits.contains(flag.spec_index() as nat)
                && flag.spec_index() >= from),
        forall|i: int|
            0 <= i < enabled_from(bits, from).len() ==> enabled_from(bits, from)[i].spec_index()
                >= from,
        forall|i: int, j: int|
            0 <= i < j < enabled_from(bits, from).len() ==> enabled_from(
                bits,
                from,
            )[i].spec_index() < enabled_from(bits, from)[j].spec_index(),
    decreases FLAG_COUNT - from,
{
    let here = enabled_from(bits, from);
    if from >= FLAG_COUNT {
        assert forall|flag: BackgroundFlag| !here.contains(flag) by {}
    } else {
        let rest = enabled_from(bits, from + 1);
        lemma_enabled_from(bits, from + 1);
        let first = BackgroundFlag::spec_from_index(from as usize)->Some_0;
        if bits.contains(from) {
            assert(here =~= seq![first] + rest);
            assert(here[0] == first);
            assert forall|i: int| 1 <= i < here.len() implies here[i] == rest[i - 1] by {}
            assert forall|flag: BackgroundFlag|
                here.contains(flag) <==> (bits.contains(flag.spec_index() as nat)
                    && flag.spec_index() >= from) by {
                if here.contains(flag) {
                    let i = choose|i: int| 0 <= i < here.len() && here[i] == flag;
                    if i >= 1 {
                        assert(rest[i - 1] == flag);
                        assert(rest.contains(flag));
                    }
                }
                if bits.contains(flag.spec_index() as nat) && flag.spec_index() >= from {
                    if flag.spec_index() == from {
                        assert(flag == first);
                        assert(here[0] == flag);
                    } else {
                        assert(rest.contains(flag));
                        let i = choose|i: int| 0 <= i < rest.len() && rest[i] == flag;
                        assert(here[i + 1] == flag);
                    }
                }
            }
            assert forall|i: int, j: int| 0 <= i < j < here.len() implies here[i].spec_index()
                < here[j].spec_index() by {
                assert(here[j] == rest[j - 1]);
                if i >= 1 {
                    assert(here[i] == rest[i - 1]);
                }
            }
        } else {
            assert(here == rest);
            assert forall|flag: BackgroundFlag|
                here.contains(flag) <==> (bits.contains(flag.spec_index() as nat)
                    && flag.spec_index() >= from) by {
                if flag.spec_index() == from {
                    assert(!rest.contains(flag));
                }
            }
        }
    }
}

} // verus!
