use fixedbitset::FixedBitSet;
use game::assets::BackgroundFlag;
use game::flags::BackgroundFlags;
use game::utils::FixedBitSetIterator;

const ALL: [BackgroundFlag; 4] = [
    BackgroundFlag::BackTrees,
    BackgroundFlag::MiddleTrees,
    BackgroundFlag::FrontTrees,
    BackgroundFlag::Lights,
];

fn collect(flags: &BackgroundFlags) -> Vec<BackgroundFlag> {
    let mut iter = flags.iter();
    let mut found = Vec::new();
    while let Some(flag) = iter.next() {
        found.push(flag);
    }
    found
}

#[test]
fn all_flags_start_enabled() {
    let flags = BackgroundFlags::all();
    for flag in ALL {
        assert!(flags.contains(flag));
    }
    assert!(!flags.is_empty());
    assert_eq!(collect(&flags), ALL.to_vec());
}

#[test]
fn toggle_flips_one_flag_only() {
    let mut flags = BackgroundFlags::all();
    flags.toggle(BackgroundFlag::MiddleTrees);
    assert!(flags.contains(BackgroundFlag::BackTrees));
    assert!(!flags.contains(BackgroundFlag::MiddleTrees));
    assert!(flags.contains(BackgroundFlag::FrontTrees));
    assert!(flags.contains(BackgroundFlag::Lights));
    assert_eq!(
        collect(&flags),
        vec![BackgroundFlag::BackTrees, BackgroundFlag::FrontTrees, BackgroundFlag::Lights]
    );
}

#[test]
fn toggling_twice_restores_the_set() {
    for first in ALL {
        let mut flags = BackgroundFlags::all();
        flags.toggle(first);
        for flag in ALL {
            let before: Vec<bool> = ALL.iter().map(|f| flags.contains(*f)).collect();
            flags.toggle(flag);
            assert_ne!(before, ALL.iter().map(|f| flags.contains(*f)).collect::<Vec<bool>>());
            flags.toggle(flag);
            assert_eq!(before, ALL.iter().map(|f| flags.contains(*f)).collect::<Vec<bool>>());
        }
    }
}

#[test]
fn toggling_every_flag_off_empties_the_set() {
    let mut flags = BackgroundFlags::all();
    for flag in ALL {
        assert!(!flags.is_empty());
        flags.toggle(flag);
    }
    assert!(flags.is_empty());
    assert_eq!(collect(&flags), Vec::new());
    flags.toggle(BackgroundFlag::Lights);
    assert!(!flags.is_empty());
    assert_eq!(collect(&flags), vec![BackgroundFlag::Lights]);
}

#[test]
fn enabled_flags_come_in_ascending_order() {
    let mut flags = BackgroundFlags::all();
    flags.toggle(BackgroundFlag::Lights);
    flags.toggle(BackgroundFlag::BackTrees);
    flags.toggle(BackgroundFlag::Lights);
    flags.toggle(BackgroundFlag::FrontTrees);
    assert_eq!(collect(&flags), vec![BackgroundFlag::MiddleTrees, BackgroundFlag::Lights]);
}

#[test]
fn iteration_can_be_restarted() {
    let mut flags = BackgroundFlags::all();
    flags.toggle(BackgroundFlag::FrontTrees);
    let first = collect(&flags);
    let second = collect(&flags);
    assert_eq!(first, second);
    assert_eq!(first.len(), 3);
}

#[test]
fn iterator_ends_and_stays_ended() {
    let mut bits = FixedBitSet::with_capacity(4);
    bits.insert(2);
    let mut iter = FixedBitSetIterator::new(&bits);
    assert_eq!(iter.next(), Some(BackgroundFlag::FrontTrees));
    assert_eq!(iter.next(), None);
    assert_eq!(iter.next(), None);
}

#[test]
fn iterator_over_an_empty_bitset() {
    let bits = FixedBitSet::with_capacity(4);
    let mut iter = FixedBitSetIterator::new(&bits);
    assert_eq!(iter.next(), None);
}

#[test]
fn iterator_ignores_bits_beyond_the_flags() {
    let mut bits = FixedBitSet::with_capacity(40);
    bits.insert(1);
    bits.insert(3);
    bits.insert(4);
    bits.insert(39);
    let mut iter = FixedBitSetIterator::new(&bits);
    assert_eq!(iter.next(), Some(BackgroundFlag::MiddleTrees));
    assert_eq!(iter.next(), Some(BackgroundFlag::Lights));
    assert_eq!(iter.next(), None);
}

#[test]
fn iterator_over_a_short_bitset() {
    let mut bits = FixedBitSet::with_capacity(2);
    bits.insert(0);
    let mut iter = FixedBitSetIterator::new(&bits);
    assert_eq!(iter.next(), Some(BackgroundFlag::BackTrees));
    assert_eq!(iter.next(), None);
}
