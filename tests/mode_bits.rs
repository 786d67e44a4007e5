use permissions::{Classes, ModeBits};

#[test]
fn test_mode_bits_impl() {
    let classes = ModeBits::ALL_BITS;
    assert!(classes.is_read_set());
    assert!(classes.is_write_set());
    assert!(classes.is_execute_set());
}

#[test]
fn testando() {}

#[test]
fn test_classes_impl() {
    let classes = Classes::ALL_CLASSES;
    assert!(classes.is_owner_set());
    assert!(classes.is_group_set());
    assert!(classes.is_other_set());
}

fn all_values() -> Vec<ModeBits> {
    let mut v = vec![
        ModeBits::Null,
        ModeBits::Read,
        ModeBits::Write,
        ModeBits::Execute,
        ModeBits::AllBits,
    ];
    for n in 0..8 {
        v.push(ModeBits::Custom(n));
    }
    v
}

#[test]
fn named_variants_equal_custom_masks() {
    assert_eq!(ModeBits::Read, ModeBits::Custom(0b100));
    assert_eq!(ModeBits::Write, ModeBits::Custom(0b010));
    assert_eq!(ModeBits::Execute, ModeBits::Custom(0b001));
    assert_eq!(ModeBits::AllBits, ModeBits::Custom(0b111));
    assert_eq!(ModeBits::Null, ModeBits::Custom(0));
    assert_ne!(ModeBits::Read, ModeBits::Write);
    assert_eq!(ModeBits::Custom(0b1100), ModeBits::Read);
}

#[test]
fn bits_of_each_variant() {
    assert_eq!(ModeBits::Null.bits(), 0);
    assert_eq!(ModeBits::Read.bits(), 4);
    assert_eq!(ModeBits::Write.bits(), 2);
    assert_eq!(ModeBits::Execute.bits(), 1);
    assert_eq!(ModeBits::AllBits.bits(), 7);
    assert_eq!(ModeBits::Custom(0b101).bits(), 5);
    assert_eq!(ModeBits::Custom(-1).bits(), 7);
}

#[test]
fn from_masks_and_names() {
    assert!(matches!(ModeBits::from(0), ModeBits::Null));
    assert!(matches!(ModeBits::from(4), ModeBits::Read));
    assert!(matches!(ModeBits::from(2), ModeBits::Write));
    assert!(matches!(ModeBits::from(1), ModeBits::Execute));
    assert!(matches!(ModeBits::from(7), ModeBits::AllBits));
    assert!(matches!(ModeBits::from(5), ModeBits::Custom(5)));
    assert!(matches!(ModeBits::from(0o14), ModeBits::Read));
    assert!(matches!(ModeBits::from(0o16), ModeBits::Custom(6)));
}

#[test]
fn from_bits_of_a_value_is_that_value() {
    for a in all_values() {
        assert_eq!(ModeBits::from(a.bits()), a);
        assert_eq!(ModeBits::from(a.bits()).bits(), a.bits());
        assert_eq!(a.combine(a), a);
        assert_eq!(a | a, a);
    }
}

#[test]
fn combine_is_commutative_associative_with_identity() {
    for a in all_values() {
        for b in all_values() {
            assert_eq!(a.combine(b), b.combine(a));
            assert_eq!(a.combine(b).bits(), a.bits() | b.bits());
            for c in all_values() {
                assert_eq!(a.combine(b).combine(c), a.combine(b.combine(c)));
            }
        }
        assert_eq!(a.combine(ModeBits::Null), a);
        assert!(matches!(a.combine(ModeBits::AllBits), ModeBits::AllBits));
    }
}

#[test]
fn bitor_and_bitand_follow_the_masks() {
    for i in 0..8 {
        for j in 0..8 {
            let merged = ModeBits::Custom(i) | ModeBits::Custom(j);
            assert_eq!(merged, ModeBits::Custom(i | j));
            assert_eq!(merged, ModeBits::from(i | j));
            assert_eq!(merged.bits(), i | j);
            let common = ModeBits::from(i) & ModeBits::from(j);
            assert_eq!(common.bits(), i & j);
            assert_eq!(ModeBits::from(i).difference(ModeBits::from(j)).bits(), i & !j);
            if i != j {
                assert_ne!(ModeBits::Custom(i), ModeBits::Custom(j));
            }
        }
    }
    assert!(matches!(ModeBits::Read | ModeBits::Write | ModeBits::Execute, ModeBits::AllBits));
    assert!(matches!(ModeBits::Read | ModeBits::Execute, ModeBits::Custom(5)));
}

#[test]
fn ordering_is_by_mask() {
    assert!(ModeBits::Execute < ModeBits::Write);
    assert!(ModeBits::Write < ModeBits::Read);
    assert!(ModeBits::Read < ModeBits::Custom(5));
    assert!(ModeBits::Custom(5) < ModeBits::AllBits);
    assert!(ModeBits::Custom(4) <= ModeBits::Read);
    assert!(ModeBits::Custom(4) >= ModeBits::Read);
}

#[test]
fn queries_on_mode_bits() {
    let rx = ModeBits::Custom(0b101);
    assert!(rx.is_read_set());
    assert!(!rx.is_write_set());
    assert!(rx.is_execute_set());
    assert!(!ModeBits::Null.is_read_set());
    assert!(ModeBits::empty().is_empty());
    assert!(ModeBits::all().is_all());
    assert!(!rx.is_all());
    assert!(rx.contains(ModeBits::Read));
    assert!(!rx.contains(ModeBits::Write));
    assert!(rx.intersects(ModeBits::Custom(0b011)));
    assert!(!rx.intersects(ModeBits::Write));
    assert_eq!(ModeBits::default(), ModeBits::Null);
}

#[test]
fn classes_masks_and_queries() {
    assert_eq!(Classes::Owner.bits(), 4);
    assert_eq!(Classes::Group.bits(), 2);
    assert_eq!(Classes::Other.bits(), 1);
    assert_eq!(Classes::AllClasses.bits(), 7);
    assert_eq!(Classes::empty().bits(), 0);
    assert_eq!(Classes::Custom(0b100), Classes::Owner);
    assert!(matches!(Classes::from(6), Classes::Custom(6)));
    assert!(matches!(Classes::from(0o12), Classes::Group));
    assert!(matches!(Classes::Owner | Classes::Group | Classes::Other, Classes::AllClasses));
    let og = Classes::Owner.combine(Classes::Group);
    assert!(og.is_owner_set());
    assert!(og.is_group_set());
    assert!(!og.is_other_set());
    assert!(Classes::Other < Classes::Group);
    let none = Classes::empty();
    assert!(!none.is_owner_set() && !none.is_group_set() && !none.is_other_set());
}
