use permissions::prelude::{ALL, ALL_CLASSES, EXECUTE, GROUP, NULL, OTHER, OWNER, READ, WRITE};
use permissions::{Classes, ModeBits, PermissionBits};

#[test]
fn truncated_round_trip_over_all_modes() {
    for m in 0..=0o777 {
        assert_eq!(PermissionBits::from_bits_truncated(m).to_bits(), m);
        assert_eq!(PermissionBits::from_bits(m).unwrap().bits(), m);
    }
}

#[test]
fn truncation_drops_high_bits() {
    assert_eq!(PermissionBits::from_bits_truncated(0o4755).bits(), 0o755);
    assert_eq!(PermissionBits::from_bits_truncated(-1).bits(), 0o777);
    assert_eq!(PermissionBits::from_bits_truncated(0o100644).bits(), 0o644);
}

#[test]
fn strict_construction_rejects_high_bits() {
    assert!(PermissionBits::from_bits(0o1000).is_none());
    assert!(PermissionBits::from_bits(0o4755).is_none());
    assert!(PermissionBits::from_bits(-1).is_none());
    assert!(PermissionBits::from_bits(0o777).is_some());
    assert!(PermissionBits::from_bits(0).is_some());
}

#[test]
fn split_of_0o754() {
    let p = PermissionBits::from_bits(0o754).unwrap();
    assert!(p.owner_bits.is_read_set());
    assert!(p.owner_bits.is_write_set());
    assert!(p.owner_bits.is_execute_set());
    assert_eq!(p.owner_bits.bits(), 7);
    assert_eq!(p.group_bits.bits(), 5);
    assert_eq!(p.other_bits, ModeBits::Read);
    assert!(matches!(p.owner_bits, ModeBits::AllBits));
    assert!(matches!(p.group_bits, ModeBits::Custom(5)));
    assert!(matches!(p.other_bits, ModeBits::Read));
}

#[test]
fn new_empty_all() {
    let p = PermissionBits::new(READ, WRITE, EXECUTE);
    assert_eq!(p.bits(), 0o421);
    assert_eq!(PermissionBits::empty().bits(), 0);
    assert_eq!(PermissionBits::all().bits(), 0o777);
    assert!(PermissionBits::empty().is_empty());
    assert!(PermissionBits::all().is_all());
    assert!(!p.is_empty());
    assert!(!p.is_all());
    assert_eq!(PermissionBits::default(), PermissionBits::empty());
}

#[test]
fn set_owner_read_touches_owner_only() {
    for m in 0..=0o777 {
        let before = PermissionBits::from_bits_truncated(m);
        let mut p = before;
        let after = p.set(OWNER, READ);
        assert_eq!(after, p);
        assert_eq!(p.group_bits, before.group_bits);
        assert_eq!(p.other_bits, before.other_bits);
        assert_eq!(p.owner_bits, before.owner_bits | READ);
        assert_eq!(p.bits(), m | 0o400);
    }
}

#[test]
fn set_chains_over_selected_classes() {
    let p = PermissionBits::empty().set(ALL_CLASSES, READ | EXECUTE);
    assert_eq!(p.bits(), 0o555);
    let q = PermissionBits::from_bits(0o640).unwrap().set(GROUP | OTHER, WRITE);
    assert_eq!(q.bits(), 0o662);
    let r = PermissionBits::from_bits(0o600).unwrap().set(Classes::empty(), ALL);
    assert_eq!(r.bits(), 0o600);
}

#[test]
fn insert_and_remove_by_class() {
    let mut p = PermissionBits::from_bits(0o644).unwrap();
    let q = p.insert(OWNER | GROUP, EXECUTE);
    assert_eq!(q.bits(), 0o754);
    assert_eq!(p.bits(), 0o754);
    let r = p.remove(ALL_CLASSES, READ);
    assert_eq!(r.bits(), 0o310);
    assert_eq!(p.bits(), 0o310);
    p.remove(OTHER, ALL);
    assert_eq!(p.bits(), 0o310);
    p.remove(OWNER, NULL);
    assert_eq!(p.bits(), 0o310);
}

#[test]
fn contains_and_intersects_per_class() {
    let p = PermissionBits::from_bits(0o755).unwrap();
    assert!(p.contains(PermissionBits::from_bits(0o644 & 0o755).unwrap()));
    assert!(p.contains(PermissionBits::from_bits(0o555).unwrap()));
    assert!(!p.contains(PermissionBits::from_bits(0o666).unwrap()));
    assert!(p.intersects(PermissionBits::from_bits(0o111).unwrap()));
    assert!(!p.intersects(PermissionBits::from_bits(0o100).unwrap()));
    assert!(!p.intersects(PermissionBits::from_bits(0o222).unwrap()));
}

#[test]
fn equality_and_order_follow_the_mode() {
    let a = PermissionBits::new(ModeBits::Custom(4), NULL, NULL);
    let b = PermissionBits::new(READ, ModeBits::Null, ModeBits::Custom(0));
    assert_eq!(a, b);
    assert!(PermissionBits::from_bits(0o644).unwrap() < PermissionBits::from_bits(0o700).unwrap());
    assert!(PermissionBits::from_bits(0o077).unwrap() < PermissionBits::from_bits(0o100).unwrap());
}
