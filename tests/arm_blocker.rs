use flight_core::arm_blocker::{ArmBlocker, ArmFlag};

#[test]
fn empty_mask_is_empty() {
    assert!(ArmBlocker::empty().is_empty());
    assert_eq!(ArmBlocker::empty().bits(), 0);
    assert!(!ArmBlocker::from_flag(ArmFlag::NoGyrCalib).is_empty());
}

#[test]
fn flag_bits() {
    assert_eq!(ArmFlag::NoGyrCalib.bit(), 1);
    assert_eq!(ArmFlag::HighAttitude.bit(), 1 << 8);
    assert_eq!(ArmFlag::CmdDisarm.bit(), 1 << 12);
    assert_eq!(ArmBlocker::all().bits(), 0x1FFF);
}

#[test]
fn truncate_drops_unknown_bits() {
    let b = ArmBlocker::from_bits_truncate(0xE000);
    assert!(b.is_empty());
    let b = ArmBlocker::from_bits_truncate(0xE001);
    assert_eq!(b.bits(), 1);
    assert!(b.contains(ArmFlag::NoGyrCalib));
    assert!(!b.contains(ArmFlag::CmdDisarm));
}

#[test]
fn union_and_with() {
    let a = ArmBlocker::from_flag(ArmFlag::RxFailsafe);
    let b = ArmBlocker::from_flag(ArmFlag::BootGrace).with(ArmFlag::SystemLoad);
    let u = a.union(&b);
    assert_eq!(u.bits(), (1 << 11) | (1 << 9) | (1 << 10));
    assert!(u.contains(ArmFlag::RxFailsafe));
    assert!(u.contains(ArmFlag::SystemLoad));
    assert!(!u.contains(ArmFlag::CmdDisarm));
    assert_eq!(a.with(ArmFlag::RxFailsafe), a);
}

#[test]
fn without_clears_one_flag() {
    let b = ArmBlocker::from_flag(ArmFlag::CmdDisarm).with(ArmFlag::NoAccData);
    let c = b.without(ArmFlag::CmdDisarm);
    assert!(!c.contains(ArmFlag::CmdDisarm));
    assert!(c.contains(ArmFlag::NoAccData));
    assert_eq!(c.bits(), 1 << 5);
    assert!(c.without(ArmFlag::NoAccData).is_empty());
    assert_eq!(c.without(ArmFlag::BootGrace), c);
}
