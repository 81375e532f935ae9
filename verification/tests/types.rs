use p4tc::{Entity, MsgFlags, ObjType, Phase, Policy, Transport};

#[test]
fn phase_codes() {
    assert_eq!(Phase::from_raw(1), Phase::Sot);
    assert_eq!(Phase::from_raw(2), Phase::Mot);
    assert_eq!(Phase::from_raw(3), Phase::Eot);
    assert_eq!(Phase::from_raw(4), Phase::Abt);
    assert_eq!(Phase::from_raw(0), Phase::Unspec);
    assert_eq!(Phase::from_raw(99), Phase::Unspec);
    assert_eq!(Phase::Abt.raw(), 4);
}

#[test]
fn only_start_and_middle_phases_carry_data() {
    assert!(Phase::Sot.carries_data());
    assert!(Phase::Mot.carries_data());
    assert!(!Phase::Eot.carries_data());
    assert!(!Phase::Abt.carries_data());
    assert!(!Phase::Unspec.carries_data());
}

#[test]
fn enum_codes() {
    assert_eq!(Transport::Netlink.raw(), 1);
    assert_eq!(Transport::Unspec.raw(), 0);
    assert_eq!(ObjType::Table.raw(), 1);
    assert_eq!(ObjType::Extern.raw(), 2);
    assert_eq!(Entity::Kernel.raw(), 1);
    assert_eq!(Entity::Tc.raw(), 2);
    assert_eq!(Entity::Timer.raw(), 3);
    assert_eq!(Policy::Basic.raw(), 1);
}

#[test]
fn message_flags() {
    assert_eq!(MsgFlags::empty().bits(), 0);
    assert_eq!(MsgFlags::root().bits(), 1);
    assert_eq!(MsgFlags::ack().bits(), 2);
    assert_eq!(MsgFlags::echo().bits(), 4);
    let f = MsgFlags::root().union(MsgFlags::echo());
    assert_eq!(f.bits(), 5);
    assert!(f.contains(MsgFlags::echo()));
    assert!(!f.contains(MsgFlags::ack()));
    assert!(f.contains(MsgFlags::empty()));
}
