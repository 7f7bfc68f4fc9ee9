use refund_purse::purse::PurseId;
use refund_purse::reference::{Address, Reference, ADDRESS_LEN};
use refund_purse::rights::{AccessRights, Right};

fn address(fill: u8) -> Address {
    Address::new([fill; 32])
}

#[test]
fn address_keeps_its_bytes() {
    let mut bytes = [0u8; 32];
    bytes[0] = 9;
    bytes[31] = 200;
    let a = Address::new(bytes);
    assert_eq!(a.bytes(), bytes);
    assert_eq!(a.bytes().len(), ADDRESS_LEN);
}

#[test]
fn addresses_compare_by_every_byte() {
    let mut bytes = [5u8; 32];
    let a = Address::new(bytes);
    assert_eq!(a, Address::new([5u8; 32]));
    bytes[31] = 6;
    assert_ne!(a, Address::new(bytes));
    let mut other = [5u8; 32];
    other[0] = 4;
    assert_ne!(a, Address::new(other));
}

#[test]
fn mint_grants_every_right() {
    let r = Reference::mint(address(1));
    assert_eq!(r.address(), address(1));
    assert_eq!(r.rights(), AccessRights::all());
    assert!(r.is_readable());
    assert!(r.is_writeable());
    assert!(r.is_addable());
}

#[test]
fn narrow_keeps_address_and_takes_the_mask() {
    let r = Reference::mint(address(2));
    let read_add = AccessRights::from_bits(0b101).unwrap();
    assert!(r.can_narrow(read_add));
    let n = r.narrow(read_add);
    assert_eq!(n.address(), address(2));
    assert_eq!(n.rights(), read_add);
    assert!(n.is_readable());
    assert!(!n.is_writeable());
    assert!(n.is_addable());
    let again = n.narrow(AccessRights::only(Right::Add));
    assert_eq!(again.rights().bits(), 4);
    assert_eq!(again.address(), address(2));
}

#[test]
fn narrow_to_the_same_rights_changes_nothing() {
    let r = Reference::mint(address(2)).narrow(AccessRights::only(Right::Write));
    assert_eq!(r.narrow(AccessRights::only(Right::Write)), r);
}

#[test]
fn try_narrow_refuses_to_add_a_right() {
    let read = Reference::mint(address(3)).narrow(AccessRights::only(Right::Read));
    assert!(!read.can_narrow(AccessRights::only(Right::Write)));
    assert_eq!(read.try_narrow(AccessRights::only(Right::Write)), None);
    assert_eq!(read.try_narrow(AccessRights::all()), None);
    assert_eq!(read.try_narrow(AccessRights::from_bits(0b011).unwrap()), None);
    assert_eq!(read.try_narrow(AccessRights::only(Right::Read)), Some(read));
    let none = read.try_narrow(AccessRights::none()).unwrap();
    assert_eq!(none.rights(), AccessRights::none());
    assert_eq!(none.address(), address(3));
}

#[test]
fn try_narrow_never_escalates_on_any_pair() {
    for have in 0u8..=7 {
        for want in 0u8..=7 {
            let r = Reference::mint(address(4)).narrow(AccessRights::from_bits(have).unwrap());
            let mask = AccessRights::from_bits(want).unwrap();
            match r.try_narrow(mask) {
                Some(n) => {
                    assert_eq!(want & have, want);
                    assert_eq!(n.rights().bits(), want);
                    assert!(n.rights().is_subset_of(&r.rights()));
                    assert_eq!(n.address(), r.address());
                }
                None => assert_ne!(want & have, want),
            }
        }
    }
}

#[test]
fn strip_leaves_identity_only() {
    for have in 0u8..=7 {
        let r = Reference::mint(address(5)).narrow(AccessRights::from_bits(have).unwrap());
        let s = r.strip();
        assert_eq!(s.address(), address(5));
        assert_eq!(s.rights().bits(), 0);
        assert!(!s.is_readable());
        assert!(!s.is_writeable());
        assert!(!s.is_addable());
        assert!(s.same_resource(&r));
    }
}

#[test]
fn same_resource_ignores_rights() {
    let full = Reference::mint(address(6));
    let read = full.narrow(AccessRights::only(Right::Read));
    assert!(full.same_resource(&read));
    assert_ne!(full, read);
    assert!(!full.same_resource(&Reference::mint(address(7))));
}

#[test]
fn references_compare_by_address_and_rights() {
    let a = Reference::mint(address(8));
    assert_eq!(a, Reference::mint(address(8)));
    assert_ne!(a, Reference::mint(address(9)));
    assert_ne!(a, a.strip());
}

#[test]
fn purse_wraps_its_reference() {
    let r = Reference::mint(address(10));
    let p = PurseId::new(r);
    assert_eq!(p.value(), r);
    assert_eq!(p, PurseId(r));
}
