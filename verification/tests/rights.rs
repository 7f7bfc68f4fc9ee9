use refund_purse::rights::{AccessRights, Right, ALL_BITS};

#[test]
fn bits_of_each_right() {
    assert_eq!(Right::Read.bit(), 1);
    assert_eq!(Right::Write.bit(), 2);
    assert_eq!(Right::Add.bit(), 4);
    assert_eq!(AccessRights::only(Right::Read).bits(), 1);
    assert_eq!(AccessRights::only(Right::Write).bits(), 2);
    assert_eq!(AccessRights::only(Right::Add).bits(), 4);
}

#[test]
fn none_and_all() {
    assert_eq!(AccessRights::none().bits(), 0);
    assert_eq!(AccessRights::all().bits(), 7);
    assert_eq!(ALL_BITS, 7);
    assert!(AccessRights::none().is_none());
    assert!(!AccessRights::all().is_none());
    assert!(!AccessRights::only(Right::Add).is_none());
}

#[test]
fn from_bits_accepts_the_three_rights_only() {
    for bits in 0u8..=7 {
        let mask = AccessRights::from_bits(bits).unwrap();
        assert_eq!(mask.bits(), bits);
    }
    assert_eq!(AccessRights::from_bits(8), None);
    assert_eq!(AccessRights::from_bits(0b1001), None);
    assert_eq!(AccessRights::from_bits(255), None);
}

#[test]
fn permits_follows_the_bits() {
    let read_add = AccessRights::from_bits(0b101).unwrap();
    assert!(read_add.permits(Right::Read));
    assert!(!read_add.permits(Right::Write));
    assert!(read_add.permits(Right::Add));
    assert!(read_add.is_readable());
    assert!(!read_add.is_writeable());
    assert!(read_add.is_addable());
}

#[test]
fn none_permits_nothing() {
    let none = AccessRights::none();
    assert!(!none.is_readable());
    assert!(!none.is_writeable());
    assert!(!none.is_addable());
}

#[test]
fn all_permits_everything() {
    let all = AccessRights::all();
    assert!(all.is_readable());
    assert!(all.is_writeable());
    assert!(all.is_addable());
}

#[test]
fn intersection_keeps_common_rights() {
    let read_write = AccessRights::from_bits(0b011).unwrap();
    let write_add = AccessRights::from_bits(0b110).unwrap();
    assert_eq!(read_write.intersection(&write_add), AccessRights::only(Right::Write));
    assert_eq!(
        AccessRights::only(Right::Read).intersection(&AccessRights::only(Right::Add)),
        AccessRights::none()
    );
    assert_eq!(read_write.intersection(&AccessRights::all()), read_write);
}

#[test]
fn union_joins_rights() {
    let read = AccessRights::only(Right::Read);
    let add = AccessRights::only(Right::Add);
    assert_eq!(read.union(&add).bits(), 0b101);
    assert_eq!(read.union(&AccessRights::none()), read);
    assert_eq!(read.union(&AccessRights::all()), AccessRights::all());
}

#[test]
fn subset_on_every_pair() {
    for a in 0u8..=7 {
        for b in 0u8..=7 {
            let x = AccessRights::from_bits(a).unwrap();
            let y = AccessRights::from_bits(b).unwrap();
            assert_eq!(x.is_subset_of(&y), a & b == a);
        }
    }
}

#[test]
fn subset_examples() {
    let read = AccessRights::only(Right::Read);
    let write = AccessRights::only(Right::Write);
    assert!(AccessRights::none().is_subset_of(&read));
    assert!(read.is_subset_of(&AccessRights::all()));
    assert!(read.is_subset_of(&read));
    assert!(!read.is_subset_of(&write));
    assert!(!AccessRights::all().is_subset_of(&read));
}
