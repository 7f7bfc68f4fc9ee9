use refund_purse::key::{ContractPointer, Key};
use refund_purse::reference::{Address, Reference};
use refund_purse::resolve::{contract_pointer, outer_reference, ResolveError};
use refund_purse::rights::{AccessRights, Right};

fn address(fill: u8) -> Address {
    Address::new([fill; 32])
}

#[test]
fn codes_of_the_two_failures() {
    assert_eq!(ResolveError::NotFound.code(), 1001);
    assert_eq!(ResolveError::WrongShape.code(), 1000);
}

#[test]
fn key_to_reference() {
    let r = Reference::mint(address(1));
    assert_eq!(Key::URef(r).to_reference(), Some(r));
    assert_eq!(Key::Hash(address(1)).to_reference(), None);
    assert_eq!(Key::Account(address(1)).to_reference(), None);
    assert_eq!(Key::Local(address(1)).to_reference(), None);
}

#[test]
fn key_to_contract_pointer() {
    let r = Reference::mint(address(1));
    assert_eq!(Key::URef(r).to_contract_pointer(), Some(ContractPointer::URef(r)));
    assert_eq!(
        Key::Hash(address(2)).to_contract_pointer(),
        Some(ContractPointer::Hash(address(2)))
    );
    assert_eq!(Key::Account(address(1)).to_contract_pointer(), None);
    assert_eq!(Key::Local(address(1)).to_contract_pointer(), None);
}

#[test]
fn outer_reference_of_a_registered_reference() {
    let r = Reference::mint(address(3)).narrow(AccessRights::only(Right::Read));
    assert_eq!(outer_reference(Some(Key::URef(r))), Ok(r));
    let stripped = r.strip();
    assert_eq!(outer_reference(Some(Key::URef(stripped))), Ok(stripped));
}

#[test]
fn outer_reference_not_found() {
    assert_eq!(outer_reference(None), Err(ResolveError::NotFound));
    assert_eq!(outer_reference(Some(Key::Hash(address(3)))), Err(ResolveError::NotFound));
    assert_eq!(outer_reference(Some(Key::Account(address(3)))), Err(ResolveError::NotFound));
    assert_eq!(outer_reference(Some(Key::Local(address(3)))), Err(ResolveError::NotFound));
}

#[test]
fn contract_pointer_is_read_only() {
    let inner = Reference::mint(address(4));
    let expected = inner.narrow(AccessRights::only(Right::Read));
    assert_eq!(contract_pointer(Key::URef(inner)), Ok(ContractPointer::URef(expected)));
    match contract_pointer(Key::URef(inner)) {
        Ok(ContractPointer::URef(target)) => {
            assert_eq!(target.address(), address(4));
            assert_eq!(target.rights().bits(), 1);
        }
        other => panic!("{:?}", other),
    }
    assert_eq!(contract_pointer(Key::URef(expected)), Ok(ContractPointer::URef(expected)));
    let read_add = inner.narrow(AccessRights::from_bits(0b101).unwrap());
    assert_eq!(contract_pointer(Key::URef(read_add)), Ok(ContractPointer::URef(expected)));
}

#[test]
fn contract_pointer_wrong_shape() {
    assert_eq!(contract_pointer(Key::Hash(address(5))), Err(ResolveError::WrongShape));
    assert_eq!(contract_pointer(Key::Account(address(5))), Err(ResolveError::WrongShape));
    assert_eq!(contract_pointer(Key::Local(address(5))), Err(ResolveError::WrongShape));
}

#[test]
fn contract_pointer_never_adds_reading() {
    let inner = Reference::mint(address(6));
    let write_add = inner.narrow(AccessRights::from_bits(0b110).unwrap());
    assert_eq!(contract_pointer(Key::URef(write_add)), Err(ResolveError::WrongShape));
    assert_eq!(contract_pointer(Key::URef(inner.strip())), Err(ResolveError::WrongShape));
}
