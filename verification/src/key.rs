//! Keys: what a name in the registry, or a slot in storage, may hold.

use vstd::prelude::*;
use crate::reference::{Address, Reference};

verus! {

/// A value that the registry resolves a name to, or that a slot stores.
#[derive(Clone, Copy, Debug, PartialEq, Eq)]
pub enum Key {
    /// An account, by its address.
    Account(Address),
    /// A contract stored under a hash.
    Hash(Address),
    /// A capability reference.
    URef(Reference),
    /// A value local to one contract.
    Local(Address),
}

/// What a cross-contract call can be aimed at.
#[derive(Clone, Copy, Debug, PartialEq, Eq)]
pub enum ContractPointer {
    /// A contract stored under a hash.
    Hash(Address),
    /// A contract stored behind a reference.
    URef(Reference),
}

impl Key {
    /// The reference that the key holds, if it holds one.
    pub open spec fn spec_to_reference(&self) -> Option<Reference> {
        match *self {
            Key::URef(reference) => Some(reference),
            _ => None,
        }
    }

    /// The contract that the key points to: by reference or by hash. An
    /// account or a local value is no contract.
    pub open spec fn spec_to_contract_pointer(&self) -> Option<ContractPointer> {
        match *self {
            Key::URef(reference) => Some(ContractPointer::URef(reference)),
            Key::Hash(hash) => Some(ContractPointer::Hash(hash)),
            _ => None,
        }
    }

    /// The reference that the key holds, if it holds one.
    #[verifier::when_used_as_spec(spec_to_reference)]
    pub fn to_reference(&self) -> (r: Option<Reference>)
        ensures
            r == self.spec_to_reference(),
    {
        match *self {
            Key::URef(reference) => Some(reference),
            _ => None,
        }
    }

    /// The contract that the key points to: by reference or by hash. An
    /// account or a local value is no contract.
    #[verifier::when_used_as_spec(spec_to_contract_pointer)]
    pub fn to_contract_pointer(&self) -> (p: Option<ContractPointer>)
        ensures
            p == self.spec_to_contract_pointer(),
    {
        match *self {
            Key::URef(reference) => Some(ContractPointer::URef(reference)),
            Key::Hash(hash) => Some(ContractPointer::Hash(hash)),
            _ => None,
        }
    }
}

} // verus!
