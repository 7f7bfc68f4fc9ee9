//! From a registered name to a contract that can be called.
//!
//! The name leads to an outer reference; the slot behind that reference
//! stores an inner one; the contract pointer is the inner reference narrowed
//! to reading. The registry answers the two questions, and the two functions
//! here decide on each answer.

use vstd::prelude::*;
use crate::key::{ContractPointer, Key};
use crate::reference::Reference;
use crate::rights::{AccessRights, Right};

verus! {

/// Why a name did not lead to a contract.
#[derive(Clone, Copy, Debug, PartialEq, Eq, Structural)]
pub enum ResolveError {
    /// The name is not registered, or not for a reference.
    NotFound,
    /// The slot behind the outer reference stores no reference that can be
    /// narrowed to a readable contract pointer.
    WrongShape,
}

impl ResolveError {
    /// The number under which the failure is reported.
    pub open spec fn spec_code(&self) -> u32 {
        match *self {
            ResolveError::NotFound => 1001,
            ResolveError::WrongShape => 1000,
        }
    }

    /// The number under which the failure is reported.
    #[verifier::when_used_as_spec(spec_code)]
    pub fn code(&self) -> (c: u32)
        ensures
            c == self.spec_code(),
    {
        match *self {
            ResolveError::NotFound => 1001,
            ResolveError::WrongShape => 1000,
        }
    }
}

/// The outer reference, from what the registry found under the name.
pub open spec fn spec_outer_reference(found: Option<Key>) -> Result<Reference, ResolveError> {
    match found {
        Some(Key::URef(outer)) => Ok(outer),
        _ => Err(ResolveError::NotFound),
    }
}

/// The contract pointer, from what the slot behind the outer reference
/// stores.
pub open spec fn spec_contract_pointer(stored: Key) -> Result<ContractPointer, ResolveError> {
    match stored {
        Key::URef(inner) if inner.spec_rights()@.contains(Right::Read) => Ok(
            ContractPointer::URef(inner.spec_narrow(AccessRights::spec_only(Right::Read))),
        ),
        _ => Err(ResolveError::WrongShape),
    }
}

/// First step: the registry was asked for the name and `found` is its
/// answer. The outer reference is the reference registered there; a missing
/// name, or a key of another kind, is `NotFound`.
#[verifier::when_used_as_spec(spec_outer_reference)]
pub fn outer_reference(found: Option<Key>) -> (r: Result<Reference, ResolveError>)
    ensures
        r == spec_outer_reference(found),
        r is Ok <==> (found matches Some(key) && key is URef),
{
    match found {
        Some(key) => match key.to_reference() {
            Some(outer) => Ok(outer),
            None => Err(ResolveError::NotFound),
        },
        None => Err(ResolveError::NotFound),
    }
}

/// Second step: the slot behind the outer reference was read and `stored` is
/// what it holds. The contract pointer names the same resource as the stored
/// reference and permits reading only. A key that is no reference, or a
/// reference that does not itself permit reading, is `WrongShape`.
#[verifier::when_used_as_spec(spec_contract_pointer)]
pub fn contract_pointer(stored: Key) -> (r: Result<ContractPointer, ResolveError>)
    ensures
        r == spec_contract_pointer(stored),
        r is Ok <==> (stored matches Key::URef(inner) && inner.spec_rights()@.contains(
            Right::Read,
        )),
        r matches Ok(pointer) ==> {
            &&& pointer matches ContractPointer::URef(target)
            &&& stored matches Key::URef(inner)
            &&& target.spec_address() == inner.spec_address()
            &&& target.spec_rights()@ == set![Right::Read]
        },
{
    match stored.to_contract_pointer() {
        Some(ContractPointer::URef(inner)) => {
            let read_only = AccessRights::only(Right::Read);
            if inner.can_narrow(read_only) {
                Ok(ContractPointer::URef(inner.narrow(read_only)))
            } else {
                Err(ResolveError::WrongShape)
            }
        },
        _ => Err(ResolveError::WrongShape),
    }
}

} // verus!
