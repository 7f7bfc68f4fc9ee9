//! Calls to the contract that holds the refund purse: what is asked of it,
//! and what it answers.
//!
//! Making the call is the platform's work. Here a call is a value: the
//! contract it is aimed at, the entry point, the argument, and the keys that
//! are handed along with it.

use vstd::prelude::*;
use crate::key::{ContractPointer, Key};
use crate::purse::PurseId;

verus! {

/// One call that the holder of the refund purse accepts.
#[derive(Clone, Copy, Debug, PartialEq, Eq)]
pub enum Call {
    /// Make this purse the refund purse.
    SetRefundPurse(PurseId),
    /// Tell which purse is the refund purse.
    GetRefundPurse,
}

/// A call together with the contract it is aimed at.
#[derive(Clone, Copy, Debug, PartialEq, Eq)]
pub struct Request {
    pub target: ContractPointer,
    pub call: Call,
}

/// What the holder answers to a call.
#[derive(Clone, Copy, Debug, PartialEq, Eq)]
pub enum Reply {
    /// The answer to `SetRefundPurse`: done.
    Unit,
    /// The answer to `GetRefundPurse`: the refund purse, if one is set.
    Purse(Option<PurseId>),
}

impl Call {
    /// The name of the entry point that the call enters by.
    pub open spec fn spec_entry_point(&self) -> Seq<char> {
        match *self {
            Call::SetRefundPurse(_) => "set_refund_purse"@,
            Call::GetRefundPurse => "get_refund_purse"@,
        }
    }

    /// The keys handed along with the call, so that the callee may use them:
    /// the purse that is passed, and nothing for a call that passes none.
    pub open spec fn spec_extra_keys(&self) -> Seq<Key> {
        match *self {
            Call::SetRefundPurse(purse) => seq![spec_purse_to_key(&purse)],
            Call::GetRefundPurse => Seq::empty(),
        }
    }

    /// The name of the entry point that the call enters by.
    pub fn entry_point(&self) -> (name: &'static str)
        ensures
            name@ == self.spec_entry_point(),
    {
        match *self {
            Call::SetRefundPurse(_) => "set_refund_purse",
            Call::GetRefundPurse => "get_refund_purse",
        }
    }

    /// The keys handed along with the call, so that the callee may use them:
    /// the purse that is passed, and nothing for a call that passes none.
    pub fn extra_keys(&self) -> (keys: Vec<Key>)
        ensures
            keys@ == self.spec_extra_keys(),
    {
        let mut keys: Vec<Key> = Vec::new();
        match *self {
            Call::SetRefundPurse(purse) => {
                keys.push(purse_to_key(&purse));
            },
            Call::GetRefundPurse => {},
        }
        proof {
            assert(keys@ =~= self.spec_extra_keys());
        }
        keys
    }
}

/// The key under which a purse is handed to another contract.
pub open spec fn spec_purse_to_key(p: &PurseId) -> Key {
    Key::URef(p.0)
}

/// The key under which a purse is handed to another contract: its reference,
/// rights and all.
#[verifier::when_used_as_spec(spec_purse_to_key)]
pub fn purse_to_key(p: &PurseId) -> (k: Key)
    ensures
        k == Key::URef(p.0),
{
    Key::URef(p.value())
}

/// The call that makes `p` the refund purse of the contract at `pos`.
pub open spec fn spec_set_refund_purse(pos: &ContractPointer, p: &PurseId) -> Request {
    Request { target: *pos, call: Call::SetRefundPurse(*p) }
}

/// The call that asks the contract at `pos` for its refund purse.
pub open spec fn spec_get_refund_purse(pos: &ContractPointer) -> Request {
    Request { target: *pos, call: Call::GetRefundPurse }
}

/// The call that makes `p` the refund purse of the contract at `pos`.
#[verifier::when_used_as_spec(spec_set_refund_purse)]
pub fn set_refund_purse(pos: &ContractPointer, p: &PurseId) -> (request: Request)
    ensures
        request == spec_set_refund_purse(pos, p),
{
    Request { target: *pos, call: Call::SetRefundPurse(*p) }
}

/// The call that asks the contract at `pos` for its refund purse.
#[verifier::when_used_as_spec(spec_get_refund_purse)]
pub fn get_refund_purse(pos: &ContractPointer) -> (request: Request)
    ensures
        request == spec_get_refund_purse(pos),
{
    Request { target: *pos, call: Call::GetRefundPurse }
}

} // verus!
