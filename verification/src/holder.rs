//! The contract that holds the refund purse.
//!
//! It keeps at most one purse. Anyone may learn which purse that is; nobody
//! learns more: what `get_refund_purse` hands out names the purse and grants
//! nothing on it.

use vstd::prelude::*;
use crate::dispatch::{Call, Reply};
use crate::purse::PurseId;
use crate::reference::Reference;
use crate::rights::Right;

verus! {

/// What a caller gets to see of a stored purse: its identity, no rights.
pub open spec fn exposed(stored: Option<PurseId>) -> Option<PurseId> {
    match stored {
        Some(purse) => Some(PurseId(purse.0.spec_strip())),
        None => None,
    }
}

/// The state of the contract: the refund purse, once one was set.
#[derive(Clone, Copy, Debug)]
pub struct RefundPurseHolder {
    refund_purse: Option<PurseId>,
}

impl RefundPurseHolder {
    /// The purse as it was set, with the rights it came with.
    pub closed spec fn view(&self) -> Option<PurseId> {
        self.refund_purse
    }

    /// The holder before any purse was set.
    pub closed spec fn spec_new() -> RefundPurseHolder {
        RefundPurseHolder { refund_purse: None }
    }

    /// The holder after `p` was set, whatever it held before.
    pub closed spec fn spec_set_refund_purse(&self, p: PurseId) -> RefundPurseHolder {
        RefundPurseHolder { refund_purse: Some(p) }
    }

    /// What `get_refund_purse` answers.
    pub open spec fn spec_get_refund_purse(&self) -> Option<PurseId> {
        exposed(self@)
    }

    /// The holder after a call, and its answer.
    pub open spec fn spec_serve(&self, call: Call) -> (RefundPurseHolder, Reply) {
        match call {
            Call::SetRefundPurse(purse) => (self.spec_set_refund_purse(purse), Reply::Unit),
            Call::GetRefundPurse => (*self, Reply::Purse(self.spec_get_refund_purse())),
        }
    }

    /// The holder as it is deployed: no refund purse.
    #[verifier::when_used_as_spec(spec_new)]
    pub fn new() -> (holder: RefundPurseHolder)
        ensures
            holder == Self::spec_new(),
            holder@ is None,
            holder.spec_get_refund_purse() is None,
    {
        RefundPurseHolder { refund_purse: None }
    }

    /// Makes `p` the refund purse. What was set before is gone; `p` is kept
    /// with the rights it came with.
    pub fn set_refund_purse(&mut self, p: PurseId)
        ensures
            *final(self) == old(self).spec_set_refund_purse(p),
            final(self)@ == Some(p),
    {
        self.refund_purse = Some(p);
    }

    /// The refund purse, if one was set: the same address, and no rights.
    #[verifier::when_used_as_spec(spec_get_refund_purse)]
    pub fn get_refund_purse(&self) -> (purse: Option<PurseId>)
        ensures
            purse == self.spec_get_refund_purse(),
            purse is Some <==> self@ is Some,
            purse matches Some(seen) ==> {
                &&& self@ matches Some(kept)
                &&& seen.0.spec_address() == kept.0.spec_address()
                &&& seen.0.spec_rights()@ == Set::<Right>::empty()
            },
    {
        match self.refund_purse {
            Some(purse) => Some(PurseId::new(purse.value().strip())),
            None => None,
        }
    }

    /// Answers one call: a set changes the state, a get reads it.
    pub fn serve(&mut self, call: Call) -> (reply: Reply)
        ensures
            (*final(self), reply) == old(self).spec_serve(call),
    {
        match call {
            Call::SetRefundPurse(purse) => {
                self.set_refund_purse(purse);
                Reply::Unit
            },
            Call::GetRefundPurse => Reply::Purse(self.get_refund_purse()),
        }
    }

    /// A holder is the purse it keeps: two holders that keep the same are the
    /// same.
    pub proof fn lemma_view_determines(a: RefundPurseHolder, b: RefundPurseHolder)
        ensures
            a@ == b@ <==> a == b,
    {
    }

    /// A new holder keeps nothing.
    pub proof fn lemma_new()
        ensures
            Self::spec_new()@ is None,
    {
    }

    /// After a set, the holder keeps the purse as it was given.
    pub proof fn lemma_set(holder: RefundPurseHolder, p: PurseId)
        ensures
            holder.spec_set_refund_purse(p)@ == Some(p),
    {
    }

    /// Before any purse was set, there is no refund purse to be seen.
    pub proof fn lemma_unset_by_default()
        ensures
            Self::spec_new().spec_get_refund_purse() is None,
    {
    }

    /// After `p` was set, the refund purse that is seen has the address of
    /// `p`.
    pub proof fn lemma_set_then_get(holder: RefundPurseHolder, p: PurseId)
        requires
            p.0.wf(),
        ensures
            holder.spec_set_refund_purse(p).spec_get_refund_purse() matches Some(seen)
                && seen.0.spec_address() == p.0.spec_address(),
    {
        Reference::lemma_strip(p.0);
    }

    /// The refund purse that is seen grants nothing, whatever rights the
    /// purse was set with.
    pub proof fn lemma_get_strips_rights(holder: RefundPurseHolder, p: PurseId)
        requires
            p.0.wf(),
        ensures
            holder.spec_set_refund_purse(p).spec_get_refund_purse() matches Some(seen)
                && seen.0.spec_rights()@ == Set::<Right>::empty(),
    {
        Reference::lemma_strip(p.0);
    }

    /// The last write wins: after `first` and then `second` were set, the
    /// holder is as if only `second` had ever been set, and the purse that is
    /// seen has the address of `second`.
    pub proof fn lemma_last_write_wins(
        holder: RefundPurseHolder,
        other: RefundPurseHolder,
        first: PurseId,
        second: PurseId,
    )
        requires
            first.0.wf(),
            second.0.wf(),
        ensures
            holder.spec_set_refund_purse(first).spec_set_refund_purse(second)
                == other.spec_set_refund_purse(second),
            holder.spec_set_refund_purse(first).spec_set_refund_purse(
                second,
            ).spec_get_refund_purse() matches Some(seen) && seen.0.spec_address()
                == second.0.spec_address() && (first.0.spec_address() != second.0.spec_address()
                ==> seen.0.spec_address() != first.0.spec_address()),
    {
        Reference::lemma_strip(second.0);
    }
}

} // verus!
