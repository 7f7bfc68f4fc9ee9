//! Purses: resources that hold value, known by a reference.

use vstd::prelude::*;
use crate::reference::Reference;

verus! {

/// The reference by which a purse is known.
#[derive(Clone, Copy, Debug, PartialEq, Eq)]
pub struct PurseId(pub Reference);

impl PurseId {
    /// The purse's reference.
    pub open spec fn spec_value(&self) -> Reference {
        self.0
    }

    /// The purse known by `reference`.
    pub fn new(reference: Reference) -> (p: PurseId)
        ensures
            p == PurseId(reference),
    {
        PurseId(reference)
    }

    /// The purse's reference.
    #[verifier::when_used_as_spec(spec_value)]
    pub fn value(&self) -> (r: Reference)
        ensures
            r == self.0,
    {
        self.0
    }
}

} // verus!
