//! Capability references: an address that names a resource, with the rights
//! that this one reference grants on it.
//!
//! A reference is a value. `mint` builds the full-rights reference that the
//! platform hands to the owner of an address; the platform, not this crate,
//! decides who gets one. From a reference in hand the rights never grow:
//! `narrow` is the only way to another, and `strip` is the narrowing to
//! nothing.

use vstd::prelude::*;
use crate::rights::{AccessRights, Right};

verus! {

/// The number of bytes in an address.
pub const ADDRESS_LEN: usize = 32;

/// The identity of a resource.
#[derive(Clone, Copy, Debug)]
pub struct Address {
    bytes: [u8; 32],
}

impl Address {
    /// The bytes of the address.
    pub closed spec fn view(&self) -> Seq<u8> {
        self.bytes@
    }

    /// The address with the given bytes.
    pub closed spec fn spec_new(bytes: [u8; 32]) -> Address {
        Address { bytes }
    }

    /// The bytes of the address.
    pub closed spec fn spec_bytes(&self) -> [u8; 32] {
        self.bytes
    }

    /// The address with the given bytes.
    #[verifier::when_used_as_spec(spec_new)]
    pub fn new(bytes: [u8; 32]) -> (a: Address)
        ensures
            a == Self::spec_new(bytes),
            a@ == bytes@,
            a.spec_bytes() == bytes,
    {
        Address { bytes }
    }

    /// The bytes of the address.
    #[verifier::when_used_as_spec(spec_bytes)]
    pub fn bytes(&self) -> (b: [u8; 32])
        ensures
            b == self.spec_bytes(),
            b@ == self@,
    {
        self.bytes
    }

    /// An address is its bytes: it has `ADDRESS_LEN` of them, and two
    /// addresses with the same bytes are the same address.
    pub proof fn lemma_bytes_determine(a: Address, b: Address)
        ensures
            a@.len() == ADDRESS_LEN,
            a@ == b@ <==> a == b,
            Self::spec_new(a.spec_bytes()) == a,
    {
        if a@ == b@ {
            assert(a.bytes =~= b.bytes);
        }
    }
}

impl PartialEq for Address {
    fn eq(&self, other: &Address) -> (r: bool) {
        let mut i: usize = 0;
        while i < 32
            invariant
                i <= 32,
                forall|j: int| 0 <= j < i ==> self.bytes@[j] == other.bytes@[j],
            decreases 32 - i,
        {
            if self.bytes[i] != other.bytes[i] {
                return false;
            }
            i += 1;
        }
        proof {
            assert(self.bytes =~= other.bytes);
        }
        true
    }
}

impl Eq for Address {

}

impl vstd::std_specs::cmp::PartialEqSpecImpl for Address {
    open spec fn obeys_eq_spec() -> bool {
        true
    }

    open spec fn eq_spec(&self, other: &Address) -> bool {
        *self == *other
    }
}

/// A capability reference.
#[derive(Clone, Copy, Debug)]
pub struct Reference {
    address: Address,
    rights: AccessRights,
}

impl Reference {
    /// The resource that the reference names.
    pub closed spec fn spec_address(&self) -> Address {
        self.address
    }

    /// What the reference permits on that resource.
    pub closed spec fn spec_rights(&self) -> AccessRights {
        self.rights
    }

    /// The rights are a mask proper.
    pub open spec fn wf(&self) -> bool {
        self.spec_rights().wf()
    }

    /// Two references name the same resource: their addresses agree,
    /// whatever their rights.
    pub open spec fn spec_same_resource(&self, other: &Reference) -> bool {
        self.spec_address() == other.spec_address()
    }

    /// The reference to `address` with the given rights.
    pub closed spec fn of(address: Address, rights: AccessRights) -> Reference {
        Reference { address, rights }
    }

    /// The reference to a freshly made resource: every right.
    pub open spec fn spec_mint(address: Address) -> Reference {
        Self::of(address, AccessRights::spec_all())
    }

    /// The reference to the same resource with the rights that `mask` and
    /// this reference both grant.
    pub open spec fn spec_narrow(&self, mask: AccessRights) -> Reference {
        Self::of(self.spec_address(), mask.spec_intersection(&self.spec_rights()))
    }

    /// The reference to the same resource with no rights.
    pub open spec fn spec_strip(&self) -> Reference {
        self.spec_narrow(AccessRights::spec_none())
    }

    /// The reference that the owner of a freshly made resource holds: to
    /// `address`, with every right.
    #[verifier::when_used_as_spec(spec_mint)]
    pub fn mint(address: Address) -> (r: Reference)
        ensures
            r == Self::spec_mint(address),
            r.wf(),
            r.spec_address() == address,
            r.spec_rights()@ == Set::<Right>::full(),
    {
        Reference { address, rights: AccessRights::all() }
    }

    /// The resource that the reference names.
    #[verifier::when_used_as_spec(spec_address)]
    pub fn address(&self) -> (a: Address)
        ensures
            a == self.spec_address(),
    {
        self.address
    }

    /// What the reference permits on that resource.
    #[verifier::when_used_as_spec(spec_rights)]
    pub fn rights(&self) -> (m: AccessRights)
        ensures
            m == self.spec_rights(),
            m.wf(),
    {
        proof {
            use_type_invariant(&self.rights);
        }
        self.rights
    }

    /// Whether both references name the same resource.
    #[verifier::when_used_as_spec(spec_same_resource)]
    pub fn same_resource(&self, other: &Reference) -> (b: bool)
        ensures
            b == self.spec_same_resource(other),
    {
        self.address == other.address
    }

    /// Whether the reference permits reading.
    pub fn is_readable(&self) -> (b: bool)
        ensures
            b == self.spec_rights()@.contains(Right::Read),
    {
        self.rights.is_readable()
    }

    /// Whether the reference permits writing.
    pub fn is_writeable(&self) -> (b: bool)
        ensures
            b == self.spec_rights()@.contains(Right::Write),
    {
        self.rights.is_writeable()
    }

    /// Whether the reference permits adding.
    pub fn is_addable(&self) -> (b: bool)
        ensures
            b == self.spec_rights()@.contains(Right::Add),
    {
        self.rights.is_addable()
    }

    /// Whether `narrow` accepts `mask`: it asks for no right that this
    /// reference lacks.
    pub fn can_narrow(&self, mask: AccessRights) -> (b: bool)
        ensures
            b == mask@.subset_of(self.spec_rights()@),
    {
        mask.is_subset_of(&self.rights)
    }

    /// A reference to the same resource with the rights of `mask`. The mask
    /// may drop rights and may not add any.
    #[verifier::when_used_as_spec(spec_narrow)]
    pub fn narrow(&self, mask: AccessRights) -> (r: Reference)
        requires
            mask@.subset_of(self.spec_rights()@),
        ensures
            r == self.spec_narrow(mask),
            r.wf(),
            r.spec_address() == self.spec_address(),
            r.spec_rights() == mask,
            r.spec_rights()@ == mask@.intersect(self.spec_rights()@),
            r.spec_rights()@.subset_of(self.spec_rights()@),
    {
        proof {
            use_type_invariant(&self.rights);
            use_type_invariant(&mask);
            AccessRights::lemma_lattice(mask, self.rights);
        }
        Reference { address: self.address, rights: mask.intersection(&self.rights) }
    }

    /// As `narrow`, for any mask: `None` where the mask asks for a right
    /// that this reference lacks.
    pub fn try_narrow(&self, mask: AccessRights) -> (r: Option<Reference>)
        ensures
            r is Some <==> mask@.subset_of(self.spec_rights()@),
            r matches Some(n) ==> {
                &&& n == self.spec_narrow(mask)
                &&& n.wf()
                &&& n.spec_address() == self.spec_address()
                &&& n.spec_rights() == mask
                &&& n.spec_rights()@.subset_of(self.spec_rights()@)
            },
    {
        if self.can_narrow(mask) {
            Some(self.narrow(mask))
        } else {
            None
        }
    }

    /// A reference to the same resource that conveys its identity and
    /// nothing else.
    #[verifier::when_used_as_spec(spec_strip)]
    pub fn strip(&self) -> (r: Reference)
        ensures
            r == self.spec_strip(),
            r.wf(),
            r.spec_address() == self.spec_address(),
            r.spec_rights()@ == Set::<Right>::empty(),
    {
        let nothing = AccessRights::none();
        proof {
            assert(nothing@.subset_of(self.spec_rights()@));
        }
        self.narrow(nothing)
    }

    /// A reference is its address and its rights.
    pub proof fn lemma_parts_determine(a: Reference, b: Reference)
        ensures
            Self::of(a.spec_address(), a.spec_rights()) == a,
            (a.spec_address() == b.spec_address() && a.spec_rights() == b.spec_rights()) <==> a
                == b,
    {
    }

    /// The parts of a reference built from an address and rights.
    pub proof fn lemma_of(address: Address, rights: AccessRights)
        ensures
            Self::of(address, rights).spec_address() == address,
            Self::of(address, rights).spec_rights() == rights,
    {
    }

    /// Narrowing keeps the address and grants what the mask and the
    /// reference both grant: the mask itself, where it adds nothing.
    pub proof fn lemma_narrow(r: Reference, mask: AccessRights)
        requires
            r.wf(),
            mask.wf(),
        ensures
            r.spec_narrow(mask).wf(),
            r.spec_narrow(mask).spec_address() == r.spec_address(),
            r.spec_narrow(mask).spec_rights()@ == mask@.intersect(r.spec_rights()@),
            mask@.subset_of(r.spec_rights()@) ==> r.spec_narrow(mask).spec_rights() == mask,
    {
        AccessRights::lemma_lattice(mask, r.rights);
    }

    /// Narrowing never escalates: whatever the mask, the narrowed reference
    /// grants no right that the reference it came from did not grant.
    pub proof fn lemma_narrow_never_escalates(r: Reference, mask: AccessRights)
        requires
            r.wf(),
            mask.wf(),
        ensures
            r.spec_narrow(mask).spec_rights()@.subset_of(r.spec_rights()@),
    {
        Self::lemma_narrow(r, mask);
    }

    /// Stripping keeps the address and grants nothing, whatever the
    /// reference granted.
    pub proof fn lemma_strip(r: Reference)
        requires
            r.wf(),
        ensures
            r.spec_strip().wf(),
            r.spec_strip().spec_address() == r.spec_address(),
            r.spec_strip().spec_rights() == AccessRights::spec_none(),
            r.spec_strip().spec_rights()@ == Set::<Right>::empty(),
    {
        AccessRights::lemma_constants();
        AccessRights::lemma_lattice(AccessRights::spec_none(), r.rights);
    }
}

impl PartialEq for Reference {
    fn eq(&self, other: &Reference) -> (r: bool) {
        self.address == other.address && self.rights == other.rights
    }
}

impl Eq for Reference {

}

impl vstd::std_specs::cmp::PartialEqSpecImpl for Reference {
    open spec fn obeys_eq_spec() -> bool {
        true
    }

    open spec fn eq_spec(&self, other: &Reference) -> bool {
        *self == *other
    }
}

} // verus!
