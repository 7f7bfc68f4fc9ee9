//! Access rights: the set of operations that one reference permits.
//!
//! A mask is stored as three bits and viewed as a `Set<Right>`.

use vstd::prelude::*;

verus! {

/// One operation that a reference may permit on the resource it names.
#[derive(Clone, Copy, Debug, PartialEq, Eq, Structural)]
pub enum Right {
    Read,
    Write,
    Add,
}

impl Right {
    /// The bit that stands for this right in a mask.
    pub open spec fn spec_bit(&self) -> u8 {
        match *self {
            Right::Read => 1u8,
            Right::Write => 2u8,
            Right::Add => 4u8,
        }
    }

    /// The bit that stands for this right in a mask.
    #[verifier::when_used_as_spec(spec_bit)]
    pub fn bit(&self) -> (b: u8)
        ensures
            b == self.spec_bit(),
    {
        match *self {
            Right::Read => 1u8,
            Right::Write => 2u8,
            Right::Add => 4u8,
        }
    }
}

/// The bits of a mask that grants every right.
pub const ALL_BITS: u8 = 7u8;

/// A set of rights, attached to one reference.
#[derive(Clone, Copy, Debug, PartialEq, Eq, Structural)]
pub struct AccessRights {
    bits: u8,
}

impl AccessRights {
    /// The mask as bits: 1 for read, 2 for write, 4 for add.
    pub closed spec fn spec_bits(&self) -> u8 {
        self.bits
    }

    /// A mask holds no bit beyond the three rights.
    #[verifier::type_invariant]
    pub open spec fn wf(self) -> bool {
        self.spec_bits() <= ALL_BITS
    }

    /// Whether the mask permits `right`.
    pub open spec fn grants(self, right: Right) -> bool {
        self.spec_bits() & right.spec_bit() != 0
    }

    /// The rights that the mask permits.
    pub open spec fn view(self) -> Set<Right> {
        Set::new(|right: Right| self.grants(right))
    }

    /// The mask with the given bits; a mask proper where `bits <= ALL_BITS`.
    pub closed spec fn of_bits(bits: u8) -> AccessRights {
        AccessRights { bits }
    }

    /// The mask that permits nothing.
    pub open spec fn spec_none() -> AccessRights {
        Self::of_bits(0)
    }

    /// The mask that permits everything.
    pub open spec fn spec_all() -> AccessRights {
        Self::of_bits(ALL_BITS)
    }

    /// The mask that permits `right` and nothing else.
    pub open spec fn spec_only(right: Right) -> AccessRights {
        Self::of_bits(right.spec_bit())
    }

    /// The rights that both masks permit.
    pub open spec fn spec_intersection(&self, other: &AccessRights) -> AccessRights {
        Self::of_bits(self.spec_bits() & other.spec_bits())
    }

    /// The rights that either mask permits.
    pub open spec fn spec_union(&self, other: &AccessRights) -> AccessRights {
        Self::of_bits(self.spec_bits() | other.spec_bits())
    }

    /// The mask that permits nothing.
    #[verifier::when_used_as_spec(spec_none)]
    pub fn none() -> (r: AccessRights)
        ensures
            r == Self::spec_none(),
            r.wf(),
            r.spec_bits() == 0,
            r@ == Set::<Right>::empty(),
    {
        let r = AccessRights { bits: 0 };
        proof {
            lemma_bits_of_nothing();
            assert(r@ =~= Set::<Right>::empty());
        }
        r
    }

    /// The mask that permits everything.
    #[verifier::when_used_as_spec(spec_all)]
    pub fn all() -> (r: AccessRights)
        ensures
            r == Self::spec_all(),
            r.wf(),
            r.spec_bits() == ALL_BITS,
            r@ == Set::<Right>::full(),
    {
        let r = AccessRights { bits: ALL_BITS };
        proof {
            lemma_bits_of_everything();
            assert(r@ =~= Set::<Right>::full());
        }
        r
    }

    /// The mask that permits `right` and nothing else.
    #[verifier::when_used_as_spec(spec_only)]
    pub fn only(right: Right) -> (r: AccessRights)
        ensures
            r == Self::spec_only(right),
            r.wf(),
            r.spec_bits() == right.spec_bit(),
            r@ == set![right],
    {
        let r = AccessRights { bits: right.bit() };
        proof {
            lemma_bits_of_one();
            assert(r@ =~= set![right]);
        }
        r
    }

    /// The mask with exactly these bits, unless a bit beyond the three
    /// rights is set.
    pub fn from_bits(bits: u8) -> (r: Option<AccessRights>)
        ensures
            r is Some <==> bits <= ALL_BITS,
            r matches Some(m) ==> m == Self::of_bits(bits) && m.wf() && m.spec_bits() == bits,
    {
        if bits <= ALL_BITS {
            Some(AccessRights { bits })
        } else {
            None
        }
    }

    /// The mask as bits: 1 for read, 2 for write, 4 for add.
    #[verifier::when_used_as_spec(spec_bits)]
    pub fn bits(&self) -> (b: u8)
        ensures
            b == self.spec_bits(),
            b <= ALL_BITS,
    {
        proof {
            use_type_invariant(self);
        }
        self.bits
    }

    /// Whether the mask permits `right`.
    pub fn permits(&self, right: Right) -> (b: bool)
        ensures
            b == self.grants(right),
            b == self@.contains(right),
    {
        self.bits & right.bit() != 0
    }

    /// Whether the mask permits reading.
    pub fn is_readable(&self) -> (b: bool)
        ensures
            b == self@.contains(Right::Read),
    {
        self.permits(Right::Read)
    }

    /// Whether the mask permits writing.
    pub fn is_writeable(&self) -> (b: bool)
        ensures
            b == self@.contains(Right::Write),
    {
        self.permits(Right::Write)
    }

    /// Whether the mask permits adding.
    pub fn is_addable(&self) -> (b: bool)
        ensures
            b == self@.contains(Right::Add),
    {
        self.permits(Right::Add)
    }

    /// Whether the mask permits nothing.
    pub fn is_none(&self) -> (b: bool)
        ensures
            b == (self@ == Set::<Right>::empty()),
            b == (self.spec_bits() == 0),
    {
        proof {
            use_type_invariant(self);
            Self::lemma_empty_view(*self);
        }
        self.bits == 0
    }

    /// Whether every right of this mask is also in `other`.
    pub fn is_subset_of(&self, other: &AccessRights) -> (b: bool)
        ensures
            b == self@.subset_of(other@),
    {
        proof {
            use_type_invariant(self);
            use_type_invariant(other);
            Self::lemma_subset_bits(*self, *other);
        }
        self.bits & other.bits == self.bits
    }

    /// The rights that both masks permit.
    #[verifier::when_used_as_spec(spec_intersection)]
    pub fn intersection(&self, other: &AccessRights) -> (r: AccessRights)
        ensures
            r == self.spec_intersection(other),
            r.wf(),
            r.spec_bits() == self.spec_bits() & other.spec_bits(),
            r@ == self@.intersect(other@),
    {
        proof {
            use_type_invariant(self);
            use_type_invariant(other);
            lemma_bits_of_and(self.bits, other.bits);
        }
        let r = AccessRights { bits: self.bits & other.bits };
        proof {
            assert(r@ =~= self@.intersect(other@));
        }
        r
    }

    /// The rights that either mask permits.
    #[verifier::when_used_as_spec(spec_union)]
    pub fn union(&self, other: &AccessRights) -> (r: AccessRights)
        ensures
            r == self.spec_union(other),
            r.wf(),
            r.spec_bits() == self.spec_bits() | other.spec_bits(),
            r@ == self@.union(other@),
    {
        proof {
            use_type_invariant(self);
            use_type_invariant(other);
            lemma_bits_of_or(self.bits, other.bits);
        }
        let r = AccessRights { bits: self.bits | other.bits };
        proof {
            assert(r@ =~= self@.union(other@));
        }
        r
    }

    /// Up to `ALL_BITS`, every number is the bits of one mask.
    pub proof fn lemma_of_bits(bits: u8)
        requires
            bits <= ALL_BITS,
        ensures
            Self::of_bits(bits).wf(),
            Self::of_bits(bits).spec_bits() == bits,
    {
    }

    /// A mask is its bits: two masks with the same bits are the same mask.
    pub proof fn lemma_bits_determine(a: AccessRights, b: AccessRights)
        requires
            a.spec_bits() == b.spec_bits(),
        ensures
            a == b,
    {
    }

    /// What the masks built from nothing, everything and one right permit.
    pub proof fn lemma_constants()
        ensures
            Self::spec_none().wf(),
            Self::spec_none()@ == Set::<Right>::empty(),
            Self::spec_all().wf(),
            Self::spec_all()@ == Set::<Right>::full(),
            forall|right: Right|
                #![trigger Self::spec_only(right)]
                Self::spec_only(right).wf() && Self::spec_only(right)@ == set![right],
    {
        lemma_bits_of_nothing();
        lemma_bits_of_everything();
        lemma_bits_of_one();
        assert(Self::spec_none()@ =~= Set::<Right>::empty());
        assert(Self::spec_all()@ =~= Set::<Right>::full());
        assert forall|right: Right|
            #![trigger Self::spec_only(right)]
            Self::spec_only(right).wf() && Self::spec_only(right)@ == set![right] by {
            assert(Self::spec_only(right)@ =~= set![right]);
        }
    }

    /// The intersection of two masks permits what both permit, and their
    /// union what either permits.
    pub proof fn lemma_lattice(a: AccessRights, b: AccessRights)
        requires
            a.wf(),
            b.wf(),
        ensures
            a.spec_intersection(&b).wf(),
            a.spec_intersection(&b)@ == a@.intersect(b@),
            a.spec_union(&b).wf(),
            a.spec_union(&b)@ == a@.union(b@),
            a@.subset_of(b@) ==> a.spec_intersection(&b) == a,
            b@.subset_of(a@) ==> a.spec_intersection(&b) == b,
    {
        lemma_bits_of_and(a.bits, b.bits);
        lemma_bits_of_or(a.bits, b.bits);
        assert(a.spec_intersection(&b)@ =~= a@.intersect(b@));
        assert(a.spec_union(&b)@ =~= a@.union(b@));
        Self::lemma_subset_bits(a, b);
        Self::lemma_subset_bits(b, a);
        let (x, y) = (a.bits, b.bits);
        assert(x & y == y & x) by (bit_vector);
    }

    /// A mask permits nothing exactly when no bit is set.
    pub proof fn lemma_empty_view(a: AccessRights)
        requires
            a.wf(),
        ensures
            (a@ == Set::<Right>::empty()) <==> a.spec_bits() == 0,
    {
        lemma_bits_determined(a.bits, 0u8);
        lemma_bits_of_nothing();
        if a.spec_bits() == 0 {
            assert(a@ =~= Set::<Right>::empty());
        } else {
            if a@ == Set::<Right>::empty() {
                assert(!a@.contains(Right::Read));
                assert(!a@.contains(Right::Write));
                assert(!a@.contains(Right::Add));
            }
        }
    }

    /// One mask is within another exactly when and-ing them changes nothing.
    pub proof fn lemma_subset_bits(a: AccessRights, b: AccessRights)
        requires
            a.wf(),
            b.wf(),
        ensures
            a@.subset_of(b@) <==> a.spec_bits() & b.spec_bits() == a.spec_bits(),
    {
        lemma_bits_within(a.bits, b.bits);
        if a@.subset_of(b@) {
            assert(a@.contains(Right::Read) ==> b@.contains(Right::Read));
            assert(a@.contains(Right::Write) ==> b@.contains(Right::Write));
            assert(a@.contains(Right::Add) ==> b@.contains(Right::Add));
        }
        if a.spec_bits() & b.spec_bits() == a.spec_bits() {
            assert forall|right: Right| a@.contains(right) implies b@.contains(right) by {
                match right {
                    Right::Read => {},
                    Right::Write => {},
                    Right::Add => {},
                }
            }
        }
    }

    /// Two masks that permit the same rights are the same mask.
    pub proof fn lemma_view_determines(a: AccessRights, b: AccessRights)
        requires
            a.wf(),
            b.wf(),
            a@ == b@,
        ensures
            a == b,
    {
        lemma_bits_determined(a.bits, b.bits);
        assert(a.grants(Right::Read) == a@.contains(Right::Read));
        assert(b.grants(Right::Read) == b@.contains(Right::Read));
        assert(a.grants(Right::Write) == a@.contains(Right::Write));
        assert(b.grants(Right::Write) == b@.contains(Right::Write));
        assert(a.grants(Right::Add) == a@.contains(Right::Add));
        assert(b.grants(Right::Add) == b@.contains(Right::Add));
        assert(a.bits == b.bits);
    }
}

proof fn lemma_bits_of_nothing()
    ensures
        0u8 & 1u8 == 0,
        0u8 & 2u8 == 0,
        0u8 & 4u8 == 0,
{
    assert(0u8 & 1u8 == 0 && 0u8 & 2u8 == 0 && 0u8 & 4u8 == 0) by (bit_vector);
}

proof fn lemma_bits_of_everything()
    ensures
        7u8 & 1u8 != 0,
        7u8 & 2u8 != 0,
        7u8 & 4u8 != 0,
{
    assert(7u8 & 1u8 != 0 && 7u8 & 2u8 != 0 && 7u8 & 4u8 != 0) by (bit_vector);
}

proof fn lemma_bits_of_one()
    ensures
        1u8 & 1u8 != 0,
        1u8 & 2u8 == 0,
        1u8 & 4u8 == 0,
        2u8 & 1u8 == 0,
        2u8 & 2u8 != 0,
        2u8 & 4u8 == 0,
        4u8 & 1u8 == 0,
        4u8 & 2u8 == 0,
        4u8 & 4u8 != 0,
{
    assert(1u8 & 1u8 != 0 && 1u8 & 2u8 == 0 && 1u8 & 4u8 == 0) by (bit_vector);
    assert(2u8 & 1u8 == 0 && 2u8 & 2u8 != 0 && 2u8 & 4u8 == 0) by (bit_vector);
    assert(4u8 & 1u8 == 0 && 4u8 & 2u8 == 0 && 4u8 & 4u8 != 0) by (bit_vector);
}

proof fn lemma_bits_of_and(a: u8, b: u8)
    requires
        a <= 7,
        b <= 7,
    ensures
        a & b <= 7,
        ((a & b) & 1u8 != 0) <==> (a & 1u8 != 0 && b & 1u8 != 0),
        ((a & b) & 2u8 != 0) <==> (a & 2u8 != 0 && b & 2u8 != 0),
        ((a & b) & 4u8 != 0) <==> (a & 4u8 != 0 && b & 4u8 != 0),
{
    assert(a <= 7 && b <= 7 ==> {
        &&& a & b <= 7
        &&& (((a & b) & 1u8 != 0) <==> (a & 1u8 != 0 && b & 1u8 != 0))
        &&& (((a & b) & 2u8 != 0) <==> (a & 2u8 != 0 && b & 2u8 != 0))
        &&& (((a & b) & 4u8 != 0) <==> (a & 4u8 != 0 && b & 4u8 != 0))
    }) by (bit_vector);
}

proof fn lemma_bits_of_or(a: u8, b: u8)
    requires
        a <= 7,
        b <= 7,
    ensures
        a | b <= 7,
        ((a | b) & 1u8 != 0) <==> (a & 1u8 != 0 || b & 1u8 != 0),
        ((a | b) & 2u8 != 0) <==> (a & 2u8 != 0 || b & 2u8 != 0),
        ((a | b) & 4u8 != 0) <==> (a & 4u8 != 0 || b & 4u8 != 0),
{
    assert(a <= 7 && b <= 7 ==> {
        &&& a | b <= 7
        &&& (((a | b) & 1u8 != 0) <==> (a & 1u8 != 0 || b & 1u8 != 0))
        &&& (((a | b) & 2u8 != 0) <==> (a & 2u8 != 0 || b & 2u8 != 0))
        &&& (((a | b) & 4u8 != 0) <==> (a & 4u8 != 0 || b & 4u8 != 0))
    }) by (bit_vector);
}

proof fn lemma_bits_within(a: u8, b: u8)
    requires
        a <= 7,
        b <= 7,
    ensures
        (a & b == a) <==> {
            &&& (a & 1u8 != 0 ==> b & 1u8 != 0)
            &&& (a & 2u8 != 0 ==> b & 2u8 != 0)
            &&& (a & 4u8 != 0 ==> b & 4u8 != 0)
        },
{
    assert(a <= 7 && b <= 7 ==> ((a & b == a) <==> {
        &&& (a & 1u8 != 0 ==> b & 1u8 != 0)
        &&& (a & 2u8 != 0 ==> b & 2u8 != 0)
        &&& (a & 4u8 != 0 ==> b & 4u8 != 0)
    })) by (bit_vector);
}

proof fn lemma_bits_determined(a: u8, b: u8)
    requires
        a <= 7,
        b <= 7,
    ensures
        (a == b) <==> {
            &&& ((a & 1u8 != 0) <==> (b & 1u8 != 0))
            &&& ((a & 2u8 != 0) <==> (b & 2u8 != 0))
            &&& ((a & 4u8 != 0) <==> (b & 4u8 != 0))
        },
{
    assert(a <= 7 && b <= 7 ==> ((a == b) <==> {
        &&& ((a & 1u8 != 0) <==> (b & 1u8 != 0))
        &&& ((a & 2u8 != 0) <==> (b & 2u8 != 0))
        &&& ((a & 4u8 != 0) <==> (b & 4u8 != 0))
    })) by (bit_vector);
}

} // verus!
