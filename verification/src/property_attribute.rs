use vstd::prelude::*;

use crate::bit_set::lemma_or_algebra;
use crate::bit_set::lemma_or_and_nonzero;
use crate::bit_set::lemma_or_zero;

verus! {
/// Attributes of a JavaScript object property, as a set of bits.
#[derive(Debug, PartialEq, Eq, Structural)]
pub struct PropertyAttribute(u32);
impl View for PropertyAttribute {
    type V = u32;

    /// The raw bit set.
    closed spec fn view(&self) -> u32 {
        self.0
    }
}

/// Whether the bits `mask` meet the bit set `bits` in at least one place.
pub open spec fn propertyattribute_has(bits: u32, mask: u32) -> bool {
    bits & mask != 0
}
impl PropertyAttribute {
    /// No property attributes.
    #[allow(non_snake_case)]
    pub fn NONE() -> (r: Self)
        ensures
            r@ == 0,
    {
        Self(0)
    }

    /// Not writable. Corresponds to `Object.defineProperty(o, "p", { writable: false })`.
    #[allow(non_snake_case)]
    pub fn READ_ONLY() -> (r: Self)
        ensures
            r@ == 1,
    {
        Self(1)
    }

    /// Not enumerable. Corresponds to `Object.defineProperty(o, "p", { enumerable: false })`.
    #[allow(non_snake_case)]
    pub fn DONT_ENUM() -> (r: Self)
        ensures
            r@ == 2,
    {
        Self(2)
    }

    /// Not configurable. Corresponds to `Object.defineProperty(o, "p", { configurable: false })`.
    #[allow(non_snake_case)]
    pub fn DONT_DELETE() -> (r: Self)
        ensures
            r@ == 4,
    {
        Self(4)
    }

    /// The set holding exactly the bits `bits`.
    pub closed spec fn spec_from_bits(bits: u32) -> Self {
        Self(bits)
    }

    /// `spec_from_bits` gives back the bits it was given.
    pub broadcast proof fn lemma_from_bits_view(bits: u32)
        ensures
            #[trigger] Self::spec_from_bits(bits)@ == bits,
    {
    }

    /// Test if no property attributes are set.
    pub fn is_none(&self) -> (r: bool)
        ensures
            r == (self@ == 0),
    {
        *self == Self::NONE()
    }

    /// Test if the read-only property attribute is set.
    pub fn is_read_only(&self) -> (r: bool)
        ensures
            r == propertyattribute_has(self@, 1),
    {
        self.has(Self::READ_ONLY())
    }

    /// Test if the non-enumerable property attribute is set.
    pub fn is_dont_enum(&self) -> (r: bool)
        ensures
            r == propertyattribute_has(self@, 2),
    {
        self.has(Self::DONT_ENUM())
    }

    /// Test if the non-configurable property attribute is set.
    pub fn is_dont_delete(&self) -> (r: bool)
        ensures
            r == propertyattribute_has(self@, 4),
    {
        self.has(Self::DONT_DELETE())
    }

    fn has(&self, that: Self) -> (r: bool)
        ensures
            r == propertyattribute_has(self@, that@),
    {
        let Self(lhs) = *self;
        let Self(rhs) = that;
        0 != lhs & rhs
    }
}

impl Default for PropertyAttribute {
    /// The empty set; the same as `PropertyAttribute::NONE()`.
    fn default() -> (r: Self)
        ensures
            r@ == 0,
    {
        Self::NONE()
    }
}

impl core::ops::BitOr for PropertyAttribute {
    type Output = Self;

    /// The union of two sets.
    fn bitor(self, rhs: Self) -> (r: Self)
        ensures
            r@ == self@ | rhs@,
    {
        let Self(lhs) = self;
        let Self(rhs) = rhs;
        Self(lhs | rhs)
    }
}

impl vstd::std_specs::ops::BitOrSpecImpl for PropertyAttribute {
    open spec fn obeys_bitor_spec() -> bool {
        true
    }

    open spec fn bitor_req(self, rhs: Self) -> bool {
        true
    }

    open spec fn bitor_spec(self, rhs: Self) -> Self {
        Self::spec_from_bits(self@ | rhs@)
    }
}

/// A flag is set in the union `a | b` exactly when it is set in `a` or in `b`.
pub proof fn lemma_propertyattribute_union_has(a: PropertyAttribute, b: PropertyAttribute, mask: u32)
    ensures
        propertyattribute_has(a@ | b@, mask) == (propertyattribute_has(a@, mask) || propertyattribute_has(b@, mask)),
{
    lemma_or_and_nonzero(a@, b@, mask);
}

/// The union `a | b` is empty exactly when both `a` and `b` are empty.
pub proof fn lemma_propertyattribute_union_empty(a: PropertyAttribute, b: PropertyAttribute)
    ensures
        ((a@ | b@) == 0) == (a@ == 0 && b@ == 0),
{
    lemma_or_zero(a@, b@);
}

/// Union is commutative, associative and idempotent, and the empty set
/// (`PropertyAttribute::NONE()`, also the default) is its identity.
pub proof fn lemma_propertyattribute_union_algebra(a: PropertyAttribute, b: PropertyAttribute, c: PropertyAttribute)
    ensures
        (a@ | b@) == (b@ | a@),
        ((a@ | b@) | c@) == (a@ | (b@ | c@)),
        (a@ | a@) == a@,
        (0u32 | a@) == a@,
{
    lemma_or_algebra(a@, b@, c@);
}

} // verus!
