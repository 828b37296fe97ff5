use vstd::prelude::*;

use crate::bit_set::lemma_or_algebra;
use crate::bit_set::lemma_or_and_nonzero;
use crate::bit_set::lemma_or_zero;

verus! {
/// Which properties an enumeration of an object's keys leaves out, as a set of bits.
#[derive(Debug, PartialEq, Eq, Structural)]
pub struct PropertyFilter(u32);
impl View for PropertyFilter {
    type V = u32;

    /// The raw bit set.
    closed spec fn view(&self) -> u32 {
        self.0
    }
}

/// Whether the bits `mask` meet the bit set `bits` in at least one place.
pub open spec fn propertyfilter_has(bits: u32, mask: u32) -> bool {
    bits & mask != 0
}
impl PropertyFilter {
    /// No filter: all properties.
    #[allow(non_snake_case)]
    pub fn ALL_PROPERTIES() -> (r: Self)
        ensures
            r@ == 0,
    {
        Self(0)
    }

    /// Only writable properties.
    #[allow(non_snake_case)]
    pub fn ONLY_WRITABLE() -> (r: Self)
        ensures
            r@ == 1,
    {
        Self(1)
    }

    /// Only enumerable properties.
    #[allow(non_snake_case)]
    pub fn ONLY_ENUMERABLE() -> (r: Self)
        ensures
            r@ == 2,
    {
        Self(2)
    }

    /// Only configurable properties.
    #[allow(non_snake_case)]
    pub fn ONLY_CONFIGURABLE() -> (r: Self)
        ensures
            r@ == 4,
    {
        Self(4)
    }

    /// Leave out string-keyed properties.
    #[allow(non_snake_case)]
    pub fn SKIP_STRINGS() -> (r: Self)
        ensures
            r@ == 8,
    {
        Self(8)
    }

    /// Leave out symbol-keyed properties.
    #[allow(non_snake_case)]
    pub fn SKIP_SYMBOLS() -> (r: Self)
        ensures
            r@ == 16,
    {
        Self(16)
    }

    /// The set holding exactly the bits `bits`.
    pub closed spec fn spec_from_bits(bits: u32) -> Self {
        Self(bits)
    }

    /// `spec_from_bits` gives back the bits it was given.
    pub broadcast proof fn lemma_from_bits_view(bits: u32)
        ensures
            #[trigger] Self::spec_from_bits(bits)@ == bits,
    {
    }

    /// Test if all property filters are set, that is, if no filter bit is set.
    pub fn is_all_properties(&self) -> (r: bool)
        ensures
            r == (self@ == 0),
    {
        *self == Self::ALL_PROPERTIES()
    }

    /// Test if the only-writable property filter is set.
    pub fn is_only_writable(&self) -> (r: bool)
        ensures
            r == propertyfilter_has(self@, 1),
    {
        self.has(Self::ONLY_WRITABLE())
    }

    /// Test if the only-enumerable property filter is set.
    pub fn is_only_enumerable(&self) -> (r: bool)
        ensures
            r == propertyfilter_has(self@, 2),
    {
        self.has(Self::ONLY_ENUMERABLE())
    }

    /// Test if the only-configurable property filter is set.
    pub fn is_only_configurable(&self) -> (r: bool)
        ensures
            r == propertyfilter_has(self@, 4),
    {
        self.has(Self::ONLY_CONFIGURABLE())
    }

    /// Test if the skip-strings property filter is set.
    pub fn is_skip_strings(&self) -> (r: bool)
        ensures
            r == propertyfilter_has(self@, 8),
    {
        self.has(Self::SKIP_STRINGS())
    }

    /// Test if the skip-symbols property filter is set.
    pub fn is_skip_symbols(&self) -> (r: bool)
        ensures
            r == propertyfilter_has(self@, 16),
    {
        self.has(Self::SKIP_SYMBOLS())
    }

    fn has(&self, that: Self) -> (r: bool)
        ensures
            r == propertyfilter_has(self@, that@),
    {
        let Self(lhs) = *self;
        let Self(rhs) = that;
        0 != lhs & rhs
    }
}

impl Default for PropertyFilter {
    /// The empty set; the same as `PropertyFilter::ALL_PROPERTIES()`.
    fn default() -> (r: Self)
        ensures
            r@ == 0,
    {
        Self::ALL_PROPERTIES()
    }
}

impl core::ops::BitOr for PropertyFilter {
    type Output = Self;

    /// The union of two sets.
    fn bitor(self, rhs: Self) -> (r: Self)
        ensures
            r@ == self@ | rhs@,
    {
        let Self(lhs) = self;
        let Self(rhs) = rhs;
        Self(lhs | rhs)
    }
}

impl vstd::std_specs::ops::BitOrSpecImpl for PropertyFilter {
    open spec fn obeys_bitor_spec() -> bool {
        true
    }

    open spec fn bitor_req(self, rhs: Self) -> bool {
        true
    }

    open spec fn bitor_spec(self, rhs: Self) -> Self {
        Self::spec_from_bits(self@ | rhs@)
    }
}

/// A flag is set in the union `a | b` exactly when it is set in `a` or in `b`.
pub proof fn lemma_propertyfilter_union_has(a: PropertyFilter, b: PropertyFilter, mask: u32)
    ensures
        propertyfilter_has(a@ | b@, mask) == (propertyfilter_has(a@, mask) || propertyfilter_has(b@, mask)),
{
    lemma_or_and_nonzero(a@, b@, mask);
}

/// The union `a | b` is empty exactly when both `a` and `b` are empty.
pub proof fn lemma_propertyfilter_union_empty(a: PropertyFilter, b: PropertyFilter)
    ensures
        ((a@ | b@) == 0) == (a@ == 0 && b@ == 0),
{
    lemma_or_zero(a@, b@);
}

/// Union is commutative, associative and idempotent, and the empty set
/// (`PropertyFilter::ALL_PROPERTIES()`, also the default) is its identity.
pub proof fn lemma_propertyfilter_union_algebra(a: PropertyFilter, b: PropertyFilter, c: PropertyFilter)
    ensures
        (a@ | b@) == (b@ | a@),
        ((a@ | b@) | c@) == (a@ | (b@ | c@)),
        (a@ | a@) == a@,
        (0u32 | a@) == a@,
{
    lemma_or_algebra(a@, b@, c@);
}

} // verus!
