use vstd::prelude::*;

use crate::bit_set::lemma_or_algebra;
use crate::bit_set::lemma_or_and_nonzero;
use crate::bit_set::lemma_or_zero;

verus! {
/// Configuration flags of a named or indexed property interceptor, as a set of bits.
#[derive(Debug, PartialEq, Eq, Structural)]
pub struct PropertyHandlerFlags(u32);
impl View for PropertyHandlerFlags {
    type V = u32;

    /// The raw bit set.
    closed spec fn view(&self) -> u32 {
        self.0
    }
}

/// Whether the bits `mask` meet the bit set `bits` in at least one place.
pub open spec fn propertyhandlerflags_has(bits: u32, mask: u32) -> bool {
    bits & mask != 0
}
impl PropertyHandlerFlags {
    /// None.
    #[allow(non_snake_case)]
    pub fn NONE() -> (r: Self)
        ensures
            r@ == 0,
    {
        Self(0)
    }

    /// Allow reads through the interceptor from any context.
    #[allow(non_snake_case)]
    pub fn ALL_CAN_READ() -> (r: Self)
        ensures
            r@ == 1,
    {
        Self(1)
    }

    /// Will not call into interceptor for properties on the receiver or prototype chain, i.e., only call into interceptor for properties that do not exist. Currently only valid for named interceptors.
    #[allow(non_snake_case)]
    pub fn NON_MASKING() -> (r: Self)
        ensures
            r@ == 2,
    {
        Self(2)
    }

    /// Will not call into interceptor for symbol lookup. Only meaningful for named interceptors.
    #[allow(non_snake_case)]
    pub fn ONLY_INTERCEPT_STRINGS() -> (r: Self)
        ensures
            r@ == 4,
    {
        Self(4)
    }

    /// The getter, query, enumerator callbacks do not produce side effects.
    #[allow(non_snake_case)]
    pub fn HAS_NO_SIDE_EFFECT() -> (r: Self)
        ensures
            r@ == 8,
    {
        Self(8)
    }

    /// The set holding exactly the bits `bits`.
    pub closed spec fn spec_from_bits(bits: u32) -> Self {
        Self(bits)
    }

    /// `spec_from_bits` gives back the bits it was given.
    pub broadcast proof fn lemma_from_bits_view(bits: u32)
        ensures
            #[trigger] Self::spec_from_bits(bits)@ == bits,
    {
    }

    /// Test if no property handler flags are set.
    pub fn is_none(&self) -> (r: bool)
        ensures
            r == (self@ == 0),
    {
        *self == Self::NONE()
    }

    /// Test if the all-can-read property handler flag is set.
    pub fn is_all_can_read(&self) -> (r: bool)
        ensures
            r == propertyhandlerflags_has(self@, 1),
    {
        self.has(Self::ALL_CAN_READ())
    }

    /// Test if the non-masking property handler flag is set.
    pub fn is_non_masking(&self) -> (r: bool)
        ensures
            r == propertyhandlerflags_has(self@, 2),
    {
        self.has(Self::NON_MASKING())
    }

    /// Test if the only-intercept-strings property handler flag is set.
    pub fn is_only_intercept_strings(&self) -> (r: bool)
        ensures
            r == propertyhandlerflags_has(self@, 4),
    {
        self.has(Self::ONLY_INTERCEPT_STRINGS())
    }

    /// Test if the has-no-side-effect property handler flag is set.
    pub fn is_has_no_side_effect(&self) -> (r: bool)
        ensures
            r == propertyhandlerflags_has(self@, 8),
    {
        self.has(Self::HAS_NO_SIDE_EFFECT())
    }

    fn has(&self, that: Self) -> (r: bool)
        ensures
            r == propertyhandlerflags_has(self@, that@),
    {
        let Self(lhs) = *self;
        let Self(rhs) = that;
        0 != lhs & rhs
    }
}

impl Default for PropertyHandlerFlags {
    /// The empty set; the same as `PropertyHandlerFlags::NONE()`.
    fn default() -> (r: Self)
        ensures
            r@ == 0,
    {
        Self::NONE()
    }
}

impl core::ops::BitOr for PropertyHandlerFlags {
    type Output = Self;

    /// The union of two sets.
    fn bitor(self, rhs: Self) -> (r: Self)
        ensures
            r@ == self@ | rhs@,
    {
        let Self(lhs) = self;
        let Self(rhs) = rhs;
        Self(lhs | rhs)
    }
}

impl vstd::std_specs::ops::BitOrSpecImpl for PropertyHandlerFlags {
    open spec fn obeys_bitor_spec() -> bool {
        true
    }

    open spec fn bitor_req(self, rhs: Self) -> bool {
        true
    }

    open spec fn bitor_spec(self, rhs: Self) -> Self {
        Self::spec_from_bits(self@ | rhs@)
    }
}

/// A flag is set in the union `a | b` exactly when it is set in `a` or in `b`.
pub proof fn lemma_propertyhandlerflags_union_has(a: PropertyHandlerFlags, b: PropertyHandlerFlags, mask: u32)
    ensures
        propertyhandlerflags_has(a@ | b@, mask) == (propertyhandlerflags_has(a@, mask) || propertyhandlerflags_has(b@, mask)),
{
    lemma_or_and_nonzero(a@, b@, mask);
}

/// The union `a | b` is empty exactly when both `a` and `b` are empty.
pub proof fn lemma_propertyhandlerflags_union_empty(a: PropertyHandlerFlags, b: PropertyHandlerFlags)
    ensures
        ((a@ | b@) == 0) == (a@ == 0 && b@ == 0),
{
    lemma_or_zero(a@, b@);
}

/// Union is commutative, associative and idempotent, and the empty set
/// (`PropertyHandlerFlags::NONE()`, also the default) is its identity.
pub proof fn lemma_propertyhandlerflags_union_algebra(a: PropertyHandlerFlags, b: PropertyHandlerFlags, c: PropertyHandlerFlags)
    ensures
        (a@ | b@) == (b@ | a@),
        ((a@ | b@) | c@) == (a@ | (b@ | c@)),
        (a@ | a@) == a@,
        (0u32 | a@) == a@,
{
    lemma_or_algebra(a@, b@, c@);
}

} // verus!
