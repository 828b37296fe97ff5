//! Object integrity levels.

use vstd::prelude::*;

verus! {

/// Object integrity levels can be used to restrict what can be done to an
/// object's properties. Frozen objects are like sealed objects, except all
/// existing properties are also made non-writable; sealed objects prevent
/// addition of new properties and make existing ones non-configurable.
#[derive(Copy, Clone, Debug, PartialEq, Eq, Structural)]
pub enum IntegrityLevel {
    Frozen,
    Sealed,
}

} // verus!
