//! Storage for a scope, which tracks whether the scope it holds has been
//! initialized.

use vstd::prelude::*;

use crate::local::Local;

verus! {

/// What to do when JavaScript execution is attempted where it is disallowed.
#[derive(Copy, Clone, Debug, PartialEq, Eq, Structural)]
pub enum OnFailure {
    CrashOnFailure,
    ThrowOnFailure,
    DumpOnFailure,
}

/// Storage for a scope: the scope itself, and whether it has been
/// initialized (entered in V8).
#[derive(Debug)]
pub struct ScopeStorage<T> {
    inited: bool,
    scope: T,
}

impl<T> ScopeStorage<T> {
    /// Whether the scope has been initialized and not torn down since.
    pub closed spec fn is_inited(&self) -> bool {
        self.inited
    }

    /// The scope held.
    pub closed spec fn scope(&self) -> T {
        self.scope
    }

    /// Storage holding `scope`, not yet initialized.
    pub fn new(scope: T) -> (r: Self)
        ensures
            !r.is_inited(),
            r.scope() == scope,
    {
        ScopeStorage { inited: false, scope }
    }

    /// Marks the scope as initialized. The result says whether a scope
    /// initialized before must first be torn down, since the storage is
    /// being reused.
    pub fn init(&mut self) -> (tear_down_old: bool)
        ensures
            tear_down_old == old(self).is_inited(),
            final(self).is_inited(),
            final(self).scope() == old(self).scope(),
    {
        let tear_down_old = self.inited;
        self.inited = true;
        tear_down_old
    }

    /// Lets go of the storage; the result says whether its scope must be
    /// torn down, which is the case exactly when it was initialized.
    pub fn release(self) -> (tear_down: bool)
        ensures
            tear_down == self.is_inited(),
    {
        self.inited
    }
}

/// The escape slot of an escapable handle scope: a handle slot that V8 made
/// in the enclosing scope, holding `undefined` until one value escapes into
/// it. A scope lets at most one value escape.
#[derive(Debug)]
pub struct EscapeSlot {
    slot: Option<usize>,
}

impl EscapeSlot {
    /// The address of the slot, while no value has escaped yet.
    pub closed spec fn pending(&self) -> Option<usize> {
        self.slot
    }

    /// The escape slot at address `slot` (never 0).
    pub fn new(slot: usize) -> (r: Self)
        requires
            slot != 0,
        ensures
            r.pending() == Some(slot),
    {
        EscapeSlot { slot: Some(slot) }
    }

    /// Whether a value may still escape.
    pub fn can_escape(&self) -> (r: bool)
        ensures
            r == (self.pending() is Some),
    {
        self.slot.is_some()
    }

    /// Lets `value` escape to the enclosing scope: the returned handle lives
    /// in the escape slot, into which the content of the value's own slot
    /// (the second result, its address) is to be copied. The slot is used
    /// up; escaping a second value is refused.
    pub fn escape<'a, 'e, T>(&mut self, value: &Local<'a, T>) -> (r: (Local<'e, T>, usize))
        requires
            old(self).pending() is Some,
            value@ != 0,
        ensures
            r.0@ == old(self).pending()->0,
            r.1 == value@,
            final(self).pending() is None,
    {
        let slot = match self.slot.take() {
            Some(a) => a,
            None => 0,
        };
        let escaped = match Local::from_raw(slot) {
            Some(l) => l,
            None => Local::empty(),
        };
        (escaped, value.slot())
    }
}

} // verus!
