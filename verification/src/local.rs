//! Local handles that may be empty.

use std::marker::PhantomData;

use vstd::prelude::*;

verus! {

/// A handle to a V8 object, valid within the scope `'sc`, held as the
/// address of its slot; the address 0 is the empty handle.
#[derive(Debug)]
pub struct Local<'sc, T> {
    slot: usize,
    marker: PhantomData<(&'sc (), T)>,
}

impl<'sc, T> View for Local<'sc, T> {
    type V = usize;

    /// The slot's address; 0 for the empty handle.
    closed spec fn view(&self) -> usize {
        self.slot
    }
}

impl<'sc, T> Local<'sc, T> {
    /// Creates a new empty local handle.
    pub fn empty() -> (r: Self)
        ensures
            r@ == 0,
    {
        Local { slot: 0, marker: PhantomData }
    }

    /// The handle to the slot at address `slot`; 0 makes the empty handle.
    pub fn from_raw(slot: usize) -> (r: Option<Self>)
        ensures
            r is Some && r->0@ == slot,
    {
        Some(Local { slot, marker: PhantomData })
    }

    /// The slot's address; 0 for the empty handle.
    pub fn slot(&self) -> (r: usize)
        ensures
            r == self@,
    {
        self.slot
    }

    /// Returns true if the handle is empty.
    pub fn is_empty(&self) -> (r: bool)
        ensures
            r == (self@ == 0),
    {
        self.slot == 0
    }

    /// Sets the handle to be empty. `is_empty` will then return true.
    pub fn clear(&mut self)
        ensures
            final(self)@ == 0,
    {
        self.slot = 0;
    }
}

/// A local handle passed from V8 without a scope of its own, held as the
/// address of its slot, which is never 0. It must be bound to a scope before
/// use.
#[derive(Debug)]
pub struct SealedLocal<T> {
    slot: usize,
    marker: PhantomData<T>,
}

impl<T> SealedLocal<T> {
    /// The slot's address.
    pub closed spec fn slot(&self) -> usize {
        self.slot
    }

    /// Seals the handle at the slot `slot`, which must not be 0.
    pub fn new(slot: usize) -> (r: Self)
        requires
            slot != 0,
        ensures
            r.slot() == slot,
    {
        SealedLocal { slot, marker: PhantomData }
    }

    /// Binds the sealed handle to a scope, as a non-empty local handle.
    pub fn unseal<'sc>(self) -> (r: Local<'sc, T>)
        ensures
            r@ == self.slot(),
    {
        Local { slot: self.slot, marker: PhantomData }
    }
}

} // verus!
