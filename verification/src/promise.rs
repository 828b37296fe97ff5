//! The states of a promise and the events of promise rejection tracking.

use vstd::prelude::*;

verus! {

/// The value of a promise's [[PromiseState]] field.
#[derive(Copy, Clone, Debug, PartialEq, Eq, Structural)]
pub enum PromiseState {
    Pending,
    Fulfilled,
    Rejected,
}

/// The event a promise rejection callback reports.
#[derive(Copy, Clone, Debug, PartialEq, Eq, Structural)]
pub enum PromiseRejectEvent {
    PromiseRejectWithNoHandler,
    PromiseHandlerAddedAfterReject,
    PromiseRejectAfterResolved,
    PromiseResolveAfterResolved,
}

} // verus!
