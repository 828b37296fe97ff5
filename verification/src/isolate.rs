//! Isolate-level bookkeeping: raw isolate pointers, the annex that outlives
//! an isolate's handles, heap statistics and the isolate's policy enums.

use std::collections::HashMap;

use vstd::prelude::*;

use crate::handle::DeferredResets;
use crate::handle::FinalizerCallback;
use crate::handle::FinalizerMap;
use crate::handle::HandleHost;
use crate::isolate_create_params::CreateParams;
use crate::isolate_create_params::CreateParamsModel;
use crate::isolate_create_params::default_create_params;
use crate::handle::values_below;

verus! {

broadcast use vstd::std_specs::hash::group_hash_axioms;

/// Policy for running microtasks: explicitly through a checkpoint, or
/// automatically when the script call depth drops to zero.
#[derive(Copy, Clone, Debug, PartialEq, Eq, Structural)]
pub enum MicrotasksPolicy {
    Explicit,
    Auto,
}

/// Memory pressure level for the memory pressure notification. The level
/// without pressure is called `NoPressure`.
#[derive(Copy, Clone, Debug, PartialEq, Eq, Structural)]
pub enum MemoryPressureLevel {
    NoPressure,
    Moderate,
    Critical,
}

/// Whether a date-time configuration change makes V8 redetect the host time
/// zone.
#[derive(Copy, Clone, Debug, PartialEq, Eq, Structural)]
pub enum TimeZoneDetection {
    Skip,
    Redetect,
}

/// The moment at which a promise hook is called.
#[derive(Copy, Clone, Debug, PartialEq, Eq, Structural)]
pub enum PromiseHookType {
    Init,
    Resolve,
    Before,
    After,
}

/// Types of garbage collections that can be requested for testing.
#[derive(Copy, Clone, Debug, PartialEq, Eq, Structural)]
pub enum GarbageCollectionType {
    Full,
    Minor,
}

/// How an asynchronous WebAssembly compilation ended.
#[derive(Copy, Clone, Debug, PartialEq, Eq, Structural)]
pub enum WasmAsyncSuccess {
    Success,
    Fail,
}

/// A raw pointer to a V8 isolate, held as its address; 0 is the null
/// pointer.
#[derive(Copy, Clone, Debug, PartialEq, Eq, Structural)]
pub struct UnsafeRawIsolatePtr(pub usize);

impl UnsafeRawIsolatePtr {
    /// The null pointer.
    pub fn null() -> (r: Self)
        ensures
            r.0 == 0,
    {
        UnsafeRawIsolatePtr(0)
    }

    /// Whether this is the null pointer.
    pub fn is_null(&self) -> (r: bool)
        ensures
            r == (self.0 == 0),
    {
        self.0 == 0
    }
}

/// The state an isolate's handles can still reach: the address of the
/// isolate (0 once it has been disposed), the finalizers of its weak
/// handles, how many weak handles are alive, and whether the isolate is
/// shared between threads.
#[derive(Debug)]
pub struct IsolateAnnex<R, G> {
    isolate: usize,
    finalizer_map: FinalizerMap<R, G>,
    live_weak_count: usize,
    shared: bool,
}

/// The plain content of an annex.
pub struct IsolateAnnexModel<R, G> {
    pub isolate: usize,
    pub finalizers: Map<usize, FinalizerCallback<R, G>>,
    pub next_finalizer_id: usize,
    pub live_weak_count: usize,
    pub shared: bool,
}

impl<R, G> View for IsolateAnnex<R, G> {
    type V = IsolateAnnexModel<R, G>;

    closed spec fn view(&self) -> IsolateAnnexModel<R, G> {
        IsolateAnnexModel {
            isolate: self.isolate,
            finalizers: self.finalizer_map@,
            next_finalizer_id: self.finalizer_map.next_id(),
            live_weak_count: self.live_weak_count,
            shared: self.shared,
        }
    }
}

/// Every registered finalizer id is below the next one to be handed out.
pub open spec fn annex_ids_fresh<R, G>(m: IsolateAnnexModel<R, G>) -> bool {
    forall|k: usize| #[trigger] m.finalizers.contains_key(k) ==> k < m.next_finalizer_id
}

/// The guaranteed callbacks among `callbacks`, in the same order.
pub open spec fn guaranteed_only<R, G>(callbacks: Seq<FinalizerCallback<R, G>>) -> Seq<G>
    decreases callbacks.len(),
{
    if callbacks.len() == 0 {
        Seq::empty()
    } else {
        let rest = guaranteed_only(callbacks.drop_last());
        match callbacks.last() {
            FinalizerCallback::Guaranteed(g) => rest.push(g),
            FinalizerCallback::Regular(_) => rest,
        }
    }
}

impl<R, G> IsolateAnnex<R, G> {
    /// The annex's internal consistency, kept by every operation: finalizer
    /// ids are fresh.
    #[verifier::type_invariant]
    pub closed spec fn wf(&self) -> bool {
        self.finalizer_map.wf()
    }

    /// In a well-formed annex every registered finalizer id is below the
    /// next one to be handed out.
    pub proof fn lemma_ids_fresh(&self)
        requires
            self.wf(),
        ensures
            annex_ids_fresh(self@),
            !self@.finalizers.contains_key(self@.next_finalizer_id),
    {
        self.finalizer_map.lemma_ids_fresh();
    }

    /// A fresh annex for the live isolate at address `isolate`.
    pub fn new(isolate: usize, shared: bool) -> (r: Self)
        requires
            isolate != 0,
        ensures
            r@.isolate == isolate,
            r@.finalizers == Map::<usize, FinalizerCallback<R, G>>::empty(),
            r@.next_finalizer_id == 0,
            r@.live_weak_count == 0,
            r@.shared == shared,
    {
        IsolateAnnex { isolate, finalizer_map: FinalizerMap::new(), live_weak_count: 0, shared }
    }

    /// A thread-safe handle to the isolate.
    pub fn thread_safe_handle(&self) -> (r: IsolateHandle)
        ensures
            r.isolate == self@.isolate,
    {
        IsolateHandle { isolate: self.isolate }
    }

    /// The number of live weak handles of the isolate.
    pub fn live_weak_count(&self) -> (r: usize)
        ensures
            r == self@.live_weak_count,
    {
        self.live_weak_count
    }

    /// Whether weak handles may be made in this isolate: they may not in a
    /// shared one.
    pub fn supports_weak(&self) -> (r: bool)
        ensures
            r == !self@.shared,
    {
        !self.shared
    }

    /// Registers a finalizer, returning its fresh id.
    pub fn add_finalizer(&mut self, finalizer: FinalizerCallback<R, G>) -> (id: usize)
        requires
            old(self)@.next_finalizer_id < usize::MAX,
        ensures
            id == old(self)@.next_finalizer_id,
            !old(self)@.finalizers.contains_key(id),
            final(self)@ == (IsolateAnnexModel {
                finalizers: old(self)@.finalizers.insert(id, finalizer),
                next_finalizer_id: (old(self)@.next_finalizer_id + 1) as usize,
                ..old(self)@
            }),
    {
        proof {
            use_type_invariant(&*self);
        }
        let mut map = FinalizerMap::new();
        std::mem::swap(&mut map, &mut self.finalizer_map);
        let id = map.add(finalizer);
        self.finalizer_map = map;
        id
    }

    /// Whether a finalizer is registered under `id`.
    pub fn has_finalizer(&self, id: usize) -> (r: bool)
        ensures
            r == self@.finalizers.contains_key(id),
    {
        self.finalizer_map.contains(id)
    }

    /// Takes out the finalizer registered under `id`, if any.
    pub fn remove_finalizer(&mut self, id: usize) -> (r: Option<FinalizerCallback<R, G>>)
        ensures
            final(self)@ == (IsolateAnnexModel {
                finalizers: old(self)@.finalizers.remove(id),
                ..old(self)@
            }),
            match r {
                Some(f) => old(self)@.finalizers.contains_key(id) && f == old(self)@.finalizers[id],
                None => !old(self)@.finalizers.contains_key(id),
            },
    {
        proof {
            use_type_invariant(&*self);
        }
        let mut map = FinalizerMap::new();
        std::mem::swap(&mut map, &mut self.finalizer_map);
        let removed = map.remove(id);
        self.finalizer_map = map;
        removed
    }

    /// Counts one more live weak handle.
    pub fn acquire_live_weak(&mut self)
        requires
            old(self)@.live_weak_count < usize::MAX,
        ensures
            final(self)@ == (IsolateAnnexModel {
                live_weak_count: (old(self)@.live_weak_count + 1) as usize,
                ..old(self)@
            }),
    {
        proof {
            use_type_invariant(&*self);
        }
        self.live_weak_count = self.live_weak_count + 1;
    }

    /// Counts one live weak handle less.
    pub fn release_live_weak(&mut self)
        requires
            old(self)@.live_weak_count > 0,
        ensures
            final(self)@ == (IsolateAnnexModel {
                live_weak_count: (old(self)@.live_weak_count - 1) as usize,
                ..old(self)@
            }),
    {
        proof {
            use_type_invariant(&*self);
        }
        self.live_weak_count = self.live_weak_count - 1;
    }

    /// Marks the isolate as disposed, so that no handle reaches it any more,
    /// and takes out every finalizer. The guaranteed ones are returned, in
    /// the order they were registered, to be run now; the regular ones are
    /// dropped without running.
    pub fn dispose(&mut self) -> (r: Vec<G>)
        ensures
            final(self)@ == (IsolateAnnexModel {
                isolate: 0,
                finalizers: Map::<usize, FinalizerCallback<R, G>>::empty(),
                ..old(self)@
            }),
            r@ == guaranteed_only(
                values_below(old(self)@.finalizers, old(self)@.next_finalizer_id as nat),
            ),
    {
        proof {
            use_type_invariant(&*self);
        }
        self.isolate = 0;
        let mut map = FinalizerMap::new();
        std::mem::swap(&mut map, &mut self.finalizer_map);
        let drained = map.drain();
        self.finalizer_map = map;
        let ghost all = drained@;
        let mut out: Vec<G> = Vec::new();
        let mut rest = drained;
        let mut i: usize = 0;
        let n = rest.len();
        // Walk the callbacks front to back, keeping the guaranteed ones.
        while i < n
            invariant
                n == all.len(),
                i <= n,
                rest@ == all.skip(i as int),
                out@ == guaranteed_only(all.take(i as int)),
            decreases n - i,
        {
            let f = rest.remove(0);
            assert(all.take(i + 1).drop_last() == all.take(i as int));
            assert(all.skip(i + 1) == all.skip(i as int).remove(0));
            match f {
                FinalizerCallback::Guaranteed(g) => {
                    out.push(g);
                },
                FinalizerCallback::Regular(_) => {},
            }
            i = i + 1;
        }
        assert(all.take(n as int) == all);
        out
    }
}

/// The ids below `n` under which `m` holds a guaranteed finalizer, in
/// increasing order.
pub open spec fn guaranteed_ids<R, G>(m: Map<usize, FinalizerCallback<R, G>>, n: nat) -> Seq<usize>
    decreases n,
{
    if n == 0 {
        Seq::empty()
    } else {
        let k = (n - 1) as nat;
        let rest = guaranteed_ids(m, k);
        if m.contains_key(k as usize) && m[k as usize] is Guaranteed {
            rest.push(k as usize)
        } else {
            rest
        }
    }
}

/// The guaranteed callbacks among the finalizers below `n`, taken in id
/// order, are exactly those registered under `guaranteed_ids(m, n)`: one
/// per id, each id once.
proof fn lemma_guaranteed_ids<R, G>(m: Map<usize, FinalizerCallback<R, G>>, n: nat)
    requires
        n <= usize::MAX,
    ensures
        guaranteed_only(values_below(m, n)).len() == guaranteed_ids(m, n).len(),
        forall|i: int| #![trigger guaranteed_ids(m, n)[i]]
            0 <= i < guaranteed_ids(m, n).len() ==> {
                &&& guaranteed_ids(m, n)[i] < n
                &&& m.contains_key(guaranteed_ids(m, n)[i])
                &&& m[guaranteed_ids(m, n)[i]] == FinalizerCallback::<R, G>::Guaranteed(
                    guaranteed_only(values_below(m, n))[i],
                )
            },
        forall|i: int, j: int|
            0 <= i < j < guaranteed_ids(m, n).len() ==> guaranteed_ids(m, n)[i]
                < guaranteed_ids(m, n)[j],
        forall|k: usize|
            k < n && m.contains_key(k) && #[trigger] m[k] is Guaranteed ==> guaranteed_ids(
                m,
                n,
            ).contains(k),
    decreases n,
{
    if n > 0 {
        let k = (n - 1) as nat;
        lemma_guaranteed_ids(m, k);
        let vs = values_below(m, k);
        let ids = guaranteed_ids(m, k);
        if m.contains_key(k as usize) {
            assert(vs.push(m[k as usize]).drop_last() =~= vs);
        }
        if m.contains_key(k as usize) && m[k as usize] is Guaranteed {
            assert(guaranteed_ids(m, n)[ids.len() as int] == k as usize);
        }
        assert forall|j: usize|
            j < n && m.contains_key(j) && #[trigger] m[j] is Guaranteed implies guaranteed_ids(
                m,
                n,
            ).contains(j) by {
            if j < k {
                let i = choose|i: int| 0 <= i < ids.len() && ids[i] == j;
                assert(guaranteed_ids(m, n)[i] == j);
            } else {
                assert(guaranteed_ids(m, n)[ids.len() as int] == j);
            }
        }
    }
}

/// Disposal runs every guaranteed finalizer that is still registered, each
/// exactly once: what `dispose` returns is, one for one and in id order, the
/// guaranteed callbacks under the registered ids, and no id is left out or
/// repeated.
pub proof fn lemma_dispose_runs_each_guaranteed_once<R, G>(annex: IsolateAnnexModel<R, G>)
    requires
        annex_ids_fresh(annex),
    ensures
        ({
            let out = guaranteed_only(values_below(annex.finalizers, annex.next_finalizer_id as nat));
            let ids = guaranteed_ids(annex.finalizers, annex.next_finalizer_id as nat);
            &&& out.len() == ids.len()
            &&& forall|i: int| #![trigger ids[i]]
                0 <= i < ids.len() ==> annex.finalizers.contains_key(ids[i])
                    && annex.finalizers[ids[i]] == FinalizerCallback::<R, G>::Guaranteed(out[i])
            &&& forall|i: int, j: int| 0 <= i < j < ids.len() ==> ids[i] < ids[j]
            &&& forall|k: usize|
                annex.finalizers.contains_key(k) && #[trigger] annex.finalizers[k] is Guaranteed
                    ==> ids.contains(k)
        }),
{
    lemma_guaranteed_ids(annex.finalizers, annex.next_finalizer_id as nat);
}

/// A thread-safe reference to an isolate, which may outlive it. It holds the
/// isolate's address, 0 once the isolate has been disposed.
#[derive(Copy, Clone, Debug, PartialEq, Eq, Structural)]
pub struct IsolateHandle {
    pub isolate: usize,
}

impl IsolateHandle {
    /// The raw pointer to the isolate; null when it has been disposed.
    pub fn get_isolate_ptr(&self) -> (r: UnsafeRawIsolatePtr)
        ensures
            r.0 == self.isolate,
    {
        UnsafeRawIsolatePtr(self.isolate)
    }

    /// Where the handles reached through this handle live: the isolate, or
    /// nowhere once it has been disposed.
    pub fn host(&self) -> (r: HandleHost)
        ensures
            r == (if self.isolate == 0 {
                HandleHost::DisposedIsolate
            } else {
                HandleHost::Isolate(self.isolate)
            }),
    {
        if self.isolate == 0 {
            HandleHost::DisposedIsolate
        } else {
            HandleHost::Isolate(self.isolate)
        }
    }

    /// The request to terminate the current thread of JavaScript execution,
    /// addressed to the isolate; `None` when the isolate has already been
    /// destroyed, in which case the request is refused (reported as
    /// `false`). It may be made from any thread.
    pub fn terminate_execution(&self) -> (r: Option<IsolateCall>)
        ensures
            r == isolate_call(self.isolate, IsolateRequest::TerminateExecution),
            r is None <==> self.isolate == 0,
            r is Some ==> r->0.isolate.0 == self.isolate && r->0.request == (IsolateRequest::TerminateExecution),
    {
        self.call(IsolateRequest::TerminateExecution)
    }

    /// The request to resume execution capability after a forced
    /// termination; `None` when the isolate has already been destroyed.
    pub fn cancel_terminate_execution(&self) -> (r: Option<IsolateCall>)
        ensures
            r == isolate_call(self.isolate, IsolateRequest::CancelTerminateExecution),
            r is None <==> self.isolate == 0,
            r is Some ==> r->0.isolate.0 == self.isolate && r->0.request == (IsolateRequest::CancelTerminateExecution),
    {
        self.call(IsolateRequest::CancelTerminateExecution)
    }

    /// The question whether V8 is terminating JavaScript execution; `None`
    /// when the isolate has already been destroyed, in which case the answer
    /// is `false`.
    pub fn is_execution_terminating(&self) -> (r: Option<IsolateCall>)
        ensures
            r == isolate_call(self.isolate, IsolateRequest::IsExecutionTerminating),
            r is None <==> self.isolate == 0,
            r is Some ==> r->0.isolate.0 == self.isolate && r->0.request == (IsolateRequest::IsExecutionTerminating),
    {
        self.call(IsolateRequest::IsExecutionTerminating)
    }

    /// The request to interrupt long running JavaScript code and invoke the
    /// callback at address `callback` with `data`; `None` when the isolate
    /// has already been destroyed.
    pub fn request_interrupt(&self, callback: usize, data: usize) -> (r: Option<IsolateCall>)
        ensures
            r == isolate_call(self.isolate, IsolateRequest::RequestInterrupt { callback, data }),
            r is None <==> self.isolate == 0,
            r is Some ==> r->0.isolate.0 == self.isolate && r->0.request == (IsolateRequest::RequestInterrupt { callback, data }),
    {
        self.call(IsolateRequest::RequestInterrupt { callback, data })
    }

    fn call(&self, request: IsolateRequest) -> (r: Option<IsolateCall>)
        ensures
            r == isolate_call(self.isolate, request),
            r is None <==> self.isolate == 0,
            r is Some ==> r->0.isolate.0 == self.isolate && r->0.request == request,
    {
        if self.isolate == 0 {
            None
        } else {
            Some(IsolateCall { isolate: UnsafeRawIsolatePtr(self.isolate), request })
        }
    }
}

/// A request made through a handle reaches a live isolate whatever it asks,
/// with its callback and data as given; it is refused exactly when the
/// isolate has been disposed.
pub proof fn lemma_isolate_call_forwards_every_request(isolate: usize, request: IsolateRequest)
    ensures
        isolate_call(isolate, request) is None <==> isolate == 0,
        isolate != 0 ==> isolate_call(isolate, request) == Some(
            IsolateCall { isolate: UnsafeRawIsolatePtr(isolate), request },
        ),
{
}

/// A request that can be made of an isolate from any thread.
#[derive(Copy, Clone, Debug, PartialEq, Eq, Structural)]
pub enum IsolateRequest {
    TerminateExecution,
    CancelTerminateExecution,
    IsExecutionTerminating,
    RequestInterrupt { callback: usize, data: usize },
}

/// A request together with the live isolate it is for.
#[derive(Copy, Clone, Debug, PartialEq, Eq, Structural)]
pub struct IsolateCall {
    pub isolate: UnsafeRawIsolatePtr,
    pub request: IsolateRequest,
}

/// The call to make for `request` on the isolate at `isolate`: none once the
/// isolate has been disposed (address 0).
pub open spec fn isolate_call(isolate: usize, request: IsolateRequest) -> Option<IsolateCall> {
    if isolate == 0 {
        None
    } else {
        Some(IsolateCall { isolate: UnsafeRawIsolatePtr(isolate), request })
    }
}

/// An isolated instance of the V8 engine, held as the address of the engine's
/// isolate, which is never 0.
#[derive(Copy, Clone, Debug, PartialEq, Eq, Structural)]
pub struct Isolate {
    ptr: usize,
}

impl View for Isolate {
    type V = usize;

    /// The isolate's address.
    closed spec fn view(&self) -> usize {
        self.ptr
    }
}

impl Isolate {
    /// An isolate always has an address.
    #[verifier::type_invariant]
    closed spec fn inv(self) -> bool {
        self.ptr != 0
    }

    /// The isolate at the raw pointer `ptr`, which must not be null.
    pub fn from_raw_isolate_ptr(ptr: UnsafeRawIsolatePtr) -> (r: Self)
        requires
            ptr.0 != 0,
        ensures
            r@ == ptr.0,
    {
        Isolate { ptr: ptr.0 }
    }

    /// The raw pointer to this isolate.
    pub fn as_raw_isolate_ptr(&self) -> (r: UnsafeRawIsolatePtr)
        ensures
            r.0 == self@,
            r.0 != 0,
    {
        proof {
            use_type_invariant(self);
        }
        UnsafeRawIsolatePtr(self.ptr)
    }

    /// Initial configuration parameters for a new isolate.
    pub fn create_params() -> (r: CreateParams)
        ensures
            r@ == default_create_params(),
    {
        CreateParams::default()
    }

    /// A thread-safe handle to this isolate.
    pub fn thread_safe_handle(&self) -> (r: IsolateHandle)
        ensures
            r.isolate == self@,
            r.isolate != 0,
    {
        proof {
            use_type_invariant(self);
        }
        IsolateHandle { isolate: self.ptr }
    }

    /// Where the handles made in this isolate live.
    pub fn host(&self) -> (r: HandleHost)
        ensures
            r == HandleHost::Isolate(self@),
    {
        HandleHost::Isolate(self.ptr)
    }

    /// See `IsolateHandle::terminate_execution`.
    pub fn terminate_execution(&self) -> (r: Option<IsolateCall>)
        ensures
            r == isolate_call(self@, IsolateRequest::TerminateExecution),
            r is Some,
    {
        self.thread_safe_handle().terminate_execution()
    }

    /// See `IsolateHandle::cancel_terminate_execution`.
    pub fn cancel_terminate_execution(&self) -> (r: Option<IsolateCall>)
        ensures
            r == isolate_call(self@, IsolateRequest::CancelTerminateExecution),
            r is Some,
    {
        self.thread_safe_handle().cancel_terminate_execution()
    }

    /// See `IsolateHandle::is_execution_terminating`.
    pub fn is_execution_terminating(&self) -> (r: Option<IsolateCall>)
        ensures
            r == isolate_call(self@, IsolateRequest::IsExecutionTerminating),
            r is Some,
    {
        self.thread_safe_handle().is_execution_terminating()
    }
}

/// An isolate that is disposed when it goes out of scope, and that is
/// entered on creation.
#[derive(Debug, PartialEq, Eq, Structural)]
pub struct OwnedIsolate {
    cxx_isolate: usize,
}

impl OwnedIsolate {
    /// The address is never 0.
    #[verifier::type_invariant]
    closed spec fn inv(self) -> bool {
        self.cxx_isolate != 0
    }

    /// The owned isolate at address `cxx_isolate`, which has already been
    /// entered; the address must not be 0.
    pub fn new_already_entered(cxx_isolate: usize) -> (r: Self)
        requires
            cxx_isolate != 0,
        ensures
            r.as_isolate_spec()@ == cxx_isolate,
    {
        OwnedIsolate { cxx_isolate }
    }

    /// The isolate this owns.
    pub closed spec fn as_isolate_spec(&self) -> Isolate {
        Isolate { ptr: self.cxx_isolate }
    }

    /// The isolate this owns.
    pub fn as_isolate(&self) -> (r: Isolate)
        ensures
            r == self.as_isolate_spec(),
    {
        proof {
            use_type_invariant(self);
        }
        Isolate { ptr: self.cxx_isolate }
    }
}

/// An isolate that is not entered on creation and must be accessed through
/// a locker.
#[derive(Debug, PartialEq, Eq, Structural)]
pub struct UnenteredIsolate {
    cxx_isolate: usize,
}

impl UnenteredIsolate {
    /// The address is never 0.
    #[verifier::type_invariant]
    closed spec fn inv(self) -> bool {
        self.cxx_isolate != 0
    }

    /// The isolate at address `cxx_isolate`, which must not be 0.
    pub fn new(cxx_isolate: usize) -> (r: Self)
        requires
            cxx_isolate != 0,
        ensures
            r.raw() == cxx_isolate,
    {
        UnenteredIsolate { cxx_isolate }
    }

    /// The isolate's address.
    pub closed spec fn raw(&self) -> usize {
        self.cxx_isolate
    }

    /// The raw pointer to the underlying V8 isolate.
    pub fn as_raw(&self) -> (r: UnsafeRawIsolatePtr)
        ensures
            r.0 == self.raw(),
            r.0 != 0,
    {
        proof {
            use_type_invariant(self);
        }
        UnsafeRawIsolatePtr(self.cxx_isolate)
    }
}


/// Details of an out-of-memory failure: whether the heap ran out, and the
/// address of a text describing the failure (0 when there is none).
#[derive(Copy, Clone, Debug, PartialEq, Eq, Structural)]
pub struct OomDetails {
    pub is_heap_oom: bool,
    pub detail: usize,
}

/// An isolate shared between threads, each of which must hold its lock to
/// use it. It holds the isolate's address (never 0) and a thread-safe
/// handle to it.
#[derive(Copy, Clone, Debug, PartialEq, Eq, Structural)]
pub struct SharedIsolate {
    cxx_isolate: usize,
    isolate_handle: IsolateHandle,
}

impl SharedIsolate {
    /// The address is never 0.
    #[verifier::type_invariant]
    closed spec fn inv(self) -> bool {
        self.cxx_isolate != 0
    }

    /// The isolate's address.
    pub closed spec fn raw(&self) -> usize {
        self.cxx_isolate
    }

    /// The handle the isolate was shared with.
    pub closed spec fn handle(&self) -> IsolateHandle {
        self.isolate_handle
    }

    /// The shared isolate at address `cxx_isolate`, reached from other
    /// threads through `isolate_handle`.
    pub fn new(cxx_isolate: usize, isolate_handle: IsolateHandle) -> (r: Self)
        requires
            cxx_isolate != 0,
        ensures
            r.raw() == cxx_isolate,
            r.handle() == isolate_handle,
    {
        SharedIsolate { cxx_isolate, isolate_handle }
    }

    /// The raw pointer to the isolate.
    pub fn as_real_ptr(&self) -> (r: UnsafeRawIsolatePtr)
        ensures
            r.0 == self.raw(),
            r.0 != 0,
    {
        proof {
            use_type_invariant(self);
        }
        UnsafeRawIsolatePtr(self.cxx_isolate)
    }

    /// A locker for this isolate. Acquiring V8's lock on the isolate and
    /// entering it on the current thread come with the locker; they are
    /// undone when it is released. Locking is refused to a thread that
    /// already holds the lock (`thread_holds_lock`), since two lockers would
    /// hand out aliasing access, and to a thread on which another isolate is
    /// entered (`entered`, null when none is). Once locked, the resets of
    /// global handles that threads without the lock queued in `deferred` are
    /// due: they are returned, oldest first, to be made now.
    pub fn lock(
        &self,
        thread_holds_lock: bool,
        entered: UnsafeRawIsolatePtr,
        deferred: &mut DeferredResets,
    ) -> (r: (Locker, Vec<usize>))
        requires
            !thread_holds_lock,
            entered.0 == 0,
        ensures
            r.0.isolate() == self.raw(),
            r.1@ == old(deferred)@,
            final(deferred)@ == Seq::<usize>::empty(),
    {
        proof {
            use_type_invariant(self);
        }
        let locker = Locker { isolate: self.cxx_isolate };
        let due = deferred.drain();
        (locker, due)
    }

    /// A handle usable from any thread without holding the lock, to
    /// terminate or interrupt the isolate.
    pub fn thread_safe_handle(&self) -> (r: IsolateHandle)
        ensures
            r == self.handle(),
    {
        self.isolate_handle
    }
}

/// Proof that the current thread holds the lock of an isolate and has
/// entered it; it holds the isolate's address.
#[derive(Debug, PartialEq, Eq, Structural)]
pub struct Locker {
    isolate: usize,
}

impl Locker {
    /// The address is never 0.
    #[verifier::type_invariant]
    closed spec fn inv(self) -> bool {
        self.isolate != 0
    }

    /// The address of the locked isolate.
    pub closed spec fn isolate(&self) -> usize {
        self.isolate
    }

    /// A locker for the isolate `isolate`, which must be accessed through
    /// one.
    pub fn new(isolate: &UnenteredIsolate) -> (r: Self)
        ensures
            r.isolate() == isolate.raw(),
    {
        proof {
            use_type_invariant(isolate);
        }
        Locker { isolate: isolate.cxx_isolate }
    }

    /// Releases the lock for a while, so that other threads may use the
    /// isolate. The isolate must be the one entered on this thread
    /// (`entered`): unlocking under another isolate entered on top of it
    /// would release the wrong one. The resets queued in `deferred` are made
    /// first, while the lock is still held: they are returned, oldest first.
    pub fn unlock(&self, entered: UnsafeRawIsolatePtr, deferred: &mut DeferredResets) -> (r: Vec<
        usize,
    >)
        requires
            entered.0 == self.isolate(),
        ensures
            r@ == old(deferred)@,
            final(deferred)@ == Seq::<usize>::empty(),
    {
        deferred.drain()
    }

    /// Takes the lock back after `unlock`. Whatever ran meanwhile must have
    /// left no isolate entered on this thread (`entered`, null when none
    /// is). Globals may have been let go of meanwhile, so the resets queued
    /// in `deferred` are due again: they are returned, oldest first.
    pub fn relock(&self, entered: UnsafeRawIsolatePtr, deferred: &mut DeferredResets) -> (r: Vec<
        usize,
    >)
        requires
            entered.0 == 0,
        ensures
            r@ == old(deferred)@,
            final(deferred)@ == Seq::<usize>::empty(),
    {
        deferred.drain()
    }

    /// The locked isolate.
    pub fn as_isolate(&self) -> (r: Isolate)
        ensures
            r@ == self.isolate(),
    {
        proof {
            use_type_invariant(self);
        }
        Isolate { ptr: self.isolate }
    }
}

/// Embedder data associated with an isolate: at most one value per type,
/// the type being named by its 64-bit type id.
#[derive(Debug)]
pub struct IsolateSlots<S> {
    slots: HashMap<u64, S>,
}

impl<S> View for IsolateSlots<S> {
    type V = Map<u64, S>;

    /// The value held for each type id.
    closed spec fn view(&self) -> Map<u64, S> {
        self.slots@
    }
}

impl<S> IsolateSlots<S> {
    /// No embedder data.
    pub fn new() -> (r: Self)
        ensures
            r@ == Map::<u64, S>::empty(),
    {
        IsolateSlots { slots: HashMap::new() }
    }

    /// Associates `value` with the type `type_id`, dropping a value held
    /// for that type before. Returns true if the value was set without
    /// replacing an existing one.
    pub fn set_slot(&mut self, type_id: u64, value: S) -> (r: bool)
        ensures
            final(self)@ == old(self)@.insert(type_id, value),
            r == !old(self)@.contains_key(type_id),
    {
        self.slots.insert(type_id, value).is_none()
    }

    /// The value held for the type `type_id`, if any.
    pub fn get_slot(&self, type_id: u64) -> (r: Option<&S>)
        ensures
            match r {
                Some(v) => self@.contains_key(type_id) && *v == self@[type_id],
                None => !self@.contains_key(type_id),
            },
    {
        self.slots.get(&type_id)
    }

    /// Drops every value held; the isolate's disposal does this.
    pub fn clear(&mut self)
        ensures
            final(self)@ == Map::<u64, S>::empty(),
    {
        self.slots.clear();
    }

    /// Removes the value held for the type `type_id` and returns it, if
    /// there is one.
    pub fn remove_slot(&mut self, type_id: u64) -> (r: Option<S>)
        ensures
            final(self)@ == old(self)@.remove(type_id),
            match r {
                Some(v) => old(self)@.contains_key(type_id) && v == old(self)@[type_id],
                None => !old(self)@.contains_key(type_id),
            },
    {
        self.slots.remove(&type_id)
    }
}

/// Setting a slot and reading it back gives the value set, whatever was
/// there before; removing it afterwards gives it back and leaves no value.
pub proof fn lemma_slot_set_get_remove<S>(m: Map<u64, S>, type_id: u64, value: S)
    ensures
        m.insert(type_id, value).contains_key(type_id),
        m.insert(type_id, value)[type_id] == value,
        !m.insert(type_id, value).remove(type_id).contains_key(type_id),
        forall|k: u64| k != type_id ==> #[trigger] m.insert(type_id, value).contains_key(k) == m.contains_key(k),
{
}

/// Heap figures as V8 reports them, in bytes (contexts are counted).
#[derive(Copy, Clone, Debug, PartialEq, Eq, Structural)]
pub struct RawHeapStatistics {
    pub total_heap_size: usize,
    pub total_heap_size_executable: usize,
    pub total_physical_size: usize,
    pub total_available_size: usize,
    pub total_global_handles_size: usize,
    pub used_global_handles_size: usize,
    pub used_heap_size: usize,
    pub heap_size_limit: usize,
    pub malloced_memory: usize,
    pub external_memory: usize,
    pub peak_malloced_memory: usize,
    pub number_of_native_contexts: usize,
    pub number_of_detached_contexts: usize,
    pub does_zap_garbage: bool,
}

/// Collection of V8 heap information.
#[derive(Copy, Clone, Debug)]
pub struct HeapStatistics(RawHeapStatistics);

impl View for HeapStatistics {
    type V = RawHeapStatistics;

    closed spec fn view(&self) -> RawHeapStatistics {
        self.0
    }
}

impl HeapStatistics {
    /// The statistics V8 filled in.
    pub fn from_raw(raw: RawHeapStatistics) -> (r: Self)
        ensures
            r@ == raw,
    {
        HeapStatistics(raw)
    }

    /// The `total_heap_size` figure.
    pub fn total_heap_size(&self) -> (r: usize)
        ensures
            r == self@.total_heap_size,
    {
        self.0.total_heap_size
    }

    /// The `total_heap_size_executable` figure.
    pub fn total_heap_size_executable(&self) -> (r: usize)
        ensures
            r == self@.total_heap_size_executable,
    {
        self.0.total_heap_size_executable
    }

    /// The `total_physical_size` figure.
    pub fn total_physical_size(&self) -> (r: usize)
        ensures
            r == self@.total_physical_size,
    {
        self.0.total_physical_size
    }

    /// The `total_available_size` figure.
    pub fn total_available_size(&self) -> (r: usize)
        ensures
            r == self@.total_available_size,
    {
        self.0.total_available_size
    }

    /// The `total_global_handles_size` figure.
    pub fn total_global_handles_size(&self) -> (r: usize)
        ensures
            r == self@.total_global_handles_size,
    {
        self.0.total_global_handles_size
    }

    /// The `used_global_handles_size` figure.
    pub fn used_global_handles_size(&self) -> (r: usize)
        ensures
            r == self@.used_global_handles_size,
    {
        self.0.used_global_handles_size
    }

    /// The `used_heap_size` figure.
    pub fn used_heap_size(&self) -> (r: usize)
        ensures
            r == self@.used_heap_size,
    {
        self.0.used_heap_size
    }

    /// The `heap_size_limit` figure.
    pub fn heap_size_limit(&self) -> (r: usize)
        ensures
            r == self@.heap_size_limit,
    {
        self.0.heap_size_limit
    }

    /// The `malloced_memory` figure.
    pub fn malloced_memory(&self) -> (r: usize)
        ensures
            r == self@.malloced_memory,
    {
        self.0.malloced_memory
    }

    /// The `external_memory` figure.
    pub fn external_memory(&self) -> (r: usize)
        ensures
            r == self@.external_memory,
    {
        self.0.external_memory
    }

    /// The `peak_malloced_memory` figure.
    pub fn peak_malloced_memory(&self) -> (r: usize)
        ensures
            r == self@.peak_malloced_memory,
    {
        self.0.peak_malloced_memory
    }

    /// The `number_of_native_contexts` figure.
    pub fn number_of_native_contexts(&self) -> (r: usize)
        ensures
            r == self@.number_of_native_contexts,
    {
        self.0.number_of_native_contexts
    }

    /// The `number_of_detached_contexts` figure.
    pub fn number_of_detached_contexts(&self) -> (r: usize)
        ensures
            r == self@.number_of_detached_contexts,
    {
        self.0.number_of_detached_contexts
    }

    /// Whether V8 overwrites heap garbage with a bit pattern.
    pub fn does_zap_garbage(&self) -> (r: bool)
        ensures
            r == self@.does_zap_garbage,
    {
        self.0.does_zap_garbage
    }
}

/// Figures of one heap space as V8 reports them, in bytes.
#[derive(Copy, Clone, Debug, PartialEq, Eq, Structural)]
pub struct RawHeapSpaceStatistics {
    pub space_size: usize,
    pub space_used_size: usize,
    pub space_available_size: usize,
    pub physical_space_size: usize,
}

/// Memory usage of one space of the heap, with the space's name.
#[derive(Clone, Debug)]
pub struct HeapSpaceStatistics {
    name: Vec<u8>,
    sizes: RawHeapSpaceStatistics,
}

impl View for HeapSpaceStatistics {
    type V = RawHeapSpaceStatistics;

    /// The size figures.
    closed spec fn view(&self) -> RawHeapSpaceStatistics {
        self.sizes
    }
}

impl HeapSpaceStatistics {
    /// The bytes of the space's name, without a terminating NUL.
    pub closed spec fn name(&self) -> Seq<u8> {
        self.name@
    }

    /// The statistics V8 filled in for the space named `name` (its bytes,
    /// without the terminating NUL).
    pub fn from_raw(name: Vec<u8>, raw: RawHeapSpaceStatistics) -> (r: Self)
        ensures
            r@ == raw,
            r.name() == name@,
    {
        HeapSpaceStatistics { name, sizes: raw }
    }

    /// The name of the space, as bytes.
    pub fn space_name(&self) -> (r: &[u8])
        ensures
            r@ == self.name(),
    {
        self.name.as_slice()
    }

    /// The `space_size` figure.
    pub fn space_size(&self) -> (r: usize)
        ensures
            r == self@.space_size,
    {
        self.sizes.space_size
    }

    /// The `space_used_size` figure.
    pub fn space_used_size(&self) -> (r: usize)
        ensures
            r == self@.space_used_size,
    {
        self.sizes.space_used_size
    }

    /// The `space_available_size` figure.
    pub fn space_available_size(&self) -> (r: usize)
        ensures
            r == self@.space_available_size,
    {
        self.sizes.space_available_size
    }

    /// The `physical_space_size` figure.
    pub fn physical_space_size(&self) -> (r: usize)
        ensures
            r == self@.physical_space_size,
    {
        self.sizes.physical_space_size
    }
}

} // verus!
