//! Handle bookkeeping: which isolate hosts a handle, the finalizers of weak
//! handles, and the life cycle of a weak handle.

use std::collections::HashMap;
use std::marker::PhantomData;

use vstd::prelude::*;

use crate::isolate::IsolateAnnex;
use crate::isolate::IsolateAnnexModel;
use crate::isolate::IsolateHandle;
use crate::local::Local;

verus! {

broadcast use vstd::std_specs::hash::group_hash_axioms;

/// Where a handle lives. An isolate is named by its address, which is never
/// 0.
#[derive(Copy, Clone, Debug, PartialEq, Eq, Structural)]
pub enum HandleHost {
    /// A local handle, hosted by the isolate of the currently entered scope,
    /// which the handle itself cannot name.
    Scope,
    /// A handle hosted by the isolate at this address.
    Isolate(usize),
    /// A handle whose isolate has been disposed.
    DisposedIsolate,
}

/// Whether two hosts are known to be the same isolate. A scope-hosted handle
/// is matched against the scope's isolate when it is known
/// (`scope_isolate`), and accepted otherwise.
pub open spec fn hosts_match(a: HandleHost, b: HandleHost, scope_isolate: Option<usize>) -> bool {
    match (a, b) {
        (HandleHost::Scope, HandleHost::Scope) => true,
        (HandleHost::Isolate(x), HandleHost::Isolate(y)) => x == y,
        (HandleHost::Scope, HandleHost::Isolate(x)) => match scope_isolate {
            Some(s) => x == s,
            None => true,
        },
        (HandleHost::Isolate(x), HandleHost::Scope) => match scope_isolate {
            Some(s) => x == s,
            None => true,
        },
        _ => false,
    }
}

impl HandleHost {
    /// Whether both hosts are live isolates, and different ones.
    pub fn are_different_live_isolates(self, other: Self) -> (r: bool)
        ensures
            r == (self is Isolate && other is Isolate && self->0 != other->0),
    {
        match (self, other) {
            (HandleHost::Isolate(left), HandleHost::Isolate(right)) => left != right,
            _ => false,
        }
    }

    /// Whether the two hosts refer to the same isolate. If the caller knows
    /// the isolate of the currently entered scope it passes it as
    /// `scope_isolate`; without it a scope-hosted handle is taken to match
    /// any isolate. Handles of a disposed isolate match nothing, and asking
    /// about them is a misuse.
    pub fn match_host(self, other: Self, scope_isolate: Option<usize>) -> (r: bool)
        requires
            !(self is DisposedIsolate),
            !(other is DisposedIsolate),
        ensures
            r == hosts_match(self, other, scope_isolate),
    {
        match (self, other) {
            (HandleHost::Scope, HandleHost::Scope) => true,
            (HandleHost::Isolate(a), HandleHost::Isolate(b)) => a == b,
            (HandleHost::Scope, HandleHost::Isolate(a)) => match scope_isolate {
                Some(b) => a == b,
                None => true,
            },
            (HandleHost::Isolate(a), HandleHost::Scope) => match scope_isolate {
                Some(b) => a == b,
                None => true,
            },
            _ => false,
        }
    }

    /// Whether the host is the isolate at address `isolate`, where that
    /// isolate is also the one of the current scope.
    pub fn match_isolate(self, isolate: usize) -> (r: bool)
        requires
            !(self is DisposedIsolate),
        ensures
            r == hosts_match(self, HandleHost::Isolate(isolate), Some(isolate)),
    {
        self.match_host(HandleHost::Isolate(isolate), Some(isolate))
    }

    /// The address of the hosting isolate; only a handle that names a live
    /// isolate has one.
    pub fn get_isolate(self) -> (r: usize)
        requires
            self is Isolate,
        ensures
            r == self->0,
    {
        match self {
            HandleHost::Isolate(a) => a,
            _ => 0,
        }
    }
}

/// Matching hosts is symmetric, reflexive on live hosts, and two live
/// isolates match exactly when they are the same one. A scope-hosted handle
/// matches another scope-hosted one, and an isolate exactly when the scope's
/// isolate is unknown or is that isolate; a disposed isolate matches nothing.
pub proof fn lemma_hosts_match_properties(
    a: HandleHost,
    b: HandleHost,
    scope_isolate: Option<usize>,
)
    ensures
        hosts_match(a, b, scope_isolate) == hosts_match(b, a, scope_isolate),
        !(a is DisposedIsolate) && (a is Isolate || scope_isolate is None || !(b is Isolate))
            ==> hosts_match(a, a, scope_isolate),
        (a is Isolate && b is Isolate && a->0 != b->0) ==> !hosts_match(a, b, scope_isolate),
        a is DisposedIsolate || b is DisposedIsolate ==> !hosts_match(a, b, scope_isolate),
        hosts_match(HandleHost::Scope, HandleHost::Scope, scope_isolate),
        a is Isolate ==> hosts_match(a, a, scope_isolate),
        a is Isolate && b is Isolate ==> (hosts_match(a, b, scope_isolate) <==> a->0 == b->0),
        b is Isolate ==> (hosts_match(HandleHost::Scope, b, scope_isolate) <==> (
        scope_isolate is None || scope_isolate->0 == b->0)),
{
}

/// What a handle refers to (the address of its V8 storage cell) and where it
/// lives.
#[derive(Copy, Clone, Debug, PartialEq, Eq, Structural)]
pub struct HandleInfo {
    pub data: usize,
    pub host: HandleHost,
}

impl HandleInfo {
    /// Bundles a cell address with its host.
    pub fn new(data: usize, host: HandleHost) -> (r: Self)
        ensures
            r.data == data,
            r.host == host,
    {
        HandleInfo { data, host }
    }
}

/// A finalization callback: a regular one may never run, a guaranteed one
/// runs at the latest when its isolate is disposed.
#[derive(Debug)]
pub enum FinalizerCallback<R, G> {
    Regular(R),
    Guaranteed(G),
}

/// The finalizers of an isolate's weak handles, under the ids they were
/// given. Ids are handed out in increasing order and never reused.
#[derive(Debug)]
pub struct FinalizerMap<R, G> {
    map: HashMap<usize, FinalizerCallback<R, G>>,
    next_id: usize,
}

/// The callbacks of `m` whose ids are below `n`, in increasing order of id.
pub open spec fn values_below<V>(m: Map<usize, V>, n: nat) -> Seq<V>
    decreases n,
{
    if n == 0 {
        Seq::empty()
    } else {
        let k = (n - 1) as nat;
        let rest = values_below(m, k);
        if m.contains_key(k as usize) {
            rest.push(m[k as usize])
        } else {
            rest
        }
    }
}

/// The ids below `n` registered in `m`, in increasing order.
pub open spec fn ids_below<V>(m: Map<usize, V>, n: nat) -> Seq<usize>
    decreases n,
{
    if n == 0 {
        Seq::empty()
    } else {
        let k = (n - 1) as nat;
        if m.contains_key(k as usize) {
            ids_below(m, k).push(k as usize)
        } else {
            ids_below(m, k)
        }
    }
}

/// Draining hands out one callback per registered id below `n`, in
/// increasing order of id: the `i`-th callback is the one under the `i`-th
/// id, no id is repeated, and none is left out.
pub proof fn lemma_values_below_one_per_id<V>(m: Map<usize, V>, n: nat)
    requires
        n <= usize::MAX,
    ensures
        values_below(m, n).len() == ids_below(m, n).len(),
        forall|i: int| #![trigger ids_below(m, n)[i]]
            0 <= i < ids_below(m, n).len() ==> {
                &&& ids_below(m, n)[i] < n
                &&& m.contains_key(ids_below(m, n)[i])
                &&& values_below(m, n)[i] == m[ids_below(m, n)[i]]
            },
        forall|i: int, j: int|
            0 <= i < j < ids_below(m, n).len() ==> ids_below(m, n)[i] < ids_below(m, n)[j],
        forall|k: usize| k < n && #[trigger] m.contains_key(k) ==> ids_below(m, n).contains(k),
    decreases n,
{
    if n > 0 {
        let k = (n - 1) as nat;
        lemma_values_below_one_per_id(m, k);
        let ids = ids_below(m, k);
        if m.contains_key(k as usize) {
            assert(ids_below(m, n)[ids.len() as int] == k as usize);
        }
        assert forall|j: usize| j < n && #[trigger] m.contains_key(j) implies ids_below(
            m,
            n,
        ).contains(j) by {
            if j < k {
                let i = choose|i: int| 0 <= i < ids.len() && ids[i] == j;
                assert(ids_below(m, n)[i] == j);
            } else {
                assert(ids_below(m, n)[ids.len() as int] == j);
            }
        }
    }
}

/// A weak handle reaches its cell exactly when it has shared state, its
/// isolate is alive and the value has not been collected; the cell reached
/// is the one in its shared state.
pub proof fn lemma_weak_pointer_reaches_live_cell(data: Option<WeakData>, isolate: usize)
    ensures
        weak_pointer(data, isolate) is Some <==> (data is Some && isolate != 0
            && data->0.pointer is Some),
        weak_pointer(data, isolate) is Some ==> weak_pointer(data, isolate) == data->0.pointer,
{
}

impl<R, G> View for FinalizerMap<R, G> {
    type V = Map<usize, FinalizerCallback<R, G>>;

    /// The registered finalizers by id.
    closed spec fn view(&self) -> Map<usize, FinalizerCallback<R, G>> {
        self.map@
    }
}

impl<R, G> FinalizerMap<R, G> {
    /// The id the next finalizer will get.
    pub closed spec fn next_id(&self) -> usize {
        self.next_id
    }

    /// Every registered id is below the next one to be handed out.
    pub closed spec fn wf(&self) -> bool {
        forall|k: usize| #[trigger] self.map@.contains_key(k) ==> k < self.next_id
    }

    /// In a well-formed map every registered id is below the next one, so
    /// the next id is unused.
    pub proof fn lemma_ids_fresh(&self)
        requires
            self.wf(),
        ensures
            forall|k: usize| #[trigger] self@.contains_key(k) ==> k < self.next_id(),
            !self@.contains_key(self.next_id()),
    {
    }

    /// An empty map whose ids start at 0.
    pub fn new() -> (r: Self)
        ensures
            r.wf(),
            r@ == Map::<usize, FinalizerCallback<R, G>>::empty(),
            r.next_id() == 0,
    {
        FinalizerMap { map: HashMap::new(), next_id: 0 }
    }

    /// Whether no finalizer is registered.
    pub fn is_empty(&self) -> (r: bool)
        ensures
            r == self@.is_empty(),
    {
        self.map.is_empty()
    }

    /// Registers a finalizer under a fresh id, which is returned.
    pub fn add(&mut self, finalizer: FinalizerCallback<R, G>) -> (id: usize)
        requires
            old(self).wf(),
            old(self).next_id() < usize::MAX,
        ensures
            final(self).wf(),
            id == old(self).next_id(),
            !old(self)@.contains_key(id),
            final(self)@ == old(self)@.insert(id, finalizer),
            final(self).next_id() == old(self).next_id() + 1,
    {
        let id = self.next_id;
        self.next_id = self.next_id + 1;
        self.map.insert(id, finalizer);
        id
    }

    /// Whether a finalizer is registered under `id`.
    pub fn contains(&self, id: usize) -> (r: bool)
        ensures
            r == self@.contains_key(id),
    {
        self.map.contains_key(&id)
    }

    /// Takes out the finalizer registered under `id`, if any.
    pub fn remove(&mut self, id: usize) -> (r: Option<FinalizerCallback<R, G>>)
        requires
            old(self).wf(),
        ensures
            final(self).wf(),
            final(self).next_id() == old(self).next_id(),
            final(self)@ == old(self)@.remove(id),
            match r {
                Some(f) => old(self)@.contains_key(id) && f == old(self)@[id],
                None => !old(self)@.contains_key(id),
            },
    {
        self.map.remove(&id)
    }

    /// Takes out every registered finalizer, in the order they were
    /// registered.
    pub fn drain(&mut self) -> (r: Vec<FinalizerCallback<R, G>>)
        requires
            old(self).wf(),
        ensures
            final(self).wf(),
            final(self)@ == Map::<usize, FinalizerCallback<R, G>>::empty(),
            final(self).next_id() == old(self).next_id(),
            r@ == values_below(old(self)@, old(self).next_id() as nat),
    {
        let ghost old_map = self.map@;
        let mut out: Vec<FinalizerCallback<R, G>> = Vec::new();
        let mut id: usize = 0;
        while id < self.next_id
            invariant
                id <= self.next_id,
                self.next_id == old(self).next_id,
                old_map == old(self)@,
                forall|k: usize| #[trigger] old_map.contains_key(k) ==> k < self.next_id,
                forall|k: usize| #[trigger]
                    self.map@.contains_key(k) <==> (old_map.contains_key(k) && k >= id),
                forall|k: usize| #[trigger]
                    self.map@.contains_key(k) ==> self.map@[k] == old_map[k],
                out@ == values_below(old_map, id as nat),
            decreases self.next_id - id,
        {
            let removed = self.map.remove(&id);
            match removed {
                Some(f) => {
                    out.push(f);
                },
                None => {},
            }
            id = id + 1;
        }
        proof {
            assert(self.map@ =~= Map::<usize, FinalizerCallback<R, G>>::empty());
        }
        out
    }
}

/// A handle independent of any handle scope, valid until it is dropped. It
/// holds the address of its V8 storage cell (never 0), the address of its
/// isolate (0 once the isolate has been disposed), and whether that isolate
/// is shared between threads.
#[derive(Debug)]
pub struct Global<T> {
    data: usize,
    isolate: usize,
    shared: bool,
    marker: PhantomData<T>,
}

/// The storage cells of global handles that were let go of by threads that
/// could not touch their isolate at the time. They are reset at the
/// isolate's next lock boundary or at its teardown, and until then keep
/// their values alive.
#[derive(Debug)]
pub struct DeferredResets {
    cells: Vec<usize>,
}

impl View for DeferredResets {
    type V = Seq<usize>;

    /// The queued cells, oldest first.
    closed spec fn view(&self) -> Seq<usize> {
        self.cells@
    }
}

impl DeferredResets {
    /// An empty queue.
    pub fn new() -> (r: Self)
        ensures
            r@ == Seq::<usize>::empty(),
    {
        DeferredResets { cells: Vec::new() }
    }

    /// Whether no reset is waiting.
    pub fn is_empty(&self) -> (r: bool)
        ensures
            r == (self@.len() == 0),
    {
        self.cells.len() == 0
    }

    /// Queues the reset of `cell`.
    fn defer(&mut self, cell: usize)
        ensures
            final(self)@ == old(self)@.push(cell),
    {
        self.cells.push(cell);
    }

    /// Takes every queued cell, oldest first, to be reset now by a thread
    /// that may touch the isolate.
    pub fn drain(&mut self) -> (r: Vec<usize>)
        ensures
            r@ == old(self)@,
            final(self)@ == Seq::<usize>::empty(),
    {
        let mut taken: Vec<usize> = Vec::new();
        std::mem::swap(&mut taken, &mut self.cells);
        taken
    }
}

impl<T> Global<T> {
    /// A global handle always holds a storage cell.
    #[verifier::type_invariant]
    closed spec fn inv(self) -> bool {
        self.data != 0
    }

    /// The storage cell.
    pub closed spec fn cell(&self) -> usize {
        self.data
    }

    /// The address of the hosting isolate; 0 once it has been disposed.
    pub closed spec fn isolate(&self) -> usize {
        self.isolate
    }

    /// Whether the hosting isolate is shared between threads.
    pub closed spec fn is_shared(&self) -> bool {
        self.shared
    }

    /// A global handle for the value of `handle`, held in the storage cell
    /// `cell` that V8 made for it in the live isolate at `isolate`. The
    /// handle must live in that isolate.
    pub fn new(isolate: usize, shared: bool, handle: HandleInfo, cell: usize) -> (r: Self)
        requires
            isolate != 0,
            cell != 0,
            !(handle.host is DisposedIsolate),
            hosts_match(handle.host, HandleHost::Isolate(isolate), Some(isolate)),
        ensures
            r.cell() == cell,
            r.isolate() == isolate,
            r.is_shared() == shared,
    {
        Global { data: cell, isolate, shared, marker: PhantomData }
    }

    /// Turns a cell returned by `into_raw` back into the global handle of
    /// the isolate at `isolate`.
    pub fn from_raw(isolate: usize, shared: bool, data: usize) -> (r: Self)
        requires
            data != 0,
        ensures
            r.cell() == data,
            r.isolate() == isolate,
            r.is_shared() == shared,
    {
        Global { data, isolate, shared, marker: PhantomData }
    }

    /// Consumes this handle and returns its storage cell, which stays alive
    /// until it is turned back into a `Global` with `from_raw`.
    pub fn into_raw(self) -> (r: usize)
        ensures
            r == self.cell(),
            r != 0,
    {
        proof {
            use_type_invariant(&self);
        }
        self.data
    }

    /// Where this handle lives.
    pub fn get_handle_host(&self) -> (r: HandleHost)
        ensures
            r == (if self.isolate() == 0 {
                HandleHost::DisposedIsolate
            } else {
                HandleHost::Isolate(self.isolate())
            }),
    {
        if self.isolate == 0 {
            HandleHost::DisposedIsolate
        } else {
            HandleHost::Isolate(self.isolate)
        }
    }

    /// Lets go of this handle and returns the storage cells to reset now,
    /// in order. `on_home_thread` says whether the current thread is the
    /// isolate's own thread, `holds_lock` whether it holds the lock of a
    /// shared isolate. A handle of a disposed isolate has nothing to reset.
    /// On the home thread of an unshared isolate the cell is reset at once,
    /// and the resets queued in `deferred` with it. A thread holding a shared
    /// isolate's lock resets the cell at once. Any other thread may not touch
    /// the isolate: the reset is queued in `deferred`.
    pub fn release(self, on_home_thread: bool, holds_lock: bool, deferred: &mut DeferredResets) -> (r: Vec<usize>)
        ensures
            self.isolate() == 0 ==> r@ == Seq::<usize>::empty() && final(deferred)@ == old(deferred)@,
            self.isolate() != 0 && !self.is_shared() && on_home_thread ==> {
                &&& r@ == seq![self.cell()] + old(deferred)@
                &&& final(deferred)@ == Seq::<usize>::empty()
            },
            self.isolate() != 0 && self.is_shared() && holds_lock ==> {
                &&& r@ == seq![self.cell()]
                &&& final(deferred)@ == old(deferred)@
            },
            self.isolate() != 0 && !(!self.is_shared() && on_home_thread) && !(self.is_shared()
                && holds_lock) ==> {
                &&& r@ == Seq::<usize>::empty()
                &&& final(deferred)@ == old(deferred)@.push(self.cell())
            },
    {
        let mut now: Vec<usize> = Vec::new();
        if self.isolate == 0 {
        } else if !self.shared && on_home_thread {
            now.push(self.data);
            let mut queued = deferred.drain();
            now.append(&mut queued);
        } else if self.shared && holds_lock {
            now.push(self.data);
        } else {
            deferred.defer(self.data);
        }
        now
    }
}

/// Anything that refers to a V8 value: it can say which cell it refers to
/// and where it lives.
pub trait Handle {
    fn get_handle_info(&self) -> HandleInfo;
}

impl<T> Handle for Global<T> {
    fn get_handle_info(&self) -> (r: HandleInfo)
        ensures
            r.data == self.cell(),
            r.host == (if self.isolate() == 0 {
                HandleHost::DisposedIsolate
            } else {
                HandleHost::Isolate(self.isolate())
            }),
    {
        HandleInfo::new(self.data, self.get_handle_host())
    }
}

impl<'sc, T> Handle for Local<'sc, T> {
    fn get_handle_info(&self) -> (r: HandleInfo)
        ensures
            r.data == self@,
            r.host == HandleHost::Scope,
    {
        HandleInfo::new(self.slot(), HandleHost::Scope)
    }
}

/// The state of a weak handle that its finalization callbacks share: the
/// storage cell V8 holds (gone once the value has been collected), the id of
/// the handle's finalizer, and whether the handle has been dropped while its
/// second-pass callback was still due.
#[derive(Copy, Clone, Debug, PartialEq, Eq, Structural)]
pub struct WeakData {
    pub pointer: Option<usize>,
    pub finalizer_id: Option<usize>,
    pub weak_dropped: bool,
}

/// An object reference that does not prevent garbage collection for the
/// object, and which may carry a finalization callback that runs after the
/// object has been collected. Finalization callbacks are tied to the
/// lifetime of a `Weak`, and will not run after it is dropped.
#[derive(Debug)]
pub struct Weak<T> {
    data: Option<WeakData>,
    isolate_handle: IsolateHandle,
    marker: PhantomData<T>,
}

/// The cell a weak handle still reaches: none once the value has been
/// collected or the isolate disposed.
pub open spec fn weak_pointer(data: Option<WeakData>, isolate: usize) -> Option<usize> {
    match data {
        Some(d) => if isolate == 0 {
            None
        } else {
            d.pointer
        },
        None => None,
    }
}

/// What V8 is to be told when a weak handle goes away, and what must be kept
/// alive for a pending second-pass callback.
#[derive(Copy, Clone, Debug, PartialEq, Eq, Structural)]
pub struct WeakRelease {
    /// The storage cell to reset, if the value has not been collected yet.
    pub reset: Option<usize>,
    /// The shared state, when its second-pass callback is still due: it is
    /// left for that callback to free.
    pub leaked: Option<WeakData>,
}

/// The annex after a weak handle counted in it goes away, with the finalizer
/// `id` (if any) taken out.
pub open spec fn annex_after_release<R, G>(
    annex: IsolateAnnexModel<R, G>,
    counted: bool,
    id: Option<usize>,
) -> IsolateAnnexModel<R, G> {
    IsolateAnnexModel {
        live_weak_count: if counted {
            (annex.live_weak_count - 1) as usize
        } else {
            annex.live_weak_count
        },
        finalizers: match id {
            Some(i) => annex.finalizers.remove(i),
            None => annex.finalizers,
        },
        ..annex
    }
}

impl<T> Weak<T> {
    /// A handle's shared state is never marked as dropped while the handle
    /// exists: only letting go of the handle marks it.
    #[verifier::type_invariant]
    closed spec fn inv(self) -> bool {
        self.data is Some ==> !self.data->0.weak_dropped
    }

    /// The shared state, if the handle was made with one.
    pub closed spec fn state(&self) -> Option<WeakData> {
        self.data
    }

    /// The handle of the isolate the weak handle was made in.
    pub closed spec fn handle(&self) -> IsolateHandle {
        self.isolate_handle
    }

    /// The handle for a new weak cell `cell` in the isolate of `annex`, with
    /// the finalizer `finalizer_id` (if any), counted as a live weak handle.
    fn new_raw<R, G>(
        annex: &mut IsolateAnnex<R, G>,
        cell: usize,
        finalizer_id: Option<usize>,
    ) -> (r: Self)
        requires
            old(annex)@.live_weak_count < usize::MAX,
        ensures
            final(annex)@ == (IsolateAnnexModel {
                live_weak_count: (old(annex)@.live_weak_count + 1) as usize,
                ..old(annex)@
            }),
            r.state() == Some(WeakData { pointer: Some(cell), finalizer_id, weak_dropped: false }),
            r.handle().isolate == old(annex)@.isolate,
    {
        annex.acquire_live_weak();
        Weak {
            data: Some(WeakData { pointer: Some(cell), finalizer_id, weak_dropped: false }),
            isolate_handle: annex.thread_safe_handle(),
            marker: PhantomData,
        }
    }

    /// A weak handle to the value of `handle`, held in the new weak cell
    /// `cell` that V8 made for it. The handle must live in the annex's
    /// isolate, which must not be shared between threads.
    pub fn new<R, G>(annex: &mut IsolateAnnex<R, G>, handle: HandleInfo, cell: usize) -> (r: Self)
        requires
            old(annex)@.isolate != 0,
            !old(annex)@.shared,
            !(handle.host is DisposedIsolate),
            hosts_match(handle.host, HandleHost::Isolate(old(annex)@.isolate), Some(old(annex)@.isolate)),
            old(annex)@.live_weak_count < usize::MAX,
        ensures
            final(annex)@ == (IsolateAnnexModel {
                live_weak_count: (old(annex)@.live_weak_count + 1) as usize,
                ..old(annex)@
            }),
            r.state() == Some(WeakData { pointer: Some(cell), finalizer_id: None, weak_dropped: false }),
            r.handle().isolate == old(annex)@.isolate,
    {
        Self::new_raw(annex, cell, None)
    }

    /// A weak handle, as `new` makes it, whose finalizer `finalizer` may run
    /// once the value has been collected. There is no guarantee that it runs.
    pub fn with_finalizer<R, G>(
        annex: &mut IsolateAnnex<R, G>,
        handle: HandleInfo,
        finalizer: R,
        cell: usize,
    ) -> (r: Self)
        requires
            old(annex)@.isolate != 0,
            !old(annex)@.shared,
            !(handle.host is DisposedIsolate),
            hosts_match(handle.host, HandleHost::Isolate(old(annex)@.isolate), Some(old(annex)@.isolate)),
            old(annex)@.live_weak_count < usize::MAX,
            old(annex)@.next_finalizer_id < usize::MAX,
        ensures
            !old(annex)@.finalizers.contains_key(old(annex)@.next_finalizer_id),
            final(annex)@ == (IsolateAnnexModel {
                finalizers: old(annex)@.finalizers.insert(
                    old(annex)@.next_finalizer_id,
                    FinalizerCallback::Regular(finalizer),
                ),
                next_finalizer_id: (old(annex)@.next_finalizer_id + 1) as usize,
                live_weak_count: (old(annex)@.live_weak_count + 1) as usize,
                ..old(annex)@
            }),
            r.state() == Some(WeakData {
                pointer: Some(cell),
                finalizer_id: Some(old(annex)@.next_finalizer_id),
                weak_dropped: false,
            }),
            r.handle().isolate == old(annex)@.isolate,
    {
        let id = annex.add_finalizer(FinalizerCallback::Regular(finalizer));
        Self::new_raw(annex, cell, Some(id))
    }

    /// A weak handle, as `new` makes it, whose finalizer `finalizer` is
    /// guaranteed to run: after the value has been collected, or at the
    /// latest when the isolate is disposed.
    pub fn with_guaranteed_finalizer<R, G>(
        annex: &mut IsolateAnnex<R, G>,
        handle: HandleInfo,
        finalizer: G,
        cell: usize,
    ) -> (r: Self)
        requires
            old(annex)@.isolate != 0,
            !old(annex)@.shared,
            !(handle.host is DisposedIsolate),
            hosts_match(handle.host, HandleHost::Isolate(old(annex)@.isolate), Some(old(annex)@.isolate)),
            old(annex)@.live_weak_count < usize::MAX,
            old(annex)@.next_finalizer_id < usize::MAX,
        ensures
            !old(annex)@.finalizers.contains_key(old(annex)@.next_finalizer_id),
            final(annex)@ == (IsolateAnnexModel {
                finalizers: old(annex)@.finalizers.insert(
                    old(annex)@.next_finalizer_id,
                    FinalizerCallback::Guaranteed(finalizer),
                ),
                next_finalizer_id: (old(annex)@.next_finalizer_id + 1) as usize,
                live_weak_count: (old(annex)@.live_weak_count + 1) as usize,
                ..old(annex)@
            }),
            r.state() == Some(WeakData {
                pointer: Some(cell),
                finalizer_id: Some(old(annex)@.next_finalizer_id),
                weak_dropped: false,
            }),
            r.handle().isolate == old(annex)@.isolate,
    {
        let id = annex.add_finalizer(FinalizerCallback::Guaranteed(finalizer));
        Self::new_raw(annex, cell, Some(id))
    }

    /// A new empty handle, identical to one for an object that has already
    /// been collected. It is not counted as a live weak handle.
    pub fn empty<R, G>(annex: &IsolateAnnex<R, G>) -> (r: Self)
        ensures
            r.state() is None,
            r.handle().isolate == annex@.isolate,
    {
        Weak { data: None, isolate_handle: annex.thread_safe_handle(), marker: PhantomData }
    }

    /// The handle of the isolate this weak handle was made in.
    pub fn isolate_handle(&self) -> (r: IsolateHandle)
        ensures
            r == self.handle(),
    {
        self.isolate_handle
    }

    /// Whether this handle counts as a live weak handle of its isolate: it
    /// has shared state and the isolate is not disposed.
    pub fn is_counted(&self) -> (r: bool)
        ensures
            r == (self.state() is Some && self.handle().isolate != 0),
    {
        self.data.is_some() && self.isolate_handle.isolate != 0
    }

    /// The storage cell this handle still reaches, if any.
    pub fn get_pointer(&self) -> (r: Option<usize>)
        ensures
            r == weak_pointer(self.state(), self.handle().isolate),
    {
        match &self.data {
            Some(d) => {
                if self.isolate_handle.isolate == 0 {
                    None
                } else {
                    d.pointer
                }
            },
            None => None,
        }
    }

    /// Whether the value is gone: collected, or its isolate disposed.
    pub fn is_empty(&self) -> (r: bool)
        ensures
            r == (weak_pointer(self.state(), self.handle().isolate) is None),
    {
        self.get_pointer().is_none()
    }

    /// Clones this handle with the finalizer `finalizer` (if any) on the
    /// clone. A handle whose value is gone clones to an empty handle, and
    /// the finalizer is dropped without running; otherwise `cell` is the new
    /// weak cell V8 made for the clone.
    fn clone_raw<R, G>(
        &self,
        annex: &mut IsolateAnnex<R, G>,
        finalizer: Option<FinalizerCallback<R, G>>,
        cell: usize,
    ) -> (r: Self)
        requires
            self.handle().isolate != 0 ==> old(annex)@.isolate == self.handle().isolate,
            weak_pointer(self.state(), self.handle().isolate) is Some ==> !old(annex)@.shared,
            old(annex)@.live_weak_count < usize::MAX,
            finalizer is Some ==> old(annex)@.next_finalizer_id < usize::MAX,
        ensures
            r.handle() == self.handle(),
            weak_pointer(self.state(), self.handle().isolate) is None ==> {
                &&& r.state() is None
                &&& final(annex)@ == old(annex)@
            },
            weak_pointer(self.state(), self.handle().isolate) is Some ==> {
                let id = old(annex)@.next_finalizer_id;
                &&& !old(annex)@.finalizers.contains_key(id)
                &&& r.state() == Some(WeakData {
                    pointer: Some(cell),
                    finalizer_id: if finalizer is Some { Some(id) } else { None },
                    weak_dropped: false,
                })
                &&& final(annex)@ == (IsolateAnnexModel {
                    finalizers: match finalizer {
                        Some(f) => old(annex)@.finalizers.insert(id, f),
                        None => old(annex)@.finalizers,
                    },
                    next_finalizer_id: if finalizer is Some {
                        (id + 1) as usize
                    } else {
                        id
                    },
                    live_weak_count: (old(annex)@.live_weak_count + 1) as usize,
                    ..old(annex)@
                })
            },
    {
        proof {
            use_type_invariant(&*annex);
            annex.lemma_ids_fresh();
        }
        match self.get_pointer() {
            Some(_) => {
                let finalizer_id = match finalizer {
                    Some(f) => Some(annex.add_finalizer(f)),
                    None => None,
                };
                Self::new_raw(annex, cell, finalizer_id)
            },
            None => Weak { data: None, isolate_handle: self.isolate_handle, marker: PhantomData },
        }
    }

    /// Clones this handle without a finalizer on the clone; see `clone_raw`.
    pub fn clone<R, G>(&self, annex: &mut IsolateAnnex<R, G>, cell: usize) -> (r: Self)
        requires
            self.handle().isolate != 0 ==> old(annex)@.isolate == self.handle().isolate,
            weak_pointer(self.state(), self.handle().isolate) is Some ==> !old(annex)@.shared,
            old(annex)@.live_weak_count < usize::MAX,
        ensures
            r.handle() == self.handle(),
            weak_pointer(self.state(), self.handle().isolate) is None ==> {
                &&& r.state() is None
                &&& final(annex)@ == old(annex)@
            },
            weak_pointer(self.state(), self.handle().isolate) is Some ==> {
                &&& r.state() == Some(WeakData { pointer: Some(cell), finalizer_id: None, weak_dropped: false })
                &&& final(annex)@ == (IsolateAnnexModel {
                    live_weak_count: (old(annex)@.live_weak_count + 1) as usize,
                    ..old(annex)@
                })
            },
    {
        self.clone_raw(annex, None, cell)
    }

    /// A global handle to the value, if it is still there; `cell` is the
    /// storage cell V8 makes for the new global handle. The isolate at
    /// `isolate` must be the one hosting this handle.
    pub fn to_global(&self, isolate: usize, shared: bool, cell: usize) -> (r: Option<Global<T>>)
        requires
            cell != 0,
            weak_pointer(self.state(), self.handle().isolate) is Some
                ==> self.handle().isolate == isolate,
        ensures
            match weak_pointer(self.state(), self.handle().isolate) {
                Some(_) => r is Some && r->0.cell() == cell && r->0.isolate() == isolate
                    && r->0.is_shared() == shared,
                None => r is None,
            },
    {
        match self.get_pointer() {
            Some(_) => Some(Global { data: cell, isolate, shared, marker: PhantomData }),
            None => None,
        }
    }

    /// Clones this handle and installs `finalizer` on the clone, as
    /// `with_finalizer` does. If this handle's value is gone the finalizer
    /// never runs.
    pub fn clone_with_finalizer<R, G>(
        &self,
        annex: &mut IsolateAnnex<R, G>,
        finalizer: R,
        cell: usize,
    ) -> (r: Self)
        requires
            self.handle().isolate != 0 ==> old(annex)@.isolate == self.handle().isolate,
            weak_pointer(self.state(), self.handle().isolate) is Some ==> !old(annex)@.shared,
            old(annex)@.live_weak_count < usize::MAX,
            old(annex)@.next_finalizer_id < usize::MAX,
        ensures
            r.handle() == self.handle(),
            weak_pointer(self.state(), self.handle().isolate) is None ==> {
                &&& r.state() is None
                &&& final(annex)@ == old(annex)@
            },
            weak_pointer(self.state(), self.handle().isolate) is Some ==> {
                let id = old(annex)@.next_finalizer_id;
                &&& !old(annex)@.finalizers.contains_key(id)
                &&& r.state() == Some(WeakData { pointer: Some(cell), finalizer_id: Some(id), weak_dropped: false })
                &&& final(annex)@ == (IsolateAnnexModel {
                    finalizers: old(annex)@.finalizers.insert(id, FinalizerCallback::Regular(finalizer)),
                    next_finalizer_id: (id + 1) as usize,
                    live_weak_count: (old(annex)@.live_weak_count + 1) as usize,
                    ..old(annex)@
                })
            },
    {
        self.clone_raw(annex, Some(FinalizerCallback::Regular(finalizer)), cell)
    }

    /// Clones this handle and installs `finalizer` on the clone, as
    /// `with_guaranteed_finalizer` does. If this handle's value is gone the
    /// finalizer never runs.
    pub fn clone_with_guaranteed_finalizer<R, G>(
        &self,
        annex: &mut IsolateAnnex<R, G>,
        finalizer: G,
        cell: usize,
    ) -> (r: Self)
        requires
            self.handle().isolate != 0 ==> old(annex)@.isolate == self.handle().isolate,
            weak_pointer(self.state(), self.handle().isolate) is Some ==> !old(annex)@.shared,
            old(annex)@.live_weak_count < usize::MAX,
            old(annex)@.next_finalizer_id < usize::MAX,
        ensures
            r.handle() == self.handle(),
            weak_pointer(self.state(), self.handle().isolate) is None ==> {
                &&& r.state() is None
                &&& final(annex)@ == old(annex)@
            },
            weak_pointer(self.state(), self.handle().isolate) is Some ==> {
                let id = old(annex)@.next_finalizer_id;
                &&& !old(annex)@.finalizers.contains_key(id)
                &&& r.state() == Some(WeakData { pointer: Some(cell), finalizer_id: Some(id), weak_dropped: false })
                &&& final(annex)@ == (IsolateAnnexModel {
                    finalizers: old(annex)@.finalizers.insert(id, FinalizerCallback::Guaranteed(finalizer)),
                    next_finalizer_id: (id + 1) as usize,
                    live_weak_count: (old(annex)@.live_weak_count + 1) as usize,
                    ..old(annex)@
                })
            },
    {
        self.clone_raw(annex, Some(FinalizerCallback::Guaranteed(finalizer)), cell)
    }

    /// Lets go of this handle. The handle stops counting as a live weak
    /// handle of a live isolate and its finalizer is taken out, so it will
    /// never run. If the value has not been collected yet, its cell is to be
    /// reset, which also cancels the collection callbacks. If the value has
    /// been collected but the second-pass callback is still due (its
    /// finalizer was still registered), the shared state is marked as
    /// dropped and left for that callback to free.
    pub fn release<R, G>(self, annex: &mut IsolateAnnex<R, G>) -> (r: WeakRelease)
        requires
            self.handle().isolate != 0 ==> old(annex)@.isolate == self.handle().isolate,
            (self.state() is Some && self.handle().isolate != 0) ==> old(annex)@.live_weak_count > 0,
        ensures
            final(annex)@ == annex_after_release(
                old(annex)@,
                self.state() is Some && self.handle().isolate != 0,
                if self.handle().isolate != 0 && self.state() is Some {
                    self.state()->0.finalizer_id
                } else {
                    None
                },
            ),
            forall|k: usize| #[trigger] final(annex)@.finalizers.contains_key(k) <==> (
                old(annex)@.finalizers.contains_key(k) && !(self.handle().isolate != 0
                    && self.state() is Some && self.state()->0.finalizer_id == Some(k))),
            forall|k: usize| #[trigger] final(annex)@.finalizers.contains_key(k)
                ==> final(annex)@.finalizers[k] == old(annex)@.finalizers[k],
            final(annex)@.live_weak_count == if self.handle().isolate != 0 && self.state() is Some {
                old(annex)@.live_weak_count - 1
            } else {
                old(annex)@.live_weak_count as int
            },
            r.reset == weak_pointer(self.state(), self.handle().isolate),
            r.leaked == (match self.state() {
                Some(wd) => if self.handle().isolate != 0 && wd.pointer is None
                    && wd.finalizer_id is Some && old(annex)@.finalizers.contains_key(
                    wd.finalizer_id->0,
                ) {
                    Some(WeakData { weak_dropped: true, ..wd })
                } else {
                    None
                },
                None => None,
            }),
    {
        let alive = self.isolate_handle.isolate != 0;
        let pointer = self.get_pointer();
        match self.data {
            Some(wd) => {
                if alive {
                    annex.release_live_weak();
                }
                let removed = match wd.finalizer_id {
                    Some(id) => {
                        if alive {
                            annex.remove_finalizer(id).is_some()
                        } else {
                            false
                        }
                    },
                    None => false,
                };
                match pointer {
                    Some(cell) => WeakRelease { reset: Some(cell), leaked: None },
                    None => {
                        if removed {
                            WeakRelease {
                                reset: None,
                                leaked: Some(WeakData { weak_dropped: true, ..wd }),
                            }
                        } else {
                            WeakRelease { reset: None, leaked: None }
                        }
                    },
                }
            },
            None => WeakRelease { reset: None, leaked: None },
        }
    }

    /// Consumes this handle and returns its shared state, or `None` if the
    /// value is gone with no second pass due, in which case the handle
    /// stops counting as live. A returned state keeps its count until it is
    /// turned back into a `Weak` with `from_raw` and released. The state
    /// must not be marked as dropped.
    pub fn into_raw<R, G>(self, annex: &mut IsolateAnnex<R, G>) -> (r: Option<WeakData>)
        requires
            self.handle().isolate != 0 ==> old(annex)@.isolate == self.handle().isolate,
            (self.state() is Some && self.handle().isolate != 0) ==> old(annex)@.live_weak_count > 0,
        ensures
            r is Some ==> !r->0.weak_dropped,
            match self.state() {
                Some(wd) => {
                    let alive = self.handle().isolate != 0;
                    let has_finalizer = alive && wd.finalizer_id is Some
                        && old(annex)@.finalizers.contains_key(wd.finalizer_id->0);
                    if wd.pointer is None && !has_finalizer {
                        &&& r is None
                        &&& final(annex)@ == annex_after_release(old(annex)@, alive, None)
                    } else {
                        &&& r == Some(wd)
                        &&& final(annex)@ == old(annex)@
                    }
                },
                None => r is None && final(annex)@ == old(annex)@,
            },
    {
        proof {
            use_type_invariant(&self);
        }
        match self.data {
            Some(wd) => {
                let alive = self.isolate_handle.isolate != 0;
                let has_finalizer = match wd.finalizer_id {
                    Some(id) => alive && annex.has_finalizer(id),
                    None => false,
                };
                if wd.pointer.is_none() && !has_finalizer {
                    if alive {
                        annex.release_live_weak();
                    }
                    proof {
                        assert(final(annex)@.finalizers =~= old(annex)@.finalizers);
                    }
                    None
                } else {
                    Some(wd)
                }
            },
            None => None,
        }
    }

    /// Turns shared state returned by `into_raw` back into a handle of the
    /// annex's isolate. Shared isolates have no weak handles.
    pub fn from_raw<R, G>(annex: &IsolateAnnex<R, G>, data: Option<WeakData>) -> (r: Self)
        requires
            data is Some ==> !annex@.shared,
            data is Some ==> !data->0.weak_dropped,
        ensures
            r.state() == data,
            r.handle().isolate == annex@.isolate,
    {
        Weak { data, isolate_handle: annex.thread_safe_handle(), marker: PhantomData }
    }
}

impl WeakData {
    /// The first collection callback: the value has been collected, so the
    /// cell (returned) is to be reset, and the handle's cell forgotten. The
    /// returned flag says whether a second pass is to be requested, which is
    /// the case exactly when the handle has a finalizer.
    pub fn first_pass_callback(&mut self) -> (r: (usize, bool))
        requires
            old(self).pointer is Some,
        ensures
            r.0 == old(self).pointer->0,
            r.1 == old(self).finalizer_id is Some,
            *final(self) == (WeakData { pointer: None, ..*old(self) }),
    {
        let cell = match self.pointer {
            Some(c) => c,
            None => 0,
        };
        self.pointer = None;
        (cell, self.finalizer_id.is_some())
    }

    /// The second collection callback, requested only for a handle with a
    /// finalizer: the finalizer is taken out of the isolate (it is absent
    /// when the handle was dropped meanwhile) to be run now; the returned
    /// flag says whether this shared state, whose handle has been dropped,
    /// is to be freed.
    pub fn second_pass_callback<R, G>(&self, annex: &mut IsolateAnnex<R, G>) -> (r: (
        Option<FinalizerCallback<R, G>>,
        bool,
    ))
        requires
            self.finalizer_id is Some,
        ensures
            final(annex)@ == annex_after_release(old(annex)@, false, self.finalizer_id),
            final(annex)@.finalizers == old(annex)@.finalizers.remove(self.finalizer_id->0),
            final(annex)@.live_weak_count == old(annex)@.live_weak_count,
            match r.0 {
                Some(f) => old(annex)@.finalizers.contains_key(self.finalizer_id->0) && f
                    == old(annex)@.finalizers[self.finalizer_id->0],
                None => !old(annex)@.finalizers.contains_key(self.finalizer_id->0),
            },
            r.1 == self.weak_dropped,
    {
        let id = match self.finalizer_id {
            Some(i) => i,
            None => 0,
        };
        let finalizer = annex.remove_finalizer(id);
        (finalizer, self.weak_dropped)
    }
}

/// A finalizer registered under a fresh id and then taken out again leaves
/// the registered finalizers as they were.
pub proof fn lemma_finalizer_add_remove<R, G>(
    m: Map<usize, FinalizerCallback<R, G>>,
    id: usize,
    f: FinalizerCallback<R, G>,
)
    requires
        !m.contains_key(id),
    ensures
        m.insert(id, f).contains_key(id),
        m.insert(id, f)[id] == f,
        m.insert(id, f).remove(id) == m,
{
    assert(m.insert(id, f).remove(id) =~= m);
}

/// Every weak handle counted when it is made is uncounted when it is
/// released while its isolate lives, so a handle made and released leaves
/// the count of live weak handles as it was.
pub proof fn lemma_weak_count_balance<R, G>(annex: IsolateAnnexModel<R, G>)
    requires
        annex.live_weak_count < usize::MAX,
    ensures
        annex_after_release(
            IsolateAnnexModel { live_weak_count: (annex.live_weak_count + 1) as usize, ..annex },
            true,
            None,
        ) == annex,
{
}

/// A handle made empty stays empty, and one whose value has been collected
/// (its first-pass callback has run) is empty too.
pub proof fn lemma_weak_empty(data: WeakData, isolate: usize)
    ensures
        weak_pointer(None, isolate) is None,
        data.pointer is None ==> weak_pointer(Some(data), isolate) is None,
        weak_pointer(Some(data), 0) is None,
{
}

/// Letting go of a weak handle, and the second-pass callback of a collected
/// one, take out at most the handle's own finalizer: every other registered
/// finalizer stays, under the same id and with the same callback. Only a
/// counted handle lowers the live weak count, by one; nothing else in the
/// annex changes.
pub proof fn lemma_release_takes_only_own_finalizer<R, G>(
    annex: IsolateAnnexModel<R, G>,
    counted: bool,
    id: Option<usize>,
)
    ensures
        forall|k: usize| id != Some(k) ==> (
            #[trigger] annex_after_release(annex, counted, id).finalizers.contains_key(k)
                <==> annex.finalizers.contains_key(k)),
        forall|k: usize| id != Some(k) && annex.finalizers.contains_key(k)
            ==> #[trigger] annex_after_release(annex, counted, id).finalizers[k]
                == annex.finalizers[k],
        id is Some ==> !annex_after_release(annex, counted, id).finalizers.contains_key(id->0),
        annex_after_release(annex, counted, id).isolate == annex.isolate,
        annex_after_release(annex, counted, id).next_finalizer_id == annex.next_finalizer_id,
        annex_after_release(annex, counted, id).shared == annex.shared,
        counted && annex.live_weak_count > 0 ==> annex_after_release(annex, counted, id).live_weak_count
            == annex.live_weak_count - 1,
        !counted ==> annex_after_release(annex, counted, id).live_weak_count == annex.live_weak_count,
{
}

/// Once a weak handle of a live isolate has been released, its finalizer is
/// no longer registered, so its second-pass callback finds nothing to run.
pub proof fn lemma_released_finalizer_never_runs<R, G>(
    annex: IsolateAnnexModel<R, G>,
    counted: bool,
    id: usize,
)
    ensures
        !annex_after_release(annex, counted, Some(id)).finalizers.contains_key(id),
        !annex_after_release(annex_after_release(annex, counted, Some(id)), false, Some(id)).finalizers.contains_key(id),
{
}

} // verus!
