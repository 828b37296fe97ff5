//! Initial configuration of a new isolate.

use vstd::prelude::*;

use crate::snapshot::StartupData;

verus! {

/// An address in the embedder that V8 may match against during
/// serialization. The address 0 ends a list of references.
#[derive(Copy, Clone, Debug, PartialEq, Eq, Structural)]
pub struct ExternalReference {
    pub pointer: usize,
}

/// Whether a list of external references ends with the null reference.
pub open spec fn ends_with_null(refs: Seq<ExternalReference>) -> bool {
    refs.len() > 0 && refs.last().pointer == 0
}

/// The list V8 is given for `refs`: `refs` itself when it already ends with
/// the null reference, else `refs` with one null reference appended.
pub open spec fn null_terminated(refs: Seq<ExternalReference>) -> Seq<ExternalReference> {
    if ends_with_null(refs) {
        refs
    } else {
        refs.push(ExternalReference { pointer: 0 })
    }
}

/// A request to configure the heap limits, applied by V8 in the order given.
#[derive(Copy, Clone, Debug, PartialEq, Eq, Structural)]
pub enum HeapConfiguration {
    /// Reasonable defaults from an initial (or zero) and a maximum heap size,
    /// in bytes.
    FromHeapSize { initial: usize, max: usize },
    /// Reasonable defaults from the device's physical memory and its virtual
    /// memory limit (zero when there is none), in bytes.
    FromSystemMemory { physical_memory: u64, virtual_memory_limit: u64 },
}

/// The configuration a `CreateParams` holds, as plain values. Addresses
/// stand for the callback, allocator and heap objects handed to V8.
pub struct CreateParamsModel {
    pub counter_lookup_callback: Option<usize>,
    pub snapshot_blob: Option<Seq<u8>>,
    pub array_buffer_allocator: Option<usize>,
    pub external_references: Option<Seq<ExternalReference>>,
    pub allow_atomics_wait: bool,
    pub embedder_wrapper_type_index: i32,
    pub embedder_wrapper_object_index: i32,
    pub heap_configuration: Seq<HeapConfiguration>,
    pub cpp_heap: Option<usize>,
}

/// Initial configuration parameters for a new Isolate.
#[derive(Debug)]
pub struct CreateParams {
    counter_lookup_callback: Option<usize>,
    snapshot_blob: Option<StartupData>,
    array_buffer_allocator: Option<usize>,
    external_references: Option<Vec<ExternalReference>>,
    allow_atomics_wait: bool,
    embedder_wrapper_type_index: i32,
    embedder_wrapper_object_index: i32,
    heap_configuration: Vec<HeapConfiguration>,
    cpp_heap: Option<usize>,
}

impl View for CreateParams {
    type V = CreateParamsModel;

    closed spec fn view(&self) -> CreateParamsModel {
        CreateParamsModel {
            counter_lookup_callback: self.counter_lookup_callback,
            snapshot_blob: match self.snapshot_blob {
                Some(d) => Some(d@),
                None => None,
            },
            array_buffer_allocator: self.array_buffer_allocator,
            external_references: match self.external_references {
                Some(v) => Some(v@),
                None => None,
            },
            allow_atomics_wait: self.allow_atomics_wait,
            embedder_wrapper_type_index: self.embedder_wrapper_type_index,
            embedder_wrapper_object_index: self.embedder_wrapper_object_index,
            heap_configuration: self.heap_configuration@,
            cpp_heap: self.cpp_heap,
        }
    }
}

/// The configuration of fresh parameters: nothing set, atomics wait allowed,
/// and both embedder wrapper indices -1 (unused).
pub open spec fn default_create_params() -> CreateParamsModel {
    CreateParamsModel {
        counter_lookup_callback: None,
        snapshot_blob: None,
        array_buffer_allocator: None,
        external_references: None,
        allow_atomics_wait: true,
        embedder_wrapper_type_index: -1i32,
        embedder_wrapper_object_index: -1i32,
        heap_configuration: Seq::empty(),
        cpp_heap: None,
    }
}

impl Default for CreateParams {
    fn default() -> (r: Self)
        ensures
            r@ == default_create_params(),
    {
        CreateParams {
            counter_lookup_callback: None,
            snapshot_blob: None,
            array_buffer_allocator: None,
            external_references: None,
            allow_atomics_wait: true,
            embedder_wrapper_type_index: -1,
            embedder_wrapper_object_index: -1,
            heap_configuration: Vec::new(),
            cpp_heap: None,
        }
    }
}

impl CreateParams {
    /// Enables the host application to provide a mechanism for recording
    /// statistics counters; `callback` is the address of the lookup function.
    pub fn counter_lookup_callback(self, callback: usize) -> (r: Self)
        ensures
            r@ == (CreateParamsModel { counter_lookup_callback: Some(callback), ..self@ }),
    {
        CreateParams { counter_lookup_callback: Some(callback), ..self }
    }

    /// Explicitly specify a startup snapshot blob.
    pub fn snapshot_blob(self, data: StartupData) -> (r: Self)
        ensures
            r@ == (CreateParamsModel { snapshot_blob: Some(data@), ..self@ }),
    {
        CreateParams { snapshot_blob: Some(data), ..self }
    }

    /// The ArrayBuffer allocator (by its address) to use for allocating and
    /// freeing the backing store of ArrayBuffers. The address 0 stands for no
    /// allocator.
    pub fn array_buffer_allocator(self, allocator: usize) -> (r: Self)
        ensures
            r@ == (CreateParamsModel {
                array_buffer_allocator: if allocator == 0 {
                    None
                } else {
                    Some(allocator)
                },
                ..self@
            }),
    {
        let allocator = if allocator == 0 {
            None
        } else {
            Some(allocator)
        };
        CreateParams { array_buffer_allocator: allocator, ..self }
    }

    /// Check if `array_buffer_allocator` has already been called with an
    /// allocator.
    pub fn has_set_array_buffer_allocator(&self) -> (r: bool)
        ensures
            r == self@.array_buffer_allocator is Some,
    {
        self.array_buffer_allocator.is_some()
    }

    /// Specifies the list of raw addresses in the embedder that V8 can match
    /// against during serialization and use for deserialization. The list is
    /// stored ending with the null reference: one is appended unless the list
    /// already ends with it.
    pub fn external_references(self, ext_refs: Vec<ExternalReference>) -> (r: Self)
        ensures
            r@ == (CreateParamsModel {
                external_references: Some(null_terminated(ext_refs@)),
                ..self@
            }),
            ({
                let stored = r@.external_references->0;
                &&& stored.len() > 0
                &&& stored[stored.len() - 1].pointer == 0
                &&& forall|i: int| 0 <= i < ext_refs@.len() ==> #[trigger] stored[i] == ext_refs@[i]
                &&& (ext_refs@.len() > 0 && ext_refs@[ext_refs@.len() - 1].pointer == 0)
                    ==> stored.len() == ext_refs@.len()
                &&& !(ext_refs@.len() > 0 && ext_refs@[ext_refs@.len() - 1].pointer == 0)
                    ==> stored.len() == ext_refs@.len() + 1
            }),
    {
        let mut ext_refs = ext_refs;
        let n = ext_refs.len();
        let terminated = n > 0 && ext_refs[n - 1].pointer == 0;
        if !terminated {
            ext_refs.push(ExternalReference { pointer: 0 });
        }
        CreateParams { external_references: Some(ext_refs), ..self }
    }

    /// Whether calling Atomics.wait (a function that may block) is allowed in
    /// this isolate.
    pub fn allow_atomics_wait(self, value: bool) -> (r: Self)
        ensures
            r@ == (CreateParamsModel { allow_atomics_wait: value, ..self@ }),
    {
        CreateParams { allow_atomics_wait: value, ..self }
    }

    /// The offsets for addressing type info for wrapped API objects, used by
    /// the fast C API.
    pub fn embedder_wrapper_type_info_offsets(
        self,
        embedder_wrapper_type_index: i32,
        embedder_wrapper_object_index: i32,
    ) -> (r: Self)
        ensures
            r@ == (CreateParamsModel {
                embedder_wrapper_type_index,
                embedder_wrapper_object_index,
                ..self@
            }),
    {
        CreateParams { embedder_wrapper_type_index, embedder_wrapper_object_index, ..self }
    }

    /// Configures the heap constraints with reasonable defaults based on the
    /// initial (or zero) and maximum heap size in bytes. The request is
    /// appended to those V8 applies, in order, when the isolate is built.
    pub fn heap_limits(self, initial: usize, max: usize) -> (r: Self)
        ensures
            r@ == (CreateParamsModel {
                heap_configuration: self@.heap_configuration.push(
                    HeapConfiguration::FromHeapSize { initial, max },
                ),
                ..self@
            }),
    {
        let mut this = self;
        this.heap_configuration.push(HeapConfiguration::FromHeapSize { initial, max });
        this
    }

    /// Configures the heap constraints with reasonable defaults based on the
    /// device's physical memory and virtual memory limit (zero if none), in
    /// bytes. The request is appended to those V8 applies, in order.
    pub fn heap_limits_from_system_memory(
        self,
        physical_memory: u64,
        virtual_memory_limit: u64,
    ) -> (r: Self)
        ensures
            r@ == (CreateParamsModel {
                heap_configuration: self@.heap_configuration.push(
                    HeapConfiguration::FromSystemMemory { physical_memory, virtual_memory_limit },
                ),
                ..self@
            }),
    {
        let mut this = self;
        this.heap_configuration.push(
            HeapConfiguration::FromSystemMemory { physical_memory, virtual_memory_limit },
        );
        this
    }

    /// A CppHeap (by its address) used to construct the isolate. V8 takes
    /// ownership of it.
    pub fn cpp_heap(self, heap: usize) -> (r: Self)
        ensures
            r@ == (CreateParamsModel { cpp_heap: Some(heap), ..self@ }),
    {
        CreateParams { cpp_heap: Some(heap), ..self }
    }

    /// The parameters as handed to V8: when no allocator was set, the default
    /// allocator `default_allocator` is filled in.
    pub fn finalize(self, default_allocator: usize) -> (r: Self)
        ensures
            r@ == (CreateParamsModel {
                array_buffer_allocator: match self@.array_buffer_allocator {
                    Some(a) => Some(a),
                    None => Some(default_allocator),
                },
                ..self@
            }),
    {
        if self.array_buffer_allocator.is_none() {
            CreateParams { array_buffer_allocator: Some(default_allocator), ..self }
        } else {
            self
        }
    }

    /// Whether Atomics.wait is allowed.
    pub fn get_allow_atomics_wait(&self) -> (r: bool)
        ensures
            r == self@.allow_atomics_wait,
    {
        self.allow_atomics_wait
    }

    /// The embedder wrapper type index.
    pub fn get_embedder_wrapper_type_index(&self) -> (r: i32)
        ensures
            r == self@.embedder_wrapper_type_index,
    {
        self.embedder_wrapper_type_index
    }

    /// The embedder wrapper object index.
    pub fn get_embedder_wrapper_object_index(&self) -> (r: i32)
        ensures
            r == self@.embedder_wrapper_object_index,
    {
        self.embedder_wrapper_object_index
    }

    /// The external references as handed to V8, if any were given.
    pub fn get_external_references(&self) -> (r: Option<&[ExternalReference]>)
        ensures
            match self@.external_references {
                Some(s) => r is Some && r->0@ == s,
                None => r is None,
            },
    {
        match &self.external_references {
            Some(v) => Some(v.as_slice()),
            None => None,
        }
    }

    /// The heap configuration requests, in the order V8 applies them.
    pub fn get_heap_configuration(&self) -> (r: &[HeapConfiguration])
        ensures
            r@ == self@.heap_configuration,
    {
        self.heap_configuration.as_slice()
    }
}

/// The list V8 is given always ends with the null reference, keeps every
/// reference given, in order, and adds exactly one null reference when the
/// given list does not end with one (an empty list becomes the lone null
/// reference); a list that does end with one is kept as it is.
pub proof fn lemma_null_terminated_appends_one_null(refs: Seq<ExternalReference>)
    ensures
        null_terminated(refs).len() > 0,
        null_terminated(refs)[null_terminated(refs).len() - 1].pointer == 0,
        forall|i: int| 0 <= i < refs.len() ==> #[trigger] null_terminated(refs)[i] == refs[i],
        refs.len() > 0 && refs[refs.len() - 1].pointer == 0 ==> null_terminated(refs) == refs,
        !(refs.len() > 0 && refs[refs.len() - 1].pointer == 0) ==> null_terminated(refs).len()
            == refs.len() + 1,
        refs.len() == 0 ==> null_terminated(refs) == seq![ExternalReference { pointer: 0 }],
{
    if refs.len() == 0 {
        assert(null_terminated(refs) =~= seq![ExternalReference { pointer: 0 }]);
    }
}

/// Appending the null reference is idempotent: a list that has been
/// terminated once is left as it is by a second termination.
pub proof fn lemma_null_terminated_idempotent(refs: Seq<ExternalReference>)
    ensures
        ends_with_null(null_terminated(refs)),
        null_terminated(null_terminated(refs)) == null_terminated(refs),
        null_terminated(refs).len() <= refs.len() + 1,
        forall|i: int| 0 <= i < refs.len() ==> #[trigger] null_terminated(refs)[i] == refs[i],
{
}

} // verus!
