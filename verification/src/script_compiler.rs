//! Options and cached data of script compilation.

use vstd::prelude::*;

verus! {

/// Options for compiling a script.
#[derive(Copy, Clone, Debug, PartialEq, Eq, Structural)]
pub enum CompileOptions {
    NoCompileOptions,
    ConsumeCodeCache,
    EagerCompile,
}

/// The reason for which we are not requesting or providing a code cache.
#[derive(Copy, Clone, Debug, PartialEq, Eq, Structural)]
pub enum NoCacheReason {
    NoReason,
    BecauseCachingDisabled,
    BecauseNoResource,
    BecauseInlineScript,
    BecauseModule,
    BecauseStreamingSource,
    BecauseInspector,
    BecauseScriptTooSmall,
    BecauseCacheTooCold,
    BecauseV8Extension,
    BecauseExtensionModule,
    BecausePacScript,
    BecauseInDocumentWrite,
    BecauseResourceWithNoCacheHandler,
    BecauseDeferredProduceCodeCache,
}

/// Whether cached data owns its buffer.
#[derive(Copy, Clone, Debug, PartialEq, Eq, Structural)]
pub enum BufferPolicy {
    BufferNotOwned,
    BufferOwned,
}

/// Compilation data that the embedder can cache and pass back to speed up
/// future compilations.
#[derive(Debug)]
pub struct CachedData<'a> {
    data: &'a [u8],
    rejected: bool,
    buffer_policy: BufferPolicy,
}

impl<'a> View for CachedData<'a> {
    type V = Seq<u8>;

    /// The cached bytes.
    closed spec fn view(&self) -> Seq<u8> {
        self.data@
    }
}

impl<'a> CachedData<'a> {
    /// Whether V8 rejected the data.
    pub closed spec fn is_rejected(&self) -> bool {
        self.rejected
    }

    /// Whether the data owns its buffer.
    pub closed spec fn policy(&self) -> BufferPolicy {
        self.buffer_policy
    }

    /// Cached data over a borrowed buffer: it does not own the buffer and
    /// has not been rejected.
    pub fn new(data: &'a [u8]) -> (r: Self)
        ensures
            r@ == data@,
            !r.is_rejected(),
            r.policy() == BufferPolicy::BufferNotOwned,
    {
        CachedData { data, rejected: false, buffer_policy: BufferPolicy::BufferNotOwned }
    }

    /// Whether the data owns its buffer.
    pub fn buffer_policy(&self) -> (r: BufferPolicy)
        ensures
            r == self.policy(),
    {
        self.buffer_policy
    }

    /// Whether V8 rejected the data.
    pub fn rejected(&self) -> (r: bool)
        ensures
            r == self.is_rejected(),
    {
        self.rejected
    }

    /// The cached bytes.
    pub fn as_slice(&self) -> (r: &'a [u8])
        ensures
            r@ == self@,
    {
        self.data
    }
}

} // verus!
