//! Snapshot blobs and how a snapshot treats compiled function code.

use vstd::prelude::*;

verus! {

/// A snapshot blob: the bytes V8 starts an isolate from.
#[derive(Clone, Debug)]
pub struct StartupData {
    data: Vec<u8>,
}

impl View for StartupData {
    type V = Seq<u8>;

    /// The bytes of the blob.
    closed spec fn view(&self) -> Seq<u8> {
        self.data@
    }
}

impl StartupData {
    /// The blob holding `bytes`.
    pub closed spec fn spec_from_bytes(bytes: Vec<u8>) -> Self {
        StartupData { data: bytes }
    }

    /// A blob built from bytes holds exactly those bytes.
    pub broadcast proof fn lemma_from_bytes_view(bytes: Vec<u8>)
        ensures
            #[trigger] Self::spec_from_bytes(bytes)@ == bytes@,
    {
    }

    /// The bytes of the blob.
    pub fn as_slice(&self) -> (r: &[u8])
        ensures
            r@ == self@,
    {
        self.data.as_slice()
    }

    /// The number of bytes in the blob.
    pub fn len(&self) -> (r: usize)
        ensures
            r == self@.len(),
    {
        self.data.len()
    }
}

impl From<Vec<u8>> for StartupData {
    fn from(value: Vec<u8>) -> (r: Self) {
        StartupData { data: value }
    }
}

impl vstd::std_specs::convert::FromSpecImpl<Vec<u8>> for StartupData {
    open spec fn obeys_from_spec() -> bool {
        true
    }

    open spec fn from_spec(v: Vec<u8>) -> Self {
        StartupData::spec_from_bytes(v)
    }
}

/// Whether a snapshot keeps or clears the compiled code of functions.
#[derive(Copy, Clone, Debug, PartialEq, Eq, Structural)]
pub enum FunctionCodeHandling {
    Clear,
    Keep,
}

} // verus!
