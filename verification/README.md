# v8

The Rust-side bookkeeping of a binding to the V8 JavaScript engine, written in
Verus and verified against its contracts.

- `src/` holds the verified library: property flag sets and their union laws,
  isolate creation parameters, handle hosts and the rules that match them,
  weak and global handle life cycles with the isolate's finalizer registry,
  the isolate annex and its disposal, isolate requests from other threads,
  per-type embedder slots, heap statistics, inspector string views, and the
  plain value types of scripts, modules, promises and simdutf results.
- `tests/` exercises the library on concrete values.
- `app/` is the unverified glue for a few of the library's decisions:
  isolate requests from other threads (made under the same lock as the
  isolate's disposal), heap statistics, locking a shared isolate, and
  letting go of weak and global handles, with the queue of global resets
  deferred by threads that may not touch the isolate. The rest of the engine
  binding is not part of this crate.
