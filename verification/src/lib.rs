//! Verified core of the V8 embedding API: the property flag sets, the
//! inspector string views, handle and finalizer bookkeeping, and isolate
//! configuration.

mod bit_set;
pub mod handle;
pub mod inspector;
pub mod isolate;
pub mod isolate_create_params;
pub mod local;
pub mod module;
pub mod object;
pub mod promise;
pub mod property_attribute;
pub mod property_filter;
pub mod property_handler_flags;
pub mod scope;
pub mod script;
pub mod script_compiler;
pub mod simdutf;
pub mod snapshot;

pub use handle::FinalizerCallback;
pub use handle::FinalizerMap;
pub use handle::Global;
pub use handle::DeferredResets;
pub use handle::Handle;
pub use handle::HandleHost;
pub use handle::HandleInfo;
pub use handle::Weak;
pub use handle::WeakData;
pub use handle::WeakRelease;
pub use isolate::GarbageCollectionType;
pub use isolate::HeapSpaceStatistics;
pub use isolate::HeapStatistics;
pub use isolate::Isolate;
pub use isolate::IsolateCall;
pub use isolate::IsolateRequest;
pub use isolate::IsolateSlots;
pub use isolate::Locker;
pub use isolate::OomDetails;
pub use isolate::OwnedIsolate;
pub use isolate::RawHeapSpaceStatistics;
pub use isolate::RawHeapStatistics;
pub use isolate::SharedIsolate;
pub use isolate::UnenteredIsolate;
pub use isolate::IsolateAnnex;
pub use isolate::IsolateHandle;
pub use isolate::MemoryPressureLevel;
pub use isolate::MicrotasksPolicy;
pub use isolate::PromiseHookType;
pub use isolate::TimeZoneDetection;
pub use isolate::UnsafeRawIsolatePtr;
pub use isolate::WasmAsyncSuccess;
pub use isolate_create_params::CreateParams;
pub use isolate_create_params::ExternalReference;
pub use isolate_create_params::HeapConfiguration;
pub use local::Local;
pub use local::SealedLocal;
pub use module::Location;
pub use module::ModuleStatus;
pub use object::IntegrityLevel;
pub use promise::PromiseRejectEvent;
pub use promise::PromiseState;
pub use property_attribute::PropertyAttribute;
pub use property_filter::PropertyFilter;
pub use property_handler_flags::PropertyHandlerFlags;
pub use scope::OnFailure;
pub use scope::EscapeSlot;
pub use scope::ScopeStorage;
pub use script::ScriptOrigin;
pub use script_compiler::CachedData;
pub use snapshot::FunctionCodeHandling;
pub use snapshot::StartupData;
