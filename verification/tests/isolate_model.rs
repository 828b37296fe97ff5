use v8::isolate::Isolate;
use v8::HeapSpaceStatistics;
use v8::HeapStatistics;
use v8::IsolateCall;
use v8::IsolateHandle;
use v8::IsolateRequest;
use v8::Locker;
use v8::OwnedIsolate;
use v8::RawHeapSpaceStatistics;
use v8::RawHeapStatistics;
use v8::SharedIsolate;
use v8::UnenteredIsolate;
use v8::UnsafeRawIsolatePtr;
use v8::HandleHost;

#[test]
fn raw_isolate_pointers() {
    assert!(UnsafeRawIsolatePtr::null().is_null());
    assert!(!UnsafeRawIsolatePtr(8).is_null());
    let iso = Isolate::from_raw_isolate_ptr(UnsafeRawIsolatePtr(0x80));
    assert_eq!(iso.as_raw_isolate_ptr(), UnsafeRawIsolatePtr(0x80));
    assert_eq!(iso.host(), HandleHost::Isolate(0x80));
}

#[test]
fn isolate_requests() {
    let iso = Isolate::from_raw_isolate_ptr(UnsafeRawIsolatePtr(0x80));
    let call = |request| Some(IsolateCall { isolate: UnsafeRawIsolatePtr(0x80), request });
    assert_eq!(iso.terminate_execution(), call(IsolateRequest::TerminateExecution));
    assert_eq!(
        iso.cancel_terminate_execution(),
        call(IsolateRequest::CancelTerminateExecution)
    );
    assert_eq!(iso.is_execution_terminating(), call(IsolateRequest::IsExecutionTerminating));
    let handle = iso.thread_safe_handle();
    assert_eq!(handle.get_isolate_ptr(), UnsafeRawIsolatePtr(0x80));
    assert_eq!(handle.host(), HandleHost::Isolate(0x80));
    assert_eq!(
        handle.request_interrupt(0x5, 0x6),
        call(IsolateRequest::RequestInterrupt { callback: 0x5, data: 0x6 })
    );

    let gone = IsolateHandle { isolate: 0 };
    assert_eq!(gone.terminate_execution(), None);
    assert_eq!(gone.cancel_terminate_execution(), None);
    assert_eq!(gone.is_execution_terminating(), None);
    assert_eq!(gone.request_interrupt(1, 2), None);
    assert_eq!(gone.host(), HandleHost::DisposedIsolate);
    assert!(gone.get_isolate_ptr().is_null());
}

#[test]
fn owned_unentered_shared() {
    let owned = OwnedIsolate::new_already_entered(0x90);
    assert_eq!(owned.as_isolate().as_raw_isolate_ptr(), UnsafeRawIsolatePtr(0x90));
    let unentered = UnenteredIsolate::new(0x91);
    assert_eq!(unentered.as_raw(), UnsafeRawIsolatePtr(0x91));
    let locker = Locker::new(&unentered);
    assert_eq!(locker.as_isolate().as_raw_isolate_ptr(), UnsafeRawIsolatePtr(0x91));

    let shared = SharedIsolate::new(0x92, IsolateHandle { isolate: 0x92 });
    assert_eq!(shared.as_real_ptr(), UnsafeRawIsolatePtr(0x92));
    assert_eq!(shared.thread_safe_handle(), IsolateHandle { isolate: 0x92 });
    let mut deferred = v8::DeferredResets::new();
    let (locker, due) = shared.lock(false, UnsafeRawIsolatePtr::null(), &mut deferred);
    assert_eq!(locker.as_isolate().as_raw_isolate_ptr(), UnsafeRawIsolatePtr(0x92));
    assert!(due.is_empty());

    let g: v8::Global<u64> = v8::Global::from_raw(0x92, true, 0x700);
    assert!(g.release(false, false, &mut deferred).is_empty());
    let (_, due) = shared.lock(false, UnsafeRawIsolatePtr::null(), &mut deferred);
    assert_eq!(due, vec![0x700]);
    assert!(deferred.is_empty());
}

#[test]
fn heap_statistics_getters() {
    let raw = RawHeapStatistics {
        total_heap_size: 1,
        total_heap_size_executable: 2,
        total_physical_size: 3,
        total_available_size: 4,
        total_global_handles_size: 5,
        used_global_handles_size: 6,
        used_heap_size: 7,
        heap_size_limit: 8,
        malloced_memory: 9,
        external_memory: 10,
        peak_malloced_memory: 11,
        number_of_native_contexts: 12,
        number_of_detached_contexts: 13,
        does_zap_garbage: true,
    };
    let s = HeapStatistics::from_raw(raw);
    assert_eq!(s.total_heap_size(), 1);
    assert_eq!(s.total_heap_size_executable(), 2);
    assert_eq!(s.total_physical_size(), 3);
    assert_eq!(s.total_available_size(), 4);
    assert_eq!(s.total_global_handles_size(), 5);
    assert_eq!(s.used_global_handles_size(), 6);
    assert_eq!(s.used_heap_size(), 7);
    assert_eq!(s.heap_size_limit(), 8);
    assert_eq!(s.malloced_memory(), 9);
    assert_eq!(s.external_memory(), 10);
    assert_eq!(s.peak_malloced_memory(), 11);
    assert_eq!(s.number_of_native_contexts(), 12);
    assert_eq!(s.number_of_detached_contexts(), 13);
    assert!(s.does_zap_garbage());

    let space = HeapSpaceStatistics::from_raw(
        b"old_space".to_vec(),
        RawHeapSpaceStatistics {
            space_size: 100,
            space_used_size: 40,
            space_available_size: 60,
            physical_space_size: 90,
        },
    );
    assert_eq!(space.space_name(), b"old_space");
    assert_eq!(space.space_size(), 100);
    assert_eq!(space.space_used_size(), 40);
    assert_eq!(space.space_available_size(), 60);
    assert_eq!(space.physical_space_size(), 90);
}

#[test]
fn isolate_slots_hold_one_value_per_type() {
    let mut slots: v8::IsolateSlots<u32> = v8::IsolateSlots::new();
    assert!(slots.get_slot(7).is_none());
    assert!(slots.set_slot(7, 1));
    assert!(!slots.set_slot(7, 2));
    assert_eq!(slots.get_slot(7), Some(&2));
    assert!(slots.set_slot(8, 3));
    assert_eq!(slots.remove_slot(7), Some(2));
    assert_eq!(slots.remove_slot(7), None);
    assert_eq!(slots.get_slot(8), Some(&3));
}

#[test]
fn isolate_slots_cleared() {
    let mut slots: v8::IsolateSlots<u32> = v8::IsolateSlots::new();
    slots.set_slot(1, 10);
    slots.set_slot(2, 20);
    slots.clear();
    assert!(slots.get_slot(1).is_none());
    assert!(slots.get_slot(2).is_none());
    assert!(slots.set_slot(1, 11));
}

#[test]
fn locker_unlock_and_relock_drain_the_queue() {
    let shared = SharedIsolate::new(0x92, IsolateHandle { isolate: 0x92 });
    let mut deferred = v8::DeferredResets::new();
    let (locker, _) = shared.lock(false, UnsafeRawIsolatePtr::null(), &mut deferred);
    let g: v8::Global<u64> = v8::Global::from_raw(0x92, true, 0x700);
    assert!(g.release(false, false, &mut deferred).is_empty());
    assert_eq!(locker.unlock(UnsafeRawIsolatePtr(0x92), &mut deferred), vec![0x700]);
    let g: v8::Global<u64> = v8::Global::from_raw(0x92, true, 0x701);
    assert!(g.release(false, false, &mut deferred).is_empty());
    assert_eq!(locker.relock(UnsafeRawIsolatePtr::null(), &mut deferred), vec![0x701]);
    assert!(deferred.is_empty());
}
