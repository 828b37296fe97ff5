use v8::FinalizerCallback;
use v8::FinalizerMap;
use v8::Global;
use v8::DeferredResets;
use v8::Handle;
use v8::HandleHost;
use v8::HandleInfo;
use v8::IsolateAnnex;
use v8::Local;
use v8::SealedLocal;
use v8::Weak;
use v8::WeakData;
use v8::WeakRelease;

#[test]
fn hosts_match_rules() {
    let a = HandleHost::Isolate(0x10);
    let b = HandleHost::Isolate(0x20);
    let s = HandleHost::Scope;
    assert!(a.match_host(a, None));
    assert!(!a.match_host(b, None));
    assert!(s.match_host(s, None));
    assert!(s.match_host(a, None));
    assert!(a.match_host(s, Some(0x10)));
    assert!(!a.match_host(s, Some(0x20)));
    assert!(s.match_host(b, Some(0x20)));
    assert!(a.match_isolate(0x10));
    assert!(!a.match_isolate(0x20));
    assert!(s.match_isolate(0x20));
    assert!(a.are_different_live_isolates(b));
    assert!(!a.are_different_live_isolates(a));
    assert!(!s.are_different_live_isolates(b));
    assert!(!HandleHost::DisposedIsolate.are_different_live_isolates(b));
    assert_eq!(b.get_isolate(), 0x20);
}

#[test]
fn finalizer_map_ids_and_drain_order() {
    let mut m: FinalizerMap<u32, u32> = FinalizerMap::new();
    assert!(m.is_empty());
    let a = m.add(FinalizerCallback::Regular(1));
    let b = m.add(FinalizerCallback::Guaranteed(2));
    let c = m.add(FinalizerCallback::Regular(3));
    assert_eq!((a, b, c), (0, 1, 2));
    assert!(!m.is_empty());
    assert!(m.contains(b));
    match m.remove(b) {
        Some(FinalizerCallback::Guaranteed(2)) => {}
        _ => panic!("wrong finalizer"),
    }
    assert!(!m.contains(b));
    assert!(m.remove(b).is_none());
    let d = m.add(FinalizerCallback::Guaranteed(4));
    assert_eq!(d, 3);
    let drained: Vec<u32> = m
        .drain()
        .into_iter()
        .map(|f| match f {
            FinalizerCallback::Regular(x) => x,
            FinalizerCallback::Guaranteed(x) => 100 + x,
        })
        .collect();
    assert_eq!(drained, vec![1, 3, 104]);
    assert!(m.is_empty());
}

#[test]
fn dispose_runs_only_guaranteed_finalizers() {
    let mut annex: IsolateAnnex<&str, &str> = IsolateAnnex::new(0x100, false);
    annex.add_finalizer(FinalizerCallback::Guaranteed("g1"));
    annex.add_finalizer(FinalizerCallback::Regular("r1"));
    annex.add_finalizer(FinalizerCallback::Guaranteed("g2"));
    assert_eq!(annex.thread_safe_handle().isolate, 0x100);
    let run = annex.dispose();
    assert_eq!(run, vec!["g1", "g2"]);
    assert_eq!(annex.thread_safe_handle().isolate, 0);
    assert!(!annex.has_finalizer(0));
}

#[test]
fn weak_life_cycle_without_finalizer() {
    let mut annex: IsolateAnnex<u8, u8> = IsolateAnnex::new(0x100, false);
    let info = HandleInfo::new(0x500, HandleHost::Scope);
    let weak: Weak<u64> = Weak::new(&mut annex, info, 0x900);
    assert!(!weak.is_empty());
    assert_eq!(weak.get_pointer(), Some(0x900));

    let mut data = weak.into_raw(&mut annex).unwrap();
    let (cell, second_pass) = data.first_pass_callback();
    assert_eq!(cell, 0x900);
    assert!(!second_pass);
    let collected: Weak<u64> = Weak::from_raw(&annex, Some(data));
    assert!(collected.is_empty());
    let release = collected.release(&mut annex);
    assert_eq!(release, WeakRelease { reset: None, leaked: None });
}

#[test]
fn weak_finalizer_is_removed_on_release() {
    let mut annex: IsolateAnnex<u8, u8> = IsolateAnnex::new(0x100, false);
    let info = HandleInfo::new(0x500, HandleHost::Isolate(0x100));
    let weak: Weak<u64> = Weak::with_finalizer(&mut annex, info, 7, 0x900);
    assert_eq!(weak.get_pointer(), Some(0x900));
    assert!(annex.has_finalizer(0));
    let release = weak.release(&mut annex);
    assert_eq!(release, WeakRelease { reset: Some(0x900), leaked: None });
    assert!(!annex.has_finalizer(0));
}

#[test]
fn weak_collected_then_dropped_before_second_pass() {
    let mut annex: IsolateAnnex<u8, u8> = IsolateAnnex::new(0x100, false);
    let info = HandleInfo::new(0x500, HandleHost::Scope);
    let weak: Weak<u64> = Weak::with_guaranteed_finalizer(&mut annex, info, 9, 0x900);
    let mut data = weak.into_raw(&mut annex).unwrap();
    let (_, second_pass) = data.first_pass_callback();
    assert!(second_pass);
    let collected: Weak<u64> = Weak::from_raw(&annex, Some(data));
    let release = collected.release(&mut annex);
    let leaked = release.leaked.unwrap();
    assert!(leaked.weak_dropped);
    assert_eq!(release.reset, None);
    // The second pass finds no finalizer any more, and frees the state.
    let (finalizer, free) = leaked.second_pass_callback(&mut annex);
    assert!(finalizer.is_none());
    assert!(free);
}

#[test]
fn weak_second_pass_runs_finalizer() {
    let mut annex: IsolateAnnex<u8, u8> = IsolateAnnex::new(0x100, false);
    let info = HandleInfo::new(0x500, HandleHost::Scope);
    let weak: Weak<u64> = Weak::with_finalizer(&mut annex, info, 5, 0x900);
    let mut data = weak.into_raw(&mut annex).unwrap();
    data.first_pass_callback();
    match data.second_pass_callback(&mut annex) {
        (Some(FinalizerCallback::Regular(5)), false) => {}
        _ => panic!("finalizer expected"),
    }
    assert!(!annex.has_finalizer(0));
}

#[test]
fn weak_empty_and_clone() {
    let mut annex: IsolateAnnex<u8, u8> = IsolateAnnex::new(0x100, false);
    let empty: Weak<u64> = Weak::empty(&annex);
    assert!(empty.is_empty());
    let clone = empty.clone_with_finalizer(&mut annex, 1, 0x901);
    assert!(clone.is_empty());
    assert!(!annex.has_finalizer(0));

    let info = HandleInfo::new(0x500, HandleHost::Scope);
    let weak: Weak<u64> = Weak::new(&mut annex, info, 0x900);
    let clone = weak.clone_with_guaranteed_finalizer(&mut annex, 2, 0x901);
    assert_eq!(clone.get_pointer(), Some(0x901));
    assert!(annex.has_finalizer(0));
    let plain = weak.clone(&mut annex, 0x902);
    assert_eq!(
        plain.into_raw(&mut annex),
        Some(WeakData { pointer: Some(0x902), finalizer_id: None, weak_dropped: false })
    );
}

#[test]
fn weak_into_raw() {
    let mut annex: IsolateAnnex<u8, u8> = IsolateAnnex::new(0x100, false);
    let info = HandleInfo::new(0x500, HandleHost::Scope);
    let weak: Weak<u64> = Weak::new(&mut annex, info, 0x900);
    let raw = weak.into_raw(&mut annex);
    assert_eq!(
        raw,
        Some(WeakData { pointer: Some(0x900), finalizer_id: None, weak_dropped: false })
    );
    let mut data = raw.unwrap();
    data.first_pass_callback();
    let back: Weak<u64> = Weak::from_raw(&annex, Some(data));
    assert_eq!(back.into_raw(&mut annex), None);
}

#[test]
fn weak_of_disposed_isolate_is_empty() {
    let mut annex: IsolateAnnex<u8, u8> = IsolateAnnex::new(0x100, false);
    let info = HandleInfo::new(0x500, HandleHost::Scope);
    let weak: Weak<u64> = Weak::new(&mut annex, info, 0x900);
    let data = weak.into_raw(&mut annex);
    annex.dispose();
    let stale: Weak<u64> = Weak::from_raw(&annex, data);
    assert!(stale.is_empty());
    assert_eq!(stale.release(&mut annex), WeakRelease { reset: None, leaked: None });
}

#[test]
fn global_handles() {
    let info = HandleInfo::new(0x500, HandleHost::Scope);
    let g: Global<u64> = Global::new(0x100, false, info, 0x700);
    assert_eq!(g.get_handle_info(), HandleInfo::new(0x700, HandleHost::Isolate(0x100)));
    let mut deferred = DeferredResets::new();
    // Home thread of an unshared isolate: reset now, nothing queued.
    assert_eq!(g.release(true, false, &mut deferred), vec![0x700]);
    assert!(deferred.is_empty());

    // Another thread of an unshared isolate: queued.
    let g: Global<u64> = Global::from_raw(0x100, false, 0x701);
    assert!(g.release(false, false, &mut deferred).is_empty());
    // Shared isolate without its lock: queued.
    let g: Global<u64> = Global::from_raw(0x100, true, 0x702);
    assert!(g.release(true, false, &mut deferred).is_empty());
    // Shared isolate under its lock: reset now, the queue is left alone.
    let g: Global<u64> = Global::from_raw(0x100, true, 0x703);
    assert_eq!(g.release(false, true, &mut deferred), vec![0x703]);
    // Home thread again: its own cell, then everything queued, oldest first.
    let g: Global<u64> = Global::from_raw(0x100, false, 0x704);
    assert_eq!(g.release(true, false, &mut deferred), vec![0x704, 0x701, 0x702]);
    assert!(deferred.is_empty());

    let g: Global<u64> = Global::from_raw(0, false, 0x700);
    assert_eq!(g.get_handle_host(), HandleHost::DisposedIsolate);
    assert!(g.release(true, false, &mut deferred).is_empty());
    assert!(deferred.is_empty());
    let g: Global<u64> = Global::from_raw(0x100, false, 0x700);
    assert_eq!(g.into_raw(), 0x700);
}

#[test]
fn local_handles() {
    let mut l: Local<u64> = Local::empty();
    assert!(l.is_empty());
    let mut l2: Local<u64> = Local::from_raw(0x40).unwrap();
    assert!(!l2.is_empty());
    assert_eq!(l2.slot(), 0x40);
    assert_eq!(l2.get_handle_info(), HandleInfo::new(0x40, HandleHost::Scope));
    l2.clear();
    assert!(l2.is_empty());
    l.clear();
    assert!(l.is_empty());
    let sealed: SealedLocal<u64> = SealedLocal::new(0x44);
    let l3: Local<u64> = sealed.unseal();
    assert_eq!(l3.slot(), 0x44);
}

#[test]
fn weak_upgrades_to_global_while_alive() {
    let mut annex: IsolateAnnex<u8, u8> = IsolateAnnex::new(0x100, false);
    let info = HandleInfo::new(0x500, HandleHost::Scope);
    let weak: Weak<u64> = Weak::new(&mut annex, info, 0x900);
    let strong = weak.to_global(0x100, false, 0x910).unwrap();
    assert_eq!(strong.get_handle_info(), HandleInfo::new(0x910, HandleHost::Isolate(0x100)));

    let empty: Weak<u64> = Weak::empty(&annex);
    assert!(empty.to_global(0x100, false, 0x910).is_none());
}

#[test]
fn empty_weak_clones_on_shared_isolate() {
    let mut annex: IsolateAnnex<u8, u8> = IsolateAnnex::new(0x100, true);
    let empty: Weak<u64> = Weak::empty(&annex);
    let clone = empty.clone(&mut annex, 0x901);
    assert!(clone.is_empty());
    let clone = empty.clone_with_finalizer(&mut annex, 3, 0x902);
    assert!(clone.is_empty());
    assert!(!annex.has_finalizer(0));
    assert!(empty.to_global(0x100, true, 0x903).is_none());
    assert_eq!(empty.into_raw(&mut annex), None);
}

#[test]
fn global_raw_round_trip() {
    let info = HandleInfo::new(0x500, HandleHost::Scope);
    let g: Global<u64> = Global::new(0x100, false, info, 0x700);
    let raw = g.into_raw();
    assert_eq!(raw, 0x700);
    let back: Global<u64> = Global::from_raw(0x100, false, raw);
    assert_eq!(back.get_handle_info(), HandleInfo::new(0x700, HandleHost::Isolate(0x100)));
    assert_eq!(back.into_raw(), 0x700);
}

#[test]
fn weak_counting_getters() {
    let mut annex: IsolateAnnex<u8, u8> = IsolateAnnex::new(0x100, false);
    assert_eq!(annex.live_weak_count(), 0);
    let info = HandleInfo::new(0x500, HandleHost::Scope);
    let weak: Weak<u64> = Weak::new(&mut annex, info, 0x900);
    assert_eq!(annex.live_weak_count(), 1);
    assert!(weak.is_counted());
    assert_eq!(weak.isolate_handle().isolate, 0x100);
    let empty: Weak<u64> = Weak::empty(&annex);
    assert!(!empty.is_counted());
    weak.release(&mut annex);
    assert_eq!(annex.live_weak_count(), 0);
}
