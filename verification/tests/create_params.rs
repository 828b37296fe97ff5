use v8::CreateParams;

#[test]
fn create_param_defaults() {
    let params = CreateParams::default();
    assert_eq!(params.get_embedder_wrapper_type_index(), -1);
    assert_eq!(params.get_embedder_wrapper_object_index(), -1);
    assert!(params.get_allow_atomics_wait());
}

use v8::ExternalReference;
use v8::HeapConfiguration;
use v8::StartupData;
use v8::isolate::Isolate;

#[test]
fn create_params_builders_set_their_field() {
    let params = CreateParams::default()
        .allow_atomics_wait(false)
        .embedder_wrapper_type_info_offsets(3, 4);
    assert!(!params.get_allow_atomics_wait());
    assert_eq!(params.get_embedder_wrapper_type_index(), 3);
    assert_eq!(params.get_embedder_wrapper_object_index(), 4);
}

#[test]
fn create_params_from_isolate() {
    let params = Isolate::create_params();
    assert!(params.get_allow_atomics_wait());
    assert!(!params.has_set_array_buffer_allocator());
    assert!(params.get_external_references().is_none());
    assert!(params.get_heap_configuration().is_empty());
}

#[test]
fn external_references_are_null_terminated() {
    let refs = vec![ExternalReference { pointer: 10 }, ExternalReference { pointer: 20 }];
    let params = CreateParams::default().external_references(refs);
    assert_eq!(
        params.get_external_references().unwrap(),
        &[
            ExternalReference { pointer: 10 },
            ExternalReference { pointer: 20 },
            ExternalReference { pointer: 0 },
        ][..]
    );

    let refs = vec![ExternalReference { pointer: 10 }, ExternalReference { pointer: 0 }];
    let params = CreateParams::default().external_references(refs);
    assert_eq!(
        params.get_external_references().unwrap(),
        &[ExternalReference { pointer: 10 }, ExternalReference { pointer: 0 }][..]
    );

    let params = CreateParams::default().external_references(Vec::new());
    assert_eq!(
        params.get_external_references().unwrap(),
        &[ExternalReference { pointer: 0 }][..]
    );
}

#[test]
fn heap_limits_are_kept_in_order() {
    let params = CreateParams::default()
        .heap_limits(0, 1 << 20)
        .heap_limits_from_system_memory(1 << 30, 0);
    assert_eq!(
        params.get_heap_configuration(),
        &[
            HeapConfiguration::FromHeapSize { initial: 0, max: 1 << 20 },
            HeapConfiguration::FromSystemMemory {
                physical_memory: 1 << 30,
                virtual_memory_limit: 0
            },
        ][..]
    );
}

#[test]
fn allocator_and_finalize() {
    let params = CreateParams::default();
    assert!(!params.has_set_array_buffer_allocator());
    let params = params.array_buffer_allocator(0);
    assert!(!params.has_set_array_buffer_allocator());
    let params = params.finalize(77);
    assert!(params.has_set_array_buffer_allocator());

    let params = CreateParams::default().array_buffer_allocator(5).finalize(77);
    assert!(params.has_set_array_buffer_allocator());
}

#[test]
fn snapshot_blob_and_other_settings() {
    let blob = StartupData::from(vec![1u8, 2, 3]);
    assert_eq!(blob.len(), 3);
    assert_eq!(blob.as_slice(), &[1u8, 2, 3][..]);
    let params = CreateParams::default()
        .snapshot_blob(blob.clone())
        .counter_lookup_callback(0x1000)
        .cpp_heap(0x2000);
    assert!(params.get_allow_atomics_wait());
    assert_eq!(blob.as_slice(), &[1u8, 2, 3][..]);
}
