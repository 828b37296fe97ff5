use v8::simdutf::ErrorCode;
use v8::simdutf::FfiResult;
use v8::simdutf::SimdUtfResult;
use v8::script_compiler::BufferPolicy;
use v8::CachedData;
use v8::Location;
use v8::OnFailure;
use v8::ScopeStorage;
use v8::ScriptOrigin;

#[test]
fn error_codes_from_raw() {
    let expected = [
        ErrorCode::Success,
        ErrorCode::HeaderBits,
        ErrorCode::TooShort,
        ErrorCode::TooLong,
        ErrorCode::Overlong,
        ErrorCode::TooLarge,
        ErrorCode::Surrogate,
        ErrorCode::InvalidBase64Character,
        ErrorCode::Base64InputRemainder,
        ErrorCode::Base64ExtraBits,
        ErrorCode::OutputBufferTooSmall,
    ];
    for (i, e) in expected.iter().enumerate() {
        assert_eq!(ErrorCode::from_i32(i as i32), *e);
    }
    assert_eq!(ErrorCode::from_i32(11), ErrorCode::Other);
    assert_eq!(ErrorCode::from_i32(-1), ErrorCode::Other);
    assert_eq!(ErrorCode::from_i32(1000), ErrorCode::Other);
}

#[test]
fn simdutf_results() {
    let ok = SimdUtfResult::from_ffi(FfiResult { error: 0, count: 12 });
    assert!(ok.is_ok());
    assert_eq!(ok.count, 12);
    let bad = SimdUtfResult::from_ffi(FfiResult { error: 6, count: 3 });
    assert!(!bad.is_ok());
    assert_eq!(bad, SimdUtfResult { error: ErrorCode::Surrogate, count: 3 });
}

#[test]
fn scope_storage_init_and_release() {
    let mut storage = ScopeStorage::new(OnFailure::ThrowOnFailure);
    assert!(!storage.init());
    assert!(storage.init());
    assert!(storage.release());
    let fresh = ScopeStorage::new(OnFailure::CrashOnFailure);
    assert!(!fresh.release());
}

#[test]
fn script_origin_getters() {
    let o = ScriptOrigin::new(0x10, 1, 2, false, 42, Some(0x20), false, false, true, None);
    assert_eq!(o.script_id(), 42);
    assert_eq!(o.resource_name(), 0x10);
    assert_eq!(o.source_map_url(), Some(0x20));
    assert!(o.is_module);
}

#[test]
fn cached_data_borrows() {
    let bytes = [1u8, 2, 3, 4];
    let c = CachedData::new(&bytes[..]);
    assert_eq!(c.as_slice(), &bytes[..]);
    assert_eq!(c.buffer_policy(), BufferPolicy::BufferNotOwned);
    assert!(!c.rejected());
}

#[test]
fn locations() {
    let l = Location::new(3, 14);
    assert_eq!(l.get_line_number(), 3);
    assert_eq!(l.get_column_number(), 14);
}

#[test]
fn escape_slot_takes_one_value() {
    let mut slot = v8::EscapeSlot::new(0x80);
    assert!(slot.can_escape());
    let value: v8::Local<u64> = v8::Local::from_raw(0x40).unwrap();
    let (escaped, source): (v8::Local<u64>, usize) = slot.escape(&value);
    assert_eq!(escaped.slot(), 0x80);
    assert_eq!(source, 0x40);
    assert!(!slot.can_escape());
}
