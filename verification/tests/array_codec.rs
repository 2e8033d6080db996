use asc_marshal::array::v0_0_4;
use asc_marshal::array::Array;
use asc_marshal::base::asc_get;
use asc_marshal::base::AscHeap;
use asc_marshal::base::AscPtr;
use asc_marshal::base::AscType;
use asc_marshal::base::MAX_RECURSION_DEPTH;
use asc_marshal::errors::AscError;
use asc_marshal::heap::MemHeap;
use asc_marshal::string::AscString;
use asc_marshal::version::ApiVersion;

#[test]
fn legacy_version_selects_legacy_variant() {
    let mut heap = MemHeap::empty(ApiVersion::new(0, 0, 3));
    let a = Array::<u8>::new(&[1, 2, 3], &mut heap).unwrap();
    assert!(matches!(a, Array::ApiVersion0_0_4(_)));
}

#[test]
fn boundary_version_selects_legacy_variant() {
    let mut heap = MemHeap::empty(ApiVersion::new(0, 0, 4));
    let a = Array::<u8>::new(&[], &mut heap).unwrap();
    assert!(matches!(a, Array::ApiVersion0_0_4(_)));
}

#[test]
fn next_version_selects_current_variant() {
    let mut heap = MemHeap::empty(ApiVersion::new(0, 0, 5));
    let a = Array::<u8>::new(&[9], &mut heap).unwrap();
    assert!(matches!(a, Array::ApiVersion0_0_5(_)));
}

#[test]
fn major_version_selects_current_variant() {
    let mut heap = MemHeap::empty(ApiVersion::new(1, 0, 0));
    let a = Array::<u8>::new(&[9], &mut heap).unwrap();
    assert!(matches!(a, Array::ApiVersion0_0_5(_)));
}

#[test]
fn decode_reproduces_variant_choice_without_a_heap() {
    // Same boundary as construction, applied to the explicit parameter.
    let legacy = Array::<u8>::from_asc_bytes(&[0; 8], &ApiVersion::new(0, 0, 3)).unwrap();
    assert!(matches!(legacy, Array::ApiVersion0_0_4(_)));
    let current = Array::<u8>::from_asc_bytes(&[0; 16], &ApiVersion::new(0, 0, 5)).unwrap();
    assert!(matches!(current, Array::ApiVersion0_0_5(_)));
    let big = Array::<u8>::from_asc_bytes(&[0; 16], &ApiVersion::new(1, 0, 0)).unwrap();
    assert!(matches!(big, Array::ApiVersion0_0_5(_)));
}

#[test]
fn array_wrong_object_size_fails_with_size_mismatch() {
    let r = Array::<u8>::from_asc_bytes(&[0; 16], &ApiVersion::new(0, 0, 4));
    assert!(matches!(r, Err(AscError::SizeNotMatch)));
    let r = Array::<u8>::from_asc_bytes(&[0; 8], &ApiVersion::new(0, 0, 5));
    assert!(matches!(r, Err(AscError::SizeNotMatch)));
}

#[test]
fn legacy_array_heap_round_trip() {
    let mut heap = MemHeap::empty(ApiVersion::new(0, 0, 4));
    let a = Array::<u16>::new(&[0x1234, 0xFFFF, 0], &mut heap).unwrap();
    assert_eq!(a.to_vec(&heap).unwrap(), vec![0x1234, 0xFFFF, 0]);
}

#[test]
fn current_array_heap_round_trip() {
    let mut heap = MemHeap::empty(ApiVersion::new(0, 0, 6));
    let a = Array::<u64>::new(&[u64::MAX, 7], &mut heap).unwrap();
    assert_eq!(a.to_vec(&heap).unwrap(), vec![u64::MAX, 7]);
}

#[test]
fn array_of_signed_round_trip() {
    let mut heap = MemHeap::empty(ApiVersion::new(0, 0, 5));
    let a = Array::<i32>::new(&[-1, i32::MIN, i32::MAX, 0], &mut heap).unwrap();
    assert_eq!(a.to_vec(&heap).unwrap(), vec![-1, i32::MIN, i32::MAX, 0]);
    let b = Array::<i64>::new(&[i64::MIN, -7], &mut heap).unwrap();
    assert_eq!(b.to_vec(&heap).unwrap(), vec![i64::MIN, -7]);
    let c = Array::<i8>::new(&[-128, 127], &mut heap).unwrap();
    assert_eq!(c.to_vec(&heap).unwrap(), vec![-128, 127]);
    let d = Array::<i16>::new(&[-300, 300], &mut heap).unwrap();
    assert_eq!(d.to_vec(&heap).unwrap(), vec![-300, 300]);
}

#[test]
fn array_of_bool_round_trip() {
    let mut heap = MemHeap::empty(ApiVersion::new(0, 0, 5));
    let a = Array::<bool>::new(&[true, false, true], &mut heap).unwrap();
    assert_eq!(a.to_vec(&heap).unwrap(), vec![true, false, true]);
}

#[test]
fn array_of_pointers_round_trip() {
    let mut heap = MemHeap::empty(ApiVersion::new(0, 0, 5));
    let ptrs = [AscPtr::<AscString>::new(64), AscPtr::<AscString>::new(128)];
    let a = Array::<AscPtr<AscString>>::new(&ptrs, &mut heap).unwrap();
    let back = a.to_vec(&heap).unwrap();
    assert_eq!(back.len(), 2);
    assert_eq!(back[0].wasm_ptr(), 64);
    assert_eq!(back[1].wasm_ptr(), 128);
}

#[test]
fn array_object_codec_round_trip() {
    let mut heap = MemHeap::empty(ApiVersion::new(0, 0, 3));
    let a = Array::<u8>::new(&[5, 6], &mut heap).unwrap();
    let bytes = a.to_asc_bytes().unwrap();
    assert_eq!(bytes.len(), 8);
    let back = Array::<u8>::from_asc_bytes(&bytes, &ApiVersion::new(0, 0, 3)).unwrap();
    assert_eq!(back.to_vec(&heap).unwrap(), vec![5, 6]);
}

#[test]
fn current_array_object_is_sixteen_bytes() {
    let mut heap = MemHeap::empty(ApiVersion::new(0, 0, 5));
    let a = Array::<u8>::new(&[5, 6], &mut heap).unwrap();
    let bytes = a.to_asc_bytes().unwrap();
    assert_eq!(bytes.len(), 16);
    let back = Array::<u8>::from_asc_bytes(&bytes, &ApiVersion::new(0, 0, 5)).unwrap();
    assert_eq!(back.to_vec(&heap).unwrap(), vec![5, 6]);
}

#[test]
fn invalid_boolean_byte_fails_with_incorrect_bool() {
    let mut heap = MemHeap::empty(ApiVersion::new(0, 0, 4));
    // A legacy buffer claiming one bool element whose byte is 2.
    let addr = heap.raw_new(&[1, 0, 0, 0, 2]).unwrap();
    let a = v0_0_4::Array::<bool> {
        buffer: AscPtr::new(addr),
        length: 1,
    };
    let r = a.to_vec(&heap);
    assert!(matches!(r, Err(AscError::IncorrectBool(2))));
}

#[test]
fn length_prefix_disagreement_fails_with_size_mismatch() {
    let mut heap = MemHeap::empty(ApiVersion::new(0, 0, 4));
    let addr = heap.raw_new(&[3, 0, 0, 0, 1, 2, 3]).unwrap();
    let a = v0_0_4::Array::<u8> {
        buffer: AscPtr::new(addr),
        length: 2,
    };
    assert!(matches!(a.to_vec(&heap), Err(AscError::SizeNotMatch)));
}

#[test]
fn dangling_buffer_fails_with_heap_fault() {
    let heap = MemHeap::empty(ApiVersion::new(0, 0, 4));
    let a = v0_0_4::Array::<u8> {
        buffer: AscPtr::new(1024),
        length: 1,
    };
    assert!(matches!(a.to_vec(&heap), Err(AscError::HeapAccessFault)));
}

#[test]
fn recursion_guard_stops_at_the_bound() {
    let heap = MemHeap::empty(ApiVersion::new(0, 0, 5));
    let ptr = AscPtr::<AscString>::new(0);
    let r = asc_get(&heap, ptr, 0, MAX_RECURSION_DEPTH);
    assert!(matches!(r, Err(AscError::MaxRecursion)));
    let r = asc_get(&heap, ptr, 0, MAX_RECURSION_DEPTH + 1000);
    assert!(matches!(r, Err(AscError::MaxRecursion)));
}

#[test]
fn asc_get_below_the_bound_decodes() {
    let mut heap = MemHeap::empty(ApiVersion::new(0, 0, 5));
    let addr = heap.raw_new(&[0x41, 0x00, 0x42, 0x00]).unwrap();
    let s: AscString = asc_get(&heap, AscPtr::new(addr), 4, 0).unwrap();
    assert_eq!(s.content, vec![0x41, 0x42]);
}

#[test]
fn asc_get_out_of_bounds_fails_with_heap_fault() {
    let heap = MemHeap::empty(ApiVersion::new(0, 0, 5));
    let r: Result<AscString, AscError> = asc_get(&heap, AscPtr::new(100), 4, 0);
    assert!(matches!(r, Err(AscError::HeapAccessFault)));
}
