use asc_marshal::array::Array;
use asc_marshal::base::AscPtr;
use asc_marshal::string::AscString;
use asc_marshal::tags::AscIndexId;
use asc_marshal::tags::IndexForAscTypeId;
use asc_marshal::version::ApiVersion;

fn all_tags() -> Vec<IndexForAscTypeId> {
    vec![
        IndexForAscTypeId::String,
        IndexForAscTypeId::ArrayBuffer,
        IndexForAscTypeId::Uint8Array,
        IndexForAscTypeId::BigDecimal,
        IndexForAscTypeId::ArrayBool,
        IndexForAscTypeId::ArrayUint8Array,
        IndexForAscTypeId::ArrayStoreValue,
        IndexForAscTypeId::ArrayJsonValue,
        IndexForAscTypeId::ArrayString,
        IndexForAscTypeId::ArrayTypedMapEntryStringJsonValue,
        IndexForAscTypeId::ArrayTypedMapEntryStringStoreValue,
        IndexForAscTypeId::ArrayU8,
        IndexForAscTypeId::ArrayU16,
        IndexForAscTypeId::ArrayU32,
        IndexForAscTypeId::ArrayU64,
        IndexForAscTypeId::ArrayI8,
        IndexForAscTypeId::ArrayI16,
        IndexForAscTypeId::ArrayI32,
        IndexForAscTypeId::ArrayI64,
        IndexForAscTypeId::ArrayF32,
        IndexForAscTypeId::ArrayF64,
        IndexForAscTypeId::ArrayBigDecimal,
    ]
}

#[test]
fn tag_ids_are_pairwise_distinct() {
    let tags = all_tags();
    for (i, a) in tags.iter().enumerate() {
        for (j, b) in tags.iter().enumerate() {
            if i != j {
                assert_ne!(a.tag(), b.tag());
            }
        }
    }
}

#[test]
fn every_registered_type_has_its_tag() {
    assert_eq!(AscString::index_asc_type_id(), IndexForAscTypeId::String);
    assert_eq!(Array::<bool>::index_asc_type_id(), IndexForAscTypeId::ArrayBool);
    assert_eq!(Array::<u8>::index_asc_type_id(), IndexForAscTypeId::ArrayU8);
    assert_eq!(Array::<u16>::index_asc_type_id(), IndexForAscTypeId::ArrayU16);
    assert_eq!(Array::<u32>::index_asc_type_id(), IndexForAscTypeId::ArrayU32);
    assert_eq!(Array::<u64>::index_asc_type_id(), IndexForAscTypeId::ArrayU64);
    assert_eq!(Array::<i8>::index_asc_type_id(), IndexForAscTypeId::ArrayI8);
    assert_eq!(Array::<i16>::index_asc_type_id(), IndexForAscTypeId::ArrayI16);
    assert_eq!(Array::<i32>::index_asc_type_id(), IndexForAscTypeId::ArrayI32);
    assert_eq!(Array::<i64>::index_asc_type_id(), IndexForAscTypeId::ArrayI64);
    assert_eq!(
        Array::<AscPtr<AscString>>::index_asc_type_id(),
        IndexForAscTypeId::ArrayString
    );
}

#[test]
fn registered_types_do_not_share_tags() {
    let ids = vec![
        AscString::index_asc_type_id().tag(),
        Array::<bool>::index_asc_type_id().tag(),
        Array::<u8>::index_asc_type_id().tag(),
        Array::<u16>::index_asc_type_id().tag(),
        Array::<u32>::index_asc_type_id().tag(),
        Array::<u64>::index_asc_type_id().tag(),
        Array::<i8>::index_asc_type_id().tag(),
        Array::<i16>::index_asc_type_id().tag(),
        Array::<i32>::index_asc_type_id().tag(),
        Array::<i64>::index_asc_type_id().tag(),
        Array::<AscPtr<AscString>>::index_asc_type_id().tag(),
    ];
    for (i, a) in ids.iter().enumerate() {
        for (j, b) in ids.iter().enumerate() {
            if i != j {
                assert_ne!(a, b);
            }
        }
    }
}

#[test]
fn version_boundary_is_exactly_0_0_4() {
    assert!(ApiVersion::new(0, 0, 0).is_legacy());
    assert!(ApiVersion::new(0, 0, 3).is_legacy());
    assert!(ApiVersion::new(0, 0, 4).is_legacy());
    assert!(!ApiVersion::new(0, 0, 5).is_legacy());
    assert!(!ApiVersion::new(0, 1, 0).is_legacy());
    assert!(!ApiVersion::new(1, 0, 0).is_legacy());
}

#[test]
fn version_order_is_lexicographic() {
    let v034 = ApiVersion::new(0, 3, 4);
    let v105 = ApiVersion::new(1, 0, 5);
    assert!(v034.le(&v105));
    assert!(!v105.le(&v034));
    assert!(v034.le(&v034));
    assert!(ApiVersion::new(0, 0, 4).le(&ApiVersion::new(0, 0, 5)));
}
