//! The static type-tag registry: the numeric class id the guest's garbage
//! collector expects on each freshly placed object, one per concrete
//! marshalable type.
//!
//! The ids are stable: changing one breaks compatibility with the guest
//! GC. The mapping is total — every registered type names exactly one
//! variant — and injective, which `lemma_tag_injective` proves.

use vstd::prelude::*;

use crate::array::Array;
use crate::base::AscPtr;
use crate::string::AscString;

verus! {

/// One variant per concrete type the wider system declares as marshalable:
/// the guest string and buffer types, each fixed-width numeric element
/// array, raw byte buffers, arbitrary-precision decimal handles, and the
/// domain value-wrapper and map-entry arrays.
#[derive(Clone, Copy, PartialEq, Eq, Structural, Debug)]
pub enum IndexForAscTypeId {
    String,
    ArrayBuffer,
    Uint8Array,
    BigDecimal,
    ArrayBool,
    ArrayUint8Array,
    ArrayStoreValue,
    ArrayJsonValue,
    ArrayString,
    ArrayTypedMapEntryStringJsonValue,
    ArrayTypedMapEntryStringStoreValue,
    ArrayU8,
    ArrayU16,
    ArrayU32,
    ArrayU64,
    ArrayI8,
    ArrayI16,
    ArrayI32,
    ArrayI64,
    ArrayF32,
    ArrayF64,
    ArrayBigDecimal,
}

impl IndexForAscTypeId {
    /// The stable numeric id of this tag.
    pub open spec fn spec_tag(self) -> u32 {
        match self {
            IndexForAscTypeId::String => 0,
            IndexForAscTypeId::ArrayBuffer => 1,
            IndexForAscTypeId::Uint8Array => 2,
            IndexForAscTypeId::BigDecimal => 3,
            IndexForAscTypeId::ArrayBool => 4,
            IndexForAscTypeId::ArrayUint8Array => 5,
            IndexForAscTypeId::ArrayStoreValue => 6,
            IndexForAscTypeId::ArrayJsonValue => 7,
            IndexForAscTypeId::ArrayString => 8,
            IndexForAscTypeId::ArrayTypedMapEntryStringJsonValue => 9,
            IndexForAscTypeId::ArrayTypedMapEntryStringStoreValue => 10,
            IndexForAscTypeId::ArrayU8 => 11,
            IndexForAscTypeId::ArrayU16 => 12,
            IndexForAscTypeId::ArrayU32 => 13,
            IndexForAscTypeId::ArrayU64 => 14,
            IndexForAscTypeId::ArrayI8 => 15,
            IndexForAscTypeId::ArrayI16 => 16,
            IndexForAscTypeId::ArrayI32 => 17,
            IndexForAscTypeId::ArrayI64 => 18,
            IndexForAscTypeId::ArrayF32 => 19,
            IndexForAscTypeId::ArrayF64 => 20,
            IndexForAscTypeId::ArrayBigDecimal => 21,
        }
    }

    /// The stable numeric id of this tag.
    pub fn tag(&self) -> (r: u32)
        ensures
            r == self.spec_tag(),
    {
        match self {
            IndexForAscTypeId::String => 0,
            IndexForAscTypeId::ArrayBuffer => 1,
            IndexForAscTypeId::Uint8Array => 2,
            IndexForAscTypeId::BigDecimal => 3,
            IndexForAscTypeId::ArrayBool => 4,
            IndexForAscTypeId::ArrayUint8Array => 5,
            IndexForAscTypeId::ArrayStoreValue => 6,
            IndexForAscTypeId::ArrayJsonValue => 7,
            IndexForAscTypeId::ArrayString => 8,
            IndexForAscTypeId::ArrayTypedMapEntryStringJsonValue => 9,
            IndexForAscTypeId::ArrayTypedMapEntryStringStoreValue => 10,
            IndexForAscTypeId::ArrayU8 => 11,
            IndexForAscTypeId::ArrayU16 => 12,
            IndexForAscTypeId::ArrayU32 => 13,
            IndexForAscTypeId::ArrayU64 => 14,
            IndexForAscTypeId::ArrayI8 => 15,
            IndexForAscTypeId::ArrayI16 => 16,
            IndexForAscTypeId::ArrayI32 => 17,
            IndexForAscTypeId::ArrayI64 => 18,
            IndexForAscTypeId::ArrayF32 => 19,
            IndexForAscTypeId::ArrayF64 => 20,
            IndexForAscTypeId::ArrayBigDecimal => 21,
        }
    }
}

/// No two tags share a numeric id: the registry is injective.
pub proof fn lemma_tag_injective(a: IndexForAscTypeId, b: IndexForAscTypeId)
    ensures
        a.spec_tag() == b.spec_tag() ==> a == b,
{
}

/// The quantified form: over the whole registry at once, distinct tags
/// carry distinct numeric ids. With one `AscIndexId` impl per registered
/// type, distinct types that name distinct tags therefore never share an
/// id.
pub proof fn lemma_registry_injective()
    ensures
        forall|a: IndexForAscTypeId, b: IndexForAscTypeId|
            a != b ==> #[trigger] a.spec_tag() != #[trigger] b.spec_tag(),
{
    assert forall|a: IndexForAscTypeId, b: IndexForAscTypeId| a != b implies #[trigger] a.spec_tag()
        != #[trigger] b.spec_tag() by {
        lemma_tag_injective(a, b);
    }
}

/// A type the registry declares marshalable: it names the one tag the
/// guest GC needs when objects of this type are freshly placed.
pub trait AscIndexId {
    /// The tag registered for this type.
    spec fn spec_index_asc_type_id() -> IndexForAscTypeId;

    /// The tag registered for this type.
    fn index_asc_type_id() -> (r: IndexForAscTypeId)
        ensures
            r == Self::spec_index_asc_type_id(),
    ;
}

impl AscIndexId for AscString {
    open spec fn spec_index_asc_type_id() -> IndexForAscTypeId {
        IndexForAscTypeId::String
    }

    fn index_asc_type_id() -> (r: IndexForAscTypeId) {
        IndexForAscTypeId::String
    }
}

impl AscIndexId for Array<bool> {
    open spec fn spec_index_asc_type_id() -> IndexForAscTypeId {
        IndexForAscTypeId::ArrayBool
    }

    fn index_asc_type_id() -> (r: IndexForAscTypeId) {
        IndexForAscTypeId::ArrayBool
    }
}

impl AscIndexId for Array<u8> {
    open spec fn spec_index_asc_type_id() -> IndexForAscTypeId {
        IndexForAscTypeId::ArrayU8
    }

    fn index_asc_type_id() -> (r: IndexForAscTypeId) {
        IndexForAscTypeId::ArrayU8
    }
}

impl AscIndexId for Array<u16> {
    open spec fn spec_index_asc_type_id() -> IndexForAscTypeId {
        IndexForAscTypeId::ArrayU16
    }

    fn index_asc_type_id() -> (r: IndexForAscTypeId) {
        IndexForAscTypeId::ArrayU16
    }
}

impl AscIndexId for Array<u32> {
    open spec fn spec_index_asc_type_id() -> IndexForAscTypeId {
        IndexForAscTypeId::ArrayU32
    }

    fn index_asc_type_id() -> (r: IndexForAscTypeId) {
        IndexForAscTypeId::ArrayU32
    }
}

impl AscIndexId for Array<u64> {
    open spec fn spec_index_asc_type_id() -> IndexForAscTypeId {
        IndexForAscTypeId::ArrayU64
    }

    fn index_asc_type_id() -> (r: IndexForAscTypeId) {
        IndexForAscTypeId::ArrayU64
    }
}

impl AscIndexId for Array<i8> {
    open spec fn spec_index_asc_type_id() -> IndexForAscTypeId {
        IndexForAscTypeId::ArrayI8
    }

    fn index_asc_type_id() -> (r: IndexForAscTypeId) {
        IndexForAscTypeId::ArrayI8
    }
}

impl AscIndexId for Array<i16> {
    open spec fn spec_index_asc_type_id() -> IndexForAscTypeId {
        IndexForAscTypeId::ArrayI16
    }

    fn index_asc_type_id() -> (r: IndexForAscTypeId) {
        IndexForAscTypeId::ArrayI16
    }
}

impl AscIndexId for Array<i32> {
    open spec fn spec_index_asc_type_id() -> IndexForAscTypeId {
        IndexForAscTypeId::ArrayI32
    }

    fn index_asc_type_id() -> (r: IndexForAscTypeId) {
        IndexForAscTypeId::ArrayI32
    }
}

impl AscIndexId for Array<i64> {
    open spec fn spec_index_asc_type_id() -> IndexForAscTypeId {
        IndexForAscTypeId::ArrayI64
    }

    fn index_asc_type_id() -> (r: IndexForAscTypeId) {
        IndexForAscTypeId::ArrayI64
    }
}

impl AscIndexId for Array<AscPtr<AscString>> {
    open spec fn spec_index_asc_type_id() -> IndexForAscTypeId {
        IndexForAscTypeId::ArrayString
    }

    fn index_asc_type_id() -> (r: IndexForAscTypeId) {
        IndexForAscTypeId::ArrayString
    }
}

} // verus!
