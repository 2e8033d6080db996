//! Arrays of fixed-size elements in guest memory, under either of the two
//! binary-incompatible layouts the guest runtime has used, presented as one
//! logical type.
//!
//! Which layout is active is a pure function of the declared API version —
//! at or below `0.0.4` the legacy layout, above it the current one — taken
//! from the heap when an array is freshly built and from the explicit
//! version parameter when one is decoded, so the two paths cannot disagree.

pub mod v0_0_4;
pub mod v0_0_5;

use vstd::prelude::*;

use crate::base::AscHeap;
use crate::base::AscPtr;
use crate::base::AscType;
use crate::errors::AscError;
use crate::value::AscValue;
use crate::version::ApiVersion;
use vstd::bytes::lemma_auto_spec_u32_to_from_le_bytes;
use vstd::bytes::u32_from_le_bytes;
use vstd::bytes::u32_to_le_bytes;
use vstd::slice::slice_subrange;

verus! {

/// Wrapper of Array for the guest's multiple layout versions: it delegates
/// its method calls to the layout the API version selects.
pub enum Array<T> {
    ApiVersion0_0_4(v0_0_4::Array<T>),
    ApiVersion0_0_5(v0_0_5::Array<T>),
}

impl<T: AscValue> Array<T> {
    /// The exact result `to_vec` computes from the memory it reads,
    /// whichever variant is present.
    pub open spec fn spec_to_vec(self, mem: Seq<u8>) -> Result<Seq<T>, AscError> {
        match self {
            Array::ApiVersion0_0_4(a) => a.spec_to_vec(mem),
            Array::ApiVersion0_0_5(a) => a.spec_to_vec(mem),
        }
    }

    /// The variant present designates a fresh buffer in `mem` holding
    /// exactly the encoding of `content`, under its own conventions.
    pub open spec fn points_at(self, content: Seq<T>, mem: Seq<u8>) -> bool {
        match self {
            Array::ApiVersion0_0_4(a) => a.points_at(content, mem),
            Array::ApiVersion0_0_5(a) => a.points_at(content, mem),
        }
    }

    /// Builds an array from `content` in the heap, under the layout the
    /// heap's declared API version selects. On success the chosen variant
    /// matches the version, the buffer is freshly placed, and everything
    /// already in memory is untouched. Content whose buffer the selected
    /// layout could not address is rejected with the size error before the
    /// heap is asked for anything; on any failure the memory is unchanged.
    pub fn new<H: AscHeap>(content: &[T], heap: &mut H) -> (r: Result<Array<T>, AscError>)
        ensures
            final(heap).version() == old(heap).version(),
            r is Err ==> final(heap).mem() == old(heap).mem(),
            old(heap).version().spec_is_legacy() && content@.len() * T::elem_size() + 4
                > u32::MAX ==> r == Err::<Array<T>, AscError>(AscError::SizeNotFit),
            !old(heap).version().spec_is_legacy() && content@.len() * T::elem_size()
                > u32::MAX ==> r == Err::<Array<T>, AscError>(AscError::SizeNotFit),
            r matches Ok(a) ==> ((a is ApiVersion0_0_4) <==> old(heap).version().spec_is_legacy()),
            r matches Ok(a) ==> ({
                &&& a.points_at(content@, final(heap).mem())
                &&& final(heap).mem().subrange(0, old(heap).mem().len() as int)
                    == old(heap).mem()
            }),
    {
        let v = heap.api_version();
        if v.is_legacy() {
            match v0_0_4::Array::<T>::new(content, heap) {
                Ok(a) => Ok(Array::ApiVersion0_0_4(a)),
                Err(e) => Err(e),
            }
        } else {
            match v0_0_5::Array::<T>::new(content, heap) {
                Ok(a) => Ok(Array::ApiVersion0_0_5(a)),
                Err(e) => Err(e),
            }
        }
    }

    /// Reads the array's elements back out of the heap, delegating to the
    /// variant present.
    pub fn to_vec<H: AscHeap>(&self, heap: &H) -> (r: Result<Vec<T>, AscError>)
        ensures
            (match r {
                Ok(v) => self.spec_to_vec(heap.mem()) == Ok::<Seq<T>, AscError>(v@),
                Err(e) => self.spec_to_vec(heap.mem()) == Err::<Seq<T>, AscError>(e),
            }),
    {
        match self {
            Array::ApiVersion0_0_4(a) => a.to_vec(heap),
            Array::ApiVersion0_0_5(a) => a.to_vec(heap),
        }
    }
}

impl<T: AscValue> AscType for Array<T> {
    type Model = Array<T>;

    open spec fn model(&self) -> Array<T> {
        *self
    }

    open spec fn wf(&self) -> bool {
        true
    }

    open spec fn enc(&self) -> Seq<u8> {
        match *self {
            Array::ApiVersion0_0_4(a) => a.spec_enc(),
            Array::ApiVersion0_0_5(a) => a.spec_enc(),
        }
    }

    open spec fn enc_fits(&self) -> bool {
        true
    }

    open spec fn dec(b: Seq<u8>, v: ApiVersion) -> Result<Array<T>, AscError> {
        if v.spec_is_legacy() {
            match v0_0_4::Array::<T>::spec_dec(b) {
                Ok(a) => Ok(Array::ApiVersion0_0_4(a)),
                Err(e) => Err(e),
            }
        } else {
            match v0_0_5::Array::<T>::spec_dec(b) {
                Ok(a) => Ok(Array::ApiVersion0_0_5(a)),
                Err(e) => Err(e),
            }
        }
    }

    open spec fn spec_content_len(&self, b: Seq<u8>) -> nat {
        b.len()
    }

    fn to_asc_bytes(&self) -> (r: Result<Vec<u8>, AscError>) {
        match self {
            Array::ApiVersion0_0_4(a) => {
                let mut out = u32_to_le_bytes(a.buffer.wasm_ptr());
                let mut rest = u32_to_le_bytes(a.length);
                out.append(&mut rest);
                Ok(out)
            },
            Array::ApiVersion0_0_5(a) => {
                let mut out = u32_to_le_bytes(a.buffer.wasm_ptr());
                let mut p1 = u32_to_le_bytes(a.buffer_data_start);
                let mut p2 = u32_to_le_bytes(a.buffer_data_length);
                let mut p3 = u32_to_le_bytes(a.length);
                out.append(&mut p1);
                out.append(&mut p2);
                out.append(&mut p3);
                Ok(out)
            },
        }
    }

    fn from_asc_bytes(bytes: &[u8], api_version: &ApiVersion) -> (r: Result<Array<T>, AscError>) {
        if api_version.is_legacy() {
            if bytes.len() != 8 {
                return Err(AscError::SizeNotMatch);
            }
            let buffer = u32_from_le_bytes(slice_subrange(bytes, 0, 4));
            let length = u32_from_le_bytes(slice_subrange(bytes, 4, 8));
            proof {
                assert(bytes@.take(4) =~= bytes@.subrange(0, 4));
                assert(bytes@.skip(4) =~= bytes@.subrange(4, 8));
            }
            Ok(Array::ApiVersion0_0_4(v0_0_4::Array {
                buffer: AscPtr::<T>::new(buffer),
                length,
            }))
        } else {
            if bytes.len() != 16 {
                return Err(AscError::SizeNotMatch);
            }
            let buffer = u32_from_le_bytes(slice_subrange(bytes, 0, 4));
            let buffer_data_start = u32_from_le_bytes(slice_subrange(bytes, 4, 8));
            let buffer_data_length = u32_from_le_bytes(slice_subrange(bytes, 8, 12));
            let length = u32_from_le_bytes(slice_subrange(bytes, 12, 16));
            Ok(Array::ApiVersion0_0_5(v0_0_5::Array {
                buffer: AscPtr::<T>::new(buffer),
                buffer_data_start,
                buffer_data_length,
                length,
            }))
        }
    }

    fn content_len(&self, asc_bytes: &[u8]) -> (r: usize) {
        asc_bytes.len()
    }
}

/// Version dispatch: the layout variant a decode yields is a pure function
/// of the explicitly declared version — legacy exactly at or below
/// `0.0.4` — so it reproduces the choice `new` makes against a heap that
/// declares the same version, independent of any live heap state.
pub proof fn lemma_version_dispatch<T: AscValue>(b: Seq<u8>, v: ApiVersion)
    ensures
        <Array<T> as AscType>::dec(b, v) matches Ok(a) ==> ((a is ApiVersion0_0_4)
            <==> v.spec_is_legacy()),
{
}

/// Reading a freshly built array back yields exactly the content it was
/// built from, under either layout: composed with `new`'s contract, a
/// `new` followed by `to_vec` on an otherwise untouched heap is lossless.
pub proof fn lemma_fresh_to_vec<T: AscValue>(a: Array<T>, content: Seq<T>, mem: Seq<u8>)
    requires
        a.points_at(content, mem),
    ensures
        a.spec_to_vec(mem) == Ok::<Seq<T>, AscError>(content),
{
    match a {
        Array::ApiVersion0_0_4(inner) => {
            v0_0_4::lemma_fresh_to_vec::<T>(inner, content, mem);
        },
        Array::ApiVersion0_0_5(inner) => {
            v0_0_5::lemma_fresh_to_vec::<T>(inner, content, mem);
        },
    }
}

/// An array object's encoded length depends only on the layout variant —
/// 8 bytes under the legacy layout, 16 under the current one — never on
/// the element values.
pub proof fn lemma_array_enc_len<T: AscValue>(a: Array<T>)
    ensures
        a is ApiVersion0_0_4 ==> a.enc().len() == 8,
        a is ApiVersion0_0_5 ==> a.enc().len() == 16,
{
    lemma_auto_spec_u32_to_from_le_bytes();
    match a {
        Array::ApiVersion0_0_4(inner) => {
            assert(vstd::bytes::spec_u32_to_le_bytes(inner.buffer.spec_addr()).len() == 4);
            assert(vstd::bytes::spec_u32_to_le_bytes(inner.length).len() == 4);
        },
        Array::ApiVersion0_0_5(inner) => {
            assert(vstd::bytes::spec_u32_to_le_bytes(inner.buffer.spec_addr()).len() == 4);
            assert(vstd::bytes::spec_u32_to_le_bytes(inner.buffer_data_start).len() == 4);
            assert(vstd::bytes::spec_u32_to_le_bytes(inner.buffer_data_length).len() == 4);
            assert(vstd::bytes::spec_u32_to_le_bytes(inner.length).len() == 4);
        },
    }
}

/// Codec round trip for array objects: decoding an encoded array under any
/// version that selects the same layout variant yields the array back,
/// exactly.
pub proof fn lemma_array_round_trip<T: AscValue>(a: Array<T>, v: ApiVersion)
    requires
        (a is ApiVersion0_0_4) <==> v.spec_is_legacy(),
    ensures
        <Array<T> as AscType>::dec(a.enc(), v) == Ok::<Array<T>, AscError>(a),
{
    lemma_auto_spec_u32_to_from_le_bytes();
    match a {
        Array::ApiVersion0_0_4(inner) => {
            let e = inner.spec_enc();
            assert(vstd::bytes::spec_u32_to_le_bytes(inner.buffer.spec_addr()).len() == 4);
            assert(vstd::bytes::spec_u32_to_le_bytes(inner.length).len() == 4);
            assert(e.take(4) =~= vstd::bytes::spec_u32_to_le_bytes(inner.buffer.spec_addr()));
            assert(e.skip(4) =~= vstd::bytes::spec_u32_to_le_bytes(inner.length));
            AscPtr::<T>::lemma_spec_new_addr(inner.buffer.spec_addr());
            AscPtr::<T>::lemma_addr_injective(
                AscPtr::<T>::spec_new(inner.buffer.spec_addr()),
                inner.buffer,
            );
        },
        Array::ApiVersion0_0_5(inner) => {
            let e = inner.spec_enc();
            assert(vstd::bytes::spec_u32_to_le_bytes(inner.buffer.spec_addr()).len() == 4);
            assert(vstd::bytes::spec_u32_to_le_bytes(inner.buffer_data_start).len() == 4);
            assert(vstd::bytes::spec_u32_to_le_bytes(inner.buffer_data_length).len() == 4);
            assert(vstd::bytes::spec_u32_to_le_bytes(inner.length).len() == 4);
            assert(e.subrange(0, 4) =~= vstd::bytes::spec_u32_to_le_bytes(
                inner.buffer.spec_addr(),
            ));
            assert(e.subrange(4, 8) =~= vstd::bytes::spec_u32_to_le_bytes(
                inner.buffer_data_start,
            ));
            assert(e.subrange(8, 12) =~= vstd::bytes::spec_u32_to_le_bytes(
                inner.buffer_data_length,
            ));
            assert(e.subrange(12, 16) =~= vstd::bytes::spec_u32_to_le_bytes(inner.length));
            AscPtr::<T>::lemma_spec_new_addr(inner.buffer.spec_addr());
            AscPtr::<T>::lemma_addr_injective(
                AscPtr::<T>::spec_new(inner.buffer.spec_addr()),
                inner.buffer,
            );
        },
    }
}

} // verus!
