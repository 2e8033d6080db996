//! The codec contract, the abstract heap capability, and typed pointers
//! into guest memory.

use vstd::prelude::*;

use crate::errors::err_like;
use crate::errors::AscError;
use crate::version::ApiVersion;

verus! {

/// Depth bound for pointer-following decodes, guarding against cyclic or
/// pathologically deep guest-constructed structures.
pub const MAX_RECURSION_DEPTH: u32 = 128;

/// The contract every marshalable type satisfies: a byte-exact,
/// deterministic encoding and a version-aware decoding that rejects
/// malformed input with a taxonomy error instead of misreading it.
pub trait AscType: Sized {
    /// The mathematical model of a value of this type.
    type Model;

    /// What this value is, mathematically.
    spec fn model(&self) -> Self::Model;

    /// The type's internal invariant; constructors establish it and
    /// decoding re-validates it.
    spec fn wf(&self) -> bool;

    /// The exact byte sequence `to_asc_bytes` emits.
    spec fn enc(&self) -> Seq<u8>;

    /// Machine limit: the emitted byte sequence fits in a `Vec` on this
    /// platform. Always true on 64-bit targets for well-formed values.
    spec fn enc_fits(&self) -> bool;

    /// The exact result of decoding `b` under version `v`: the model of
    /// the decoded value, or the error, whose kind and structured payload
    /// are pinned down (only the text of a generic decode failure is
    /// left free, see `err_like`).
    spec fn dec(b: Seq<u8>, v: ApiVersion) -> Result<Self::Model, AscError>;

    /// The logical byte size of the decoded content, excluding any
    /// trailing padding, given the bytes the value was read from.
    spec fn spec_content_len(&self, b: Seq<u8>) -> nat;

    /// Encodes the value. A pure function of the value: the output is
    /// exactly `enc()`, whose length depends only on the content size and
    /// the layout version, never on the content values.
    fn to_asc_bytes(&self) -> (r: Result<Vec<u8>, AscError>)
        requires
            self.wf(),
            self.enc_fits(),
        ensures
            r is Ok,
            r matches Ok(b) ==> b@ == self.enc(),
    ;

    /// Reconstructs a value from raw bytes previously read from the heap,
    /// under the explicitly declared API version. Succeeds exactly when
    /// `dec` does; the result is well-formed and is the decoded model.
    fn from_asc_bytes(bytes: &[u8], api_version: &ApiVersion) -> (r: Result<Self, AscError>)
        ensures
            (r is Ok) == (Self::dec(bytes@, *api_version) is Ok),
            r matches Ok(x) ==> x.wf() && x.model() == Self::dec(bytes@, *api_version)->Ok_0,
            r matches Err(e) ==> err_like(e, Self::dec(bytes@, *api_version)->Err_0),
    ;

    /// How many bytes of the heap the value really occupies, versus how
    /// many were allocated for it.
    fn content_len(&self, asc_bytes: &[u8]) -> (r: usize)
        requires
            self.wf(),
        ensures
            r == self.spec_content_len(asc_bytes@),
    ;
}

/// Abstract capability over the guest's linear memory: byte-addressed
/// reads, allocating writes, and the guest's declared API version.
///
/// The model is grow-only within one marshaling operation: an allocating
/// write never disturbs bytes already placed, and a failed operation
/// leaves the memory exactly as it was (writes are all-or-nothing).
pub trait AscHeap {
    /// The bytes of the guest's linear memory.
    spec fn mem(&self) -> Seq<u8>;

    /// The guest's declared binary-compatibility version.
    spec fn version(&self) -> ApiVersion;

    /// How many bytes the linear memory currently holds. The memory is
    /// 32-bit addressed, so the count fits a `u32`.
    fn memory_size(&self) -> (r: u32)
        ensures
            r as int == self.mem().len(),
    ;

    /// Reports the guest's declared API version.
    fn api_version(&self) -> (r: ApiVersion)
        ensures
            r == self.version(),
    ;

    /// Reads `length` bytes starting at `offset`. Fails exactly on an
    /// out-of-bounds range, with a heap-access fault.
    fn read(&self, offset: u32, length: u32) -> (r: Result<Vec<u8>, AscError>)
        ensures
            (offset + length <= self.mem().len()) == (r is Ok),
            r matches Ok(b) ==> b@ == self.mem().subrange(
                offset as int,
                offset as int + length as int,
            ),
            r is Err ==> r == Err::<Vec<u8>, AscError>(AscError::HeapAccessFault),
    ;

    /// Allocates a fresh block, copies `bytes` into it, and returns its
    /// address. May fail when a capacity or size limit is exceeded; on
    /// failure the memory is unchanged.
    fn raw_new(&mut self, bytes: &[u8]) -> (r: Result<u32, AscError>)
        ensures
            final(self).version() == old(self).version(),
            r is Err ==> final(self).mem() == old(self).mem(),
            r matches Ok(a) ==> {
                &&& old(self).mem().len() <= a as int
                &&& a as int + bytes@.len() <= final(self).mem().len()
                &&& final(self).mem().subrange(0, old(self).mem().len() as int)
                    == old(self).mem()
                &&& final(self).mem().subrange(a as int, a as int + bytes@.len() as int)
                    == bytes@
            },
    ;
}

/// A non-owning, typed handle to an address in guest memory: a location
/// plus the native type the bytes there are expected to decode into.
/// Lifetime and storage belong to the heap; the pointer is Copy-able
/// metadata and never frees anything.
pub struct AscPtr<T> {
    addr: u32,
    marker: core::marker::PhantomData<T>,
}

impl<T> AscPtr<T> {
    /// The raw address this pointer designates.
    pub closed spec fn spec_addr(self) -> u32 {
        self.addr
    }

    /// The pointer with the given address, at the spec level.
    pub closed spec fn spec_new(addr: u32) -> AscPtr<T> {
        AscPtr { addr, marker: core::marker::PhantomData }
    }

    /// A pointer is nothing but its address: equal addresses give equal
    /// pointers.
    pub proof fn lemma_addr_injective(a: AscPtr<T>, b: AscPtr<T>)
        requires
            a.spec_addr() == b.spec_addr(),
        ensures
            a == b,
    {
    }

    pub proof fn lemma_spec_new_addr(addr: u32)
        ensures
            AscPtr::<T>::spec_new(addr).spec_addr() == addr,
    {
    }

    pub fn new(addr: u32) -> (r: AscPtr<T>)
        ensures
            r == AscPtr::<T>::spec_new(addr),
            r.spec_addr() == addr,
    {
        AscPtr { addr, marker: core::marker::PhantomData }
    }

    /// The raw address this pointer designates.
    pub fn wasm_ptr(&self) -> (r: u32)
        ensures
            r == self.spec_addr(),
    {
        self.addr
    }
}

impl<T> Clone for AscPtr<T> {
    fn clone(&self) -> (r: Self)
        ensures
            r == *self,
    {
        AscPtr { addr: self.addr, marker: core::marker::PhantomData }
    }
}

impl<T> Copy for AscPtr<T> {

}

/// Reads and decodes the object `ptr` designates, `byte_length` bytes
/// long, checking the recursion-depth guard first. Callers descending
/// into nested, pointer-bearing elements pass an incremented `depth`, so
/// an adversarially deep or cyclic guest structure fails with a
/// recursion-limit error instead of exhausting the stack.
pub fn asc_get<T: AscType, H: AscHeap>(
    heap: &H,
    ptr: AscPtr<T>,
    byte_length: u32,
    depth: u32,
) -> (r: Result<T, AscError>)
    ensures
        depth >= MAX_RECURSION_DEPTH ==> r == Err::<T, AscError>(AscError::MaxRecursion),
        depth < MAX_RECURSION_DEPTH && ptr.spec_addr() + byte_length > heap.mem().len()
            ==> r == Err::<T, AscError>(AscError::HeapAccessFault),
        depth < MAX_RECURSION_DEPTH && ptr.spec_addr() + byte_length <= heap.mem().len()
            ==> ({
            let d = T::dec(
                heap.mem().subrange(
                    ptr.spec_addr() as int,
                    ptr.spec_addr() as int + byte_length as int,
                ),
                heap.version(),
            );
            &&& (r is Ok) == (d is Ok)
            &&& r matches Ok(x) ==> x.wf() && x.model() == d->Ok_0
            &&& r matches Err(e) ==> err_like(e, d->Err_0)
        }),
{
    if depth >= MAX_RECURSION_DEPTH {
        return Err(AscError::MaxRecursion);
    }
    let bytes = match heap.read(ptr.wasm_ptr(), byte_length) {
        Ok(b) => b,
        Err(e) => {
            return Err(e);
        },
    };
    let version = heap.api_version();
    T::from_asc_bytes(bytes.as_slice(), &version)
}

} // verus!
