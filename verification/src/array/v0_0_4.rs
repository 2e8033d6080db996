//! The legacy array layout, used by guests declaring version `0.0.4` or
//! older.
//!
//! The array object itself is 8 bytes: the buffer address and the element
//! count, both little-endian `u32`s. The buffer it points at is
//! length-prefixed: a little-endian `u32` byte count, then the element
//! bytes.

use vstd::prelude::*;

use crate::base::AscHeap;
use crate::base::AscPtr;
use crate::encoding::dec_elems;
use crate::encoding::enc_elems;
use crate::encoding::encode_elems;
use crate::encoding::decode_elems;
use crate::errors::AscError;
use crate::value::AscValue;
use vstd::bytes::lemma_auto_spec_u32_to_from_le_bytes;
use vstd::bytes::spec_u32_from_le_bytes;
use vstd::bytes::spec_u32_to_le_bytes;
use vstd::bytes::u32_from_le_bytes;
use vstd::bytes::u32_to_le_bytes;

verus! {

/// A legacy-layout array object: where its buffer lives and how many
/// elements it has.
pub struct Array<T> {
    /// Address of the length-prefixed buffer in guest memory.
    pub buffer: AscPtr<T>,
    /// Number of elements.
    pub length: u32,
}

/// The bytes of a freshly built legacy buffer: the content's byte count,
/// little-endian, then the encoded elements.
pub open spec fn spec_buffer_bytes<T: AscValue>(content: Seq<T>) -> Seq<u8> {
    spec_u32_to_le_bytes((content.len() * T::elem_size()) as u32) + enc_elems(content)
}

impl<T: AscValue> Array<T> {
    /// The 8 bytes this array object encodes to.
    pub open spec fn spec_enc(self) -> Seq<u8> {
        spec_u32_to_le_bytes(self.buffer.spec_addr()) + spec_u32_to_le_bytes(self.length)
    }

    /// The exact result of decoding an array object from its 8 bytes.
    pub open spec fn spec_dec(b: Seq<u8>) -> Result<Array<T>, AscError> {
        if b.len() != 8 {
            Err(AscError::SizeNotMatch)
        } else {
            Ok(
                Array {
                    buffer: AscPtr::<T>::spec_new(spec_u32_from_le_bytes(b.take(4))),
                    length: spec_u32_from_le_bytes(b.skip(4)),
                },
            )
        }
    }

    /// This array designates a buffer in `mem` holding exactly the
    /// length-prefixed encoding of `content`.
    pub open spec fn points_at(self, content: Seq<T>, mem: Seq<u8>) -> bool {
        let ptr = self.buffer.spec_addr() as int;
        let bl = content.len() * T::elem_size();
        &&& self.length == content.len()
        &&& bl + 4 <= u32::MAX
        &&& ptr + 4 + bl <= mem.len()
        &&& mem.subrange(ptr, ptr + 4 + bl) == spec_buffer_bytes(content)
    }

    /// The exact result `to_vec` computes from the memory it reads.
    pub open spec fn spec_to_vec(self, mem: Seq<u8>) -> Result<Seq<T>, AscError> {
        let ptr = self.buffer.spec_addr() as int;
        if ptr + 4 > mem.len() {
            Err(AscError::HeapAccessFault)
        } else {
            let bl = spec_u32_from_le_bytes(mem.subrange(ptr, ptr + 4)) as int;
            if bl != self.length * T::elem_size() {
                Err(AscError::SizeNotMatch)
            } else if ptr + 4 + bl > mem.len() {
                Err(AscError::HeapAccessFault)
            } else {
                dec_elems::<T>(mem.subrange(ptr + 4, ptr + 4 + bl), self.length as nat)
            }
        }
    }

    /// Writes the length-prefixed buffer for `content` into the heap and
    /// returns the array object designating it. Fails with a size error
    /// when the buffer would not be addressable, and with the heap's own
    /// error when allocation fails; either way the memory is unchanged.
    pub fn new<H: AscHeap>(content: &[T], heap: &mut H) -> (r: Result<Array<T>, AscError>)
        ensures
            final(heap).version() == old(heap).version(),
            r is Err ==> final(heap).mem() == old(heap).mem(),
            content@.len() * T::elem_size() + 4 > u32::MAX ==> r == Err::<Array<T>, AscError>(
                AscError::SizeNotFit,
            ),
            r matches Ok(a) ==> {
                &&& old(heap).mem().len() <= a.buffer.spec_addr() as int
                &&& a.points_at(content@, final(heap).mem())
                &&& final(heap).mem().subrange(0, old(heap).mem().len() as int)
                    == old(heap).mem()
            },
    {
        let size = T::asc_size();
        proof {
            T::lemma_elem_size_pos();
            assert(content@.len() * T::elem_size() >= content@.len() * 1) by (nonlinear_arith)
                requires T::elem_size() >= 1;
        }
        if content.len() > (u32::MAX as usize) {
            return Err(AscError::SizeNotFit);
        }
        proof {
            assert((content@.len() as u64) * (size as u64) <= (u32::MAX as u64) * 8)
                by (nonlinear_arith)
                requires content@.len() <= u32::MAX && size <= 8;
        }
        let byte_len: u64 = (content.len() as u64) * (size as u64);
        if byte_len > (u32::MAX as u64) - 4 {
            return Err(AscError::SizeNotFit);
        }
        proof {
            assert(u32::MAX <= usize::MAX);
        }
        let mut buf = u32_to_le_bytes(byte_len as u32);
        let mut body = encode_elems::<T>(content);
        buf.append(&mut body);
        match heap.raw_new(buf.as_slice()) {
            Ok(addr) => {
                let a = Array { buffer: AscPtr::<T>::new(addr), length: content.len() as u32 };
                proof {
                    assert(final(heap).mem().subrange(
                        addr as int,
                        addr as int + 4 + content@.len() * T::elem_size(),
                    ) == spec_buffer_bytes(content@));
                }
                Ok(a)
            },
            Err(e) => Err(e),
        }
    }

    /// Reads the buffer back and decodes every element. Fails with a heap
    /// fault on an unreadable range, a size mismatch when the buffer's
    /// length prefix disagrees with the element count, and the element's
    /// own error on a malformed element.
    pub fn to_vec<H: AscHeap>(&self, heap: &H) -> (r: Result<Vec<T>, AscError>)
        ensures
            (match r {
                Ok(v) => self.spec_to_vec(heap.mem()) == Ok::<Seq<T>, AscError>(v@),
                Err(e) => self.spec_to_vec(heap.mem()) == Err::<Seq<T>, AscError>(e),
            }),
    {
        let size = T::asc_size();
        let header = match heap.read(self.buffer.wasm_ptr(), 4) {
            Ok(b) => b,
            Err(e) => {
                return Err(e);
            },
        };
        let bl = u32_from_le_bytes(header.as_slice());
        proof {
            T::lemma_elem_size_pos();
            assert((self.length as u64) * (size as u64) <= (u32::MAX as u64) * 8)
                by (nonlinear_arith)
                requires self.length <= u32::MAX && size <= 8;
        }
        let expected: u64 = (self.length as u64) * (size as u64);
        if (bl as u64) != expected {
            return Err(AscError::SizeNotMatch);
        }
        // The memory size bounds what any in-bounds read can cover: a
        // buffer longer than the 32-bit address space cannot lie in it.
        let mem_size = heap.memory_size();
        if (bl as u64) > (u32::MAX as u64) - 4 {
            return Err(AscError::HeapAccessFault);
        }
        let all = match heap.read(self.buffer.wasm_ptr(), 4 + bl) {
            Ok(b) => b,
            Err(e) => {
                return Err(e);
            },
        };
        let content_slice = vstd::slice::slice_subrange(all.as_slice(), 4, all.len());
        proof {
            let ptr = self.buffer.spec_addr() as int;
            assert(content_slice@ =~= heap.mem().subrange(ptr + 4, ptr + 4 + bl as int));
        }
        decode_elems::<T>(content_slice, self.length as usize)
    }
}

/// Reading a freshly written array back yields exactly the content it was
/// built from: the heap-level round trip of the legacy layout.
pub proof fn lemma_fresh_to_vec<T: AscValue>(a: Array<T>, content: Seq<T>, mem: Seq<u8>)
    requires
        a.points_at(content, mem),
    ensures
        a.spec_to_vec(mem) == Ok::<Seq<T>, AscError>(content),
{
    let ptr = a.buffer.spec_addr() as int;
    let bl = content.len() * T::elem_size();
    T::lemma_elem_size_pos();
    assert(bl >= 0) by (nonlinear_arith)
        requires T::elem_size() >= 1 && content.len() >= 0;
    lemma_auto_spec_u32_to_from_le_bytes();
    assert(spec_u32_to_le_bytes((bl) as u32).len() == 4);
    assert(mem.subrange(ptr, ptr + 4) =~= spec_buffer_bytes(content).take(4));
    assert(spec_buffer_bytes(content).take(4) =~= spec_u32_to_le_bytes(bl as u32));
    assert(spec_u32_from_le_bytes(mem.subrange(ptr, ptr + 4)) == bl as u32);
    assert(mem.subrange(ptr + 4, ptr + 4 + bl) =~= spec_buffer_bytes(content).skip(4));
    assert(spec_buffer_bytes(content).skip(4) =~= enc_elems(content));
    crate::encoding::lemma_dec_enc_elems::<T>(content);
    crate::encoding::lemma_enc_elems_len::<T>(content);
}

} // verus!
