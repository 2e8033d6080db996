//! The current array layout, used by guests declaring a version newer than
//! `0.0.4`.
//!
//! The array object is 16 bytes: buffer address, data start address, data
//! byte length and element count, each a little-endian `u32`. The buffer
//! holds the raw element bytes with no length prefix; the byte length
//! lives in the array object itself.

use vstd::prelude::*;

use crate::base::AscHeap;
use crate::base::AscPtr;
use crate::encoding::dec_elems;
use crate::encoding::enc_elems;
use crate::encoding::encode_elems;
use crate::encoding::decode_elems;
use crate::errors::AscError;
use crate::value::AscValue;
use vstd::bytes::spec_u32_from_le_bytes;
use vstd::bytes::spec_u32_to_le_bytes;

verus! {

/// A current-layout array object.
pub struct Array<T> {
    /// Address of the backing buffer in guest memory.
    pub buffer: AscPtr<T>,
    /// Address of the first element's byte: for a freshly placed array,
    /// the buffer address itself.
    pub buffer_data_start: u32,
    /// Byte length of the element data.
    pub buffer_data_length: u32,
    /// Number of elements.
    pub length: u32,
}

impl<T: AscValue> Array<T> {
    /// The 16 bytes this array object encodes to.
    pub open spec fn spec_enc(self) -> Seq<u8> {
        spec_u32_to_le_bytes(self.buffer.spec_addr()) + spec_u32_to_le_bytes(
            self.buffer_data_start,
        ) + spec_u32_to_le_bytes(self.buffer_data_length) + spec_u32_to_le_bytes(self.length)
    }

    /// The exact result of decoding an array object from its 16 bytes.
    pub open spec fn spec_dec(b: Seq<u8>) -> Result<Array<T>, AscError> {
        if b.len() != 16 {
            Err(AscError::SizeNotMatch)
        } else {
            Ok(
                Array {
                    buffer: AscPtr::<T>::spec_new(spec_u32_from_le_bytes(b.subrange(0, 4))),
                    buffer_data_start: spec_u32_from_le_bytes(b.subrange(4, 8)),
                    buffer_data_length: spec_u32_from_le_bytes(b.subrange(8, 12)),
                    length: spec_u32_from_le_bytes(b.subrange(12, 16)),
                },
            )
        }
    }

    /// This array designates element data in `mem` holding exactly the
    /// encoding of `content`.
    pub open spec fn points_at(self, content: Seq<T>, mem: Seq<u8>) -> bool {
        let start = self.buffer_data_start as int;
        let bl = content.len() * T::elem_size();
        &&& self.length == content.len()
        &&& self.buffer_data_length == bl
        &&& self.buffer_data_start == self.buffer.spec_addr()
        &&& bl <= u32::MAX
        &&& start + bl <= mem.len()
        &&& mem.subrange(start, start + bl) == enc_elems(content)
    }

    /// The exact result `to_vec` computes from the memory it reads.
    pub open spec fn spec_to_vec(self, mem: Seq<u8>) -> Result<Seq<T>, AscError> {
        let start = self.buffer_data_start as int;
        let bl = self.buffer_data_length as int;
        if bl != self.length * T::elem_size() {
            Err(AscError::SizeNotMatch)
        } else if start + bl > mem.len() {
            Err(AscError::HeapAccessFault)
        } else {
            dec_elems::<T>(mem.subrange(start, start + bl), self.length as nat)
        }
    }

    /// Writes the raw element buffer for `content` into the heap and
    /// returns the array object designating it. Fails with a size error
    /// when the data would not be addressable, and with the heap's own
    /// error when allocation fails; either way the memory is unchanged.
    pub fn new<H: AscHeap>(content: &[T], heap: &mut H) -> (r: Result<Array<T>, AscError>)
        ensures
            final(heap).version() == old(heap).version(),
            r is Err ==> final(heap).mem() == old(heap).mem(),
            content@.len() * T::elem_size() > u32::MAX ==> r == Err::<Array<T>, AscError>(
                AscError::SizeNotFit,
            ),
            r matches Ok(a) ==> {
                &&& old(heap).mem().len() <= a.buffer.spec_addr() as int
                &&& a.points_at(content@, final(heap).mem())
                &&& final(heap).mem().subrange(0, old(heap).mem().len() as int)
                    == old(heap).mem()
            },
    {
        let size = T::asc_size();
        proof {
            T::lemma_elem_size_pos();
            assert(content@.len() * T::elem_size() >= content@.len() * 1) by (nonlinear_arith)
                requires T::elem_size() >= 1;
        }
        if content.len() > (u32::MAX as usize) {
            return Err(AscError::SizeNotFit);
        }
        proof {
            assert((content@.len() as u64) * (size as u64) <= (u32::MAX as u64) * 8)
                by (nonlinear_arith)
                requires content@.len() <= u32::MAX && size <= 8;
        }
        let byte_len: u64 = (content.len() as u64) * (size as u64);
        if byte_len > u32::MAX as u64 {
            return Err(AscError::SizeNotFit);
        }
        proof {
            assert(u32::MAX <= usize::MAX);
        }
        let buf = encode_elems::<T>(content);
        match heap.raw_new(buf.as_slice()) {
            Ok(addr) => Ok(
                Array {
                    buffer: AscPtr::<T>::new(addr),
                    buffer_data_start: addr,
                    buffer_data_length: byte_len as u32,
                    length: content.len() as u32,
                },
            ),
            Err(e) => Err(e),
        }
    }

    /// Reads the element data back and decodes every element. Fails with
    /// a size mismatch when the recorded byte length disagrees with the
    /// element count, a heap fault on an unreadable range, and the
    /// element's own error on a malformed element.
    pub fn to_vec<H: AscHeap>(&self, heap: &H) -> (r: Result<Vec<T>, AscError>)
        ensures
            (match r {
                Ok(v) => self.spec_to_vec(heap.mem()) == Ok::<Seq<T>, AscError>(v@),
                Err(e) => self.spec_to_vec(heap.mem()) == Err::<Seq<T>, AscError>(e),
            }),
    {
        let size = T::asc_size();
        proof {
            T::lemma_elem_size_pos();
            assert((self.length as u64) * (size as u64) <= (u32::MAX as u64) * 8)
                by (nonlinear_arith)
                requires self.length <= u32::MAX && size <= 8;
        }
        let expected: u64 = (self.length as u64) * (size as u64);
        if (self.buffer_data_length as u64) != expected {
            return Err(AscError::SizeNotMatch);
        }
        let data = match heap.read(self.buffer_data_start, self.buffer_data_length) {
            Ok(b) => b,
            Err(e) => {
                return Err(e);
            },
        };
        decode_elems::<T>(data.as_slice(), self.length as usize)
    }
}

/// Reading a freshly written array back yields exactly the content it was
/// built from: the heap-level round trip of the current layout.
pub proof fn lemma_fresh_to_vec<T: AscValue>(a: Array<T>, content: Seq<T>, mem: Seq<u8>)
    requires
        a.points_at(content, mem),
    ensures
        a.spec_to_vec(mem) == Ok::<Seq<T>, AscError>(content),
{
    crate::encoding::lemma_dec_enc_elems::<T>(content);
    crate::encoding::lemma_enc_elems_len::<T>(content);
}

} // verus!
