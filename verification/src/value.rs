//! Fixed-size element values that arrays in guest memory can hold: the
//! scalar widths and typed pointers, each with its exact little-endian
//! byte encoding.

use vstd::prelude::*;

use crate::base::AscPtr;
use crate::errors::AscError;
use vstd::bytes::lemma_auto_spec_u16_to_from_le_bytes;
use vstd::bytes::lemma_auto_spec_u32_to_from_le_bytes;
use vstd::bytes::lemma_auto_spec_u64_to_from_le_bytes;
use vstd::bytes::spec_u16_from_le_bytes;
use vstd::bytes::spec_u16_to_le_bytes;
use vstd::bytes::spec_u32_from_le_bytes;
use vstd::bytes::spec_u32_to_le_bytes;
use vstd::bytes::spec_u64_from_le_bytes;
use vstd::bytes::spec_u64_to_le_bytes;
use vstd::bytes::u16_from_le_bytes;
use vstd::bytes::u16_to_le_bytes;
use vstd::bytes::u32_from_le_bytes;
use vstd::bytes::u32_to_le_bytes;
use vstd::bytes::u64_from_le_bytes;
use vstd::bytes::u64_to_le_bytes;

verus! {

/// A fixed-size array element: it occupies exactly `elem_size()` bytes in
/// guest memory, encodes deterministically, and decoding its own encoding
/// gives the value back.
pub trait AscValue: Sized + Copy {
    /// How many bytes one element occupies.
    spec fn elem_size() -> nat;

    /// The exact bytes one element encodes to.
    spec fn enc1(self) -> Seq<u8>;

    /// The exact result of decoding `elem_size()` bytes into one element.
    spec fn dec1(b: Seq<u8>) -> Result<Self, AscError>;

    /// Elements are scalars or pointers: between one and eight bytes.
    proof fn lemma_elem_size_pos()
        ensures
            0 < Self::elem_size() <= 8,
    ;

    proof fn lemma_enc1_len(self)
        ensures
            self.enc1().len() == Self::elem_size(),
    ;

    /// Round trip for a single element.
    proof fn lemma_enc1_dec1(self)
        ensures
            Self::dec1(self.enc1()) == Ok::<Self, AscError>(self),
    ;

    fn asc_size() -> (r: usize)
        ensures
            r == Self::elem_size(),
    ;

    /// Appends this element's encoding to `out`.
    fn append_to(self, out: &mut Vec<u8>)
        requires
            old(out)@.len() + Self::elem_size() <= usize::MAX,
        ensures
            final(out)@ == old(out)@ + self.enc1(),
    ;

    /// Decodes one element from exactly `elem_size()` bytes.
    fn read_from(b: &[u8]) -> (r: Result<Self, AscError>)
        requires
            b@.len() == Self::elem_size(),
        ensures
            r == Self::dec1(b@),
    ;
}

impl AscValue for u8 {
    open spec fn elem_size() -> nat {
        1
    }

    open spec fn enc1(self) -> Seq<u8> {
        seq![self]
    }

    open spec fn dec1(b: Seq<u8>) -> Result<u8, AscError> {
        Ok(b[0])
    }

    proof fn lemma_elem_size_pos() {
    }

    proof fn lemma_enc1_len(self) {
    }

    proof fn lemma_enc1_dec1(self) {
    }

    fn asc_size() -> (r: usize) {
        1
    }

    fn append_to(self, out: &mut Vec<u8>) {
        out.push(self);
    }

    fn read_from(b: &[u8]) -> (r: Result<u8, AscError>) {
        Ok(b[0])
    }
}

impl AscValue for u16 {
    open spec fn elem_size() -> nat {
        2
    }

    open spec fn enc1(self) -> Seq<u8> {
        spec_u16_to_le_bytes(self)
    }

    open spec fn dec1(b: Seq<u8>) -> Result<u16, AscError> {
        Ok(spec_u16_from_le_bytes(b))
    }

    proof fn lemma_elem_size_pos() {
    }

    proof fn lemma_enc1_len(self) {
        lemma_auto_spec_u16_to_from_le_bytes();
    }

    proof fn lemma_enc1_dec1(self) {
        lemma_auto_spec_u16_to_from_le_bytes();
        assert(spec_u16_to_le_bytes(self).len() == 2);
    }

    fn asc_size() -> (r: usize) {
        2
    }

    fn append_to(self, out: &mut Vec<u8>) {
        let mut bs = u16_to_le_bytes(self);
        out.append(&mut bs);
    }

    fn read_from(b: &[u8]) -> (r: Result<u16, AscError>) {
        Ok(u16_from_le_bytes(b))
    }
}

impl AscValue for u32 {
    open spec fn elem_size() -> nat {
        4
    }

    open spec fn enc1(self) -> Seq<u8> {
        spec_u32_to_le_bytes(self)
    }

    open spec fn dec1(b: Seq<u8>) -> Result<u32, AscError> {
        Ok(spec_u32_from_le_bytes(b))
    }

    proof fn lemma_elem_size_pos() {
    }

    proof fn lemma_enc1_len(self) {
        lemma_auto_spec_u32_to_from_le_bytes();
    }

    proof fn lemma_enc1_dec1(self) {
        lemma_auto_spec_u32_to_from_le_bytes();
        assert(spec_u32_to_le_bytes(self).len() == 4);
    }

    fn asc_size() -> (r: usize) {
        4
    }

    fn append_to(self, out: &mut Vec<u8>) {
        let mut bs = u32_to_le_bytes(self);
        out.append(&mut bs);
    }

    fn read_from(b: &[u8]) -> (r: Result<u32, AscError>) {
        Ok(u32_from_le_bytes(b))
    }
}

impl AscValue for u64 {
    open spec fn elem_size() -> nat {
        8
    }

    open spec fn enc1(self) -> Seq<u8> {
        spec_u64_to_le_bytes(self)
    }

    open spec fn dec1(b: Seq<u8>) -> Result<u64, AscError> {
        Ok(spec_u64_from_le_bytes(b))
    }

    proof fn lemma_elem_size_pos() {
    }

    proof fn lemma_enc1_len(self) {
        lemma_auto_spec_u64_to_from_le_bytes();
    }

    proof fn lemma_enc1_dec1(self) {
        lemma_auto_spec_u64_to_from_le_bytes();
        assert(spec_u64_to_le_bytes(self).len() == 8);
    }

    fn asc_size() -> (r: usize) {
        8
    }

    fn append_to(self, out: &mut Vec<u8>) {
        let mut bs = u64_to_le_bytes(self);
        out.append(&mut bs);
    }

    fn read_from(b: &[u8]) -> (r: Result<u64, AscError>) {
        Ok(u64_from_le_bytes(b))
    }
}

impl AscValue for i8 {
    open spec fn elem_size() -> nat {
        1
    }

    open spec fn enc1(self) -> Seq<u8> {
        seq![self as u8]
    }

    open spec fn dec1(b: Seq<u8>) -> Result<i8, AscError> {
        Ok(b[0] as i8)
    }

    proof fn lemma_elem_size_pos() {
    }

    proof fn lemma_enc1_len(self) {
    }

    proof fn lemma_enc1_dec1(self) {
        assert((self as u8) as i8 == self) by (bit_vector);
    }

    fn asc_size() -> (r: usize) {
        1
    }

    fn append_to(self, out: &mut Vec<u8>) {
        out.push(self as u8);
    }

    fn read_from(b: &[u8]) -> (r: Result<i8, AscError>) {
        Ok(b[0] as i8)
    }
}

impl AscValue for i16 {
    open spec fn elem_size() -> nat {
        2
    }

    open spec fn enc1(self) -> Seq<u8> {
        spec_u16_to_le_bytes(self as u16)
    }

    open spec fn dec1(b: Seq<u8>) -> Result<i16, AscError> {
        Ok(spec_u16_from_le_bytes(b) as i16)
    }

    proof fn lemma_elem_size_pos() {
    }

    proof fn lemma_enc1_len(self) {
        lemma_auto_spec_u16_to_from_le_bytes();
        assert(spec_u16_to_le_bytes(self as u16).len() == 2);
    }

    proof fn lemma_enc1_dec1(self) {
        lemma_auto_spec_u16_to_from_le_bytes();
        assert(spec_u16_to_le_bytes(self as u16).len() == 2);
        let x = self;
        assert((x as u16) as i16 == x) by (bit_vector);
    }

    fn asc_size() -> (r: usize) {
        2
    }

    fn append_to(self, out: &mut Vec<u8>) {
        let mut bs = u16_to_le_bytes(self as u16);
        out.append(&mut bs);
    }

    fn read_from(b: &[u8]) -> (r: Result<i16, AscError>) {
        Ok(u16_from_le_bytes(b) as i16)
    }
}

impl AscValue for i32 {
    open spec fn elem_size() -> nat {
        4
    }

    open spec fn enc1(self) -> Seq<u8> {
        spec_u32_to_le_bytes(self as u32)
    }

    open spec fn dec1(b: Seq<u8>) -> Result<i32, AscError> {
        Ok(spec_u32_from_le_bytes(b) as i32)
    }

    proof fn lemma_elem_size_pos() {
    }

    proof fn lemma_enc1_len(self) {
        lemma_auto_spec_u32_to_from_le_bytes();
        assert(spec_u32_to_le_bytes(self as u32).len() == 4);
    }

    proof fn lemma_enc1_dec1(self) {
        lemma_auto_spec_u32_to_from_le_bytes();
        assert(spec_u32_to_le_bytes(self as u32).len() == 4);
        let x = self;
        assert((x as u32) as i32 == x) by (bit_vector);
    }

    fn asc_size() -> (r: usize) {
        4
    }

    fn append_to(self, out: &mut Vec<u8>) {
        let mut bs = u32_to_le_bytes(self as u32);
        out.append(&mut bs);
    }

    fn read_from(b: &[u8]) -> (r: Result<i32, AscError>) {
        Ok(u32_from_le_bytes(b) as i32)
    }
}

impl AscValue for i64 {
    open spec fn elem_size() -> nat {
        8
    }

    open spec fn enc1(self) -> Seq<u8> {
        spec_u64_to_le_bytes(self as u64)
    }

    open spec fn dec1(b: Seq<u8>) -> Result<i64, AscError> {
        Ok(spec_u64_from_le_bytes(b) as i64)
    }

    proof fn lemma_elem_size_pos() {
    }

    proof fn lemma_enc1_len(self) {
        lemma_auto_spec_u64_to_from_le_bytes();
        assert(spec_u64_to_le_bytes(self as u64).len() == 8);
    }

    proof fn lemma_enc1_dec1(self) {
        lemma_auto_spec_u64_to_from_le_bytes();
        assert(spec_u64_to_le_bytes(self as u64).len() == 8);
        let x = self;
        assert((x as u64) as i64 == x) by (bit_vector);
    }

    fn asc_size() -> (r: usize) {
        8
    }

    fn append_to(self, out: &mut Vec<u8>) {
        let mut bs = u64_to_le_bytes(self as u64);
        out.append(&mut bs);
    }

    fn read_from(b: &[u8]) -> (r: Result<i64, AscError>) {
        Ok(u64_from_le_bytes(b) as i64)
    }
}

impl AscValue for bool {
    open spec fn elem_size() -> nat {
        1
    }

    open spec fn enc1(self) -> Seq<u8> {
        seq![if self { 1u8 } else { 0u8 }]
    }

    open spec fn dec1(b: Seq<u8>) -> Result<bool, AscError> {
        if b[0] == 0 {
            Ok(false)
        } else if b[0] == 1 {
            Ok(true)
        } else {
            Err(AscError::IncorrectBool(b[0] as usize))
        }
    }

    proof fn lemma_elem_size_pos() {
    }

    proof fn lemma_enc1_len(self) {
    }

    proof fn lemma_enc1_dec1(self) {
    }

    fn asc_size() -> (r: usize) {
        1
    }

    fn append_to(self, out: &mut Vec<u8>) {
        out.push(if self { 1u8 } else { 0u8 });
    }

    fn read_from(b: &[u8]) -> (r: Result<bool, AscError>) {
        let x = b[0];
        if x == 0 {
            Ok(false)
        } else if x == 1 {
            Ok(true)
        } else {
            Err(AscError::IncorrectBool(x as usize))
        }
    }
}

impl<T> AscValue for AscPtr<T> {
    open spec fn elem_size() -> nat {
        4
    }

    open spec fn enc1(self) -> Seq<u8> {
        spec_u32_to_le_bytes(self.spec_addr())
    }

    open spec fn dec1(b: Seq<u8>) -> Result<AscPtr<T>, AscError> {
        Ok(AscPtr::<T>::spec_new(spec_u32_from_le_bytes(b)))
    }

    proof fn lemma_elem_size_pos() {
    }

    proof fn lemma_enc1_len(self) {
        lemma_auto_spec_u32_to_from_le_bytes();
    }

    proof fn lemma_enc1_dec1(self) {
        lemma_auto_spec_u32_to_from_le_bytes();
        assert(spec_u32_to_le_bytes(self.spec_addr()).len() == 4);
        let back = spec_u32_from_le_bytes(spec_u32_to_le_bytes(self.spec_addr()));
        AscPtr::<T>::lemma_spec_new_addr(back);
        AscPtr::<T>::lemma_addr_injective(AscPtr::<T>::spec_new(back), self);
    }

    fn asc_size() -> (r: usize) {
        4
    }

    fn append_to(self, out: &mut Vec<u8>) {
        let mut bs = u32_to_le_bytes(self.wasm_ptr());
        out.append(&mut bs);
    }

    fn read_from(b: &[u8]) -> (r: Result<AscPtr<T>, AscError>) {
        Ok(AscPtr::new(u32_from_le_bytes(b)))
    }
}

} // verus!
