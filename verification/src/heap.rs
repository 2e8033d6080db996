//! A verified in-memory heap: the reference implementation of the heap
//! capability, with bump allocation over one byte vector. It backs the
//! test suite; a production host supplies the guest's real linear memory
//! behind the same contract.

use vstd::prelude::*;

use crate::base::AscHeap;
use crate::errors::AscError;
use crate::version::ApiVersion;

verus! {

/// A 32-bit-addressed, grow-only byte memory with a declared API version.
pub struct MemHeap {
    data: Vec<u8>,
    version: ApiVersion,
}

impl MemHeap {
    #[verifier::type_invariant]
    spec fn inv(&self) -> bool {
        self.data@.len() <= u32::MAX
    }

    /// An empty memory for a guest declaring the given version.
    pub fn empty(version: ApiVersion) -> (r: MemHeap)
        ensures
            r.mem() == Seq::<u8>::empty(),
            r.version() == version,
    {
        MemHeap { data: Vec::new(), version }
    }
}

impl AscHeap for MemHeap {
    closed spec fn mem(&self) -> Seq<u8> {
        self.data@
    }

    closed spec fn version(&self) -> ApiVersion {
        self.version
    }

    fn memory_size(&self) -> (r: u32) {
        proof {
            use_type_invariant(self);
        }
        self.data.len() as u32
    }

    fn api_version(&self) -> (r: ApiVersion) {
        self.version
    }

    fn read(&self, offset: u32, length: u32) -> (r: Result<Vec<u8>, AscError>) {
        let end: u64 = offset as u64 + length as u64;
        if end > self.data.len() as u64 {
            return Err(AscError::HeapAccessFault);
        }
        let s = vstd::slice::slice_subrange(
            self.data.as_slice(),
            offset as usize,
            offset as usize + length as usize,
        );
        Ok(vstd::slice::slice_to_vec(s))
    }

    fn raw_new(&mut self, bytes: &[u8]) -> (r: Result<u32, AscError>) {
        proof {
            use_type_invariant(&*self);
        }
        let addr = self.data.len();
        if bytes.len() > (u32::MAX as usize) - addr {
            return Err(AscError::SizeNotFit);
        }
        let mut data: Vec<u8> = Vec::new();
        core::mem::swap(&mut self.data, &mut data);
        let mut i: usize = 0;
        while i < bytes.len()
            invariant
                i <= bytes@.len(),
                addr + bytes@.len() <= u32::MAX,
                data@ == old(self).data@ + bytes@.take(i as int),
                data@.len() == addr + i,
                addr == old(self).data@.len(),
            decreases bytes@.len() - i,
        {
            data.push(bytes[i]);
            proof {
                assert(bytes@.take(i as int + 1) =~= bytes@.take(i as int).push(bytes@[i as int]));
                assert(data@ =~= old(self).data@ + bytes@.take(i as int + 1));
            }
            i = i + 1;
        }
        core::mem::swap(&mut self.data, &mut data);
        proof {
            assert(bytes@.take(bytes@.len() as int) =~= bytes@);
            assert(self.data@.subrange(0, addr as int) =~= old(self).data@);
            assert(self.data@.subrange(addr as int, addr as int + bytes@.len() as int)
                =~= bytes@);
        }
        Ok(addr as u32)
    }
}

} // verus!
