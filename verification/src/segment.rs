//! One process's view of a named shared-memory segment: the identifier,
//! the fixed capacity, the region's bytes, and whether this instance
//! created the named object and so must remove it on teardown.
//!
//! The view carries the region as plain bytes. An OS backend keeps the view
//! in step with the shared mapping: it copies the view's region out after
//! every write and loads a snapshot of the mapping (`load_region`) before
//! every read, so that bytes written by another process become visible here.

use vstd::prelude::*;
use vstd::utf8::{decode_utf8, encode_utf8, valid_utf8};
use crate::errors::ShmError;
use crate::region::{store_payload, trim_spec, trim_trailing_zeros, zero_padded};
use crate::text::{decode_lossy, utf8_lossy_of};

verus! {

/// A fixed-capacity, named byte region as one process sees it.
pub struct SharedMemory {
    name: String,
    size: i32,
    region: Vec<u8>,
    is_creator: bool,
}

impl SharedMemory {
    /// The capacity is positive and the region holds exactly that many bytes.
    pub closed spec fn wf(&self) -> bool {
        0 < self.size && self.region@.len() == self.size as int
    }

    /// The identifier of the named OS object this view is attached to.
    pub closed spec fn spec_name(&self) -> Seq<char> {
        self.name@
    }

    /// The configured byte capacity.
    pub closed spec fn spec_size(&self) -> int {
        self.size as int
    }

    /// The bytes of the region as this view holds them.
    pub closed spec fn contents(&self) -> Seq<u8> {
        self.region@
    }

    /// Whether this instance created the named object and owes its removal.
    pub closed spec fn created_here(&self) -> bool {
        self.is_creator
    }

    /// A well-formed view has a positive capacity and exactly that many bytes.
    pub proof fn lemma_wf(&self)
        requires
            self.wf(),
        ensures
            0 < self.spec_size(),
            self.contents().len() == self.spec_size(),
    {
    }

    /// Builds the creator's view of a fresh segment: `size` zeroed bytes,
    /// exactly as the OS hands a newly created object back. Rejects a
    /// capacity that is not positive.
    pub fn create(name: String, size: i32) -> (r: Result<SharedMemory, ShmError>)
        ensures
            size <= 0 ==> r == Err::<SharedMemory, ShmError>(ShmError::InvalidArgument),
            size > 0 ==> (r matches Ok(seg)
                && seg.wf()
                && seg.spec_name() == name@
                && seg.spec_size() == size as int
                && seg.created_here()
                && seg.contents() == zero_padded(Seq::<u8>::empty(), size as nat)),
    {
        if size <= 0 {
            return Err(ShmError::InvalidArgument);
        }
        let region = zeroed_region(size as usize);
        Ok(SharedMemory { name, size, region, is_creator: true })
    }

    /// Builds an opener's view of an existing segment under the
    /// caller-supplied capacity. The view starts zeroed; the backend must
    /// load a snapshot of the shared bytes (`load_region`) once the mapping
    /// is in place. Rejects a capacity that is not positive.
    pub fn open(name: String, size: i32) -> (r: Result<SharedMemory, ShmError>)
        ensures
            size <= 0 ==> r == Err::<SharedMemory, ShmError>(ShmError::InvalidArgument),
            size > 0 ==> (r matches Ok(seg)
                && seg.wf()
                && seg.spec_name() == name@
                && seg.spec_size() == size as int
                && !seg.created_here()
                && seg.contents() == zero_padded(Seq::<u8>::empty(), size as nat)),
    {
        if size <= 0 {
            return Err(ShmError::InvalidArgument);
        }
        let region = zeroed_region(size as usize);
        Ok(SharedMemory { name, size, region, is_creator: false })
    }

    /// The configured byte capacity.
    pub fn size(&self) -> (s: i32)
        ensures
            s as int == self.spec_size(),
    {
        self.size
    }

    /// The identifier, returned without consuming or invalidating it: the
    /// call is repeatable.
    pub fn name(&self) -> (n: String)
        ensures
            n@ == self.spec_name(),
    {
        self.name.clone()
    }

    /// Whether this instance created the named object.
    pub fn is_creator(&self) -> (b: bool)
        ensures
            b == self.created_here(),
    {
        self.is_creator
    }

    /// The region's bytes, for a backend to copy into the shared mapping.
    pub fn bytes(&self) -> (r: &Vec<u8>)
        ensures
            r@ == self.contents(),
    {
        &self.region
    }

    /// Replaces the view's bytes with a snapshot of the shared mapping, as
    /// a backend reads it after mapping or before a read. A snapshot of the
    /// wrong length is rejected and changes nothing.
    pub fn load_region(&mut self, snapshot: &[u8]) -> (r: Result<(), ShmError>)
        requires
            old(self).wf(),
        ensures
            final(self).wf(),
            final(self).spec_name() == old(self).spec_name(),
            final(self).spec_size() == old(self).spec_size(),
            final(self).created_here() == old(self).created_here(),
            snapshot@.len() == old(self).spec_size() ==> r is Ok && final(self).contents()
                == snapshot@,
            snapshot@.len() != old(self).spec_size() ==> r == Err::<(), ShmError>(
                ShmError::InvalidArgument,
            ) && final(self).contents() == old(self).contents(),
    {
        if snapshot.len() != self.size as usize {
            return Err(ShmError::InvalidArgument);
        }
        let mut fresh: Vec<u8> = Vec::new();
        let mut i: usize = 0;
        while i < snapshot.len()
            invariant
                i <= snapshot@.len(),
                fresh@.len() == i,
                forall|j: int| 0 <= j < i ==> fresh@[j] == snapshot@[j],
            decreases snapshot@.len() - i,
        {
            fresh.push(snapshot[i]);
            i = i + 1;
        }
        proof {
            assert(fresh@ =~= snapshot@);
        }
        self.region = fresh;
        Ok(())
    }

    /// Writes the payload at offset zero and zero-fills every byte after it,
    /// establishing the trailing-zero convention `read_data` depends on. A
    /// payload larger than the capacity changes nothing and reports
    /// `TooLarge`: the write never partially lands.
    pub fn write_data(&mut self, data: &[u8]) -> (r: Result<(), ShmError>)
        requires
            old(self).wf(),
        ensures
            final(self).wf(),
            final(self).spec_name() == old(self).spec_name(),
            final(self).spec_size() == old(self).spec_size(),
            final(self).created_here() == old(self).created_here(),
            data@.len() <= old(self).spec_size() ==> r is Ok && final(self).contents()
                == zero_padded(data@, old(self).spec_size() as nat),
            data@.len() > old(self).spec_size() ==> r == Err::<(), ShmError>(ShmError::TooLarge)
                && final(self).contents() == old(self).contents(),
    {
        store_payload(&mut self.region, data)
    }

    /// Reads the payload back: the region's bytes with every trailing zero
    /// byte dropped, empty when the whole region is zero. Payloads that
    /// legitimately end in zero bytes cannot be distinguished from shorter
    /// ones; that is the convention's documented limitation.
    pub fn read_data(&self) -> (out: Vec<u8>)
        ensures
            out@ == trim_spec(self.contents()),
    {
        trim_trailing_zeros(self.region.as_slice())
    }

    /// Encodes the text as UTF-8 and writes it under the byte convention.
    pub fn write_string(&mut self, data: &str) -> (r: Result<(), ShmError>)
        requires
            old(self).wf(),
        ensures
            final(self).wf(),
            final(self).spec_name() == old(self).spec_name(),
            final(self).spec_size() == old(self).spec_size(),
            final(self).created_here() == old(self).created_here(),
            encode_utf8(data@).len() <= old(self).spec_size() ==> r is Ok && final(self).contents()
                == zero_padded(encode_utf8(data@), old(self).spec_size() as nat),
            encode_utf8(data@).len() > old(self).spec_size() ==> r == Err::<(), ShmError>(
                ShmError::TooLarge,
            ) && final(self).contents() == old(self).contents(),
    {
        self.write_data(data.as_bytes())
    }

    /// Reads the trimmed payload and decodes it as UTF-8, lossily: invalid
    /// sequences are replaced, the call never fails.
    pub fn read_string(&self) -> (out: String)
        ensures
            out@ == utf8_lossy_of(trim_spec(self.contents())),
            valid_utf8(trim_spec(self.contents())) ==> out@ == decode_utf8(
                trim_spec(self.contents()),
            ),
    {
        let payload = self.read_data();
        decode_lossy(payload.as_slice())
    }
}

/// A region of `capacity` zero bytes.
fn zeroed_region(capacity: usize) -> (v: Vec<u8>)
    ensures
        v@ == zero_padded(Seq::<u8>::empty(), capacity as nat),
{
    let mut v: Vec<u8> = Vec::new();
    while v.len() < capacity
        invariant
            v@.len() <= capacity,
            forall|j: int| 0 <= j < v@.len() ==> v@[j] == 0,
        decreases capacity - v@.len(),
    {
        v.push(0);
    }
    proof {
        assert(v@ =~= zero_padded(Seq::<u8>::empty(), capacity as nat));
    }
    v
}

} // verus!
