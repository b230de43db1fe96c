//! Access to a guest's linear memory.
//!
//! The host never touches guest memory directly: it goes through a
//! [`MemoryContext`], the injected service that allocates, reads and writes
//! blocks of the guest's bounded address space.  Every operation is fallible
//! — the memory is finite and an address may lie outside it — and the
//! marshaling layer surfaces each failure to its caller.
//!
//! [`LinearMemory`] is a verified implementation of the same interface: a
//! fixed-size byte array with a bump allocator, scoped to a single
//! cross-boundary call.  The guest-side converters use it directly as the
//! guest's own address space; it also serves as a host-side context.

use crate::error::MarshalError;
use vstd::pervasive::VecAdditionalExecFns;
use vstd::prelude::*;

verus! {

/// The contents of `m` after `data` has been written at address `ptr`:
/// the bytes of the block are replaced, everything around them is kept.
pub open spec fn mem_after_write(m: Seq<u8>, ptr: u32, data: Seq<u8>) -> Seq<u8>
    recommends
        ptr as int + data.len() <= m.len(),
{
    m.subrange(0, ptr as int).add(data).add(
        m.subrange(ptr as int + data.len() as int, m.len() as int),
    )
}

/// A bounded linear memory, as one side of the call boundary addresses it.
///
/// `mem()` is the byte content of the whole addressable range, in address
/// order; `inv()` is the implementation's own well-formedness, which every
/// operation preserves.  Reads and writes succeed exactly when they stay
/// inside the addressable range; allocation succeeds exactly when the
/// implementation's own criterion, `can_allocate`, admits it in the current
/// state — the memory is bounded, so refusal is an expected outcome.  The
/// range itself is fixed for the duration of a call.
pub trait MemoryContext: Sized {
    /// Well-formedness of this context, established by its constructor.
    spec fn inv(&self) -> bool;

    /// The bytes of the addressable linear memory.
    spec fn mem(&self) -> Seq<u8>;

    /// Whether allocating a block of `len` bytes succeeds in the current
    /// state.  Each implementation fixes its own criterion; the memory is
    /// bounded, so refusal is a first-class outcome, not a caller error.
    spec fn can_allocate(&self, len: u32) -> bool;

    /// Allocates a block of `len` bytes, succeeding exactly when the
    /// current state admits it.  On success the block lies inside the
    /// addressable range; the contents of memory do not change.
    fn allocate(&mut self, len: u32) -> (r: Result<u32, MarshalError>)
        requires
            old(self).inv(),
        ensures
            final(self).inv(),
            final(self).mem() == old(self).mem(),
            r is Ok <==> old(self).can_allocate(len),
            r matches Ok(ptr) ==> ptr as int + len as int <= old(self).mem().len(),
            r matches Err(e) ==> e == MarshalError::AllocationFailed,
    ;

    /// Writes `data` at address `ptr`, succeeding exactly when the block
    /// lies inside the addressable range; a failed write changes nothing.
    fn write(&mut self, ptr: u32, data: &[u8]) -> (r: Result<(), MarshalError>)
        requires
            old(self).inv(),
        ensures
            final(self).inv(),
            r is Ok <==> ptr as int + data@.len() <= old(self).mem().len(),
            r is Ok ==> final(self).mem() == mem_after_write(old(self).mem(), ptr, data@),
            r is Err ==> final(self).mem() == old(self).mem(),
            r matches Err(e) ==> e == MarshalError::WriteFailed,
    ;

    /// Reads `len` bytes at address `ptr`, succeeding exactly when the block
    /// lies inside the addressable range.
    fn read(&self, ptr: u32, len: u32) -> (r: Result<Vec<u8>, MarshalError>)
        requires
            self.inv(),
        ensures
            r is Ok <==> ptr as int + len as int <= self.mem().len(),
            r matches Ok(v) ==> v@ == self.mem().subrange(ptr as int, ptr as int + len as int),
            r matches Err(e) ==> e == MarshalError::ReadFailed,
    ;

    /// Gives a block back to the allocator.  The bytes of memory stay as
    /// they are: a context is call-scoped, and space is reclaimed when the
    /// whole context is discarded, never while a handle may still refer in.
    fn free(&mut self, ptr: u32) -> (r: Result<(), MarshalError>)
        requires
            old(self).inv(),
        ensures
            final(self).inv(),
            final(self).mem() == old(self).mem(),
    ;
}

/// A guest linear memory of fixed size with a bump allocator.
///
/// Blocks handed out by [`LinearMemory::alloc_block`] are call-scoped:
/// [`LinearMemory::release`] records that the receiver is done with a block,
/// but space is only reclaimed when the memory itself is discarded at the
/// end of the call, so releasing never disturbs bytes that another handle
/// still refers to.
pub struct LinearMemory {
    data: Vec<u8>,
    next_free: usize,
}

impl LinearMemory {
    /// How many bytes of the low end of memory have been handed out.
    pub closed spec fn allocated(&self) -> int {
        self.next_free as int
    }

    /// A fresh memory of `size` zeroed bytes with nothing allocated.
    pub fn new(size: u32) -> (r: LinearMemory)
        ensures
            r.inv(),
            r.mem().len() == size as int,
            forall|j: int| 0 <= j < size as int ==> r.mem()[j] == 0u8,
            r.allocated() == 0,
    {
        let mut data: Vec<u8> = Vec::new();
        let mut i: u32 = 0;
        while i < size
            invariant
                i <= size,
                data@.len() == i as int,
                forall|j: int| 0 <= j < i as int ==> data@[j] == 0u8,
            decreases size - i,
        {
            data.push(0u8);
            i = i + 1;
        }
        LinearMemory { data, next_free: 0 }
    }

    /// Bump allocation: hands out the next `len` bytes, and fails exactly
    /// when fewer than `len` bytes of memory are still unallocated.
    pub fn alloc_block(&mut self, len: u32) -> (r: Result<u32, MarshalError>)
        requires
            old(self).inv(),
        ensures
            final(self).inv(),
            final(self).mem() == old(self).mem(),
            r is Ok <==> old(self).allocated() + len as int <= old(self).mem().len(),
            r matches Ok(ptr)
                ==> ptr as int == old(self).allocated()
                    && final(self).allocated() == old(self).allocated() + len as int,
            r is Err ==> final(self).allocated() == old(self).allocated(),
            r matches Err(e) ==> e == MarshalError::AllocationFailed,
    {
        if (len as usize) <= self.data.len() - self.next_free {
            let ptr = self.next_free;
            self.next_free = self.next_free + (len as usize);
            Ok(ptr as u32)
        } else {
            Err(MarshalError::AllocationFailed)
        }
    }

    /// Writes `data` at `ptr`, succeeding exactly when the block lies inside
    /// the addressable range; a failed write changes nothing.
    pub fn write_at(&mut self, ptr: u32, data: &[u8]) -> (r: Result<(), MarshalError>)
        requires
            old(self).inv(),
        ensures
            final(self).inv(),
            final(self).mem().len() == old(self).mem().len(),
            final(self).allocated() == old(self).allocated(),
            r is Ok <==> ptr as int + data@.len() <= old(self).mem().len(),
            r is Ok ==> final(self).mem() == mem_after_write(old(self).mem(), ptr, data@),
            r is Err ==> final(self).mem() == old(self).mem(),
            r matches Err(e) ==> e == MarshalError::WriteFailed,
    {
        let n = data.len();
        if (ptr as usize) <= self.data.len() && n <= self.data.len() - (ptr as usize) {
            let mut i: usize = 0;
            while i < n
                invariant
                    old(self).inv(),
                    self.inv(),
                    i <= n,
                    n == data@.len(),
                    ptr as int + n as int <= self.data@.len(),
                    self.data@.len() == old(self).data@.len(),
                    self.next_free == old(self).next_free,
                    forall|j: int| 0 <= j < ptr as int ==> self.data@[j] == old(self).data@[j],
                    forall|j: int|
                        ptr as int <= j < ptr as int + i as int
                            ==> self.data@[j] == data@[j - ptr as int],
                    forall|j: int|
                        ptr as int + n as int <= j < self.data@.len() ==> self.data@[j] == old(
                            self,
                        ).data@[j],
                decreases n - i,
            {
                self.data.set((ptr as usize) + i, data[i]);
                i = i + 1;
            }
            proof {
                assert(self.mem() =~= mem_after_write(old(self).mem(), ptr, data@));
            }
            Ok(())
        } else {
            Err(MarshalError::WriteFailed)
        }
    }

    /// Reads `len` bytes at `ptr`, succeeding exactly when the block lies
    /// inside the addressable range.
    pub fn read_at(&self, ptr: u32, len: u32) -> (r: Result<Vec<u8>, MarshalError>)
        requires
            self.inv(),
        ensures
            r is Ok <==> ptr as int + len as int <= self.mem().len(),
            r matches Ok(v) ==> v@ == self.mem().subrange(ptr as int, ptr as int + len as int),
            r matches Err(e) ==> e == MarshalError::ReadFailed,
    {
        if (ptr as usize) <= self.data.len() && (len as usize) <= self.data.len() - (ptr as usize) {
            let mut out: Vec<u8> = Vec::new();
            let mut i: usize = 0;
            while i < (len as usize)
                invariant
                    self.inv(),
                    i <= len as int,
                    ptr as int + len as int <= self.data@.len(),
                    out@.len() == i as int,
                    forall|j: int| 0 <= j < i as int ==> out@[j] == self.data@[ptr as int + j],
                decreases len as int - i as int,
            {
                out.push(self.data[(ptr as usize) + i]);
                i = i + 1;
            }
            proof {
                assert(out@ =~= self.mem().subrange(ptr as int, ptr as int + len as int));
            }
            Ok(out)
        } else {
            Err(MarshalError::ReadFailed)
        }
    }

    /// Marks the block at `ptr` as handed back.  The bytes of memory are
    /// untouched: this memory is a call-scoped arena, and the space is
    /// reclaimed only when the whole memory is discarded.
    pub fn release(&mut self, ptr: u32) -> (r: Result<(), MarshalError>)
        requires
            old(self).inv(),
        ensures
            final(self).inv(),
            final(self).mem() == old(self).mem(),
            final(self).allocated() == old(self).allocated(),
            r is Ok,
    {
        let _ = ptr;
        Ok(())
    }
}

impl MemoryContext for LinearMemory {
    closed spec fn inv(&self) -> bool {
        self.next_free as int <= self.data@.len() && self.data@.len() <= 0xFFFF_FFFF
    }

    closed spec fn mem(&self) -> Seq<u8> {
        self.data@
    }

    open spec fn can_allocate(&self, len: u32) -> bool {
        self.allocated() + len as int <= self.mem().len()
    }

    fn allocate(&mut self, len: u32) -> (r: Result<u32, MarshalError>) {
        self.alloc_block(len)
    }

    fn write(&mut self, ptr: u32, data: &[u8]) -> (r: Result<(), MarshalError>) {
        self.write_at(ptr, data)
    }

    fn read(&self, ptr: u32, len: u32) -> (r: Result<Vec<u8>, MarshalError>) {
        self.read_at(ptr, len)
    }

    fn free(&mut self, ptr: u32) -> (r: Result<(), MarshalError>) {
        self.release(ptr)
    }
}

} // verus!
