//! Typed handles on blocks of host memory, and the guard of a lock.
//!
//! A handle says how a block is to be read and who gives it back: an owning
//! handle frees its block when it is disposed of, a borrowing one leaves the
//! block to the host. Neither is done behind the caller's back: a handle is
//! surrendered with [`Handle::into_raw`] or ended with [`Handle::dispose`],
//! and a guard gives its value back with [`Guard::release`].

use crate::error::Error;
use crate::memory::{
    block_at, exhausted, lock_step, lowest_free, no_new_locks, unlock_step, with_block,
    BlockState, HostMemory, RawPtr,
};
use vstd::prelude::*;

verus! {

/// A typed view of one live block of host memory.
pub struct Handle<T> {
    ptr: RawPtr,
    owning: bool,
    marker: core::marker::PhantomData<T>,
}

/// Exclusive access to the value of a locked block. The value is in the
/// guard until [`Guard::release`] gives it back.
pub struct Guard<T> {
    ptr: RawPtr,
    value: T,
}

/// A view of one flat block of host memory.
pub struct FlatHandle {
    ptr: RawPtr,
}

impl<T> Handle<T> {
    /// The address of the block.
    pub closed spec fn ptr(&self) -> RawPtr {
        self.ptr
    }

    /// Whether disposing of the handle frees the block.
    pub closed spec fn owning(&self) -> bool {
        self.owning
    }

    /// Moves a value into a new block and returns an owning handle on it.
    ///
    /// Fails with [`Error::AllocationFailed`] where the host has no block
    /// left; the memory is then unchanged.
    pub fn wrap(memory: &mut HostMemory<T>, value: T) -> (r: Result<Handle<T>, Error>)
        ensures
            r is Err <==> exhausted(old(memory)@),
            r matches Err(e) ==> e == Error::AllocationFailed && final(memory)@ == old(memory)@,
            r matches Ok(handle) ==> {
                &&& handle.owning()
                &&& handle.ptr().addr != 0
                &&& lowest_free(old(memory)@, handle.ptr())
                &&& final(memory)@ == with_block(
                    old(memory)@,
                    handle.ptr(),
                    BlockState::Live(value),
                )
            },
    {
        match memory.allocate(value) {
            Ok(ptr) => Ok(Handle { ptr, owning: true, marker: core::marker::PhantomData }),
            Err(e) => Err(e),
        }
    }

    /// Adopts a block that exists already. A null pointer is refused with
    /// [`Error::NullHandle`]; any other pointer is taken as it is.
    pub fn from_raw(ptr: RawPtr, owning: bool) -> (r: Result<Handle<T>, Error>)
        ensures
            ptr.addr == 0 ==> (r matches Err(e) && e == Error::NullHandle),
            ptr.addr != 0 ==> (r matches Ok(handle) && handle.ptr() == ptr && handle.owning()
                == owning),
    {
        if ptr.is_null() {
            Err(Error::NullHandle)
        } else {
            Ok(Handle { ptr, owning, marker: core::marker::PhantomData })
        }
    }

    /// The address of the block; the handle stays in charge.
    pub fn as_raw(&self) -> (ptr: RawPtr)
        ensures
            ptr == self.ptr(),
    {
        self.ptr
    }

    /// Whether disposing of the handle frees the block.
    pub fn is_owning(&self) -> (b: bool)
        ensures
            b == self.owning(),
    {
        self.owning
    }

    /// Locks the block and returns a guard that holds its value.
    ///
    /// Fails with [`Error::LockFailed`] where the block is locked already or
    /// is no live block; the memory is then unchanged. A failed lock is
    /// never tried again here.
    pub fn lock(&self, memory: &mut HostMemory<T>) -> (r: Result<Guard<T>, Error>)
        ensures
            match lock_step(old(memory)@, self.ptr()) {
                Some((value, blocks)) => {
                    &&& r matches Ok(guard)
                    &&& guard.ptr() == self.ptr()
                    &&& guard.value() == value
                    &&& final(memory)@ == blocks
                },
                None => {
                    &&& r matches Err(e)
                    &&& e == Error::LockFailed
                    &&& final(memory)@ == old(memory)@
                },
            },
    {
        match memory.lock(self.ptr) {
            Ok(value) => Ok(Guard { ptr: self.ptr, value }),
            Err(e) => Err(e),
        }
    }

    /// Surrenders the block to the host and returns its address. Nothing is
    /// freed, now or later.
    pub fn into_raw(self) -> (ptr: RawPtr)
        ensures
            ptr == self.ptr(),
    {
        self.ptr
    }

    /// Ends the handle: an owning handle frees its block, a borrowing one
    /// leaves the memory as it is.
    pub fn dispose(self, memory: &mut HostMemory<T>)
        ensures
            final(memory)@ == if self.owning() {
                with_block(old(memory)@, self.ptr(), BlockState::Free)
            } else {
                old(memory)@
            },
    {
        if self.owning {
            memory.free(self.ptr);
        }
    }
}

impl<T> Guard<T> {
    /// The address of the locked block.
    pub closed spec fn ptr(&self) -> RawPtr {
        self.ptr
    }

    /// The value of the locked block, as it is now.
    pub closed spec fn value(&self) -> T {
        self.value
    }

    /// Reads the value.
    pub fn get(&self) -> (value: &T)
        ensures
            *value == self.value(),
    {
        &self.value
    }

    /// Lends the value for change. The guard stays on the same block.
    pub fn get_mut(&mut self) -> (value: &mut T)
        ensures
            *value == old(self).value(),
            final(self).value() == *final(value),
            final(self).ptr() == old(self).ptr(),
        no_unwind
    {
        &mut self.value
    }

    /// Gives the value back and unlocks the block.
    pub fn release(self, memory: &mut HostMemory<T>)
        ensures
            final(memory)@ == unlock_step(old(memory)@, self.ptr(), self.value()),
    {
        memory.unlock(self.ptr, self.value)
    }

    /// Takes the value out for good. The block stays locked until its owner
    /// frees it.
    pub fn into_inner(self) -> (value: T)
        ensures
            value == self.value(),
    {
        self.value
    }
}

impl FlatHandle {
    /// The address of the block.
    pub closed spec fn ptr(&self) -> RawPtr {
        self.ptr
    }

    /// Moves bytes into a new flat block.
    ///
    /// Fails with [`Error::AllocationFailed`] where the host has no block
    /// left; the memory is then unchanged.
    pub fn new<T>(memory: &mut HostMemory<T>, bytes: Vec<u8>) -> (r: Result<FlatHandle, Error>)
        ensures
            r is Err <==> exhausted(old(memory)@),
            r matches Err(e) ==> e == Error::AllocationFailed && final(memory)@ == old(memory)@,
            r matches Ok(handle) ==> {
                &&& handle.ptr().addr != 0
                &&& lowest_free(old(memory)@, handle.ptr())
                &&& final(memory)@ == with_block(
                    old(memory)@,
                    handle.ptr(),
                    BlockState::Flat(bytes@),
                )
            },
    {
        match memory.allocate_flat(bytes) {
            Ok(ptr) => Ok(FlatHandle { ptr }),
            Err(e) => Err(e),
        }
    }

    /// Adopts a flat block that exists already. A null pointer is refused
    /// with [`Error::NullHandle`].
    pub fn from_raw(ptr: RawPtr) -> (r: Result<FlatHandle, Error>)
        ensures
            ptr.addr == 0 ==> (r matches Err(e) && e == Error::NullHandle),
            ptr.addr != 0 ==> (r matches Ok(handle) && handle.ptr() == ptr),
    {
        if ptr.is_null() {
            Err(Error::NullHandle)
        } else {
            Ok(FlatHandle { ptr })
        }
    }

    /// The bytes of the block, or nothing where the block is not flat.
    pub fn as_slice<'a, T>(&self, memory: &'a HostMemory<T>) -> (r: Option<&'a [u8]>)
        ensures
            match block_at(memory@, self.ptr()) {
                BlockState::Flat(bytes) => r matches Some(slice) && slice@ == bytes,
                _ => r is None,
            },
    {
        memory.flat_bytes(self.ptr)
    }

    /// Surrenders the block to the host and returns its address.
    pub fn into_raw(self) -> (ptr: RawPtr)
        ensures
            ptr == self.ptr(),
    {
        self.ptr
    }
}

/// Of two locks on one block only the first succeeds: once a block is
/// locked, locking it again fails until the value is given back.
pub proof fn lemma_lock_is_exclusive<T>(blocks: Seq<BlockState<T>>, ptr: RawPtr)
    ensures
        lock_step(blocks, ptr) matches Some((_, locked)) ==> lock_step(locked, ptr) is None,
{
}

/// Giving back what a lock handed out leaves the memory as it was before
/// the lock.
pub proof fn lemma_release_undoes_lock<T>(blocks: Seq<BlockState<T>>, ptr: RawPtr)
    ensures
        lock_step(blocks, ptr) matches Some((value, locked)) ==> unlock_step(locked, ptr, value)
            == blocks,
{
    match lock_step(blocks, ptr) {
        Some((value, locked)) => {
            assert(unlock_step(locked, ptr, value) =~= blocks);
        },
        None => {},
    }
}

/// A lock that was taken and given back, with whatever value, leaves no
/// block locked that was not locked before, and changes no other block.
pub proof fn lemma_lock_then_release<T>(blocks: Seq<BlockState<T>>, ptr: RawPtr, value: T)
    ensures
        lock_step(blocks, ptr) matches Some((_, locked)) ==> {
            &&& unlock_step(locked, ptr, value) == with_block(blocks, ptr, BlockState::Live(value))
            &&& no_new_locks(blocks, unlock_step(locked, ptr, value))
        },
{
    match lock_step(blocks, ptr) {
        Some((_, locked)) => {
            let after = unlock_step(locked, ptr, value);
            assert(after =~= with_block(blocks, ptr, BlockState::Live(value)));
            assert forall|q: RawPtr| #[trigger] block_at(after, q) is Locked implies block_at(
                blocks,
                q,
            ) is Locked by {}
        },
        None => {},
    }
}

} // verus!
