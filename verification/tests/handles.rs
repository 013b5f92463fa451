use after_effects::error::Error;
use after_effects::handle::{FlatHandle, Handle};
use after_effects::memory::{BlockKind, HostMemory, RawPtr};

fn at(addr: usize) -> RawPtr {
    RawPtr { addr }
}

#[test]
fn null_is_address_zero() {
    assert!(RawPtr::null().is_null());
    assert_eq!(RawPtr::null(), at(0));
    assert!(!at(1).is_null());
}

#[test]
fn a_new_memory_is_all_free() {
    let memory: HostMemory<u32> = HostMemory::new(3);
    assert_eq!(memory.limit(), 3);
    for addr in 0..6 {
        assert_eq!(memory.kind(at(addr)), BlockKind::Free);
    }
}

#[test]
fn wrap_takes_the_lowest_free_block() {
    let mut memory: HostMemory<u32> = HostMemory::new(3);
    let a = Handle::wrap(&mut memory, 10).unwrap();
    let b = Handle::wrap(&mut memory, 20).unwrap();
    assert!(a.is_owning());
    assert_eq!(a.as_raw(), at(1));
    assert_eq!(b.as_raw(), at(2));
    assert_eq!(memory.kind(at(1)), BlockKind::Live);
    assert_eq!(memory.kind(at(2)), BlockKind::Live);
    assert_eq!(memory.kind(at(3)), BlockKind::Free);
    a.dispose(&mut memory);
    assert_eq!(memory.kind(at(1)), BlockKind::Free);
    let c = Handle::wrap(&mut memory, 30).unwrap();
    assert_eq!(c.as_raw(), at(1));
    assert_eq!(c.lock(&mut memory).unwrap().into_inner(), 30);
    assert_eq!(b.into_raw(), at(2));
}

#[test]
fn wrap_fails_when_the_host_is_exhausted() {
    let mut memory: HostMemory<u8> = HostMemory::new(2);
    let a = Handle::wrap(&mut memory, 1).unwrap();
    let _b = Handle::wrap(&mut memory, 2).unwrap();
    assert_eq!(Handle::wrap(&mut memory, 3).err(), Some(Error::AllocationFailed));
    assert_eq!(FlatHandle::new(&mut memory, vec![1]).err(), Some(Error::AllocationFailed));
    a.dispose(&mut memory);
    assert_eq!(Handle::wrap(&mut memory, 4).unwrap().into_raw(), at(1));
    let mut none: HostMemory<u8> = HostMemory::new(0);
    assert_eq!(Handle::wrap(&mut none, 1).err(), Some(Error::AllocationFailed));
}

#[test]
fn from_raw_refuses_null_only() {
    assert_eq!(Handle::<u8>::from_raw(RawPtr::null(), false).err(), Some(Error::NullHandle));
    assert_eq!(Handle::<u8>::from_raw(RawPtr::null(), true).err(), Some(Error::NullHandle));
    let handle = Handle::<u8>::from_raw(at(9), true).unwrap();
    assert_eq!(handle.as_raw(), at(9));
    assert!(handle.is_owning());
    assert!(!Handle::<u8>::from_raw(at(9), false).unwrap().is_owning());
    assert_eq!(FlatHandle::from_raw(RawPtr::null()).err(), Some(Error::NullHandle));
    assert_eq!(FlatHandle::from_raw(at(4)).unwrap().into_raw(), at(4));
}

#[test]
fn of_two_locks_only_the_first_succeeds() {
    let mut memory: HostMemory<u32> = HostMemory::new(2);
    let ptr = Handle::wrap(&mut memory, 5).unwrap().into_raw();
    let first = Handle::<u32>::from_raw(ptr, false).unwrap();
    let second = Handle::<u32>::from_raw(ptr, false).unwrap();
    let guard = first.lock(&mut memory).unwrap();
    assert_eq!(memory.kind(ptr), BlockKind::Locked);
    assert_eq!(second.lock(&mut memory).err(), Some(Error::LockFailed));
    assert_eq!(first.lock(&mut memory).err(), Some(Error::LockFailed));
    assert_eq!(memory.kind(ptr), BlockKind::Locked);
    guard.release(&mut memory);
    assert_eq!(memory.kind(ptr), BlockKind::Live);
    let again = second.lock(&mut memory).unwrap();
    assert_eq!(*again.get(), 5);
    again.release(&mut memory);
}

#[test]
fn a_guard_gives_back_what_was_changed() {
    let mut memory: HostMemory<Vec<u8>> = HostMemory::new(1);
    let handle = Handle::wrap(&mut memory, vec![1]).unwrap();
    let mut guard = handle.lock(&mut memory).unwrap();
    guard.get_mut().push(2);
    assert_eq!(guard.get(), &vec![1, 2]);
    guard.release(&mut memory);
    let guard = handle.lock(&mut memory).unwrap();
    assert_eq!(guard.into_inner(), vec![1, 2]);
    assert_eq!(memory.kind(handle.as_raw()), BlockKind::Locked);
    handle.dispose(&mut memory);
    assert_eq!(memory.kind(at(1)), BlockKind::Free);
}

#[test]
fn what_is_not_a_live_block_cannot_be_locked() {
    let mut memory: HostMemory<u32> = HostMemory::new(4);
    let flat = FlatHandle::new(&mut memory, vec![1, 2, 3]).unwrap().into_raw();
    assert_eq!(memory.kind(flat), BlockKind::Flat);
    for ptr in [flat, at(2), at(4), at(5), at(usize::MAX)] {
        let handle = Handle::<u32>::from_raw(ptr, false).unwrap();
        assert_eq!(handle.lock(&mut memory).err(), Some(Error::LockFailed));
    }
    assert_eq!(memory.lock(RawPtr::null()), Err(Error::LockFailed));
    assert_eq!(memory.kind(flat), BlockKind::Flat);
    assert_eq!(memory.flat_bytes(flat), Some(&[1u8, 2, 3][..]));
}

#[test]
fn a_live_block_is_never_read_as_bytes() {
    let mut memory: HostMemory<u32> = HostMemory::new(4);
    let live = Handle::wrap(&mut memory, 1).unwrap().into_raw();
    let flat = FlatHandle::new(&mut memory, vec![9]).unwrap();
    assert_eq!(FlatHandle::from_raw(live).unwrap().as_slice(&memory), None);
    assert_eq!(FlatHandle::from_raw(at(3)).unwrap().as_slice(&memory), None);
    assert_eq!(flat.as_slice(&memory), Some(&[9u8][..]));
    assert_eq!(memory.flat_bytes(RawPtr::null()), None);
}

#[test]
fn a_borrowing_handle_leaves_the_block_to_the_host() {
    let mut memory: HostMemory<u32> = HostMemory::new(2);
    let ptr = Handle::wrap(&mut memory, 8).unwrap().into_raw();
    Handle::<u32>::from_raw(ptr, false).unwrap().dispose(&mut memory);
    assert_eq!(memory.kind(ptr), BlockKind::Live);
    Handle::<u32>::from_raw(ptr, true).unwrap().dispose(&mut memory);
    assert_eq!(memory.kind(ptr), BlockKind::Free);
    Handle::<u32>::from_raw(at(7), true).unwrap().dispose(&mut memory);
    assert_eq!(memory.kind(at(7)), BlockKind::Free);
}

#[test]
fn unlocking_what_is_not_locked_changes_nothing() {
    let mut memory: HostMemory<u32> = HostMemory::new(2);
    let ptr = Handle::wrap(&mut memory, 8).unwrap().into_raw();
    memory.unlock(ptr, 99);
    assert_eq!(memory.lock(ptr), Ok(8));
    memory.unlock(at(2), 1);
    assert_eq!(memory.kind(at(2)), BlockKind::Free);
    memory.unlock(ptr, 77);
    assert_eq!(memory.lock(ptr), Ok(77));
}
