//! Host memory as this layer sees it: a bounded arena of blocks, each
//! reached through a pointer-sized address.
//!
//! The host owns every block. A block holds either a live value, which is
//! reached by locking it, or flat bytes, which are only ever read as bytes.
//! While a live block is locked its value is with whoever locked it, and the
//! block itself says so: a second lock finds it locked and fails.

use crate::error::Error;
use vstd::prelude::*;

verus! {

/// A pointer as the host hands it over: an address, with zero for null.
#[derive(Clone, Copy, Debug, PartialEq, Eq, Structural)]
pub struct RawPtr {
    pub addr: usize,
}

impl RawPtr {
    /// The null pointer.
    pub fn null() -> (ptr: RawPtr)
        ensures
            ptr.addr == 0,
    {
        RawPtr { addr: 0 }
    }

    /// Whether this is the null pointer.
    pub fn is_null(&self) -> (b: bool)
        ensures
            b == (self.addr == 0),
    {
        self.addr == 0
    }
}

/// What a block of host memory holds.
pub enum BlockState<T> {
    /// Nothing: the address is not in use.
    Free,
    /// A live value that nobody has locked.
    Live(T),
    /// A live value that is locked; the value is with the holder of the lock.
    Locked,
    /// Flat bytes, produced for persistence.
    Flat(Seq<u8>),
}

/// The kind of a block, without what it holds.
#[derive(Clone, Copy, Debug, PartialEq, Eq, Structural)]
pub enum BlockKind {
    Free,
    Live,
    Locked,
    Flat,
}

enum Block<T> {
    Free,
    Live(T),
    Locked,
    Flat(Vec<u8>),
}

impl<T> Block<T> {
    spec fn state(self) -> BlockState<T> {
        match self {
            Block::Free => BlockState::Free,
            Block::Live(value) => BlockState::Live(value),
            Block::Locked => BlockState::Locked,
            Block::Flat(bytes) => BlockState::Flat(bytes@),
        }
    }
}

/// The block that an address refers to among `blocks`, whose first block has
/// address 1. Null and every address behind the last block refer to nothing.
pub open spec fn block_at<T>(blocks: Seq<BlockState<T>>, ptr: RawPtr) -> BlockState<T> {
    if 1 <= ptr.addr <= blocks.len() {
        blocks[ptr.addr - 1]
    } else {
        BlockState::Free
    }
}

/// `blocks` with the block at an address replaced. An address that refers to
/// nothing leaves the blocks as they are.
pub open spec fn with_block<T>(
    blocks: Seq<BlockState<T>>,
    ptr: RawPtr,
    block: BlockState<T>,
) -> Seq<BlockState<T>> {
    if 1 <= ptr.addr <= blocks.len() {
        blocks.update(ptr.addr - 1, block)
    } else {
        blocks
    }
}

/// Whether an address is the lowest one that is not in use.
pub open spec fn lowest_free<T>(blocks: Seq<BlockState<T>>, ptr: RawPtr) -> bool {
    &&& 1 <= ptr.addr <= blocks.len()
    &&& blocks[ptr.addr - 1] is Free
    &&& forall|i: int| 0 <= i < ptr.addr - 1 ==> !(#[trigger] blocks[i] is Free)
}

/// Whether every address is in use.
pub open spec fn exhausted<T>(blocks: Seq<BlockState<T>>) -> bool {
    forall|i: int| 0 <= i < blocks.len() ==> !(#[trigger] blocks[i] is Free)
}

/// What locking the block at an address does: a live block gives up its
/// value and is locked from then on; any other block refuses.
pub open spec fn lock_step<T>(blocks: Seq<BlockState<T>>, ptr: RawPtr) -> Option<
    (T, Seq<BlockState<T>>),
> {
    match block_at(blocks, ptr) {
        BlockState::Live(value) => Some((value, with_block(blocks, ptr, BlockState::Locked))),
        _ => None,
    }
}

/// What giving a value back to the block at an address does: a locked block
/// is live again and holds the value; any other block stays as it is.
pub open spec fn unlock_step<T>(blocks: Seq<BlockState<T>>, ptr: RawPtr, value: T) -> Seq<
    BlockState<T>,
> {
    if block_at(blocks, ptr) is Locked {
        with_block(blocks, ptr, BlockState::Live(value))
    } else {
        blocks
    }
}

/// Whether every lock that `after` holds was already held in `before`.
pub open spec fn no_new_locks<T>(before: Seq<BlockState<T>>, after: Seq<BlockState<T>>) -> bool {
    forall|ptr: RawPtr| #[trigger] block_at(after, ptr) is Locked ==> block_at(before, ptr) is Locked
}

/// Locks do not pile up over a run of commands: where each step leaves no
/// new lock, the whole run leaves none.
pub proof fn lemma_no_new_locks_is_transitive<T>(
    first: Seq<BlockState<T>>,
    second: Seq<BlockState<T>>,
    third: Seq<BlockState<T>>,
)
    requires
        no_new_locks(first, second),
        no_new_locks(second, third),
    ensures
        no_new_locks(first, third),
        no_new_locks(first, first),
{
    assert forall|ptr: RawPtr| #[trigger] block_at(third, ptr) is Locked implies block_at(
        first,
        ptr,
    ) is Locked by {
        assert(block_at(second, ptr) is Locked);
    }
}

/// The memory that the host lends to one kind of value: `limit` blocks, all
/// free at first.
pub struct HostMemory<T> {
    blocks: Vec<Block<T>>,
    limit: usize,
}

impl<T> View for HostMemory<T> {
    type V = Seq<BlockState<T>>;

    /// The state of every block, in the order of their addresses. Its length
    /// is the limit that the memory was made with.
    closed spec fn view(&self) -> Seq<BlockState<T>> {
        Seq::new(
            self.limit as nat,
            |i: int|
                if i < self.blocks@.len() {
                    self.blocks@[i].state()
                } else {
                    BlockState::Free
                },
        )
    }
}

impl<T> HostMemory<T> {
    #[verifier::type_invariant]
    spec fn within_limit(&self) -> bool {
        self.blocks@.len() <= self.limit
    }

    /// A memory of `limit` blocks, none of them in use.
    pub fn new(limit: usize) -> (memory: Self)
        ensures
            memory@ == Seq::new(limit as nat, |i: int| BlockState::<T>::Free),
    {
        HostMemory { blocks: Vec::new(), limit }
    }

    /// How many blocks the memory has.
    pub fn limit(&self) -> (n: usize)
        ensures
            n == self@.len(),
    {
        self.limit
    }

    /// The kind of the block at an address.
    pub fn kind(&self, ptr: RawPtr) -> (kind: BlockKind)
        ensures
            match block_at(self@, ptr) {
                BlockState::Free => kind == BlockKind::Free,
                BlockState::Live(_) => kind == BlockKind::Live,
                BlockState::Locked => kind == BlockKind::Locked,
                BlockState::Flat(_) => kind == BlockKind::Flat,
            },
    {
        proof {
            use_type_invariant(self);
        }
        if ptr.addr == 0 || ptr.addr > self.blocks.len() {
            return BlockKind::Free;
        }
        match &self.blocks[ptr.addr - 1] {
            Block::Free => BlockKind::Free,
            Block::Live(_) => BlockKind::Live,
            Block::Locked => BlockKind::Locked,
            Block::Flat(_) => BlockKind::Flat,
        }
    }

    /// Puts a block at the lowest address that is not in use.
    fn place(&mut self, block: Block<T>) -> (r: Result<RawPtr, Error>)
        requires
            !(block is Free),
        ensures
            r is Err <==> exhausted(old(self)@),
            r is Err ==> r == Err::<RawPtr, Error>(Error::AllocationFailed) && final(self)@ == old(
                self,
            )@,
            r matches Ok(ptr) ==> lowest_free(old(self)@, ptr) && final(self)@ == with_block(
                old(self)@,
                ptr,
                block.state(),
            ),
    {
        proof {
            use_type_invariant(&*self);
        }
        let mut i: usize = 0;
        while i < self.blocks.len()
            invariant
                i <= self.blocks@.len() <= self.limit,
                *self == *old(self),
                forall|k: int| 0 <= k < i ==> !(#[trigger] self@[k] is Free),
            decreases self.blocks@.len() - i,
        {
            let vacant = match &self.blocks[i] {
                Block::Free => true,
                _ => false,
            };
            if vacant {
                assert(old(self)@[i as int] is Free);
                let mut slot = block;
                std::mem::swap(&mut self.blocks[i], &mut slot);
                assert(final(self)@ == with_block(
                    old(self)@,
                    RawPtr { addr: (i + 1) as usize },
                    block.state(),
                ));
                return Ok(RawPtr { addr: i + 1 });
            }
            assert(!(self@[i as int] is Free));
            i += 1;
        }
        if self.blocks.len() < self.limit {
            let mut blocks: Vec<Block<T>> = Vec::new();
            std::mem::swap(&mut self.blocks, &mut blocks);
            blocks.push(block);
            std::mem::swap(&mut self.blocks, &mut blocks);
            assert(old(self)@[i as int] is Free);
            assert(final(self)@ == with_block(
                old(self)@,
                RawPtr { addr: (i + 1) as usize },
                block.state(),
            ));
            Ok(RawPtr { addr: i + 1 })
        } else {
            Err(Error::AllocationFailed)
        }
    }

    /// Moves a value into a new live block and gives its address.
    ///
    /// The block is the lowest one not in use. Where every block is in use
    /// the call fails with [`Error::AllocationFailed`], the value is dropped
    /// and the memory stays as it is.
    pub fn allocate(&mut self, value: T) -> (r: Result<RawPtr, Error>)
        ensures
            r is Err <==> exhausted(old(self)@),
            r is Err ==> r == Err::<RawPtr, Error>(Error::AllocationFailed) && final(self)@ == old(
                self,
            )@,
            r matches Ok(ptr) ==> lowest_free(old(self)@, ptr) && final(self)@ == with_block(
                old(self)@,
                ptr,
                BlockState::Live(value),
            ),
    {
        self.place(Block::Live(value))
    }

    /// Moves bytes into a new flat block and gives its address, as
    /// [`HostMemory::allocate`] does for a value.
    pub fn allocate_flat(&mut self, bytes: Vec<u8>) -> (r: Result<RawPtr, Error>)
        ensures
            r is Err <==> exhausted(old(self)@),
            r is Err ==> r == Err::<RawPtr, Error>(Error::AllocationFailed) && final(self)@ == old(
                self,
            )@,
            r matches Ok(ptr) ==> lowest_free(old(self)@, ptr) && final(self)@ == with_block(
                old(self)@,
                ptr,
                BlockState::Flat(bytes@),
            ),
    {
        self.place(Block::Flat(bytes))
    }

    /// Locks the live block at an address and hands out its value.
    ///
    /// Any other block refuses with [`Error::LockFailed`]: a block that is
    /// locked already, a flat block, an address not in use. The memory then
    /// stays as it is.
    pub fn lock(&mut self, ptr: RawPtr) -> (r: Result<T, Error>)
        ensures
            match lock_step(old(self)@, ptr) {
                Some((value, blocks)) => r == Ok::<T, Error>(value) && final(self)@ == blocks,
                None => r == Err::<T, Error>(Error::LockFailed) && final(self)@ == old(self)@,
            },
    {
        proof {
            use_type_invariant(&*self);
        }
        if ptr.addr == 0 || ptr.addr > self.blocks.len() {
            return Err(Error::LockFailed);
        }
        let index = ptr.addr - 1;
        let live = match &self.blocks[index] {
            Block::Live(_) => true,
            _ => false,
        };
        if !live {
            return Err(Error::LockFailed);
        }
        let mut slot: Block<T> = Block::Locked;
        std::mem::swap(&mut self.blocks[index], &mut slot);
        assert(final(self)@ == with_block(old(self)@, ptr, BlockState::Locked));
        match slot {
            Block::Live(value) => Ok(value),
            _ => Err(Error::LockFailed),
        }
    }

    /// Gives a value back to the locked block at an address, which is live
    /// again from then on. Where the block is not locked the value is
    /// dropped and the memory stays as it is.
    pub fn unlock(&mut self, ptr: RawPtr, value: T)
        ensures
            final(self)@ == unlock_step(old(self)@, ptr, value),
    {
        proof {
            use_type_invariant(&*self);
        }
        if ptr.addr == 0 || ptr.addr > self.blocks.len() {
            return ;
        }
        let index = ptr.addr - 1;
        let locked = match &self.blocks[index] {
            Block::Locked => true,
            _ => false,
        };
        if locked {
            let mut slot: Block<T> = Block::Live(value);
            std::mem::swap(&mut self.blocks[index], &mut slot);
            assert(final(self)@ == with_block(old(self)@, ptr, BlockState::Live(value)));
        }
    }

    /// Gives the block at an address back to the host, whatever it holds.
    pub fn free(&mut self, ptr: RawPtr)
        ensures
            final(self)@ == with_block(old(self)@, ptr, BlockState::Free),
    {
        proof {
            use_type_invariant(&*self);
        }
        if ptr.addr == 0 || ptr.addr > self.blocks.len() {
            assert(final(self)@ == with_block(old(self)@, ptr, BlockState::Free));
            return ;
        }
        let mut slot: Block<T> = Block::Free;
        std::mem::swap(&mut self.blocks[ptr.addr - 1], &mut slot);
        assert(final(self)@ == with_block(old(self)@, ptr, BlockState::Free));
    }

    /// The bytes of the flat block at an address, or nothing where the block
    /// is not flat.
    pub fn flat_bytes(&self, ptr: RawPtr) -> (r: Option<&[u8]>)
        ensures
            match block_at(self@, ptr) {
                BlockState::Flat(bytes) => r matches Some(slice) && slice@ == bytes,
                _ => r is None,
            },
    {
        proof {
            use_type_invariant(self);
        }
        if ptr.addr == 0 || ptr.addr > self.blocks.len() {
            return None;
        }
        match &self.blocks[ptr.addr - 1] {
            Block::Flat(bytes) => Some(bytes.as_slice()),
            _ => None,
        }
    }
}

} // verus!
