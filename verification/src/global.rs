//! The global state of a module: made when the module starts, lent to every
//! command, torn down when the module ends.

use crate::command::RawCommand;
use crate::error::Error;
use crate::handle::{Guard, Handle};
use crate::memory::{
    exhausted, lock_step, lowest_free, unlock_step, with_block, BlockState, HostMemory, RawPtr,
};
use crate::params::{ParamId, ParameterRegistry};
use crate::plugin::{AdobePluginGlobal, OutData};
use vstd::prelude::*;

verus! {

/// What the global block of a module holds.
pub struct GlobalData<G> {
    /// The parameters that the module declared.
    pub registry: ParameterRegistry,
    /// How many parameters the module declared, as recorded when the host
    /// asked for them.
    pub params_num: usize,
    /// The plug-in's own value.
    pub plugin_instance: G,
}

/// The global state of a module while one command has it: the handle on its
/// block and the guard of the lock.
pub struct GlobalState<G> {
    handle: Handle<GlobalData<G>>,
    guard: Guard<GlobalData<G>>,
}

impl<G> GlobalState<G> {
    #[verifier::type_invariant]
    spec fn one_block(&self) -> bool {
        self.guard.ptr() == self.handle.ptr()
    }

    /// The address of the global block.
    pub closed spec fn ptr(&self) -> RawPtr {
        self.handle.ptr()
    }

    /// Whether the block is freed when this command ends.
    pub closed spec fn owning(&self) -> bool {
        self.handle.owning()
    }

    /// What the global block holds, as it is now.
    pub closed spec fn data(&self) -> GlobalData<G> {
        self.guard.value()
    }
}

impl<G: AdobePluginGlobal> GlobalState<G> {
    /// Starts a module: makes the plug-in's value and an empty registry,
    /// moves both into a new block and locks it.
    ///
    /// Fails with [`Error::AllocationFailed`] where the host has no block
    /// left; the memory is then unchanged.
    pub fn start(memory: &mut HostMemory<GlobalData<G>>) -> (r: Result<GlobalState<G>, Error>)
        ensures
            r is Err <==> exhausted(old(memory)@),
            r matches Err(e) ==> e == Error::AllocationFailed && final(memory)@ == old(memory)@,
            r matches Ok(state) ==> {
                &&& state.owning()
                &&& state.ptr().addr != 0
                &&& lowest_free(old(memory)@, state.ptr())
                &&& final(memory)@ == with_block(old(memory)@, state.ptr(), BlockState::Locked)
                &&& state.data().registry@ == Seq::<ParamId>::empty()
                &&& !state.data().registry.frozen()
                &&& state.data().params_num == 0
                &&& call_ensures(G::default, (), state.data().plugin_instance)
            },
    {
        let data = GlobalData {
            registry: ParameterRegistry::new(),
            params_num: 0,
            plugin_instance: G::default(),
        };
        let handle = match Handle::wrap(memory, data) {
            Ok(handle) => handle,
            Err(e) => {
                return Err(e);
            },
        };
        match handle.lock(memory) {
            Ok(guard) => {
                assert(final(memory)@ == with_block(
                    old(memory)@,
                    handle.ptr(),
                    BlockState::Locked,
                ));
                Ok(GlobalState { handle, guard })
            },
            Err(e) => {
                handle.dispose(memory);
                Err(e)
            },
        }
    }

    /// Takes up the global state that an earlier command left with the
    /// host, and locks it.
    ///
    /// A null pointer is refused with [`Error::BadCallbackParameter`]: host
    /// and module no longer agree, and nothing here can mend that. A block
    /// that cannot be locked is refused with [`Error::LockFailed`]. The
    /// memory is unchanged in both cases.
    pub fn adopt(memory: &mut HostMemory<GlobalData<G>>, ptr: RawPtr, owning: bool) -> (r: Result<
        GlobalState<G>,
        Error,
    >)
        ensures
            ptr.addr == 0 ==> (r matches Err(e) && e == Error::BadCallbackParameter),
            ptr.addr != 0 ==> match lock_step(old(memory)@, ptr) {
                Some((data, blocks)) => {
                    &&& r matches Ok(state)
                    &&& state.ptr() == ptr
                    &&& state.owning() == owning
                    &&& state.data() == data
                    &&& final(memory)@ == blocks
                },
                None => r matches Err(e) && e == Error::LockFailed,
            },
            r is Err ==> final(memory)@ == old(memory)@,
    {
        if ptr.is_null() {
            return Err(Error::BadCallbackParameter);
        }
        let handle = match Handle::from_raw(ptr, owning) {
            Ok(handle) => handle,
            Err(_) => {
                return Err(Error::BadCallbackParameter);
            },
        };
        match handle.lock(memory) {
            Ok(guard) => Ok(GlobalState { handle, guard }),
            Err(e) => Err(e),
        }
    }

    /// Reads what the global block holds.
    pub fn get(&self) -> (data: &GlobalData<G>)
        ensures
            *data == self.data(),
    {
        self.guard.get()
    }

    /// Lends what the global block holds for change.
    pub fn get_mut(&mut self) -> (data: &mut GlobalData<G>)
        ensures
            *data == old(self).data(),
            final(self).data() == *final(data),
            final(self).ptr() == old(self).ptr(),
            final(self).owning() == old(self).owning(),
        no_unwind
    {
        proof {
            use_type_invariant(&*self);
        }
        self.guard.get_mut()
    }

    /// Ends the command's hold on the global state and tells the host where
    /// it is from now on.
    ///
    /// After the start of a module the block is unlocked and surrendered to
    /// the host. After the end of a module the value is dropped, the block
    /// is freed where this state owns it, and the host is told null. After
    /// any other command the block is unlocked and the host keeps the
    /// pointer that it has.
    pub fn commit(
        self,
        cmd: RawCommand,
        memory: &mut HostMemory<GlobalData<G>>,
        out_data: &mut OutData,
    )
        ensures
            final(memory)@ == global_after(old(memory)@, cmd, self.ptr(), self.owning(), self.data()),
            final(out_data).global_data == match cmd {
                RawCommand::GlobalSetup => self.ptr(),
                RawCommand::GlobalSetdown => RawPtr { addr: 0 },
                _ => old(out_data).global_data,
            },
            final(out_data).sequence_data == old(out_data).sequence_data,
            final(out_data).num_params == old(out_data).num_params,
            final(out_data).diagnostic == old(out_data).diagnostic,
            final(out_data).reply == old(out_data).reply,
    {
        proof {
            use_type_invariant(&self);
        }
        let GlobalState { handle, guard } = self;
        match cmd {
            RawCommand::GlobalSetup => {
                guard.release(memory);
                out_data.global_data = handle.into_raw();
            },
            RawCommand::GlobalSetdown => {
                guard.release(memory);
                handle.dispose(memory);
                out_data.global_data = RawPtr::null();
            },
            _ => {
                guard.release(memory);
                handle.dispose(memory);
            },
        }
    }
}

/// The global memory after a command has let go of the block at `ptr`,
/// which it had locked and whose value is now `data`.
pub open spec fn global_after<G>(
    blocks: Seq<BlockState<GlobalData<G>>>,
    cmd: RawCommand,
    ptr: RawPtr,
    owning: bool,
    data: GlobalData<G>,
) -> Seq<BlockState<GlobalData<G>>> {
    let unlocked = unlock_step(blocks, ptr, data);
    if cmd != RawCommand::GlobalSetup && owning {
        with_block(unlocked, ptr, BlockState::Free)
    } else {
        unlocked
    }
}

} // verus!
