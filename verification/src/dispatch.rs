//! The dispatcher: the one way in for every command of the host.
//!
//! A command is read from its tag, the global state is taken up and locked,
//! the parameters are declared where the command asks for them, the
//! sequence is resolved, the plug-in's handlers run, and what was decided is
//! written back for the host. Every lock taken on the way is given back
//! before the command returns, whichever way it ends.

use crate::command::{Command, Extra, RawCommand};
use crate::error::{outcome_status, Error};
use crate::global::{GlobalData, GlobalState};
use crate::layer::Layer;
use crate::memory::{
    block_at, exhausted, lowest_free, no_new_locks, with_block, BlockState, HostMemory, RawPtr,
};
use crate::plugin::{
    visible_params, AdobePluginGlobal, AdobePluginInstance, InData, OutData, ParamDef,
    Parameters, Reply,
};
use crate::sequence::{
    asks_for_bytes, cannot_persist, cannot_restore, diagnostic_of, persists, plan_of,
    restorable, Provenance, SequencePlan, SequenceState,
};
use crate::serializer::parse_envelope;
use vstd::prelude::*;
use vstd::string::StringSliceAdditionalSpecFns;

verus! {

/// The host's memory as one module sees it: the blocks that hold global
/// state, and the blocks that hold sequences, live or flat.
pub struct Host<G, S> {
    pub globals: HostMemory<GlobalData<G>>,
    pub sequences: HostMemory<S>,
}

impl<G, S> Host<G, S> {
    /// A host with that many blocks for global state and for sequences,
    /// none of them in use.
    pub fn new(global_blocks: usize, sequence_blocks: usize) -> (host: Host<G, S>)
        ensures
            host.globals@ == Seq::new(
                global_blocks as nat,
                |i: int| BlockState::<GlobalData<G>>::Free,
            ),
            host.sequences@ == Seq::new(sequence_blocks as nat, |i: int| BlockState::<S>::Free),
    {
        Host {
            globals: HostMemory::new(global_blocks),
            sequences: HostMemory::new(sequence_blocks),
        }
    }
}

/// The result of a command from the results of its two handlers: the
/// global handler's failure, else the sequence handler's failure, else
/// success.
pub open spec fn merged(global: Result<(), Error>, sequence: Option<Result<(), Error>>) -> Result<
    (),
    Error,
> {
    match global {
        Err(e) => Err(e),
        Ok(_) => match sequence {
            Some(Err(e)) => Err(e),
            _ => Ok(()),
        },
    }
}

/// Merges the results of the two handlers of a command. Where the global
/// handler failed, that error wins; else where the sequence handler ran and
/// failed, its error wins; else the command succeeded.
pub fn merge_results(global: Result<(), Error>, sequence: Option<Result<(), Error>>) -> (r: Result<
    (),
    Error,
>)
    ensures
        r == merged(global, sequence),
{
    match global {
        Err(e) => Err(e),
        Ok(_) => match sequence {
            Some(Err(e)) => Err(e),
            _ => Ok(()),
        },
    }
}

/// The result of a command whose handlers ran: the error of writing the
/// sequence back where that failed, else the merged results of the
/// handlers.
pub open spec fn settled(
    committed: Result<(), Error>,
    global: Result<(), Error>,
    sequence: Option<Result<(), Error>>,
) -> Result<(), Error> {
    match committed {
        Err(e) => Err(e),
        Ok(_) => merged(global, sequence),
    }
}

/// Settles the result of a command whose handlers ran. Where the sequence
/// could not be written back, that error is the result, whatever the
/// handlers returned; else the result is what [`merge_results`] makes of
/// the handlers' results.
pub fn settle(
    committed: Result<(), Error>,
    global: Result<(), Error>,
    sequence: Option<Result<(), Error>>,
) -> (r: Result<(), Error>)
    ensures
        r == settled(committed, global, sequence),
{
    match committed {
        Err(e) => Err(e),
        Ok(_) => merge_results(global, sequence),
    }
}

/// Closes the declaration of the parameters with the answer that the
/// plug-in gave: the registry is frozen as the plug-in left it, the number
/// of parameters in it is recorded and told to the host, and the answer is
/// the result. This is done whatever the answer was, so that no parameter
/// is ever declared after the command that declares them.
pub fn close_declaration<G>(
    data: &mut GlobalData<G>,
    answered: Result<(), Error>,
    out_data: &mut OutData,
) -> (r: Result<(), Error>)
    ensures
        r == answered,
        final(data).registry@ == old(data).registry@,
        final(data).registry.frozen(),
        final(data).params_num == old(data).registry@.len(),
        final(data).plugin_instance == old(data).plugin_instance,
        final(out_data).num_params == old(data).registry@.len(),
        final(out_data).global_data == old(out_data).global_data,
        final(out_data).sequence_data == old(out_data).sequence_data,
        final(out_data).diagnostic == old(out_data).diagnostic,
        final(out_data).reply == old(out_data).reply,
{
    data.registry.freeze();
    let count = data.registry.num_params();
    data.params_num = count;
    out_data.num_params = count;
    answered
}

/// Asks the plug-in for its parameters and closes the registry.
///
/// A registry that is frozen already is left alone, the plug-in is not
/// asked, and [`Error::RegistryFrozen`] comes back. Else the plug-in
/// declares into the registry, and [`close_declaration`] closes the
/// declaration with the plug-in's answer.
pub fn declare_parameters<G: AdobePluginGlobal>(
    data: &mut GlobalData<G>,
    in_data: &InData,
    out_data: &mut OutData,
) -> (r: Result<(), Error>)
    ensures
        declared(*old(data), *final(data), *old(out_data), *final(out_data), r),
{
    if data.registry.is_frozen() {
        return Err(Error::RegistryFrozen);
    }
    let answered = data.plugin_instance.params_setup(
        &mut data.registry,
        in_data,
        &mut out_data.reply,
    );
    close_declaration(data, answered, out_data)
}

/// What the declaration of the parameters does to the global state and to
/// what the host is told.
pub open spec fn declared<G>(
    before: GlobalData<G>,
    after: GlobalData<G>,
    out_before: OutData,
    out_after: OutData,
    r: Result<(), Error>,
) -> bool {
    &&& after.plugin_instance == before.plugin_instance
    &&& after.registry.frozen()
    &&& out_after.global_data == out_before.global_data
    &&& out_after.sequence_data == out_before.sequence_data
    &&& out_after.diagnostic == out_before.diagnostic
    &&& if before.registry.frozen() {
        &&& r == Err::<(), Error>(Error::RegistryFrozen)
        &&& after == before
        &&& out_after == out_before
    } else {
        &&& after.params_num == after.registry@.len()
        &&& out_after.num_params == after.registry@.len()
    }
}

/// Whether the host is told the same in both, the plug-in's answer aside.
pub open spec fn same_slots(a: OutData, b: OutData) -> bool {
    &&& a.global_data == b.global_data
    &&& a.sequence_data == b.sequence_data
    &&& a.num_params == b.num_params
    &&& a.diagnostic == b.diagnostic
}

/// The block that a plan takes up or restores from, null where it does
/// neither.
pub open spec fn plan_ptr(plan: SequencePlan) -> RawPtr {
    match plan {
        SequencePlan::Restore { ptr } => ptr,
        SequencePlan::Adopt { ptr, .. } => ptr,
        _ => RawPtr { addr: 0 },
    }
}

/// Whether `after` is `before` with a new live block at `ptr` and nothing
/// else changed.
pub open spec fn installed_at<T>(
    before: Seq<BlockState<T>>,
    after: Seq<BlockState<T>>,
    ptr: RawPtr,
) -> bool {
    &&& lowest_free(before, ptr)
    &&& block_at(after, ptr) is Live
    &&& after =~= with_block(before, ptr, block_at(after, ptr))
}

/// Whether `after` is `before` with the live block at `ptr` holding what
/// the handlers left in it, and nothing else changed.
pub open spec fn kept_at<T>(before: Seq<BlockState<T>>, after: Seq<BlockState<T>>, ptr: RawPtr) -> bool {
    &&& block_at(before, ptr) is Live
    &&& block_at(after, ptr) is Live
    &&& after =~= with_block(before, ptr, block_at(after, ptr))
}

/// Whether `after` is `before` with the live block at `ptr` freed, and
/// nothing else changed.
pub open spec fn freed_at<T>(before: Seq<BlockState<T>>, after: Seq<BlockState<T>>, ptr: RawPtr) -> bool {
    &&& block_at(before, ptr) is Live
    &&& after =~= with_block(before, ptr, BlockState::Free)
}

/// Whether some value of the sequence type is persisted by `bytes`.
pub open spec fn persists_some<G, S: AdobePluginInstance<G>>(bytes: Seq<u8>) -> bool {
    exists|value: S| #[trigger] persists::<G, S>(value, bytes)
}

/// Whether `bytes` persist the value that the block at `ptr` holds now.
pub open spec fn persists_block<G, S: AdobePluginInstance<G>>(
    blocks: Seq<BlockState<S>>,
    ptr: RawPtr,
    bytes: Seq<u8>,
) -> bool {
    match block_at(blocks, ptr) {
        BlockState::Live(value) => persists::<G, S>(value, bytes),
        _ => false,
    }
}

/// What a command that asked for the bytes of the installed sequence at
/// `ptr` has done when it succeeds: the bytes that the plug-in wrote are in
/// a new flat block, in their envelope, and the host is told that block.
/// The live block is freed where the command ends the sequence and the
/// block is this layer's to free; else it stays installed, and the bytes
/// persist the value that it holds.
pub open spec fn flattened_at<G, S: AdobePluginInstance<G>>(
    before: Seq<BlockState<S>>,
    after: Seq<BlockState<S>>,
    cmd: RawCommand,
    provenance: Provenance,
    ptr: RawPtr,
    flat: RawPtr,
) -> bool {
    &&& block_at(before, ptr) is Live
    &&& lowest_free(before, flat)
    &&& block_at(after, flat) matches BlockState::Flat(bytes)
    &&& persists_some::<G, S>(bytes)
    &&& after =~= with_block(
        with_block(before, flat, BlockState::Flat(bytes)),
        ptr,
        block_at(after, ptr),
    )
    &&& if cmd == RawCommand::SequenceFlatten && provenance == Provenance::HostBlock {
        block_at(after, ptr) is Free
    } else {
        persists_block::<G, S>(after, ptr, bytes)
    }
}

/// What a command has done about the sequence when all of it was carried
/// out: the plan, the handlers, and the writing back.
pub open spec fn sequence_done<G, S: AdobePluginInstance<G>>(
    plan: SequencePlan,
    cmd: RawCommand,
    before: Seq<BlockState<S>>,
    after: Seq<BlockState<S>>,
    out_before: OutData,
    out_after: OutData,
) -> bool {
    &&& out_after.diagnostic == diagnostic_of(plan, out_before.diagnostic)
    &&& sequence_memory_done::<G, S>(plan, cmd, before, after, out_before, out_after)
}

/// What a command has done to the sequence memory and the sequence pointer
/// when all of it was carried out.
pub open spec fn sequence_memory_done<G, S: AdobePluginInstance<G>>(
    plan: SequencePlan,
    cmd: RawCommand,
    before: Seq<BlockState<S>>,
    after: Seq<BlockState<S>>,
    out_before: OutData,
    out_after: OutData,
) -> bool {
    match plan {
        SequencePlan::Skip | SequencePlan::Missing => {
            &&& after == before
            &&& out_after.sequence_data == out_before.sequence_data
        },
        SequencePlan::Create | SequencePlan::CreateWithoutData => installed_at(
            before,
            after,
            out_after.sequence_data,
        ),
        SequencePlan::Restore { ptr } => {
            &&& block_at(before, ptr) is Flat
            &&& installed_at(before, after, out_after.sequence_data)
        },
        SequencePlan::Adopt { ptr, provenance } => {
            if asks_for_bytes(cmd) {
                flattened_at::<G, S>(before, after, cmd, provenance, ptr, out_after.sequence_data)
            } else if cmd == RawCommand::SequenceSetdown {
                &&& out_after.sequence_data.addr == 0
                &&& if provenance == Provenance::HostBlock {
                    freed_at(before, after, ptr)
                } else {
                    kept_at(before, after, ptr)
                }
            } else {
                &&& out_after.sequence_data == out_before.sequence_data
                &&& kept_at(before, after, ptr)
            }
        },
    }
}

/// Whether a command has left everything about the sequence as it was:
/// the memory, the pointer and the diagnostic.
pub open spec fn sequence_untouched<S>(
    before: Seq<BlockState<S>>,
    after: Seq<BlockState<S>>,
    out_before: OutData,
    out_after: OutData,
) -> bool {
    &&& after == before
    &&& out_after.sequence_data == out_before.sequence_data
    &&& out_after.diagnostic == out_before.diagnostic
}

/// Whether the plug-in can fail to write the value that the block holds.
pub open spec fn cannot_persist_block<G, S: AdobePluginInstance<G>>(
    blocks: Seq<BlockState<S>>,
    ptr: RawPtr,
) -> bool {
    match block_at(blocks, ptr) {
        BlockState::Live(value) => cannot_persist::<G, S>(value),
        _ => false,
    }
}

/// How a command that asked for the bytes of the installed sequence at
/// `ptr` fails: the sequence stays installed, unlocked, with what the
/// handlers left in it, and the host keeps the pointer that it has. The
/// error says why: the plug-in could not write the value, or the host had
/// no block for the bytes.
pub open spec fn flatten_failed<G, S: AdobePluginInstance<G>>(
    cmd: RawCommand,
    before: Seq<BlockState<S>>,
    after: Seq<BlockState<S>>,
    out_before: OutData,
    out_after: OutData,
    ptr: RawPtr,
    r: Result<(), Error>,
) -> bool {
    &&& asks_for_bytes(cmd)
    &&& kept_at(before, after, ptr)
    &&& out_after.sequence_data == out_before.sequence_data
    &&& out_after.diagnostic == out_before.diagnostic
    &&& r == Err::<(), Error>(Error::InternalStructDamaged) || r == Err::<(), Error>(
        Error::AllocationFailed,
    )
    &&& r == Err::<(), Error>(Error::InternalStructDamaged) ==> cannot_persist_block::<G, S>(
        after,
        ptr,
    )
    &&& r == Err::<(), Error>(Error::AllocationFailed) ==> exhausted(before)
}

/// What a command that restores from the flat bytes at its pointer has
/// done. Bytes that are no envelope, or that the plug-in refuses, fail the
/// command with [`Error::CorruptData`] and nothing is touched; bytes that
/// the plug-in takes, with no block left for the value, fail it with
/// [`Error::AllocationFailed`] and nothing is touched; else the value that
/// the plug-in made of them is installed, and the handlers ran.
pub open spec fn restore_carried_out<G, S: AdobePluginInstance<G>>(
    plan: SequencePlan,
    cmd: RawCommand,
    bytes: Seq<u8>,
    before: Seq<BlockState<S>>,
    after: Seq<BlockState<S>>,
    out_before: OutData,
    out_after: OutData,
    r: Result<(), Error>,
) -> bool {
    &&& parse_envelope(bytes) is None ==> r == Err::<(), Error>(Error::CorruptData)
    &&& {
        ||| {
            &&& r == Err::<(), Error>(Error::CorruptData)
            &&& cannot_restore::<G, S>(bytes)
            &&& sequence_untouched(before, after, out_before, out_after)
        }
        ||| {
            &&& r == Err::<(), Error>(Error::AllocationFailed)
            &&& exhausted(before)
            &&& restorable::<G, S>(bytes)
            &&& sequence_untouched(before, after, out_before, out_after)
        }
        ||| {
            &&& !exhausted(before)
            &&& restorable::<G, S>(bytes)
            &&& sequence_done::<G, S>(plan, cmd, before, after, out_before, out_after)
        }
    }
}

/// What a command whose global state could be locked, and whose parameters
/// are declared where it had to declare them, has done about the sequence,
/// by its plan.
///
/// Where the plan is to do nothing, nothing is done. Where it is to make a
/// value, the command fails untouched with [`Error::AllocationFailed`] if
/// the host has no block left, and else the value is installed. Where it is
/// to restore, the block is to be flat, else the command fails untouched
/// with [`Error::InvalidIndex`]; for a flat block see
/// [`restore_carried_out`]. Where it is to take up the installed block, the
/// block is to be live, else the command fails untouched with
/// [`Error::LockFailed`]; a live block has fared as [`sequence_done`] says,
/// or as [`flatten_failed`] says.
///
/// Where [`sequence_done`] holds the handlers ran, and the result is what
/// [`settle`] makes of theirs.
pub open spec fn sequence_carried_out<G, S: AdobePluginInstance<G>>(
    plan: SequencePlan,
    cmd: RawCommand,
    before: Seq<BlockState<S>>,
    after: Seq<BlockState<S>>,
    out_before: OutData,
    out_after: OutData,
    r: Result<(), Error>,
) -> bool {
    match plan {
        SequencePlan::Skip | SequencePlan::Missing => sequence_done::<G, S>(
            plan,
            cmd,
            before,
            after,
            out_before,
            out_after,
        ),
        SequencePlan::Create | SequencePlan::CreateWithoutData => if exhausted(before) {
            &&& r == Err::<(), Error>(Error::AllocationFailed)
            &&& sequence_untouched(before, after, out_before, out_after)
        } else {
            sequence_done::<G, S>(plan, cmd, before, after, out_before, out_after)
        },
        SequencePlan::Restore { ptr } => match block_at(before, ptr) {
            BlockState::Flat(bytes) => restore_carried_out::<G, S>(
                plan,
                cmd,
                bytes,
                before,
                after,
                out_before,
                out_after,
                r,
            ),
            _ => {
                &&& r == Err::<(), Error>(Error::InvalidIndex)
                &&& sequence_untouched(before, after, out_before, out_after)
            },
        },
        SequencePlan::Adopt { ptr, .. } => if block_at(before, ptr) is Live {
            ||| sequence_done::<G, S>(plan, cmd, before, after, out_before, out_after)
            ||| flatten_failed::<G, S>(cmd, before, after, out_before, out_after, ptr, r)
        } else {
            &&& r == Err::<(), Error>(Error::LockFailed)
            &&& sequence_untouched(before, after, out_before, out_after)
        },
    }
}

/// What a command whose global state could be locked has done about the
/// sequence, however it ended.
///
/// The command that declares the parameters ends there, with nothing about
/// the sequence touched, where the declaration fails. Every other command,
/// and that one where the declaration succeeds, fares as
/// [`sequence_carried_out`] says. A command that succeeds has carried out
/// all of [`sequence_done`]. No command leaves a block locked that it found
/// unlocked, and none touches a block other than the one that its plan
/// names and the one that it tells the host.
pub open spec fn sequence_outcome<G, S: AdobePluginInstance<G>>(
    plan: SequencePlan,
    cmd: RawCommand,
    before: Seq<BlockState<S>>,
    after: Seq<BlockState<S>>,
    out_before: OutData,
    out_after: OutData,
    r: Result<(), Error>,
) -> bool {
    &&& no_new_locks(before, after)
    &&& forall|q: RawPtr|
        q != plan_ptr(plan) && q != out_after.sequence_data ==> #[trigger] block_at(after, q)
            == block_at(before, q)
    &&& r is Ok ==> sequence_done::<G, S>(plan, cmd, before, after, out_before, out_after)
    &&& {
        ||| sequence_carried_out::<G, S>(plan, cmd, before, after, out_before, out_after, r)
        ||| {
            &&& cmd == RawCommand::ParamsSetup
            &&& r is Err
            &&& sequence_untouched(before, after, out_before, out_after)
        }
    }
}

/// What a command has done to the registry and the recorded number of
/// parameters. Only the declaration of the parameters changes either, and
/// only once: it freezes the registry, and a frozen registry makes the
/// command fail before anything is touched.
pub open spec fn registry_outcome<G>(
    cmd: RawCommand,
    before: GlobalData<G>,
    after: GlobalData<G>,
    out_before: OutData,
    out_after: OutData,
    r: Result<(), Error>,
) -> bool {
    if cmd == RawCommand::ParamsSetup {
        &&& after.registry.frozen()
        &&& if before.registry.frozen() {
            &&& r == Err::<(), Error>(Error::RegistryFrozen)
            &&& after == before
            &&& same_slots(out_after, out_before)
        } else {
            &&& after.params_num == after.registry@.len()
            &&& out_after.num_params == after.registry@.len()
        }
    } else {
        &&& after.registry == before.registry
        &&& after.params_num == before.params_num
        &&& out_after.num_params == out_before.num_params
    }
}

/// Carries out a command on the global state that is locked for it:
/// declares the parameters where the command asks for them, resolves the
/// sequence, runs the handlers and writes the sequence back.
fn run_command<G: AdobePluginGlobal, S: AdobePluginInstance<G>>(
    cmd: RawCommand,
    data: &mut GlobalData<G>,
    sequences: &mut HostMemory<S>,
    in_data: &InData,
    out_data: &mut OutData,
    params: &[ParamDef],
    input: &Layer,
    output: &mut Layer,
    extra: &Extra,
) -> (r: Result<(), Error>)
    ensures
        registry_outcome(cmd, *old(data), *final(data), *old(out_data), *final(out_data), r),
        sequence_outcome::<G, S>(
            plan_of(S::STATEFUL, cmd, *in_data),
            cmd,
            old(sequences)@,
            final(sequences)@,
            *old(out_data),
            *final(out_data),
            r,
        ),
        final(out_data).global_data == old(out_data).global_data,
        cmd == RawCommand::ParamsSetup && old(data).registry.frozen() ==> {
            &&& final(sequences)@ == old(sequences)@
            &&& *final(out_data) == *old(out_data)
            &&& *final(output) == *old(output)
        },
{
    if cmd == RawCommand::ParamsSetup {
        match declare_parameters(data, in_data, out_data) {
            Ok(_) => {},
            Err(e) => {
                return Err(e);
            },
        }
    }
    let sequence = match SequenceState::resolve::<G>(cmd, sequences, in_data, out_data) {
        Ok(sequence) => sequence,
        Err(e) => {
            return Err(e);
        },
    };
    let command = Command::from_entry_point(cmd, extra);
    let view = Parameters {
        registry: &data.registry,
        defs: visible_params(params, data.params_num),
    };
    let global_result = data.plugin_instance.handle_command(
        &command,
        in_data,
        &mut out_data.reply,
        &view,
        input,
        output,
    );
    match sequence {
        None => settle(Ok(()), global_result, None),
        Some(mut sequence) => {
            let mut sequence_result = sequence.get_mut().handle_command(
                &mut data.plugin_instance,
                &command,
                in_data,
                &mut out_data.reply,
                &view,
            );
            if cmd == RawCommand::Render {
                sequence_result = sequence.get().render(
                    &mut data.plugin_instance,
                    in_data,
                    &mut out_data.reply,
                    &view,
                    input,
                    output,
                );
            }
            let ghost locked = sequences@;
            let committed = sequence.commit::<G>(cmd, sequences, out_data);
            proof {
                if committed is Ok && asks_for_bytes(cmd) {
                    // The bytes went into the lowest block that was free
                    // while the sequence was locked; the lock freed none.
                    let flat = out_data.sequence_data;
                    assert forall|i: int| 0 <= i < flat.addr - 1 implies !(
                    #[trigger] old(sequences)@[i] is Free) by {
                        assert(!(locked[i] is Free));
                    }
                }
                if committed == Err::<(), Error>(Error::AllocationFailed) {
                    // No block was free while the sequence was locked, so
                    // none was free before it was.
                    assert forall|i: int| 0 <= i < old(sequences)@.len() implies !(
                    #[trigger] old(sequences)@[i] is Free) by {
                        assert(!(locked[i] is Free));
                    }
                }
            }
            settle(committed, global_result, Some(sequence_result))
        },
    }
}

/// Whether a command is turned away before anything is touched: a module
/// start for which the host has no block left, or any other command whose
/// global pointer is null or leads to no live block.
pub open spec fn turned_away<G>(
    cmd: RawCommand,
    globals: Seq<BlockState<GlobalData<G>>>,
    in_data: InData,
) -> bool {
    if cmd == RawCommand::GlobalSetup {
        exhausted(globals)
    } else {
        !(block_at(globals, in_data.global_data) is Live)
    }
}

/// The error that a command is turned away with.
pub open spec fn turned_away_with(cmd: RawCommand, in_data: InData) -> Error {
    if cmd == RawCommand::GlobalSetup {
        Error::AllocationFailed
    } else if in_data.global_data.addr == 0 {
        Error::BadCallbackParameter
    } else {
        Error::LockFailed
    }
}

/// Whether the block holds global state that a module start has just made
/// and no declaration has touched.
pub open spec fn fresh_global<G>(block: BlockState<GlobalData<G>>) -> bool {
    &&& block matches BlockState::Live(data)
    &&& data.registry@.len() == 0
    &&& !data.registry.frozen()
    &&& data.params_num == 0
}

/// Whether the plug-in's value can be made: there is a value that its
/// `default` gives.
pub open spec fn default_made<G: AdobePluginGlobal>() -> bool {
    exists|made: G| #[trigger] call_ensures(G::default, (), made)
}

/// What became of the registry in the global block at `ptr`.
pub open spec fn registry_kept<G>(
    cmd: RawCommand,
    before: BlockState<GlobalData<G>>,
    after: BlockState<GlobalData<G>>,
    out_before: OutData,
    out_after: OutData,
    r: Result<(), Error>,
) -> bool {
    &&& before matches BlockState::Live(data)
    &&& after matches BlockState::Live(left)
    &&& registry_outcome(cmd, data, left, out_before, out_after, r)
}

/// What a command has done to the global state, however it ended.
///
/// A command that is turned away changes nothing. The start of a module
/// makes the plug-in's default value, hands it to the handlers, and leaves
/// what they left of it in a new live block with an empty, open registry;
/// it tells the host that block's address. The end of a module frees the
/// block and tells the host
/// null. Every other command leaves the block live where it was, with the
/// plug-in's value as the handlers left it and the registry as
/// [`registry_outcome`] says. No command leaves a block locked that it
/// found unlocked, and none touches any other block.
pub open spec fn global_outcome<G: AdobePluginGlobal>(
    cmd: RawCommand,
    before: Seq<BlockState<GlobalData<G>>>,
    after: Seq<BlockState<GlobalData<G>>>,
    in_data: InData,
    out_before: OutData,
    out_after: OutData,
    r: Result<(), Error>,
) -> bool {
    &&& no_new_locks(before, after)
    &&& if turned_away(cmd, before, in_data) {
        &&& r == Err::<(), Error>(turned_away_with(cmd, in_data))
        &&& after == before
        &&& same_slots(out_after, out_before)
    } else if cmd == RawCommand::GlobalSetup {
        &&& default_made::<G>()
        &&& installed_at(before, after, out_after.global_data)
        &&& fresh_global(block_at(after, out_after.global_data))
        &&& out_after.num_params == out_before.num_params
    } else if cmd == RawCommand::GlobalSetdown {
        &&& freed_at(before, after, in_data.global_data)
        &&& out_after.global_data.addr == 0
        &&& out_after.num_params == out_before.num_params
    } else {
        &&& kept_at(before, after, in_data.global_data)
        &&& out_after.global_data == out_before.global_data
        &&& registry_kept(
            cmd,
            block_at(before, in_data.global_data),
            block_at(after, in_data.global_data),
            out_before,
            out_after,
            r,
        )
    }
}

/// Whether a command ends before the sequence is looked at: it is turned
/// away, or it is to declare the parameters and finds the registry frozen.
pub open spec fn ends_before_sequence<G>(
    cmd: RawCommand,
    globals: Seq<BlockState<GlobalData<G>>>,
    in_data: InData,
) -> bool {
    ||| turned_away(cmd, globals, in_data)
    ||| cmd == RawCommand::ParamsSetup && match block_at(globals, in_data.global_data) {
        BlockState::Live(data) => data.registry.frozen(),
        _ => false,
    }
}

/// What one call of the dispatcher has done, however it ended.
///
/// A tag that names no command succeeds and changes nothing. For every
/// other tag the global state fares as [`global_outcome`] says; a command
/// that ends before the sequence is looked at leaves the sequence memory
/// as it was, and every command that is not turned away fares about the
/// sequence as [`sequence_outcome`] says.
pub open spec fn dispatched<G: AdobePluginGlobal, S: AdobePluginInstance<G>>(
    tag: i32,
    globals_before: Seq<BlockState<GlobalData<G>>>,
    globals_after: Seq<BlockState<GlobalData<G>>>,
    sequences_before: Seq<BlockState<S>>,
    sequences_after: Seq<BlockState<S>>,
    in_data: InData,
    out_before: OutData,
    out_after: OutData,
    r: Result<(), Error>,
) -> bool {
    match RawCommand::of_tag(tag) {
        None => {
            &&& r is Ok
            &&& globals_after == globals_before
            &&& sequences_after == sequences_before
            &&& same_slots(out_after, out_before)
        },
        Some(cmd) => {
            &&& global_outcome(cmd, globals_before, globals_after, in_data, out_before, out_after, r)
            &&& ends_before_sequence(cmd, globals_before, in_data) ==> sequences_after
                == sequences_before && same_slots(out_after, out_before)
            &&& !turned_away(cmd, globals_before, in_data) ==> sequence_outcome::<G, S>(
                plan_of(S::STATEFUL, cmd, in_data),
                cmd,
                sequences_before,
                sequences_after,
                out_before,
                out_after,
                r,
            )
        },
    }
}

/// Whether a call of the dispatcher ends before any handler of the plug-in
/// is asked: the tag names no command, or the command ends before the
/// sequence is looked at.
pub open spec fn ends_unheard<G>(
    tag: i32,
    globals: Seq<BlockState<GlobalData<G>>>,
    in_data: InData,
) -> bool {
    match RawCommand::of_tag(tag) {
        None => true,
        Some(cmd) => ends_before_sequence(cmd, globals, in_data),
    }
}

/// Handles one command of the host.
///
/// `tag` is the command, `host` the memory that the pointers in `in_data`
/// lead into, `params` the parameter array of this command, `input` and
/// `output` its frame, `extra` what else the host passed. `out_data` is
/// what the host is told; it comes in as the host prepared it.
///
/// What the call has done is [`dispatched`]. The result is the error of
/// the first step that failed, or what [`merge_results`] makes of the two
/// handlers' results. A call that ends before any handler is asked leaves
/// the plug-in's answer and the output frame as they were.
pub fn handle_effect_main<G: AdobePluginGlobal, S: AdobePluginInstance<G>>(
    tag: i32,
    host: &mut Host<G, S>,
    in_data: &InData,
    out_data: &mut OutData,
    params: &[ParamDef],
    input: &Layer,
    output: &mut Layer,
    extra: &Extra,
) -> (r: Result<(), Error>)
    ensures
        dispatched::<G, S>(
            tag,
            old(host).globals@,
            final(host).globals@,
            old(host).sequences@,
            final(host).sequences@,
            *in_data,
            *old(out_data),
            *final(out_data),
            r,
        ),
        ends_unheard(tag, old(host).globals@, *in_data) ==> {
            &&& *final(out_data) == *old(out_data)
            &&& *final(output) == *old(output)
        },
{
    let cmd = match RawCommand::from_tag(tag) {
        Some(cmd) => cmd,
        None => {
            return Ok(());
        },
    };
    let adopted = match cmd {
        RawCommand::GlobalSetup => GlobalState::start(&mut host.globals),
        _ => GlobalState::adopt(
            &mut host.globals,
            in_data.global_data,
            cmd == RawCommand::GlobalSetdown,
        ),
    };
    let mut global = match adopted {
        Ok(global) => global,
        Err(e) => {
            return Err(e);
        },
    };
    let r = run_command::<G, S>(
        cmd,
        global.get_mut(),
        &mut host.sequences,
        in_data,
        out_data,
        params,
        input,
        output,
        extra,
    );
    global.commit(cmd, &mut host.globals, out_data);
    r
}

/// Every lock that a command takes is given back before the command
/// returns, however it ends: after the call no block is locked that was
/// not locked before it, in either memory.
pub proof fn lemma_dispatch_gives_every_lock_back<G: AdobePluginGlobal, S: AdobePluginInstance<G>>(
    tag: i32,
    globals_before: Seq<BlockState<GlobalData<G>>>,
    globals_after: Seq<BlockState<GlobalData<G>>>,
    sequences_before: Seq<BlockState<S>>,
    sequences_after: Seq<BlockState<S>>,
    in_data: InData,
    out_before: OutData,
    out_after: OutData,
    r: Result<(), Error>,
)
    requires
        dispatched::<G, S>(
            tag,
            globals_before,
            globals_after,
            sequences_before,
            sequences_after,
            in_data,
            out_before,
            out_after,
            r,
        ),
    ensures
        no_new_locks(globals_before, globals_after),
        no_new_locks(sequences_before, sequences_after),
{
}

/// A command other than the start of a module that comes with a null
/// global pointer fails with [`Error::BadCallbackParameter`] and changes
/// nothing in either memory.
pub proof fn lemma_null_global_pointer_is_refused<G: AdobePluginGlobal, S: AdobePluginInstance<G>>(
    cmd: RawCommand,
    globals_before: Seq<BlockState<GlobalData<G>>>,
    globals_after: Seq<BlockState<GlobalData<G>>>,
    sequences_before: Seq<BlockState<S>>,
    sequences_after: Seq<BlockState<S>>,
    in_data: InData,
    out_before: OutData,
    out_after: OutData,
    r: Result<(), Error>,
)
    requires
        cmd != RawCommand::GlobalSetup,
        in_data.global_data.addr == 0,
        dispatched::<G, S>(
            cmd.tag_of(),
            globals_before,
            globals_after,
            sequences_before,
            sequences_after,
            in_data,
            out_before,
            out_after,
            r,
        ),
    ensures
        r == Err::<(), Error>(Error::BadCallbackParameter),
        globals_after == globals_before,
        sequences_after == sequences_before,
        same_slots(out_after, out_before),
{
    crate::command::lemma_tags_name_one_command(cmd, cmd);
}

/// For a plug-in without sequence state no command touches the sequence
/// memory, the sequence pointer or the diagnostic.
pub proof fn lemma_stateless_touches_no_sequence<G: AdobePluginGlobal, S: AdobePluginInstance<G>>(
    tag: i32,
    globals_before: Seq<BlockState<GlobalData<G>>>,
    globals_after: Seq<BlockState<GlobalData<G>>>,
    sequences_before: Seq<BlockState<S>>,
    sequences_after: Seq<BlockState<S>>,
    in_data: InData,
    out_before: OutData,
    out_after: OutData,
    r: Result<(), Error>,
)
    requires
        !S::STATEFUL,
        dispatched::<G, S>(
            tag,
            globals_before,
            globals_after,
            sequences_before,
            sequences_after,
            in_data,
            out_before,
            out_after,
            r,
        ),
    ensures
        sequences_after == sequences_before,
        out_after.sequence_data == out_before.sequence_data,
        out_after.diagnostic == out_before.diagnostic,
{
}

/// Once the parameters are declared the registry is closed: the command
/// that declares them leaves it frozen, and no later command other than
/// the end of the module changes it or the recorded number of parameters.
pub proof fn lemma_declared_registry_stays<G: AdobePluginGlobal, S: AdobePluginInstance<G>>(
    cmd: RawCommand,
    globals_before: Seq<BlockState<GlobalData<G>>>,
    globals_after: Seq<BlockState<GlobalData<G>>>,
    sequences_before: Seq<BlockState<S>>,
    sequences_after: Seq<BlockState<S>>,
    in_data: InData,
    out_before: OutData,
    out_after: OutData,
    r: Result<(), Error>,
)
    requires
        cmd != RawCommand::GlobalSetup,
        cmd != RawCommand::GlobalSetdown,
        block_at(globals_before, in_data.global_data) is Live,
        dispatched::<G, S>(
            cmd.tag_of(),
            globals_before,
            globals_after,
            sequences_before,
            sequences_after,
            in_data,
            out_before,
            out_after,
            r,
        ),
    ensures
        block_at(globals_before, in_data.global_data) matches BlockState::Live(data) && block_at(
            globals_after,
            in_data.global_data,
        ) matches BlockState::Live(left) && {
            &&& cmd == RawCommand::ParamsSetup ==> left.registry.frozen()
            &&& data.registry.frozen() ==> left.registry == data.registry && left.params_num
                == data.params_num
            &&& cmd == RawCommand::ParamsSetup && data.registry.frozen() ==> r == Err::<(), Error>(
                Error::RegistryFrozen,
            )
        },
{
    crate::command::lemma_tags_name_one_command(cmd, cmd);
}

/// The life of a module, whatever its handlers do: the start that is not
/// turned away leaves the module active, with its state in the block that
/// the host is told; the end leaves that block free and tells the host
/// null; every other command finds the module active and leaves it so.
pub proof fn lemma_module_life<G: AdobePluginGlobal, S: AdobePluginInstance<G>>(
    cmd: RawCommand,
    globals_before: Seq<BlockState<GlobalData<G>>>,
    globals_after: Seq<BlockState<GlobalData<G>>>,
    sequences_before: Seq<BlockState<S>>,
    sequences_after: Seq<BlockState<S>>,
    in_data: InData,
    out_before: OutData,
    out_after: OutData,
    r: Result<(), Error>,
)
    requires
        !turned_away(cmd, globals_before, in_data),
        dispatched::<G, S>(
            cmd.tag_of(),
            globals_before,
            globals_after,
            sequences_before,
            sequences_after,
            in_data,
            out_before,
            out_after,
            r,
        ),
    ensures
        cmd == RawCommand::GlobalSetup ==> out_after.global_data.addr != 0 && block_at(
            globals_after,
            out_after.global_data,
        ) is Live,
        cmd == RawCommand::GlobalSetdown ==> out_after.global_data.addr == 0 && block_at(
            globals_after,
            in_data.global_data,
        ) is Free,
        cmd != RawCommand::GlobalSetup && cmd != RawCommand::GlobalSetdown ==> block_at(
            globals_after,
            in_data.global_data,
        ) is Live && out_after.global_data == out_before.global_data,
{
    crate::command::lemma_tags_name_one_command(cmd, cmd);
}

/// The life of a sequence under the commands that succeed: creation and
/// restoration leave a live block and tell the host its address;
/// destruction tells the host null, and frees the block that the host
/// passed; the destructive turn into bytes frees the block that the host
/// passed and tells the host a flat block; the copy as bytes tells the
/// host a flat block and leaves the live block installed.
pub proof fn lemma_sequence_life<G: AdobePluginGlobal, S: AdobePluginInstance<G>>(
    cmd: RawCommand,
    globals_before: Seq<BlockState<GlobalData<G>>>,
    globals_after: Seq<BlockState<GlobalData<G>>>,
    sequences_before: Seq<BlockState<S>>,
    sequences_after: Seq<BlockState<S>>,
    in_data: InData,
    out_before: OutData,
    out_after: OutData,
)
    requires
        S::STATEFUL,
        dispatched::<G, S>(
            cmd.tag_of(),
            globals_before,
            globals_after,
            sequences_before,
            sequences_after,
            in_data,
            out_before,
            out_after,
            Ok(()),
        ),
    ensures
        cmd == RawCommand::SequenceSetup || cmd == RawCommand::SequenceResetup ==> block_at(
            sequences_after,
            out_after.sequence_data,
        ) is Live && block_at(sequences_before, out_after.sequence_data) is Free,
        in_data.sequence_data.addr != 0 && cmd == RawCommand::SequenceSetdown ==> block_at(
            sequences_after,
            in_data.sequence_data,
        ) is Free && out_after.sequence_data.addr == 0,
        in_data.sequence_data.addr != 0 && cmd == RawCommand::SequenceFlatten ==> block_at(
            sequences_after,
            in_data.sequence_data,
        ) is Free && block_at(sequences_after, out_after.sequence_data) is Flat,
        in_data.sequence_data.addr != 0 && cmd == RawCommand::GetFlattenedSequenceData ==> block_at(
            sequences_after,
            in_data.sequence_data,
        ) is Live && block_at(sequences_after, out_after.sequence_data) is Flat,
{
    crate::command::lemma_tags_name_one_command(cmd, cmd);
}

/// How the handling of a command ended.
pub enum Outcome {
    /// It ran to its end, with success or with an error of a known kind.
    Completed(Result<(), Error>),
    /// It broke off with a failure that is none of the known kinds. The
    /// bytes are what the failure said of itself.
    Defect(Vec<u8>),
}

/// The status that an outcome is reported with: that of its result, and
/// the generic failure for a defect.
pub open spec fn outcome_code(outcome: Outcome) -> i32 {
    match outcome {
        Outcome::Completed(r) => outcome_status(r),
        Outcome::Defect(_) => Error::Generic.code(),
    }
}

/// The text in front of an error's name in a message.
pub open spec fn error_prefix() -> &'static str {
    "EffectMain returned error: "
}

/// The text in front of what a defect said in a message.
pub open spec fn defect_prefix() -> &'static str {
    "EffectMain panicked! "
}

/// The message that an outcome is reported with, before it is cut to the
/// host's limit: none for success and for an interrupt by the user, the
/// name of the kind for any other error, and for a defect what it said.
pub open spec fn outcome_message(outcome: Outcome) -> Option<Seq<u8>> {
    match outcome {
        Outcome::Completed(Ok(_)) => None,
        Outcome::Completed(Err(Error::InterruptCancel)) => None,
        Outcome::Completed(Err(e)) => Some(error_prefix().spec_bytes() + e.name_of().spec_bytes()),
        Outcome::Defect(text) => Some(defect_prefix().spec_bytes() + text@),
    }
}

/// Adds the bytes of `tail` to `head`.
fn append_bytes(head: &mut Vec<u8>, tail: &[u8])
    ensures
        final(head)@ == old(head)@ + tail@,
{
    let mut i: usize = 0;
    while i < tail.len()
        invariant
            i <= tail@.len(),
            head@ == old(head)@ + tail@.take(i as int),
        decreases tail@.len() - i,
    {
        head.push(tail[i]);
        i += 1;
    }
    assert(tail@.take(i as int) == tail@);
}

/// Turns the outcome of a command into the status for the host, and leaves
/// a message for the user where there is something to say.
///
/// The status is always in the domain: zero for success, the code of the
/// kind for an error, the generic failure for a defect. The message is
/// [`outcome_message`], cut off at the host's limit; where there is none,
/// the plug-in's answer stays as it is.
pub fn report(outcome: Outcome, reply: &mut Reply) -> (status: i32)
    ensures
        status == outcome_code(outcome),
        crate::error::is_status(status),
        status == crate::error::STATUS_OK <==> outcome matches Outcome::Completed(Ok(_)),
        match outcome_message(outcome) {
            None => *final(reply) == *old(reply),
            Some(msg) => {
                &&& final(reply).return_msg@ == crate::plugin::capped(
                    msg,
                    crate::plugin::MESSAGE_LIMIT as int,
                )
                &&& final(reply).display_error
            },
        },
{
    match outcome {
        Outcome::Completed(Ok(_)) => crate::error::STATUS_OK,
        Outcome::Completed(Err(e)) => {
            match e {
                Error::InterruptCancel => {},
                _ => {
                    let mut msg: Vec<u8> = Vec::new();
                    append_bytes(&mut msg, "EffectMain returned error: ".as_bytes());
                    append_bytes(&mut msg, e.name().as_bytes());
                    reply.set_error_msg(msg.as_slice());
                },
            }
            e.status_code()
        },
        Outcome::Defect(text) => {
            let mut msg: Vec<u8> = Vec::new();
            append_bytes(&mut msg, "EffectMain panicked! ".as_bytes());
            append_bytes(&mut msg, text.as_slice());
            reply.set_error_msg(msg.as_slice());
            Error::Generic.status_code()
        },
    }
}

/// The dispatch entry: handles one command of the host and returns its
/// status.
///
/// This is [`handle_effect_main`] followed by [`report`]: what the call has
/// done is [`dispatched`] for the result that the status stands for, and
/// the status is always in the domain.
pub fn effect_main<G: AdobePluginGlobal, S: AdobePluginInstance<G>>(
    tag: i32,
    host: &mut Host<G, S>,
    in_data: &InData,
    out_data: &mut OutData,
    params: &[ParamDef],
    input: &Layer,
    output: &mut Layer,
    extra: &Extra,
) -> (status: i32)
    ensures
        crate::error::is_status(status),
        dispatched::<G, S>(
            tag,
            old(host).globals@,
            final(host).globals@,
            old(host).sequences@,
            final(host).sequences@,
            *in_data,
            *old(out_data),
            *final(out_data),
            crate::error::status_outcome(status),
        ),
        ends_unheard(tag, old(host).globals@, *in_data) ==> *final(output) == *old(output),
        outcome_message(Outcome::Completed(crate::error::status_outcome(status))) matches Some(msg)
            ==> {
            &&& final(out_data).reply.return_msg@ == crate::plugin::capped(
                msg,
                crate::plugin::MESSAGE_LIMIT as int,
            )
            &&& final(out_data).reply.display_error
        },
        status == crate::error::STATUS_OK && ends_unheard(tag, old(host).globals@, *in_data)
            ==> final(out_data).reply == old(out_data).reply,
{
    let r = handle_effect_main::<G, S>(tag, host, in_data, out_data, params, input, output, extra);
    proof {
        crate::error::lemma_status_round_trip(r);
    }
    report(Outcome::Completed(r), &mut out_data.reply)
}

/// The description entry, which the host calls once before any module
/// exists: says whether the module is to be described to this host.
///
/// The plug-in is asked only where the host gave both its name and its
/// version. The answer is yes only where it did, the plug-in is willing,
/// and the host passed a way to take the description.
pub fn plugin_data_entry<G: AdobePluginGlobal>(
    host_name: Option<&str>,
    host_version: Option<&str>,
    callback_present: bool,
) -> (accept: bool)
    ensures
        host_name is None || host_version is None || !callback_present ==> !accept,
        accept ==> call_ensures(G::can_load, (host_name->0, host_version->0), true),
        host_name is Some && host_version is Some && callback_present && !accept
            ==> call_ensures(G::can_load, (host_name->0, host_version->0), false),
{
    match (host_name, host_version) {
        (Some(name), Some(version)) => {
            let willing = G::can_load(name, version);
            willing && callback_present
        },
        _ => false,
    }
}

} // verus!
