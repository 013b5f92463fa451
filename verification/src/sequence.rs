//! The state of one sequence: made or restored, lent to the commands that
//! come for it, turned into bytes, destroyed.

use crate::command::RawCommand;
use crate::error::Error;
use crate::handle::{FlatHandle, Guard, Handle};
use crate::memory::{
    block_at, exhausted, lock_step, lowest_free, unlock_step, with_block, BlockState, HostMemory,
    RawPtr,
};
use crate::plugin::{AdobePluginInstance, Diagnostic, InData, OutData};
use crate::serializer::{
    envelope, lemma_envelope_round_trip, open, parse_envelope, seal, FormatVersion,
    VERSION_PREFIX_WIDTH,
};
use vstd::prelude::*;

verus! {

/// Where the value of a sequence came from, and so what is to become of its
/// block when the command ends.
#[derive(Clone, Copy, Debug, PartialEq, Eq, Structural)]
pub enum Provenance {
    /// Made afresh by this command, to be installed with the host.
    OwnedForSetup,
    /// Made from persisted bytes by this command, to be installed with the
    /// host.
    OwnedTransient,
    /// Installed already and found through the host's read-only lookup.
    /// This layer locks and unlocks the block and never frees it.
    ReadOnly,
    /// Installed already and passed with the command. This layer locks and
    /// unlocks the block, and frees it where the command ends the sequence.
    HostBlock,
}

/// What a command does about the sequence before any handler runs.
#[derive(Clone, Copy, Debug, PartialEq, Eq, Structural)]
pub enum SequencePlan {
    /// Nothing: the plug-in has no sequence state, or the command is about
    /// the module as a whole.
    Skip,
    /// Make a new value.
    Create,
    /// Make a new value in place of the bytes that the host did not pass.
    CreateWithoutData,
    /// Make a value from the bytes of a flat block.
    Restore { ptr: RawPtr },
    /// Take up the installed block.
    Adopt { ptr: RawPtr, provenance: Provenance },
    /// Nothing, and say so: the command is for a sequence and no block came
    /// with it.
    Missing,
}

/// The plan for a command. It depends on nothing but whether the plug-in has
/// sequence state, the command, and the pointers that came with it.
pub open spec fn plan_of(stateful: bool, cmd: RawCommand, in_data: InData) -> SequencePlan {
    if !stateful || cmd.module_level() {
        SequencePlan::Skip
    } else if cmd == RawCommand::SequenceSetup {
        SequencePlan::Create
    } else if cmd == RawCommand::SequenceResetup {
        if in_data.sequence_data.addr == 0 {
            SequencePlan::CreateWithoutData
        } else {
            SequencePlan::Restore { ptr: in_data.sequence_data }
        }
    } else if in_data.sequence_data.addr == 0 {
        if in_data.const_sequence_data.addr == 0 {
            SequencePlan::Missing
        } else {
            SequencePlan::Adopt {
                ptr: in_data.const_sequence_data,
                provenance: Provenance::ReadOnly,
            }
        }
    } else {
        SequencePlan::Adopt { ptr: in_data.sequence_data, provenance: Provenance::HostBlock }
    }
}

/// Whether a command ends the live state of the sequence it comes for.
pub open spec fn ends_sequence(cmd: RawCommand) -> bool {
    cmd == RawCommand::SequenceSetdown || cmd == RawCommand::SequenceFlatten
}

/// Whether a command asks for the sequence as bytes.
pub open spec fn asks_for_bytes(cmd: RawCommand) -> bool {
    cmd == RawCommand::SequenceFlatten || cmd == RawCommand::GetFlattenedSequenceData
}

/// Whether a command installs the sequence that it made.
pub open spec fn installs_sequence(cmd: RawCommand) -> bool {
    cmd == RawCommand::SequenceSetup || cmd == RawCommand::SequenceResetup
}

/// Decides what a command does about the sequence.
pub fn plan(stateful: bool, cmd: RawCommand, in_data: &InData) -> (p: SequencePlan)
    ensures
        p == plan_of(stateful, cmd, *in_data),
{
    if !stateful || cmd.is_module_level() {
        SequencePlan::Skip
    } else if cmd == RawCommand::SequenceSetup {
        SequencePlan::Create
    } else if cmd == RawCommand::SequenceResetup {
        if in_data.sequence_data.is_null() {
            SequencePlan::CreateWithoutData
        } else {
            SequencePlan::Restore { ptr: in_data.sequence_data }
        }
    } else if in_data.sequence_data.is_null() {
        if in_data.const_sequence_data.is_null() {
            SequencePlan::Missing
        } else {
            SequencePlan::Adopt {
                ptr: in_data.const_sequence_data,
                provenance: Provenance::ReadOnly,
            }
        }
    } else {
        SequencePlan::Adopt { ptr: in_data.sequence_data, provenance: Provenance::HostBlock }
    }
}

/// The bytes that persist what a plug-in wrote, or the error that is
/// reported where it could not write.
pub open spec fn sealed(written: Result<(FormatVersion, Vec<u8>), Error>) -> Result<Seq<u8>, Error> {
    match written {
        Ok((version, payload)) => Ok(envelope(version, payload@)),
        Err(_) => Err(Error::InternalStructDamaged),
    }
}

/// Puts what a plug-in wrote into its envelope. A plug-in that could not
/// write is reported as [`Error::InternalStructDamaged`], whatever its own
/// cause was.
pub fn seal_written(written: Result<(FormatVersion, Vec<u8>), Error>) -> (r: Result<Vec<u8>, Error>)
    ensures
        match sealed(written) {
            Ok(bytes) => r matches Ok(v) && v@ == bytes,
            Err(e) => r matches Err(f) && f == e,
        },
{
    match written {
        Ok((version, payload)) => Ok(seal(version, payload.as_slice())),
        Err(_) => Err(Error::InternalStructDamaged),
    }
}

/// Whether a plug-in can write `written` for a value.
pub open spec fn plugin_writes<G, S: AdobePluginInstance<G>>(
    value: S,
    written: Result<(FormatVersion, Vec<u8>), Error>,
) -> bool {
    call_ensures(S::flatten, (&value,), written)
}

/// Whether `bytes` can be what persists a value: the envelope of something
/// that the plug-in can write for it.
pub open spec fn persists<G, S: AdobePluginInstance<G>>(value: S, bytes: Seq<u8>) -> bool {
    exists|written: Result<(FormatVersion, Vec<u8>), Error>| #[trigger]
        plugin_writes::<G, S>(value, written) && sealed(written) == Ok::<Seq<u8>, Error>(bytes)
}

/// Whether a plug-in can fail to write a value.
pub open spec fn cannot_persist<G, S: AdobePluginInstance<G>>(value: S) -> bool {
    exists|written: Result<(FormatVersion, Vec<u8>), Error>| #[trigger]
        plugin_writes::<G, S>(value, written) && written is Err
}

/// Turns a sequence value into persisted bytes: what the plug-in writes for
/// it, in its envelope. Where the plug-in cannot write, that is reported as
/// [`Error::InternalStructDamaged`].
pub fn flatten<G, S: AdobePluginInstance<G>>(value: &S) -> (r: Result<Vec<u8>, Error>)
    ensures
        r matches Ok(bytes) ==> persists::<G, S>(*value, bytes@),
        r matches Err(e) ==> e == Error::InternalStructDamaged && cannot_persist::<G, S>(*value),
{
    let written = value.flatten();
    assert(plugin_writes::<G, S>(*value, written));
    seal_written(written)
}

/// What is reported for the value that a plug-in made of persisted bytes: a
/// plug-in that could not read them is reported as [`Error::CorruptData`],
/// whatever its own cause was.
pub fn fold_restored<S>(restored: Result<S, Error>) -> (r: Result<S, Error>)
    ensures
        match restored {
            Ok(value) => r == Ok::<S, Error>(value),
            Err(_) => r == Err::<S, Error>(Error::CorruptData),
        },
{
    match restored {
        Ok(value) => Ok(value),
        Err(_) => Err(Error::CorruptData),
    }
}

/// Whether a plug-in, handed a version and a payload, can make `restored`
/// of them.
pub open spec fn plugin_restores<G, S: AdobePluginInstance<G>>(
    version: FormatVersion,
    payload: Seq<u8>,
    restored: Result<S, Error>,
) -> bool {
    exists|serialized: &[u8]|
        serialized@ == payload && #[trigger] call_ensures(
            S::unflatten,
            (version, serialized),
            restored,
        )
}

/// Whether `value` can be what persisted bytes restore to: what the plug-in
/// can make of the version and the payload in them.
pub open spec fn restores_to<G, S: AdobePluginInstance<G>>(bytes: Seq<u8>, value: S) -> bool {
    parse_envelope(bytes) matches Some((version, payload)) && plugin_restores::<G, S>(
        version,
        payload,
        Ok(value),
    )
}

/// Whether persisted bytes can restore to some value.
pub open spec fn restorable<G, S: AdobePluginInstance<G>>(bytes: Seq<u8>) -> bool {
    exists|value: S| #[trigger] restores_to::<G, S>(bytes, value)
}

/// Whether persisted bytes can fail to restore: they are no envelope, or
/// the plug-in can refuse the version and the payload in them.
pub open spec fn cannot_restore<G, S: AdobePluginInstance<G>>(bytes: Seq<u8>) -> bool {
    match parse_envelope(bytes) {
        None => true,
        Some((version, payload)) => plugin_refuses::<G, S>(version, payload),
    }
}

/// Whether a plug-in, handed a version and a payload, can fail to make a
/// value of them.
pub open spec fn plugin_refuses<G, S: AdobePluginInstance<G>>(
    version: FormatVersion,
    payload: Seq<u8>,
) -> bool {
    exists|cause: Error| #[trigger] plugin_restores::<G, S>(version, payload, Err(cause))
}

/// Makes a sequence value from persisted bytes.
///
/// Bytes shorter than the version prefix are refused as
/// [`Error::CorruptData`] and the plug-in is not asked. For any other bytes
/// the plug-in is handed the version and all bytes behind it, and what it
/// makes of them is returned; where it fails, that is
/// [`Error::CorruptData`] too.
pub fn unflatten<G, S: AdobePluginInstance<G>>(bytes: &[u8]) -> (r: Result<S, Error>)
    ensures
        bytes@.len() < VERSION_PREFIX_WIDTH ==> r == Err::<S, Error>(Error::CorruptData),
        r matches Ok(value) ==> restores_to::<G, S>(bytes@, value),
        r matches Err(e) ==> e == Error::CorruptData && cannot_restore::<G, S>(bytes@),
{
    match open(bytes) {
        Err(e) => Err(e),
        Ok((version, payload)) => {
            let restored = S::unflatten(version, payload);
            assert(plugin_restores::<G, S>(version, payload@, restored)) by {
                assert(call_ensures(S::unflatten, (version, payload), restored));
            }
            proof {
                if let Err(cause) = restored {
                    assert(plugin_restores::<G, S>(version, payload@, Err::<S, Error>(cause)));
                }
            }
            fold_restored(restored)
        },
    }
}

/// What persists a value restores to whatever the plug-in makes of what it
/// wrote for that value: the envelope adds nothing and loses nothing. So
/// where the plug-in's two halves are inverse to each other on a value,
/// `restored` is that value again.
pub proof fn lemma_flatten_then_unflatten<G, S: AdobePluginInstance<G>>(
    value: S,
    version: FormatVersion,
    payload: Vec<u8>,
    restored: S,
)
    requires
        plugin_writes::<G, S>(value, Ok((version, payload))),
        plugin_restores::<G, S>(version, payload@, Ok(restored)),
    ensures
        persists::<G, S>(value, envelope(version, payload@)),
        restores_to::<G, S>(envelope(version, payload@), restored),
{
    lemma_envelope_round_trip(version, payload@);
    let written: Result<(FormatVersion, Vec<u8>), Error> = Ok((version, payload));
    assert(sealed(written) == Ok::<Seq<u8>, Error>(envelope(version, payload@)));
}

/// The state of a sequence while one command has it: the handle on its
/// block, the guard of the lock, and where the value came from.
pub struct SequenceState<S> {
    handle: Handle<S>,
    guard: Guard<S>,
    provenance: Provenance,
}

impl<S> SequenceState<S> {
    #[verifier::type_invariant]
    spec fn one_block(&self) -> bool {
        self.guard.ptr() == self.handle.ptr()
    }

    /// The address of the sequence's block.
    pub closed spec fn ptr(&self) -> RawPtr {
        self.handle.ptr()
    }

    /// Whether the block is freed where the command ends the sequence.
    pub closed spec fn owning(&self) -> bool {
        self.handle.owning()
    }

    /// The value of the sequence, as it is now.
    pub closed spec fn value(&self) -> S {
        self.guard.value()
    }

    /// Where the value came from.
    pub closed spec fn provenance(&self) -> Provenance {
        self.provenance
    }

    /// Where the value came from.
    pub fn origin(&self) -> (provenance: Provenance)
        ensures
            provenance == self.provenance(),
    {
        self.provenance
    }

    /// Reads the value of the sequence.
    pub fn get(&self) -> (value: &S)
        ensures
            *value == self.value(),
    {
        self.guard.get()
    }

    /// Lends the value of the sequence for change.
    pub fn get_mut(&mut self) -> (value: &mut S)
        ensures
            *value == old(self).value(),
            final(self).value() == *final(value),
            final(self).ptr() == old(self).ptr(),
            final(self).owning() == old(self).owning(),
            final(self).provenance() == old(self).provenance(),
        no_unwind
    {
        proof {
            use_type_invariant(&*self);
        }
        self.guard.get_mut()
    }
}

/// What making a block for a new value does: where the host has a block
/// left, the value is in the lowest free block, which is locked for the
/// command; where it has none, the memory stays as it is.
pub open spec fn made<S>(
    before: Seq<BlockState<S>>,
    after: Seq<BlockState<S>>,
    r: Result<Option<SequenceState<S>>, Error>,
    provenance: Provenance,
) -> bool {
    if exhausted(before) {
        r == Err::<Option<SequenceState<S>>, Error>(Error::AllocationFailed) && after == before
    } else {
        &&& r matches Ok(Some(state))
        &&& state.owning()
        &&& state.provenance() == provenance
        &&& state.ptr().addr != 0
        &&& lowest_free(before, state.ptr())
        &&& after == with_block(before, state.ptr(), BlockState::Locked)
    }
}

/// What taking up an installed block does: a live block is locked and its
/// value is lent; any other block refuses and the memory stays as it is.
pub open spec fn adopted<S>(
    before: Seq<BlockState<S>>,
    after: Seq<BlockState<S>>,
    r: Result<Option<SequenceState<S>>, Error>,
    cmd: RawCommand,
    ptr: RawPtr,
    provenance: Provenance,
) -> bool {
    match lock_step(before, ptr) {
        Some((value, blocks)) => {
            &&& r matches Ok(Some(state))
            &&& state.ptr() == ptr
            &&& state.value() == value
            &&& state.provenance() == provenance
            &&& state.owning() == (provenance == Provenance::HostBlock && ends_sequence(cmd))
            &&& after == blocks
        },
        None => r == Err::<Option<SequenceState<S>>, Error>(Error::LockFailed) && after == before,
    }
}

/// What restoring from the block at an address does. The block is to be
/// flat; its bytes are read as an envelope, the plug-in makes a value of
/// them, and the value gets a block as a new one does. Bytes that are no
/// envelope are refused before anything else is looked at, and the plug-in
/// is asked before a block is. The flat block stays with the host.
pub open spec fn restored<G, S: AdobePluginInstance<G>>(
    before: Seq<BlockState<S>>,
    after: Seq<BlockState<S>>,
    r: Result<Option<SequenceState<S>>, Error>,
    ptr: RawPtr,
) -> bool {
    match block_at(before, ptr) {
        BlockState::Flat(bytes) => {
            &&& parse_envelope(bytes) is None ==> r == Err::<Option<SequenceState<S>>, Error>(
                Error::CorruptData,
            )
            &&& match r {
                Ok(Some(state)) => made(before, after, r, Provenance::OwnedTransient)
                    && restores_to::<G, S>(bytes, state.value()),
                Ok(None) => false,
                Err(e) => {
                    &&& after == before
                    &&& e == Error::CorruptData || e == Error::AllocationFailed
                    &&& e == Error::CorruptData ==> cannot_restore::<G, S>(bytes)
                    &&& e == Error::AllocationFailed ==> exhausted(before) && restorable::<G, S>(
                        bytes,
                    )
                },
            }
        },
        _ => r == Err::<Option<SequenceState<S>>, Error>(Error::InvalidIndex) && after == before,
    }
}

/// What carrying out a plan does to the memory, and what comes back.
pub open spec fn resolved<G, S: AdobePluginInstance<G>>(
    plan: SequencePlan,
    cmd: RawCommand,
    before: Seq<BlockState<S>>,
    after: Seq<BlockState<S>>,
    r: Result<Option<SequenceState<S>>, Error>,
) -> bool {
    match plan {
        SequencePlan::Skip | SequencePlan::Missing => r == Ok::<
            Option<SequenceState<S>>,
            Error,
        >(None) && after == before,
        SequencePlan::Create | SequencePlan::CreateWithoutData => {
            &&& made(before, after, r, Provenance::OwnedForSetup)
            &&& r matches Ok(Some(state)) ==> call_ensures(S::default, (), state.value())
        },
        SequencePlan::Restore { ptr } => restored::<G, S>(before, after, r, ptr),
        SequencePlan::Adopt { ptr, provenance } => adopted(before, after, r, cmd, ptr, provenance),
    }
}

/// What a plan that was carried out leaves for the caller to note.
pub open spec fn diagnostic_of(plan: SequencePlan, before: Option<Diagnostic>) -> Option<
    Diagnostic,
> {
    match plan {
        SequencePlan::Missing => Some(Diagnostic::SequenceMissing),
        SequencePlan::CreateWithoutData => Some(Diagnostic::RestoredWithoutData),
        _ => before,
    }
}

impl<S> SequenceState<S> {
    fn make(memory: &mut HostMemory<S>, value: S, provenance: Provenance) -> (r: Result<
        Option<SequenceState<S>>,
        Error,
    >)
        ensures
            made(old(memory)@, final(memory)@, r, provenance),
            r matches Ok(Some(state)) ==> state.value() == value,
    {
        let handle = match Handle::wrap(memory, value) {
            Ok(handle) => handle,
            Err(e) => {
                return Err(e);
            },
        };
        match handle.lock(memory) {
            Ok(guard) => {
                assert(final(memory)@ == with_block(
                    old(memory)@,
                    handle.ptr(),
                    BlockState::Locked,
                ));
                Ok(Some(SequenceState { handle, guard, provenance }))
            },
            Err(e) => {
                handle.dispose(memory);
                Err(e)
            },
        }
    }

    /// Gets the sequence that a command works on, locked for the command.
    ///
    /// What is done follows [`plan_of`]: nothing for a plug-in without
    /// sequence state and for a command about the module; a new value for a
    /// sequence that is created; a value made of persisted bytes for one
    /// that is restored, or a new one where the host passed no bytes; the
    /// installed block for every other command, by the host's read-only
    /// lookup where the command itself has no pointer. Where neither has a
    /// pointer the command goes on without a sequence, and the diagnostic
    /// says so.
    ///
    /// Every failure leaves the memory as it was: no block left
    /// ([`Error::AllocationFailed`]), a block that cannot be locked
    /// ([`Error::LockFailed`]), a block to restore from that is not flat
    /// ([`Error::InvalidIndex`]), bytes that are no envelope or that the
    /// plug-in refuses ([`Error::CorruptData`]).
    pub fn resolve<G>(
        cmd: RawCommand,
        memory: &mut HostMemory<S>,
        in_data: &InData,
        out_data: &mut OutData,
    ) -> (r: Result<Option<SequenceState<S>>, Error>) where S: AdobePluginInstance<G>
        ensures
            resolved::<G, S>(
                plan_of(S::STATEFUL, cmd, *in_data),
                cmd,
                old(memory)@,
                final(memory)@,
                r,
            ),
            final(out_data).diagnostic == if r is Ok {
                diagnostic_of(plan_of(S::STATEFUL, cmd, *in_data), old(out_data).diagnostic)
            } else {
                old(out_data).diagnostic
            },
            final(out_data).global_data == old(out_data).global_data,
            final(out_data).sequence_data == old(out_data).sequence_data,
            final(out_data).num_params == old(out_data).num_params,
            final(out_data).reply == old(out_data).reply,
    {
        match plan(S::STATEFUL, cmd, in_data) {
            SequencePlan::Skip => Ok(None),
            SequencePlan::Missing => {
                out_data.diagnostic = Some(Diagnostic::SequenceMissing);
                Ok(None)
            },
            SequencePlan::Create => {
                let value = S::default();
                SequenceState::make(memory, value, Provenance::OwnedForSetup)
            },
            SequencePlan::CreateWithoutData => {
                let value = S::default();
                let made = SequenceState::make(memory, value, Provenance::OwnedForSetup);
                if made.is_ok() {
                    out_data.diagnostic = Some(Diagnostic::RestoredWithoutData);
                }
                made
            },
            SequencePlan::Restore { ptr } => {
                let value = match memory.flat_bytes(ptr) {
                    None => {
                        return Err(Error::InvalidIndex);
                    },
                    Some(bytes) => match unflatten::<G, S>(bytes) {
                        Ok(value) => value,
                        Err(e) => {
                            return Err(e);
                        },
                    },
                };
                SequenceState::make(memory, value, Provenance::OwnedTransient)
            },
            SequencePlan::Adopt { ptr, provenance } => {
                let owning = match provenance {
                    Provenance::HostBlock => cmd == RawCommand::SequenceSetdown || cmd
                        == RawCommand::SequenceFlatten,
                    _ => false,
                };
                let handle = match Handle::from_raw(ptr, owning) {
                    Ok(handle) => handle,
                    Err(_) => {
                        return Err(Error::LockFailed);
                    },
                };
                match handle.lock(memory) {
                    Ok(guard) => Ok(Some(SequenceState { handle, guard, provenance })),
                    Err(e) => Err(e),
                }
            },
        }
    }
}

/// The sequence memory after a command that does not ask for bytes has let
/// go of the block at `ptr`, which it had locked and whose value is now
/// `value`: the block is unlocked, and freed where the command ends the
/// sequence and the block is this layer's to free.
pub open spec fn sequence_after<S>(
    blocks: Seq<BlockState<S>>,
    cmd: RawCommand,
    ptr: RawPtr,
    owning: bool,
    value: S,
) -> Seq<BlockState<S>> {
    let unlocked = unlock_step(blocks, ptr, value);
    if ends_sequence(cmd) && owning {
        with_block(unlocked, ptr, BlockState::Free)
    } else {
        unlocked
    }
}

/// The sequence memory after a command that asks for bytes has put them
/// into the flat block at `flat` and let go of the live block at `ptr`.
pub open spec fn sequence_flattened<S>(
    blocks: Seq<BlockState<S>>,
    cmd: RawCommand,
    ptr: RawPtr,
    owning: bool,
    value: S,
    flat: RawPtr,
    bytes: Seq<u8>,
) -> Seq<BlockState<S>> {
    sequence_after(with_block(blocks, flat, BlockState::Flat(bytes)), cmd, ptr, owning, value)
}

/// The sequence pointer that the host is told after a command that does
/// not ask for bytes: the block of a sequence that was made, null for one
/// that was destroyed, else the pointer that the host has.
pub open spec fn sequence_pointer_after(cmd: RawCommand, ptr: RawPtr, before: RawPtr) -> RawPtr {
    if installs_sequence(cmd) {
        ptr
    } else if cmd == RawCommand::SequenceSetdown {
        RawPtr { addr: 0 }
    } else {
        before
    }
}

impl<S> SequenceState<S> {
    /// Ends the command's hold on the sequence and tells the host where the
    /// sequence is from now on.
    ///
    /// A sequence that was made is unlocked and surrendered to the host. A
    /// sequence that is destroyed is unlocked and the host is told null; its
    /// block is freed unless it came through the read-only lookup. For a
    /// command that asks for bytes the plug-in writes the value, the bytes
    /// go into a new flat block in their envelope, and the host is told that
    /// block; the live block is then freed where the command ends the
    /// sequence, and stays installed where it only asks for a copy. After
    /// any other command the block is unlocked and nothing else changes.
    ///
    /// Where the plug-in cannot write ([`Error::InternalStructDamaged`]) or
    /// the host has no block for the bytes ([`Error::AllocationFailed`]),
    /// the live block is unlocked and stays installed, and the host keeps
    /// the pointer that it has.
    ///
    /// `memory` is the memory that the sequence was resolved in, where its
    /// block is still locked.
    pub fn commit<G>(
        self,
        cmd: RawCommand,
        memory: &mut HostMemory<S>,
        out_data: &mut OutData,
    ) -> (r: Result<(), Error>) where S: AdobePluginInstance<G>
        ensures
            !asks_for_bytes(cmd) ==> {
                &&& r is Ok
                &&& final(memory)@ == sequence_after(
                    old(memory)@,
                    cmd,
                    self.ptr(),
                    self.owning(),
                    self.value(),
                )
                &&& final(out_data).sequence_data == sequence_pointer_after(
                    cmd,
                    self.ptr(),
                    old(out_data).sequence_data,
                )
            },
            asks_for_bytes(cmd) && r is Ok && block_at(old(memory)@, self.ptr()) is Locked ==> {
                &&& lowest_free(old(memory)@, final(out_data).sequence_data)
                &&& block_at(final(memory)@, final(out_data).sequence_data) matches BlockState::Flat(
                    bytes,
                )
                &&& persists::<G, S>(self.value(), bytes)
                &&& final(memory)@ == sequence_flattened(
                    old(memory)@,
                    cmd,
                    self.ptr(),
                    self.owning(),
                    self.value(),
                    final(out_data).sequence_data,
                    bytes,
                )
            },
            asks_for_bytes(cmd) ==> (r matches Err(e) ==> {
                &&& final(memory)@ == unlock_step(old(memory)@, self.ptr(), self.value())
                &&& final(out_data).sequence_data == old(out_data).sequence_data
                &&& e == Error::InternalStructDamaged || e == Error::AllocationFailed
                &&& e == Error::InternalStructDamaged ==> cannot_persist::<G, S>(self.value())
                &&& e == Error::AllocationFailed ==> exhausted(old(memory)@)
            }),
            final(out_data).global_data == old(out_data).global_data,
            final(out_data).num_params == old(out_data).num_params,
            final(out_data).diagnostic == old(out_data).diagnostic,
            final(out_data).reply == old(out_data).reply,
    {
        proof {
            use_type_invariant(&self);
        }
        let SequenceState { handle, guard, provenance: _ } = self;
        match cmd {
            RawCommand::SequenceSetup | RawCommand::SequenceResetup => {
                guard.release(memory);
                out_data.sequence_data = handle.into_raw();
                Ok(())
            },
            RawCommand::SequenceSetdown => {
                guard.release(memory);
                handle.dispose(memory);
                out_data.sequence_data = RawPtr::null();
                Ok(())
            },
            RawCommand::SequenceFlatten | RawCommand::GetFlattenedSequenceData => {
                let flat = match flatten::<G, S>(guard.get()) {
                    Ok(bytes) => FlatHandle::new(memory, bytes),
                    Err(e) => Err(e),
                };
                match flat {
                    Ok(flat) => {
                        guard.release(memory);
                        match cmd {
                            RawCommand::SequenceFlatten => {
                                handle.dispose(memory);
                            },
                            _ => {},
                        }
                        out_data.sequence_data = flat.into_raw();
                        Ok(())
                    },
                    Err(e) => {
                        guard.release(memory);
                        Err(e)
                    },
                }
            },
            _ => {
                guard.release(memory);
                Ok(())
            },
        }
    }
}

} // verus!
