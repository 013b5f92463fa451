//! What a plug-in implements, and the values that it is handed.

use crate::command::Command;
use crate::error::Error;
use crate::layer::Layer;
use crate::memory::RawPtr;
use crate::params::{position_of, ParamId, ParameterRegistry};
use crate::serializer::FormatVersion;
use vstd::prelude::*;

verus! {

/// The longest message that the host takes, in bytes.
pub const MESSAGE_LIMIT: usize = 255;

/// What the host tells with a command.
#[derive(Clone, Copy, Debug, PartialEq, Eq, Structural)]
pub struct InData {
    /// The module's global block, null before the module has started.
    pub global_data: RawPtr,
    /// The sequence's block, null where the host passes none.
    pub sequence_data: RawPtr,
    /// The sequence's block as the host's read-only lookup gave it, null
    /// where the lookup is unavailable or found nothing.
    pub const_sequence_data: RawPtr,
}

/// Something unexpected that a command got over, for the caller to note.
#[derive(Clone, Copy, Debug, PartialEq, Eq, Structural)]
pub enum Diagnostic {
    /// A command came for a sequence with no block at all: neither the
    /// command nor the read-only lookup gave one. It ran without a sequence.
    SequenceMissing,
    /// A sequence was to be restored and the host passed no bytes. It was
    /// made afresh instead.
    RestoredWithoutData,
}

/// What a plug-in may tell the host in answer to a command.
pub struct Reply {
    /// A message for the user, at most [`MESSAGE_LIMIT`] bytes.
    pub return_msg: Vec<u8>,
    /// Whether the host is to show the message as an error.
    pub display_error: bool,
}

/// What the host is told when a command returns.
pub struct OutData {
    /// The module's global block as it is to be from now on.
    pub global_data: RawPtr,
    /// The sequence's block as it is to be from now on.
    pub sequence_data: RawPtr,
    /// How many parameters the module declared.
    pub num_params: usize,
    /// What the command got over, if anything.
    pub diagnostic: Option<Diagnostic>,
    /// The plug-in's answer.
    pub reply: Reply,
}

/// One entry of the parameter array that the host passes with a command.
#[derive(Clone, Copy, Debug, PartialEq, Eq, Structural)]
pub struct ParamDef {
    pub valid_min: i32,
    pub valid_max: i32,
    pub default: i32,
    pub value: i32,
}

/// The parameters of one command: the registry of the module, and the array
/// that the host passed.
pub struct Parameters<'a> {
    pub registry: &'a ParameterRegistry,
    pub defs: &'a [ParamDef],
}

/// The first `limit` bytes of a message, or all of it where it is shorter.
pub open spec fn capped(msg: Seq<u8>, limit: int) -> Seq<u8> {
    if msg.len() <= limit {
        msg
    } else {
        msg.take(limit)
    }
}

impl Reply {
    /// An empty answer.
    pub fn new() -> (reply: Reply)
        ensures
            reply.return_msg@ == Seq::<u8>::empty(),
            !reply.display_error,
    {
        Reply { return_msg: Vec::new(), display_error: false }
    }

    /// Sets the message. One longer than [`MESSAGE_LIMIT`] bytes is cut off
    /// there, not refused.
    pub fn set_return_msg(&mut self, msg: &[u8])
        ensures
            final(self).return_msg@ == capped(msg@, MESSAGE_LIMIT as int),
            final(self).return_msg@.len() <= MESSAGE_LIMIT,
            final(self).display_error == old(self).display_error,
    {
        let mut bytes: Vec<u8> = Vec::new();
        let mut i: usize = 0;
        while i < msg.len() && i < MESSAGE_LIMIT
            invariant
                i <= msg@.len(),
                i <= MESSAGE_LIMIT,
                bytes@ == msg@.take(i as int),
            decreases msg@.len() - i,
        {
            bytes.push(msg[i]);
            i += 1;
        }
        assert(msg@.len() <= MESSAGE_LIMIT ==> msg@.take(i as int) == msg@);
        self.return_msg = bytes;
    }

    /// Sets the message and asks the host to show it as an error.
    pub fn set_error_msg(&mut self, msg: &[u8])
        ensures
            final(self).return_msg@ == capped(msg@, MESSAGE_LIMIT as int),
            final(self).return_msg@.len() <= MESSAGE_LIMIT,
            final(self).display_error,
    {
        self.set_return_msg(msg);
        self.display_error = true;
    }
}

impl OutData {
    /// What the host is told where a command changes nothing: both blocks
    /// as the host passed them, no parameter, no diagnostic, no message.
    pub fn new(in_data: &InData) -> (out_data: OutData)
        ensures
            out_data.global_data == in_data.global_data,
            out_data.sequence_data == in_data.sequence_data,
            out_data.num_params == 0,
            out_data.diagnostic is None,
            out_data.reply.return_msg@ == Seq::<u8>::empty(),
            !out_data.reply.display_error,
    {
        OutData {
            global_data: in_data.global_data,
            sequence_data: in_data.sequence_data,
            num_params: 0,
            diagnostic: None,
            reply: Reply::new(),
        }
    }
}

/// The part of the host's parameter array that a command may read: as many
/// entries from the front as parameters were declared, or all of it where
/// it is shorter.
pub open spec fn visible(defs: Seq<ParamDef>, declared: usize) -> Seq<ParamDef> {
    if defs.len() <= declared {
        defs
    } else {
        defs.take(declared as int)
    }
}

/// Cuts the host's parameter array to the number of declared parameters.
/// The array itself says nothing of its length that could be relied on;
/// what was recorded at the declaration does.
pub fn visible_params(defs: &[ParamDef], declared: usize) -> (r: &[ParamDef])
    ensures
        r@ == visible(defs@, declared),
{
    if defs.len() <= declared {
        defs
    } else {
        let cut = vstd::slice::slice_subrange(defs, 0, declared);
        assert(cut@ == defs@.take(declared as int));
        cut
    }
}

impl<'a> Parameters<'a> {
    /// What [`Parameters::get`] gives for an identifier: the entry at its
    /// index, where it has one and the host's array reaches that far.
    pub open spec fn lookup(&self, id: ParamId) -> Result<ParamDef, Error> {
        match position_of(self.registry@, id) {
            Some(i) => if i < self.defs@.len() {
                Ok(self.defs@[i])
            } else {
                Err(Error::InvalidIndex)
            },
            None => Err(Error::InvalidIndex),
        }
    }

    /// The host's entry for a parameter, by identifier. An identifier that
    /// was never declared, or whose index the host's array does not reach,
    /// gives [`Error::InvalidIndex`].
    pub fn get(&self, id: ParamId) -> (r: Result<ParamDef, Error>)
        ensures
            r == self.lookup(id),
    {
        match self.registry.resolve_id(id) {
            Ok(index) => {
                if index < self.defs.len() {
                    Ok(self.defs[index])
                } else {
                    Err(Error::InvalidIndex)
                }
            },
            Err(e) => Err(e),
        }
    }

    /// The identifier of the parameter at an index, or
    /// [`Error::InvalidIndex`] for an index that no declaration gave out.
    pub fn type_for_index(&self, index: usize) -> (r: Result<ParamId, Error>)
        ensures
            index < self.registry@.len() ==> r == Ok::<ParamId, Error>(
                self.registry@[index as int],
            ),
            index >= self.registry@.len() ==> r == Err::<ParamId, Error>(Error::InvalidIndex),
    {
        self.registry.resolve_index(index)
    }

    /// How many parameters the module declared.
    pub fn num_params(&self) -> (n: usize)
        ensures
            n == self.registry@.len(),
    {
        self.registry.num_params()
    }
}

/// The module-wide half of a plug-in: one value for as long as the module is
/// loaded.
pub trait AdobePluginGlobal: Default + Sized {
    /// Whether the module is willing to run in a host of this name and
    /// version.
    fn can_load(host_name: &str, host_version: &str) -> bool;

    /// Declares the module's parameters, in the order of their indices.
    fn params_setup(
        &self,
        params: &mut ParameterRegistry,
        in_data: &InData,
        reply: &mut Reply,
    ) -> Result<(), Error>;

    /// Handles one command. `input` and `output` are the frame of a
    /// [`Command::Render`].
    fn handle_command(
        &mut self,
        command: &Command,
        in_data: &InData,
        reply: &mut Reply,
        params: &Parameters,
        input: &Layer,
        output: &mut Layer,
    ) -> Result<(), Error>;
}

/// How the value of a sequence is persisted. This is the same whatever
/// module the sequence belongs to.
pub trait SequenceData: Default + Sized {
    /// Turns the value into a version and bytes.
    fn flatten(&self) -> Result<(FormatVersion, Vec<u8>), Error>;

    /// Makes a value from a version and bytes. For what [`Self::flatten`]
    /// gave, this is to give an equal value back.
    fn unflatten(version: FormatVersion, serialized: &[u8]) -> Result<Self, Error>;
}

/// The per-sequence half of a plug-in, for a module of global type `G`: one
/// value for each sequence that the host attaches.
///
/// A plug-in without sequence state uses `()`.
pub trait AdobePluginInstance<G>: SequenceData {
    /// Whether sequences of this type have any state. Where they have none,
    /// no block is ever made, locked or turned into bytes for them.
    const STATEFUL: bool;

    /// Renders one frame.
    fn render(
        &self,
        global: &mut G,
        in_data: &InData,
        reply: &mut Reply,
        params: &Parameters,
        in_layer: &Layer,
        out_layer: &mut Layer,
    ) -> Result<(), Error>;

    /// Handles one command.
    fn handle_command(
        &mut self,
        global: &mut G,
        command: &Command,
        in_data: &InData,
        reply: &mut Reply,
        params: &Parameters,
    ) -> Result<(), Error>;
}

/// What persists the value of a sequence without state: version zero and
/// no bytes.
pub open spec fn unit_written(written: Result<(FormatVersion, Vec<u8>), Error>) -> bool {
    written matches Ok((version, payload)) && version == 0 && payload@ == Seq::<u8>::empty()
}

impl SequenceData for () {
    /// Writes nothing: version zero and no bytes, always.
    fn flatten(&self) -> (r: Result<(FormatVersion, Vec<u8>), Error>)
        ensures
            unit_written(r),
    {
        Ok((0, Vec::new()))
    }

    /// Reads nothing: whatever the version and the bytes, the value is the
    /// one value that there is.
    fn unflatten(version: FormatVersion, serialized: &[u8]) -> (r: Result<Self, Error>)
        ensures
            r == Ok::<(), Error>(()),
    {
        Ok(())
    }
}

impl<G> AdobePluginInstance<G> for () {
    const STATEFUL: bool = false;

    fn render(
        &self,
        global: &mut G,
        in_data: &InData,
        reply: &mut Reply,
        params: &Parameters,
        in_layer: &Layer,
        out_layer: &mut Layer,
    ) -> (r: Result<(), Error>)
        ensures
            r is Ok,
            *final(global) == *old(global),
            *final(reply) == *old(reply),
            *final(out_layer) == *old(out_layer),
    {
        Ok(())
    }

    fn handle_command(
        &mut self,
        global: &mut G,
        command: &Command,
        in_data: &InData,
        reply: &mut Reply,
        params: &Parameters,
    ) -> (r: Result<(), Error>)
        ensures
            r is Ok,
            *final(global) == *old(global),
            *final(reply) == *old(reply),
    {
        Ok(())
    }
}

} // verus!
