//! The commands that the host issues, by tag and by meaning.

use vstd::prelude::*;

verus! {

/// A command as its tag names it, without what it carries.
///
/// Every module sees [`RawCommand::GlobalSetup`] first and
/// [`RawCommand::GlobalSetdown`] last. Every sequence sees
/// [`RawCommand::SequenceSetup`] or [`RawCommand::SequenceResetup`] before
/// any other command, and ends with [`RawCommand::SequenceSetdown`] or
/// [`RawCommand::SequenceFlatten`].
#[derive(Clone, Copy, Debug, PartialEq, Eq, Structural)]
pub enum RawCommand {
    About,
    /// The module starts: its global state is made.
    GlobalSetup,
    /// The module ends: its global state is torn down.
    GlobalSetdown,
    /// The host asks for the parameters.
    ParamsSetup,
    /// A sequence is created.
    SequenceSetup,
    /// A sequence is restored from persisted bytes.
    SequenceResetup,
    /// A sequence is turned into bytes and its live state is dropped.
    SequenceFlatten,
    /// A sequence is destroyed.
    SequenceSetdown,
    DoDialog,
    FrameSetup,
    Render,
    FrameSetdown,
    UserChangedParam,
    UpdateParamsUi,
    Event,
    GetExternalDependencies,
    CompletelyGeneral,
    QueryDynamicFlags,
    AudioRender,
    AudioSetup,
    AudioSetdown,
    ArbitraryCallback,
    SmartPreRender,
    SmartRender,
    /// The host asks for a copy of a sequence as bytes; the live state stays.
    GetFlattenedSequenceData,
    TranslateParamsToPrefs,
    SmartRenderGpu,
    GpuDeviceSetup,
    GpuDeviceSetdown,
}

/// What the host passes beside a command, as far as this layer reads it.
#[derive(Clone, Copy, Debug, PartialEq, Eq, Structural)]
pub struct Extra {
    /// The index of the parameter that the user changed.
    pub param_index: usize,
}

/// A command with what it carries, as the plug-in is handed it.
#[derive(Clone, Copy, Debug, PartialEq, Eq, Structural)]
pub enum Command {
    About,
    GlobalSetup,
    GlobalSetdown,
    ParamsSetup,
    SequenceSetup,
    SequenceResetup,
    SequenceFlatten,
    SequenceSetdown,
    DoDialog,
    FrameSetup,
    Render,
    FrameSetdown,
    UserChangedParam { param_index: usize },
    UpdateParamsUi,
    Event,
    GetExternalDependencies,
    CompletelyGeneral,
    QueryDynamicFlags,
    AudioRender,
    AudioSetup,
    AudioSetdown,
    ArbitraryCallback,
    SmartPreRender,
    SmartRender,
    GetFlattenedSequenceData,
    TranslateParamsToPrefs,
    SmartRenderGpu,
    GpuDeviceSetup,
    GpuDeviceSetdown,
}

impl RawCommand {
    /// The command that a tag names. Tags 2, 25, 26, 27 and 30 are set
    /// aside by the host and name nothing, as does every tag outside
    /// 0 to 33.
    pub open spec fn of_tag(tag: i32) -> Option<RawCommand> {
        if tag == 0 {
            Some(RawCommand::About)
        } else if tag == 1 {
            Some(RawCommand::GlobalSetup)
        } else if tag == 3 {
            Some(RawCommand::GlobalSetdown)
        } else if tag == 4 {
            Some(RawCommand::ParamsSetup)
        } else if tag == 5 {
            Some(RawCommand::SequenceSetup)
        } else if tag == 6 {
            Some(RawCommand::SequenceResetup)
        } else if tag == 7 {
            Some(RawCommand::SequenceFlatten)
        } else if tag == 8 {
            Some(RawCommand::SequenceSetdown)
        } else if tag == 9 {
            Some(RawCommand::DoDialog)
        } else if tag == 10 {
            Some(RawCommand::FrameSetup)
        } else if tag == 11 {
            Some(RawCommand::Render)
        } else if tag == 12 {
            Some(RawCommand::FrameSetdown)
        } else if tag == 13 {
            Some(RawCommand::UserChangedParam)
        } else if tag == 14 {
            Some(RawCommand::UpdateParamsUi)
        } else if tag == 15 {
            Some(RawCommand::Event)
        } else if tag == 16 {
            Some(RawCommand::GetExternalDependencies)
        } else if tag == 17 {
            Some(RawCommand::CompletelyGeneral)
        } else if tag == 18 {
            Some(RawCommand::QueryDynamicFlags)
        } else if tag == 19 {
            Some(RawCommand::AudioRender)
        } else if tag == 20 {
            Some(RawCommand::AudioSetup)
        } else if tag == 21 {
            Some(RawCommand::AudioSetdown)
        } else if tag == 22 {
            Some(RawCommand::ArbitraryCallback)
        } else if tag == 23 {
            Some(RawCommand::SmartPreRender)
        } else if tag == 24 {
            Some(RawCommand::SmartRender)
        } else if tag == 28 {
            Some(RawCommand::GetFlattenedSequenceData)
        } else if tag == 29 {
            Some(RawCommand::TranslateParamsToPrefs)
        } else if tag == 31 {
            Some(RawCommand::SmartRenderGpu)
        } else if tag == 32 {
            Some(RawCommand::GpuDeviceSetup)
        } else if tag == 33 {
            Some(RawCommand::GpuDeviceSetdown)
        } else {
            None
        }
    }

    /// The tag that names this command.
    pub open spec fn tag_of(self) -> i32 {
        match self {
            RawCommand::About => 0,
            RawCommand::GlobalSetup => 1,
            RawCommand::GlobalSetdown => 3,
            RawCommand::ParamsSetup => 4,
            RawCommand::SequenceSetup => 5,
            RawCommand::SequenceResetup => 6,
            RawCommand::SequenceFlatten => 7,
            RawCommand::SequenceSetdown => 8,
            RawCommand::DoDialog => 9,
            RawCommand::FrameSetup => 10,
            RawCommand::Render => 11,
            RawCommand::FrameSetdown => 12,
            RawCommand::UserChangedParam => 13,
            RawCommand::UpdateParamsUi => 14,
            RawCommand::Event => 15,
            RawCommand::GetExternalDependencies => 16,
            RawCommand::CompletelyGeneral => 17,
            RawCommand::QueryDynamicFlags => 18,
            RawCommand::AudioRender => 19,
            RawCommand::AudioSetup => 20,
            RawCommand::AudioSetdown => 21,
            RawCommand::ArbitraryCallback => 22,
            RawCommand::SmartPreRender => 23,
            RawCommand::SmartRender => 24,
            RawCommand::GetFlattenedSequenceData => 28,
            RawCommand::TranslateParamsToPrefs => 29,
            RawCommand::SmartRenderGpu => 31,
            RawCommand::GpuDeviceSetup => 32,
            RawCommand::GpuDeviceSetdown => 33,
        }
    }

    /// Reads a tag. A tag that names no command gives `None`: the host may
    /// know commands that this layer does not.
    pub fn from_tag(tag: i32) -> (cmd: Option<RawCommand>)
        ensures
            cmd == RawCommand::of_tag(tag),
            cmd matches Some(c) ==> c.tag_of() == tag,
    {
        match tag {
            0 => Some(RawCommand::About),
            1 => Some(RawCommand::GlobalSetup),
            3 => Some(RawCommand::GlobalSetdown),
            4 => Some(RawCommand::ParamsSetup),
            5 => Some(RawCommand::SequenceSetup),
            6 => Some(RawCommand::SequenceResetup),
            7 => Some(RawCommand::SequenceFlatten),
            8 => Some(RawCommand::SequenceSetdown),
            9 => Some(RawCommand::DoDialog),
            10 => Some(RawCommand::FrameSetup),
            11 => Some(RawCommand::Render),
            12 => Some(RawCommand::FrameSetdown),
            13 => Some(RawCommand::UserChangedParam),
            14 => Some(RawCommand::UpdateParamsUi),
            15 => Some(RawCommand::Event),
            16 => Some(RawCommand::GetExternalDependencies),
            17 => Some(RawCommand::CompletelyGeneral),
            18 => Some(RawCommand::QueryDynamicFlags),
            19 => Some(RawCommand::AudioRender),
            20 => Some(RawCommand::AudioSetup),
            21 => Some(RawCommand::AudioSetdown),
            22 => Some(RawCommand::ArbitraryCallback),
            23 => Some(RawCommand::SmartPreRender),
            24 => Some(RawCommand::SmartRender),
            28 => Some(RawCommand::GetFlattenedSequenceData),
            29 => Some(RawCommand::TranslateParamsToPrefs),
            31 => Some(RawCommand::SmartRenderGpu),
            32 => Some(RawCommand::GpuDeviceSetup),
            33 => Some(RawCommand::GpuDeviceSetdown),
            _ => None,
        }
    }

    /// The tag that names this command.
    pub fn tag(self) -> (tag: i32)
        ensures
            tag == self.tag_of(),
            RawCommand::of_tag(tag) == Some(self),
    {
        match self {
            RawCommand::About => 0,
            RawCommand::GlobalSetup => 1,
            RawCommand::GlobalSetdown => 3,
            RawCommand::ParamsSetup => 4,
            RawCommand::SequenceSetup => 5,
            RawCommand::SequenceResetup => 6,
            RawCommand::SequenceFlatten => 7,
            RawCommand::SequenceSetdown => 8,
            RawCommand::DoDialog => 9,
            RawCommand::FrameSetup => 10,
            RawCommand::Render => 11,
            RawCommand::FrameSetdown => 12,
            RawCommand::UserChangedParam => 13,
            RawCommand::UpdateParamsUi => 14,
            RawCommand::Event => 15,
            RawCommand::GetExternalDependencies => 16,
            RawCommand::CompletelyGeneral => 17,
            RawCommand::QueryDynamicFlags => 18,
            RawCommand::AudioRender => 19,
            RawCommand::AudioSetup => 20,
            RawCommand::AudioSetdown => 21,
            RawCommand::ArbitraryCallback => 22,
            RawCommand::SmartPreRender => 23,
            RawCommand::SmartRender => 24,
            RawCommand::GetFlattenedSequenceData => 28,
            RawCommand::TranslateParamsToPrefs => 29,
            RawCommand::SmartRenderGpu => 31,
            RawCommand::GpuDeviceSetup => 32,
            RawCommand::GpuDeviceSetdown => 33,
        }
    }

    /// Whether the command is about the module as a whole, so that no
    /// sequence takes part in it.
    pub open spec fn module_level(self) -> bool {
        self == RawCommand::GlobalSetup || self == RawCommand::GlobalSetdown
    }

    /// Whether the command is about the module as a whole.
    pub fn is_module_level(self) -> (b: bool)
        ensures
            b == self.module_level(),
    {
        self == RawCommand::GlobalSetup || self == RawCommand::GlobalSetdown
    }
}

impl Command {
    /// The command without what it carries.
    pub open spec fn raw_of(self) -> RawCommand {
        match self {
            Command::About => RawCommand::About,
            Command::GlobalSetup => RawCommand::GlobalSetup,
            Command::GlobalSetdown => RawCommand::GlobalSetdown,
            Command::ParamsSetup => RawCommand::ParamsSetup,
            Command::SequenceSetup => RawCommand::SequenceSetup,
            Command::SequenceResetup => RawCommand::SequenceResetup,
            Command::SequenceFlatten => RawCommand::SequenceFlatten,
            Command::SequenceSetdown => RawCommand::SequenceSetdown,
            Command::DoDialog => RawCommand::DoDialog,
            Command::FrameSetup => RawCommand::FrameSetup,
            Command::Render => RawCommand::Render,
            Command::FrameSetdown => RawCommand::FrameSetdown,
            Command::UserChangedParam { .. } => RawCommand::UserChangedParam,
            Command::UpdateParamsUi => RawCommand::UpdateParamsUi,
            Command::Event => RawCommand::Event,
            Command::GetExternalDependencies => RawCommand::GetExternalDependencies,
            Command::CompletelyGeneral => RawCommand::CompletelyGeneral,
            Command::QueryDynamicFlags => RawCommand::QueryDynamicFlags,
            Command::AudioRender => RawCommand::AudioRender,
            Command::AudioSetup => RawCommand::AudioSetup,
            Command::AudioSetdown => RawCommand::AudioSetdown,
            Command::ArbitraryCallback => RawCommand::ArbitraryCallback,
            Command::SmartPreRender => RawCommand::SmartPreRender,
            Command::SmartRender => RawCommand::SmartRender,
            Command::GetFlattenedSequenceData => RawCommand::GetFlattenedSequenceData,
            Command::TranslateParamsToPrefs => RawCommand::TranslateParamsToPrefs,
            Command::SmartRenderGpu => RawCommand::SmartRenderGpu,
            Command::GpuDeviceSetup => RawCommand::GpuDeviceSetup,
            Command::GpuDeviceSetdown => RawCommand::GpuDeviceSetdown,
        }
    }

    /// The command that the plug-in is handed for a tag's command and what
    /// the host passed beside it.
    pub fn from_entry_point(cmd: RawCommand, extra: &Extra) -> (command: Command)
        ensures
            command.raw_of() == cmd,
            cmd == RawCommand::UserChangedParam ==> command == (Command::UserChangedParam {
                param_index: extra.param_index,
            }),
    {
        match cmd {
            RawCommand::About => Command::About,
            RawCommand::GlobalSetup => Command::GlobalSetup,
            RawCommand::GlobalSetdown => Command::GlobalSetdown,
            RawCommand::ParamsSetup => Command::ParamsSetup,
            RawCommand::SequenceSetup => Command::SequenceSetup,
            RawCommand::SequenceResetup => Command::SequenceResetup,
            RawCommand::SequenceFlatten => Command::SequenceFlatten,
            RawCommand::SequenceSetdown => Command::SequenceSetdown,
            RawCommand::DoDialog => Command::DoDialog,
            RawCommand::FrameSetup => Command::FrameSetup,
            RawCommand::Render => Command::Render,
            RawCommand::FrameSetdown => Command::FrameSetdown,
            RawCommand::UserChangedParam => Command::UserChangedParam {
                param_index: extra.param_index,
            },
            RawCommand::UpdateParamsUi => Command::UpdateParamsUi,
            RawCommand::Event => Command::Event,
            RawCommand::GetExternalDependencies => Command::GetExternalDependencies,
            RawCommand::CompletelyGeneral => Command::CompletelyGeneral,
            RawCommand::QueryDynamicFlags => Command::QueryDynamicFlags,
            RawCommand::AudioRender => Command::AudioRender,
            RawCommand::AudioSetup => Command::AudioSetup,
            RawCommand::AudioSetdown => Command::AudioSetdown,
            RawCommand::ArbitraryCallback => Command::ArbitraryCallback,
            RawCommand::SmartPreRender => Command::SmartPreRender,
            RawCommand::SmartRender => Command::SmartRender,
            RawCommand::GetFlattenedSequenceData => Command::GetFlattenedSequenceData,
            RawCommand::TranslateParamsToPrefs => Command::TranslateParamsToPrefs,
            RawCommand::SmartRenderGpu => Command::SmartRenderGpu,
            RawCommand::GpuDeviceSetup => Command::GpuDeviceSetup,
            RawCommand::GpuDeviceSetdown => Command::GpuDeviceSetdown,
        }
    }

    /// The command without what it carries.
    pub fn raw(&self) -> (cmd: RawCommand)
        ensures
            cmd == self.raw_of(),
    {
        match self {
            Command::About => RawCommand::About,
            Command::GlobalSetup => RawCommand::GlobalSetup,
            Command::GlobalSetdown => RawCommand::GlobalSetdown,
            Command::ParamsSetup => RawCommand::ParamsSetup,
            Command::SequenceSetup => RawCommand::SequenceSetup,
            Command::SequenceResetup => RawCommand::SequenceResetup,
            Command::SequenceFlatten => RawCommand::SequenceFlatten,
            Command::SequenceSetdown => RawCommand::SequenceSetdown,
            Command::DoDialog => RawCommand::DoDialog,
            Command::FrameSetup => RawCommand::FrameSetup,
            Command::Render => RawCommand::Render,
            Command::FrameSetdown => RawCommand::FrameSetdown,
            Command::UserChangedParam { .. } => RawCommand::UserChangedParam,
            Command::UpdateParamsUi => RawCommand::UpdateParamsUi,
            Command::Event => RawCommand::Event,
            Command::GetExternalDependencies => RawCommand::GetExternalDependencies,
            Command::CompletelyGeneral => RawCommand::CompletelyGeneral,
            Command::QueryDynamicFlags => RawCommand::QueryDynamicFlags,
            Command::AudioRender => RawCommand::AudioRender,
            Command::AudioSetup => RawCommand::AudioSetup,
            Command::AudioSetdown => RawCommand::AudioSetdown,
            Command::ArbitraryCallback => RawCommand::ArbitraryCallback,
            Command::SmartPreRender => RawCommand::SmartPreRender,
            Command::SmartRender => RawCommand::SmartRender,
            Command::GetFlattenedSequenceData => RawCommand::GetFlattenedSequenceData,
            Command::TranslateParamsToPrefs => RawCommand::TranslateParamsToPrefs,
            Command::SmartRenderGpu => RawCommand::SmartRenderGpu,
            Command::GpuDeviceSetup => RawCommand::GpuDeviceSetup,
            Command::GpuDeviceSetdown => RawCommand::GpuDeviceSetdown,
        }
    }
}

/// A command's tag names that command and no other.
pub proof fn lemma_tags_name_one_command(a: RawCommand, b: RawCommand)
    ensures
        RawCommand::of_tag(a.tag_of()) == Some(a),
        a.tag_of() == b.tag_of() ==> a == b,
{
}

} // verus!
