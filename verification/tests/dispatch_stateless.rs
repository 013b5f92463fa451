use after_effects::command::{Command, Extra};
use after_effects::dispatch::{effect_main, handle_effect_main, plugin_data_entry, Host};
use after_effects::error::Error;
use after_effects::layer::{Layer, Rect};
use after_effects::memory::{BlockKind, RawPtr};
use after_effects::params::ParameterRegistry;
use after_effects::plugin::{
    AdobePluginGlobal, Diagnostic, InData, OutData, ParamDef, Parameters, Reply, SequenceData,
};
use after_effects::sequence::{flatten, unflatten};

const AMOUNT: u64 = 0x616d6f756e74;
const COLOR: u64 = 7;

const GLOBAL_SETUP: i32 = 1;
const GLOBAL_SETDOWN: i32 = 3;
const PARAMS_SETUP: i32 = 4;
const SEQUENCE_SETUP: i32 = 5;
const SEQUENCE_FLATTEN: i32 = 7;
const RENDER: i32 = 11;
const USER_CHANGED_PARAM: i32 = 13;
const ABOUT: i32 = 0;

#[derive(Default, Debug, PartialEq)]
struct Sharpen {
    commands: Vec<Command>,
    fail_on_about: bool,
}

impl AdobePluginGlobal for Sharpen {
    fn can_load(host_name: &str, host_version: &str) -> bool {
        host_name != "Unwelcome" && host_version != "0"
    }

    fn params_setup(
        &self,
        params: &mut ParameterRegistry,
        _in_data: &InData,
        _reply: &mut Reply,
    ) -> Result<(), Error> {
        params.declare(AMOUNT)?;
        params.declare(COLOR)?;
        Ok(())
    }

    fn handle_command(
        &mut self,
        command: &Command,
        _in_data: &InData,
        reply: &mut Reply,
        params: &Parameters,
        input: &Layer,
        output: &mut Layer,
    ) -> Result<(), Error> {
        self.commands.push(*command);
        match command {
            Command::About => {
                if self.fail_on_about {
                    return Err(Error::InterruptCancel);
                }
                reply.set_return_msg(b"Sharpen, v1");
            }
            Command::Render => {
                let amount = params.get(AMOUNT)?.value;
                if amount == 0 {
                    output.write_buffer(input.buffer().to_vec())?;
                } else {
                    let inverted = input.buffer().iter().map(|b| 255 - b).collect();
                    output.write_buffer(inverted)?;
                }
            }
            Command::UserChangedParam { param_index } => {
                if params.type_for_index(*param_index)? == COLOR {
                    reply.set_return_msg(b"color changed");
                }
            }
            _ => {}
        }
        Ok(())
    }
}

type Module = Host<Sharpen, ()>;

fn host(globals: usize) -> Module {
    Host::new(globals, 4)
}

fn rect() -> Rect {
    Rect { left: 0, top: 0, right: 2, bottom: 2 }
}

fn empty_layer() -> Layer {
    Layer::new(0, 0, 1, Rect { left: 0, top: 0, right: 0, bottom: 0 }, vec![]).unwrap()
}

fn in_data(global: usize) -> InData {
    InData {
        global_data: RawPtr { addr: global },
        sequence_data: RawPtr::null(),
        const_sequence_data: RawPtr::null(),
    }
}

fn send(module: &mut Module, tag: i32, in_data: &InData) -> (Result<(), Error>, OutData) {
    let mut out_data = OutData::new(in_data);
    let mut output = empty_layer();
    let r = handle_effect_main(
        tag,
        module,
        in_data,
        &mut out_data,
        &[],
        &empty_layer(),
        &mut output,
        &Extra { param_index: 0 },
    );
    (r, out_data)
}

fn started() -> (Module, InData) {
    let mut module = host(2);
    let (r, out) = send(&mut module, GLOBAL_SETUP, &in_data(0));
    assert_eq!(r, Ok(()));
    (module, in_data(out.global_data.addr))
}

fn commands_seen(module: &mut Module, ptr: RawPtr) -> Vec<Command> {
    let data = module.globals.lock(ptr).unwrap();
    let seen = data.plugin_instance.commands.clone();
    module.globals.unlock(ptr, data);
    seen
}

#[test]
fn module_start_installs_the_global_state() {
    let mut module = host(2);
    let (r, out) = send(&mut module, GLOBAL_SETUP, &in_data(0));
    assert_eq!(r, Ok(()));
    assert_eq!(out.global_data, RawPtr { addr: 1 });
    assert_eq!(out.sequence_data, RawPtr::null());
    assert_eq!(out.diagnostic, None);
    assert_eq!(module.globals.kind(out.global_data), BlockKind::Live);
    let data = module.globals.lock(out.global_data).unwrap();
    assert_eq!(data.params_num, 0);
    assert_eq!(data.registry.num_params(), 0);
    assert!(!data.registry.is_frozen());
    assert_eq!(data.plugin_instance.commands, vec![Command::GlobalSetup]);
}

#[test]
fn module_start_fails_when_the_host_has_no_block() {
    let mut module = host(0);
    let (r, out) = send(&mut module, GLOBAL_SETUP, &in_data(0));
    assert_eq!(r, Err(Error::AllocationFailed));
    assert_eq!(out.global_data, RawPtr::null());
}

#[test]
fn module_end_frees_the_global_state() {
    let (mut module, in_data) = started();
    let (r, out) = send(&mut module, GLOBAL_SETDOWN, &in_data);
    assert_eq!(r, Ok(()));
    assert_eq!(out.global_data, RawPtr::null());
    assert_eq!(module.globals.kind(in_data.global_data), BlockKind::Free);
    let (r, _) = send(&mut module, ABOUT, &in_data);
    assert_eq!(r, Err(Error::LockFailed));
    let (r, _) = send(&mut module, GLOBAL_SETDOWN, &in_data);
    assert_eq!(r, Err(Error::LockFailed));
}

#[test]
fn declared_parameter_has_index_zero() {
    let (mut module, in_data) = started();
    let (r, out) = send(&mut module, PARAMS_SETUP, &in_data);
    assert_eq!(r, Ok(()));
    assert_eq!(out.num_params, 2);
    assert_eq!(out.global_data, in_data.global_data);
    let data = module.globals.lock(in_data.global_data).unwrap();
    assert_eq!(data.registry.resolve_id(AMOUNT), Ok(0));
    assert_eq!(data.registry.resolve_id(COLOR), Ok(1));
    assert_eq!(data.registry.resolve_index(0), Ok(AMOUNT));
    assert_eq!(data.params_num, 2);
    assert!(data.registry.is_frozen());
}

#[test]
fn render_with_amount_zero_passes_the_input_through() {
    let (mut module, in_data) = started();
    assert_eq!(send(&mut module, PARAMS_SETUP, &in_data).0, Ok(()));
    let pixels: Vec<u8> = (1..=16).collect();
    let input = Layer::new(2, 2, 8, rect(), pixels.clone()).unwrap();
    let mut output = Layer::new(2, 2, 8, rect(), vec![0; 16]).unwrap();
    let mut out_data = OutData::new(&in_data);
    let amount = ParamDef { valid_min: 0, valid_max: 100, default: 93, value: 0 };
    let color = ParamDef { valid_min: 0, valid_max: 255, default: 111, value: 111 };
    let r = handle_effect_main(
        RENDER,
        &mut module,
        &in_data,
        &mut out_data,
        &[amount, color],
        &input,
        &mut output,
        &Extra { param_index: 0 },
    );
    assert_eq!(r, Ok(()));
    assert_eq!(output.buffer(), input.buffer());
    assert_eq!(output.buffer(), &pixels[..]);
    assert_eq!(module.globals.kind(in_data.global_data), BlockKind::Live);

    let sharp = ParamDef { valid_min: 0, valid_max: 100, default: 93, value: 93 };
    let r = handle_effect_main(
        RENDER,
        &mut module,
        &in_data,
        &mut out_data,
        &[sharp, color],
        &input,
        &mut output,
        &Extra { param_index: 0 },
    );
    assert_eq!(r, Ok(()));
    assert_eq!(output.buffer()[0], 254);
}

#[test]
fn render_without_the_parameter_array_fails_in_the_handler() {
    let (mut module, in_data) = started();
    assert_eq!(send(&mut module, PARAMS_SETUP, &in_data).0, Ok(()));
    let (r, _) = send(&mut module, RENDER, &in_data);
    assert_eq!(r, Err(Error::InvalidIndex));
    assert_eq!(module.globals.kind(in_data.global_data), BlockKind::Live);
}

#[test]
fn a_second_declaration_finds_the_registry_frozen() {
    let (mut module, in_data) = started();
    assert_eq!(send(&mut module, PARAMS_SETUP, &in_data).0, Ok(()));
    let (r, out) = send(&mut module, PARAMS_SETUP, &in_data);
    assert_eq!(r, Err(Error::RegistryFrozen));
    assert_eq!(out.num_params, 0);
    assert_eq!(module.globals.kind(in_data.global_data), BlockKind::Live);
    assert_eq!(
        commands_seen(&mut module, in_data.global_data),
        vec![Command::GlobalSetup, Command::ParamsSetup]
    );
    let data = module.globals.lock(in_data.global_data).unwrap();
    assert_eq!(data.registry.num_params(), 2);
    assert_eq!(data.registry.resolve_id(AMOUNT), Ok(0));
}

#[test]
fn null_global_pointer_is_a_bad_callback_parameter() {
    let (mut module, valid) = started();
    for tag in [ABOUT, GLOBAL_SETDOWN, PARAMS_SETUP, SEQUENCE_SETUP, RENDER, 28, 33] {
        let (r, out) = send(&mut module, tag, &in_data(0));
        assert_eq!(r, Err(Error::BadCallbackParameter));
        assert_eq!(out.global_data, RawPtr::null());
        assert_eq!(out.diagnostic, None);
        let mut out_data = OutData::new(&in_data(0));
        let mut output = empty_layer();
        let status = effect_main(
            tag,
            &mut module,
            &in_data(0),
            &mut out_data,
            &[],
            &empty_layer(),
            &mut output,
            &Extra { param_index: 0 },
        );
        assert_eq!(status, 516);
        assert_eq!(status, Error::BadCallbackParameter.status_code());
        assert_eq!(
            out_data.reply.return_msg,
            b"EffectMain returned error: BadCallbackParameter".to_vec()
        );
        assert!(out_data.reply.display_error);
    }
    assert_eq!(commands_seen(&mut module, valid.global_data), vec![Command::GlobalSetup]);
}

#[test]
fn an_unknown_tag_succeeds_and_touches_nothing() {
    let (mut module, valid) = started();
    for tag in [2, 25, 26, 27, 30, 34, -1, i32::MAX] {
        for in_data in [valid, in_data(0), in_data(2)] {
            let (r, out) = send(&mut module, tag, &in_data);
            assert_eq!(r, Ok(()));
            assert_eq!(out.global_data, in_data.global_data);
            assert!(out.reply.return_msg.is_empty());
        }
    }
    assert_eq!(commands_seen(&mut module, valid.global_data), vec![Command::GlobalSetup]);
    assert_eq!(module.globals.kind(RawPtr { addr: 2 }), BlockKind::Free);
}

#[test]
fn a_locked_global_block_fails_the_command_and_stays_locked() {
    let (mut module, in_data) = started();
    let held = module.globals.lock(in_data.global_data).unwrap();
    let (r, _) = send(&mut module, ABOUT, &in_data);
    assert_eq!(r, Err(Error::LockFailed));
    assert_eq!(module.globals.kind(in_data.global_data), BlockKind::Locked);
    assert_eq!(held.plugin_instance.commands, vec![Command::GlobalSetup]);
    module.globals.unlock(in_data.global_data, held);
    assert_eq!(send(&mut module, ABOUT, &in_data).0, Ok(()));
}

#[test]
fn every_command_gives_its_lock_back() {
    let (mut module, in_data) = started();
    for tag in 0..40 {
        if tag == GLOBAL_SETUP || tag == GLOBAL_SETDOWN {
            continue;
        }
        let _ = send(&mut module, tag, &in_data);
        assert_eq!(module.globals.kind(in_data.global_data), BlockKind::Live);
        for addr in 0..6 {
            assert_ne!(module.sequences.kind(RawPtr { addr }), BlockKind::Locked);
        }
    }
}

#[test]
fn a_failing_handler_still_gives_the_lock_back() {
    let (mut module, in_data) = started();
    let mut data = module.globals.lock(in_data.global_data).unwrap();
    data.plugin_instance.fail_on_about = true;
    module.globals.unlock(in_data.global_data, data);
    let (r, out) = send(&mut module, ABOUT, &in_data);
    assert_eq!(r, Err(Error::InterruptCancel));
    assert!(out.reply.return_msg.is_empty());
    assert_eq!(module.globals.kind(in_data.global_data), BlockKind::Live);
    assert_eq!(
        commands_seen(&mut module, in_data.global_data),
        vec![Command::GlobalSetup, Command::About]
    );
}

#[test]
fn a_plugin_without_sequence_state_never_touches_sequence_memory() {
    let (mut module, mut in_data) = started();
    in_data.sequence_data = RawPtr { addr: 3 };
    in_data.const_sequence_data = RawPtr { addr: 2 };
    for tag in [SEQUENCE_SETUP, 6, SEQUENCE_FLATTEN, 8, RENDER, 28, ABOUT] {
        let (_, out) = send(&mut module, tag, &in_data);
        assert_eq!(out.sequence_data, in_data.sequence_data);
        assert_eq!(out.diagnostic, None);
        for addr in 0..6 {
            assert_eq!(module.sequences.kind(RawPtr { addr }), BlockKind::Free);
        }
    }
}

#[test]
fn the_changed_parameter_is_resolved_through_the_registry() {
    let (mut module, in_data) = started();
    assert_eq!(send(&mut module, PARAMS_SETUP, &in_data).0, Ok(()));
    let mut out_data = OutData::new(&in_data);
    let mut output = empty_layer();
    let r = handle_effect_main(
        USER_CHANGED_PARAM,
        &mut module,
        &in_data,
        &mut out_data,
        &[],
        &empty_layer(),
        &mut output,
        &Extra { param_index: 1 },
    );
    assert_eq!(r, Ok(()));
    assert_eq!(out_data.reply.return_msg, b"color changed".to_vec());
    let r = handle_effect_main(
        USER_CHANGED_PARAM,
        &mut module,
        &in_data,
        &mut out_data,
        &[],
        &empty_layer(),
        &mut output,
        &Extra { param_index: 2 },
    );
    assert_eq!(r, Err(Error::InvalidIndex));
}

#[test]
fn the_description_entry_asks_the_plugin_only_for_a_named_host() {
    assert!(plugin_data_entry::<Sharpen>(Some("After Effects"), Some("24.0"), true));
    assert!(!plugin_data_entry::<Sharpen>(Some("After Effects"), Some("24.0"), false));
    assert!(!plugin_data_entry::<Sharpen>(None, Some("24.0"), true));
    assert!(!plugin_data_entry::<Sharpen>(Some("After Effects"), None, true));
    assert!(!plugin_data_entry::<Sharpen>(None, None, true));
    assert!(!plugin_data_entry::<Sharpen>(Some("Unwelcome"), Some("24.0"), true));
    assert!(!plugin_data_entry::<Sharpen>(Some("After Effects"), Some("0"), true));
}

#[test]
fn parameters_are_not_read_before_they_are_declared() {
    let (mut module, in_data) = started();
    let amount = ParamDef { valid_min: 0, valid_max: 100, default: 93, value: 0 };
    let mut out_data = OutData::new(&in_data);
    let mut output = empty_layer();
    let r = handle_effect_main(
        RENDER,
        &mut module,
        &in_data,
        &mut out_data,
        &[amount, amount],
        &empty_layer(),
        &mut output,
        &Extra { param_index: 0 },
    );
    assert_eq!(r, Err(Error::InvalidIndex));
}

#[test]
fn no_diagnostic_without_a_sequence_type() {
    let (mut module, in_data) = started();
    let (_, out) = send(&mut module, RENDER, &in_data);
    assert_ne!(out.diagnostic, Some(Diagnostic::SequenceMissing));
}

#[test]
fn a_sequence_without_state_persists_as_nothing() {
    assert_eq!(().flatten(), Ok((0, vec![])));
    assert_eq!(<() as SequenceData>::unflatten(0, &[]), Ok(()));
    assert_eq!(<() as SequenceData>::unflatten(9, &[1, 2, 3]), Ok(()));
    assert_eq!(flatten::<Sharpen, ()>(&()), Ok(vec![0, 0]));
    assert_eq!(unflatten::<Sharpen, ()>(&[0, 0]), Ok(()));
    assert_eq!(unflatten::<Sharpen, ()>(&[5, 1, 7]), Ok(()));
    assert_eq!(unflatten::<Sharpen, ()>(&[0]), Err(Error::CorruptData));
}
