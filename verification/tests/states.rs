use firewire_ctl_protocols::float32::Float32;
use firewire_ctl_protocols::motu::command_dsp::cmd::{build_commands, DspCmd};
use firewire_ctl_protocols::motu::command_dsp::diff::{holds_command, retain_changed};
use firewire_ctl_protocols::motu::command_dsp::effects::{DynamicsParameter, EqualizerParameter};
use firewire_ctl_protocols::motu::command_dsp::effects_state::{
    create_dynamics_parameters, create_equalizer_parameters, parse_dynamics_parameter,
    parse_equalizer_parameter, CommandDspDynamicsState, CommandDspEqualizerState,
};
use firewire_ctl_protocols::motu::command_dsp::framer::build_command_frames;
use firewire_ctl_protocols::motu::command_dsp::input::InputCmd;
use firewire_ctl_protocols::motu::command_dsp::input_state::{
    changed_input_commands, create_input_commands, create_input_state, parse_input_command,
    parse_input_commands,
};
use firewire_ctl_protocols::motu::command_dsp::mixer::MixerCmd;
use firewire_ctl_protocols::motu::command_dsp::mixer_state::{
    changed_mixer_commands, create_mixer_commands, create_mixer_state, parse_mixer_command,
    parse_mixer_commands, MIXER_COUNT,
};
use firewire_ctl_protocols::motu::command_dsp::monitor::{FocusTarget, MonitorCmd};
use firewire_ctl_protocols::motu::command_dsp::monitor_state::{
    changed_monitor_commands, create_monitor_commands, parse_monitor_command,
    parse_monitor_commands, CommandDspMonitorState,
};
use firewire_ctl_protocols::motu::command_dsp::output::OutputCmd;
use firewire_ctl_protocols::motu::command_dsp::output_state::{
    changed_output_commands, create_output_commands, create_output_state, parse_output_commands,
};
use firewire_ctl_protocols::motu::command_dsp::params::{
    FilterType5, InputStereoPairMode, LevelerMode, RollOffLevel, RoomShape, SourceStereoPairMode,
    SplitPoint,
};
use firewire_ctl_protocols::motu::command_dsp::reverb::ReverbCmd;
use firewire_ctl_protocols::motu::command_dsp::reverb_state::{
    changed_reverb_commands, create_reverb_command, parse_reverb_command, parse_reverb_commands,
    CommandDspReverbState,
};
use firewire_ctl_protocols::motu::{target_position, TargetPort};

fn f32_bits(val: f32) -> Float32 {
    Float32::from_bits(val.to_bits())
}

const PORTS: [TargetPort; 4] = [
    TargetPort::Disabled,
    TargetPort::MainPair0,
    TargetPort::PhonePair0,
    TargetPort::AnalogPair0,
];

#[test]
fn place_of_a_port() {
    assert_eq!(target_position(&PORTS, TargetPort::Disabled), 0);
    assert_eq!(target_position(&PORTS, TargetPort::PhonePair0), 2);
    assert_eq!(target_position(&PORTS, TargetPort::Adat7), 0);
    assert_eq!(target_position(&[], TargetPort::Adat7), 0);
    let twice = [TargetPort::Adat0, TargetPort::Adat1, TargetPort::Adat1];
    assert_eq!(target_position(&twice, TargetPort::Adat1), 1);
    assert_eq!(TargetPort::default(), TargetPort::Disabled);
}

#[test]
fn difference_of_command_lists() {
    let old = vec![
        DspCmd::Reverb(ReverbCmd::Enable(false)),
        DspCmd::Reverb(ReverbCmd::PreDelay(10)),
        DspCmd::Reserved(vec![1, 2]),
    ];
    let new = vec![
        DspCmd::Reverb(ReverbCmd::Enable(true)),
        DspCmd::Reverb(ReverbCmd::PreDelay(10)),
        DspCmd::Reserved(vec![1, 2]),
        DspCmd::Reserved(vec![1, 3]),
        DspCmd::Reverb(ReverbCmd::Enable(false)),
    ];
    assert!(holds_command(&old, &DspCmd::Reserved(vec![1, 2])));
    assert!(!holds_command(&old, &DspCmd::Reserved(vec![1])));
    assert_eq!(
        retain_changed(&new, &old),
        vec![DspCmd::Reverb(ReverbCmd::Enable(true)), DspCmd::Reserved(vec![1, 3])]
    );
    assert!(retain_changed(&new, &new).is_empty());
    assert!(retain_changed(&[], &old).is_empty());
    assert_eq!(retain_changed(&old, &[]), old);
}

#[test]
fn reverb_state_to_commands() {
    let state = CommandDspReverbState {
        enable: true,
        split_point: SplitPoint::Mixer,
        pre_delay: 1,
        shelf_filter_freq: 2,
        shelf_filter_attenuation: -3,
        decay_time: 4,
        freq_time: [5, 6, 7],
        freq_crossover: [8, 9],
        width: f32_bits(0.5),
        reflection_mode: RoomShape::C,
        reflection_size: 10,
        reflection_level: f32_bits(0.25),
    };
    let cmds = create_reverb_command(&state);
    assert_eq!(
        cmds,
        vec![
            DspCmd::Reverb(ReverbCmd::Enable(true)),
            DspCmd::Reverb(ReverbCmd::Split(SplitPoint::Mixer)),
            DspCmd::Reverb(ReverbCmd::PreDelay(1)),
            DspCmd::Reverb(ReverbCmd::ShelfFilterFreq(2)),
            DspCmd::Reverb(ReverbCmd::ShelfFilterAttenuation(-3)),
            DspCmd::Reverb(ReverbCmd::DecayTime(4)),
            DspCmd::Reverb(ReverbCmd::LowFreqTime(5)),
            DspCmd::Reverb(ReverbCmd::MiddleFreqTime(6)),
            DspCmd::Reverb(ReverbCmd::HighFreqTime(7)),
            DspCmd::Reverb(ReverbCmd::LowFreqCrossover(8)),
            DspCmd::Reverb(ReverbCmd::HighFreqCrossover(9)),
            DspCmd::Reverb(ReverbCmd::Width(f32_bits(0.5))),
            DspCmd::Reverb(ReverbCmd::ReflectionMode(RoomShape::C)),
            DspCmd::Reverb(ReverbCmd::ReflectionSize(10)),
            DspCmd::Reverb(ReverbCmd::ReflectionLevel(f32_bits(0.25))),
        ]
    );
    let mut mirror = CommandDspReverbState::default();
    parse_reverb_commands(&mut mirror, &cmds);
    assert_eq!(create_reverb_command(&mirror), cmds);
    assert_eq!(mirror.freq_time, [5, 6, 7]);
    assert_eq!(mirror.freq_crossover, [8, 9]);
}

#[test]
fn reverb_commands_of_other_sections_are_passed_over() {
    let mut state = CommandDspReverbState::default();
    parse_reverb_commands(
        &mut state,
        &[
            DspCmd::Input(InputCmd::Phase(0, true)),
            DspCmd::Reverb(ReverbCmd::Reserved(vec![0, 0x20, 0, 4], vec![1])),
            DspCmd::Reverb(ReverbCmd::MiddleFreqTime(77)),
            DspCmd::Reserved(vec![0x62]),
        ],
    );
    assert_eq!(state.freq_time, [0, 77, 0]);
    assert!(!state.enable);
    parse_reverb_command(&mut state, &ReverbCmd::Enable(true));
    assert!(state.enable);
}

#[test]
fn same_state_sends_nothing() {
    let mut state = CommandDspReverbState::default();
    state.decay_time = 500;
    let cmds = changed_reverb_commands(&state, &state.clone());
    assert!(cmds.is_empty());
    let mut seq = 17u8;
    assert!(build_command_frames(&mut seq, &cmds).is_empty());
    assert_eq!(seq, 17);

    let monitor = CommandDspMonitorState::default();
    assert!(changed_monitor_commands(&monitor, &monitor.clone(), &PORTS).is_empty());
    let input = create_input_state(4, 2);
    assert!(changed_input_commands(&input, &create_input_state(4, 2), 4, 2).is_empty());
    let output = create_output_state(3);
    assert!(changed_output_commands(&output, &create_output_state(3), 3).is_empty());
    let mixer = create_mixer_state(5);
    assert!(changed_mixer_commands(&mixer, &create_mixer_state(5), 5, &PORTS).is_empty());
}

#[test]
fn one_changed_parameter_sends_one_command() {
    let old = CommandDspReverbState::default();
    let mut state = old;
    state.freq_crossover[1] = 1000;
    assert_eq!(
        changed_reverb_commands(&state, &old),
        vec![DspCmd::Reverb(ReverbCmd::HighFreqCrossover(1000))]
    );

    let old = CommandDspMonitorState::default();
    let mut state = old;
    state.assign_target = TargetPort::AnalogPair0;
    assert_eq!(
        changed_monitor_commands(&state, &old, &PORTS),
        vec![DspCmd::Monitor(MonitorCmd::ReturnAssign(3))]
    );

    let old = create_input_state(4, 2);
    let mut state = create_input_state(4, 2);
    state.equalizer.lf_gain[3] = f32_bits(-20.0);
    assert_eq!(
        changed_input_commands(&state, &old, 4, 2),
        vec![DspCmd::Input(InputCmd::Equalizer(3, EqualizerParameter::LfGain(f32_bits(-20.0))))]
    );
    state.phantom[1] = true;
    assert_eq!(
        changed_input_commands(&state, &old, 4, 2),
        vec![
            DspCmd::Input(InputCmd::Equalizer(3, EqualizerParameter::LfGain(f32_bits(-20.0)))),
            DspCmd::Input(InputCmd::Phantom(1, true)),
        ]
    );

    let old = create_output_state(3);
    let mut state = create_output_state(3);
    state.dynamics.leveler_mode[2] = LevelerMode::Limit;
    assert_eq!(
        changed_output_commands(&state, &old, 3),
        vec![DspCmd::Output(OutputCmd::Dynamics(2, DynamicsParameter::LevelerMode(LevelerMode::Limit)))]
    );

    let old = create_mixer_state(5);
    let mut state = create_mixer_state(5);
    state.source[7].stereo_mode[4] = SourceStereoPairMode::LrBalance;
    state.output_assign[0] = TargetPort::PhonePair0;
    assert_eq!(
        changed_mixer_commands(&state, &old, 5, &PORTS),
        vec![
            DspCmd::Mixer(MixerCmd::OutputAssign(0, 2)),
            DspCmd::Mixer(MixerCmd::SourceStereoMode(7, 4, SourceStereoPairMode::LrBalance)),
        ]
    );
}

#[test]
fn monitor_state_and_commands() {
    let mut state = CommandDspMonitorState::default();
    assert_eq!(state.focus, FocusTarget::Output(0));
    let cmds = vec![
        DspCmd::Monitor(MonitorCmd::Volume(f32_bits(1.0))),
        DspCmd::Monitor(MonitorCmd::TalkbackEnable(true)),
        DspCmd::Monitor(MonitorCmd::ListenbackEnable(true)),
        DspCmd::Monitor(MonitorCmd::TalkbackVolume(f32_bits(0.5))),
        DspCmd::Monitor(MonitorCmd::ListenbackVolume(f32_bits(0.25))),
        DspCmd::Monitor(MonitorCmd::Focus(FocusTarget::Input(3))),
        DspCmd::Monitor(MonitorCmd::ReturnAssign(1)),
    ];
    parse_monitor_commands(&mut state, &cmds, &PORTS);
    assert_eq!(state.assign_target, TargetPort::MainPair0);
    assert_eq!(state.main_volume, f32_bits(1.0));
    assert_eq!(create_monitor_commands(&state, &PORTS), cmds);
    parse_monitor_command(&mut state, &MonitorCmd::ReturnAssign(4), &PORTS);
    assert_eq!(state.assign_target, TargetPort::Disabled);
    parse_monitor_command(&mut state, &MonitorCmd::Reserved(vec![0, 3, 0, 0], vec![1]), &PORTS);
    assert_eq!(state.assign_target, TargetPort::Disabled);
}

#[test]
fn equalizer_and_dynamics_parameters() {
    let mut eq = CommandDspEqualizerState::new(2);
    let params = create_equalizer_parameters(&eq, 1);
    assert_eq!(params.len(), 32);
    assert_eq!(params[0], EqualizerParameter::Enable(false));
    assert_eq!(params[2], EqualizerParameter::HpfSlope(RollOffLevel::L6));
    assert_eq!(params[4], EqualizerParameter::LpfEnable(false));
    assert_eq!(params[8], EqualizerParameter::LfType(FilterType5::T1));
    assert_eq!(params[31], EqualizerParameter::HfWidth(f32_bits(0.0)));
    parse_equalizer_parameter(&mut eq, &EqualizerParameter::HfWidth(f32_bits(3.0)), 1);
    parse_equalizer_parameter(&mut eq, &EqualizerParameter::HfWidth(f32_bits(2.0)), 2);
    assert_eq!(eq.hf_width, vec![f32_bits(0.0), f32_bits(3.0)]);
    assert_eq!(create_equalizer_parameters(&eq, 1)[31], EqualizerParameter::HfWidth(f32_bits(3.0)));

    let mut dynamics = CommandDspDynamicsState::new(1);
    let params = create_dynamics_parameters(&dynamics, 0);
    assert_eq!(params.len(), 12);
    assert_eq!(params[3], DynamicsParameter::CompThreshold(0));
    parse_dynamics_parameter(&mut dynamics, &DynamicsParameter::CompThreshold(-48), 0);
    assert_eq!(dynamics.comp_threshold, vec![-48]);
}

#[test]
fn input_state_and_commands() {
    let mut state = create_input_state(3, 2);
    assert_eq!(state.phase.len(), 3);
    assert_eq!(state.pad.len(), 2);
    assert_eq!(state.stereo_mode, vec![InputStereoPairMode::LeftRight; 3]);
    let cmds = create_input_commands(&state, 3, 2);
    assert_eq!(cmds.len(), 3 * 52 + 2 * 5);
    assert_eq!(cmds[0], DspCmd::Input(InputCmd::Phase(0, false)));
    assert_eq!(cmds[5], DspCmd::Input(InputCmd::Width(0, f32_bits(0.0))));
    assert_eq!(cmds[6], DspCmd::Input(InputCmd::Equalizer(0, EqualizerParameter::Enable(false))));
    assert_eq!(cmds[38], DspCmd::Input(InputCmd::Dynamics(0, DynamicsParameter::Enable(false))));
    assert_eq!(cmds[50], DspCmd::Input(InputCmd::ReverbSend(0, f32_bits(0.0))));
    assert_eq!(cmds[51], DspCmd::Input(InputCmd::ReverbLrBalance(0, f32_bits(0.0))));
    assert_eq!(cmds[52], DspCmd::Input(InputCmd::Phase(1, false)));
    assert_eq!(cmds[156], DspCmd::Input(InputCmd::Pad(0, false)));
    assert_eq!(cmds[165], DspCmd::Input(InputCmd::Softclip(1, false)));

    parse_input_commands(
        &mut state,
        &[
            DspCmd::Input(InputCmd::Gain(2, -96)),
            DspCmd::Input(InputCmd::Gain(3, 22)),
            DspCmd::Output(OutputCmd::MasterMonitor(0, true)),
            DspCmd::Input(InputCmd::Softclip(1, true)),
            DspCmd::Input(InputCmd::Softclip(2, true)),
            DspCmd::Input(InputCmd::Equalizer(1, EqualizerParameter::HpfFreq(20))),
            DspCmd::Input(InputCmd::Dynamics(9, DynamicsParameter::Enable(true))),
        ],
    );
    assert_eq!(state.gain, vec![0, 0, -96]);
    assert_eq!(state.soft_clip, vec![false, true]);
    assert_eq!(state.equalizer.hpf_freq, vec![0, 20, 0]);
    assert_eq!(state.dynamics.enable, vec![false; 3]);
    parse_input_command(&mut state, &InputCmd::Reserved(vec![0, 0, 0xfe, 1], vec![1]));
    assert_eq!(state.gain, vec![0, 0, -96]);

    // What the state writes, a mirror reads back.
    let written = create_input_commands(&state, 3, 2);
    let mut mirror = create_input_state(3, 2);
    parse_input_commands(&mut mirror, &written);
    assert_eq!(create_input_commands(&mirror, 3, 2), written);
    assert_eq!(build_commands(&written).len(), written.iter().map(|cmd| {
        let mut raw = Vec::new();
        cmd.build(&mut raw);
        raw.len()
    }).sum::<usize>());
}

#[test]
fn output_state_and_commands() {
    let mut state = create_output_state(2);
    let cmds = create_output_commands(&state, 2);
    assert_eq!(cmds.len(), 2 * 49);
    assert_eq!(cmds[0], DspCmd::Output(OutputCmd::Equalizer(0, EqualizerParameter::Enable(false))));
    assert_eq!(cmds[44], DspCmd::Output(OutputCmd::ReverbSend(0, f32_bits(0.0))));
    assert_eq!(cmds[48], DspCmd::Output(OutputCmd::MasterListenback(0, false)));
    assert_eq!(cmds[97], DspCmd::Output(OutputCmd::MasterListenback(1, false)));
    parse_output_commands(
        &mut state,
        &[
            DspCmd::Output(OutputCmd::MasterTalkback(1, true)),
            DspCmd::Output(OutputCmd::MasterTalkback(2, true)),
            DspCmd::Output(OutputCmd::ReverbReturn(0, f32_bits(1.0))),
        ],
    );
    assert_eq!(state.master_talkback, vec![false, true]);
    assert_eq!(state.reverb_return, vec![f32_bits(1.0), f32_bits(0.0)]);
}

#[test]
fn mixer_state_and_commands() {
    let mut state = create_mixer_state(2);
    let cmds = create_mixer_commands(&state, 2, &PORTS);
    assert_eq!(cmds.len(), MIXER_COUNT * (5 + 2 * 7));
    assert_eq!(cmds[0], DspCmd::Mixer(MixerCmd::OutputAssign(0, 0)));
    assert_eq!(cmds[4], DspCmd::Mixer(MixerCmd::ReverbReturn(0, f32_bits(0.0))));
    assert_eq!(cmds[5], DspCmd::Mixer(MixerCmd::SourceMute(0, 0, false)));
    assert_eq!(cmds[7], DspCmd::Mixer(MixerCmd::SourceGain(0, 0, f32_bits(0.0))));
    assert_eq!(cmds[8], DspCmd::Mixer(MixerCmd::SourceMonauralLrBalance(0, 0, f32_bits(0.0))));
    assert_eq!(cmds[12], DspCmd::Mixer(MixerCmd::SourceMute(0, 1, false)));
    assert_eq!(cmds[19], DspCmd::Mixer(MixerCmd::OutputAssign(1, 0)));

    parse_mixer_commands(
        &mut state,
        &[
            DspCmd::Mixer(MixerCmd::OutputAssign(1, 2)),
            DspCmd::Mixer(MixerCmd::OutputAssign(2, 9)),
            DspCmd::Mixer(MixerCmd::OutputAssign(8, 1)),
            DspCmd::Mixer(MixerCmd::OutputMute(7, true)),
            DspCmd::Mixer(MixerCmd::SourceSolo(3, 1, true)),
            DspCmd::Mixer(MixerCmd::SourceSolo(3, 2, true)),
            DspCmd::Mixer(MixerCmd::SourceSolo(8, 0, true)),
            DspCmd::Mixer(MixerCmd::SourceGain(0, 0, f32_bits(1.0))),
        ],
        &PORTS,
    );
    assert_eq!(state.output_assign[1], TargetPort::PhonePair0);
    assert_eq!(state.output_assign[2], TargetPort::Disabled);
    assert!(state.output_mute[7]);
    assert_eq!(state.source[3].solo, vec![false, true]);
    assert_eq!(state.source[0].gain, vec![f32_bits(1.0), f32_bits(0.0)]);
    let ports = [TargetPort::MainPair0, TargetPort::PhonePair0];
    parse_mixer_command(&mut state, &MixerCmd::OutputAssign(2, 9), &ports);
    assert_eq!(state.output_assign[2], TargetPort::MainPair0);
}
