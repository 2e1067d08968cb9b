use firewire_ctl_protocols::float32::Float32;
use firewire_ctl_protocols::motu::command_dsp::cmd::{DspCmd, ResourceCmd};
use firewire_ctl_protocols::motu::command_dsp::codec::{
    CMD_BYTE_SINGLE_LENGTH, CMD_QUADLET_SINGLE_LENGTH, CMD_RESOURCE_LENGTH,
};
use firewire_ctl_protocols::motu::command_dsp::effects::{DynamicsParameter, EqualizerParameter};
use firewire_ctl_protocols::motu::command_dsp::handler::CommandDspMessageHandler;
use firewire_ctl_protocols::motu::command_dsp::input::InputCmd;
use firewire_ctl_protocols::motu::command_dsp::mixer::MixerCmd;
use firewire_ctl_protocols::motu::command_dsp::monitor::{FocusTarget, MonitorCmd};
use firewire_ctl_protocols::motu::command_dsp::output::OutputCmd;
use firewire_ctl_protocols::motu::command_dsp::params::{
    FilterType4, FilterType5, InputStereoPairMode, LevelDetectMode, LevelerMode, RollOffLevel,
    RoomShape, SourceStereoPairMode, SplitPoint,
};
use firewire_ctl_protocols::motu::command_dsp::reverb::ReverbCmd;

fn f32_bits(val: f32) -> Float32 {
    Float32::from_bits(val.to_bits())
}

#[test]
fn test_u8_cmds() {
    [
        DspCmd::Monitor(MonitorCmd::ReturnAssign(0x69)),
        DspCmd::Monitor(MonitorCmd::TalkbackEnable(true)),
        DspCmd::Monitor(MonitorCmd::ListenbackEnable(true)),
        DspCmd::Input(InputCmd::Phase(0x59, true)),
        DspCmd::Input(InputCmd::Pair(0x0, false)),
        DspCmd::Input(InputCmd::Swap(0x24, false)),
        DspCmd::Input(InputCmd::StereoMode(0x35, InputStereoPairMode::MonauralStereo)),
        DspCmd::Input(InputCmd::Limitter(0xad, true)),
        DspCmd::Input(InputCmd::Lookahead(0xdd, true)),
        DspCmd::Input(InputCmd::Softclip(0xfc, false)),
        DspCmd::Input(InputCmd::Pad(0x91, true)),
        DspCmd::Input(InputCmd::Phantom(0x13, false)),
        DspCmd::Input(InputCmd::Equalizer(0x14, EqualizerParameter::Enable(false))),
        DspCmd::Input(InputCmd::Equalizer(0x23, EqualizerParameter::HpfEnable(true))),
        DspCmd::Input(InputCmd::Equalizer(0x32, EqualizerParameter::HpfSlope(RollOffLevel::L30))),
        DspCmd::Input(InputCmd::Equalizer(0x41, EqualizerParameter::LfEnable(false))),
        DspCmd::Input(InputCmd::Equalizer(0x59, EqualizerParameter::LfType(FilterType5::Shelf))),
        DspCmd::Input(InputCmd::Equalizer(0x68, EqualizerParameter::LmfEnable(true))),
        DspCmd::Input(InputCmd::Equalizer(0x77, EqualizerParameter::LmfType(FilterType4::T4))),
        DspCmd::Input(InputCmd::Equalizer(0x86, EqualizerParameter::MfEnable(false))),
        DspCmd::Input(InputCmd::Equalizer(0x95, EqualizerParameter::MfType(FilterType4::T3))),
        DspCmd::Input(InputCmd::Equalizer(0xaf, EqualizerParameter::HmfEnable(true))),
        DspCmd::Input(InputCmd::Equalizer(0xbe, EqualizerParameter::HmfType(FilterType4::T2))),
        DspCmd::Input(InputCmd::Equalizer(0xcd, EqualizerParameter::HfEnable(false))),
        DspCmd::Input(InputCmd::Equalizer(0xdc, EqualizerParameter::HfType(FilterType5::T1))),
        DspCmd::Input(InputCmd::Equalizer(0xeb, EqualizerParameter::LpfEnable(true))),
        DspCmd::Input(InputCmd::Equalizer(0xfa, EqualizerParameter::LpfSlope(RollOffLevel::L24))),
        DspCmd::Input(InputCmd::Dynamics(0xf0, DynamicsParameter::Enable(false))),
        DspCmd::Input(InputCmd::Dynamics(0xe1, DynamicsParameter::CompEnable(true))),
        DspCmd::Input(InputCmd::Dynamics(0xd2, DynamicsParameter::CompDetectMode(LevelDetectMode::Rms))),
        DspCmd::Input(InputCmd::Dynamics(0xc3, DynamicsParameter::LevelerEnable(false))),
        DspCmd::Input(InputCmd::Dynamics(0xb4, DynamicsParameter::LevelerMode(LevelerMode::Limit))),
        DspCmd::Mixer(MixerCmd::OutputAssign(0xa5, 0x91)),
        DspCmd::Mixer(MixerCmd::OutputMute(0x96, true)),
        DspCmd::Mixer(MixerCmd::SourceMute(0x87, 0x13, false)),
        DspCmd::Mixer(MixerCmd::SourceSolo(0x78, 0x31, true)),
        DspCmd::Mixer(MixerCmd::SourceStereoMode(0x69, 0x11, SourceStereoPairMode::LrBalance)),
        DspCmd::Output(OutputCmd::Equalizer(0x5a, EqualizerParameter::Enable(false))),
        DspCmd::Output(OutputCmd::Equalizer(0x4b, EqualizerParameter::HpfEnable(true))),
        DspCmd::Output(OutputCmd::Equalizer(0x3c, EqualizerParameter::HpfSlope(RollOffLevel::L6))),
        DspCmd::Output(OutputCmd::Equalizer(0x2d, EqualizerParameter::LfEnable(false))),
        DspCmd::Output(OutputCmd::Equalizer(0x1e, EqualizerParameter::LfType(FilterType5::Shelf))),
        DspCmd::Output(OutputCmd::Equalizer(0x0f, EqualizerParameter::LmfEnable(true))),
        DspCmd::Output(OutputCmd::Equalizer(0xf1, EqualizerParameter::LmfType(FilterType4::T4))),
        DspCmd::Output(OutputCmd::Equalizer(0xe2, EqualizerParameter::MfEnable(false))),
        DspCmd::Output(OutputCmd::Equalizer(0xd3, EqualizerParameter::MfType(FilterType4::T3))),
        DspCmd::Output(OutputCmd::Equalizer(0xc4, EqualizerParameter::HmfEnable(true))),
        DspCmd::Output(OutputCmd::Equalizer(0xb5, EqualizerParameter::HmfType(FilterType4::T2))),
        DspCmd::Output(OutputCmd::Equalizer(0xa6, EqualizerParameter::HfEnable(false))),
        DspCmd::Output(OutputCmd::Equalizer(0x97, EqualizerParameter::HfType(FilterType5::T1))),
        DspCmd::Output(OutputCmd::Equalizer(0x88, EqualizerParameter::LpfEnable(true))),
        DspCmd::Output(OutputCmd::Equalizer(0x79, EqualizerParameter::LpfSlope(RollOffLevel::L18))),
        DspCmd::Output(OutputCmd::Dynamics(0xff, DynamicsParameter::Enable(false))),
        DspCmd::Output(OutputCmd::Dynamics(0xee, DynamicsParameter::CompEnable(true))),
        DspCmd::Output(OutputCmd::Dynamics(0xdd, DynamicsParameter::CompDetectMode(LevelDetectMode::Peak))),
        DspCmd::Output(OutputCmd::Dynamics(0xcc, DynamicsParameter::LevelerEnable(false))),
        DspCmd::Output(OutputCmd::Dynamics(0xbb, DynamicsParameter::LevelerMode(LevelerMode::Compress))),
        DspCmd::Output(OutputCmd::MasterMonitor(0x97, true)),
        DspCmd::Output(OutputCmd::MasterTalkback(0xec, false)),
        DspCmd::Output(OutputCmd::MasterListenback(0xd5, true)),
        DspCmd::Reverb(ReverbCmd::Enable(false)),
        DspCmd::Reverb(ReverbCmd::Split(SplitPoint::Mixer)),
        DspCmd::Reverb(ReverbCmd::ReflectionMode(RoomShape::D)),
        DspCmd::Reserved(vec![0x69, 0xed, 0xba, 0x98, 0xec, 0x75]),
    ]
        .iter()
        .for_each(|cmd| {
            let mut raw = Vec::new();
            cmd.build(&mut raw);
            let mut c = Vec::new();
            assert_eq!(DspCmd::parse(&raw, &mut c), CMD_BYTE_SINGLE_LENGTH);
            assert_eq!(&c[0], cmd);
        });
}

#[test]
fn test_i32_cmds() {
    [
        DspCmd::Monitor(MonitorCmd::Focus(FocusTarget::Output(11))),
        DspCmd::Input(InputCmd::Gain(0xe4, 0x01)),
        DspCmd::Input(InputCmd::Dynamics(0xb1, DynamicsParameter::CompThreshold(97531))),
        DspCmd::Output(OutputCmd::Dynamics(0x45, DynamicsParameter::CompThreshold(86420))),
        DspCmd::Reverb(ReverbCmd::ShelfFilterAttenuation(98765)),
    ]
        .iter()
        .for_each(|cmd| {
            let mut raw = Vec::new();
            cmd.build(&mut raw);
            let mut c = Vec::new();
            assert_eq!(DspCmd::parse(&raw, &mut c), CMD_QUADLET_SINGLE_LENGTH);
            assert_eq!(&c[0], cmd);
        });
}

#[test]
fn test_u32_cmds() {
    [
        DspCmd::Input(InputCmd::Equalizer(0xc2, EqualizerParameter::HpfFreq(10))),
        DspCmd::Input(InputCmd::Equalizer(0xb1, EqualizerParameter::LfFreq(20))),
        DspCmd::Input(InputCmd::Equalizer(0x8e, EqualizerParameter::LmfFreq(30))),
        DspCmd::Input(InputCmd::Equalizer(0x5b, EqualizerParameter::MfFreq(40))),
        DspCmd::Input(InputCmd::Equalizer(0x28, EqualizerParameter::HmfFreq(50))),
        DspCmd::Input(InputCmd::Equalizer(0xf5, EqualizerParameter::HfFreq(60))),
        DspCmd::Input(InputCmd::Equalizer(0xc2, EqualizerParameter::LpfFreq(70))),
        DspCmd::Input(InputCmd::Dynamics(0x9f, DynamicsParameter::CompAttack(100))),
        DspCmd::Input(InputCmd::Dynamics(0x8e, DynamicsParameter::CompRelease(200))),
        DspCmd::Output(OutputCmd::Dynamics(0x7f, DynamicsParameter::LevelerMakeup(1000))),
        DspCmd::Output(OutputCmd::Dynamics(0xf2, DynamicsParameter::LevelerReduce(2000))),
        DspCmd::Output(OutputCmd::Equalizer(0xa8, EqualizerParameter::HpfFreq(103))),
        DspCmd::Output(OutputCmd::Equalizer(0x39, EqualizerParameter::LfFreq(105))),
        DspCmd::Output(OutputCmd::Equalizer(0x5b, EqualizerParameter::LmfFreq(107))),
        DspCmd::Output(OutputCmd::Equalizer(0xbc, EqualizerParameter::MfFreq(109))),
        DspCmd::Output(OutputCmd::Equalizer(0xf7, EqualizerParameter::HmfFreq(111))),
        DspCmd::Output(OutputCmd::Equalizer(0xc0, EqualizerParameter::HfFreq(113))),
        DspCmd::Output(OutputCmd::Equalizer(0x29, EqualizerParameter::LpfFreq(115))),
        DspCmd::Output(OutputCmd::Dynamics(0x1b, DynamicsParameter::CompAttack(111))),
        DspCmd::Output(OutputCmd::Dynamics(0x49, DynamicsParameter::CompRelease(113))),
        DspCmd::Input(InputCmd::Dynamics(0x6c, DynamicsParameter::LevelerMakeup(1111))),
        DspCmd::Input(InputCmd::Dynamics(0x5b, DynamicsParameter::LevelerReduce(1113))),
        DspCmd::Reverb(ReverbCmd::PreDelay(11111)),
        DspCmd::Reverb(ReverbCmd::ShelfFilterFreq(111113)),
        DspCmd::Reverb(ReverbCmd::DecayTime(111115)),
        DspCmd::Reverb(ReverbCmd::LowFreqTime(111117)),
        DspCmd::Reverb(ReverbCmd::MiddleFreqTime(111119)),
        DspCmd::Reverb(ReverbCmd::HighFreqTime(111121)),
        DspCmd::Reverb(ReverbCmd::LowFreqCrossover(111123)),
        DspCmd::Reverb(ReverbCmd::HighFreqCrossover(111125)),
        DspCmd::Reverb(ReverbCmd::ReflectionSize(111127)),
        DspCmd::Reserved(vec![0x66, 0x00, 0x01, 0x02, 0x80, 0x04, 0x05, 0x06, 0x07]),
    ]
        .iter()
        .for_each(|cmd| {
            let mut raw = Vec::new();
            cmd.build(&mut raw);
            let mut c = Vec::new();
            assert_eq!(DspCmd::parse(&raw, &mut c), CMD_QUADLET_SINGLE_LENGTH);
            assert_eq!(&c[0], cmd);
        });
}

#[test]
fn test_f32_cmds() {
    [
        DspCmd::Monitor(MonitorCmd::Volume(f32_bits(9.012345678))),
        DspCmd::Monitor(MonitorCmd::ListenbackVolume(f32_bits(9.234567891))),
        DspCmd::Monitor(MonitorCmd::TalkbackVolume(f32_bits(9.345678912))),
        DspCmd::Input(InputCmd::Width(0xd3, f32_bits(0.0987654321))),
        DspCmd::Input(InputCmd::Equalizer(0xa0, EqualizerParameter::LfGain(f32_bits(0.123456789)))),
        DspCmd::Input(InputCmd::Equalizer(0x9f, EqualizerParameter::LfWidth(f32_bits(0.987654321)))),
        DspCmd::Input(InputCmd::Equalizer(0x7d, EqualizerParameter::LmfGain(f32_bits(0.234567891)))),
        DspCmd::Input(InputCmd::Equalizer(0x6c, EqualizerParameter::LmfWidth(f32_bits(0.876543219)))),
        DspCmd::Input(InputCmd::Equalizer(0x4a, EqualizerParameter::MfGain(f32_bits(0.345678912)))),
        DspCmd::Input(InputCmd::Equalizer(0x39, EqualizerParameter::MfWidth(f32_bits(0.765432198)))),
        DspCmd::Input(InputCmd::Equalizer(0x17, EqualizerParameter::HmfGain(f32_bits(0.456789123)))),
        DspCmd::Input(InputCmd::Equalizer(0x06, EqualizerParameter::HmfWidth(f32_bits(0.654321987)))),
        DspCmd::Input(InputCmd::Equalizer(0xe4, EqualizerParameter::HfGain(f32_bits(0.567891234)))),
        DspCmd::Input(InputCmd::Equalizer(0xd3, EqualizerParameter::HfWidth(f32_bits(0.543219876)))),
        DspCmd::Input(InputCmd::Dynamics(0xa0, DynamicsParameter::CompRatio(f32_bits(0.678912345)))),
        DspCmd::Input(InputCmd::Dynamics(0x7d, DynamicsParameter::CompGain(f32_bits(0.432198765)))),
        DspCmd::Input(InputCmd::ReverbSend(0x33, f32_bits(0.789123456))),
        DspCmd::Input(InputCmd::ReverbLrBalance(0xcc, f32_bits(0.891234567))),
        DspCmd::Mixer(MixerCmd::OutputVolume(0x4a, f32_bits(1.2345678))),
        DspCmd::Mixer(MixerCmd::ReverbSend(0x39, f32_bits(1.3456789))),
        DspCmd::Mixer(MixerCmd::ReverbReturn(0x28, f32_bits(1.456789))),
        DspCmd::Mixer(MixerCmd::SourceMonauralLrBalance(0x17, 0xc8, f32_bits(1.987654))),
        DspCmd::Mixer(MixerCmd::SourceGain(0x06, 0x11, f32_bits(1.876543))),
        DspCmd::Mixer(MixerCmd::SourceStereoLrBalance(0xe5, 0x13, f32_bits(1.7654321))),
        DspCmd::Mixer(MixerCmd::SourceStereoWidth(0xd4, 0x1a, f32_bits(1.654321))),
        DspCmd::Output(OutputCmd::Equalizer(0x11, EqualizerParameter::LfGain(f32_bits(2.123456789)))),
        DspCmd::Output(OutputCmd::Equalizer(0x5a, EqualizerParameter::LfWidth(f32_bits(2.987654321)))),
        DspCmd::Output(OutputCmd::Equalizer(0x98, EqualizerParameter::LmfGain(f32_bits(2.234567891)))),
        DspCmd::Output(OutputCmd::Equalizer(0x74, EqualizerParameter::LmfWidth(f32_bits(2.876543219)))),
        DspCmd::Output(OutputCmd::Equalizer(0x32, EqualizerParameter::MfGain(f32_bits(2.345678912)))),
        DspCmd::Output(OutputCmd::Equalizer(0x20, EqualizerParameter::MfWidth(f32_bits(2.765432198)))),
        DspCmd::Output(OutputCmd::Equalizer(0xc0, EqualizerParameter::HmfGain(f32_bits(2.456789123)))),
        DspCmd::Output(OutputCmd::Equalizer(0xf5, EqualizerParameter::HmfWidth(f32_bits(2.654321987)))),
        DspCmd::Output(OutputCmd::Equalizer(0x01, EqualizerParameter::HfGain(f32_bits(2.567891234)))),
        DspCmd::Output(OutputCmd::Equalizer(0xdb, EqualizerParameter::HfWidth(f32_bits(2.543219876)))),
        DspCmd::Output(OutputCmd::Dynamics(0x5e, DynamicsParameter::CompRatio(f32_bits(2.678912345)))),
        DspCmd::Output(OutputCmd::Dynamics(0xba, DynamicsParameter::CompGain(f32_bits(2.432198765)))),
        DspCmd::Output(OutputCmd::ReverbSend(0x99, f32_bits(2.78912345))),
        DspCmd::Output(OutputCmd::ReverbReturn(0x88, f32_bits(2.321987654))),
        DspCmd::Reverb(ReverbCmd::Width(f32_bits(123.456))),
        DspCmd::Reverb(ReverbCmd::ReflectionLevel(f32_bits(234.561))),
    ]
        .iter()
        .for_each(|cmd| {
            let mut raw = Vec::new();
            cmd.build(&mut raw);
            let mut c = Vec::new();
            assert_eq!(DspCmd::parse(&raw, &mut c), CMD_QUADLET_SINGLE_LENGTH);
            assert_eq!(&c[0], cmd);
        });
}

#[test]
fn test_resource() {
    let cmd = DspCmd::Resource(ResourceCmd::Usage(f32_bits(99.99999), 0x17));
    let mut raw = Vec::new();
    cmd.build(&mut raw);
    let mut c = Vec::new();
    assert_eq!(DspCmd::parse(&raw, &mut c), CMD_RESOURCE_LENGTH);
    assert_eq!(c[0], cmd);
}

#[test]
fn message_decode_test() {
    let raw = [
        0x66, 0x00, 0x00, 0x00, 0x00, 0x00, 0x00, 0x80, 0x3f,
        0x69, 0x00, 0x00, 0x0a, 0x00, 0x00,
        0x69, 0x00, 0x00, 0x0b, 0x00, 0x00,
        0x66, 0x00, 0x07, 0x00, 0xff, 0x00, 0x00, 0x00, 0x01,
        0x62,
        0x46, 0x01, 0x00, 0x00, 0x00, 0x00, 0x00, 0x00, 0x80, 0x3f,
        0x49, 0x07, 0x00, 0x02, 0x0c, 0x03, 0x00, 0x00, 0x00, 0x00, 0x00, 0x00, 0x00,
        0x46, 0x02, 0x00, 0x05, 0x00, 0x01, 0x00, 0x00, 0x00, 0x00, 0x00, 0x00, 0x00, 0x00,
        0x65,
        0x46, 0x00, 0xa0, 0x8c, 0x46, 0x00, 0xa0, 0x8c,
    ];
    let mut handler = CommandDspMessageHandler::default();
    handler.cache.extend_from_slice(&raw);
    let cmds = handler.decode_messages();
    assert_eq!(cmds[0], DspCmd::Monitor(MonitorCmd::Volume(f32_bits(1.0))));
    assert_eq!(cmds[1], DspCmd::Monitor(MonitorCmd::Reserved(vec![0x00, 0x0a, 0x00, 0x00], vec![0x00])));
    assert_eq!(cmds[2], DspCmd::Monitor(MonitorCmd::Reserved(vec![0x00, 0x0b, 0x00, 0x00], vec![0x00])));
    assert_eq!(cmds[3], DspCmd::Reserved(vec![0x66, 0x00, 0x07, 0x00, 0xff, 0x00, 0x00, 0x00, 0x01]));
    assert_eq!(cmds[4], DspCmd::Monitor(MonitorCmd::Volume(f32_bits(1.0))));
    assert_eq!(cmds[5], DspCmd::Output(OutputCmd::MasterListenback(0, false)));
    assert_eq!(cmds[6], DspCmd::Output(OutputCmd::MasterListenback(1, false)));
    assert_eq!(cmds[7], DspCmd::Output(OutputCmd::MasterListenback(2, false)));
    assert_eq!(cmds[8], DspCmd::Output(OutputCmd::MasterListenback(3, false)));
    assert_eq!(cmds[9], DspCmd::Output(OutputCmd::MasterListenback(4, false)));
    assert_eq!(cmds[10], DspCmd::Output(OutputCmd::MasterListenback(5, false)));
    assert_eq!(cmds[11], DspCmd::Output(OutputCmd::MasterListenback(6, false)));
    assert_eq!(cmds[12], DspCmd::Input(InputCmd::Width(0, f32_bits(0.0))));
    assert_eq!(cmds[13], DspCmd::Input(InputCmd::Width(1, f32_bits(0.0))));
    assert_eq!(cmds.len(), 14);
}


fn decode_one(raw: &[u8]) -> (usize, Vec<DspCmd>) {
    let mut cmds = Vec::new();
    let consumed = DspCmd::parse(raw, &mut cmds);
    (consumed, cmds)
}

fn encode(cmd: &DspCmd) -> Vec<u8> {
    let mut raw = Vec::new();
    cmd.build(&mut raw);
    raw
}

#[test]
fn volume_of_one_is_decoded() {
    let raw = [0x66, 0x00, 0x00, 0x00, 0x00, 0x00, 0x00, 0x80, 0x3f];
    let (consumed, cmds) = decode_one(&raw);
    assert_eq!(consumed, 9);
    assert_eq!(cmds, vec![DspCmd::Monitor(MonitorCmd::Volume(f32_bits(1.0)))]);
}

#[test]
fn unmapped_monitor_parameter_is_reserved() {
    let raw = [0x69, 0x00, 0x00, 0x0a, 0x00, 0x00];
    let (consumed, cmds) = decode_one(&raw);
    assert_eq!(consumed, 6);
    assert_eq!(
        cmds,
        vec![DspCmd::Monitor(MonitorCmd::Reserved(vec![0x00, 0x0a, 0x00, 0x00], vec![0x00]))]
    );
    assert_eq!(encode(&cmds[0]), raw.to_vec());
}

#[test]
fn quadlet_multiple_fans_out_to_channels() {
    let raw = [
        0x46, 0x02, 0x00, 0x05, 0x00, 0x01, 0x00, 0x00, 0x00, 0x00, 0x00, 0x00, 0x80, 0x3f,
    ];
    let (consumed, cmds) = decode_one(&raw);
    assert_eq!(consumed, 14);
    assert_eq!(
        cmds,
        vec![
            DspCmd::Input(InputCmd::Width(0, f32_bits(0.0))),
            DspCmd::Input(InputCmd::Width(1, f32_bits(1.0))),
        ]
    );
}

#[test]
fn byte_multiple_fans_out_to_channels() {
    let raw = [0x49, 0x03, 0x7f, 0x02, 0x0c, 0x03, 0x01, 0x00, 0x01];
    let (consumed, cmds) = decode_one(&raw);
    assert_eq!(consumed, 9);
    assert_eq!(
        cmds,
        vec![
            DspCmd::Output(OutputCmd::MasterListenback(0, true)),
            DspCmd::Output(OutputCmd::MasterListenback(1, false)),
            DspCmd::Output(OutputCmd::MasterListenback(2, true)),
        ]
    );
    // Each command alone in a record of its own is another stream of bytes.
    let mut singles = Vec::new();
    cmds.iter().for_each(|cmd| cmd.build(&mut singles));
    assert_eq!(singles.len(), 18);
    assert_ne!(singles, raw.to_vec());
    let mut handler = CommandDspMessageHandler::default();
    handler.cache.extend_from_slice(&singles);
    assert_eq!(handler.decode_messages(), cmds);
}

#[test]
fn multiple_of_no_count_gives_no_command() {
    let (consumed, cmds) = decode_one(&[0x49, 0x00, 0x00, 0x02, 0x0c, 0x03]);
    assert_eq!(consumed, 6);
    assert!(cmds.is_empty());
}

#[test]
fn multiple_of_unknown_section_is_reserved() {
    let raw = [0x49, 0x02, 0x00, 0x02, 0x0c, 0x05, 0x11, 0x22, 0xff];
    let (consumed, cmds) = decode_one(&raw);
    assert_eq!(consumed, 8);
    assert_eq!(cmds, vec![DspCmd::Reserved(raw[..8].to_vec())]);
    let raw = [0x46, 0x01, 0x00, 0x02, 0x0c, 0x05, 0x11, 0x22, 0x33, 0x44];
    let (consumed, cmds) = decode_one(&raw);
    assert_eq!(consumed, 10);
    assert_eq!(cmds, vec![DspCmd::Reserved(raw.to_vec())]);
}

#[test]
fn markers_and_unknown_tags() {
    assert_eq!(decode_one(&[0x62, 0x69]), (1, vec![]));
    assert_eq!(decode_one(&[0x65, 0x69, 0x01, 0x02]), (4, vec![]));
    assert_eq!(decode_one(&[0x00, 0x69, 0x01, 0x02]), (0, vec![]));
    assert_eq!(decode_one(&[0x11, 0x69, 0x01, 0x02]), (0, vec![]));
    assert_eq!(decode_one(&[]), (0, vec![]));
}

#[test]
fn record_cut_short_is_not_taken() {
    assert_eq!(decode_one(&[0x69, 0x01, 0x00, 0x00, 0x00]), (0, vec![]));
    assert_eq!(decode_one(&[0x66, 0x00, 0x00, 0x00, 0x00, 0x00, 0x00, 0x80]), (0, vec![]));
    assert_eq!(decode_one(&[0x23, 0x00, 0x00, 0x00, 0x00]), (0, vec![]));
    assert_eq!(decode_one(&[0x49]), (0, vec![]));
    assert_eq!(decode_one(&[0x49, 0x02, 0x00, 0x02, 0x0c, 0x03, 0x01]), (0, vec![]));
    assert_eq!(decode_one(&[0x46, 0x01, 0x00, 0x02, 0x0c, 0x03, 0x01, 0x02, 0x03]), (0, vec![]));
}

#[test]
fn coefficient_of_other_width_is_reserved() {
    // The volume of the monitor is a quadlet; a byte under its identifier is kept as it is.
    let raw = [0x69, 0x7f, 0x00, 0x00, 0x00, 0x00];
    let (consumed, cmds) = decode_one(&raw);
    assert_eq!(consumed, 6);
    assert_eq!(
        cmds,
        vec![DspCmd::Monitor(MonitorCmd::Reserved(vec![0x00, 0x00, 0x00, 0x00], vec![0x7f]))]
    );
    assert_eq!(encode(&cmds[0]), raw.to_vec());
    // The phase of an input is a byte; a quadlet under its identifier is kept as it is.
    let raw = [0x66, 0x03, 0x00, 0x00, 0x01, 0x01, 0x02, 0x03, 0x04];
    let (consumed, cmds) = decode_one(&raw);
    assert_eq!(consumed, 9);
    assert_eq!(
        cmds,
        vec![DspCmd::Input(InputCmd::Reserved(
            vec![0x03, 0x00, 0x00, 0x01],
            vec![0x01, 0x02, 0x03, 0x04]
        ))]
    );
    assert_eq!(encode(&cmds[0]), raw.to_vec());
}

#[test]
fn mixer_source_below_first_is_reserved() {
    let raw = [0x66, 0x01, 0x03, 0x00, 0x02, 0x00, 0x00, 0x80, 0x3f];
    let (consumed, cmds) = decode_one(&raw);
    assert_eq!(consumed, 9);
    assert_eq!(
        cmds,
        vec![DspCmd::Mixer(MixerCmd::Reserved(
            vec![0x01, 0x03, 0x00, 0x02],
            vec![0x00, 0x00, 0x80, 0x3f]
        ))]
    );
}

#[test]
fn exact_bytes_of_commands() {
    assert_eq!(
        encode(&DspCmd::Input(InputCmd::Phase(0x59, true))),
        vec![0x69, 0x01, 0x59, 0x00, 0x00, 0x01]
    );
    assert_eq!(
        encode(&DspCmd::Input(InputCmd::Gain(3, -96))),
        vec![0x66, 0x03, 0x02, 0x00, 0x01, 0x00, 0x00, 0xc0, 0xc2]
    );
    assert_eq!(
        encode(&DspCmd::Mixer(MixerCmd::SourceGain(6, 0x11, f32_bits(1.0)))),
        vec![0x66, 0x06, 0x03, 0x13, 0x02, 0x00, 0x00, 0x80, 0x3f]
    );
    assert_eq!(
        encode(&DspCmd::Output(OutputCmd::Equalizer(2, EqualizerParameter::HfType(FilterType5::Shelf)))),
        vec![0x69, 0x04, 0x02, 0x01, 0x06, 0x03]
    );
    assert_eq!(
        encode(&DspCmd::Input(InputCmd::Dynamics(1, DynamicsParameter::LevelerReduce(100)))),
        vec![0x66, 0x01, 0x03, 0x0b, 0x01, 0x00, 0x00, 0xc8, 0x42]
    );
    assert_eq!(
        encode(&DspCmd::Monitor(MonitorCmd::Focus(FocusTarget::Input(5)))),
        vec![0x66, 0x00, 0x07, 0x00, 0x00, 0x05, 0x00, 0x00, 0x01]
    );
    assert_eq!(
        encode(&DspCmd::Reverb(ReverbCmd::ShelfFilterAttenuation(-40))),
        vec![0x66, 0x00, 0x04, 0x00, 0x04, 0x00, 0x00, 0x20, 0xc2]
    );
    assert_eq!(
        encode(&DspCmd::Resource(ResourceCmd::Usage(f32_bits(1.0), 0x11))),
        vec![0x23, 0x00, 0x00, 0x80, 0x3f, 0x11]
    );
    assert_eq!(encode(&DspCmd::Resource(ResourceCmd::Reserved(vec![1, 2, 3]))), vec![1, 2, 3]);
    assert_eq!(encode(&DspCmd::Reserved(vec![0x62])), vec![0x62]);
}

#[test]
fn reserved_enumerations_keep_their_byte() {
    let cmd = DspCmd::Reverb(ReverbCmd::ReflectionMode(RoomShape::Reserved(0x77)));
    let raw = encode(&cmd);
    assert_eq!(raw, vec![0x69, 0x77, 0x00, 0x0c, 0x00, 0x04]);
    assert_eq!(decode_one(&raw), (6, vec![cmd]));
    assert_eq!(RoomShape::from(4), RoomShape::E);
    assert_eq!(RoomShape::from(5), RoomShape::Reserved(5));
    assert_eq!(u8::from(RollOffLevel::L36), 5);
    assert_eq!(u8::from(SplitPoint::Reserved(9)), 9);
    assert_eq!(InputStereoPairMode::default(), InputStereoPairMode::LeftRight);
    assert_eq!(SourceStereoPairMode::from(1), SourceStereoPairMode::LrBalance);
    assert_eq!(LevelDetectMode::from(0), LevelDetectMode::Peak);
    assert_eq!(LevelerMode::from(2), LevelerMode::Reserved(2));
    assert_eq!(FilterType4::from(3), FilterType4::T4);
}

#[test]
fn focus_targets() {
    for target in [FocusTarget::Output(11), FocusTarget::Input(3), FocusTarget::Reserved(7, 9)] {
        let cmd = DspCmd::Monitor(MonitorCmd::Focus(target));
        assert_eq!(decode_one(&encode(&cmd)), (9, vec![cmd]));
    }
    assert_eq!(FocusTarget::parse(&[4, 0xee, 0xdd, 3]), FocusTarget::Output(4));
    assert_eq!(FocusTarget::parse(&[4, 0, 0, 2]), FocusTarget::Reserved(2, 4));
    assert_eq!(FocusTarget::default(), FocusTarget::Output(0));
}

#[test]
fn commands_of_all_sections_survive_the_round_trip() {
    let cmds = vec![
        DspCmd::Monitor(MonitorCmd::TalkbackVolume(f32_bits(0.5))),
        DspCmd::Input(InputCmd::Gain(255, -96)),
        DspCmd::Input(InputCmd::Equalizer(7, EqualizerParameter::LmfFreq(20000))),
        DspCmd::Input(InputCmd::Dynamics(7, DynamicsParameter::CompThreshold(-48))),
        DspCmd::Mixer(MixerCmd::OutputAssign(7, 255)),
        DspCmd::Mixer(MixerCmd::SourceStereoWidth(0, 253, f32_bits(-1.0))),
        DspCmd::Output(OutputCmd::ReverbReturn(9, f32_bits(f32::NAN))),
        DspCmd::Output(OutputCmd::Dynamics(1, DynamicsParameter::LevelerMode(LevelerMode::Reserved(200)))),
        DspCmd::Reverb(ReverbCmd::DecayTime(60000)),
        DspCmd::Resource(ResourceCmd::Usage(f32_bits(99.5), 0x11)),
        DspCmd::Reserved(vec![0x49, 0x01, 0x00, 0x00, 0x00, 0x09, 0x42]),
    ];
    let mut raw = Vec::new();
    for cmd in &cmds {
        let record = encode(cmd);
        assert_eq!(decode_one(&record), (record.len(), vec![cmd.clone()]));
        raw.extend_from_slice(&record);
    }
    let mut handler = CommandDspMessageHandler::default();
    handler.cache.extend_from_slice(&raw);
    assert_eq!(handler.decode_messages(), cmds);
    assert!(handler.cache.is_empty());
}

#[test]
fn integers_beyond_the_exact_range_are_rounded() {
    let cmd = DspCmd::Reverb(ReverbCmd::PreDelay(0x100_0001));
    let (_, cmds) = decode_one(&encode(&cmd));
    assert_eq!(cmds, vec![DspCmd::Reverb(ReverbCmd::PreDelay(0x100_0000))]);
}

#[test]
fn commands_compare_by_content() {
    let a = DspCmd::Monitor(MonitorCmd::Reserved(vec![1, 2, 3, 0], vec![5]));
    let b = DspCmd::Monitor(MonitorCmd::Reserved(vec![1, 2, 3, 0], vec![5]));
    let c = DspCmd::Monitor(MonitorCmd::Reserved(vec![1, 2, 3, 0], vec![6]));
    assert!(a == b);
    assert!(a != c);
    assert!(a.clone() == a);
    assert!(DspCmd::Reserved(vec![1]) != DspCmd::Resource(ResourceCmd::Reserved(vec![1])));
    assert!(
        DspCmd::Input(InputCmd::Phase(1, true)) != DspCmd::Input(InputCmd::Pair(1, true))
    );
    assert!(
        DspCmd::Monitor(MonitorCmd::Volume(f32_bits(0.0)))
            != DspCmd::Monitor(MonitorCmd::Volume(f32_bits(-0.0)))
    );
}
