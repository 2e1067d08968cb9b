use firewire_ctl_protocols::bebob::{
    GoPhase24ClkProtocol, GoPhase24CoaxPhysInputProtocol, SelectorError,
};
use firewire_ctl_protocols::dice::current_config_section::CurrentConfigSectionProtocol;
use firewire_ctl_protocols::dice::mixer_section::{MixerSectionError, MixerSectionProtocol};
use firewire_ctl_protocols::dice::{be_bytes, be_quadlet, MixerCaps, RateMode};
use firewire_ctl_protocols::rme::ff400::{
    Ff400AnalogInConfig, Ff400ClkConfig, Ff400ClkLockStatus, Ff400ClkSrc, Ff400ClkSyncStatus,
    Ff400Config, Ff400InputGainStatus, Ff400MidiTxLowOffset, Ff400Protocol, Ff400Status,
};
use firewire_ctl_protocols::rme::{
    ClkNominalRate, FormerLineInNominalLevel, FormerSpdifOutput, LineOutNominalLevel,
    OpticalOutputSignal, SpdifFormat, SpdifIface, SpdifInput,
};
use firewire_ctl_protocols::motu::{
    build_clk_display, get_idx_from_val, set_idx_to_val, word_out_idx, word_out_mode,
    RegisterFieldError, WordClkSpeedMode,
};
use firewire_ctl_protocols::tascam::{
    cache_led, find_normal_led_pos, is_eq_band, is_transport, LedState, MachineItem,
    MachineLayout, MachineState, SurfaceCommonState, SurfaceTables,
};
use firewire_ctl_protocols::tascam::{
    build_led_frame, detect_bool_action, detect_bool_value, detect_stateful_bool_action,
    detect_u16_action, detect_u16_value, detect_u16_value_in_image, HardwareInformation,
    HardwareInformationProtocol, ItemValue, SurfaceBoolValue, SurfaceU16Value,
};

#[test]
fn ff400_amplifier_commands() {
    assert_eq!(Ff400Protocol::build_amp_cmd(0, 65), 0x0000_0041);
    assert_eq!(Ff400Protocol::build_amp_cmd(3, 36), 0x0003_0024);
    assert_eq!(Ff400Protocol::build_amp_cmd(5, -1), 0x0005_00ff);
    assert_eq!(Ff400Protocol::build_amp_cmd(255, -128), 0x00ff_0080);
    assert_eq!(Ff400Protocol::build_output_amp_level(0), 0);
    assert_eq!(Ff400Protocol::build_output_amp_level(0x1_0000), 0x3f);
    assert_eq!(Ff400Protocol::build_output_amp_level(0x8000), 0x1f);
    for vol in [-1, -0x1_0000, -0x1_0001, 0x1_0001, 0x20_0000, 0x41_0410, i32::MAX, i32::MIN, -12345678] {
        assert_eq!(
            Ff400Protocol::build_output_amp_level(vol),
            (0x3f * (vol as i64) / (0x00010000 as i64)) as i8,
            "{}",
            vol
        );
    }
    assert_eq!(Ff400Protocol::build_output_amp_level(i32::MAX), -1);
    assert_eq!(Ff400Protocol::build_output_amp_level(0x2_0821), -128);
    let gains = Ff400InputGainStatus::default();
    assert_eq!((gains.mic, gains.line), ([0, 0], [0, 0]));
}

#[test]
fn ff400_status_is_parsed() {
    let quads = [0x4000_0000 | 0x0e00_0000 | 0x0100_0000 | 0x0004_0000 | 0x0000_c000 | 0x0400, 0x2000 | 0x0c00 | 0x0200 | 0x0020 | 0x0016];
    assert!(Ff400Status::can_parse(&quads));
    let mut status = Ff400Status::default();
    status.spdif_in.use_preemble = true;
    status.parse(&quads);
    assert_eq!(status.sync, Ff400ClkSyncStatus { adat: true, spdif: false, word_clock: true });
    assert_eq!(status.lock, Ff400ClkLockStatus { adat: false, spdif: true, word_clock: false });
    assert_eq!(status.external_clk_rate, Some(ClkNominalRate::R96000));
    assert_eq!(status.active_clk_src, Ff400ClkSrc::WordClock);
    assert_eq!(status.spdif_rate, Some(ClkNominalRate::R48000));
    assert!(status.word_out_single);
    assert_eq!(status.configured_clk_src, Ff400ClkSrc::Spdif);
    assert_eq!(status.spdif_in, SpdifInput { iface: SpdifIface::Optical, use_preemble: true });
    assert_eq!(
        status.spdif_out,
        FormerSpdifOutput { format: SpdifFormat::Professional, emphasis: false, non_audio: false }
    );
    assert_eq!(status.opt_out_signal, OpticalOutputSignal::Adat);
    assert_eq!(status.configured_clk_rate, ClkNominalRate::R192000);

    let mut status = Ff400Status::default();
    status.parse(&[0x01c0_0000, 0x0000_0001]);
    assert_eq!(status.active_clk_src, Ff400ClkSrc::Internal);
    assert_eq!(status.configured_clk_src, Ff400ClkSrc::Internal);
    assert_eq!(status.configured_clk_rate, ClkNominalRate::R44100);
    assert_eq!(status.spdif_rate, None);
    assert_eq!(status.external_clk_rate, None);

    assert!(!Ff400Status::can_parse(&[0x0040_0000, 0]));
    assert!(!Ff400Status::can_parse(&[0x0180_0000, 0]));
    assert!(Ff400Status::can_parse(&[0x0140_0000, 0]));
}

#[test]
fn ff400_default_configuration_is_built() {
    let cfg = Ff400Config::default();
    let mut quads = [0u32; 3];
    cfg.build(&mut quads);
    assert_eq!(quads, [0x0004_0410, 0x0000_0010, 0x8400_001f]);
}

#[test]
fn ff400_configuration_survives_the_round_trip() {
    let mut cfg = Ff400Config::default();
    cfg.midi_tx_low_offset = Ff400MidiTxLowOffset::A0180;
    cfg.midi_tx_enable = false;
    cfg.clk = Ff400ClkConfig {
        primary_src: Ff400ClkSrc::Ltc,
        avail_rate_44100: false,
        avail_rate_48000: true,
        avail_rate_double: false,
        avail_rate_quadruple: true,
    };
    cfg.analog_in = Ff400AnalogInConfig {
        line_level: FormerLineInNominalLevel::Professional,
        phantom_powering: [true, false],
        insts: [false, true],
        pad: [true, true],
    };
    cfg.line_out_level = LineOutNominalLevel::Consumer;
    cfg.hp_out_level = LineOutNominalLevel::Professional;
    cfg.spdif_in = SpdifInput { iface: SpdifIface::Optical, use_preemble: true };
    cfg.spdif_out =
        FormerSpdifOutput { format: SpdifFormat::Professional, emphasis: true, non_audio: true };
    cfg.opt_out_signal = OpticalOutputSignal::Spdif;
    cfg.word_out_single = true;
    cfg.continue_at_errors = false;
    let mut quads = [0u32; 3];
    cfg.build(&mut quads);
    assert_eq!(quads, [0x0000_110f, 0x0000_000a, 0x6300_37f4]);

    let mut parsed = Ff400Config::default();
    parsed.parse(&quads);
    assert_eq!(parsed.midi_tx_low_offset, cfg.midi_tx_low_offset);
    assert_eq!(parsed.midi_tx_enable, cfg.midi_tx_enable);
    assert_eq!(parsed.clk, cfg.clk);
    assert_eq!(parsed.analog_in.line_level, cfg.analog_in.line_level);
    assert_eq!(parsed.analog_in.phantom_powering, cfg.analog_in.phantom_powering);
    assert_eq!(parsed.analog_in.insts, cfg.analog_in.insts);
    assert_eq!(parsed.analog_in.pad, cfg.analog_in.pad);
    assert_eq!(parsed.line_out_level, cfg.line_out_level);
    assert_eq!(parsed.hp_out_level, cfg.hp_out_level);
    assert_eq!(parsed.spdif_in, cfg.spdif_in);
    assert_eq!(parsed.spdif_out, cfg.spdif_out);
    assert_eq!(parsed.opt_out_signal, cfg.opt_out_signal);
    assert_eq!(parsed.word_out_single, cfg.word_out_single);
    assert_eq!(parsed.continue_at_errors, cfg.continue_at_errors);
}

#[test]
fn ff400_configuration_starts_from_status() {
    let mut status = Ff400Status::default();
    status.configured_clk_src = Ff400ClkSrc::Adat;
    status.spdif_in.iface = SpdifIface::Optical;
    status.spdif_out.emphasis = true;
    status.opt_out_signal = OpticalOutputSignal::Spdif;
    status.word_out_single = true;
    let mut cfg = Ff400Config::default();
    cfg.init(&status);
    assert_eq!(cfg.clk.primary_src, Ff400ClkSrc::Adat);
    assert!(cfg.clk.avail_rate_44100);
    assert_eq!(cfg.spdif_in, status.spdif_in);
    assert_eq!(cfg.spdif_out, status.spdif_out);
    assert_eq!(cfg.opt_out_signal, OpticalOutputSignal::Spdif);
    assert!(cfg.word_out_single);
    assert!(cfg.midi_tx_enable);
}

#[test]
fn dice_mixer_section() {
    let caps = MixerCaps { is_exposed: true, is_readonly: false, input_count: 18, output_count: 5 };
    assert_eq!(
        MixerSectionProtocol::read_saturation(&caps, 0b10110),
        Ok(vec![false, true, true, false, true])
    );
    assert_eq!(MixerSectionProtocol::read_coef(&caps, 0, 0), Ok(4));
    assert_eq!(MixerSectionProtocol::read_coef(&caps, 2, 3), Ok(4 + 4 * (3 + 2 * 18)));
    assert_eq!(
        MixerSectionProtocol::write_coef(&caps, 1, 17, 0x1234_5678),
        Ok((4 + 4 * 35, [0x12, 0x34, 0x56, 0x78]))
    );
    let hidden = MixerCaps { is_exposed: false, is_readonly: true, input_count: 18, output_count: 5 };
    assert_eq!(
        MixerSectionProtocol::read_saturation(&hidden, 0xffff_ffff),
        Err(MixerSectionError::NotAvailable)
    );
    assert_eq!(MixerSectionProtocol::read_coef(&hidden, 0, 0), Err(MixerSectionError::NotAvailable));
    assert_eq!(
        MixerSectionProtocol::read_coef(&hidden, usize::MAX, usize::MAX),
        Err(MixerSectionError::NotAvailable)
    );
    assert_eq!(MixerSectionProtocol::read_coef(&caps, 0x10_0000, 0x7_0000), Ok(4 + 4 * (0x7_0000 + 0x10_0000 * 18)));
    assert_eq!(
        MixerSectionProtocol::write_coef(&caps, 0x10_0000, 1, 7),
        Ok((4 + 4 * (1 + 0x10_0000 * 18), [0, 0, 0, 7]))
    );
    assert_eq!(
        MixerSectionProtocol::write_coef(&hidden, usize::MAX, usize::MAX, 1),
        Err(MixerSectionError::Immutable)
    );
    assert_eq!(
        MixerSectionProtocol::write_coef(&hidden, 0, 0, 1),
        Err(MixerSectionError::Immutable)
    );
    let all = MixerCaps { is_exposed: true, is_readonly: false, input_count: 1, output_count: 32 };
    assert_eq!(
        MixerSectionProtocol::read_saturation(&all, 0x8000_0001).unwrap(),
        (0..32).map(|i| i == 0 || i == 31).collect::<Vec<bool>>()
    );
    assert_eq!(be_quadlet(&[0x12, 0x34, 0x56, 0x78]), 0x1234_5678);
    assert_eq!(be_bytes(0xdead_beef), [0xde, 0xad, 0xbe, 0xef]);
}

#[test]
fn dice_current_config_section() {
    assert_eq!(CurrentConfigSectionProtocol::router_config_offset(RateMode::Low), 0x0000);
    assert_eq!(
        CurrentConfigSectionProtocol::read_current_router_entries(RateMode::Middle, 300, 128),
        (0x2004, 128)
    );
    assert_eq!(
        CurrentConfigSectionProtocol::read_current_router_entries(RateMode::High, 12, 128),
        (0x4004, 12)
    );
    assert_eq!(CurrentConfigSectionProtocol::read_current_stream_format_entries(RateMode::Low), 0x1000);
    assert_eq!(
        CurrentConfigSectionProtocol::read_current_stream_format_entries(RateMode::Middle),
        0x3000
    );
    assert_eq!(CurrentConfigSectionProtocol::read_current_stream_format_entries(RateMode::High), 0x5000);
}

#[test]
fn go_phase_nominal_levels() {
    assert_eq!(GoPhase24CoaxPhysInputProtocol::write_selector(0, 0), Ok(0xf400u16 as i16));
    assert_eq!(GoPhase24CoaxPhysInputProtocol::write_selector(0, 1), Ok(0xfd00u16 as i16));
    assert_eq!(GoPhase24CoaxPhysInputProtocol::write_selector(0, 2), Ok(0));
    assert_eq!(
        GoPhase24CoaxPhysInputProtocol::write_selector(0, 3),
        Err(SelectorError::InvalidValue)
    );
    assert_eq!(
        GoPhase24CoaxPhysInputProtocol::write_selector(1, 0),
        Err(SelectorError::InvalidIndex)
    );
    assert_eq!(GoPhase24CoaxPhysInputProtocol::read_selector(0, 0xfd00u16 as i16), Ok(1));
    assert_eq!(
        GoPhase24CoaxPhysInputProtocol::read_selector(0, 5),
        Err(SelectorError::UnexpectedLevel)
    );
    assert_eq!(
        GoPhase24CoaxPhysInputProtocol::read_selector(2, 0),
        Err(SelectorError::InvalidIndex)
    );
    assert_eq!(GoPhase24ClkProtocol::freq_list(), [44100, 48000, 88200, 96000, 192000]);
    assert_eq!(GoPhase24ClkProtocol::write_clk_src(1), 1);
    assert_eq!(GoPhase24ClkProtocol::read_clk_src(3), 3);
}

#[test]
fn tascam_surface_values() {
    let item = SurfaceBoolValue(5, 0x0000_0100);
    assert!(detect_bool_action(&item, 5, 0x0000_0100, 0x0000_0000));
    assert!(detect_bool_action(&item, 5, 0x0000_0000, 0x0000_0100));
    assert!(!detect_bool_action(&item, 4, 0x0000_0100, 0x0000_0000));
    assert!(!detect_bool_action(&item, 5, 0x0000_0101, 0x0000_0100));
    assert!(detect_stateful_bool_action(&item, 5, 0x0000_0100, 0x0000_0000));
    assert!(!detect_stateful_bool_action(&item, 5, 0x0000_0000, 0x0000_0100));
    assert!(detect_bool_value(&item, 0x0000_0f00));
    assert!(!detect_bool_value(&item, 0x0000_0e00));
    let rotary = SurfaceU16Value(2, 0x03ff_0000, 16);
    assert!(detect_u16_action(&rotary, 2, 0x0001_0000, 0x0002_0000));
    assert!(!detect_u16_action(&rotary, 2, 0x0001_0001, 0x0001_0002));
    assert_eq!(detect_u16_value(&rotary, 0xffff_1234), 0x03ff);
    assert_eq!(detect_u16_value(&SurfaceU16Value(0, 0xffff_ffff, 4), 0x1234_5678), 0x4567);
    assert_eq!(detect_u16_value_in_image(&rotary, &[0, 0, 0x0123_0000]), 0x0123);
    assert_eq!(build_led_frame(0x0102, true), [0x00, 0x01, 0x01, 0x02]);
    assert_eq!(build_led_frame(0x00ff, false), [0x00, 0x00, 0x00, 0xff]);
    assert_ne!(ItemValue::Bool(true), ItemValue::U16(1));
}

#[test]
fn tascam_hardware_information() {
    let mut info = HardwareInformation::default();
    let frames: Vec<u8> = (1..=16).collect();
    HardwareInformationProtocol::parse_hardware_information(&mut info, &frames);
    assert_eq!(
        info,
        HardwareInformation {
            register: 0x0102_0304,
            fpga: 0x0506_0708,
            arm: 0x090a_0b0c,
            hardware: 0x0d0e_0f10,
        }
    );
}

#[test]
fn motu_register_fields() {
    let vals = [0x00u8, 0x01, 0x02, 0x03];
    assert_eq!(get_idx_from_val(0x0000_1a00, 0x0000_0300, 8, &vals), Ok(2));
    assert_eq!(get_idx_from_val(0xffff_fcff, 0x0000_0300, 8, &vals), Ok(0));
    assert_eq!(
        get_idx_from_val(0x0000_0700, 0x0000_0700, 8, &vals),
        Err(RegisterFieldError::InvalidValue(7))
    );
    assert_eq!(get_idx_from_val(0x0800_0000, 0x0800_0000, 27, &[0x00, 0x01]), Ok(1));
    assert_eq!(set_idx_to_val(0xffff_ffff, 0x0000_0300, 8, &vals, 1), Ok(0xffff_fdff));
    assert_eq!(set_idx_to_val(0x0000_0000, 0x0000_0300, 8, &vals, 3), Ok(0x0000_0300));
    assert_eq!(
        set_idx_to_val(0x0000_0000, 0x0000_0300, 8, &vals, 4),
        Err(RegisterFieldError::InvalidIndex)
    );
    assert_eq!(word_out_mode(0), WordClkSpeedMode::ForceLowRate);
    assert_eq!(word_out_mode(1), WordClkSpeedMode::FollowSystemClk);
    assert_eq!(word_out_idx(WordClkSpeedMode::FollowSystemClk), 1);
    assert_eq!(
        build_clk_display(b"Internal"),
        [0x496e_7465, 0x726e_616c, 0x2020_2020, 0x2020_2020]
    );
    assert_eq!(
        build_clk_display(b"0123456789abcdefXYZ"),
        [0x3031_3233, 0x3435_3637, 0x3839_6162, 0x6364_6566]
    );
}

#[test]
fn tascam_machine_state() {
    let layout = MachineLayout {
        bool_items: vec![
            MachineItem::Mute(0),
            MachineItem::High,
            MachineItem::Low,
            MachineItem::Mute(0),
            MachineItem::HighMid,
        ],
        u16_items: vec![MachineItem::Master, MachineItem::Pan],
        has_transport: true,
        has_bank: true,
    };
    let mut state = MachineState::default();
    layout.initialize_machine(&mut state);
    assert_eq!(state.bool_items, vec![false; 5]);
    assert_eq!(state.u16_items, vec![0, 0]);
    assert_eq!((state.bank, state.transport), (0, MachineItem::Stop));

    let values = layout.get_machine_current_values(&state);
    assert_eq!(values.len(), 5 + 2 + 1 + 5);
    assert_eq!(values[1], (MachineItem::High, ItemValue::Bool(false)));
    assert_eq!(values[6], (MachineItem::Pan, ItemValue::U16(0)));
    assert_eq!(values[7], (MachineItem::Bank, ItemValue::U16(0)));
    assert_eq!(values[10], (MachineItem::Stop, ItemValue::Bool(true)));
    assert_eq!(values[11], (MachineItem::Play, ItemValue::Bool(false)));

    // The first item of its kind with another value takes the value.
    let out = layout.change_machine_value(&mut state, &(MachineItem::Mute(0), ItemValue::Bool(true)));
    assert_eq!(out, vec![(MachineItem::Mute(0), ItemValue::Bool(true))]);
    assert_eq!(state.bool_items, vec![true, false, false, false, false]);
    let out = layout.change_machine_value(&mut state, &(MachineItem::Mute(0), ItemValue::Bool(true)));
    assert_eq!(out, vec![(MachineItem::Mute(0), ItemValue::Bool(true))]);
    assert_eq!(state.bool_items, vec![true, false, false, true, false]);
    let out = layout.change_machine_value(&mut state, &(MachineItem::Mute(0), ItemValue::Bool(true)));
    assert!(out.is_empty());

    // One item of the transport is enabled.
    let out = layout.change_machine_value(&mut state, &(MachineItem::Play, ItemValue::Bool(true)));
    assert_eq!(
        out,
        vec![(MachineItem::Stop, ItemValue::Bool(false)), (MachineItem::Play, ItemValue::Bool(true))]
    );
    assert_eq!(state.transport, MachineItem::Play);
    assert!(layout.change_machine_value(&mut state, &(MachineItem::Play, ItemValue::Bool(false))).is_empty());

    // At most one band of the equalizer is enabled.
    layout.change_machine_value(&mut state, &(MachineItem::Low, ItemValue::Bool(true)));
    layout.change_machine_value(&mut state, &(MachineItem::HighMid, ItemValue::Bool(false)));
    assert_eq!(state.bool_items, vec![true, false, true, true, false]);
    let out = layout.change_machine_value(&mut state, &(MachineItem::High, ItemValue::Bool(true)));
    assert_eq!(
        out,
        vec![(MachineItem::High, ItemValue::Bool(true)), (MachineItem::Low, ItemValue::Bool(false))]
    );
    assert_eq!(state.bool_items, vec![true, true, false, true, false]);

    let out = layout.change_machine_value(&mut state, &(MachineItem::Pan, ItemValue::U16(77)));
    assert_eq!(out, vec![(MachineItem::Pan, ItemValue::U16(77))]);
    assert_eq!(state.u16_items, vec![0, 77]);
    let out = layout.change_machine_value(&mut state, &(MachineItem::Bank, ItemValue::U16(3)));
    assert_eq!(out, vec![(MachineItem::Bank, ItemValue::U16(3))]);
    assert_eq!(state.bank, 3);
    assert!(layout.change_machine_value(&mut state, &(MachineItem::Bank, ItemValue::U16(4))).is_empty());
    assert_eq!(state.bank, 3);

    assert!(is_transport(MachineItem::Record) && !is_transport(MachineItem::Master));
    assert!(is_eq_band(MachineItem::LowMid) && !is_eq_band(MachineItem::Gain));

    let mut leds = LedState(vec![3, 5, 3]);
    cache_led(&mut leds, 5, true);
    assert_eq!(leds.0, vec![3, 5, 3]);
    cache_led(&mut leds, 7, true);
    assert_eq!(leds.0, vec![3, 5, 3, 7]);
    cache_led(&mut leds, 3, false);
    assert_eq!(leds.0, vec![5, 7]);

    let normal = vec![
        (vec![MachineItem::Rew], vec![0x10u16]),
        (vec![MachineItem::Solo(0), MachineItem::Mute(0)], vec![0x20u16, 0x21]),
        (vec![MachineItem::Mute(0)], vec![0x30u16]),
    ];
    assert_eq!(find_normal_led_pos(&normal, &MachineItem::Mute(0)), Some(0x20));
    assert_eq!(find_normal_led_pos(&normal, &MachineItem::Rew), Some(0x10));
    assert_eq!(find_normal_led_pos(&normal, &MachineItem::Mute(1)), None);
}

#[test]
fn tascam_surface_image() {
    let tables = SurfaceTables {
        stateful_items: vec![
            (SurfaceBoolValue(3, 0x0000_0001), MachineItem::Shift),
            (SurfaceBoolValue(3, 0x0000_0002), MachineItem::Flip),
        ],
        stateless_items: vec![
            (SurfaceBoolValue(3, 0x0000_0100), MachineItem::Play),
            (SurfaceBoolValue(4, 0x0000_0100), MachineItem::Stop),
        ],
        rotaries: vec![(SurfaceU16Value(3, 0x03ff_0000, 16), MachineItem::Pan)],
        faders: vec![(SurfaceBoolValue(3, 0x0000_1000), SurfaceU16Value(1, 0x0000_03ff, 0), MachineItem::Master)],
    };
    let mut state = SurfaceCommonState { stateful_items: vec![true] };
    tables.initialize_surface_common_state(&mut state);
    assert_eq!(state.stateful_items, vec![false, false]);

    let image = [0, 0x0000_0155, 0, 0];
    let mut events = vec![(MachineItem::Bank, ItemValue::U16(1))];
    tables.decode_surface_image_common(&mut events, &state, &image, 3, 0x0001_1103, 0x0002_0001);
    assert_eq!(
        events,
        vec![
            (MachineItem::Bank, ItemValue::U16(1)),
            (MachineItem::Flip, ItemValue::Bool(true)),
            (MachineItem::Play, ItemValue::Bool(true)),
            (MachineItem::Pan, ItemValue::U16(2)),
            (MachineItem::Master, ItemValue::U16(0x0155)),
        ]
    );
    let mut events = Vec::new();
    tables.decode_surface_image_common(&mut events, &state, &image, 2, 0x0001_1103, 0x0002_0001);
    assert!(events.is_empty());
    // A button that is pressed, not released, toggles nothing.
    let mut events = Vec::new();
    tables.decode_surface_image_common(&mut events, &state, &image, 3, 0x0000_0000, 0x0000_0003);
    assert!(events.is_empty());

    tables.feedback_to_surface_common(&mut state, &(MachineItem::Flip, ItemValue::Bool(true)));
    assert_eq!(state.stateful_items, vec![false, true]);
    tables.feedback_to_surface_common(&mut state, &(MachineItem::Flip, ItemValue::Bool(true)));
    assert_eq!(state.stateful_items, vec![false, false]);
    tables.feedback_to_surface_common(&mut state, &(MachineItem::Play, ItemValue::Bool(true)));
    assert_eq!(state.stateful_items, vec![false, false]);
}
