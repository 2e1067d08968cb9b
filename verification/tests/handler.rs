use firewire_ctl_protocols::float32::Float32;
use firewire_ctl_protocols::motu::command_dsp::cmd::{build_commands, DspCmd};
use firewire_ctl_protocols::motu::command_dsp::handler::{
    announced_length, increment_seq_num, remove_padding, CommandDspMessageHandler, ParserState,
    MAXIMUM_DSP_FRAME_SIZE,
};
use firewire_ctl_protocols::motu::command_dsp::input::InputCmd;
use firewire_ctl_protocols::motu::command_dsp::monitor::MonitorCmd;

fn frame(seq_num: u8, payload: &[u8]) -> Vec<u8> {
    let mut frame = vec![0x02, seq_num];
    frame.extend_from_slice(payload);
    frame
}

fn gains(count: usize) -> Vec<DspCmd> {
    (0..count).map(|ch| DspCmd::Input(InputCmd::Gain(ch % 256, (ch % 100) as i32 - 50))).collect()
}

#[test]
fn sequence_number_of_the_device_wraps_at_256() {
    assert_eq!(increment_seq_num(0), 1);
    assert_eq!(increment_seq_num(254), 255);
    assert_eq!(increment_seq_num(255), 0);
}

#[test]
fn announced_lengths() {
    assert_eq!(announced_length(&[]), 0);
    assert_eq!(announced_length(&[0x23]), 6);
    assert_eq!(announced_length(&[0x46, 0x03]), 18);
    assert_eq!(announced_length(&[0x46]), 0);
    assert_eq!(announced_length(&[0x49, 0xff]), 261);
    assert_eq!(announced_length(&[0x62]), 1);
    assert_eq!(announced_length(&[0x65, 0x01, 0x02]), 0);
    assert_eq!(announced_length(&[0x66]), 9);
    assert_eq!(announced_length(&[0x69]), 6);
    assert_eq!(announced_length(&[0x00, 0x69]), 0);
}

#[test]
fn padding_behind_records_is_removed() {
    let records = build_commands(&gains(3));
    for padding in 0..9 {
        let mut cache = records.clone();
        cache.extend(std::iter::repeat(0u8).take(padding));
        remove_padding(&mut cache);
        assert_eq!(cache, records);
    }
}

#[test]
fn padding_removal_stops_at_end_marker_and_unknown_tags() {
    let records = build_commands(&gains(2));
    let mut cache = records.clone();
    cache.extend_from_slice(&[0x65, 0x69, 0x01, 0x00, 0x00, 0x00, 0x01]);
    remove_padding(&mut cache);
    assert_eq!(cache, records);
    let mut cache = records.clone();
    cache.extend_from_slice(&[0x11, 0x69, 0x01, 0x00, 0x00, 0x00, 0x01]);
    remove_padding(&mut cache);
    assert_eq!(cache, records);
}

#[test]
fn padding_removal_drops_a_record_cut_short() {
    let records = build_commands(&gains(2));
    let mut cache = records.clone();
    cache.extend_from_slice(&[0x66, 0x00, 0x02, 0x00, 0x01, 0x00, 0x00]);
    remove_padding(&mut cache);
    assert_eq!(cache, records);
    let mut cache = vec![0x49, 0x05, 0x00, 0x00, 0x00, 0x01, 0x01];
    remove_padding(&mut cache);
    assert!(cache.is_empty());
}

#[test]
fn padding_removal_keeps_a_drain_marker_at_the_end() {
    let mut cache = vec![0x69, 0x01, 0x00, 0x02, 0x00, 0x00, 0x62];
    remove_padding(&mut cache);
    assert_eq!(cache, vec![0x69, 0x01, 0x00, 0x02, 0x00, 0x00, 0x62]);
    let mut cache = vec![0x62, 0x00, 0x00, 0x00];
    remove_padding(&mut cache);
    assert_eq!(cache, vec![0x62]);
    let mut cache = vec![0x62, 0x62, 0x62, 0x62, 0x62, 0x62];
    remove_padding(&mut cache);
    assert_eq!(cache, vec![0x62; 6]);
    let mut cache = vec![0x62];
    remove_padding(&mut cache);
    assert_eq!(cache, vec![0x62]);
    let mut cache = vec![0x00, 0x62];
    remove_padding(&mut cache);
    assert!(cache.is_empty());
    let mut cache: Vec<u8> = Vec::new();
    remove_padding(&mut cache);
    assert!(cache.is_empty());
}

#[test]
fn frame_gathers_a_drain_marker_at_the_end() {
    let payload = [0x66, 0x00, 0x00, 0x00, 0x00, 0x00, 0x00, 0x80, 0x3f, 0x62];
    let mut handler = CommandDspMessageHandler::default();
    handler.cache_dsp_messages(&frame(3, &[0x69, 0x01, 0x05, 0x00, 0x00, 0x01]));
    handler.cache_dsp_messages(&frame(9, &payload));
    assert!(handler.cache.is_empty());
    handler.cache_dsp_messages(&frame(4, &payload));
    assert_eq!(handler.cache, payload.to_vec());
    assert!(handler.has_dsp_message());
    assert_eq!(
        handler.decode_messages(),
        vec![DspCmd::Monitor(MonitorCmd::Volume(Float32::from_bits(0x3f80_0000)))]
    );

    let mut handler = CommandDspMessageHandler::default();
    handler.cache_dsp_messages(&frame(0, &[0x62, 0x00, 0x00]));
    assert_eq!(handler.cache, vec![0x62]);
    assert!(handler.has_dsp_message());
}

#[test]
fn truncated_stream_closed_by_a_drain_marker() {
    let stream = build_commands(&gains(41));
    let records = &stream[..243];
    let mut first = frame(1, records);
    first.extend_from_slice(&[0x62, 0x62, 0x62]);
    assert_eq!(first.len(), MAXIMUM_DSP_FRAME_SIZE);
    let mut handler = CommandDspMessageHandler::default();
    handler.cache_dsp_messages(&first);
    assert_eq!(handler.state, ParserState::InTruncatedMessage);
    handler.cache_dsp_messages(&frame(2, &[0x62, 0x00]));
    assert_eq!(handler.state, ParserState::Prepared);
    assert_eq!(handler.cache.len(), 247);
    assert_eq!(&handler.cache[..246], &first[2..]);
    assert_eq!(handler.cache[246], 0x62);
    assert_eq!(handler.decode_messages(), gains(27));
}

#[test]
fn first_frame_sets_the_sequence_number() {
    let mut handler = CommandDspMessageHandler::default();
    assert_eq!(handler.state, ParserState::Initialized);
    assert!(!handler.has_dsp_message());
    handler.cache_dsp_messages(&frame(0x42, &[0x69, 0x01, 0x05, 0x00, 0x00, 0x01, 0x00, 0x00]));
    assert_eq!(handler.state, ParserState::Prepared);
    assert_eq!(handler.seq_num, 0x43);
    assert!(handler.has_dsp_message());
    assert_eq!(handler.decode_messages(), vec![DspCmd::Input(InputCmd::Phase(5, true))]);
    assert!(!handler.has_dsp_message());
}

#[test]
fn frames_without_stream_are_passed_over() {
    let mut handler = CommandDspMessageHandler::default();
    handler.cache_dsp_messages(&[0x00, 0x10]);
    assert_eq!((handler.state, handler.seq_num), (ParserState::Prepared, 0x11));
    handler.cache_dsp_messages(&[0x00, 0x11, 0x69, 0x01]);
    assert_eq!(handler.seq_num, 0x12);
    assert!(handler.cache.is_empty());
    handler.cache_dsp_messages(&[0x00, 0x12, 0x00, 0x69, 0x01, 0x05, 0x00, 0x00, 0x01]);
    assert_eq!(handler.seq_num, 0x13);
    assert!(handler.cache.is_empty());
    assert!(!handler.has_dsp_message());
}

#[test]
fn truncated_stream_is_reassembled() {
    let cmds = gains(40);
    let stream = build_commands(&cmds);
    assert_eq!(stream.len(), 360);
    let first = frame(0xff, &stream[..MAXIMUM_DSP_FRAME_SIZE - 2]);
    let mut second = frame(0x00, &stream[MAXIMUM_DSP_FRAME_SIZE - 2..]);
    second.extend_from_slice(&[0x00, 0x00]);
    assert_eq!(first.len(), MAXIMUM_DSP_FRAME_SIZE);

    let mut handler = CommandDspMessageHandler::default();
    handler.cache_dsp_messages(&first);
    assert_eq!(handler.state, ParserState::InTruncatedMessage);
    assert!(!handler.has_dsp_message());
    handler.cache_dsp_messages(&second);
    assert_eq!(handler.state, ParserState::Prepared);
    assert_eq!(handler.seq_num, 1);
    assert!(handler.has_dsp_message());

    let mut whole = CommandDspMessageHandler::default();
    let mut joined = first.clone();
    joined.extend_from_slice(&second[2..]);
    whole.cache_dsp_messages(&joined);
    assert!(whole.has_dsp_message());
    assert_eq!(whole.cache, handler.cache);

    assert_eq!(handler.decode_messages(), cmds);
    assert_eq!(whole.decode_messages(), cmds);
}

#[test]
fn stream_over_three_frames() {
    let cmds = gains(60);
    let stream = build_commands(&cmds);
    let mut handler = CommandDspMessageHandler::default();
    handler.cache_dsp_messages(&frame(7, &stream[..246]));
    handler.cache_dsp_messages(&frame(8, &stream[246..492]));
    assert_eq!(handler.state, ParserState::InTruncatedMessage);
    // Within a stream the content of a frame is not looked at.
    let mut last = frame(9, &stream[492..]);
    last.extend_from_slice(&[0x00; 3]);
    handler.cache_dsp_messages(&last);
    assert!(handler.has_dsp_message());
    assert_eq!(handler.decode_messages(), cmds);
}

#[test]
fn frame_out_of_sequence_resets() {
    let stream = build_commands(&gains(40));
    let mut handler = CommandDspMessageHandler::default();
    handler.cache_dsp_messages(&frame(1, &stream[..246]));
    assert_eq!(handler.cache.len(), 246);
    handler.cache_dsp_messages(&frame(9, &stream[246..]));
    assert!(handler.cache.is_empty());
    assert_eq!(handler.state, ParserState::Prepared);
    assert_eq!(handler.seq_num, 2);
    assert!(!handler.has_dsp_message());

    let fresh = build_commands(&[DspCmd::Monitor(MonitorCmd::Volume(Float32::from_bits(0x3f80_0000)))]);
    handler.cache_dsp_messages(&frame(2, &fresh));
    assert!(handler.has_dsp_message());
    assert_eq!(
        handler.decode_messages(),
        vec![DspCmd::Monitor(MonitorCmd::Volume(Float32::from_bits(0x3f80_0000)))]
    );
}

#[test]
fn decoding_leaves_what_is_no_record() {
    let mut handler = CommandDspMessageHandler::default();
    handler.cache.extend_from_slice(&[0x69, 0x01, 0x05, 0x00, 0x00, 0x01, 0x11, 0x22, 0x33]);
    assert_eq!(handler.decode_messages(), vec![DspCmd::Input(InputCmd::Phase(5, true))]);
    assert_eq!(handler.cache, vec![0x11, 0x22, 0x33]);
    assert_eq!(handler.decode_messages(), vec![]);
    assert_eq!(handler.cache, vec![0x11, 0x22, 0x33]);
    handler.cache.clear();
    handler.cache.extend_from_slice(&[0x62, 0x69, 0x01, 0x05]);
    assert_eq!(handler.decode_messages(), vec![]);
    assert_eq!(handler.cache, vec![0x69, 0x01, 0x05]);
    handler.cache.clear();
    handler.cache.extend_from_slice(&[0x65, 0x69, 0x01, 0x05]);
    assert_eq!(handler.decode_messages(), vec![]);
    assert!(handler.cache.is_empty());
}
