use firewire_ctl_protocols::motu::command_dsp::cmd::DspCmd;
use firewire_ctl_protocols::motu::command_dsp::framer::{
    build_begin_frames, build_cancel_frame, build_command_frames, build_frame, build_frames,
    message_destination_quadlets, next_sequence_number, MAXIMUM_DSP_PAYLOAD_SIZE,
};
use firewire_ctl_protocols::motu::command_dsp::input::InputCmd;

#[test]
fn outbound_sequence_number_skips_255() {
    assert_eq!(next_sequence_number(0), 1);
    assert_eq!(next_sequence_number(253), 254);
    assert_eq!(next_sequence_number(254), 0);
    assert_eq!(next_sequence_number(255), 0);
}

#[test]
fn frame_is_padded_to_quadlets() {
    assert_eq!(build_frame(0x02, 0x10, &[0xaa]), (vec![0x02, 0x10, 0xaa, 0x00], 1));
    assert_eq!(build_frame(0x02, 0x10, &[0xaa, 0xbb]), (vec![0x02, 0x10, 0xaa, 0xbb], 2));
    assert_eq!(
        build_frame(0x01, 0x10, &[1, 2, 3]),
        (vec![0x01, 0x10, 1, 2, 3, 0x00, 0x00, 0x00], 3)
    );
    assert_eq!(
        build_frame(0x00, 0xfe, &[1, 2, 3, 4, 5, 6]),
        (vec![0x00, 0xfe, 1, 2, 3, 4, 5, 6], 6)
    );
}

#[test]
fn frame_takes_at_most_the_maximum() {
    let msg: Vec<u8> = (0..300).map(|i| i as u8).collect();
    let (frame, length) = build_frame(0x02, 3, &msg);
    assert_eq!(length, MAXIMUM_DSP_PAYLOAD_SIZE);
    assert_eq!(frame.len(), 248);
    assert_eq!(&frame[..2], &[0x02, 3]);
    assert_eq!(&frame[2..], &msg[..246]);
}

#[test]
fn message_is_split_into_frames() {
    let msg: Vec<u8> = (0..500).map(|i| (i % 251) as u8 + 1).collect();
    let mut seq = 253u8;
    let frames = build_frames(0x02, &mut seq, &msg);
    assert_eq!(frames.len(), 3);
    assert_eq!(seq, 1);
    assert_eq!(frames[0].len(), 248);
    assert_eq!(frames[1].len(), 248);
    assert_eq!(frames[2].len(), 12);
    assert_eq!(&frames[0][..2], &[0x02, 253]);
    assert_eq!(&frames[1][..2], &[0x02, 254]);
    assert_eq!(&frames[2][..2], &[0x02, 0]);
    let mut payload = Vec::new();
    payload.extend_from_slice(&frames[0][2..]);
    payload.extend_from_slice(&frames[1][2..]);
    payload.extend_from_slice(&frames[2][2..10]);
    assert_eq!(payload, msg);
    assert_eq!(&frames[2][10..], &[0x00, 0x00]);
}

#[test]
fn empty_message_has_no_frame() {
    let mut seq = 9u8;
    assert!(build_frames(0x02, &mut seq, &[]).is_empty());
    assert_eq!(seq, 9);
    assert!(build_command_frames(&mut seq, &[]).is_empty());
    assert_eq!(seq, 9);
}

#[test]
fn message_of_exactly_one_payload() {
    let msg = vec![0x55u8; 246];
    let mut seq = 0u8;
    let frames = build_frames(0x02, &mut seq, &msg);
    assert_eq!(frames.len(), 1);
    assert_eq!(frames[0].len(), 248);
    assert_eq!(seq, 1);
}

#[test]
fn commands_are_framed() {
    let mut seq = 4u8;
    let frames = build_command_frames(&mut seq, &[DspCmd::Input(InputCmd::Phase(2, true))]);
    assert_eq!(frames, vec![vec![0x02, 0x04, 0x69, 0x01, 0x02, 0x00, 0x00, 0x01]]);
    assert_eq!(seq, 5);
}

#[test]
fn messaging_is_begun_and_cancelled() {
    let mut seq = 254u8;
    let (first, second) = build_begin_frames(&mut seq);
    assert_eq!(first, vec![0x01, 254, 0x00, 0x00]);
    assert_eq!(second, vec![0x02, 0, 0x00, 0x00]);
    assert_eq!(seq, 1);
    assert_eq!(build_cancel_frame(&mut seq), vec![0x00, 1, 0x00, 0x00]);
    assert_eq!(seq, 2);
}

#[test]
fn destination_of_messages() {
    assert_eq!(
        message_destination_quadlets(0xffc1, 0xffff_e000_0000),
        (0xffc1_ffff, 0xe000_0000)
    );
    assert_eq!(message_destination_quadlets(0, 0), (0, 0));
    assert_eq!(
        message_destination_quadlets(1, 0xffff_ffff_ffff),
        (0x0001_ffff, 0xffff_ffff)
    );
}
