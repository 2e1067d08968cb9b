//! Frames of the commands that are sent to the device.
//!
//! A message of any length goes out in frames of at most the maximum size.
//! Each frame starts with the tag of the message and a sequence number,
//! takes as much of the message as fits, and is filled up with zero bytes to
//! a multiple of four bytes. The sequence number goes up with every frame
//! and never takes the value 255.

use vstd::prelude::*;
use super::cmd::{build_commands, cmds_view, stream_of, DspCmd};
use super::diff::{changed_cmds, lemma_nothing_changed};
use super::handler::MAXIMUM_DSP_FRAME_SIZE;

verus! {

/// Tag of the message that cancels messaging.
pub const TAG_CANCEL: u8 = 0x00;

/// Tag of the message that begins messaging.
pub const TAG_BEGIN: u8 = 0x01;

/// Tag of a message with commands.
pub const TAG_COMMANDS: u8 = 0x02;

/// The most bytes of a message that one frame takes.
pub const MAXIMUM_DSP_PAYLOAD_SIZE: usize = 246;

/// The sequence number of the frame after the one with `sequence_number`.
pub open spec fn spec_next_sequence_number(sequence_number: u8) -> u8 {
    if sequence_number >= 0xfe {
        0u8
    } else {
        (sequence_number + 1) as u8
    }
}

/// The sequence number after `count` more frames.
pub open spec fn sequence_number_after(sequence_number: u8, count: nat) -> u8
    decreases count,
{
    if count == 0 {
        sequence_number
    } else {
        sequence_number_after(spec_next_sequence_number(sequence_number), (count - 1) as nat)
    }
}

/// The count of bytes of a message that its first frame takes.
pub open spec fn payload_len(msg: Seq<u8>) -> nat {
    if msg.len() < MAXIMUM_DSP_PAYLOAD_SIZE {
        msg.len()
    } else {
        MAXIMUM_DSP_PAYLOAD_SIZE as nat
    }
}

/// The count of zero bytes that fill a frame of `length` bytes up to a
/// multiple of four.
pub open spec fn padding_len(length: nat) -> nat {
    ((4 - length % 4) % 4) as nat
}

/// The frame with the tag, the sequence number and the bytes `payload`.
pub open spec fn frame_of(tag: u8, sequence_number: u8, payload: Seq<u8>) -> Seq<u8> {
    seq![tag, sequence_number] + payload + Seq::new(
        padding_len(2 + payload.len()),
        |i: int| 0u8,
    )
}

/// The frames of a message, in the order in which they are sent.
pub open spec fn frames_of(tag: u8, sequence_number: u8, msg: Seq<u8>) -> Seq<Seq<u8>>
    decreases msg.len(),
{
    if msg.len() == 0 {
        Seq::empty()
    } else {
        seq![frame_of(tag, sequence_number, msg.take(payload_len(msg) as int))] + frames_of(
            tag,
            spec_next_sequence_number(sequence_number),
            msg.skip(payload_len(msg) as int),
        )
    }
}

/// The frames as sequences of bytes.
pub open spec fn frames_view(frames: Seq<Vec<u8>>) -> Seq<Seq<u8>> {
    frames.map_values(|frame: Vec<u8>| frame@)
}

/// The sequence number of the frame after the one with `sequence_number`.
pub fn next_sequence_number(sequence_number: u8) -> (next: u8)
    ensures
        next == spec_next_sequence_number(sequence_number),
{
    if sequence_number >= 0xfe {
        0
    } else {
        sequence_number + 1
    }
}

/// Builds the first frame of the message `msg`, which is not empty, and
/// returns it with the count of bytes of the message that it takes.
pub fn build_frame(tag: u8, sequence_number: u8, msg: &[u8]) -> (result: (Vec<u8>, usize))
    requires
        msg@.len() > 0,
    ensures
        result.1 == payload_len(msg@),
        result.0@ == frame_of(tag, sequence_number, msg@.take(result.1 as int)),
        result.0@.len() <= MAXIMUM_DSP_FRAME_SIZE,
        result.0@.len() % 4 == 0,
{
    let length = if msg.len() < MAXIMUM_DSP_PAYLOAD_SIZE {
        msg.len()
    } else {
        MAXIMUM_DSP_PAYLOAD_SIZE
    };
    let mut frame: Vec<u8> = Vec::with_capacity(2 + length);
    frame.push(tag);
    frame.push(sequence_number);
    frame.extend_from_slice(&msg[0..length]);
    let ghost unpadded = frame@;
    assert(unpadded =~= seq![tag, sequence_number] + msg@.take(length as int));
    while frame.len() % 4 > 0
        invariant
            unpadded.len() == 2 + length,
            length <= MAXIMUM_DSP_PAYLOAD_SIZE,
            unpadded.len() <= frame@.len() <= unpadded.len() + padding_len(unpadded.len()),
            frame@ =~= unpadded + Seq::new((frame@.len() - unpadded.len()) as nat, |i: int| 0u8),
        decreases unpadded.len() + padding_len(unpadded.len()) - frame@.len(),
    {
        frame.push(0x00);
    }
    assert(frame@ =~= frame_of(tag, sequence_number, msg@.take(length as int)));
    (frame, length)
}

/// Builds the frames of the message `msg`, and sets the sequence number to
/// the one that is due when all of them are sent.
pub fn build_frames(tag: u8, sequence_number: &mut u8, msg: &[u8]) -> (frames: Vec<Vec<u8>>)
    ensures
        frames_view(frames@) == frames_of(tag, *old(sequence_number), msg@),
        *final(sequence_number) == sequence_number_after(*old(sequence_number), frames@.len()),
{
    let mut frames: Vec<Vec<u8>> = Vec::new();
    let total = msg.len();
    let mut sent: usize = 0;
    assert(msg@.skip(0) =~= msg@);
    assert(frames_view(frames@) =~= Seq::<Seq<u8>>::empty());
    while sent < total
        invariant
            total == msg@.len(),
            sent <= total,
            frames_of(tag, *old(sequence_number), msg@) == frames_view(frames@) + frames_of(
                tag,
                *sequence_number,
                msg@.skip(sent as int),
            ),
            sequence_number_after(*old(sequence_number), frames@.len()) == *sequence_number,
        decreases total - sent,
    {
        let rest = &msg[sent..total];
        assert(rest@ =~= msg@.skip(sent as int));
        let (frame, length) = build_frame(tag, *sequence_number, rest);
        let ghost before = frames@;
        let ghost number = *sequence_number;
        proof {
            lemma_sequence_number_after_next(*old(sequence_number), before.len());
        }
        frames.push(frame);
        *sequence_number = next_sequence_number(*sequence_number);
        proof {
            assert(rest@.skip(length as int) =~= msg@.skip(sent + length));
            assert(frames_view(frames@) =~= frames_view(before).push(frame@));
            assert(frames_view(before) + (seq![frame@] + frames_of(
                tag,
                *sequence_number,
                rest@.skip(length as int),
            )) =~= frames_view(frames@) + frames_of(
                tag,
                *sequence_number,
                rest@.skip(length as int),
            ));
        }
        sent += length;
    }
    assert(frames_view(frames@) + Seq::<Seq<u8>>::empty() =~= frames_view(frames@));
    frames
}

/// Builds the frames of the message that carries the commands `cmds`.
pub fn build_command_frames(sequence_number: &mut u8, cmds: &[DspCmd]) -> (frames: Vec<Vec<u8>>)
    ensures
        frames_view(frames@) == frames_of(
            TAG_COMMANDS,
            *old(sequence_number),
            stream_of(cmds@),
        ),
        *final(sequence_number) == sequence_number_after(*old(sequence_number), frames@.len()),
{
    let msg = build_commands(cmds);
    build_frames(TAG_COMMANDS, sequence_number, msg.as_slice())
}

/// Offset of the register for the upper quadlet of the address to which the
/// device sends its messages.
pub const DSP_MSG_DST_HIGH_OFFSET: u32 = 0x0b38;

/// Offset of the register for the lower quadlet of the address to which the
/// device sends its messages.
pub const DSP_MSG_DST_LOW_OFFSET: u32 = 0x0b3c;

/// Offset of the address to which commands are sent.
pub const DSP_CMD_OFFSET: u64 = 0xffff00010000;

/// Start of the range of addresses among which the one for messages is reserved.
pub const MSG_DST_OFFSET_BEGIN: u64 = 0xffffe0000000;

/// End of the range of addresses among which the one for messages is reserved.
pub const MSG_DST_OFFSET_END: u64 = 0xffffe0000000 + 0x10000000;

/// The two quadlets that tell the device where to send its messages: the
/// number of the local node, sixteen bits, above the offset of forty-eight
/// bits, upper quadlet first.
pub fn message_destination_quadlets(local_node_id: u16, offset: u64) -> (quads: (u32, u32))
    requires
        offset < 0x1_0000_0000_0000,
    ensures
        quads.0 == local_node_id * 0x1_0000 + offset / 0x1_0000_0000,
        quads.1 == offset % 0x1_0000_0000,
{
    let high: u32 = (local_node_id as u32) * 0x1_0000 + ((offset / 0x1_0000_0000) as u32);
    let low: u32 = (offset % 0x1_0000_0000) as u32;
    (high, low)
}

/// The payload of the messages that begin and cancel messaging.
pub open spec fn spec_empty_payload() -> Seq<u8> {
    seq![0x00u8, 0x00u8]
}

/// Builds the two frames that begin messaging: one with the tag of
/// beginning, one with the tag of commands, each with a payload of two zero
/// bytes.
pub fn build_begin_frames(sequence_number: &mut u8) -> (frames: (Vec<u8>, Vec<u8>))
    ensures
        frames.0@ == frame_of(TAG_BEGIN, *old(sequence_number), spec_empty_payload()),
        frames.1@ == frame_of(
            TAG_COMMANDS,
            spec_next_sequence_number(*old(sequence_number)),
            spec_empty_payload(),
        ),
        *final(sequence_number) == sequence_number_after(*old(sequence_number), 2),
{
    let payload: [u8; 2] = [0x00, 0x00];
    assert(payload@ =~= spec_empty_payload());
    assert(payload@.take(2) =~= payload@);
    let first = build_frame(TAG_BEGIN, *sequence_number, payload.as_slice());
    let next = next_sequence_number(*sequence_number);
    let second = build_frame(TAG_COMMANDS, next, payload.as_slice());
    proof {
        lemma_sequence_number_after_next(*old(sequence_number), 0);
        lemma_sequence_number_after_next(*old(sequence_number), 1);
    }
    *sequence_number = next_sequence_number(next);
    (first.0, second.0)
}

/// Builds the frame that cancels messaging.
pub fn build_cancel_frame(sequence_number: &mut u8) -> (frame: Vec<u8>)
    ensures
        frame@ == frame_of(TAG_CANCEL, *old(sequence_number), spec_empty_payload()),
        *final(sequence_number) == spec_next_sequence_number(*old(sequence_number)),
{
    let payload: [u8; 2] = [0x00, 0x00];
    assert(payload@ =~= spec_empty_payload());
    assert(payload@.take(2) =~= payload@);
    let frame = build_frame(TAG_CANCEL, *sequence_number, payload.as_slice());
    *sequence_number = next_sequence_number(*sequence_number);
    frame.0
}

/// One more frame moves the sequence number on by one step.
pub proof fn lemma_sequence_number_after_next(sequence_number: u8, count: nat)
    ensures
        sequence_number_after(sequence_number, count + 1) == spec_next_sequence_number(
            sequence_number_after(sequence_number, count),
        ),
    decreases count,
{
    let next = spec_next_sequence_number(sequence_number);
    assert(sequence_number_after(sequence_number, count + 1) == sequence_number_after(
        next,
        count,
    ));
    if count > 0 {
        lemma_sequence_number_after_next(next, (count - 1) as nat);
    } else {
        assert(sequence_number_after(next, 0) == next);
    }
}

/// The payloads of the frames of a message, one after the other.
pub open spec fn payloads_of(msg: Seq<u8>) -> Seq<u8>
    decreases msg.len(),
{
    if msg.len() == 0 {
        Seq::empty()
    } else {
        msg.take(payload_len(msg) as int) + payloads_of(msg.skip(payload_len(msg) as int))
    }
}

/// Every frame of a message starts with the tag, has at most the maximum
/// size and a length that is a multiple of four; an empty message has no
/// frame; the sequence number is never 255 behind the first frame; and the
/// frames take the message in whole, in order.
pub proof fn lemma_frames(tag: u8, sequence_number: u8, msg: Seq<u8>, i: int)
    requires
        0 <= i < frames_of(tag, sequence_number, msg).len(),
    ensures
        msg.len() > 0,
        frames_of(tag, sequence_number, msg)[i].len() <= MAXIMUM_DSP_FRAME_SIZE,
        frames_of(tag, sequence_number, msg)[i].len() % 4 == 0,
        frames_of(tag, sequence_number, msg)[i].len() >= 4,
        frames_of(tag, sequence_number, msg)[i][0] == tag,
        frames_of(tag, sequence_number, msg)[i][1] == sequence_number_after(
            sequence_number,
            i as nat,
        ),
        i > 0 ==> frames_of(tag, sequence_number, msg)[i][1] != 0xff,
        payloads_of(msg) == msg,
    decreases msg.len(),
{
    lemma_payloads(msg);
    let n = payload_len(msg) as int;
    let head = frame_of(tag, sequence_number, msg.take(n));
    if i == 0 {
        assert(frames_of(tag, sequence_number, msg)[0] == head);
    } else {
        let next = spec_next_sequence_number(sequence_number);
        assert(frames_of(tag, sequence_number, msg)[i] == frames_of(tag, next, msg.skip(n))[i
            - 1]);
        lemma_frames(tag, next, msg.skip(n), i - 1);
        lemma_sequence_number_never_last(next, (i - 1) as nat);
    }
}

proof fn lemma_payloads(msg: Seq<u8>)
    ensures
        payloads_of(msg) == msg,
    decreases msg.len(),
{
    if msg.len() > 0 {
        let n = payload_len(msg) as int;
        lemma_payloads(msg.skip(n));
        assert(msg.take(n) + msg.skip(n) =~= msg);
    }
}

proof fn lemma_sequence_number_never_last(sequence_number: u8, count: nat)
    requires
        sequence_number != 0xff,
    ensures
        sequence_number_after(sequence_number, count) != 0xff,
    decreases count,
{
    if count > 0 {
        lemma_sequence_number_never_last(
            spec_next_sequence_number(sequence_number),
            (count - 1) as nat,
        );
    }
}

/// To go from a state to the same state, no frame is sent: the commands to
/// send from a list of commands to the same list are none, and none has no
/// frame.
pub proof fn lemma_same_state_sends_no_frame(
    cmds: Seq<DspCmd>,
    changed: Seq<DspCmd>,
    sequence_number: u8,
)
    requires
        cmds_view(changed) == changed_cmds(cmds_view(cmds), cmds_view(cmds)),
    ensures
        changed.len() == 0,
        frames_of(TAG_COMMANDS, sequence_number, stream_of(changed)).len() == 0,
        sequence_number_after(sequence_number, 0) == sequence_number,
{
    lemma_nothing_changed(cmds_view(cmds));
    assert(cmds_view(changed).len() == changed.len());
}

} // verus!
