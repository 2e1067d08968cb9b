//! Reassembly of the command streams that the device sends.
//!
//! The device delivers a stream of records in frames of two leading bytes, a
//! tag and a sequence number, and a payload. A frame of the maximum size
//! says that the stream goes on in the next frame. A frame out of sequence
//! drops what was gathered. Behind the last record of a stream the device
//! fills the frame up, which is cut off once the stream is whole.

use vstd::prelude::*;
use super::cmd::{
    announced_len, cmds_view, decode_stream, lemma_encode_then_decode, lemma_stream_round_trip,
    record_len, stream_of, stream_rest, DspCmd, DspCmdView,
};
use super::codec::{
    CMD_BYTE_MULTIPLE, CMD_BYTE_SINGLE, CMD_BYTE_SINGLE_LENGTH, CMD_DRAIN, CMD_QUADLET_MULTIPLE,
    CMD_QUADLET_SINGLE, CMD_QUADLET_SINGLE_LENGTH, CMD_RESOURCE, CMD_RESOURCE_LENGTH,
};

verus! {

/// The largest size of a frame, in bytes.
pub const MAXIMUM_DSP_FRAME_SIZE: usize = 248;

/// Where the reassembly stands.
#[derive(Debug, Copy, Clone, Eq, PartialEq, Structural)]
pub enum ParserState {
    /// No frame was seen yet.
    Initialized,
    /// Between streams, or with a whole stream gathered.
    Prepared,
    /// Within a stream that goes on in the next frame.
    InTruncatedMessage,
}

/// The structure for state of message parser.
#[derive(Debug)]
pub struct CommandDspMessageHandler {
    pub state: ParserState,
    pub cache: Vec<u8>,
    pub seq_num: u8,
}

/// The state of a message parser, with the gathered bytes as a sequence.
pub struct HandlerView {
    pub state: ParserState,
    pub cache: Seq<u8>,
    pub seq_num: u8,
}

impl View for CommandDspMessageHandler {
    type V = HandlerView;

    open spec fn view(&self) -> HandlerView {
        HandlerView { state: self.state, cache: self.cache@, seq_num: self.seq_num }
    }
}

/// Sequence number that follows `seq_num` in the frames of the device.
pub open spec fn spec_increment_seq_num(seq_num: u8) -> u8 {
    if seq_num == u8::MAX {
        0u8
    } else {
        (seq_num + 1) as u8
    }
}

/// The length of the run of whole records at the head of `buf`: up to the
/// end of `buf`, the first unknown tag, the end of the stream, or the first
/// record that `buf` does not hold in whole.
pub open spec fn records_len(buf: Seq<u8>) -> nat
    decreases buf.len(),
{
    if announced_len(buf) == 0 || announced_len(buf) > buf.len() {
        0
    } else {
        announced_len(buf) + records_len(buf.skip(announced_len(buf) as int))
    }
}

/// `buf` without what follows its run of whole records.
pub open spec fn without_padding(buf: Seq<u8>) -> Seq<u8> {
    buf.take(records_len(buf) as int)
}

/// Whether `buf` is a run of whole records: of records with a known tag
/// other than the end of the stream, each held in whole.
pub open spec fn is_record_run(buf: Seq<u8>) -> bool
    decreases buf.len(),
{
    buf.len() == 0 || {
        &&& 0 < announced_len(buf) <= buf.len()
        &&& is_record_run(buf.skip(announced_len(buf) as int))
    }
}

/// The state of the parser after the frame `frame`, of two bytes at least.
pub open spec fn handler_step(handler: HandlerView, frame: Seq<u8>) -> HandlerView {
    let seq_num = frame[1];
    let state = if handler.state is Initialized {
        ParserState::Prepared
    } else {
        handler.state
    };
    let expected = if handler.state is Initialized {
        seq_num
    } else {
        handler.seq_num
    };
    if expected != seq_num {
        HandlerView { state: ParserState::Prepared, cache: Seq::empty(), seq_num: expected }
    } else if state is Prepared {
        if frame.len() > 4 && frame[2] != 0x00 {
            if frame.len() == MAXIMUM_DSP_FRAME_SIZE {
                HandlerView {
                    state: ParserState::InTruncatedMessage,
                    cache: handler.cache + frame.skip(2),
                    seq_num: spec_increment_seq_num(seq_num),
                }
            } else {
                HandlerView {
                    state: ParserState::Prepared,
                    cache: without_padding(handler.cache + frame.skip(2)),
                    seq_num: spec_increment_seq_num(seq_num),
                }
            }
        } else {
            HandlerView {
                state: ParserState::Prepared,
                cache: handler.cache,
                seq_num: spec_increment_seq_num(seq_num),
            }
        }
    } else {
        if frame.len() < MAXIMUM_DSP_FRAME_SIZE {
            HandlerView {
                state: ParserState::Prepared,
                cache: without_padding(handler.cache + frame.skip(2)),
                seq_num: spec_increment_seq_num(seq_num),
            }
        } else {
            HandlerView {
                state: ParserState::InTruncatedMessage,
                cache: handler.cache + frame.skip(2),
                seq_num: spec_increment_seq_num(seq_num),
            }
        }
    }
}

/// Whether a whole stream is gathered.
pub open spec fn spec_has_dsp_message(handler: HandlerView) -> bool {
    handler.cache.len() > 0 && handler.state is Prepared
}

pub fn increment_seq_num(seq_num: u8) -> (next: u8)
    ensures
        next == spec_increment_seq_num(seq_num),
{
    if seq_num == u8::MAX {
        0
    } else {
        seq_num + 1
    }
}

/// The length that the head of `raw` announces for its record.
pub fn announced_length(raw: &[u8]) -> (length: usize)
    ensures
        length == announced_len(raw@),
{
    if raw.len() == 0 {
        return 0;
    }
    let tag = raw[0];
    if tag == CMD_RESOURCE {
        CMD_RESOURCE_LENGTH
    } else if tag == CMD_QUADLET_MULTIPLE && raw.len() >= 2 {
        6 + 4 * (raw[1] as usize)
    } else if tag == CMD_BYTE_MULTIPLE && raw.len() >= 2 {
        6 + raw[1] as usize
    } else if tag == CMD_DRAIN {
        1
    } else if tag == CMD_QUADLET_SINGLE {
        CMD_QUADLET_SINGLE_LENGTH
    } else if tag == CMD_BYTE_SINGLE {
        CMD_BYTE_SINGLE_LENGTH
    } else {
        0
    }
}

/// Cuts off what follows the run of whole records at the head of `cache`.
pub fn remove_padding(cache: &mut Vec<u8>)
    ensures
        final(cache)@ == without_padding(old(cache)@),
{
    let total = cache.len();
    let mut count: usize = 0;
    let mut done = false;
    assert(cache@.skip(0) =~= cache@);
    while !done && count < total
        invariant
            total == cache@.len(),
            cache@ == old(cache)@,
            count <= total,
            records_len(cache@) == count + records_len(cache@.skip(count as int)),
            done ==> records_len(cache@.skip(count as int)) == 0,
        decreases total - count + (if done { 0int } else { 1int }),
    {
        let buf = &cache.as_slice()[count..total];
        assert(buf@ =~= cache@.skip(count as int));
        let length = announced_length(buf);
        if length == 0 || length > total - count {
            done = true;
        } else {
            proof {
                assert(cache@.skip(count as int).skip(length as int) =~= cache@.skip(
                    count + length,
                ));
            }
            count += length;
        }
    }
    cache.truncate(count);
}

impl Default for CommandDspMessageHandler {
    fn default() -> (handler: Self)
        ensures
            handler@ == (HandlerView {
                state: ParserState::Initialized,
                cache: Seq::empty(),
                seq_num: 0,
            }),
    {
        Self {
            state: ParserState::Initialized,
            cache: Vec::with_capacity(MAXIMUM_DSP_FRAME_SIZE + 6),
            seq_num: 0,
        }
    }
}

impl CommandDspMessageHandler {
    /// Takes in one frame from the device: its tag, its sequence number and
    /// its payload.
    ///
    /// The first frame ever sets the sequence number to go on from. A frame
    /// with another sequence number than the one that is due drops what is
    /// gathered. Between streams a frame of up to four bytes, or with a
    /// payload that starts with a zero byte, carries no stream. A frame of
    /// the maximum size leaves the stream open, a shorter one closes it and
    /// has the padding cut off.
    pub fn cache_dsp_messages(&mut self, frame: &[u8])
        requires
            frame@.len() >= 2,
        ensures
            final(self)@ == handler_step(old(self)@, frame@),
    {
        let seq_num = frame[1];

        if self.state == ParserState::Initialized {
            self.seq_num = seq_num;
            self.state = ParserState::Prepared;
        }
        if self.seq_num == seq_num {
            self.seq_num = increment_seq_num(seq_num);

            if self.state == ParserState::Prepared {
                if frame.len() > 4 && frame[2] != 0x00 {
                    self.cache.extend_from_slice(&frame[2..frame.len()]);
                    assert(self.cache@ =~= old(self).cache@ + frame@.skip(2));
                    if frame.len() == MAXIMUM_DSP_FRAME_SIZE {
                        self.state = ParserState::InTruncatedMessage;
                    } else {
                        remove_padding(&mut self.cache);
                    }
                }
            } else {
                self.cache.extend_from_slice(&frame[2..frame.len()]);
                assert(self.cache@ =~= old(self).cache@ + frame@.skip(2));
                if frame.len() < MAXIMUM_DSP_FRAME_SIZE {
                    remove_padding(&mut self.cache);
                    self.state = ParserState::Prepared;
                }
            }
        } else {
            self.cache.clear();
            self.state = ParserState::Prepared;
        }
    }

    /// Whether a whole stream is gathered.
    pub fn has_dsp_message(&self) -> (has: bool)
        ensures
            has == spec_has_dsp_message(self@),
    {
        self.cache.len() > 0 && self.state == ParserState::Prepared
    }

    /// Takes the records off the head of the gathered bytes and returns
    /// their commands. What cannot be taken as a record stays gathered.
    pub fn decode_messages(&mut self) -> (cmds: Vec<DspCmd>)
        ensures
            cmds_view(cmds@) == decode_stream(old(self).cache@),
            final(self).cache@ == stream_rest(old(self).cache@),
            final(self).state == old(self).state,
            final(self).seq_num == old(self).seq_num,
    {
        let mut cmds: Vec<DspCmd> = Vec::new();
        let total = self.cache.len();
        let mut taken: usize = 0;
        assert(cmds_view(cmds@) =~= Seq::<DspCmdView>::empty());
        assert(self.cache@.skip(0) =~= self.cache@);
        loop
            invariant
                self.cache@ == old(self).cache@,
                self.state == old(self).state,
                self.seq_num == old(self).seq_num,
                total == self.cache@.len(),
                taken <= total,
                decode_stream(self.cache@) == cmds_view(cmds@) + decode_stream(
                    self.cache@.skip(taken as int),
                ),
                stream_rest(self.cache@) == stream_rest(self.cache@.skip(taken as int)),
            ensures
                taken <= total,
                self.cache@ == old(self).cache@,
                self.state == old(self).state,
                self.seq_num == old(self).seq_num,
                total == self.cache@.len(),
                decode_stream(self.cache@) == cmds_view(cmds@),
                stream_rest(self.cache@) == self.cache@.skip(taken as int),
            decreases total - taken,
        {
            let buf = &self.cache.as_slice()[taken..total];
            assert(buf@ =~= self.cache@.skip(taken as int));
            let ghost before = cmds_view(cmds@);
            let consumed = DspCmd::parse(buf, &mut cmds);
            if consumed == 0 {
                assert(cmds_view(cmds@) =~= before);
                assert(before + Seq::<DspCmdView>::empty() =~= before);
                break;
            }
            proof {
                let rest = self.cache@.skip(taken as int);
                assert(rest.skip(consumed as int) =~= self.cache@.skip(taken + consumed));
                assert(before + (cmds_view(cmds@).skip(before.len() as int) + decode_stream(
                    rest.skip(consumed as int),
                )) =~= cmds_view(cmds@) + decode_stream(rest.skip(consumed as int)));
            }
            taken += consumed;
        }
        let rest = self.cache.split_off(taken);
        self.cache = rest;
        assert(self.cache@ =~= old(self).cache@.skip(taken as int));
        cmds
    }
}

/// The run of whole records at the head of `buf` is a part of `buf`.
pub proof fn lemma_records_len_bound(buf: Seq<u8>)
    ensures
        records_len(buf) <= buf.len(),
        without_padding(buf).len() == records_len(buf),
    decreases buf.len(),
{
    if !(announced_len(buf) == 0 || announced_len(buf) > buf.len()) {
        lemma_records_len_bound(buf.skip(announced_len(buf) as int));
    }
}

/// A run of whole records that is followed by zero bytes is what is left
/// when the padding is cut off.
pub proof fn lemma_padding_is_removed(records: Seq<u8>, padding: Seq<u8>)
    requires
        is_record_run(records),
        forall|i: int| 0 <= i < padding.len() ==> padding[i] == 0,
    ensures
        records_len(records + padding) == records.len(),
        without_padding(records + padding) == records,
    decreases records.len(),
{
    let buf = records + padding;
    if records.len() == 0 {
        assert(buf =~= padding);
        if padding.len() > 0 {
            assert(announced_len(padding) == 0);
        }
    } else {
        let length = announced_len(records);
        assert(buf[0] == records[0]);
        if records.len() >= 2 {
            assert(buf[1] == records[1]);
        }
        assert(announced_len(buf) == length);
        assert(buf.skip(length as int) =~= records.skip(length as int) + padding);
        lemma_padding_is_removed(records.skip(length as int), padding);
    }
    assert(buf.take(records.len() as int) =~= records);
}

/// A stream in two frames: the first, of the maximum size, leaves the
/// stream open, so that no message is reported; the second, a shorter one
/// in sequence, closes it. With a payload in the second frame, the parser
/// then has gathered what it would have gathered from both payloads in one
/// frame, and reports a message if and only if that begins with a whole
/// record.
pub proof fn lemma_truncated_stream_is_reassembled(
    handler: HandlerView,
    first: Seq<u8>,
    second: Seq<u8>,
)
    requires
        first.len() == MAXIMUM_DSP_FRAME_SIZE,
        2 <= second.len() < MAXIMUM_DSP_FRAME_SIZE,
        handler.state is Initialized || (handler.state is Prepared && handler.seq_num
            == first[1]),
        first[2] != 0x00,
        second[1] == spec_increment_seq_num(first[1]),
    ensures
        !spec_has_dsp_message(handler_step(handler, first)),
        handler_step(handler, first).state is InTruncatedMessage,
        handler_step(handler_step(handler, first), second).state is Prepared,
        handler_step(handler_step(handler, first), second).cache == without_padding(
            handler.cache + first.skip(2) + second.skip(2),
        ),
        spec_has_dsp_message(handler_step(handler_step(handler, first), second)) <==> records_len(
            handler.cache + first.skip(2) + second.skip(2),
        ) > 0,
        second.len() > 2 ==> handler_step(handler_step(handler, first), second).cache
            == handler_step(handler, first + second.skip(2)).cache,
        second.len() > 2 ==> handler_step(handler, first + second.skip(2)).state is Prepared,
        second.len() > 2 ==> decode_stream(
            handler_step(handler_step(handler, first), second).cache,
        ) == decode_stream(handler_step(handler, first + second.skip(2)).cache),
{
    let joined = first + second.skip(2);
    lemma_records_len_bound(handler.cache + first.skip(2) + second.skip(2));
    assert(joined.skip(2) =~= first.skip(2) + second.skip(2));
    assert(handler.cache + joined.skip(2) =~= handler.cache + first.skip(2) + second.skip(2));
    assert(joined[1] == first[1] && joined[2] == first[2]);
}

/// A frame out of sequence drops what was gathered, and the frame in
/// sequence that follows starts anew: what is gathered then is the run of
/// records of its payload alone.
pub proof fn lemma_desynchronized_frame_resets(
    handler: HandlerView,
    unexpected: Seq<u8>,
    following: Seq<u8>,
)
    requires
        !(handler.state is Initialized),
        unexpected.len() >= 2,
        unexpected[1] != handler.seq_num,
        following.len() > 4,
        following.len() != MAXIMUM_DSP_FRAME_SIZE,
        following[1] == handler.seq_num,
        following[2] != 0x00,
    ensures
        handler_step(handler, unexpected) == (HandlerView {
            state: ParserState::Prepared,
            cache: Seq::empty(),
            seq_num: handler.seq_num,
        }),
        handler_step(handler_step(handler, unexpected), following) == (HandlerView {
            state: ParserState::Prepared,
            cache: without_padding(following.skip(2)),
            seq_num: spec_increment_seq_num(handler.seq_num),
        }),
{
    assert(Seq::<u8>::empty() + following.skip(2) =~= following.skip(2));
}

/// A run of records goes on with another run of records.
pub proof fn lemma_record_runs_join(front: Seq<u8>, back: Seq<u8>)
    requires
        is_record_run(front),
        is_record_run(back),
    ensures
        is_record_run(front + back),
    decreases front.len(),
{
    let buf = front + back;
    if front.len() == 0 {
        assert(buf =~= back);
    } else {
        let length = announced_len(front);
        assert(buf[0] == front[0]);
        if front.len() >= 2 {
            assert(buf[1] == front[1]);
        }
        assert(announced_len(buf) == length);
        assert(buf.skip(length as int) =~= front.skip(length as int) + back);
        lemma_record_runs_join(front.skip(length as int), back);
    }
}

/// The bytes of canonical commands are a run of whole records.
pub proof fn lemma_stream_is_record_run(cmds: Seq<DspCmd>)
    requires
        forall|i: int| 0 <= i < cmds.len() ==> (#[trigger] cmds[i]).is_canonical(),
    ensures
        is_record_run(stream_of(cmds)),
    decreases cmds.len(),
{
    if cmds.len() > 0 {
        let front = cmds.drop_last();
        let record = cmds.last().spec_build();
        assert(cmds.last().is_canonical());
        lemma_encode_then_decode(cmds.last());
        assert(record.skip(record.len() as int).len() == 0);
        assert(is_record_run(record.skip(record.len() as int)));
        assert(is_record_run(record));
        assert forall|i: int| 0 <= i < front.len() implies (#[trigger] front[i]).is_canonical() by {
            assert(front[i] == cmds[i]);
        }
        lemma_stream_is_record_run(front);
        lemma_record_runs_join(stream_of(front), record);
    }
}

/// What the parser gathers from the bytes of canonical commands that are
/// followed by zero bytes are the bytes of the commands, and decoding them
/// gives the commands back and leaves nothing.
pub proof fn lemma_padded_stream_is_decoded(cmds: Seq<DspCmd>, padding: Seq<u8>)
    requires
        forall|i: int| 0 <= i < cmds.len() ==> (#[trigger] cmds[i]).is_canonical(),
        forall|i: int| 0 <= i < padding.len() ==> padding[i] == 0,
    ensures
        without_padding(stream_of(cmds) + padding) == stream_of(cmds),
        decode_stream(without_padding(stream_of(cmds) + padding)) == cmds_view(cmds),
        stream_rest(without_padding(stream_of(cmds) + padding)).len() == 0,
{
    lemma_stream_is_record_run(cmds);
    lemma_padding_is_removed(stream_of(cmds), padding);
    lemma_stream_round_trip(cmds);
}

/// What is left when the padding is cut off, if anything, begins with a
/// whole record: the parser never reports a message of which no record can
/// be taken.
pub proof fn lemma_gathered_begins_with_record(buf: Seq<u8>)
    requires
        without_padding(buf).len() > 0,
    ensures
        0 < record_len(without_padding(buf)) <= without_padding(buf).len(),
        record_len(without_padding(buf)) == announced_len(buf),
{
    lemma_records_len_bound(buf);
    let length = announced_len(buf);
    let kept = without_padding(buf);
    lemma_records_len_bound(buf.skip(length as int));
    assert(kept[0] == buf[0]);
    if buf.len() >= 2 && kept.len() >= 2 {
        assert(kept[1] == buf[1]);
    }
}

/// The frame that closes a truncated stream leaves the parser with the run
/// of whole records, where what was gathered and its payload make up a run
/// of whole records that is followed by zero bytes; a message is reported
/// unless the run is empty.
pub proof fn lemma_closing_frame_gathers_records(
    handler: HandlerView,
    frame: Seq<u8>,
    records: Seq<u8>,
    padding: Seq<u8>,
)
    requires
        2 <= frame.len() < MAXIMUM_DSP_FRAME_SIZE,
        handler.state is InTruncatedMessage,
        frame[1] == handler.seq_num,
        handler.cache + frame.skip(2) == records + padding,
        is_record_run(records),
        forall|i: int| 0 <= i < padding.len() ==> padding[i] == 0,
    ensures
        handler_step(handler, frame) == (HandlerView {
            state: ParserState::Prepared,
            cache: records,
            seq_num: spec_increment_seq_num(handler.seq_num),
        }),
        spec_has_dsp_message(handler_step(handler, frame)) <==> records.len() > 0,
{
    lemma_padding_is_removed(records, padding);
}

/// A frame in sequence between streams, of another size than the maximum,
/// leaves a parser that has gathered nothing with the run of whole records,
/// where its payload is a run of whole records, not empty, that is followed
/// by zero bytes, and a message is reported.
pub proof fn lemma_fresh_frame_gathers_records(
    handler: HandlerView,
    frame: Seq<u8>,
    records: Seq<u8>,
    padding: Seq<u8>,
)
    requires
        frame.len() > 4,
        frame.len() != MAXIMUM_DSP_FRAME_SIZE,
        handler.state is Initialized || (handler.state is Prepared && frame[1]
            == handler.seq_num),
        handler.cache.len() == 0,
        frame.skip(2) == records + padding,
        records.len() > 0,
        is_record_run(records),
        forall|i: int| 0 <= i < padding.len() ==> padding[i] == 0,
    ensures
        handler_step(handler, frame) == (HandlerView {
            state: ParserState::Prepared,
            cache: records,
            seq_num: spec_increment_seq_num(frame[1]),
        }),
        spec_has_dsp_message(handler_step(handler, frame)),
{
    lemma_padding_is_removed(records, padding);
    assert(handler.cache + frame.skip(2) =~= frame.skip(2));
    assert(frame[2] == frame.skip(2)[0]);
    assert(frame.skip(2)[0] == records[0]);
    assert(announced_len(records) > 0);
}

} // verus!
