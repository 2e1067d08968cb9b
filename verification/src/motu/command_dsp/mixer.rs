//! Commands of the mixers.

use vstd::prelude::*;
use vstd::std_specs::cmp::PartialEqSpecImpl;
use crate::float32::Float32;
use super::codec::{
    append_coefficient, append_data, bool_to_u8, bytes_to_vec, channel_byte, coefficient_record,
    data_record, flag_byte, is_single_record, lemma_coefficient_record, lemma_data_record,
    same_bytes, single_identifier, single_vals, spec_to_bool, spec_to_f32, spec_to_usize, to_bool,
    to_f32, to_usize, CmdView, Coefficient,
};
use super::effects::{lemma_byte_coefficient, lemma_flag_coefficient, lemma_number_coefficient};
use super::params::SourceStereoPairMode;

verus! {

/// Second level of the commands of the mixer source `src`: the sources follow
/// the two second levels of the mixer's own parameters.
pub open spec fn source_level(src: usize) -> u8 {
    ((src + 2) % 0x100) as u8
}

fn source_level_of(src: usize) -> (level: u8)
    ensures
        level == source_level(src),
{
    (((src % 0x100) + 2) % 0x100) as u8
}

/// First level of the identifiers of the section's commands.
pub const MIXER_LEVEL: u8 = 0x02;

/// The DSP command specific to mixer.
#[derive(Debug)]
pub enum MixerCmd {
    OutputAssign(usize, usize),
    OutputMute(usize, bool),
    OutputVolume(usize, Float32),
    ReverbSend(usize, Float32),
    ReverbReturn(usize, Float32),
    SourceMute(usize, usize, bool),
    SourceSolo(usize, usize, bool),
    SourceMonauralLrBalance(usize, usize, Float32),
    SourceGain(usize, usize, Float32),
    SourceStereoMode(usize, usize, SourceStereoPairMode),
    SourceStereoLrBalance(usize, usize, Float32),
    SourceStereoWidth(usize, usize, Float32),
    Reserved(Vec<u8>, Vec<u8>),
}

impl View for MixerCmd {
    type V = CmdView<MixerCmd>;

    open spec fn view(&self) -> CmdView<MixerCmd> {
        match *self {
            MixerCmd::Reserved(identifier, vals) => CmdView::Reserved(identifier@, vals@),
            cmd => CmdView::Typed(cmd),
        }
    }
}

impl MixerCmd {
    /// The command that an identifier of four bytes and a coefficient of one
    /// or four bytes stand for. Where the identifier names no documented
    /// parameter of the section, or the coefficient has not the width that
    /// belongs to the parameter, both are kept as they are.
    pub open spec fn spec_parse(identifier: Seq<u8>, vals: Seq<u8>) -> CmdView<MixerCmd> {
        let ch = identifier[0] as usize;
        let second_level = identifier[2];
        let third_level = identifier[1];
        let byte = vals.len() == 1;
        let quadlet = vals.len() == 4;
        if identifier[3] != MIXER_LEVEL {
            CmdView::Reserved(identifier, vals)
        } else if second_level == 0x00 && third_level == 0x00 && byte {
            CmdView::Typed(MixerCmd::OutputAssign(ch, spec_to_usize(vals)))
        } else if second_level == 0x00 && third_level == 0x01 && byte {
            CmdView::Typed(MixerCmd::OutputMute(ch, spec_to_bool(vals)))
        } else if second_level == 0x00 && third_level == 0x02 && quadlet {
            CmdView::Typed(MixerCmd::OutputVolume(ch, spec_to_f32(vals)))
        } else if second_level == 0x01 && third_level == 0x00 && quadlet {
            CmdView::Typed(MixerCmd::ReverbSend(ch, spec_to_f32(vals)))
        } else if second_level == 0x01 && third_level == 0x01 && quadlet {
            CmdView::Typed(MixerCmd::ReverbReturn(ch, spec_to_f32(vals)))
        } else if second_level >= 2 && third_level == 0x00 && byte {
            CmdView::Typed(MixerCmd::SourceMute(ch, (second_level - 2) as usize, spec_to_bool(vals)))
        } else if second_level >= 2 && third_level == 0x01 && byte {
            CmdView::Typed(MixerCmd::SourceSolo(ch, (second_level - 2) as usize, spec_to_bool(vals)))
        } else if second_level >= 2 && third_level == 0x02 && quadlet {
            CmdView::Typed(MixerCmd::SourceMonauralLrBalance(ch, (second_level - 2) as usize, spec_to_f32(vals)))
        } else if second_level >= 2 && third_level == 0x03 && quadlet {
            CmdView::Typed(MixerCmd::SourceGain(ch, (second_level - 2) as usize, spec_to_f32(vals)))
        } else if second_level >= 2 && third_level == 0x04 {
            CmdView::Typed(MixerCmd::SourceStereoMode(ch, (second_level - 2) as usize, SourceStereoPairMode::of_byte(vals[0])))
        } else if second_level >= 2 && third_level == 0x05 && quadlet {
            CmdView::Typed(MixerCmd::SourceStereoLrBalance(ch, (second_level - 2) as usize, spec_to_f32(vals)))
        } else if second_level >= 2 && third_level == 0x06 && quadlet {
            CmdView::Typed(MixerCmd::SourceStereoWidth(ch, (second_level - 2) as usize, spec_to_f32(vals)))
        } else {
            CmdView::Reserved(identifier, vals)
        }
    }

    /// Second and third level of the identifier in the command's record.
    pub open spec fn spec_levels(self) -> (u8, u8) {
        match self {
            MixerCmd::OutputAssign(_, _) => (0x00, 0x00),
            MixerCmd::OutputMute(_, _) => (0x00, 0x01),
            MixerCmd::OutputVolume(_, _) => (0x00, 0x02),
            MixerCmd::ReverbSend(_, _) => (0x01, 0x00),
            MixerCmd::ReverbReturn(_, _) => (0x01, 0x01),
            MixerCmd::SourceMute(_, src, _) => (source_level(src), 0x00),
            MixerCmd::SourceSolo(_, src, _) => (source_level(src), 0x01),
            MixerCmd::SourceMonauralLrBalance(_, src, _) => (source_level(src), 0x02),
            MixerCmd::SourceGain(_, src, _) => (source_level(src), 0x03),
            MixerCmd::SourceStereoMode(_, src, _) => (source_level(src), 0x04),
            MixerCmd::SourceStereoLrBalance(_, src, _) => (source_level(src), 0x05),
            MixerCmd::SourceStereoWidth(_, src, _) => (source_level(src), 0x06),
            MixerCmd::Reserved(identifier, _) => (identifier@[2], identifier@[1]),
        }
    }

    /// Channel of the identifier in the command's record.
    pub open spec fn spec_channel(self) -> usize {
        match self {
            MixerCmd::OutputAssign(ch, _) => ch,
            MixerCmd::OutputMute(ch, _) => ch,
            MixerCmd::OutputVolume(ch, _) => ch,
            MixerCmd::ReverbSend(ch, _) => ch,
            MixerCmd::ReverbReturn(ch, _) => ch,
            MixerCmd::SourceMute(ch, _, _) => ch,
            MixerCmd::SourceSolo(ch, _, _) => ch,
            MixerCmd::SourceMonauralLrBalance(ch, _, _) => ch,
            MixerCmd::SourceGain(ch, _, _) => ch,
            MixerCmd::SourceStereoMode(ch, _, _) => ch,
            MixerCmd::SourceStereoLrBalance(ch, _, _) => ch,
            MixerCmd::SourceStereoWidth(ch, _, _) => ch,
            MixerCmd::Reserved(identifier, _) => identifier@[0] as usize,
        }
    }

    /// The coefficient of a command of a documented parameter.
    pub open spec fn spec_coefficient(self) -> Coefficient {
        match self {
            MixerCmd::OutputAssign(_, val) => Coefficient::Byte(channel_byte(val)),
            MixerCmd::OutputMute(_, val) => Coefficient::Byte(flag_byte(val)),
            MixerCmd::OutputVolume(_, val) => Coefficient::Quadlet(val),
            MixerCmd::ReverbSend(_, val) => Coefficient::Quadlet(val),
            MixerCmd::ReverbReturn(_, val) => Coefficient::Quadlet(val),
            MixerCmd::SourceMute(_, _, val) => Coefficient::Byte(flag_byte(val)),
            MixerCmd::SourceSolo(_, _, val) => Coefficient::Byte(flag_byte(val)),
            MixerCmd::SourceMonauralLrBalance(_, _, val) => Coefficient::Quadlet(val),
            MixerCmd::SourceGain(_, _, val) => Coefficient::Quadlet(val),
            MixerCmd::SourceStereoMode(_, _, val) => Coefficient::Byte(val.byte()),
            MixerCmd::SourceStereoLrBalance(_, _, val) => Coefficient::Quadlet(val),
            MixerCmd::SourceStereoWidth(_, _, val) => Coefficient::Quadlet(val),
            MixerCmd::Reserved(_, _) => Coefficient::Byte(0),
        }
    }

    /// The record that carries the command.
    pub open spec fn spec_build(self) -> Seq<u8> {
        match self {
            MixerCmd::Reserved(identifier, vals) => data_record(identifier@, vals@),
            _ => coefficient_record(
                MIXER_LEVEL,
                self.spec_levels().0,
                self.spec_levels().1,
                self.spec_channel(),
                self.spec_coefficient(),
            ),
        }
    }

    /// Holds of the commands that a record carries without loss: channels
    /// below 256, integers that are numbers of the wire format, and as
    /// `Reserved` only what names no documented parameter of the section.
    pub open spec fn is_canonical(self) -> bool {
        match self {
            MixerCmd::OutputAssign(ch, val) => ch < 0x100 && val < 0x100,
            MixerCmd::OutputMute(ch, val) => ch < 0x100,
            MixerCmd::OutputVolume(ch, val) => ch < 0x100,
            MixerCmd::ReverbSend(ch, val) => ch < 0x100,
            MixerCmd::ReverbReturn(ch, val) => ch < 0x100,
            MixerCmd::SourceMute(ch, src, val) => ch < 0x100 && src < 0xfe,
            MixerCmd::SourceSolo(ch, src, val) => ch < 0x100 && src < 0xfe,
            MixerCmd::SourceMonauralLrBalance(ch, src, val) => ch < 0x100 && src < 0xfe,
            MixerCmd::SourceGain(ch, src, val) => ch < 0x100 && src < 0xfe,
            MixerCmd::SourceStereoMode(ch, src, val) => ch < 0x100 && src < 0xfe && val.is_canonical(),
            MixerCmd::SourceStereoLrBalance(ch, src, val) => ch < 0x100 && src < 0xfe,
            MixerCmd::SourceStereoWidth(ch, src, val) => ch < 0x100 && src < 0xfe,
            MixerCmd::Reserved(identifier, vals) => {
                &&& identifier@.len() == 4
                &&& (vals@.len() == 1 || vals@.len() == 4)
                &&& identifier@[3] == MIXER_LEVEL
                &&& Self::spec_parse(identifier@, vals@) == CmdView::<MixerCmd>::Reserved(
                    identifier@,
                    vals@,
                )
            },
        }
    }

    pub fn parse(identifier: &[u8], vals: &[u8]) -> (cmd: Self)
        requires
            identifier@.len() == 4,
            vals@.len() == 1 || vals@.len() == 4,
        ensures
            cmd@ == Self::spec_parse(identifier@, vals@),
    {
        let ch = identifier[0] as usize;
        let second_level = identifier[2];
        let third_level = identifier[1];
        let byte = vals.len() == 1;
        let quadlet = vals.len() == 4;
        if identifier[3] != MIXER_LEVEL {
            return MixerCmd::Reserved(bytes_to_vec(identifier), bytes_to_vec(vals));
        }
        if second_level == 0x00 && third_level == 0x00 && byte {
            MixerCmd::OutputAssign(ch, to_usize(vals))
        } else if second_level == 0x00 && third_level == 0x01 && byte {
            MixerCmd::OutputMute(ch, to_bool(vals))
        } else if second_level == 0x00 && third_level == 0x02 && quadlet {
            MixerCmd::OutputVolume(ch, to_f32(vals))
        } else if second_level == 0x01 && third_level == 0x00 && quadlet {
            MixerCmd::ReverbSend(ch, to_f32(vals))
        } else if second_level == 0x01 && third_level == 0x01 && quadlet {
            MixerCmd::ReverbReturn(ch, to_f32(vals))
        } else if second_level >= 2 && third_level == 0x00 && byte {
            MixerCmd::SourceMute(ch, (second_level - 2) as usize, to_bool(vals))
        } else if second_level >= 2 && third_level == 0x01 && byte {
            MixerCmd::SourceSolo(ch, (second_level - 2) as usize, to_bool(vals))
        } else if second_level >= 2 && third_level == 0x02 && quadlet {
            MixerCmd::SourceMonauralLrBalance(ch, (second_level - 2) as usize, to_f32(vals))
        } else if second_level >= 2 && third_level == 0x03 && quadlet {
            MixerCmd::SourceGain(ch, (second_level - 2) as usize, to_f32(vals))
        } else if second_level >= 2 && third_level == 0x04 {
            MixerCmd::SourceStereoMode(ch, (second_level - 2) as usize, SourceStereoPairMode::from(vals[0]))
        } else if second_level >= 2 && third_level == 0x05 && quadlet {
            MixerCmd::SourceStereoLrBalance(ch, (second_level - 2) as usize, to_f32(vals))
        } else if second_level >= 2 && third_level == 0x06 && quadlet {
            MixerCmd::SourceStereoWidth(ch, (second_level - 2) as usize, to_f32(vals))
        } else {
            MixerCmd::Reserved(bytes_to_vec(identifier), bytes_to_vec(vals))
        }
    }

    pub fn build(&self, raw: &mut Vec<u8>)
        ensures
            final(raw)@ == old(raw)@ + self.spec_build(),
    {
        match self {
            MixerCmd::OutputAssign(ch, val) => append_coefficient(raw, MIXER_LEVEL, 0x00, 0x00, *ch, Coefficient::Byte((*val % 0x100) as u8)),
            MixerCmd::OutputMute(ch, val) => append_coefficient(raw, MIXER_LEVEL, 0x00, 0x01, *ch, Coefficient::Byte(bool_to_u8(*val))),
            MixerCmd::OutputVolume(ch, val) => append_coefficient(raw, MIXER_LEVEL, 0x00, 0x02, *ch, Coefficient::Quadlet(*val)),
            MixerCmd::ReverbSend(ch, val) => append_coefficient(raw, MIXER_LEVEL, 0x01, 0x00, *ch, Coefficient::Quadlet(*val)),
            MixerCmd::ReverbReturn(ch, val) => append_coefficient(raw, MIXER_LEVEL, 0x01, 0x01, *ch, Coefficient::Quadlet(*val)),
            MixerCmd::SourceMute(ch, src, val) => append_coefficient(raw, MIXER_LEVEL, source_level_of(*src), 0x00, *ch, Coefficient::Byte(bool_to_u8(*val))),
            MixerCmd::SourceSolo(ch, src, val) => append_coefficient(raw, MIXER_LEVEL, source_level_of(*src), 0x01, *ch, Coefficient::Byte(bool_to_u8(*val))),
            MixerCmd::SourceMonauralLrBalance(ch, src, val) => append_coefficient(raw, MIXER_LEVEL, source_level_of(*src), 0x02, *ch, Coefficient::Quadlet(*val)),
            MixerCmd::SourceGain(ch, src, val) => append_coefficient(raw, MIXER_LEVEL, source_level_of(*src), 0x03, *ch, Coefficient::Quadlet(*val)),
            MixerCmd::SourceStereoMode(ch, src, val) => append_coefficient(raw, MIXER_LEVEL, source_level_of(*src), 0x04, *ch, Coefficient::Byte(u8::from(*val))),
            MixerCmd::SourceStereoLrBalance(ch, src, val) => append_coefficient(raw, MIXER_LEVEL, source_level_of(*src), 0x05, *ch, Coefficient::Quadlet(*val)),
            MixerCmd::SourceStereoWidth(ch, src, val) => append_coefficient(raw, MIXER_LEVEL, source_level_of(*src), 0x06, *ch, Coefficient::Quadlet(*val)),
            MixerCmd::Reserved(identifier, vals) => append_data(raw, identifier.as_slice(), vals.as_slice()),
        }
    }

}

impl Clone for MixerCmd {
    fn clone(&self) -> (cmd: Self)
        ensures
            cmd@ == self@,
    {
        match self {
            MixerCmd::OutputAssign(ch, val) => MixerCmd::OutputAssign(*ch, *val),
            MixerCmd::OutputMute(ch, val) => MixerCmd::OutputMute(*ch, *val),
            MixerCmd::OutputVolume(ch, val) => MixerCmd::OutputVolume(*ch, *val),
            MixerCmd::ReverbSend(ch, val) => MixerCmd::ReverbSend(*ch, *val),
            MixerCmd::ReverbReturn(ch, val) => MixerCmd::ReverbReturn(*ch, *val),
            MixerCmd::SourceMute(ch, src, val) => MixerCmd::SourceMute(*ch, *src, *val),
            MixerCmd::SourceSolo(ch, src, val) => MixerCmd::SourceSolo(*ch, *src, *val),
            MixerCmd::SourceMonauralLrBalance(ch, src, val) => MixerCmd::SourceMonauralLrBalance(*ch, *src, *val),
            MixerCmd::SourceGain(ch, src, val) => MixerCmd::SourceGain(*ch, *src, *val),
            MixerCmd::SourceStereoMode(ch, src, val) => MixerCmd::SourceStereoMode(*ch, *src, *val),
            MixerCmd::SourceStereoLrBalance(ch, src, val) => MixerCmd::SourceStereoLrBalance(*ch, *src, *val),
            MixerCmd::SourceStereoWidth(ch, src, val) => MixerCmd::SourceStereoWidth(*ch, *src, *val),
            MixerCmd::Reserved(identifier, vals) => MixerCmd::Reserved(bytes_to_vec(identifier.as_slice()), bytes_to_vec(vals.as_slice())),
        }
    }
}

impl PartialEq for MixerCmd {
    fn eq(&self, other: &Self) -> (same: bool) {
        match (self, other) {
            (MixerCmd::OutputAssign(ch_a, val_a), MixerCmd::OutputAssign(ch_b, val_b)) => *ch_a == *ch_b && *val_a == *val_b,
            (MixerCmd::OutputMute(ch_a, val_a), MixerCmd::OutputMute(ch_b, val_b)) => *ch_a == *ch_b && *val_a == *val_b,
            (MixerCmd::OutputVolume(ch_a, val_a), MixerCmd::OutputVolume(ch_b, val_b)) => *ch_a == *ch_b && *val_a == *val_b,
            (MixerCmd::ReverbSend(ch_a, val_a), MixerCmd::ReverbSend(ch_b, val_b)) => *ch_a == *ch_b && *val_a == *val_b,
            (MixerCmd::ReverbReturn(ch_a, val_a), MixerCmd::ReverbReturn(ch_b, val_b)) => *ch_a == *ch_b && *val_a == *val_b,
            (MixerCmd::SourceMute(ch_a, src_a, val_a), MixerCmd::SourceMute(ch_b, src_b, val_b)) => *ch_a == *ch_b && *src_a == *src_b && *val_a == *val_b,
            (MixerCmd::SourceSolo(ch_a, src_a, val_a), MixerCmd::SourceSolo(ch_b, src_b, val_b)) => *ch_a == *ch_b && *src_a == *src_b && *val_a == *val_b,
            (MixerCmd::SourceMonauralLrBalance(ch_a, src_a, val_a), MixerCmd::SourceMonauralLrBalance(ch_b, src_b, val_b)) => *ch_a == *ch_b && *src_a == *src_b && *val_a == *val_b,
            (MixerCmd::SourceGain(ch_a, src_a, val_a), MixerCmd::SourceGain(ch_b, src_b, val_b)) => *ch_a == *ch_b && *src_a == *src_b && *val_a == *val_b,
            (MixerCmd::SourceStereoMode(ch_a, src_a, val_a), MixerCmd::SourceStereoMode(ch_b, src_b, val_b)) => *ch_a == *ch_b && *src_a == *src_b && *val_a == *val_b,
            (MixerCmd::SourceStereoLrBalance(ch_a, src_a, val_a), MixerCmd::SourceStereoLrBalance(ch_b, src_b, val_b)) => *ch_a == *ch_b && *src_a == *src_b && *val_a == *val_b,
            (MixerCmd::SourceStereoWidth(ch_a, src_a, val_a), MixerCmd::SourceStereoWidth(ch_b, src_b, val_b)) => *ch_a == *ch_b && *src_a == *src_b && *val_a == *val_b,
            (MixerCmd::Reserved(identifier_a, vals_a), MixerCmd::Reserved(identifier_b, vals_b)) => {
                same_bytes(identifier_a.as_slice(), identifier_b.as_slice()) && same_bytes(vals_a.as_slice(), vals_b.as_slice())
            },
            _ => false,
        }
    }
}

impl PartialEqSpecImpl for MixerCmd {
    open spec fn obeys_eq_spec() -> bool {
        true
    }

    open spec fn eq_spec(&self, other: &Self) -> bool {
        self@ == other@
    }
}

impl MixerCmd {
    /// The identifier in the record of a command of a documented parameter.
    pub open spec fn spec_identifier(self) -> Seq<u8> {
        seq![
            channel_byte(self.spec_channel()),
            self.spec_levels().1,
            self.spec_levels().0,
            MIXER_LEVEL,
        ]
    }

    proof fn lemma_typed_record(self)
        requires
            !(self is Reserved),
            Self::spec_parse(self.spec_identifier(), self.spec_coefficient().bytes()) == self@,
        ensures
            is_single_record(self.spec_build()),
            single_identifier(self.spec_build()).len() == 4,
            single_identifier(self.spec_build())[3] == MIXER_LEVEL,
            Self::spec_parse(
                single_identifier(self.spec_build()),
                single_vals(self.spec_build()),
            ) == self@,
    {
        lemma_coefficient_record(
            MIXER_LEVEL,
            self.spec_levels().0,
            self.spec_levels().1,
            self.spec_channel(),
            self.spec_coefficient(),
        );
    }

    proof fn lemma_typed_parse_first(self)
        requires
            self is OutputAssign || self is OutputMute || self is OutputVolume || self is ReverbSend,
            self.is_canonical(),
        ensures
            Self::spec_parse(self.spec_identifier(), self.spec_coefficient().bytes()) == self@,
    {
        let identifier = self.spec_identifier();
        let vals = self.spec_coefficient().bytes();
        match self {
            MixerCmd::OutputAssign(ch, val) => {
                lemma_byte_coefficient(channel_byte(val));
                assert(identifier[3] == MIXER_LEVEL && identifier[2] == 0x00 && identifier[1] == 0x00);
                assert(identifier[0] as usize == ch);
                assert(Self::spec_parse(identifier, vals) == CmdView::Typed(self));
            },
            MixerCmd::OutputMute(ch, val) => {
                lemma_flag_coefficient(val);
                assert(identifier[3] == MIXER_LEVEL && identifier[2] == 0x00 && identifier[1] == 0x01);
                assert(identifier[0] as usize == ch);
                assert(Self::spec_parse(identifier, vals) == CmdView::Typed(self));
            },
            MixerCmd::OutputVolume(ch, val) => {
                lemma_number_coefficient(val);
                assert(identifier[3] == MIXER_LEVEL && identifier[2] == 0x00 && identifier[1] == 0x02);
                assert(identifier[0] as usize == ch);
                assert(Self::spec_parse(identifier, vals) == CmdView::Typed(self));
            },
            MixerCmd::ReverbSend(ch, val) => {
                lemma_number_coefficient(val);
                assert(identifier[3] == MIXER_LEVEL && identifier[2] == 0x01 && identifier[1] == 0x00);
                assert(identifier[0] as usize == ch);
                assert(Self::spec_parse(identifier, vals) == CmdView::Typed(self));
            },
            _ => {
            },
        }
    }

    proof fn lemma_typed_parse_second(self)
        requires
            self is ReverbReturn || self is SourceMute || self is SourceSolo || self is SourceMonauralLrBalance,
            self.is_canonical(),
        ensures
            Self::spec_parse(self.spec_identifier(), self.spec_coefficient().bytes()) == self@,
    {
        let identifier = self.spec_identifier();
        let vals = self.spec_coefficient().bytes();
        match self {
            MixerCmd::ReverbReturn(ch, val) => {
                lemma_number_coefficient(val);
                assert(identifier[3] == MIXER_LEVEL && identifier[2] == 0x01 && identifier[1] == 0x01);
                assert(identifier[0] as usize == ch);
                assert(Self::spec_parse(identifier, vals) == CmdView::Typed(self));
            },
            MixerCmd::SourceMute(ch, src, val) => {
                lemma_flag_coefficient(val);
                assert(identifier[3] == MIXER_LEVEL && identifier[2] == source_level(src) && identifier[1] == 0x00);
                assert(identifier[0] as usize == ch);
                assert(identifier[2] >= 2 && (identifier[2] - 2) as usize == src);
                assert(Self::spec_parse(identifier, vals) == CmdView::Typed(self));
            },
            MixerCmd::SourceSolo(ch, src, val) => {
                lemma_flag_coefficient(val);
                assert(identifier[3] == MIXER_LEVEL && identifier[2] == source_level(src) && identifier[1] == 0x01);
                assert(identifier[0] as usize == ch);
                assert(identifier[2] >= 2 && (identifier[2] - 2) as usize == src);
                assert(Self::spec_parse(identifier, vals) == CmdView::Typed(self));
            },
            MixerCmd::SourceMonauralLrBalance(ch, src, val) => {
                lemma_number_coefficient(val);
                assert(identifier[3] == MIXER_LEVEL && identifier[2] == source_level(src) && identifier[1] == 0x02);
                assert(identifier[0] as usize == ch);
                assert(identifier[2] >= 2 && (identifier[2] - 2) as usize == src);
                assert(Self::spec_parse(identifier, vals) == CmdView::Typed(self));
            },
            _ => {
            },
        }
    }

    proof fn lemma_typed_parse_third(self)
        requires
            self is SourceGain || self is SourceStereoMode || self is SourceStereoLrBalance || self is SourceStereoWidth,
            self.is_canonical(),
        ensures
            Self::spec_parse(self.spec_identifier(), self.spec_coefficient().bytes()) == self@,
    {
        let identifier = self.spec_identifier();
        let vals = self.spec_coefficient().bytes();
        match self {
            MixerCmd::SourceGain(ch, src, val) => {
                lemma_number_coefficient(val);
                assert(identifier[3] == MIXER_LEVEL && identifier[2] == source_level(src) && identifier[1] == 0x03);
                assert(identifier[0] as usize == ch);
                assert(identifier[2] >= 2 && (identifier[2] - 2) as usize == src);
                assert(Self::spec_parse(identifier, vals) == CmdView::Typed(self));
            },
            MixerCmd::SourceStereoMode(ch, src, val) => {
                lemma_byte_coefficient(val.byte());
                assert(identifier[3] == MIXER_LEVEL && identifier[2] == source_level(src) && identifier[1] == 0x04);
                assert(identifier[0] as usize == ch);
                assert(identifier[2] >= 2 && (identifier[2] - 2) as usize == src);
                assert(Self::spec_parse(identifier, vals) == CmdView::Typed(self));
            },
            MixerCmd::SourceStereoLrBalance(ch, src, val) => {
                lemma_number_coefficient(val);
                assert(identifier[3] == MIXER_LEVEL && identifier[2] == source_level(src) && identifier[1] == 0x05);
                assert(identifier[0] as usize == ch);
                assert(identifier[2] >= 2 && (identifier[2] - 2) as usize == src);
                assert(Self::spec_parse(identifier, vals) == CmdView::Typed(self));
            },
            MixerCmd::SourceStereoWidth(ch, src, val) => {
                lemma_number_coefficient(val);
                assert(identifier[3] == MIXER_LEVEL && identifier[2] == source_level(src) && identifier[1] == 0x06);
                assert(identifier[0] as usize == ch);
                assert(identifier[2] >= 2 && (identifier[2] - 2) as usize == src);
                assert(Self::spec_parse(identifier, vals) == CmdView::Typed(self));
            },
            _ => {
            },
        }
    }

    proof fn lemma_typed_parse(self)
        requires
            !(self is Reserved),
            self.is_canonical(),
        ensures
            Self::spec_parse(self.spec_identifier(), self.spec_coefficient().bytes()) == self@,
    {
        if self is OutputAssign || self is OutputMute || self is OutputVolume || self is ReverbSend {
            self.lemma_typed_parse_first();
        } else if self is ReverbReturn || self is SourceMute || self is SourceSolo || self is SourceMonauralLrBalance {
            self.lemma_typed_parse_second();
        } else {
            self.lemma_typed_parse_third();
        }
    }

    /// The record of a canonical command is a record of one coefficient under
    /// the section's first level, and its identifier and coefficient stand for
    /// the command again.
    pub proof fn lemma_round_trip(self)
        requires
            self.is_canonical(),
        ensures
            is_single_record(self.spec_build()),
            single_identifier(self.spec_build()).len() == 4,
            single_identifier(self.spec_build())[3] == MIXER_LEVEL,
            Self::spec_parse(
                single_identifier(self.spec_build()),
                single_vals(self.spec_build()),
            ) == self@,
    {
        match self {
            MixerCmd::Reserved(identifier, vals) => {
                lemma_data_record(identifier@, vals@);
            },
            _ => {
                self.lemma_typed_parse();
                self.lemma_typed_record();
            },
        }
    }
}
} // verus!
