//! Commands of the outputs.

use vstd::prelude::*;
use vstd::std_specs::cmp::PartialEqSpecImpl;
use crate::float32::Float32;
use super::codec::{
    append_coefficient, append_data, bool_to_u8, bytes_to_vec, channel_byte, coefficient_record,
    data_record, flag_byte, is_single_record, lemma_coefficient_record, lemma_data_record,
    same_bytes, single_identifier, single_vals, spec_to_bool, spec_to_f32, to_bool, to_f32,
    CmdView, Coefficient,
};
use super::effects::{lemma_flag_coefficient, lemma_number_coefficient};
use super::effects::{DynamicsParameter, EqualizerParameter};

verus! {

/// First level of the identifiers of the section's commands.
pub const OUTPUT_LEVEL: u8 = 0x03;

/// The DSP command specific to output.
#[derive(Debug)]
pub enum OutputCmd {
    ReverbSend(usize, Float32),
    ReverbReturn(usize, Float32),
    MasterMonitor(usize, bool),
    MasterTalkback(usize, bool),
    MasterListenback(usize, bool),
    Equalizer(usize, EqualizerParameter),
    Dynamics(usize, DynamicsParameter),
    Reserved(Vec<u8>, Vec<u8>),
}

impl View for OutputCmd {
    type V = CmdView<OutputCmd>;

    open spec fn view(&self) -> CmdView<OutputCmd> {
        match *self {
            OutputCmd::Reserved(identifier, vals) => CmdView::Reserved(identifier@, vals@),
            cmd => CmdView::Typed(cmd),
        }
    }
}

impl OutputCmd {
    /// The command that an identifier of four bytes and a coefficient of one
    /// or four bytes stand for. Where the identifier names no documented
    /// parameter of the section, or the coefficient has not the width that
    /// belongs to the parameter, both are kept as they are.
    pub open spec fn spec_parse(identifier: Seq<u8>, vals: Seq<u8>) -> CmdView<OutputCmd> {
        let ch = identifier[0] as usize;
        let second_level = identifier[2];
        let third_level = identifier[1];
        let byte = vals.len() == 1;
        let quadlet = vals.len() == 4;
        if identifier[3] != OUTPUT_LEVEL {
            CmdView::Reserved(identifier, vals)
        } else if 0 <= second_level < 8 {
            match EqualizerParameter::spec_parse((second_level - 0) as u8, third_level, vals) {
                Some(param) => CmdView::Typed(OutputCmd::Equalizer(ch, param)),
                None => CmdView::Reserved(identifier, vals),
            }
        } else if 8 <= second_level < 11 {
            match DynamicsParameter::spec_parse((second_level - 8) as u8, third_level, vals) {
                Some(param) => CmdView::Typed(OutputCmd::Dynamics(ch, param)),
                None => CmdView::Reserved(identifier, vals),
            }
        } else if second_level == 0x0b && third_level == 0x00 && quadlet {
            CmdView::Typed(OutputCmd::ReverbSend(ch, spec_to_f32(vals)))
        } else if second_level == 0x0b && third_level == 0x01 && quadlet {
            CmdView::Typed(OutputCmd::ReverbReturn(ch, spec_to_f32(vals)))
        } else if second_level == 0x0c && third_level == 0x00 && byte {
            CmdView::Typed(OutputCmd::MasterMonitor(ch, spec_to_bool(vals)))
        } else if second_level == 0x0c && third_level == 0x01 && byte {
            CmdView::Typed(OutputCmd::MasterTalkback(ch, spec_to_bool(vals)))
        } else if second_level == 0x0c && third_level == 0x02 && byte {
            CmdView::Typed(OutputCmd::MasterListenback(ch, spec_to_bool(vals)))
        } else {
            CmdView::Reserved(identifier, vals)
        }
    }

    /// Second and third level of the identifier in the command's record.
    pub open spec fn spec_levels(self) -> (u8, u8) {
        match self {
            OutputCmd::ReverbSend(_, _) => (0x0b, 0x00),
            OutputCmd::ReverbReturn(_, _) => (0x0b, 0x01),
            OutputCmd::MasterMonitor(_, _) => (0x0c, 0x00),
            OutputCmd::MasterTalkback(_, _) => (0x0c, 0x01),
            OutputCmd::MasterListenback(_, _) => (0x0c, 0x02),
            OutputCmd::Equalizer(_, param) => ((0 + param.spec_position().0) as u8, param.spec_position().1),
            OutputCmd::Dynamics(_, param) => ((8 + param.spec_position().0) as u8, param.spec_position().1),
            OutputCmd::Reserved(identifier, _) => (identifier@[2], identifier@[1]),
        }
    }

    /// Channel of the identifier in the command's record.
    pub open spec fn spec_channel(self) -> usize {
        match self {
            OutputCmd::ReverbSend(ch, _) => ch,
            OutputCmd::ReverbReturn(ch, _) => ch,
            OutputCmd::MasterMonitor(ch, _) => ch,
            OutputCmd::MasterTalkback(ch, _) => ch,
            OutputCmd::MasterListenback(ch, _) => ch,
            OutputCmd::Equalizer(ch, _) => ch,
            OutputCmd::Dynamics(ch, _) => ch,
            OutputCmd::Reserved(identifier, _) => identifier@[0] as usize,
        }
    }

    /// The coefficient of a command of a documented parameter.
    pub open spec fn spec_coefficient(self) -> Coefficient {
        match self {
            OutputCmd::ReverbSend(_, val) => Coefficient::Quadlet(val),
            OutputCmd::ReverbReturn(_, val) => Coefficient::Quadlet(val),
            OutputCmd::MasterMonitor(_, val) => Coefficient::Byte(flag_byte(val)),
            OutputCmd::MasterTalkback(_, val) => Coefficient::Byte(flag_byte(val)),
            OutputCmd::MasterListenback(_, val) => Coefficient::Byte(flag_byte(val)),
            OutputCmd::Equalizer(_, param) => param.spec_coefficient(),
            OutputCmd::Dynamics(_, param) => param.spec_coefficient(),
            OutputCmd::Reserved(_, _) => Coefficient::Byte(0),
        }
    }

    /// The record that carries the command.
    pub open spec fn spec_build(self) -> Seq<u8> {
        match self {
            OutputCmd::Reserved(identifier, vals) => data_record(identifier@, vals@),
            _ => coefficient_record(
                OUTPUT_LEVEL,
                self.spec_levels().0,
                self.spec_levels().1,
                self.spec_channel(),
                self.spec_coefficient(),
            ),
        }
    }

    /// Holds of the commands that a record carries without loss: channels
    /// below 256, integers that are numbers of the wire format, and as
    /// `Reserved` only what names no documented parameter of the section.
    pub open spec fn is_canonical(self) -> bool {
        match self {
            OutputCmd::ReverbSend(ch, val) => ch < 0x100,
            OutputCmd::ReverbReturn(ch, val) => ch < 0x100,
            OutputCmd::MasterMonitor(ch, val) => ch < 0x100,
            OutputCmd::MasterTalkback(ch, val) => ch < 0x100,
            OutputCmd::MasterListenback(ch, val) => ch < 0x100,
            OutputCmd::Equalizer(ch, param) => ch < 0x100 && param.is_canonical(),
            OutputCmd::Dynamics(ch, param) => ch < 0x100 && param.is_canonical(),
            OutputCmd::Reserved(identifier, vals) => {
                &&& identifier@.len() == 4
                &&& (vals@.len() == 1 || vals@.len() == 4)
                &&& identifier@[3] == OUTPUT_LEVEL
                &&& Self::spec_parse(identifier@, vals@) == CmdView::<OutputCmd>::Reserved(
                    identifier@,
                    vals@,
                )
            },
        }
    }

    pub fn parse(identifier: &[u8], vals: &[u8]) -> (cmd: Self)
        requires
            identifier@.len() == 4,
            vals@.len() == 1 || vals@.len() == 4,
        ensures
            cmd@ == Self::spec_parse(identifier@, vals@),
    {
        let ch = identifier[0] as usize;
        let second_level = identifier[2];
        let third_level = identifier[1];
        let byte = vals.len() == 1;
        let quadlet = vals.len() == 4;
        if identifier[3] != OUTPUT_LEVEL {
            return OutputCmd::Reserved(bytes_to_vec(identifier), bytes_to_vec(vals));
        }
        if 0 <= second_level && second_level < 8 {
            return match EqualizerParameter::parse(second_level - 0, third_level, vals) {
                Some(param) => OutputCmd::Equalizer(ch, param),
                None => OutputCmd::Reserved(bytes_to_vec(identifier), bytes_to_vec(vals)),
            };
        }
        if 8 <= second_level && second_level < 11 {
            return match DynamicsParameter::parse(second_level - 8, third_level, vals) {
                Some(param) => OutputCmd::Dynamics(ch, param),
                None => OutputCmd::Reserved(bytes_to_vec(identifier), bytes_to_vec(vals)),
            };
        }
        if second_level == 0x0b && third_level == 0x00 && quadlet {
            OutputCmd::ReverbSend(ch, to_f32(vals))
        } else if second_level == 0x0b && third_level == 0x01 && quadlet {
            OutputCmd::ReverbReturn(ch, to_f32(vals))
        } else if second_level == 0x0c && third_level == 0x00 && byte {
            OutputCmd::MasterMonitor(ch, to_bool(vals))
        } else if second_level == 0x0c && third_level == 0x01 && byte {
            OutputCmd::MasterTalkback(ch, to_bool(vals))
        } else if second_level == 0x0c && third_level == 0x02 && byte {
            OutputCmd::MasterListenback(ch, to_bool(vals))
        } else {
            OutputCmd::Reserved(bytes_to_vec(identifier), bytes_to_vec(vals))
        }
    }

    pub fn build(&self, raw: &mut Vec<u8>)
        ensures
            final(raw)@ == old(raw)@ + self.spec_build(),
    {
        match self {
            OutputCmd::ReverbSend(ch, val) => append_coefficient(raw, OUTPUT_LEVEL, 0x0b, 0x00, *ch, Coefficient::Quadlet(*val)),
            OutputCmd::ReverbReturn(ch, val) => append_coefficient(raw, OUTPUT_LEVEL, 0x0b, 0x01, *ch, Coefficient::Quadlet(*val)),
            OutputCmd::MasterMonitor(ch, val) => append_coefficient(raw, OUTPUT_LEVEL, 0x0c, 0x00, *ch, Coefficient::Byte(bool_to_u8(*val))),
            OutputCmd::MasterTalkback(ch, val) => append_coefficient(raw, OUTPUT_LEVEL, 0x0c, 0x01, *ch, Coefficient::Byte(bool_to_u8(*val))),
            OutputCmd::MasterListenback(ch, val) => append_coefficient(raw, OUTPUT_LEVEL, 0x0c, 0x02, *ch, Coefficient::Byte(bool_to_u8(*val))),
            OutputCmd::Equalizer(ch, param) => {
                let place = param.position();
                append_coefficient(raw, OUTPUT_LEVEL, 0 + place.0, place.1, *ch, param.coefficient())
            },
            OutputCmd::Dynamics(ch, param) => {
                let place = param.position();
                append_coefficient(raw, OUTPUT_LEVEL, 8 + place.0, place.1, *ch, param.coefficient())
            },
            OutputCmd::Reserved(identifier, vals) => append_data(raw, identifier.as_slice(), vals.as_slice()),
        }
    }

}

impl Clone for OutputCmd {
    fn clone(&self) -> (cmd: Self)
        ensures
            cmd@ == self@,
    {
        match self {
            OutputCmd::ReverbSend(ch, val) => OutputCmd::ReverbSend(*ch, *val),
            OutputCmd::ReverbReturn(ch, val) => OutputCmd::ReverbReturn(*ch, *val),
            OutputCmd::MasterMonitor(ch, val) => OutputCmd::MasterMonitor(*ch, *val),
            OutputCmd::MasterTalkback(ch, val) => OutputCmd::MasterTalkback(*ch, *val),
            OutputCmd::MasterListenback(ch, val) => OutputCmd::MasterListenback(*ch, *val),
            OutputCmd::Equalizer(ch, param) => OutputCmd::Equalizer(*ch, *param),
            OutputCmd::Dynamics(ch, param) => OutputCmd::Dynamics(*ch, *param),
            OutputCmd::Reserved(identifier, vals) => OutputCmd::Reserved(bytes_to_vec(identifier.as_slice()), bytes_to_vec(vals.as_slice())),
        }
    }
}

impl PartialEq for OutputCmd {
    fn eq(&self, other: &Self) -> (same: bool) {
        match (self, other) {
            (OutputCmd::ReverbSend(ch_a, val_a), OutputCmd::ReverbSend(ch_b, val_b)) => *ch_a == *ch_b && *val_a == *val_b,
            (OutputCmd::ReverbReturn(ch_a, val_a), OutputCmd::ReverbReturn(ch_b, val_b)) => *ch_a == *ch_b && *val_a == *val_b,
            (OutputCmd::MasterMonitor(ch_a, val_a), OutputCmd::MasterMonitor(ch_b, val_b)) => *ch_a == *ch_b && *val_a == *val_b,
            (OutputCmd::MasterTalkback(ch_a, val_a), OutputCmd::MasterTalkback(ch_b, val_b)) => *ch_a == *ch_b && *val_a == *val_b,
            (OutputCmd::MasterListenback(ch_a, val_a), OutputCmd::MasterListenback(ch_b, val_b)) => *ch_a == *ch_b && *val_a == *val_b,
            (OutputCmd::Equalizer(ch_a, param_a), OutputCmd::Equalizer(ch_b, param_b)) => *ch_a == *ch_b && *param_a == *param_b,
            (OutputCmd::Dynamics(ch_a, param_a), OutputCmd::Dynamics(ch_b, param_b)) => *ch_a == *ch_b && *param_a == *param_b,
            (OutputCmd::Reserved(identifier_a, vals_a), OutputCmd::Reserved(identifier_b, vals_b)) => {
                same_bytes(identifier_a.as_slice(), identifier_b.as_slice()) && same_bytes(vals_a.as_slice(), vals_b.as_slice())
            },
            _ => false,
        }
    }
}

impl PartialEqSpecImpl for OutputCmd {
    open spec fn obeys_eq_spec() -> bool {
        true
    }

    open spec fn eq_spec(&self, other: &Self) -> bool {
        self@ == other@
    }
}

impl OutputCmd {
    /// The identifier in the record of a command of a documented parameter.
    pub open spec fn spec_identifier(self) -> Seq<u8> {
        seq![
            channel_byte(self.spec_channel()),
            self.spec_levels().1,
            self.spec_levels().0,
            OUTPUT_LEVEL,
        ]
    }

    proof fn lemma_typed_record(self)
        requires
            !(self is Reserved),
            Self::spec_parse(self.spec_identifier(), self.spec_coefficient().bytes()) == self@,
        ensures
            is_single_record(self.spec_build()),
            single_identifier(self.spec_build()).len() == 4,
            single_identifier(self.spec_build())[3] == OUTPUT_LEVEL,
            Self::spec_parse(
                single_identifier(self.spec_build()),
                single_vals(self.spec_build()),
            ) == self@,
    {
        lemma_coefficient_record(
            OUTPUT_LEVEL,
            self.spec_levels().0,
            self.spec_levels().1,
            self.spec_channel(),
            self.spec_coefficient(),
        );
    }

    proof fn lemma_typed_parse_first(self)
        requires
            self is Equalizer || self is Dynamics || self is ReverbSend || self is ReverbReturn,
            self.is_canonical(),
        ensures
            Self::spec_parse(self.spec_identifier(), self.spec_coefficient().bytes()) == self@,
    {
        let identifier = self.spec_identifier();
        let vals = self.spec_coefficient().bytes();
        match self {
            OutputCmd::Equalizer(ch, param) => {
                param.lemma_round_trip();
                let place = param.spec_position();
                assert(identifier[0] as usize == ch);
                assert((identifier[2] - 0) as u8 == place.0);
                assert(EqualizerParameter::spec_parse((identifier[2] - 0) as u8, identifier[1], vals) == Some(param));
                assert(Self::spec_parse(identifier, vals) == CmdView::Typed(self));
            },
            OutputCmd::Dynamics(ch, param) => {
                param.lemma_round_trip();
                let place = param.spec_position();
                assert(identifier[0] as usize == ch);
                assert((identifier[2] - 8) as u8 == place.0);
                assert(DynamicsParameter::spec_parse((identifier[2] - 8) as u8, identifier[1], vals) == Some(param));
                assert(Self::spec_parse(identifier, vals) == CmdView::Typed(self));
            },
            OutputCmd::ReverbSend(ch, val) => {
                lemma_number_coefficient(val);
                assert(identifier[3] == OUTPUT_LEVEL && identifier[2] == 0x0b && identifier[1] == 0x00);
                assert(identifier[0] as usize == ch);
                assert(Self::spec_parse(identifier, vals) == CmdView::Typed(self));
            },
            OutputCmd::ReverbReturn(ch, val) => {
                lemma_number_coefficient(val);
                assert(identifier[3] == OUTPUT_LEVEL && identifier[2] == 0x0b && identifier[1] == 0x01);
                assert(identifier[0] as usize == ch);
                assert(Self::spec_parse(identifier, vals) == CmdView::Typed(self));
            },
            _ => {
            },
        }
    }

    proof fn lemma_typed_parse_second(self)
        requires
            self is MasterMonitor || self is MasterTalkback || self is MasterListenback,
            self.is_canonical(),
        ensures
            Self::spec_parse(self.spec_identifier(), self.spec_coefficient().bytes()) == self@,
    {
        let identifier = self.spec_identifier();
        let vals = self.spec_coefficient().bytes();
        match self {
            OutputCmd::MasterMonitor(ch, val) => {
                lemma_flag_coefficient(val);
                assert(identifier[3] == OUTPUT_LEVEL && identifier[2] == 0x0c && identifier[1] == 0x00);
                assert(identifier[0] as usize == ch);
                assert(Self::spec_parse(identifier, vals) == CmdView::Typed(self));
            },
            OutputCmd::MasterTalkback(ch, val) => {
                lemma_flag_coefficient(val);
                assert(identifier[3] == OUTPUT_LEVEL && identifier[2] == 0x0c && identifier[1] == 0x01);
                assert(identifier[0] as usize == ch);
                assert(Self::spec_parse(identifier, vals) == CmdView::Typed(self));
            },
            OutputCmd::MasterListenback(ch, val) => {
                lemma_flag_coefficient(val);
                assert(identifier[3] == OUTPUT_LEVEL && identifier[2] == 0x0c && identifier[1] == 0x02);
                assert(identifier[0] as usize == ch);
                assert(Self::spec_parse(identifier, vals) == CmdView::Typed(self));
            },
            _ => {
            },
        }
    }

    proof fn lemma_typed_parse(self)
        requires
            !(self is Reserved),
            self.is_canonical(),
        ensures
            Self::spec_parse(self.spec_identifier(), self.spec_coefficient().bytes()) == self@,
    {
        if self is Equalizer || self is Dynamics || self is ReverbSend || self is ReverbReturn {
            self.lemma_typed_parse_first();
        } else {
            self.lemma_typed_parse_second();
        }
    }

    /// The record of a canonical command is a record of one coefficient under
    /// the section's first level, and its identifier and coefficient stand for
    /// the command again.
    pub proof fn lemma_round_trip(self)
        requires
            self.is_canonical(),
        ensures
            is_single_record(self.spec_build()),
            single_identifier(self.spec_build()).len() == 4,
            single_identifier(self.spec_build())[3] == OUTPUT_LEVEL,
            Self::spec_parse(
                single_identifier(self.spec_build()),
                single_vals(self.spec_build()),
            ) == self@,
    {
        match self {
            OutputCmd::Reserved(identifier, vals) => {
                lemma_data_record(identifier@, vals@);
            },
            _ => {
                self.lemma_typed_parse();
                self.lemma_typed_record();
            },
        }
    }
}
} // verus!
