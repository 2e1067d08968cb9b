//! Commands of the inputs.

use vstd::prelude::*;
use vstd::std_specs::cmp::PartialEqSpecImpl;
use crate::float32::Float32;
use super::codec::{
    append_coefficient, append_data, bool_to_u8, bytes_to_vec, channel_byte, coefficient_record,
    data_record, flag_byte, is_single_record, lemma_coefficient_record, lemma_data_record,
    same_bytes, single_identifier, single_vals, spec_to_bool, spec_to_f32, spec_to_i32, to_bool,
    to_f32, to_i32, CmdView, Coefficient,
};
use super::effects::{
    lemma_byte_coefficient, lemma_flag_coefficient, lemma_number_coefficient,
    lemma_signed_coefficient, EXACT_INTEGER_MAX,
};
use super::effects::{DynamicsParameter, EqualizerParameter};
use super::params::InputStereoPairMode;

verus! {

/// First level of the identifiers of the section's commands.
pub const INPUT_LEVEL: u8 = 0x01;

/// The DSP command specific to input.
#[derive(Debug)]
pub enum InputCmd {
    Phase(usize, bool),
    Pair(usize, bool),
    Gain(usize, i32),
    Swap(usize, bool),
    StereoMode(usize, InputStereoPairMode),
    Width(usize, Float32),
    ReverbSend(usize, Float32),
    ReverbLrBalance(usize, Float32),
    Pad(usize, bool),
    Phantom(usize, bool),
    Limitter(usize, bool),
    Lookahead(usize, bool),
    Softclip(usize, bool),
    Equalizer(usize, EqualizerParameter),
    Dynamics(usize, DynamicsParameter),
    Reserved(Vec<u8>, Vec<u8>),
}

impl View for InputCmd {
    type V = CmdView<InputCmd>;

    open spec fn view(&self) -> CmdView<InputCmd> {
        match *self {
            InputCmd::Reserved(identifier, vals) => CmdView::Reserved(identifier@, vals@),
            cmd => CmdView::Typed(cmd),
        }
    }
}

impl InputCmd {
    /// The command that an identifier of four bytes and a coefficient of one
    /// or four bytes stand for. Where the identifier names no documented
    /// parameter of the section, or the coefficient has not the width that
    /// belongs to the parameter, both are kept as they are.
    pub open spec fn spec_parse(identifier: Seq<u8>, vals: Seq<u8>) -> CmdView<InputCmd> {
        let ch = identifier[0] as usize;
        let second_level = identifier[2];
        let third_level = identifier[1];
        let byte = vals.len() == 1;
        let quadlet = vals.len() == 4;
        if identifier[3] != INPUT_LEVEL {
            CmdView::Reserved(identifier, vals)
        } else if 1 <= second_level < 9 {
            match EqualizerParameter::spec_parse((second_level - 1) as u8, third_level, vals) {
                Some(param) => CmdView::Typed(InputCmd::Equalizer(ch, param)),
                None => CmdView::Reserved(identifier, vals),
            }
        } else if 9 <= second_level < 12 {
            match DynamicsParameter::spec_parse((second_level - 9) as u8, third_level, vals) {
                Some(param) => CmdView::Typed(InputCmd::Dynamics(ch, param)),
                None => CmdView::Reserved(identifier, vals),
            }
        } else if second_level == 0x00 && third_level == 0x00 && byte {
            CmdView::Typed(InputCmd::Phase(ch, spec_to_bool(vals)))
        } else if second_level == 0x00 && third_level == 0x01 && byte {
            CmdView::Typed(InputCmd::Pair(ch, spec_to_bool(vals)))
        } else if second_level == 0x00 && third_level == 0x02 && quadlet {
            CmdView::Typed(InputCmd::Gain(ch, spec_to_i32(vals)))
        } else if second_level == 0x00 && third_level == 0x03 && byte {
            CmdView::Typed(InputCmd::Swap(ch, spec_to_bool(vals)))
        } else if second_level == 0x00 && third_level == 0x04 {
            CmdView::Typed(InputCmd::StereoMode(ch, InputStereoPairMode::of_byte(vals[0])))
        } else if second_level == 0x00 && third_level == 0x05 && quadlet {
            CmdView::Typed(InputCmd::Width(ch, spec_to_f32(vals)))
        } else if second_level == 0x0c && third_level == 0x00 && quadlet {
            CmdView::Typed(InputCmd::ReverbSend(ch, spec_to_f32(vals)))
        } else if second_level == 0x0c && third_level == 0x02 && quadlet {
            CmdView::Typed(InputCmd::ReverbLrBalance(ch, spec_to_f32(vals)))
        } else if second_level == 0x00 && third_level == 0x09 && byte {
            CmdView::Typed(InputCmd::Pad(ch, spec_to_bool(vals)))
        } else if second_level == 0x00 && third_level == 0x0b && byte {
            CmdView::Typed(InputCmd::Phantom(ch, spec_to_bool(vals)))
        } else if second_level == 0x00 && third_level == 0x06 && byte {
            CmdView::Typed(InputCmd::Limitter(ch, spec_to_bool(vals)))
        } else if second_level == 0x00 && third_level == 0x07 && byte {
            CmdView::Typed(InputCmd::Lookahead(ch, spec_to_bool(vals)))
        } else if second_level == 0x00 && third_level == 0x08 && byte {
            CmdView::Typed(InputCmd::Softclip(ch, spec_to_bool(vals)))
        } else {
            CmdView::Reserved(identifier, vals)
        }
    }

    /// Second and third level of the identifier in the command's record.
    pub open spec fn spec_levels(self) -> (u8, u8) {
        match self {
            InputCmd::Phase(_, _) => (0x00, 0x00),
            InputCmd::Pair(_, _) => (0x00, 0x01),
            InputCmd::Gain(_, _) => (0x00, 0x02),
            InputCmd::Swap(_, _) => (0x00, 0x03),
            InputCmd::StereoMode(_, _) => (0x00, 0x04),
            InputCmd::Width(_, _) => (0x00, 0x05),
            InputCmd::ReverbSend(_, _) => (0x0c, 0x00),
            InputCmd::ReverbLrBalance(_, _) => (0x0c, 0x02),
            InputCmd::Pad(_, _) => (0x00, 0x09),
            InputCmd::Phantom(_, _) => (0x00, 0x0b),
            InputCmd::Limitter(_, _) => (0x00, 0x06),
            InputCmd::Lookahead(_, _) => (0x00, 0x07),
            InputCmd::Softclip(_, _) => (0x00, 0x08),
            InputCmd::Equalizer(_, param) => ((1 + param.spec_position().0) as u8, param.spec_position().1),
            InputCmd::Dynamics(_, param) => ((9 + param.spec_position().0) as u8, param.spec_position().1),
            InputCmd::Reserved(identifier, _) => (identifier@[2], identifier@[1]),
        }
    }

    /// Channel of the identifier in the command's record.
    pub open spec fn spec_channel(self) -> usize {
        match self {
            InputCmd::Phase(ch, _) => ch,
            InputCmd::Pair(ch, _) => ch,
            InputCmd::Gain(ch, _) => ch,
            InputCmd::Swap(ch, _) => ch,
            InputCmd::StereoMode(ch, _) => ch,
            InputCmd::Width(ch, _) => ch,
            InputCmd::ReverbSend(ch, _) => ch,
            InputCmd::ReverbLrBalance(ch, _) => ch,
            InputCmd::Pad(ch, _) => ch,
            InputCmd::Phantom(ch, _) => ch,
            InputCmd::Limitter(ch, _) => ch,
            InputCmd::Lookahead(ch, _) => ch,
            InputCmd::Softclip(ch, _) => ch,
            InputCmd::Equalizer(ch, _) => ch,
            InputCmd::Dynamics(ch, _) => ch,
            InputCmd::Reserved(identifier, _) => identifier@[0] as usize,
        }
    }

    /// The coefficient of a command of a documented parameter.
    pub open spec fn spec_coefficient(self) -> Coefficient {
        match self {
            InputCmd::Phase(_, val) => Coefficient::Byte(flag_byte(val)),
            InputCmd::Pair(_, val) => Coefficient::Byte(flag_byte(val)),
            InputCmd::Gain(_, val) => Coefficient::Quadlet(Float32::spec_from_i32(val)),
            InputCmd::Swap(_, val) => Coefficient::Byte(flag_byte(val)),
            InputCmd::StereoMode(_, val) => Coefficient::Byte(val.byte()),
            InputCmd::Width(_, val) => Coefficient::Quadlet(val),
            InputCmd::ReverbSend(_, val) => Coefficient::Quadlet(val),
            InputCmd::ReverbLrBalance(_, val) => Coefficient::Quadlet(val),
            InputCmd::Pad(_, val) => Coefficient::Byte(flag_byte(val)),
            InputCmd::Phantom(_, val) => Coefficient::Byte(flag_byte(val)),
            InputCmd::Limitter(_, val) => Coefficient::Byte(flag_byte(val)),
            InputCmd::Lookahead(_, val) => Coefficient::Byte(flag_byte(val)),
            InputCmd::Softclip(_, val) => Coefficient::Byte(flag_byte(val)),
            InputCmd::Equalizer(_, param) => param.spec_coefficient(),
            InputCmd::Dynamics(_, param) => param.spec_coefficient(),
            InputCmd::Reserved(_, _) => Coefficient::Byte(0),
        }
    }

    /// The record that carries the command.
    pub open spec fn spec_build(self) -> Seq<u8> {
        match self {
            InputCmd::Reserved(identifier, vals) => data_record(identifier@, vals@),
            _ => coefficient_record(
                INPUT_LEVEL,
                self.spec_levels().0,
                self.spec_levels().1,
                self.spec_channel(),
                self.spec_coefficient(),
            ),
        }
    }

    /// Holds of the commands that a record carries without loss: channels
    /// below 256, integers that are numbers of the wire format, and as
    /// `Reserved` only what names no documented parameter of the section.
    pub open spec fn is_canonical(self) -> bool {
        match self {
            InputCmd::Phase(ch, val) => ch < 0x100,
            InputCmd::Pair(ch, val) => ch < 0x100,
            InputCmd::Gain(ch, val) => ch < 0x100 && -EXACT_INTEGER_MAX <= val <= EXACT_INTEGER_MAX,
            InputCmd::Swap(ch, val) => ch < 0x100,
            InputCmd::StereoMode(ch, val) => ch < 0x100 && val.is_canonical(),
            InputCmd::Width(ch, val) => ch < 0x100,
            InputCmd::ReverbSend(ch, val) => ch < 0x100,
            InputCmd::ReverbLrBalance(ch, val) => ch < 0x100,
            InputCmd::Pad(ch, val) => ch < 0x100,
            InputCmd::Phantom(ch, val) => ch < 0x100,
            InputCmd::Limitter(ch, val) => ch < 0x100,
            InputCmd::Lookahead(ch, val) => ch < 0x100,
            InputCmd::Softclip(ch, val) => ch < 0x100,
            InputCmd::Equalizer(ch, param) => ch < 0x100 && param.is_canonical(),
            InputCmd::Dynamics(ch, param) => ch < 0x100 && param.is_canonical(),
            InputCmd::Reserved(identifier, vals) => {
                &&& identifier@.len() == 4
                &&& (vals@.len() == 1 || vals@.len() == 4)
                &&& identifier@[3] == INPUT_LEVEL
                &&& Self::spec_parse(identifier@, vals@) == CmdView::<InputCmd>::Reserved(
                    identifier@,
                    vals@,
                )
            },
        }
    }

    pub fn parse(identifier: &[u8], vals: &[u8]) -> (cmd: Self)
        requires
            identifier@.len() == 4,
            vals@.len() == 1 || vals@.len() == 4,
        ensures
            cmd@ == Self::spec_parse(identifier@, vals@),
    {
        let ch = identifier[0] as usize;
        let second_level = identifier[2];
        let third_level = identifier[1];
        let byte = vals.len() == 1;
        let quadlet = vals.len() == 4;
        if identifier[3] != INPUT_LEVEL {
            return InputCmd::Reserved(bytes_to_vec(identifier), bytes_to_vec(vals));
        }
        if 1 <= second_level && second_level < 9 {
            return match EqualizerParameter::parse(second_level - 1, third_level, vals) {
                Some(param) => InputCmd::Equalizer(ch, param),
                None => InputCmd::Reserved(bytes_to_vec(identifier), bytes_to_vec(vals)),
            };
        }
        if 9 <= second_level && second_level < 12 {
            return match DynamicsParameter::parse(second_level - 9, third_level, vals) {
                Some(param) => InputCmd::Dynamics(ch, param),
                None => InputCmd::Reserved(bytes_to_vec(identifier), bytes_to_vec(vals)),
            };
        }
        if second_level == 0x00 && third_level == 0x00 && byte {
            InputCmd::Phase(ch, to_bool(vals))
        } else if second_level == 0x00 && third_level == 0x01 && byte {
            InputCmd::Pair(ch, to_bool(vals))
        } else if second_level == 0x00 && third_level == 0x02 && quadlet {
            InputCmd::Gain(ch, to_i32(vals))
        } else if second_level == 0x00 && third_level == 0x03 && byte {
            InputCmd::Swap(ch, to_bool(vals))
        } else if second_level == 0x00 && third_level == 0x04 {
            InputCmd::StereoMode(ch, InputStereoPairMode::from(vals[0]))
        } else if second_level == 0x00 && third_level == 0x05 && quadlet {
            InputCmd::Width(ch, to_f32(vals))
        } else if second_level == 0x0c && third_level == 0x00 && quadlet {
            InputCmd::ReverbSend(ch, to_f32(vals))
        } else if second_level == 0x0c && third_level == 0x02 && quadlet {
            InputCmd::ReverbLrBalance(ch, to_f32(vals))
        } else if second_level == 0x00 && third_level == 0x09 && byte {
            InputCmd::Pad(ch, to_bool(vals))
        } else if second_level == 0x00 && third_level == 0x0b && byte {
            InputCmd::Phantom(ch, to_bool(vals))
        } else if second_level == 0x00 && third_level == 0x06 && byte {
            InputCmd::Limitter(ch, to_bool(vals))
        } else if second_level == 0x00 && third_level == 0x07 && byte {
            InputCmd::Lookahead(ch, to_bool(vals))
        } else if second_level == 0x00 && third_level == 0x08 && byte {
            InputCmd::Softclip(ch, to_bool(vals))
        } else {
            InputCmd::Reserved(bytes_to_vec(identifier), bytes_to_vec(vals))
        }
    }

    pub fn build(&self, raw: &mut Vec<u8>)
        ensures
            final(raw)@ == old(raw)@ + self.spec_build(),
    {
        match self {
            InputCmd::Phase(ch, val) => append_coefficient(raw, INPUT_LEVEL, 0x00, 0x00, *ch, Coefficient::Byte(bool_to_u8(*val))),
            InputCmd::Pair(ch, val) => append_coefficient(raw, INPUT_LEVEL, 0x00, 0x01, *ch, Coefficient::Byte(bool_to_u8(*val))),
            InputCmd::Gain(ch, val) => append_coefficient(raw, INPUT_LEVEL, 0x00, 0x02, *ch, Coefficient::Quadlet(Float32::from_i32(*val))),
            InputCmd::Swap(ch, val) => append_coefficient(raw, INPUT_LEVEL, 0x00, 0x03, *ch, Coefficient::Byte(bool_to_u8(*val))),
            InputCmd::StereoMode(ch, val) => append_coefficient(raw, INPUT_LEVEL, 0x00, 0x04, *ch, Coefficient::Byte(u8::from(*val))),
            InputCmd::Width(ch, val) => append_coefficient(raw, INPUT_LEVEL, 0x00, 0x05, *ch, Coefficient::Quadlet(*val)),
            InputCmd::ReverbSend(ch, val) => append_coefficient(raw, INPUT_LEVEL, 0x0c, 0x00, *ch, Coefficient::Quadlet(*val)),
            InputCmd::ReverbLrBalance(ch, val) => append_coefficient(raw, INPUT_LEVEL, 0x0c, 0x02, *ch, Coefficient::Quadlet(*val)),
            InputCmd::Pad(ch, val) => append_coefficient(raw, INPUT_LEVEL, 0x00, 0x09, *ch, Coefficient::Byte(bool_to_u8(*val))),
            InputCmd::Phantom(ch, val) => append_coefficient(raw, INPUT_LEVEL, 0x00, 0x0b, *ch, Coefficient::Byte(bool_to_u8(*val))),
            InputCmd::Limitter(ch, val) => append_coefficient(raw, INPUT_LEVEL, 0x00, 0x06, *ch, Coefficient::Byte(bool_to_u8(*val))),
            InputCmd::Lookahead(ch, val) => append_coefficient(raw, INPUT_LEVEL, 0x00, 0x07, *ch, Coefficient::Byte(bool_to_u8(*val))),
            InputCmd::Softclip(ch, val) => append_coefficient(raw, INPUT_LEVEL, 0x00, 0x08, *ch, Coefficient::Byte(bool_to_u8(*val))),
            InputCmd::Equalizer(ch, param) => {
                let place = param.position();
                append_coefficient(raw, INPUT_LEVEL, 1 + place.0, place.1, *ch, param.coefficient())
            },
            InputCmd::Dynamics(ch, param) => {
                let place = param.position();
                append_coefficient(raw, INPUT_LEVEL, 9 + place.0, place.1, *ch, param.coefficient())
            },
            InputCmd::Reserved(identifier, vals) => append_data(raw, identifier.as_slice(), vals.as_slice()),
        }
    }

}

impl Clone for InputCmd {
    fn clone(&self) -> (cmd: Self)
        ensures
            cmd@ == self@,
    {
        match self {
            InputCmd::Phase(ch, val) => InputCmd::Phase(*ch, *val),
            InputCmd::Pair(ch, val) => InputCmd::Pair(*ch, *val),
            InputCmd::Gain(ch, val) => InputCmd::Gain(*ch, *val),
            InputCmd::Swap(ch, val) => InputCmd::Swap(*ch, *val),
            InputCmd::StereoMode(ch, val) => InputCmd::StereoMode(*ch, *val),
            InputCmd::Width(ch, val) => InputCmd::Width(*ch, *val),
            InputCmd::ReverbSend(ch, val) => InputCmd::ReverbSend(*ch, *val),
            InputCmd::ReverbLrBalance(ch, val) => InputCmd::ReverbLrBalance(*ch, *val),
            InputCmd::Pad(ch, val) => InputCmd::Pad(*ch, *val),
            InputCmd::Phantom(ch, val) => InputCmd::Phantom(*ch, *val),
            InputCmd::Limitter(ch, val) => InputCmd::Limitter(*ch, *val),
            InputCmd::Lookahead(ch, val) => InputCmd::Lookahead(*ch, *val),
            InputCmd::Softclip(ch, val) => InputCmd::Softclip(*ch, *val),
            InputCmd::Equalizer(ch, param) => InputCmd::Equalizer(*ch, *param),
            InputCmd::Dynamics(ch, param) => InputCmd::Dynamics(*ch, *param),
            InputCmd::Reserved(identifier, vals) => InputCmd::Reserved(bytes_to_vec(identifier.as_slice()), bytes_to_vec(vals.as_slice())),
        }
    }
}

impl PartialEq for InputCmd {
    fn eq(&self, other: &Self) -> (same: bool) {
        match (self, other) {
            (InputCmd::Phase(ch_a, val_a), InputCmd::Phase(ch_b, val_b)) => *ch_a == *ch_b && *val_a == *val_b,
            (InputCmd::Pair(ch_a, val_a), InputCmd::Pair(ch_b, val_b)) => *ch_a == *ch_b && *val_a == *val_b,
            (InputCmd::Gain(ch_a, val_a), InputCmd::Gain(ch_b, val_b)) => *ch_a == *ch_b && *val_a == *val_b,
            (InputCmd::Swap(ch_a, val_a), InputCmd::Swap(ch_b, val_b)) => *ch_a == *ch_b && *val_a == *val_b,
            (InputCmd::StereoMode(ch_a, val_a), InputCmd::StereoMode(ch_b, val_b)) => *ch_a == *ch_b && *val_a == *val_b,
            (InputCmd::Width(ch_a, val_a), InputCmd::Width(ch_b, val_b)) => *ch_a == *ch_b && *val_a == *val_b,
            (InputCmd::ReverbSend(ch_a, val_a), InputCmd::ReverbSend(ch_b, val_b)) => *ch_a == *ch_b && *val_a == *val_b,
            (InputCmd::ReverbLrBalance(ch_a, val_a), InputCmd::ReverbLrBalance(ch_b, val_b)) => *ch_a == *ch_b && *val_a == *val_b,
            (InputCmd::Pad(ch_a, val_a), InputCmd::Pad(ch_b, val_b)) => *ch_a == *ch_b && *val_a == *val_b,
            (InputCmd::Phantom(ch_a, val_a), InputCmd::Phantom(ch_b, val_b)) => *ch_a == *ch_b && *val_a == *val_b,
            (InputCmd::Limitter(ch_a, val_a), InputCmd::Limitter(ch_b, val_b)) => *ch_a == *ch_b && *val_a == *val_b,
            (InputCmd::Lookahead(ch_a, val_a), InputCmd::Lookahead(ch_b, val_b)) => *ch_a == *ch_b && *val_a == *val_b,
            (InputCmd::Softclip(ch_a, val_a), InputCmd::Softclip(ch_b, val_b)) => *ch_a == *ch_b && *val_a == *val_b,
            (InputCmd::Equalizer(ch_a, param_a), InputCmd::Equalizer(ch_b, param_b)) => *ch_a == *ch_b && *param_a == *param_b,
            (InputCmd::Dynamics(ch_a, param_a), InputCmd::Dynamics(ch_b, param_b)) => *ch_a == *ch_b && *param_a == *param_b,
            (InputCmd::Reserved(identifier_a, vals_a), InputCmd::Reserved(identifier_b, vals_b)) => {
                same_bytes(identifier_a.as_slice(), identifier_b.as_slice()) && same_bytes(vals_a.as_slice(), vals_b.as_slice())
            },
            _ => false,
        }
    }
}

impl PartialEqSpecImpl for InputCmd {
    open spec fn obeys_eq_spec() -> bool {
        true
    }

    open spec fn eq_spec(&self, other: &Self) -> bool {
        self@ == other@
    }
}

impl InputCmd {
    /// The identifier in the record of a command of a documented parameter.
    pub open spec fn spec_identifier(self) -> Seq<u8> {
        seq![
            channel_byte(self.spec_channel()),
            self.spec_levels().1,
            self.spec_levels().0,
            INPUT_LEVEL,
        ]
    }

    proof fn lemma_typed_record(self)
        requires
            !(self is Reserved),
            Self::spec_parse(self.spec_identifier(), self.spec_coefficient().bytes()) == self@,
        ensures
            is_single_record(self.spec_build()),
            single_identifier(self.spec_build()).len() == 4,
            single_identifier(self.spec_build())[3] == INPUT_LEVEL,
            Self::spec_parse(
                single_identifier(self.spec_build()),
                single_vals(self.spec_build()),
            ) == self@,
    {
        lemma_coefficient_record(
            INPUT_LEVEL,
            self.spec_levels().0,
            self.spec_levels().1,
            self.spec_channel(),
            self.spec_coefficient(),
        );
    }

    proof fn lemma_typed_parse_first(self)
        requires
            self is Equalizer || self is Dynamics || self is Phase || self is Pair,
            self.is_canonical(),
        ensures
            Self::spec_parse(self.spec_identifier(), self.spec_coefficient().bytes()) == self@,
    {
        let identifier = self.spec_identifier();
        let vals = self.spec_coefficient().bytes();
        match self {
            InputCmd::Equalizer(ch, param) => {
                param.lemma_round_trip();
                let place = param.spec_position();
                assert(identifier[0] as usize == ch);
                assert((identifier[2] - 1) as u8 == place.0);
                assert(EqualizerParameter::spec_parse((identifier[2] - 1) as u8, identifier[1], vals) == Some(param));
                assert(Self::spec_parse(identifier, vals) == CmdView::Typed(self));
            },
            InputCmd::Dynamics(ch, param) => {
                param.lemma_round_trip();
                let place = param.spec_position();
                assert(identifier[0] as usize == ch);
                assert((identifier[2] - 9) as u8 == place.0);
                assert(DynamicsParameter::spec_parse((identifier[2] - 9) as u8, identifier[1], vals) == Some(param));
                assert(Self::spec_parse(identifier, vals) == CmdView::Typed(self));
            },
            InputCmd::Phase(ch, val) => {
                lemma_flag_coefficient(val);
                assert(identifier[3] == INPUT_LEVEL && identifier[2] == 0x00 && identifier[1] == 0x00);
                assert(identifier[0] as usize == ch);
                assert(Self::spec_parse(identifier, vals) == CmdView::Typed(self));
            },
            InputCmd::Pair(ch, val) => {
                lemma_flag_coefficient(val);
                assert(identifier[3] == INPUT_LEVEL && identifier[2] == 0x00 && identifier[1] == 0x01);
                assert(identifier[0] as usize == ch);
                assert(Self::spec_parse(identifier, vals) == CmdView::Typed(self));
            },
            _ => {
            },
        }
    }

    proof fn lemma_typed_parse_second(self)
        requires
            self is Gain || self is Swap || self is StereoMode || self is Width,
            self.is_canonical(),
        ensures
            Self::spec_parse(self.spec_identifier(), self.spec_coefficient().bytes()) == self@,
    {
        let identifier = self.spec_identifier();
        let vals = self.spec_coefficient().bytes();
        match self {
            InputCmd::Gain(ch, val) => {
                lemma_signed_coefficient(val);
                assert(identifier[3] == INPUT_LEVEL && identifier[2] == 0x00 && identifier[1] == 0x02);
                assert(identifier[0] as usize == ch);
                assert(Self::spec_parse(identifier, vals) == CmdView::Typed(self));
            },
            InputCmd::Swap(ch, val) => {
                lemma_flag_coefficient(val);
                assert(identifier[3] == INPUT_LEVEL && identifier[2] == 0x00 && identifier[1] == 0x03);
                assert(identifier[0] as usize == ch);
                assert(Self::spec_parse(identifier, vals) == CmdView::Typed(self));
            },
            InputCmd::StereoMode(ch, val) => {
                lemma_byte_coefficient(val.byte());
                assert(identifier[3] == INPUT_LEVEL && identifier[2] == 0x00 && identifier[1] == 0x04);
                assert(identifier[0] as usize == ch);
                assert(Self::spec_parse(identifier, vals) == CmdView::Typed(self));
            },
            InputCmd::Width(ch, val) => {
                lemma_number_coefficient(val);
                assert(identifier[3] == INPUT_LEVEL && identifier[2] == 0x00 && identifier[1] == 0x05);
                assert(identifier[0] as usize == ch);
                assert(Self::spec_parse(identifier, vals) == CmdView::Typed(self));
            },
            _ => {
            },
        }
    }

    proof fn lemma_typed_parse_third(self)
        requires
            self is ReverbSend || self is ReverbLrBalance || self is Pad || self is Phantom,
            self.is_canonical(),
        ensures
            Self::spec_parse(self.spec_identifier(), self.spec_coefficient().bytes()) == self@,
    {
        let identifier = self.spec_identifier();
        let vals = self.spec_coefficient().bytes();
        match self {
            InputCmd::ReverbSend(ch, val) => {
                lemma_number_coefficient(val);
                assert(identifier[3] == INPUT_LEVEL && identifier[2] == 0x0c && identifier[1] == 0x00);
                assert(identifier[0] as usize == ch);
                assert(Self::spec_parse(identifier, vals) == CmdView::Typed(self));
            },
            InputCmd::ReverbLrBalance(ch, val) => {
                lemma_number_coefficient(val);
                assert(identifier[3] == INPUT_LEVEL && identifier[2] == 0x0c && identifier[1] == 0x02);
                assert(identifier[0] as usize == ch);
                assert(Self::spec_parse(identifier, vals) == CmdView::Typed(self));
            },
            InputCmd::Pad(ch, val) => {
                lemma_flag_coefficient(val);
                assert(identifier[3] == INPUT_LEVEL && identifier[2] == 0x00 && identifier[1] == 0x09);
                assert(identifier[0] as usize == ch);
                assert(Self::spec_parse(identifier, vals) == CmdView::Typed(self));
            },
            InputCmd::Phantom(ch, val) => {
                lemma_flag_coefficient(val);
                assert(identifier[3] == INPUT_LEVEL && identifier[2] == 0x00 && identifier[1] == 0x0b);
                assert(identifier[0] as usize == ch);
                assert(Self::spec_parse(identifier, vals) == CmdView::Typed(self));
            },
            _ => {
            },
        }
    }

    proof fn lemma_typed_parse_fourth(self)
        requires
            self is Limitter || self is Lookahead || self is Softclip,
            self.is_canonical(),
        ensures
            Self::spec_parse(self.spec_identifier(), self.spec_coefficient().bytes()) == self@,
    {
        let identifier = self.spec_identifier();
        let vals = self.spec_coefficient().bytes();
        match self {
            InputCmd::Limitter(ch, val) => {
                lemma_flag_coefficient(val);
                assert(identifier[3] == INPUT_LEVEL && identifier[2] == 0x00 && identifier[1] == 0x06);
                assert(identifier[0] as usize == ch);
                assert(Self::spec_parse(identifier, vals) == CmdView::Typed(self));
            },
            InputCmd::Lookahead(ch, val) => {
                lemma_flag_coefficient(val);
                assert(identifier[3] == INPUT_LEVEL && identifier[2] == 0x00 && identifier[1] == 0x07);
                assert(identifier[0] as usize == ch);
                assert(Self::spec_parse(identifier, vals) == CmdView::Typed(self));
            },
            InputCmd::Softclip(ch, val) => {
                lemma_flag_coefficient(val);
                assert(identifier[3] == INPUT_LEVEL && identifier[2] == 0x00 && identifier[1] == 0x08);
                assert(identifier[0] as usize == ch);
                assert(Self::spec_parse(identifier, vals) == CmdView::Typed(self));
            },
            _ => {
            },
        }
    }

    proof fn lemma_typed_parse(self)
        requires
            !(self is Reserved),
            self.is_canonical(),
        ensures
            Self::spec_parse(self.spec_identifier(), self.spec_coefficient().bytes()) == self@,
    {
        if self is Equalizer || self is Dynamics || self is Phase || self is Pair {
            self.lemma_typed_parse_first();
        } else if self is Gain || self is Swap || self is StereoMode || self is Width {
            self.lemma_typed_parse_second();
        } else if self is ReverbSend || self is ReverbLrBalance || self is Pad || self is Phantom {
            self.lemma_typed_parse_third();
        } else {
            self.lemma_typed_parse_fourth();
        }
    }

    /// The record of a canonical command is a record of one coefficient under
    /// the section's first level, and its identifier and coefficient stand for
    /// the command again.
    pub proof fn lemma_round_trip(self)
        requires
            self.is_canonical(),
        ensures
            is_single_record(self.spec_build()),
            single_identifier(self.spec_build()).len() == 4,
            single_identifier(self.spec_build())[3] == INPUT_LEVEL,
            Self::spec_parse(
                single_identifier(self.spec_build()),
                single_vals(self.spec_build()),
            ) == self@,
    {
        match self {
            InputCmd::Reserved(identifier, vals) => {
                lemma_data_record(identifier@, vals@);
            },
            _ => {
                self.lemma_typed_parse();
                self.lemma_typed_record();
            },
        }
    }
}
} // verus!
