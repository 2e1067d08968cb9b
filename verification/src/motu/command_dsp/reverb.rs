//! Commands of the reverb effect.

use vstd::prelude::*;
use vstd::std_specs::cmp::PartialEqSpecImpl;
use crate::float32::Float32;
use super::codec::{
    append_coefficient, append_data, bool_to_u8, bytes_to_vec, channel_byte, coefficient_record,
    data_record, flag_byte, is_single_record, lemma_coefficient_record, lemma_data_record,
    same_bytes, single_identifier, single_vals, spec_to_bool, spec_to_f32, spec_to_i32,
    spec_to_u32, to_bool, to_f32, to_i32, to_u32, CmdView, Coefficient,
};
use super::effects::{
    lemma_byte_coefficient, lemma_flag_coefficient, lemma_number_coefficient,
    lemma_signed_coefficient, lemma_unsigned_coefficient, EXACT_INTEGER_MAX,
};
use super::params::{RoomShape, SplitPoint};

verus! {

/// First level of the identifiers of the section's commands.
pub const REVERB_LEVEL: u8 = 0x04;

/// The DSP command specific to reverb effect.
#[derive(Debug)]
pub enum ReverbCmd {
    Enable(bool),
    Split(SplitPoint),
    PreDelay(u32),
    ShelfFilterFreq(u32),
    ShelfFilterAttenuation(i32),
    DecayTime(u32),
    LowFreqTime(u32),
    MiddleFreqTime(u32),
    HighFreqTime(u32),
    LowFreqCrossover(u32),
    HighFreqCrossover(u32),
    Width(Float32),
    ReflectionMode(RoomShape),
    ReflectionSize(u32),
    ReflectionLevel(Float32),
    Reserved(Vec<u8>, Vec<u8>),
}

impl View for ReverbCmd {
    type V = CmdView<ReverbCmd>;

    open spec fn view(&self) -> CmdView<ReverbCmd> {
        match *self {
            ReverbCmd::Reserved(identifier, vals) => CmdView::Reserved(identifier@, vals@),
            cmd => CmdView::Typed(cmd),
        }
    }
}

impl ReverbCmd {
    /// The command that an identifier of four bytes and a coefficient of one
    /// or four bytes stand for. Where the identifier names no documented
    /// parameter of the section, or the coefficient has not the width that
    /// belongs to the parameter, both are kept as they are.
    pub open spec fn spec_parse(identifier: Seq<u8>, vals: Seq<u8>) -> CmdView<ReverbCmd> {
        let second_level = identifier[2];
        let third_level = identifier[1];
        let byte = vals.len() == 1;
        let quadlet = vals.len() == 4;
        if identifier[3] != REVERB_LEVEL {
            CmdView::Reserved(identifier, vals)
        } else if second_level == 0x00 && third_level == 0x00 && byte {
            CmdView::Typed(ReverbCmd::Enable(spec_to_bool(vals)))
        } else if second_level == 0x00 && third_level == 0x01 {
            CmdView::Typed(ReverbCmd::Split(SplitPoint::of_byte(vals[0])))
        } else if second_level == 0x00 && third_level == 0x02 && quadlet {
            CmdView::Typed(ReverbCmd::PreDelay(spec_to_u32(vals)))
        } else if second_level == 0x00 && third_level == 0x03 && quadlet {
            CmdView::Typed(ReverbCmd::ShelfFilterFreq(spec_to_u32(vals)))
        } else if second_level == 0x00 && third_level == 0x04 && quadlet {
            CmdView::Typed(ReverbCmd::ShelfFilterAttenuation(spec_to_i32(vals)))
        } else if second_level == 0x00 && third_level == 0x05 && quadlet {
            CmdView::Typed(ReverbCmd::DecayTime(spec_to_u32(vals)))
        } else if second_level == 0x00 && third_level == 0x06 && quadlet {
            CmdView::Typed(ReverbCmd::LowFreqTime(spec_to_u32(vals)))
        } else if second_level == 0x00 && third_level == 0x07 && quadlet {
            CmdView::Typed(ReverbCmd::MiddleFreqTime(spec_to_u32(vals)))
        } else if second_level == 0x00 && third_level == 0x08 && quadlet {
            CmdView::Typed(ReverbCmd::HighFreqTime(spec_to_u32(vals)))
        } else if second_level == 0x00 && third_level == 0x09 && quadlet {
            CmdView::Typed(ReverbCmd::LowFreqCrossover(spec_to_u32(vals)))
        } else if second_level == 0x00 && third_level == 0x0a && quadlet {
            CmdView::Typed(ReverbCmd::HighFreqCrossover(spec_to_u32(vals)))
        } else if second_level == 0x00 && third_level == 0x0b && quadlet {
            CmdView::Typed(ReverbCmd::Width(spec_to_f32(vals)))
        } else if second_level == 0x00 && third_level == 0x0c {
            CmdView::Typed(ReverbCmd::ReflectionMode(RoomShape::of_byte(vals[0])))
        } else if second_level == 0x00 && third_level == 0x0d && quadlet {
            CmdView::Typed(ReverbCmd::ReflectionSize(spec_to_u32(vals)))
        } else if second_level == 0x00 && third_level == 0x0e && quadlet {
            CmdView::Typed(ReverbCmd::ReflectionLevel(spec_to_f32(vals)))
        } else {
            CmdView::Reserved(identifier, vals)
        }
    }

    /// Second and third level of the identifier in the command's record.
    pub open spec fn spec_levels(self) -> (u8, u8) {
        match self {
            ReverbCmd::Enable(_) => (0x00, 0x00),
            ReverbCmd::Split(_) => (0x00, 0x01),
            ReverbCmd::PreDelay(_) => (0x00, 0x02),
            ReverbCmd::ShelfFilterFreq(_) => (0x00, 0x03),
            ReverbCmd::ShelfFilterAttenuation(_) => (0x00, 0x04),
            ReverbCmd::DecayTime(_) => (0x00, 0x05),
            ReverbCmd::LowFreqTime(_) => (0x00, 0x06),
            ReverbCmd::MiddleFreqTime(_) => (0x00, 0x07),
            ReverbCmd::HighFreqTime(_) => (0x00, 0x08),
            ReverbCmd::LowFreqCrossover(_) => (0x00, 0x09),
            ReverbCmd::HighFreqCrossover(_) => (0x00, 0x0a),
            ReverbCmd::Width(_) => (0x00, 0x0b),
            ReverbCmd::ReflectionMode(_) => (0x00, 0x0c),
            ReverbCmd::ReflectionSize(_) => (0x00, 0x0d),
            ReverbCmd::ReflectionLevel(_) => (0x00, 0x0e),
            ReverbCmd::Reserved(identifier, _) => (identifier@[2], identifier@[1]),
        }
    }

    /// Channel of the identifier in the command's record.
    pub open spec fn spec_channel(self) -> usize {
        match self {
            ReverbCmd::Reserved(identifier, _) => identifier@[0] as usize,
            _ => 0,
        }
    }

    /// The coefficient of a command of a documented parameter.
    pub open spec fn spec_coefficient(self) -> Coefficient {
        match self {
            ReverbCmd::Enable(val) => Coefficient::Byte(flag_byte(val)),
            ReverbCmd::Split(val) => Coefficient::Byte(val.byte()),
            ReverbCmd::PreDelay(val) => Coefficient::Quadlet(Float32::spec_from_u32(val)),
            ReverbCmd::ShelfFilterFreq(val) => Coefficient::Quadlet(Float32::spec_from_u32(val)),
            ReverbCmd::ShelfFilterAttenuation(val) => Coefficient::Quadlet(Float32::spec_from_i32(val)),
            ReverbCmd::DecayTime(val) => Coefficient::Quadlet(Float32::spec_from_u32(val)),
            ReverbCmd::LowFreqTime(val) => Coefficient::Quadlet(Float32::spec_from_u32(val)),
            ReverbCmd::MiddleFreqTime(val) => Coefficient::Quadlet(Float32::spec_from_u32(val)),
            ReverbCmd::HighFreqTime(val) => Coefficient::Quadlet(Float32::spec_from_u32(val)),
            ReverbCmd::LowFreqCrossover(val) => Coefficient::Quadlet(Float32::spec_from_u32(val)),
            ReverbCmd::HighFreqCrossover(val) => Coefficient::Quadlet(Float32::spec_from_u32(val)),
            ReverbCmd::Width(val) => Coefficient::Quadlet(val),
            ReverbCmd::ReflectionMode(val) => Coefficient::Byte(val.byte()),
            ReverbCmd::ReflectionSize(val) => Coefficient::Quadlet(Float32::spec_from_u32(val)),
            ReverbCmd::ReflectionLevel(val) => Coefficient::Quadlet(val),
            ReverbCmd::Reserved(_, _) => Coefficient::Byte(0),
        }
    }

    /// The record that carries the command.
    pub open spec fn spec_build(self) -> Seq<u8> {
        match self {
            ReverbCmd::Reserved(identifier, vals) => data_record(identifier@, vals@),
            _ => coefficient_record(
                REVERB_LEVEL,
                self.spec_levels().0,
                self.spec_levels().1,
                self.spec_channel(),
                self.spec_coefficient(),
            ),
        }
    }

    /// Holds of the commands that a record carries without loss: channels
    /// below 256, integers that are numbers of the wire format, and as
    /// `Reserved` only what names no documented parameter of the section.
    pub open spec fn is_canonical(self) -> bool {
        match self {
            ReverbCmd::Enable(val) => true,
            ReverbCmd::Split(val) => val.is_canonical(),
            ReverbCmd::PreDelay(val) => val <= EXACT_INTEGER_MAX,
            ReverbCmd::ShelfFilterFreq(val) => val <= EXACT_INTEGER_MAX,
            ReverbCmd::ShelfFilterAttenuation(val) => -EXACT_INTEGER_MAX <= val <= EXACT_INTEGER_MAX,
            ReverbCmd::DecayTime(val) => val <= EXACT_INTEGER_MAX,
            ReverbCmd::LowFreqTime(val) => val <= EXACT_INTEGER_MAX,
            ReverbCmd::MiddleFreqTime(val) => val <= EXACT_INTEGER_MAX,
            ReverbCmd::HighFreqTime(val) => val <= EXACT_INTEGER_MAX,
            ReverbCmd::LowFreqCrossover(val) => val <= EXACT_INTEGER_MAX,
            ReverbCmd::HighFreqCrossover(val) => val <= EXACT_INTEGER_MAX,
            ReverbCmd::Width(val) => true,
            ReverbCmd::ReflectionMode(val) => val.is_canonical(),
            ReverbCmd::ReflectionSize(val) => val <= EXACT_INTEGER_MAX,
            ReverbCmd::ReflectionLevel(val) => true,
            ReverbCmd::Reserved(identifier, vals) => {
                &&& identifier@.len() == 4
                &&& (vals@.len() == 1 || vals@.len() == 4)
                &&& identifier@[3] == REVERB_LEVEL
                &&& Self::spec_parse(identifier@, vals@) == CmdView::<ReverbCmd>::Reserved(
                    identifier@,
                    vals@,
                )
            },
        }
    }

    pub fn parse(identifier: &[u8], vals: &[u8]) -> (cmd: Self)
        requires
            identifier@.len() == 4,
            vals@.len() == 1 || vals@.len() == 4,
        ensures
            cmd@ == Self::spec_parse(identifier@, vals@),
    {
        let second_level = identifier[2];
        let third_level = identifier[1];
        let byte = vals.len() == 1;
        let quadlet = vals.len() == 4;
        if identifier[3] != REVERB_LEVEL {
            return ReverbCmd::Reserved(bytes_to_vec(identifier), bytes_to_vec(vals));
        }
        if second_level == 0x00 && third_level == 0x00 && byte {
            ReverbCmd::Enable(to_bool(vals))
        } else if second_level == 0x00 && third_level == 0x01 {
            ReverbCmd::Split(SplitPoint::from(vals[0]))
        } else if second_level == 0x00 && third_level == 0x02 && quadlet {
            ReverbCmd::PreDelay(to_u32(vals))
        } else if second_level == 0x00 && third_level == 0x03 && quadlet {
            ReverbCmd::ShelfFilterFreq(to_u32(vals))
        } else if second_level == 0x00 && third_level == 0x04 && quadlet {
            ReverbCmd::ShelfFilterAttenuation(to_i32(vals))
        } else if second_level == 0x00 && third_level == 0x05 && quadlet {
            ReverbCmd::DecayTime(to_u32(vals))
        } else if second_level == 0x00 && third_level == 0x06 && quadlet {
            ReverbCmd::LowFreqTime(to_u32(vals))
        } else if second_level == 0x00 && third_level == 0x07 && quadlet {
            ReverbCmd::MiddleFreqTime(to_u32(vals))
        } else if second_level == 0x00 && third_level == 0x08 && quadlet {
            ReverbCmd::HighFreqTime(to_u32(vals))
        } else if second_level == 0x00 && third_level == 0x09 && quadlet {
            ReverbCmd::LowFreqCrossover(to_u32(vals))
        } else if second_level == 0x00 && third_level == 0x0a && quadlet {
            ReverbCmd::HighFreqCrossover(to_u32(vals))
        } else if second_level == 0x00 && third_level == 0x0b && quadlet {
            ReverbCmd::Width(to_f32(vals))
        } else if second_level == 0x00 && third_level == 0x0c {
            ReverbCmd::ReflectionMode(RoomShape::from(vals[0]))
        } else if second_level == 0x00 && third_level == 0x0d && quadlet {
            ReverbCmd::ReflectionSize(to_u32(vals))
        } else if second_level == 0x00 && third_level == 0x0e && quadlet {
            ReverbCmd::ReflectionLevel(to_f32(vals))
        } else {
            ReverbCmd::Reserved(bytes_to_vec(identifier), bytes_to_vec(vals))
        }
    }

    pub fn build(&self, raw: &mut Vec<u8>)
        ensures
            final(raw)@ == old(raw)@ + self.spec_build(),
    {
        match self {
            ReverbCmd::Enable(val) => append_coefficient(raw, REVERB_LEVEL, 0x00, 0x00, 0, Coefficient::Byte(bool_to_u8(*val))),
            ReverbCmd::Split(val) => append_coefficient(raw, REVERB_LEVEL, 0x00, 0x01, 0, Coefficient::Byte(u8::from(*val))),
            ReverbCmd::PreDelay(val) => append_coefficient(raw, REVERB_LEVEL, 0x00, 0x02, 0, Coefficient::Quadlet(Float32::from_u32(*val))),
            ReverbCmd::ShelfFilterFreq(val) => append_coefficient(raw, REVERB_LEVEL, 0x00, 0x03, 0, Coefficient::Quadlet(Float32::from_u32(*val))),
            ReverbCmd::ShelfFilterAttenuation(val) => append_coefficient(raw, REVERB_LEVEL, 0x00, 0x04, 0, Coefficient::Quadlet(Float32::from_i32(*val))),
            ReverbCmd::DecayTime(val) => append_coefficient(raw, REVERB_LEVEL, 0x00, 0x05, 0, Coefficient::Quadlet(Float32::from_u32(*val))),
            ReverbCmd::LowFreqTime(val) => append_coefficient(raw, REVERB_LEVEL, 0x00, 0x06, 0, Coefficient::Quadlet(Float32::from_u32(*val))),
            ReverbCmd::MiddleFreqTime(val) => append_coefficient(raw, REVERB_LEVEL, 0x00, 0x07, 0, Coefficient::Quadlet(Float32::from_u32(*val))),
            ReverbCmd::HighFreqTime(val) => append_coefficient(raw, REVERB_LEVEL, 0x00, 0x08, 0, Coefficient::Quadlet(Float32::from_u32(*val))),
            ReverbCmd::LowFreqCrossover(val) => append_coefficient(raw, REVERB_LEVEL, 0x00, 0x09, 0, Coefficient::Quadlet(Float32::from_u32(*val))),
            ReverbCmd::HighFreqCrossover(val) => append_coefficient(raw, REVERB_LEVEL, 0x00, 0x0a, 0, Coefficient::Quadlet(Float32::from_u32(*val))),
            ReverbCmd::Width(val) => append_coefficient(raw, REVERB_LEVEL, 0x00, 0x0b, 0, Coefficient::Quadlet(*val)),
            ReverbCmd::ReflectionMode(val) => append_coefficient(raw, REVERB_LEVEL, 0x00, 0x0c, 0, Coefficient::Byte(u8::from(*val))),
            ReverbCmd::ReflectionSize(val) => append_coefficient(raw, REVERB_LEVEL, 0x00, 0x0d, 0, Coefficient::Quadlet(Float32::from_u32(*val))),
            ReverbCmd::ReflectionLevel(val) => append_coefficient(raw, REVERB_LEVEL, 0x00, 0x0e, 0, Coefficient::Quadlet(*val)),
            ReverbCmd::Reserved(identifier, vals) => append_data(raw, identifier.as_slice(), vals.as_slice()),
        }
    }

}

impl Clone for ReverbCmd {
    fn clone(&self) -> (cmd: Self)
        ensures
            cmd@ == self@,
    {
        match self {
            ReverbCmd::Enable(val) => ReverbCmd::Enable(*val),
            ReverbCmd::Split(val) => ReverbCmd::Split(*val),
            ReverbCmd::PreDelay(val) => ReverbCmd::PreDelay(*val),
            ReverbCmd::ShelfFilterFreq(val) => ReverbCmd::ShelfFilterFreq(*val),
            ReverbCmd::ShelfFilterAttenuation(val) => ReverbCmd::ShelfFilterAttenuation(*val),
            ReverbCmd::DecayTime(val) => ReverbCmd::DecayTime(*val),
            ReverbCmd::LowFreqTime(val) => ReverbCmd::LowFreqTime(*val),
            ReverbCmd::MiddleFreqTime(val) => ReverbCmd::MiddleFreqTime(*val),
            ReverbCmd::HighFreqTime(val) => ReverbCmd::HighFreqTime(*val),
            ReverbCmd::LowFreqCrossover(val) => ReverbCmd::LowFreqCrossover(*val),
            ReverbCmd::HighFreqCrossover(val) => ReverbCmd::HighFreqCrossover(*val),
            ReverbCmd::Width(val) => ReverbCmd::Width(*val),
            ReverbCmd::ReflectionMode(val) => ReverbCmd::ReflectionMode(*val),
            ReverbCmd::ReflectionSize(val) => ReverbCmd::ReflectionSize(*val),
            ReverbCmd::ReflectionLevel(val) => ReverbCmd::ReflectionLevel(*val),
            ReverbCmd::Reserved(identifier, vals) => ReverbCmd::Reserved(bytes_to_vec(identifier.as_slice()), bytes_to_vec(vals.as_slice())),
        }
    }
}

impl PartialEq for ReverbCmd {
    fn eq(&self, other: &Self) -> (same: bool) {
        match (self, other) {
            (ReverbCmd::Enable(val_a), ReverbCmd::Enable(val_b)) => *val_a == *val_b,
            (ReverbCmd::Split(val_a), ReverbCmd::Split(val_b)) => *val_a == *val_b,
            (ReverbCmd::PreDelay(val_a), ReverbCmd::PreDelay(val_b)) => *val_a == *val_b,
            (ReverbCmd::ShelfFilterFreq(val_a), ReverbCmd::ShelfFilterFreq(val_b)) => *val_a == *val_b,
            (ReverbCmd::ShelfFilterAttenuation(val_a), ReverbCmd::ShelfFilterAttenuation(val_b)) => *val_a == *val_b,
            (ReverbCmd::DecayTime(val_a), ReverbCmd::DecayTime(val_b)) => *val_a == *val_b,
            (ReverbCmd::LowFreqTime(val_a), ReverbCmd::LowFreqTime(val_b)) => *val_a == *val_b,
            (ReverbCmd::MiddleFreqTime(val_a), ReverbCmd::MiddleFreqTime(val_b)) => *val_a == *val_b,
            (ReverbCmd::HighFreqTime(val_a), ReverbCmd::HighFreqTime(val_b)) => *val_a == *val_b,
            (ReverbCmd::LowFreqCrossover(val_a), ReverbCmd::LowFreqCrossover(val_b)) => *val_a == *val_b,
            (ReverbCmd::HighFreqCrossover(val_a), ReverbCmd::HighFreqCrossover(val_b)) => *val_a == *val_b,
            (ReverbCmd::Width(val_a), ReverbCmd::Width(val_b)) => *val_a == *val_b,
            (ReverbCmd::ReflectionMode(val_a), ReverbCmd::ReflectionMode(val_b)) => *val_a == *val_b,
            (ReverbCmd::ReflectionSize(val_a), ReverbCmd::ReflectionSize(val_b)) => *val_a == *val_b,
            (ReverbCmd::ReflectionLevel(val_a), ReverbCmd::ReflectionLevel(val_b)) => *val_a == *val_b,
            (ReverbCmd::Reserved(identifier_a, vals_a), ReverbCmd::Reserved(identifier_b, vals_b)) => {
                same_bytes(identifier_a.as_slice(), identifier_b.as_slice()) && same_bytes(vals_a.as_slice(), vals_b.as_slice())
            },
            _ => false,
        }
    }
}

impl PartialEqSpecImpl for ReverbCmd {
    open spec fn obeys_eq_spec() -> bool {
        true
    }

    open spec fn eq_spec(&self, other: &Self) -> bool {
        self@ == other@
    }
}

impl ReverbCmd {
    /// The identifier in the record of a command of a documented parameter.
    pub open spec fn spec_identifier(self) -> Seq<u8> {
        seq![
            channel_byte(self.spec_channel()),
            self.spec_levels().1,
            self.spec_levels().0,
            REVERB_LEVEL,
        ]
    }

    proof fn lemma_typed_record(self)
        requires
            !(self is Reserved),
            Self::spec_parse(self.spec_identifier(), self.spec_coefficient().bytes()) == self@,
        ensures
            is_single_record(self.spec_build()),
            single_identifier(self.spec_build()).len() == 4,
            single_identifier(self.spec_build())[3] == REVERB_LEVEL,
            Self::spec_parse(
                single_identifier(self.spec_build()),
                single_vals(self.spec_build()),
            ) == self@,
    {
        lemma_coefficient_record(
            REVERB_LEVEL,
            self.spec_levels().0,
            self.spec_levels().1,
            self.spec_channel(),
            self.spec_coefficient(),
        );
    }

    proof fn lemma_typed_parse_first(self)
        requires
            self is Enable || self is Split || self is PreDelay || self is ShelfFilterFreq,
            self.is_canonical(),
        ensures
            Self::spec_parse(self.spec_identifier(), self.spec_coefficient().bytes()) == self@,
    {
        let identifier = self.spec_identifier();
        let vals = self.spec_coefficient().bytes();
        match self {
            ReverbCmd::Enable(val) => {
                lemma_flag_coefficient(val);
                assert(identifier[3] == REVERB_LEVEL && identifier[2] == 0x00 && identifier[1] == 0x00);
                assert(Self::spec_parse(identifier, vals) == CmdView::Typed(self));
            },
            ReverbCmd::Split(val) => {
                lemma_byte_coefficient(val.byte());
                assert(identifier[3] == REVERB_LEVEL && identifier[2] == 0x00 && identifier[1] == 0x01);
                assert(Self::spec_parse(identifier, vals) == CmdView::Typed(self));
            },
            ReverbCmd::PreDelay(val) => {
                lemma_unsigned_coefficient(val);
                assert(identifier[3] == REVERB_LEVEL && identifier[2] == 0x00 && identifier[1] == 0x02);
                assert(Self::spec_parse(identifier, vals) == CmdView::Typed(self));
            },
            ReverbCmd::ShelfFilterFreq(val) => {
                lemma_unsigned_coefficient(val);
                assert(identifier[3] == REVERB_LEVEL && identifier[2] == 0x00 && identifier[1] == 0x03);
                assert(Self::spec_parse(identifier, vals) == CmdView::Typed(self));
            },
            _ => {
            },
        }
    }

    proof fn lemma_typed_parse_second(self)
        requires
            self is ShelfFilterAttenuation || self is DecayTime || self is LowFreqTime || self is MiddleFreqTime,
            self.is_canonical(),
        ensures
            Self::spec_parse(self.spec_identifier(), self.spec_coefficient().bytes()) == self@,
    {
        let identifier = self.spec_identifier();
        let vals = self.spec_coefficient().bytes();
        match self {
            ReverbCmd::ShelfFilterAttenuation(val) => {
                lemma_signed_coefficient(val);
                assert(identifier[3] == REVERB_LEVEL && identifier[2] == 0x00 && identifier[1] == 0x04);
                assert(Self::spec_parse(identifier, vals) == CmdView::Typed(self));
            },
            ReverbCmd::DecayTime(val) => {
                lemma_unsigned_coefficient(val);
                assert(identifier[3] == REVERB_LEVEL && identifier[2] == 0x00 && identifier[1] == 0x05);
                assert(Self::spec_parse(identifier, vals) == CmdView::Typed(self));
            },
            ReverbCmd::LowFreqTime(val) => {
                lemma_unsigned_coefficient(val);
                assert(identifier[3] == REVERB_LEVEL && identifier[2] == 0x00 && identifier[1] == 0x06);
                assert(Self::spec_parse(identifier, vals) == CmdView::Typed(self));
            },
            ReverbCmd::MiddleFreqTime(val) => {
                lemma_unsigned_coefficient(val);
                assert(identifier[3] == REVERB_LEVEL && identifier[2] == 0x00 && identifier[1] == 0x07);
                assert(Self::spec_parse(identifier, vals) == CmdView::Typed(self));
            },
            _ => {
            },
        }
    }

    proof fn lemma_typed_parse_third(self)
        requires
            self is HighFreqTime || self is LowFreqCrossover || self is HighFreqCrossover || self is Width,
            self.is_canonical(),
        ensures
            Self::spec_parse(self.spec_identifier(), self.spec_coefficient().bytes()) == self@,
    {
        let identifier = self.spec_identifier();
        let vals = self.spec_coefficient().bytes();
        match self {
            ReverbCmd::HighFreqTime(val) => {
                lemma_unsigned_coefficient(val);
                assert(identifier[3] == REVERB_LEVEL && identifier[2] == 0x00 && identifier[1] == 0x08);
                assert(Self::spec_parse(identifier, vals) == CmdView::Typed(self));
            },
            ReverbCmd::LowFreqCrossover(val) => {
                lemma_unsigned_coefficient(val);
                assert(identifier[3] == REVERB_LEVEL && identifier[2] == 0x00 && identifier[1] == 0x09);
                assert(Self::spec_parse(identifier, vals) == CmdView::Typed(self));
            },
            ReverbCmd::HighFreqCrossover(val) => {
                lemma_unsigned_coefficient(val);
                assert(identifier[3] == REVERB_LEVEL && identifier[2] == 0x00 && identifier[1] == 0x0a);
                assert(Self::spec_parse(identifier, vals) == CmdView::Typed(self));
            },
            ReverbCmd::Width(val) => {
                lemma_number_coefficient(val);
                assert(identifier[3] == REVERB_LEVEL && identifier[2] == 0x00 && identifier[1] == 0x0b);
                assert(Self::spec_parse(identifier, vals) == CmdView::Typed(self));
            },
            _ => {
            },
        }
    }

    proof fn lemma_typed_parse_fourth(self)
        requires
            self is ReflectionMode || self is ReflectionSize || self is ReflectionLevel,
            self.is_canonical(),
        ensures
            Self::spec_parse(self.spec_identifier(), self.spec_coefficient().bytes()) == self@,
    {
        let identifier = self.spec_identifier();
        let vals = self.spec_coefficient().bytes();
        match self {
            ReverbCmd::ReflectionMode(val) => {
                lemma_byte_coefficient(val.byte());
                assert(identifier[3] == REVERB_LEVEL && identifier[2] == 0x00 && identifier[1] == 0x0c);
                assert(Self::spec_parse(identifier, vals) == CmdView::Typed(self));
            },
            ReverbCmd::ReflectionSize(val) => {
                lemma_unsigned_coefficient(val);
                assert(identifier[3] == REVERB_LEVEL && identifier[2] == 0x00 && identifier[1] == 0x0d);
                assert(Self::spec_parse(identifier, vals) == CmdView::Typed(self));
            },
            ReverbCmd::ReflectionLevel(val) => {
                lemma_number_coefficient(val);
                assert(identifier[3] == REVERB_LEVEL && identifier[2] == 0x00 && identifier[1] == 0x0e);
                assert(Self::spec_parse(identifier, vals) == CmdView::Typed(self));
            },
            _ => {
            },
        }
    }

    proof fn lemma_typed_parse(self)
        requires
            !(self is Reserved),
            self.is_canonical(),
        ensures
            Self::spec_parse(self.spec_identifier(), self.spec_coefficient().bytes()) == self@,
    {
        if self is Enable || self is Split || self is PreDelay || self is ShelfFilterFreq {
            self.lemma_typed_parse_first();
        } else if self is ShelfFilterAttenuation || self is DecayTime || self is LowFreqTime || self is MiddleFreqTime {
            self.lemma_typed_parse_second();
        } else if self is HighFreqTime || self is LowFreqCrossover || self is HighFreqCrossover || self is Width {
            self.lemma_typed_parse_third();
        } else {
            self.lemma_typed_parse_fourth();
        }
    }

    /// The record of a canonical command is a record of one coefficient under
    /// the section's first level, and its identifier and coefficient stand for
    /// the command again.
    pub proof fn lemma_round_trip(self)
        requires
            self.is_canonical(),
        ensures
            is_single_record(self.spec_build()),
            single_identifier(self.spec_build()).len() == 4,
            single_identifier(self.spec_build())[3] == REVERB_LEVEL,
            Self::spec_parse(
                single_identifier(self.spec_build()),
                single_vals(self.spec_build()),
            ) == self@,
    {
        match self {
            ReverbCmd::Reserved(identifier, vals) => {
                lemma_data_record(identifier@, vals@);
            },
            _ => {
                self.lemma_typed_parse();
                self.lemma_typed_record();
            },
        }
    }
}
} // verus!
