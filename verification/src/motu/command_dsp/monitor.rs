//! Commands of the monitor section.

use vstd::prelude::*;
use vstd::std_specs::cmp::PartialEqSpecImpl;
use crate::float32::Float32;
use super::codec::{
    append_coefficient, append_data, bool_to_u8, bytes_to_vec, channel_byte, coefficient_record,
    data_record, flag_byte, is_single_record, lemma_coefficient_record, lemma_data_record,
    same_bytes, single_identifier, single_vals, spec_to_bool, spec_to_f32, spec_to_usize, to_bool,
    to_f32, to_usize, CmdView, Coefficient,
};
use super::effects::{lemma_byte_coefficient, lemma_flag_coefficient, lemma_number_coefficient};

verus! {

/// The target of focus.
#[derive(Debug, Copy, Clone, Eq, PartialEq, Structural)]
pub enum FocusTarget {
    Output(usize),
    Input(usize),
    Reserved(usize, usize),
}

impl Default for FocusTarget {
    fn default() -> (r: Self)
        ensures
            r == FocusTarget::Output(0),
    {
        Self::Output(0)
    }
}

impl FocusTarget {
    /// The target that a quadlet coefficient names: the channel in its first
    /// byte, the direction in its last.
    pub open spec fn spec_parse(raw: Seq<u8>) -> Self {
        if raw[3] == 0x01 {
            Self::Input(raw[0] as usize)
        } else if raw[3] == 0x03 {
            Self::Output(raw[0] as usize)
        } else {
            Self::Reserved(raw[3] as usize, raw[0] as usize)
        }
    }

    /// The direction in the last byte of the coefficient.
    pub open spec fn spec_direction(self) -> u8 {
        match self {
            Self::Input(_) => 0x01,
            Self::Output(_) => 0x03,
            Self::Reserved(dir, _) => channel_byte(dir),
        }
    }

    /// The channel in the first byte of the coefficient.
    pub open spec fn spec_channel(self) -> u8 {
        match self {
            Self::Input(ch) => channel_byte(ch),
            Self::Output(ch) => channel_byte(ch),
            Self::Reserved(_, ch) => channel_byte(ch),
        }
    }

    /// The quadlet coefficient that names the target.
    pub open spec fn spec_quadlet(self) -> Float32 {
        Float32 { bits: (self.spec_channel() + 0x100_0000 * self.spec_direction()) as u32 }
    }

    /// Holds where channel and direction fit a byte each, and `Reserved` hides
    /// no documented direction.
    pub open spec fn is_canonical(self) -> bool {
        match self {
            Self::Input(ch) => ch < 0x100,
            Self::Output(ch) => ch < 0x100,
            Self::Reserved(dir, ch) => ch < 0x100 && dir < 0x100 && dir != 0x01 && dir != 0x03,
        }
    }

    pub fn parse(raw: &[u8]) -> (target: Self)
        requires
            raw@.len() == 4,
        ensures
            target == Self::spec_parse(raw@),
    {
        match raw[3] {
            0x01 => Self::Input(raw[0] as usize),
            0x03 => Self::Output(raw[0] as usize),
            _ => Self::Reserved(raw[3] as usize, raw[0] as usize),
        }
    }

    pub fn quadlet(&self) -> (val: Float32)
        ensures
            val == self.spec_quadlet(),
    {
        let (dir, ch): (u32, u32) = match self {
            Self::Input(ch) => (0x01, (*ch % 0x100) as u32),
            Self::Output(ch) => (0x03, (*ch % 0x100) as u32),
            Self::Reserved(dir, ch) => ((*dir % 0x100) as u32, (*ch % 0x100) as u32),
        };
        Float32::from_bits(ch + 0x100_0000 * dir)
    }

    /// A canonical target is read back from its coefficient.
    pub proof fn lemma_round_trip(self)
        requires
            self.is_canonical(),
        ensures
            Self::spec_parse(self.spec_quadlet().spec_to_le_bytes()) == self,
    {
        let ch = self.spec_channel() as int;
        let dir = self.spec_direction() as int;
        let bits = ch + 0x100_0000 * dir;
        assert(bits % 0x100 == ch);
        assert(bits / 0x100_0000 == dir);
        reveal(crate::float32::le_bytes);
        let raw = self.spec_quadlet().spec_to_le_bytes();
        assert(raw[0] == ch);
        assert(raw[3] == dir);
    }
}

/// First level of the identifiers of the section's commands.
pub const MONITOR_LEVEL: u8 = 0x00;

/// The DSP command specific to master output.
#[derive(Debug)]
pub enum MonitorCmd {
    Volume(Float32),
    TalkbackEnable(bool),
    ListenbackEnable(bool),
    TalkbackVolume(Float32),
    ListenbackVolume(Float32),
    Focus(FocusTarget),
    ReturnAssign(usize),
    Reserved(Vec<u8>, Vec<u8>),
}

impl View for MonitorCmd {
    type V = CmdView<MonitorCmd>;

    open spec fn view(&self) -> CmdView<MonitorCmd> {
        match *self {
            MonitorCmd::Reserved(identifier, vals) => CmdView::Reserved(identifier@, vals@),
            cmd => CmdView::Typed(cmd),
        }
    }
}

impl MonitorCmd {
    /// The command that an identifier of four bytes and a coefficient of one
    /// or four bytes stand for. Where the identifier names no documented
    /// parameter of the section, or the coefficient has not the width that
    /// belongs to the parameter, both are kept as they are.
    pub open spec fn spec_parse(identifier: Seq<u8>, vals: Seq<u8>) -> CmdView<MonitorCmd> {
        let second_level = identifier[2];
        let third_level = identifier[1];
        let byte = vals.len() == 1;
        let quadlet = vals.len() == 4;
        if identifier[3] != MONITOR_LEVEL {
            CmdView::Reserved(identifier, vals)
        } else if second_level == 0x00 && third_level == 0x00 && quadlet {
            CmdView::Typed(MonitorCmd::Volume(spec_to_f32(vals)))
        } else if second_level == 0x00 && third_level == 0x01 && byte {
            CmdView::Typed(MonitorCmd::TalkbackEnable(spec_to_bool(vals)))
        } else if second_level == 0x00 && third_level == 0x02 && byte {
            CmdView::Typed(MonitorCmd::ListenbackEnable(spec_to_bool(vals)))
        } else if second_level == 0x00 && third_level == 0x05 && quadlet {
            CmdView::Typed(MonitorCmd::TalkbackVolume(spec_to_f32(vals)))
        } else if second_level == 0x00 && third_level == 0x06 && quadlet {
            CmdView::Typed(MonitorCmd::ListenbackVolume(spec_to_f32(vals)))
        } else if second_level == 0x00 && third_level == 0x07 && quadlet {
            CmdView::Typed(MonitorCmd::Focus(FocusTarget::spec_parse(vals)))
        } else if second_level == 0x00 && third_level == 0x08 && byte {
            CmdView::Typed(MonitorCmd::ReturnAssign(spec_to_usize(vals)))
        } else {
            CmdView::Reserved(identifier, vals)
        }
    }

    /// Second and third level of the identifier in the command's record.
    pub open spec fn spec_levels(self) -> (u8, u8) {
        match self {
            MonitorCmd::Volume(_) => (0x00, 0x00),
            MonitorCmd::TalkbackEnable(_) => (0x00, 0x01),
            MonitorCmd::ListenbackEnable(_) => (0x00, 0x02),
            MonitorCmd::TalkbackVolume(_) => (0x00, 0x05),
            MonitorCmd::ListenbackVolume(_) => (0x00, 0x06),
            MonitorCmd::Focus(_) => (0x00, 0x07),
            MonitorCmd::ReturnAssign(_) => (0x00, 0x08),
            MonitorCmd::Reserved(identifier, _) => (identifier@[2], identifier@[1]),
        }
    }

    /// Channel of the identifier in the command's record.
    pub open spec fn spec_channel(self) -> usize {
        match self {
            MonitorCmd::Reserved(identifier, _) => identifier@[0] as usize,
            _ => 0,
        }
    }

    /// The coefficient of a command of a documented parameter.
    pub open spec fn spec_coefficient(self) -> Coefficient {
        match self {
            MonitorCmd::Volume(val) => Coefficient::Quadlet(val),
            MonitorCmd::TalkbackEnable(val) => Coefficient::Byte(flag_byte(val)),
            MonitorCmd::ListenbackEnable(val) => Coefficient::Byte(flag_byte(val)),
            MonitorCmd::TalkbackVolume(val) => Coefficient::Quadlet(val),
            MonitorCmd::ListenbackVolume(val) => Coefficient::Quadlet(val),
            MonitorCmd::Focus(val) => Coefficient::Quadlet(val.spec_quadlet()),
            MonitorCmd::ReturnAssign(val) => Coefficient::Byte(channel_byte(val)),
            MonitorCmd::Reserved(_, _) => Coefficient::Byte(0),
        }
    }

    /// The record that carries the command.
    pub open spec fn spec_build(self) -> Seq<u8> {
        match self {
            MonitorCmd::Reserved(identifier, vals) => data_record(identifier@, vals@),
            _ => coefficient_record(
                MONITOR_LEVEL,
                self.spec_levels().0,
                self.spec_levels().1,
                self.spec_channel(),
                self.spec_coefficient(),
            ),
        }
    }

    /// Holds of the commands that a record carries without loss: channels
    /// below 256, integers that are numbers of the wire format, and as
    /// `Reserved` only what names no documented parameter of the section.
    pub open spec fn is_canonical(self) -> bool {
        match self {
            MonitorCmd::Volume(val) => true,
            MonitorCmd::TalkbackEnable(val) => true,
            MonitorCmd::ListenbackEnable(val) => true,
            MonitorCmd::TalkbackVolume(val) => true,
            MonitorCmd::ListenbackVolume(val) => true,
            MonitorCmd::Focus(val) => val.is_canonical(),
            MonitorCmd::ReturnAssign(val) => val < 0x100,
            MonitorCmd::Reserved(identifier, vals) => {
                &&& identifier@.len() == 4
                &&& (vals@.len() == 1 || vals@.len() == 4)
                &&& identifier@[3] == MONITOR_LEVEL
                &&& Self::spec_parse(identifier@, vals@) == CmdView::<MonitorCmd>::Reserved(
                    identifier@,
                    vals@,
                )
            },
        }
    }

    pub fn parse(identifier: &[u8], vals: &[u8]) -> (cmd: Self)
        requires
            identifier@.len() == 4,
            vals@.len() == 1 || vals@.len() == 4,
        ensures
            cmd@ == Self::spec_parse(identifier@, vals@),
    {
        let second_level = identifier[2];
        let third_level = identifier[1];
        let byte = vals.len() == 1;
        let quadlet = vals.len() == 4;
        if identifier[3] != MONITOR_LEVEL {
            return MonitorCmd::Reserved(bytes_to_vec(identifier), bytes_to_vec(vals));
        }
        if second_level == 0x00 && third_level == 0x00 && quadlet {
            MonitorCmd::Volume(to_f32(vals))
        } else if second_level == 0x00 && third_level == 0x01 && byte {
            MonitorCmd::TalkbackEnable(to_bool(vals))
        } else if second_level == 0x00 && third_level == 0x02 && byte {
            MonitorCmd::ListenbackEnable(to_bool(vals))
        } else if second_level == 0x00 && third_level == 0x05 && quadlet {
            MonitorCmd::TalkbackVolume(to_f32(vals))
        } else if second_level == 0x00 && third_level == 0x06 && quadlet {
            MonitorCmd::ListenbackVolume(to_f32(vals))
        } else if second_level == 0x00 && third_level == 0x07 && quadlet {
            MonitorCmd::Focus(FocusTarget::parse(vals))
        } else if second_level == 0x00 && third_level == 0x08 && byte {
            MonitorCmd::ReturnAssign(to_usize(vals))
        } else {
            MonitorCmd::Reserved(bytes_to_vec(identifier), bytes_to_vec(vals))
        }
    }

    pub fn build(&self, raw: &mut Vec<u8>)
        ensures
            final(raw)@ == old(raw)@ + self.spec_build(),
    {
        match self {
            MonitorCmd::Volume(val) => append_coefficient(raw, MONITOR_LEVEL, 0x00, 0x00, 0, Coefficient::Quadlet(*val)),
            MonitorCmd::TalkbackEnable(val) => append_coefficient(raw, MONITOR_LEVEL, 0x00, 0x01, 0, Coefficient::Byte(bool_to_u8(*val))),
            MonitorCmd::ListenbackEnable(val) => append_coefficient(raw, MONITOR_LEVEL, 0x00, 0x02, 0, Coefficient::Byte(bool_to_u8(*val))),
            MonitorCmd::TalkbackVolume(val) => append_coefficient(raw, MONITOR_LEVEL, 0x00, 0x05, 0, Coefficient::Quadlet(*val)),
            MonitorCmd::ListenbackVolume(val) => append_coefficient(raw, MONITOR_LEVEL, 0x00, 0x06, 0, Coefficient::Quadlet(*val)),
            MonitorCmd::Focus(val) => append_coefficient(raw, MONITOR_LEVEL, 0x00, 0x07, 0, Coefficient::Quadlet((*val).quadlet())),
            MonitorCmd::ReturnAssign(val) => append_coefficient(raw, MONITOR_LEVEL, 0x00, 0x08, 0, Coefficient::Byte((*val % 0x100) as u8)),
            MonitorCmd::Reserved(identifier, vals) => append_data(raw, identifier.as_slice(), vals.as_slice()),
        }
    }

}

impl Clone for MonitorCmd {
    fn clone(&self) -> (cmd: Self)
        ensures
            cmd@ == self@,
    {
        match self {
            MonitorCmd::Volume(val) => MonitorCmd::Volume(*val),
            MonitorCmd::TalkbackEnable(val) => MonitorCmd::TalkbackEnable(*val),
            MonitorCmd::ListenbackEnable(val) => MonitorCmd::ListenbackEnable(*val),
            MonitorCmd::TalkbackVolume(val) => MonitorCmd::TalkbackVolume(*val),
            MonitorCmd::ListenbackVolume(val) => MonitorCmd::ListenbackVolume(*val),
            MonitorCmd::Focus(val) => MonitorCmd::Focus(*val),
            MonitorCmd::ReturnAssign(val) => MonitorCmd::ReturnAssign(*val),
            MonitorCmd::Reserved(identifier, vals) => MonitorCmd::Reserved(bytes_to_vec(identifier.as_slice()), bytes_to_vec(vals.as_slice())),
        }
    }
}

impl PartialEq for MonitorCmd {
    fn eq(&self, other: &Self) -> (same: bool) {
        match (self, other) {
            (MonitorCmd::Volume(val_a), MonitorCmd::Volume(val_b)) => *val_a == *val_b,
            (MonitorCmd::TalkbackEnable(val_a), MonitorCmd::TalkbackEnable(val_b)) => *val_a == *val_b,
            (MonitorCmd::ListenbackEnable(val_a), MonitorCmd::ListenbackEnable(val_b)) => *val_a == *val_b,
            (MonitorCmd::TalkbackVolume(val_a), MonitorCmd::TalkbackVolume(val_b)) => *val_a == *val_b,
            (MonitorCmd::ListenbackVolume(val_a), MonitorCmd::ListenbackVolume(val_b)) => *val_a == *val_b,
            (MonitorCmd::Focus(val_a), MonitorCmd::Focus(val_b)) => *val_a == *val_b,
            (MonitorCmd::ReturnAssign(val_a), MonitorCmd::ReturnAssign(val_b)) => *val_a == *val_b,
            (MonitorCmd::Reserved(identifier_a, vals_a), MonitorCmd::Reserved(identifier_b, vals_b)) => {
                same_bytes(identifier_a.as_slice(), identifier_b.as_slice()) && same_bytes(vals_a.as_slice(), vals_b.as_slice())
            },
            _ => false,
        }
    }
}

impl PartialEqSpecImpl for MonitorCmd {
    open spec fn obeys_eq_spec() -> bool {
        true
    }

    open spec fn eq_spec(&self, other: &Self) -> bool {
        self@ == other@
    }
}

impl MonitorCmd {
    /// The identifier in the record of a command of a documented parameter.
    pub open spec fn spec_identifier(self) -> Seq<u8> {
        seq![
            channel_byte(self.spec_channel()),
            self.spec_levels().1,
            self.spec_levels().0,
            MONITOR_LEVEL,
        ]
    }

    proof fn lemma_typed_record(self)
        requires
            !(self is Reserved),
            Self::spec_parse(self.spec_identifier(), self.spec_coefficient().bytes()) == self@,
        ensures
            is_single_record(self.spec_build()),
            single_identifier(self.spec_build()).len() == 4,
            single_identifier(self.spec_build())[3] == MONITOR_LEVEL,
            Self::spec_parse(
                single_identifier(self.spec_build()),
                single_vals(self.spec_build()),
            ) == self@,
    {
        lemma_coefficient_record(
            MONITOR_LEVEL,
            self.spec_levels().0,
            self.spec_levels().1,
            self.spec_channel(),
            self.spec_coefficient(),
        );
    }

    proof fn lemma_typed_parse_first(self)
        requires
            self is Volume || self is TalkbackEnable || self is ListenbackEnable || self is TalkbackVolume,
            self.is_canonical(),
        ensures
            Self::spec_parse(self.spec_identifier(), self.spec_coefficient().bytes()) == self@,
    {
        let identifier = self.spec_identifier();
        let vals = self.spec_coefficient().bytes();
        match self {
            MonitorCmd::Volume(val) => {
                lemma_number_coefficient(val);
                assert(identifier[3] == MONITOR_LEVEL && identifier[2] == 0x00 && identifier[1] == 0x00);
                assert(Self::spec_parse(identifier, vals) == CmdView::Typed(self));
            },
            MonitorCmd::TalkbackEnable(val) => {
                lemma_flag_coefficient(val);
                assert(identifier[3] == MONITOR_LEVEL && identifier[2] == 0x00 && identifier[1] == 0x01);
                assert(Self::spec_parse(identifier, vals) == CmdView::Typed(self));
            },
            MonitorCmd::ListenbackEnable(val) => {
                lemma_flag_coefficient(val);
                assert(identifier[3] == MONITOR_LEVEL && identifier[2] == 0x00 && identifier[1] == 0x02);
                assert(Self::spec_parse(identifier, vals) == CmdView::Typed(self));
            },
            MonitorCmd::TalkbackVolume(val) => {
                lemma_number_coefficient(val);
                assert(identifier[3] == MONITOR_LEVEL && identifier[2] == 0x00 && identifier[1] == 0x05);
                assert(Self::spec_parse(identifier, vals) == CmdView::Typed(self));
            },
            _ => {
            },
        }
    }

    proof fn lemma_typed_parse_second(self)
        requires
            self is ListenbackVolume || self is Focus || self is ReturnAssign,
            self.is_canonical(),
        ensures
            Self::spec_parse(self.spec_identifier(), self.spec_coefficient().bytes()) == self@,
    {
        let identifier = self.spec_identifier();
        let vals = self.spec_coefficient().bytes();
        match self {
            MonitorCmd::ListenbackVolume(val) => {
                lemma_number_coefficient(val);
                assert(identifier[3] == MONITOR_LEVEL && identifier[2] == 0x00 && identifier[1] == 0x06);
                assert(Self::spec_parse(identifier, vals) == CmdView::Typed(self));
            },
            MonitorCmd::Focus(val) => {
                val.lemma_round_trip();
                lemma_number_coefficient(val.spec_quadlet());
                assert(identifier[3] == MONITOR_LEVEL && identifier[2] == 0x00 && identifier[1] == 0x07);
                assert(Self::spec_parse(identifier, vals) == CmdView::Typed(self));
            },
            MonitorCmd::ReturnAssign(val) => {
                lemma_byte_coefficient(channel_byte(val));
                assert(identifier[3] == MONITOR_LEVEL && identifier[2] == 0x00 && identifier[1] == 0x08);
                assert(Self::spec_parse(identifier, vals) == CmdView::Typed(self));
            },
            _ => {
            },
        }
    }

    proof fn lemma_typed_parse(self)
        requires
            !(self is Reserved),
            self.is_canonical(),
        ensures
            Self::spec_parse(self.spec_identifier(), self.spec_coefficient().bytes()) == self@,
    {
        if self is Volume || self is TalkbackEnable || self is ListenbackEnable || self is TalkbackVolume {
            self.lemma_typed_parse_first();
        } else {
            self.lemma_typed_parse_second();
        }
    }

    /// The record of a canonical command is a record of one coefficient under
    /// the section's first level, and its identifier and coefficient stand for
    /// the command again.
    pub proof fn lemma_round_trip(self)
        requires
            self.is_canonical(),
        ensures
            is_single_record(self.spec_build()),
            single_identifier(self.spec_build()).len() == 4,
            single_identifier(self.spec_build())[3] == MONITOR_LEVEL,
            Self::spec_parse(
                single_identifier(self.spec_build()),
                single_vals(self.spec_build()),
            ) == self@,
    {
        match self {
            MonitorCmd::Reserved(identifier, vals) => {
                lemma_data_record(identifier@, vals@);
            },
            _ => {
                self.lemma_typed_parse();
                self.lemma_typed_record();
            },
        }
    }
}
} // verus!
