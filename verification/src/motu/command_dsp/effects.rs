//! Parameters of the equalizer and of the dynamics effect.
//!
//! Both effects exist once for each input and each output. A parameter
//! has a place in its effect, a section and a third level, which the commands
//! of inputs and outputs shift into their own range of second levels.

use vstd::prelude::*;
use crate::float32::{
    Float32, lemma_bytes_then_quadlet, lemma_i32_round_trip, lemma_u32_round_trip,
};
use super::codec::{
    bool_to_u8, flag_byte, spec_to_bool, spec_to_f32, spec_to_i32, spec_to_u32, to_bool, to_f32,
    to_i32, to_u32, Coefficient,
};
use super::params::{FilterType4, FilterType5, LevelDetectMode, LevelerMode, RollOffLevel};

verus! {

/// The largest magnitude up to which every integer is a number of the wire
/// format, so that it is carried without loss.
pub const EXACT_INTEGER_MAX: i32 = 0x100_0000;

/// A flag is read back from its coefficient.
pub proof fn lemma_flag_coefficient(val: bool)
    ensures
        Coefficient::Byte(flag_byte(val)).bytes().len() == 1,
        spec_to_bool(Coefficient::Byte(flag_byte(val)).bytes()) == val,
{
}

/// A byte is read back from its coefficient.
pub proof fn lemma_byte_coefficient(val: u8)
    ensures
        Coefficient::Byte(val).bytes().len() == 1,
        Coefficient::Byte(val).bytes()[0] == val,
{
}

/// A number is read back from its coefficient.
pub proof fn lemma_number_coefficient(val: Float32)
    ensures
        Coefficient::Quadlet(val).bytes().len() == 4,
        spec_to_f32(Coefficient::Quadlet(val).bytes()) == val,
{
    lemma_bytes_then_quadlet(val.bits);
}

/// A signed integer that is a number of the wire format is read back from
/// its coefficient.
pub proof fn lemma_signed_coefficient(val: i32)
    requires
        -EXACT_INTEGER_MAX <= val <= EXACT_INTEGER_MAX,
    ensures
        Coefficient::Quadlet(Float32::spec_from_i32(val)).bytes().len() == 4,
        spec_to_i32(Coefficient::Quadlet(Float32::spec_from_i32(val)).bytes()) == val,
{
    lemma_bytes_then_quadlet(Float32::spec_from_i32(val).bits);
    lemma_i32_round_trip(val);
}

/// An unsigned integer that is a number of the wire format is read back from
/// its coefficient.
pub proof fn lemma_unsigned_coefficient(val: u32)
    requires
        val <= EXACT_INTEGER_MAX,
    ensures
        Coefficient::Quadlet(Float32::spec_from_u32(val)).bytes().len() == 4,
        spec_to_u32(Coefficient::Quadlet(Float32::spec_from_u32(val)).bytes()) == val,
{
    lemma_bytes_then_quadlet(Float32::spec_from_u32(val).bits);
    lemma_u32_round_trip(val);
}

/// Values that their coefficients carry without loss are read back from them.
pub proof fn lemma_coefficient_round_trip()
    ensures
        forall|val: bool| spec_to_bool(#[trigger] Coefficient::Byte(flag_byte(val)).bytes()) == val,
        forall|val: Float32| spec_to_f32(#[trigger] Coefficient::Quadlet(val).bytes()) == val,
        forall|val: Float32| #[trigger] Coefficient::Quadlet(val).bytes().len() == 4,
        forall|val: u8| #[trigger] Coefficient::Byte(val).bytes().len() == 1,
        forall|val: u8| (#[trigger] Coefficient::Byte(val).bytes())[0] == val,
        forall|val: i32|
            -EXACT_INTEGER_MAX <= val <= EXACT_INTEGER_MAX ==> spec_to_i32(
                #[trigger] Coefficient::Quadlet(Float32::spec_from_i32(val)).bytes(),
            ) == val,
        forall|val: u32|
            val <= EXACT_INTEGER_MAX ==> spec_to_u32(
                #[trigger] Coefficient::Quadlet(Float32::spec_from_u32(val)).bytes(),
            ) == val,
{
    assert forall|val: Float32| spec_to_f32(#[trigger] Coefficient::Quadlet(val).bytes()) == val by {
        lemma_bytes_then_quadlet(val.bits);
    }
    assert forall|val: Float32| #[trigger] Coefficient::Quadlet(val).bytes().len() == 4 by {
        lemma_bytes_then_quadlet(val.bits);
    }
    assert forall|val: i32| -EXACT_INTEGER_MAX <= val <= EXACT_INTEGER_MAX implies spec_to_i32(
        #[trigger] Coefficient::Quadlet(Float32::spec_from_i32(val)).bytes(),
    ) == val by {
        lemma_bytes_then_quadlet(Float32::spec_from_i32(val).bits);
        lemma_i32_round_trip(val);
    }
    assert forall|val: u32| val <= EXACT_INTEGER_MAX implies spec_to_u32(
        #[trigger] Coefficient::Quadlet(Float32::spec_from_u32(val)).bytes(),
    ) == val by {
        lemma_bytes_then_quadlet(Float32::spec_from_u32(val).bits);
        lemma_u32_round_trip(val);
    }
}

/// A parameter of the equalizer.
#[derive(Debug, Copy, Clone, Eq, PartialEq, Structural)]
pub enum EqualizerParameter {
    Enable(bool),
    HpfEnable(bool),
    HpfSlope(RollOffLevel),
    HpfFreq(u32),
    LpfEnable(bool),
    LpfSlope(RollOffLevel),
    LpfFreq(u32),
    LfEnable(bool),
    LfType(FilterType5),
    LfFreq(u32),
    LfGain(Float32),
    LfWidth(Float32),
    LmfEnable(bool),
    LmfType(FilterType4),
    LmfFreq(u32),
    LmfGain(Float32),
    LmfWidth(Float32),
    MfEnable(bool),
    MfType(FilterType4),
    MfFreq(u32),
    MfGain(Float32),
    MfWidth(Float32),
    HmfEnable(bool),
    HmfType(FilterType4),
    HmfFreq(u32),
    HmfGain(Float32),
    HmfWidth(Float32),
    HfEnable(bool),
    HfType(FilterType5),
    HfFreq(u32),
    HfGain(Float32),
    HfWidth(Float32),
}

impl EqualizerParameter {
    /// The parameter at the place `(section, third_level)` of the effect with
    /// the coefficient `vals`, if the place is documented and the coefficient
    /// has the width that belongs to it. The sections are: 0 the effect itself, 1 the high pass filter, 2 to 6 the bands from low to high, 7 the low pass filter.
    pub open spec fn spec_parse(section: u8, third_level: u8, vals: Seq<u8>) -> Option<Self> {
        let byte = vals.len() == 1;
        let quadlet = vals.len() == 4;
        if section == 0 && third_level == 0 && byte {
            Some(Self::Enable(spec_to_bool(vals)))
        } else if section == 1 && third_level == 0 && byte {
            Some(Self::HpfEnable(spec_to_bool(vals)))
        } else if section == 1 && third_level == 1 {
            Some(Self::HpfSlope(RollOffLevel::of_byte(vals[0])))
        } else if section == 1 && third_level == 2 && quadlet {
            Some(Self::HpfFreq(spec_to_u32(vals)))
        } else if section == 2 && third_level == 0 && byte {
            Some(Self::LfEnable(spec_to_bool(vals)))
        } else if section == 2 && third_level == 1 {
            Some(Self::LfType(FilterType5::of_byte(vals[0])))
        } else if section == 2 && third_level == 2 && quadlet {
            Some(Self::LfFreq(spec_to_u32(vals)))
        } else if section == 2 && third_level == 3 && quadlet {
            Some(Self::LfGain(spec_to_f32(vals)))
        } else if section == 2 && third_level == 4 && quadlet {
            Some(Self::LfWidth(spec_to_f32(vals)))
        } else if section == 3 && third_level == 0 && byte {
            Some(Self::LmfEnable(spec_to_bool(vals)))
        } else if section == 3 && third_level == 1 {
            Some(Self::LmfType(FilterType4::of_byte(vals[0])))
        } else if section == 3 && third_level == 2 && quadlet {
            Some(Self::LmfFreq(spec_to_u32(vals)))
        } else if section == 3 && third_level == 3 && quadlet {
            Some(Self::LmfGain(spec_to_f32(vals)))
        } else if section == 3 && third_level == 4 && quadlet {
            Some(Self::LmfWidth(spec_to_f32(vals)))
        } else if section == 4 && third_level == 0 && byte {
            Some(Self::MfEnable(spec_to_bool(vals)))
        } else if section == 4 && third_level == 1 {
            Some(Self::MfType(FilterType4::of_byte(vals[0])))
        } else if section == 4 && third_level == 2 && quadlet {
            Some(Self::MfFreq(spec_to_u32(vals)))
        } else if section == 4 && third_level == 3 && quadlet {
            Some(Self::MfGain(spec_to_f32(vals)))
        } else if section == 4 && third_level == 4 && quadlet {
            Some(Self::MfWidth(spec_to_f32(vals)))
        } else if section == 5 && third_level == 0 && byte {
            Some(Self::HmfEnable(spec_to_bool(vals)))
        } else if section == 5 && third_level == 1 {
            Some(Self::HmfType(FilterType4::of_byte(vals[0])))
        } else if section == 5 && third_level == 2 && quadlet {
            Some(Self::HmfFreq(spec_to_u32(vals)))
        } else if section == 5 && third_level == 3 && quadlet {
            Some(Self::HmfGain(spec_to_f32(vals)))
        } else if section == 5 && third_level == 4 && quadlet {
            Some(Self::HmfWidth(spec_to_f32(vals)))
        } else if section == 6 && third_level == 0 && byte {
            Some(Self::HfEnable(spec_to_bool(vals)))
        } else if section == 6 && third_level == 1 {
            Some(Self::HfType(FilterType5::of_byte(vals[0])))
        } else if section == 6 && third_level == 2 && quadlet {
            Some(Self::HfFreq(spec_to_u32(vals)))
        } else if section == 6 && third_level == 3 && quadlet {
            Some(Self::HfGain(spec_to_f32(vals)))
        } else if section == 6 && third_level == 4 && quadlet {
            Some(Self::HfWidth(spec_to_f32(vals)))
        } else if section == 7 && third_level == 0 && byte {
            Some(Self::LpfEnable(spec_to_bool(vals)))
        } else if section == 7 && third_level == 1 {
            Some(Self::LpfSlope(RollOffLevel::of_byte(vals[0])))
        } else if section == 7 && third_level == 2 && quadlet {
            Some(Self::LpfFreq(spec_to_u32(vals)))
        } else {
            None
        }
    }

    /// The place of the parameter in the effect: its section and third level.
    pub open spec fn spec_position(self) -> (u8, u8) {
        match self {
            Self::Enable(_) => (0, 0),
            Self::HpfEnable(_) => (1, 0),
            Self::HpfSlope(_) => (1, 1),
            Self::HpfFreq(_) => (1, 2),
            Self::LpfEnable(_) => (7, 0),
            Self::LpfSlope(_) => (7, 1),
            Self::LpfFreq(_) => (7, 2),
            Self::LfEnable(_) => (2, 0),
            Self::LfType(_) => (2, 1),
            Self::LfFreq(_) => (2, 2),
            Self::LfGain(_) => (2, 3),
            Self::LfWidth(_) => (2, 4),
            Self::LmfEnable(_) => (3, 0),
            Self::LmfType(_) => (3, 1),
            Self::LmfFreq(_) => (3, 2),
            Self::LmfGain(_) => (3, 3),
            Self::LmfWidth(_) => (3, 4),
            Self::MfEnable(_) => (4, 0),
            Self::MfType(_) => (4, 1),
            Self::MfFreq(_) => (4, 2),
            Self::MfGain(_) => (4, 3),
            Self::MfWidth(_) => (4, 4),
            Self::HmfEnable(_) => (5, 0),
            Self::HmfType(_) => (5, 1),
            Self::HmfFreq(_) => (5, 2),
            Self::HmfGain(_) => (5, 3),
            Self::HmfWidth(_) => (5, 4),
            Self::HfEnable(_) => (6, 0),
            Self::HfType(_) => (6, 1),
            Self::HfFreq(_) => (6, 2),
            Self::HfGain(_) => (6, 3),
            Self::HfWidth(_) => (6, 4),
        }
    }

    /// The coefficient that carries the parameter's value.
    pub open spec fn spec_coefficient(self) -> Coefficient {
        match self {
            Self::Enable(val) => Coefficient::Byte(flag_byte(val)),
            Self::HpfEnable(val) => Coefficient::Byte(flag_byte(val)),
            Self::HpfSlope(val) => Coefficient::Byte(val.byte()),
            Self::HpfFreq(val) => Coefficient::Quadlet(Float32::spec_from_u32(val)),
            Self::LpfEnable(val) => Coefficient::Byte(flag_byte(val)),
            Self::LpfSlope(val) => Coefficient::Byte(val.byte()),
            Self::LpfFreq(val) => Coefficient::Quadlet(Float32::spec_from_u32(val)),
            Self::LfEnable(val) => Coefficient::Byte(flag_byte(val)),
            Self::LfType(val) => Coefficient::Byte(val.byte()),
            Self::LfFreq(val) => Coefficient::Quadlet(Float32::spec_from_u32(val)),
            Self::LfGain(val) => Coefficient::Quadlet(val),
            Self::LfWidth(val) => Coefficient::Quadlet(val),
            Self::LmfEnable(val) => Coefficient::Byte(flag_byte(val)),
            Self::LmfType(val) => Coefficient::Byte(val.byte()),
            Self::LmfFreq(val) => Coefficient::Quadlet(Float32::spec_from_u32(val)),
            Self::LmfGain(val) => Coefficient::Quadlet(val),
            Self::LmfWidth(val) => Coefficient::Quadlet(val),
            Self::MfEnable(val) => Coefficient::Byte(flag_byte(val)),
            Self::MfType(val) => Coefficient::Byte(val.byte()),
            Self::MfFreq(val) => Coefficient::Quadlet(Float32::spec_from_u32(val)),
            Self::MfGain(val) => Coefficient::Quadlet(val),
            Self::MfWidth(val) => Coefficient::Quadlet(val),
            Self::HmfEnable(val) => Coefficient::Byte(flag_byte(val)),
            Self::HmfType(val) => Coefficient::Byte(val.byte()),
            Self::HmfFreq(val) => Coefficient::Quadlet(Float32::spec_from_u32(val)),
            Self::HmfGain(val) => Coefficient::Quadlet(val),
            Self::HmfWidth(val) => Coefficient::Quadlet(val),
            Self::HfEnable(val) => Coefficient::Byte(flag_byte(val)),
            Self::HfType(val) => Coefficient::Byte(val.byte()),
            Self::HfFreq(val) => Coefficient::Quadlet(Float32::spec_from_u32(val)),
            Self::HfGain(val) => Coefficient::Quadlet(val),
            Self::HfWidth(val) => Coefficient::Quadlet(val),
        }
    }

    /// Holds where the value is one that its coefficient carries without loss.
    pub open spec fn is_canonical(self) -> bool {
        match self {
            Self::HpfSlope(val) => val.is_canonical(),
            Self::HpfFreq(val) => val <= EXACT_INTEGER_MAX,
            Self::LpfSlope(val) => val.is_canonical(),
            Self::LpfFreq(val) => val <= EXACT_INTEGER_MAX,
            Self::LfType(val) => val.is_canonical(),
            Self::LfFreq(val) => val <= EXACT_INTEGER_MAX,
            Self::LmfType(val) => val.is_canonical(),
            Self::LmfFreq(val) => val <= EXACT_INTEGER_MAX,
            Self::MfType(val) => val.is_canonical(),
            Self::MfFreq(val) => val <= EXACT_INTEGER_MAX,
            Self::HmfType(val) => val.is_canonical(),
            Self::HmfFreq(val) => val <= EXACT_INTEGER_MAX,
            Self::HfType(val) => val.is_canonical(),
            Self::HfFreq(val) => val <= EXACT_INTEGER_MAX,
            _ => true,
        }
    }

    pub fn parse(section: u8, third_level: u8, vals: &[u8]) -> (param: Option<Self>)
        requires
            vals@.len() == 1 || vals@.len() == 4,
        ensures
            param == Self::spec_parse(section, third_level, vals@),
    {
        let byte = vals.len() == 1;
        let quadlet = vals.len() == 4;
        if section == 0 && third_level == 0 && byte {
            Some(Self::Enable(to_bool(vals)))
        } else if section == 1 && third_level == 0 && byte {
            Some(Self::HpfEnable(to_bool(vals)))
        } else if section == 1 && third_level == 1 {
            Some(Self::HpfSlope(RollOffLevel::from(vals[0])))
        } else if section == 1 && third_level == 2 && quadlet {
            Some(Self::HpfFreq(to_u32(vals)))
        } else if section == 2 && third_level == 0 && byte {
            Some(Self::LfEnable(to_bool(vals)))
        } else if section == 2 && third_level == 1 {
            Some(Self::LfType(FilterType5::from(vals[0])))
        } else if section == 2 && third_level == 2 && quadlet {
            Some(Self::LfFreq(to_u32(vals)))
        } else if section == 2 && third_level == 3 && quadlet {
            Some(Self::LfGain(to_f32(vals)))
        } else if section == 2 && third_level == 4 && quadlet {
            Some(Self::LfWidth(to_f32(vals)))
        } else if section == 3 && third_level == 0 && byte {
            Some(Self::LmfEnable(to_bool(vals)))
        } else if section == 3 && third_level == 1 {
            Some(Self::LmfType(FilterType4::from(vals[0])))
        } else if section == 3 && third_level == 2 && quadlet {
            Some(Self::LmfFreq(to_u32(vals)))
        } else if section == 3 && third_level == 3 && quadlet {
            Some(Self::LmfGain(to_f32(vals)))
        } else if section == 3 && third_level == 4 && quadlet {
            Some(Self::LmfWidth(to_f32(vals)))
        } else if section == 4 && third_level == 0 && byte {
            Some(Self::MfEnable(to_bool(vals)))
        } else if section == 4 && third_level == 1 {
            Some(Self::MfType(FilterType4::from(vals[0])))
        } else if section == 4 && third_level == 2 && quadlet {
            Some(Self::MfFreq(to_u32(vals)))
        } else if section == 4 && third_level == 3 && quadlet {
            Some(Self::MfGain(to_f32(vals)))
        } else if section == 4 && third_level == 4 && quadlet {
            Some(Self::MfWidth(to_f32(vals)))
        } else if section == 5 && third_level == 0 && byte {
            Some(Self::HmfEnable(to_bool(vals)))
        } else if section == 5 && third_level == 1 {
            Some(Self::HmfType(FilterType4::from(vals[0])))
        } else if section == 5 && third_level == 2 && quadlet {
            Some(Self::HmfFreq(to_u32(vals)))
        } else if section == 5 && third_level == 3 && quadlet {
            Some(Self::HmfGain(to_f32(vals)))
        } else if section == 5 && third_level == 4 && quadlet {
            Some(Self::HmfWidth(to_f32(vals)))
        } else if section == 6 && third_level == 0 && byte {
            Some(Self::HfEnable(to_bool(vals)))
        } else if section == 6 && third_level == 1 {
            Some(Self::HfType(FilterType5::from(vals[0])))
        } else if section == 6 && third_level == 2 && quadlet {
            Some(Self::HfFreq(to_u32(vals)))
        } else if section == 6 && third_level == 3 && quadlet {
            Some(Self::HfGain(to_f32(vals)))
        } else if section == 6 && third_level == 4 && quadlet {
            Some(Self::HfWidth(to_f32(vals)))
        } else if section == 7 && third_level == 0 && byte {
            Some(Self::LpfEnable(to_bool(vals)))
        } else if section == 7 && third_level == 1 {
            Some(Self::LpfSlope(RollOffLevel::from(vals[0])))
        } else if section == 7 && third_level == 2 && quadlet {
            Some(Self::LpfFreq(to_u32(vals)))
        } else {
            None
        }
    }

    pub fn position(&self) -> (place: (u8, u8))
        ensures
            place == self.spec_position(),
    {
        match self {
            Self::Enable(_) => (0, 0),
            Self::HpfEnable(_) => (1, 0),
            Self::HpfSlope(_) => (1, 1),
            Self::HpfFreq(_) => (1, 2),
            Self::LpfEnable(_) => (7, 0),
            Self::LpfSlope(_) => (7, 1),
            Self::LpfFreq(_) => (7, 2),
            Self::LfEnable(_) => (2, 0),
            Self::LfType(_) => (2, 1),
            Self::LfFreq(_) => (2, 2),
            Self::LfGain(_) => (2, 3),
            Self::LfWidth(_) => (2, 4),
            Self::LmfEnable(_) => (3, 0),
            Self::LmfType(_) => (3, 1),
            Self::LmfFreq(_) => (3, 2),
            Self::LmfGain(_) => (3, 3),
            Self::LmfWidth(_) => (3, 4),
            Self::MfEnable(_) => (4, 0),
            Self::MfType(_) => (4, 1),
            Self::MfFreq(_) => (4, 2),
            Self::MfGain(_) => (4, 3),
            Self::MfWidth(_) => (4, 4),
            Self::HmfEnable(_) => (5, 0),
            Self::HmfType(_) => (5, 1),
            Self::HmfFreq(_) => (5, 2),
            Self::HmfGain(_) => (5, 3),
            Self::HmfWidth(_) => (5, 4),
            Self::HfEnable(_) => (6, 0),
            Self::HfType(_) => (6, 1),
            Self::HfFreq(_) => (6, 2),
            Self::HfGain(_) => (6, 3),
            Self::HfWidth(_) => (6, 4),
        }
    }

    pub fn coefficient(&self) -> (coef: Coefficient)
        ensures
            coef == self.spec_coefficient(),
    {
        match self {
            Self::Enable(val) => Coefficient::Byte(bool_to_u8(*val)),
            Self::HpfEnable(val) => Coefficient::Byte(bool_to_u8(*val)),
            Self::HpfSlope(val) => Coefficient::Byte(u8::from(*val)),
            Self::HpfFreq(val) => Coefficient::Quadlet(Float32::from_u32(*val)),
            Self::LpfEnable(val) => Coefficient::Byte(bool_to_u8(*val)),
            Self::LpfSlope(val) => Coefficient::Byte(u8::from(*val)),
            Self::LpfFreq(val) => Coefficient::Quadlet(Float32::from_u32(*val)),
            Self::LfEnable(val) => Coefficient::Byte(bool_to_u8(*val)),
            Self::LfType(val) => Coefficient::Byte(u8::from(*val)),
            Self::LfFreq(val) => Coefficient::Quadlet(Float32::from_u32(*val)),
            Self::LfGain(val) => Coefficient::Quadlet(*val),
            Self::LfWidth(val) => Coefficient::Quadlet(*val),
            Self::LmfEnable(val) => Coefficient::Byte(bool_to_u8(*val)),
            Self::LmfType(val) => Coefficient::Byte(u8::from(*val)),
            Self::LmfFreq(val) => Coefficient::Quadlet(Float32::from_u32(*val)),
            Self::LmfGain(val) => Coefficient::Quadlet(*val),
            Self::LmfWidth(val) => Coefficient::Quadlet(*val),
            Self::MfEnable(val) => Coefficient::Byte(bool_to_u8(*val)),
            Self::MfType(val) => Coefficient::Byte(u8::from(*val)),
            Self::MfFreq(val) => Coefficient::Quadlet(Float32::from_u32(*val)),
            Self::MfGain(val) => Coefficient::Quadlet(*val),
            Self::MfWidth(val) => Coefficient::Quadlet(*val),
            Self::HmfEnable(val) => Coefficient::Byte(bool_to_u8(*val)),
            Self::HmfType(val) => Coefficient::Byte(u8::from(*val)),
            Self::HmfFreq(val) => Coefficient::Quadlet(Float32::from_u32(*val)),
            Self::HmfGain(val) => Coefficient::Quadlet(*val),
            Self::HmfWidth(val) => Coefficient::Quadlet(*val),
            Self::HfEnable(val) => Coefficient::Byte(bool_to_u8(*val)),
            Self::HfType(val) => Coefficient::Byte(u8::from(*val)),
            Self::HfFreq(val) => Coefficient::Quadlet(Float32::from_u32(*val)),
            Self::HfGain(val) => Coefficient::Quadlet(*val),
            Self::HfWidth(val) => Coefficient::Quadlet(*val),
        }
    }

    /// A canonical parameter is read back from its place and coefficient.
    pub proof fn lemma_round_trip(self)
        requires
            self.is_canonical(),
        ensures
            Self::spec_parse(
                self.spec_position().0,
                self.spec_position().1,
                self.spec_coefficient().bytes(),
            ) == Some(self),
            self.spec_position().0 < 8,
    {
        lemma_coefficient_round_trip();
    }
}

/// A parameter of the dynamics effect.
#[derive(Debug, Copy, Clone, Eq, PartialEq, Structural)]
pub enum DynamicsParameter {
    Enable(bool),
    CompEnable(bool),
    CompDetectMode(LevelDetectMode),
    CompThreshold(i32),
    CompRatio(Float32),
    CompAttack(u32),
    CompRelease(u32),
    CompGain(Float32),
    LevelerEnable(bool),
    LevelerMode(LevelerMode),
    LevelerMakeup(u32),
    LevelerReduce(u32),
}

impl DynamicsParameter {
    /// The parameter at the place `(section, third_level)` of the effect with
    /// the coefficient `vals`, if the place is documented and the coefficient
    /// has the width that belongs to it. The sections are: 0 the effect itself, 1 the compressor, 2 the leveler.
    pub open spec fn spec_parse(section: u8, third_level: u8, vals: Seq<u8>) -> Option<Self> {
        let byte = vals.len() == 1;
        let quadlet = vals.len() == 4;
        if section == 0 && third_level == 0 && byte {
            Some(Self::Enable(spec_to_bool(vals)))
        } else if section == 1 && third_level == 0 && byte {
            Some(Self::CompEnable(spec_to_bool(vals)))
        } else if section == 1 && third_level == 1 && quadlet {
            Some(Self::CompThreshold(spec_to_i32(vals)))
        } else if section == 1 && third_level == 2 && quadlet {
            Some(Self::CompRatio(spec_to_f32(vals)))
        } else if section == 1 && third_level == 3 && quadlet {
            Some(Self::CompAttack(spec_to_u32(vals)))
        } else if section == 1 && third_level == 4 && quadlet {
            Some(Self::CompRelease(spec_to_u32(vals)))
        } else if section == 1 && third_level == 5 && quadlet {
            Some(Self::CompGain(spec_to_f32(vals)))
        } else if section == 1 && third_level == 6 {
            Some(Self::CompDetectMode(LevelDetectMode::of_byte(vals[0])))
        } else if section == 2 && third_level == 0 && byte {
            Some(Self::LevelerEnable(spec_to_bool(vals)))
        } else if section == 2 && third_level == 1 {
            Some(Self::LevelerMode(LevelerMode::of_byte(vals[0])))
        } else if section == 2 && third_level == 2 && quadlet {
            Some(Self::LevelerMakeup(spec_to_u32(vals)))
        } else if section == 2 && third_level == 3 && quadlet {
            Some(Self::LevelerReduce(spec_to_u32(vals)))
        } else {
            None
        }
    }

    /// The place of the parameter in the effect: its section and third level.
    pub open spec fn spec_position(self) -> (u8, u8) {
        match self {
            Self::Enable(_) => (0, 0),
            Self::CompEnable(_) => (1, 0),
            Self::CompDetectMode(_) => (1, 6),
            Self::CompThreshold(_) => (1, 1),
            Self::CompRatio(_) => (1, 2),
            Self::CompAttack(_) => (1, 3),
            Self::CompRelease(_) => (1, 4),
            Self::CompGain(_) => (1, 5),
            Self::LevelerEnable(_) => (2, 0),
            Self::LevelerMode(_) => (2, 1),
            Self::LevelerMakeup(_) => (2, 2),
            Self::LevelerReduce(_) => (2, 3),
        }
    }

    /// The coefficient that carries the parameter's value.
    pub open spec fn spec_coefficient(self) -> Coefficient {
        match self {
            Self::Enable(val) => Coefficient::Byte(flag_byte(val)),
            Self::CompEnable(val) => Coefficient::Byte(flag_byte(val)),
            Self::CompDetectMode(val) => Coefficient::Byte(val.byte()),
            Self::CompThreshold(val) => Coefficient::Quadlet(Float32::spec_from_i32(val)),
            Self::CompRatio(val) => Coefficient::Quadlet(val),
            Self::CompAttack(val) => Coefficient::Quadlet(Float32::spec_from_u32(val)),
            Self::CompRelease(val) => Coefficient::Quadlet(Float32::spec_from_u32(val)),
            Self::CompGain(val) => Coefficient::Quadlet(val),
            Self::LevelerEnable(val) => Coefficient::Byte(flag_byte(val)),
            Self::LevelerMode(val) => Coefficient::Byte(val.byte()),
            Self::LevelerMakeup(val) => Coefficient::Quadlet(Float32::spec_from_u32(val)),
            Self::LevelerReduce(val) => Coefficient::Quadlet(Float32::spec_from_u32(val)),
        }
    }

    /// Holds where the value is one that its coefficient carries without loss.
    pub open spec fn is_canonical(self) -> bool {
        match self {
            Self::CompDetectMode(val) => val.is_canonical(),
            Self::CompThreshold(val) => -EXACT_INTEGER_MAX <= val <= EXACT_INTEGER_MAX,
            Self::CompAttack(val) => val <= EXACT_INTEGER_MAX,
            Self::CompRelease(val) => val <= EXACT_INTEGER_MAX,
            Self::LevelerMode(val) => val.is_canonical(),
            Self::LevelerMakeup(val) => val <= EXACT_INTEGER_MAX,
            Self::LevelerReduce(val) => val <= EXACT_INTEGER_MAX,
            _ => true,
        }
    }

    pub fn parse(section: u8, third_level: u8, vals: &[u8]) -> (param: Option<Self>)
        requires
            vals@.len() == 1 || vals@.len() == 4,
        ensures
            param == Self::spec_parse(section, third_level, vals@),
    {
        let byte = vals.len() == 1;
        let quadlet = vals.len() == 4;
        if section == 0 && third_level == 0 && byte {
            Some(Self::Enable(to_bool(vals)))
        } else if section == 1 && third_level == 0 && byte {
            Some(Self::CompEnable(to_bool(vals)))
        } else if section == 1 && third_level == 1 && quadlet {
            Some(Self::CompThreshold(to_i32(vals)))
        } else if section == 1 && third_level == 2 && quadlet {
            Some(Self::CompRatio(to_f32(vals)))
        } else if section == 1 && third_level == 3 && quadlet {
            Some(Self::CompAttack(to_u32(vals)))
        } else if section == 1 && third_level == 4 && quadlet {
            Some(Self::CompRelease(to_u32(vals)))
        } else if section == 1 && third_level == 5 && quadlet {
            Some(Self::CompGain(to_f32(vals)))
        } else if section == 1 && third_level == 6 {
            Some(Self::CompDetectMode(LevelDetectMode::from(vals[0])))
        } else if section == 2 && third_level == 0 && byte {
            Some(Self::LevelerEnable(to_bool(vals)))
        } else if section == 2 && third_level == 1 {
            Some(Self::LevelerMode(LevelerMode::from(vals[0])))
        } else if section == 2 && third_level == 2 && quadlet {
            Some(Self::LevelerMakeup(to_u32(vals)))
        } else if section == 2 && third_level == 3 && quadlet {
            Some(Self::LevelerReduce(to_u32(vals)))
        } else {
            None
        }
    }

    pub fn position(&self) -> (place: (u8, u8))
        ensures
            place == self.spec_position(),
    {
        match self {
            Self::Enable(_) => (0, 0),
            Self::CompEnable(_) => (1, 0),
            Self::CompDetectMode(_) => (1, 6),
            Self::CompThreshold(_) => (1, 1),
            Self::CompRatio(_) => (1, 2),
            Self::CompAttack(_) => (1, 3),
            Self::CompRelease(_) => (1, 4),
            Self::CompGain(_) => (1, 5),
            Self::LevelerEnable(_) => (2, 0),
            Self::LevelerMode(_) => (2, 1),
            Self::LevelerMakeup(_) => (2, 2),
            Self::LevelerReduce(_) => (2, 3),
        }
    }

    pub fn coefficient(&self) -> (coef: Coefficient)
        ensures
            coef == self.spec_coefficient(),
    {
        match self {
            Self::Enable(val) => Coefficient::Byte(bool_to_u8(*val)),
            Self::CompEnable(val) => Coefficient::Byte(bool_to_u8(*val)),
            Self::CompDetectMode(val) => Coefficient::Byte(u8::from(*val)),
            Self::CompThreshold(val) => Coefficient::Quadlet(Float32::from_i32(*val)),
            Self::CompRatio(val) => Coefficient::Quadlet(*val),
            Self::CompAttack(val) => Coefficient::Quadlet(Float32::from_u32(*val)),
            Self::CompRelease(val) => Coefficient::Quadlet(Float32::from_u32(*val)),
            Self::CompGain(val) => Coefficient::Quadlet(*val),
            Self::LevelerEnable(val) => Coefficient::Byte(bool_to_u8(*val)),
            Self::LevelerMode(val) => Coefficient::Byte(u8::from(*val)),
            Self::LevelerMakeup(val) => Coefficient::Quadlet(Float32::from_u32(*val)),
            Self::LevelerReduce(val) => Coefficient::Quadlet(Float32::from_u32(*val)),
        }
    }

    /// A canonical parameter is read back from its place and coefficient.
    pub proof fn lemma_round_trip(self)
        requires
            self.is_canonical(),
        ensures
            Self::spec_parse(
                self.spec_position().0,
                self.spec_position().1,
                self.spec_coefficient().bytes(),
            ) == Some(self),
            self.spec_position().0 < 3,
    {
        lemma_coefficient_round_trip();
    }
}

impl EqualizerParameter {
    pub const FREQ_MIN: u32 = 20;

    pub const FREQ_MAX: u32 = 20000;

    pub const FREQ_STEP: u32 = 1;

    /// The least gain, -20.0, as the pattern of its number.
    pub const GAIN_MIN: u32 = 0xc1a0_0000;

    /// The largest gain, 20.0, as the pattern of its number.
    pub const GAIN_MAX: u32 = 0x41a0_0000;

    /// The least width, 0.01, as the pattern of its number.
    pub const WIDTH_MIN: u32 = 0x3c23_d70a;

    /// The largest width, 3.0, as the pattern of its number.
    pub const WIDTH_MAX: u32 = 0x4040_0000;
}

impl DynamicsParameter {
    pub const THRESHOLD_MIN: i32 = -48;

    pub const THRESHOLD_MAX: i32 = 0;

    pub const THRESHOLD_STEP: i32 = 1;

    /// The least ratio, 1.0, as the pattern of its number.
    pub const RATIO_MIN: u32 = 0x3f80_0000;

    /// The largest ratio, 10.0, as the pattern of its number.
    pub const RATIO_MAX: u32 = 0x4120_0000;

    pub const ATTACK_MIN: i32 = 10;

    pub const ATTACK_MAX: i32 = 100;

    pub const ATTACK_STEP: i32 = 1;

    pub const RELEASE_MIN: i32 = 10;

    pub const RELEASE_MAX: i32 = 100;

    pub const RELEASE_STEP: i32 = 1;

    /// The least gain, -6.0, as the pattern of its number.
    pub const GAIN_MIN: u32 = 0xc0c0_0000;

    /// The largest gain, 0.0, as the pattern of its number.
    pub const GAIN_MAX: u32 = 0x0000_0000;

    pub const PERCENTAGE_MIN: u32 = 0;

    pub const PERCENTAGE_MAX: u32 = 100;

    pub const PERCENTAGE_STEP: u32 = 1;
}

} // verus!
