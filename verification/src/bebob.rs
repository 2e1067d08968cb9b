//! Protocols of units with BeBoB solution: Yamaha Go and Terratec Phase 24 FW series.
//!
//! The units are operated by AV/C commands to function blocks of their audio
//! subunit. This module holds which function blocks and plugs the commands
//! of each model address, and the levels that stand for the nominal levels of
//! the physical input.

use vstd::prelude::*;

verus! {

/// Function block of the selector of the source of sampling clock.
pub const CLK_SRC_FB_ID: u8 = 0x04;

/// Function block of the nominal level of physical input.
pub const INPUT_NOMINAL_LEVEL_FB_ID: u8 = 0x02;

/// The count of nominal levels of physical input.
pub const INPUT_NOMINAL_LEVEL_COUNT: usize = 3;

/// The protocol implementation of media and sampling clock for Yamaha Go 44/46 and PHASE 24/X24 FW;
#[derive(Debug)]
pub struct GoPhase24ClkProtocol;

/// The protocol implementation of physical input for coaxial models.
#[derive(Debug)]
pub struct GoPhase24CoaxPhysInputProtocol;

/// The protocol implementation of physical output for coaxial models.
#[derive(Debug)]
pub struct GoPhase24CoaxPhysOutputProtocol;

/// The protocol implementation of physical output for optical models.
#[derive(Debug)]
pub struct GoPhase24OptPhysOutputProtocol;

/// The protocol implementation of mixer source gain for coaxial model.
#[derive(Debug)]
pub struct GoPhase24CoaxHeadphoneProtocol;

/// The protocol implementation of mixer source gain.
#[derive(Debug)]
pub struct GoPhase24MixerSourceProtocol;

/// The protocol implementation of mixer output volume for coaxial models.
#[derive(Debug)]
pub struct GoPhase24CoaxMixerOutputProtocol;

/// The protocol implementation of mixer output volume for optical models.
#[derive(Debug)]
pub struct GoPhase24OptMixerOutputProtocol;

/// Why a selector is not read or written.
#[derive(Debug, Copy, Clone, Eq, PartialEq, Structural)]
pub enum SelectorError {
    /// The selector has no such index.
    InvalidIndex,
    /// The selector has no such value.
    InvalidValue,
    /// The unit reports a level that stands for no nominal level.
    UnexpectedLevel,
}

/// The level that stands for the nominal level at place `val`.
pub open spec fn spec_input_nominal_level(val: int) -> i16 {
    if val == 0 {
        -0x0c00i16
    } else if val == 1 {
        -0x0300i16
    } else {
        0i16
    }
}

impl GoPhase24ClkProtocol {
    /// The frequencies of the media clock.
    pub fn freq_list() -> (freqs: [u32; 5])
        ensures
            freqs@ == seq![44100u32, 48000u32, 88200u32, 96000u32, 192000u32],
    {
        let freqs: [u32; 5] = [44100, 48000, 88200, 96000, 192000];
        assert(freqs@ =~= seq![44100u32, 48000u32, 88200u32, 96000u32, 192000u32]);
        freqs
    }

    /// The plug that the selector of the source of sampling clock is set to
    /// for the source at place `val`.
    pub fn write_clk_src(val: usize) -> (plug_id: u8)
        ensures
            plug_id == val % 0x100,
    {
        (val % 0x100) as u8
    }

    /// The place of the source of sampling clock for the plug that the
    /// selector reports.
    pub fn read_clk_src(input_plug_id: u8) -> (val: usize)
        ensures
            val == input_plug_id,
    {
        input_plug_id as usize
    }
}

impl GoPhase24CoaxPhysInputProtocol {
    /// The level to write for the nominal level at place `val` of the
    /// selector `idx`. There is one selector and there are three levels.
    pub fn write_selector(idx: usize, val: usize) -> (result: Result<i16, SelectorError>)
        ensures
            idx > 0 ==> result == Err::<i16, SelectorError>(SelectorError::InvalidIndex),
            idx == 0 && val >= INPUT_NOMINAL_LEVEL_COUNT ==> result == Err::<i16, SelectorError>(
                SelectorError::InvalidValue,
            ),
            idx == 0 && val < INPUT_NOMINAL_LEVEL_COUNT ==> result == Ok::<i16, SelectorError>(
                spec_input_nominal_level(val as int),
            ),
    {
        if idx > 0 {
            Err(SelectorError::InvalidIndex)
        } else if val == 0 {
            Ok(-0x0c00)
        } else if val == 1 {
            Ok(-0x0300)
        } else if val == 2 {
            Ok(0)
        } else {
            Err(SelectorError::InvalidValue)
        }
    }

    /// The place of the nominal level for the level `level` that the unit
    /// reports for the selector `idx`.
    pub fn read_selector(idx: usize, level: i16) -> (result: Result<usize, SelectorError>)
        ensures
            idx > 0 ==> result == Err::<usize, SelectorError>(SelectorError::InvalidIndex),
            idx == 0 ==> (result is Ok <==> exists|val: int|
                0 <= val < INPUT_NOMINAL_LEVEL_COUNT && spec_input_nominal_level(val) == level),
            result is Ok ==> result->Ok_0 < INPUT_NOMINAL_LEVEL_COUNT && spec_input_nominal_level(
                result->Ok_0 as int,
            ) == level,
            idx == 0 && !(result is Ok) ==> result == Err::<usize, SelectorError>(
                SelectorError::UnexpectedLevel,
            ),
    {
        if idx > 0 {
            Err(SelectorError::InvalidIndex)
        } else if level == -0x0c00 {
            assert(spec_input_nominal_level(0) == level);
            Ok(0)
        } else if level == -0x0300 {
            assert(spec_input_nominal_level(1) == level);
            Ok(1)
        } else if level == 0 {
            assert(spec_input_nominal_level(2) == level);
            Ok(2)
        } else {
            Err(SelectorError::UnexpectedLevel)
        }
    }
}

} // verus!
