//! Protocol extension defined by TCAT for ASICs of DICE.

pub mod current_config_section;
pub mod mixer_section;

use vstd::prelude::*;

verus! {

/// The mode of sampling rate, by which the unit selects a configuration.
#[derive(Debug, Copy, Clone, Eq, PartialEq, Structural)]
pub enum RateMode {
    /// Up to 48.0 kHz.
    Low,
    /// Up to 96.0 kHz.
    Middle,
    /// Up to 192.0 kHz.
    High,
}

/// What the unit reports of its mixer.
#[derive(Debug, Copy, Clone, Eq, PartialEq, Structural)]
pub struct MixerCaps {
    /// Whether the mixer is available.
    pub is_exposed: bool,
    /// Whether the coefficients of the mixer can not be changed.
    pub is_readonly: bool,
    /// The count of inputs of the mixer.
    pub input_count: u8,
    /// The count of outputs of the mixer.
    pub output_count: u8,
}

/// The value of the quadlet that four bytes hold, most significant first.
pub open spec fn spec_be_quadlet(data: Seq<u8>) -> u32 {
    (data[0] * 0x100_0000 + data[1] * 0x1_0000 + data[2] * 0x100 + data[3]) as u32
}

/// The value of the quadlet that four bytes hold, most significant first.
pub fn be_quadlet(data: &[u8; 4]) -> (val: u32)
    ensures
        val == spec_be_quadlet(data@),
{
    (data[0] as u32) * 0x100_0000 + (data[1] as u32) * 0x1_0000 + (data[2] as u32) * 0x100
        + (data[3] as u32)
}

/// The four bytes that hold the quadlet `val`, most significant first.
pub fn be_bytes(val: u32) -> (data: [u8; 4])
    ensures
        spec_be_quadlet(data@) == val,
{
    let data: [u8; 4] = [
        (val / 0x100_0000) as u8,
        ((val / 0x1_0000) % 0x100) as u8,
        ((val / 0x100) % 0x100) as u8,
        (val % 0x100) as u8,
    ];
    data
}

} // verus!
