//! Protocols of RME Fireface series.

pub mod ff400;

use vstd::prelude::*;

verus! {

/// Nominal frequency of the sampling clock.
#[derive(Debug, Copy, Clone, Eq, PartialEq, Structural)]
pub enum ClkNominalRate {
    R32000,
    R44100,
    R48000,
    R64000,
    R88200,
    R96000,
    R128000,
    R176400,
    R192000,
}

impl Default for ClkNominalRate {
    fn default() -> (rate: Self)
        ensures
            rate == ClkNominalRate::R44100,
    {
        Self::R44100
    }
}

/// Interface of S/PDIF signal.
#[derive(Debug, Copy, Clone, Eq, PartialEq, Structural)]
pub enum SpdifIface {
    Coaxial,
    Optical,
}

impl Default for SpdifIface {
    fn default() -> (iface: Self)
        ensures
            iface == SpdifIface::Coaxial,
    {
        Self::Coaxial
    }
}

/// Configuration of S/PDIF input.
#[derive(Debug, Copy, Clone, Eq, PartialEq, Structural)]
pub struct SpdifInput {
    /// The interface of S/PDIF signal.
    pub iface: SpdifIface,
    /// Whether to deliver preemble information by corresponding audio data channel of tx stream.
    pub use_preemble: bool,
}

impl Default for SpdifInput {
    fn default() -> (input: Self)
        ensures
            input == (SpdifInput { iface: SpdifIface::Coaxial, use_preemble: false }),
    {
        SpdifInput { iface: SpdifIface::Coaxial, use_preemble: false }
    }
}

/// Format of S/PDIF signal.
#[derive(Debug, Copy, Clone, Eq, PartialEq, Structural)]
pub enum SpdifFormat {
    Consumer,
    Professional,
}

impl Default for SpdifFormat {
    fn default() -> (format: Self)
        ensures
            format == SpdifFormat::Consumer,
    {
        Self::Consumer
    }
}

/// Configuration of S/PDIF output of the former models.
#[derive(Debug, Copy, Clone, Eq, PartialEq, Structural)]
pub struct FormerSpdifOutput {
    /// The format of S/PDIF signal.
    pub format: SpdifFormat,
    /// Whether to boost signal.
    pub emphasis: bool,
    /// Whether to transfer non-audio bit in preemble.
    pub non_audio: bool,
}

impl Default for FormerSpdifOutput {
    fn default() -> (output: Self)
        ensures
            output == (FormerSpdifOutput {
                format: SpdifFormat::Consumer,
                emphasis: false,
                non_audio: false,
            }),
    {
        FormerSpdifOutput { format: SpdifFormat::Consumer, emphasis: false, non_audio: false }
    }
}

/// Type of signal of the optical output interface.
#[derive(Debug, Copy, Clone, Eq, PartialEq, Structural)]
pub enum OpticalOutputSignal {
    Adat,
    Spdif,
}

impl Default for OpticalOutputSignal {
    fn default() -> (signal: Self)
        ensures
            signal == OpticalOutputSignal::Adat,
    {
        Self::Adat
    }
}

/// Nominal level of line outputs.
#[derive(Debug, Copy, Clone, Eq, PartialEq, Structural)]
pub enum LineOutNominalLevel {
    High,
    /// -10 dBV.
    Consumer,
    /// +4 dBu.
    Professional,
}

impl Default for LineOutNominalLevel {
    fn default() -> (level: Self)
        ensures
            level == LineOutNominalLevel::High,
    {
        Self::High
    }
}

/// Nominal level of line inputs of the former models.
#[derive(Debug, Copy, Clone, Eq, PartialEq, Structural)]
pub enum FormerLineInNominalLevel {
    Low,
    /// -10 dBV.
    Consumer,
    /// +4 dBu.
    Professional,
}

impl Default for FormerLineInNominalLevel {
    fn default() -> (level: Self)
        ensures
            level == FormerLineInNominalLevel::Low,
    {
        Self::Low
    }
}

} // verus!
