//! Protocol defined by RME GmbH for Fireface 400.
//!
//! The status of the unit is read from two quadlets, its configuration is
//! written to three. The fields of the quadlets are given by the masks and
//! flags of this module.

use vstd::prelude::*;
use super::{
    ClkNominalRate, FormerLineInNominalLevel, FormerSpdifOutput, LineOutNominalLevel,
    OpticalOutputSignal, SpdifFormat, SpdifIface, SpdifInput,
};

verus! {

// For the first quadlet of status.
pub const Q0_SYNC_WORD_CLOCK_MASK: u32 = 0x40000000;
pub const Q0_LOCK_WORD_CLOCK_MASK: u32 = 0x20000000;
pub const Q0_EXT_CLK_RATE_MASK: u32 = 0x1e000000;
pub const Q0_EXT_CLK_RATE_192000_FLAG: u32 = 0x12000000;
pub const Q0_EXT_CLK_RATE_176400_FLAG: u32 = 0x10000000;
pub const Q0_EXT_CLK_RATE_128000_FLAG: u32 = 0x0c000000;
pub const Q0_EXT_CLK_RATE_96000_FLAG: u32 = 0x0e000000;
pub const Q0_EXT_CLK_RATE_88200_FLAG: u32 = 0x0a000000;
pub const Q0_EXT_CLK_RATE_64000_FLAG: u32 = 0x08000000;
pub const Q0_EXT_CLK_RATE_48000_FLAG: u32 = 0x06000000;
pub const Q0_EXT_CLK_RATE_44100_FLAG: u32 = 0x04000000;
pub const Q0_EXT_CLK_RATE_32000_FLAG: u32 = 0x02000000;
pub const Q0_ACTIVE_CLK_SRC_MASK: u32 = 0x01c00000;
pub const Q0_ACTIVE_CLK_SRC_INTERNAL_FLAG: u32 = 0x01c00000;
pub const Q0_ACTIVE_CLK_SRC_LTC_FLAG: u32 = 0x01400000;
pub const Q0_ACTIVE_CLK_SRC_WORD_CLK_FLAG: u32 = 0x01000000;
pub const Q0_ACTIVE_CLK_SRC_SPDIF_FLAG: u32 = 0x00c00000;
pub const Q0_ACTIVE_CLK_SRC_ADAT_FLAG: u32 = 0x00000000;
pub const Q0_SYNC_SPDIF_MASK: u32 = 0x00100000;
pub const Q0_LOCK_SPDIF_MASK: u32 = 0x00040000;
pub const Q0_SPDIF_RATE_MASK: u32 = 0x0003c000;
pub const Q0_SPDIF_RATE_192000_FLAG: u32 = 0x00024000;
pub const Q0_SPDIF_RATE_176400_FLAG: u32 = 0x00020000;
pub const Q0_SPDIF_RATE_128000_FLAG: u32 = 0x0001c000;
pub const Q0_SPDIF_RATE_96000_FLAG: u32 = 0x00018000;
pub const Q0_SPDIF_RATE_88200_FLAG: u32 = 0x00014000;
pub const Q0_SPDIF_RATE_64000_FLAG: u32 = 0x00010000;
pub const Q0_SPDIF_RATE_48000_FLAG: u32 = 0x0000c000;
pub const Q0_SPDIF_RATE_44100_FLAG: u32 = 0x00008000;
pub const Q0_SPDIF_RATE_32000_FLAG: u32 = 0x00004000;
pub const Q0_LOCK_ADAT_MASK: u32 = 0x00001000;
pub const Q0_SYNC_ADAT_MASK: u32 = 0x00000400;

// For the second quadlet of status.
pub const Q1_WORD_OUT_SINGLE_MASK: u32 = 0x00002000;
pub const Q1_CONF_CLK_SRC_MASK: u32 = 0x00001c01;
pub const Q1_CONF_CLK_SRC_LTC_FLAG: u32 = 0x00001400;
pub const Q1_CONF_CLK_SRC_WORD_CLK_FLAG: u32 = 0x00001000;
pub const Q1_CONF_CLK_SRC_SPDIF_FLAG: u32 = 0x00000c00;
pub const Q1_CONF_CLK_SRC_INTERNAL_FLAG: u32 = 0x00000001;
pub const Q1_CONF_CLK_SRC_ADAT_FLAG: u32 = 0x00000000;
pub const Q1_SPDIF_IN_IFACE_MASK: u32 = 0x00000200;
pub const Q1_OPT_OUT_SIGNAL_MASK: u32 = 0x00000100;
pub const Q1_SPDIF_OUT_EMPHASIS_MASK: u32 = 0x00000040;
pub const Q1_SPDIF_OUT_FMT_MASK: u32 = 0x00000020;
pub const Q1_CONF_CLK_RATE_MASK: u32 = 0x0000001e;
pub const Q1_CONF_CLK_RATE_192000_FLAG: u32 = 0x00000016;
pub const Q1_CONF_CLK_RATE_176400_FLAG: u32 = 0x00000010;
pub const Q1_CONF_CLK_RATE_128000_FLAG: u32 = 0x00000012;
pub const Q1_CONF_CLK_RATE_96000_FLAG: u32 = 0x0000000e;
pub const Q1_CONF_CLK_RATE_88200_FLAG: u32 = 0x00000008;
pub const Q1_CONF_CLK_RATE_64000_FLAG: u32 = 0x0000000a;
pub const Q1_CONF_CLK_RATE_48000_FLAG: u32 = 0x00000006;
pub const Q1_CONF_CLK_RATE_44100_FLAG: u32 = 0x00000000;
pub const Q1_CONF_CLK_RATE_32000_FLAG: u32 = 0x00000002;

// For the first quadlet of configuration.
pub const Q0_HP_OUT_LEVEL_MASK: u32 = 0x00060000;
pub const Q0_HP_OUT_LEVEL_HIGH_FLAG: u32 = 0x00040000;
pub const Q0_HP_OUT_LEVEL_CON_FLAG: u32 = 0x00020000;
pub const Q0_HP_OUT_LEVEL_PRO_FLAG: u32 = 0x00000000;
pub const Q0_LINE_OUT_LEVEL_MASK: u32 = 0x00001c00;
pub const Q0_LINE_OUT_LEVEL_CON_FLAG: u32 = 0x00001000;
pub const Q0_LINE_OUT_LEVEL_PRO_FLAG: u32 = 0x00000800;
pub const Q0_LINE_OUT_LEVEL_HIGH_FLAG: u32 = 0x00000400;
pub const Q0_INPUT_2_INST_MASK: u32 = 0x00000200;
pub const Q0_INPUT_2_PAD_MASK: u32 = 0x00000100;
pub const Q0_INPUT_1_POWERING_MASK: u32 = 0x00000080;
pub const Q0_LINE_IN_LEVEL_MASK: u32 = 0x00000038;
pub const Q0_LINE_IN_LEVEL_CON_FLAG: u32 = 0x00000020;
pub const Q0_LINE_IN_LEVEL_LOW_FLAG: u32 = 0x00000010;
pub const Q0_LINE_IN_LEVEL_PRO_FLAG: u32 = 0x00000008;
pub const Q0_INPUT_3_INST_MASK: u32 = 0x00000004;
pub const Q0_INPUT_3_PAD_MASK: u32 = 0x00000002;
pub const Q0_INPUT_0_POWERING_MASK: u32 = 0x00000001;

// For the second quadlet of configuration.
pub const Q1_LINE_OUT_LEVEL_MASK: u32 = 0x00000018;
pub const Q1_LINE_OUT_LEVEL_PRO_FLAG: u32 = 0x00000018;
pub const Q1_LINE_OUT_LEVEL_HIGH_FLAG: u32 = 0x00000010;
pub const Q1_LINE_OUT_LEVEL_CON_FLAG: u32 = 0x00000008;
pub const Q1_LINE_IN_LEVEL_MASK: u32 = 0x00000003;
pub const Q1_LINE_IN_LEVEL_CON_FLAG: u32 = 0x00000003;
pub const Q1_LINE_IN_LEVEL_PRO_FLAG: u32 = 0x00000002;
pub const Q1_LINE_IN_LEVEL_LOW_FLAG: u32 = 0x00000000;

// For the third quadlet of configuration.
pub const Q2_CONTINUE_AT_ERRORS: u32 = 0x80000000;
pub const Q2_SPDIF_IN_USE_PREEMBLE: u32 = 0x40000000;
pub const Q2_MIDI_TX_LOW_OFFSET_MASK: u32 = 0x3c000000;
pub const Q2_MIDI_TX_LOW_OFFSET_0180_FLAG: u32 = 0x20000000;
pub const Q2_MIDI_TX_LOW_OFFSET_0100_FLAG: u32 = 0x10000000;
pub const Q2_MIDI_TX_LOW_OFFSET_0080_FLAG: u32 = 0x08000000;
pub const Q2_MIDI_TX_LOW_OFFSET_0000_FLAG: u32 = 0x04000000;
pub const Q2_MIDI_TX_SUPPRESS_MASK: u32 = 0x03000000;
pub const Q2_WORD_OUT_SINGLE_SPEED_MASK: u32 = 0x00002000;
pub const Q2_CLK_SRC_MASK: u32 = 0x00001c01;
pub const Q2_CLK_SRC_LTC_FLAG: u32 = 0x00001400;
pub const Q2_CLK_SRC_WORD_CLK_FLAG: u32 = 0x00001000;
pub const Q2_CLK_SRC_SPDIF_FLAG: u32 = 0x00000c00;
pub const Q2_CLK_SRC_INTERNAL_FLAG: u32 = 0x00000001;
pub const Q2_CLK_SRC_ADAT_FLAG: u32 = 0x00000000;
pub const Q2_SPDIF_IN_IFACE_OPT_MASK: u32 = 0x00000200;
pub const Q2_OPT_OUT_SIGNAL_MASK: u32 = 0x00000100;
pub const Q2_SPDIF_OUT_NON_AUDIO_MASK: u32 = 0x00000080;
pub const Q2_SPDIF_OUT_EMPHASIS_MASK: u32 = 0x00000040;
pub const Q2_SPDIF_OUT_FMT_PRO_MASK: u32 = 0x00000020;
pub const Q2_CLK_AVAIL_RATE_QUADRUPLE_MASK: u32 = 0x00000010;
pub const Q2_CLK_AVAIL_RATE_DOUBLE_MASK: u32 = 0x00000008;
pub const Q2_CLK_AVAIL_RATE_BASE_48000_MASK: u32 = 0x00000004;
pub const Q2_CLK_AVAIL_RATE_BASE_44100_MASK: u32 = 0x00000002;

/// Place of the amplifier of the first microphone input.
pub const AMP_MIC_IN_CH_OFFSET: u8 = 0;

/// Place of the amplifier of the first line input.
pub const AMP_LINE_IN_CH_OFFSET: u8 = 2;

/// Place of the amplifier of the first output.
pub const AMP_OUT_CH_OFFSET: u8 = 4;

/// The structure to represent unique protocol for Fireface 400.
#[derive(Debug)]
pub struct Ff400Protocol;

impl Default for Ff400Protocol {
    fn default() -> Self {
        Ff400Protocol
    }
}

impl Ff400Protocol {
    /// The quadlet that sets the amplifier `ch` to `level`: the amplifier in
    /// the third byte, the level in the lowest.
    pub open spec fn spec_amp_cmd(ch: u8, level: i8) -> u32 {
        (ch as u32 * 0x1_0000 + (if level < 0 {
            level + 0x100
        } else {
            level as int
        })) as u32
    }

    /// The quadlet that sets the amplifier `ch` to `level`.
    pub fn build_amp_cmd(ch: u8, level: i8) -> (cmd: u32)
        ensures
            cmd == Self::spec_amp_cmd(ch, level),
    {
        let low: u32 = if level < 0 {
            (level as i32 + 0x100) as u32
        } else {
            level as u32
        };
        (ch as u32) * 0x1_0000 + low
    }

    /// The volume `vol` in units of 1/63 of `0x10000`, toward zero.
    pub open spec fn spec_output_amp_quotient(vol: i32) -> int {
        if vol >= 0 {
            (0x3f * vol) / 0x1_0000
        } else {
            -((0x3f * (-vol)) / 0x1_0000)
        }
    }

    /// The lowest byte of `val`, as a signed byte.
    pub open spec fn spec_low_byte(val: int) -> i8 {
        if val % 0x100 >= 0x80 {
            (val % 0x100 - 0x100) as i8
        } else {
            (val % 0x100) as i8
        }
    }

    /// The level of the amplifier of an output for the volume `vol`: the
    /// lowest byte of the volume in units of 1/63 of `0x10000`. For a volume
    /// between zero and `0x10000` that is the volume in these units itself.
    pub open spec fn spec_output_amp_level(vol: i32) -> i8 {
        Self::spec_low_byte(Self::spec_output_amp_quotient(vol))
    }

    /// The level of the amplifier of an output for the volume `vol`.
    pub fn build_output_amp_level(vol: i32) -> (level: i8)
        ensures
            level == Self::spec_output_amp_level(vol),
            0 <= vol <= 0x1_0000 ==> level == Self::spec_output_amp_quotient(vol) && 0 <= level
                <= 0x3f,
    {
        let wide: i64 = vol as i64;
        let quotient: i64 = if wide >= 0 {
            (0x3f * wide) / 0x1_0000
        } else {
            0 - ((0x3f * (0 - wide)) / 0x1_0000)
        };
        // A multiple of 0x100 that makes the quotient positive.
        let low: i64 = (quotient + 0x20_0000) % 0x100;
        if low >= 0x80 {
            (low - 0x100) as i8
        } else {
            low as i8
        }
    }
}

/// The structure to represent status of input gains of Fireface 400.
#[derive(Debug, Copy, Clone)]
pub struct Ff400InputGainStatus {
    /// The level of gain for input 1 and 2. The value is between 0 and 65 by step 1 to represent
    /// the range from 0 to 65 dB.
    pub mic: [i8; 2],
    /// The level of gain for input 3 and 4. The value is between 0 and 36 by step 1 to represent
    /// the range from 0 to 18 dB.
    pub line: [i8; 2],
}

impl Default for Ff400InputGainStatus {
    fn default() -> (status: Self)
        ensures
            status.mic@ == seq![0i8, 0i8],
            status.line@ == seq![0i8, 0i8],
    {
        let status = Ff400InputGainStatus { mic: [0, 0], line: [0, 0] };
        assert(status.mic@ =~= seq![0i8, 0i8]);
        assert(status.line@ =~= seq![0i8, 0i8]);
        status
    }
}

/// The enumeration to represent source of sampling clock.
#[derive(Debug, Copy, Clone, Eq, PartialEq, Structural)]
pub enum Ff400ClkSrc {
    Internal,
    WordClock,
    Adat,
    Spdif,
    Ltc,
}

impl Default for Ff400ClkSrc {
    fn default() -> (src: Self)
        ensures
            src == Ff400ClkSrc::Internal,
    {
        Self::Internal
    }
}

/// The structure to represent status of clock locking.
#[derive(Debug, Copy, Clone, Eq, PartialEq, Structural)]
pub struct Ff400ClkLockStatus {
    pub adat: bool,
    pub spdif: bool,
    pub word_clock: bool,
}

impl Default for Ff400ClkLockStatus {
    fn default() -> (status: Self)
        ensures
            status == (Ff400ClkLockStatus { adat: false, spdif: false, word_clock: false }),
    {
        Ff400ClkLockStatus { adat: false, spdif: false, word_clock: false }
    }
}

impl Ff400ClkLockStatus {
    /// The status of locking in the first quadlet of status.
    pub open spec fn spec_parse(quad: u32) -> Self {
        Ff400ClkLockStatus {
            adat: quad & Q0_LOCK_ADAT_MASK > 0,
            spdif: quad & Q0_LOCK_SPDIF_MASK > 0,
            word_clock: quad & Q0_LOCK_WORD_CLOCK_MASK > 0,
        }
    }

    pub fn parse(&mut self, quads: &[u32])
        requires
            quads@.len() >= 1,
        ensures
            *final(self) == Self::spec_parse(quads@[0]),
    {
        self.adat = quads[0] & Q0_LOCK_ADAT_MASK > 0;
        self.spdif = quads[0] & Q0_LOCK_SPDIF_MASK > 0;
        self.word_clock = quads[0] & Q0_LOCK_WORD_CLOCK_MASK > 0;
    }
}

/// The structure to represent status of clock synchronization.
#[derive(Debug, Copy, Clone, Eq, PartialEq, Structural)]
pub struct Ff400ClkSyncStatus {
    pub adat: bool,
    pub spdif: bool,
    pub word_clock: bool,
}

impl Default for Ff400ClkSyncStatus {
    fn default() -> (status: Self)
        ensures
            status == (Ff400ClkSyncStatus { adat: false, spdif: false, word_clock: false }),
    {
        Ff400ClkSyncStatus { adat: false, spdif: false, word_clock: false }
    }
}

impl Ff400ClkSyncStatus {
    /// The status of synchronization in the first quadlet of status.
    pub open spec fn spec_parse(quad: u32) -> Self {
        Ff400ClkSyncStatus {
            adat: quad & Q0_SYNC_ADAT_MASK > 0,
            spdif: quad & Q0_SYNC_SPDIF_MASK > 0,
            word_clock: quad & Q0_SYNC_WORD_CLOCK_MASK > 0,
        }
    }

    pub fn parse(&mut self, quads: &[u32])
        requires
            quads@.len() >= 1,
        ensures
            *final(self) == Self::spec_parse(quads@[0]),
    {
        self.adat = quads[0] & Q0_SYNC_ADAT_MASK > 0;
        self.spdif = quads[0] & Q0_SYNC_SPDIF_MASK > 0;
        self.word_clock = quads[0] & Q0_SYNC_WORD_CLOCK_MASK > 0;
    }
}

/// The rate that the field of the rate of S/PDIF input holds, if any.
pub open spec fn spec_spdif_rate(field: u32) -> Option<ClkNominalRate> {
    if field == Q0_SPDIF_RATE_32000_FLAG {
        Some(ClkNominalRate::R32000)
    } else if field == Q0_SPDIF_RATE_44100_FLAG {
        Some(ClkNominalRate::R44100)
    } else if field == Q0_SPDIF_RATE_48000_FLAG {
        Some(ClkNominalRate::R48000)
    } else if field == Q0_SPDIF_RATE_64000_FLAG {
        Some(ClkNominalRate::R64000)
    } else if field == Q0_SPDIF_RATE_88200_FLAG {
        Some(ClkNominalRate::R88200)
    } else if field == Q0_SPDIF_RATE_96000_FLAG {
        Some(ClkNominalRate::R96000)
    } else if field == Q0_SPDIF_RATE_128000_FLAG {
        Some(ClkNominalRate::R128000)
    } else if field == Q0_SPDIF_RATE_176400_FLAG {
        Some(ClkNominalRate::R176400)
    } else if field == Q0_SPDIF_RATE_192000_FLAG {
        Some(ClkNominalRate::R192000)
    } else {
        None
    }
}

/// The rate that the field of the rate of the external clock holds, if any.
pub open spec fn spec_external_clk_rate(field: u32) -> Option<ClkNominalRate> {
    if field == Q0_EXT_CLK_RATE_32000_FLAG {
        Some(ClkNominalRate::R32000)
    } else if field == Q0_EXT_CLK_RATE_44100_FLAG {
        Some(ClkNominalRate::R44100)
    } else if field == Q0_EXT_CLK_RATE_48000_FLAG {
        Some(ClkNominalRate::R48000)
    } else if field == Q0_EXT_CLK_RATE_64000_FLAG {
        Some(ClkNominalRate::R64000)
    } else if field == Q0_EXT_CLK_RATE_88200_FLAG {
        Some(ClkNominalRate::R88200)
    } else if field == Q0_EXT_CLK_RATE_96000_FLAG {
        Some(ClkNominalRate::R96000)
    } else if field == Q0_EXT_CLK_RATE_128000_FLAG {
        Some(ClkNominalRate::R128000)
    } else if field == Q0_EXT_CLK_RATE_176400_FLAG {
        Some(ClkNominalRate::R176400)
    } else if field == Q0_EXT_CLK_RATE_192000_FLAG {
        Some(ClkNominalRate::R192000)
    } else {
        None
    }
}

/// The rate that the field of the configured rate holds; 44.1 kHz where it
/// holds none of the others.
pub open spec fn spec_configured_clk_rate(field: u32) -> ClkNominalRate {
    if field == Q1_CONF_CLK_RATE_32000_FLAG {
        ClkNominalRate::R32000
    } else if field == Q1_CONF_CLK_RATE_48000_FLAG {
        ClkNominalRate::R48000
    } else if field == Q1_CONF_CLK_RATE_64000_FLAG {
        ClkNominalRate::R64000
    } else if field == Q1_CONF_CLK_RATE_88200_FLAG {
        ClkNominalRate::R88200
    } else if field == Q1_CONF_CLK_RATE_96000_FLAG {
        ClkNominalRate::R96000
    } else if field == Q1_CONF_CLK_RATE_128000_FLAG {
        ClkNominalRate::R128000
    } else if field == Q1_CONF_CLK_RATE_176400_FLAG {
        ClkNominalRate::R176400
    } else if field == Q1_CONF_CLK_RATE_192000_FLAG {
        ClkNominalRate::R192000
    } else {
        ClkNominalRate::R44100
    }
}

/// The source that the field of the active source holds. The field holds
/// one of five patterns.
pub open spec fn spec_active_clk_src(field: u32) -> Ff400ClkSrc {
    if field == Q0_ACTIVE_CLK_SRC_ADAT_FLAG {
        Ff400ClkSrc::Adat
    } else if field == Q0_ACTIVE_CLK_SRC_SPDIF_FLAG {
        Ff400ClkSrc::Spdif
    } else if field == Q0_ACTIVE_CLK_SRC_WORD_CLK_FLAG {
        Ff400ClkSrc::WordClock
    } else if field == Q0_ACTIVE_CLK_SRC_LTC_FLAG {
        Ff400ClkSrc::Ltc
    } else {
        Ff400ClkSrc::Internal
    }
}

/// The source that a field of the configured source holds; ADAT where it
/// holds none of the others.
pub open spec fn spec_configured_clk_src(field: u32) -> Ff400ClkSrc {
    if field == Q1_CONF_CLK_SRC_INTERNAL_FLAG {
        Ff400ClkSrc::Internal
    } else if field == Q1_CONF_CLK_SRC_SPDIF_FLAG {
        Ff400ClkSrc::Spdif
    } else if field == Q1_CONF_CLK_SRC_WORD_CLK_FLAG {
        Ff400ClkSrc::WordClock
    } else if field == Q1_CONF_CLK_SRC_LTC_FLAG {
        Ff400ClkSrc::Ltc
    } else {
        Ff400ClkSrc::Adat
    }
}

/// The flag of a source in the field of the configured source.
pub open spec fn spec_clk_src_flag(src: Ff400ClkSrc) -> u32 {
    match src {
        Ff400ClkSrc::Internal => Q2_CLK_SRC_INTERNAL_FLAG,
        Ff400ClkSrc::Ltc => Q2_CLK_SRC_LTC_FLAG,
        Ff400ClkSrc::WordClock => Q2_CLK_SRC_WORD_CLK_FLAG,
        Ff400ClkSrc::Adat => Q2_CLK_SRC_ADAT_FLAG,
        Ff400ClkSrc::Spdif => Q2_CLK_SRC_SPDIF_FLAG,
    }
}

fn parse_spdif_rate(field: u32) -> (rate: Option<ClkNominalRate>)
    ensures
        rate == spec_spdif_rate(field),
{
    if field == Q0_SPDIF_RATE_32000_FLAG {
        Some(ClkNominalRate::R32000)
    } else if field == Q0_SPDIF_RATE_44100_FLAG {
        Some(ClkNominalRate::R44100)
    } else if field == Q0_SPDIF_RATE_48000_FLAG {
        Some(ClkNominalRate::R48000)
    } else if field == Q0_SPDIF_RATE_64000_FLAG {
        Some(ClkNominalRate::R64000)
    } else if field == Q0_SPDIF_RATE_88200_FLAG {
        Some(ClkNominalRate::R88200)
    } else if field == Q0_SPDIF_RATE_96000_FLAG {
        Some(ClkNominalRate::R96000)
    } else if field == Q0_SPDIF_RATE_128000_FLAG {
        Some(ClkNominalRate::R128000)
    } else if field == Q0_SPDIF_RATE_176400_FLAG {
        Some(ClkNominalRate::R176400)
    } else if field == Q0_SPDIF_RATE_192000_FLAG {
        Some(ClkNominalRate::R192000)
    } else {
        None
    }
}

fn parse_external_clk_rate(field: u32) -> (rate: Option<ClkNominalRate>)
    ensures
        rate == spec_external_clk_rate(field),
{
    if field == Q0_EXT_CLK_RATE_32000_FLAG {
        Some(ClkNominalRate::R32000)
    } else if field == Q0_EXT_CLK_RATE_44100_FLAG {
        Some(ClkNominalRate::R44100)
    } else if field == Q0_EXT_CLK_RATE_48000_FLAG {
        Some(ClkNominalRate::R48000)
    } else if field == Q0_EXT_CLK_RATE_64000_FLAG {
        Some(ClkNominalRate::R64000)
    } else if field == Q0_EXT_CLK_RATE_88200_FLAG {
        Some(ClkNominalRate::R88200)
    } else if field == Q0_EXT_CLK_RATE_96000_FLAG {
        Some(ClkNominalRate::R96000)
    } else if field == Q0_EXT_CLK_RATE_128000_FLAG {
        Some(ClkNominalRate::R128000)
    } else if field == Q0_EXT_CLK_RATE_176400_FLAG {
        Some(ClkNominalRate::R176400)
    } else if field == Q0_EXT_CLK_RATE_192000_FLAG {
        Some(ClkNominalRate::R192000)
    } else {
        None
    }
}

fn parse_configured_clk_rate(field: u32) -> (rate: ClkNominalRate)
    ensures
        rate == spec_configured_clk_rate(field),
{
    if field == Q1_CONF_CLK_RATE_32000_FLAG {
        ClkNominalRate::R32000
    } else if field == Q1_CONF_CLK_RATE_48000_FLAG {
        ClkNominalRate::R48000
    } else if field == Q1_CONF_CLK_RATE_64000_FLAG {
        ClkNominalRate::R64000
    } else if field == Q1_CONF_CLK_RATE_88200_FLAG {
        ClkNominalRate::R88200
    } else if field == Q1_CONF_CLK_RATE_96000_FLAG {
        ClkNominalRate::R96000
    } else if field == Q1_CONF_CLK_RATE_128000_FLAG {
        ClkNominalRate::R128000
    } else if field == Q1_CONF_CLK_RATE_176400_FLAG {
        ClkNominalRate::R176400
    } else if field == Q1_CONF_CLK_RATE_192000_FLAG {
        ClkNominalRate::R192000
    } else {
        ClkNominalRate::R44100
    }
}

fn parse_configured_clk_src(field: u32) -> (src: Ff400ClkSrc)
    ensures
        src == spec_configured_clk_src(field),
{
    if field == Q1_CONF_CLK_SRC_INTERNAL_FLAG {
        Ff400ClkSrc::Internal
    } else if field == Q1_CONF_CLK_SRC_SPDIF_FLAG {
        Ff400ClkSrc::Spdif
    } else if field == Q1_CONF_CLK_SRC_WORD_CLK_FLAG {
        Ff400ClkSrc::WordClock
    } else if field == Q1_CONF_CLK_SRC_LTC_FLAG {
        Ff400ClkSrc::Ltc
    } else {
        Ff400ClkSrc::Adat
    }
}

fn clk_src_flag(src: Ff400ClkSrc) -> (flag: u32)
    ensures
        flag == spec_clk_src_flag(src),
{
    match src {
        Ff400ClkSrc::Internal => Q2_CLK_SRC_INTERNAL_FLAG,
        Ff400ClkSrc::Ltc => Q2_CLK_SRC_LTC_FLAG,
        Ff400ClkSrc::WordClock => Q2_CLK_SRC_WORD_CLK_FLAG,
        Ff400ClkSrc::Adat => Q2_CLK_SRC_ADAT_FLAG,
        Ff400ClkSrc::Spdif => Q2_CLK_SRC_SPDIF_FLAG,
    }
}

/// The structure to represent status of the unit.
#[derive(Debug, Copy, Clone, Eq, PartialEq, Structural)]
pub struct Ff400Status {
    /// For S/PDIF input.
    pub spdif_in: SpdifInput,
    /// For S/PDIF output.
    pub spdif_out: FormerSpdifOutput,
    /// The type of signal to optical output interface.
    pub opt_out_signal: OpticalOutputSignal,
    /// Whether to fix speed to single even if at double/quadruple rate.
    pub word_out_single: bool,
    /// For status of synchronization to external clocks.
    pub sync: Ff400ClkSyncStatus,
    /// For status of locking to external clocks.
    pub lock: Ff400ClkLockStatus,
    pub spdif_rate: Option<ClkNominalRate>,
    pub active_clk_src: Ff400ClkSrc,
    pub external_clk_rate: Option<ClkNominalRate>,
    pub configured_clk_src: Ff400ClkSrc,
    pub configured_clk_rate: ClkNominalRate,
}

impl Default for Ff400Status {
    fn default() -> (status: Self)
        ensures
            status == (Ff400Status {
                spdif_in: SpdifInput { iface: SpdifIface::Coaxial, use_preemble: false },
                spdif_out: FormerSpdifOutput {
                    format: SpdifFormat::Consumer,
                    emphasis: false,
                    non_audio: false,
                },
                opt_out_signal: OpticalOutputSignal::Adat,
                word_out_single: false,
                sync: Ff400ClkSyncStatus { adat: false, spdif: false, word_clock: false },
                lock: Ff400ClkLockStatus { adat: false, spdif: false, word_clock: false },
                spdif_rate: None,
                active_clk_src: Ff400ClkSrc::Internal,
                external_clk_rate: None,
                configured_clk_src: Ff400ClkSrc::Internal,
                configured_clk_rate: ClkNominalRate::R44100,
            }),
    {
        Ff400Status {
            spdif_in: SpdifInput::default(),
            spdif_out: FormerSpdifOutput::default(),
            opt_out_signal: OpticalOutputSignal::default(),
            word_out_single: false,
            sync: Ff400ClkSyncStatus::default(),
            lock: Ff400ClkLockStatus::default(),
            spdif_rate: None,
            active_clk_src: Ff400ClkSrc::default(),
            external_clk_rate: None,
            configured_clk_src: Ff400ClkSrc::default(),
            configured_clk_rate: ClkNominalRate::default(),
        }
    }
}

impl Ff400Status {
    /// The count of quadlets of status.
    pub const QUADLET_COUNT: usize = 2;

    /// Whether the field of the active source in the first quadlet of
    /// status holds one of its five patterns.
    pub open spec fn is_decodable(quads: Seq<u32>) -> bool {
        let field = quads[0] & Q0_ACTIVE_CLK_SRC_MASK;
        ||| field == Q0_ACTIVE_CLK_SRC_ADAT_FLAG
        ||| field == Q0_ACTIVE_CLK_SRC_SPDIF_FLAG
        ||| field == Q0_ACTIVE_CLK_SRC_WORD_CLK_FLAG
        ||| field == Q0_ACTIVE_CLK_SRC_LTC_FLAG
        ||| field == Q0_ACTIVE_CLK_SRC_INTERNAL_FLAG
    }

    /// The status with what the two quadlets of status hold taken over.
    /// What they do not hold, the use of the preemble of S/PDIF input and the
    /// non-audio bit of S/PDIF output, stays as it is.
    pub open spec fn spec_parsed(self, quads: Seq<u32>) -> Self {
        Ff400Status {
            spdif_in: SpdifInput {
                iface: if quads[1] & Q1_SPDIF_IN_IFACE_MASK > 0 {
                    SpdifIface::Optical
                } else {
                    SpdifIface::Coaxial
                },
                use_preemble: self.spdif_in.use_preemble,
            },
            spdif_out: FormerSpdifOutput {
                format: if quads[1] & Q1_SPDIF_OUT_FMT_MASK > 0 {
                    SpdifFormat::Professional
                } else {
                    SpdifFormat::Consumer
                },
                emphasis: quads[1] & Q1_SPDIF_OUT_EMPHASIS_MASK > 0,
                non_audio: self.spdif_out.non_audio,
            },
            opt_out_signal: if quads[1] & Q1_OPT_OUT_SIGNAL_MASK > 0 {
                OpticalOutputSignal::Spdif
            } else {
                OpticalOutputSignal::Adat
            },
            word_out_single: quads[1] & Q1_WORD_OUT_SINGLE_MASK > 0,
            sync: Ff400ClkSyncStatus::spec_parse(quads[0]),
            lock: Ff400ClkLockStatus::spec_parse(quads[0]),
            spdif_rate: spec_spdif_rate(quads[0] & Q0_SPDIF_RATE_MASK),
            active_clk_src: spec_active_clk_src(quads[0] & Q0_ACTIVE_CLK_SRC_MASK),
            external_clk_rate: spec_external_clk_rate(quads[0] & Q0_EXT_CLK_RATE_MASK),
            configured_clk_src: spec_configured_clk_src(quads[1] & Q1_CONF_CLK_SRC_MASK),
            configured_clk_rate: spec_configured_clk_rate(quads[1] & Q1_CONF_CLK_RATE_MASK),
        }
    }

    /// Whether the field of the active source in the first quadlet of
    /// status holds one of its five patterns.
    pub fn can_parse(quads: &[u32]) -> (decodable: bool)
        requires
            quads@.len() == Self::QUADLET_COUNT,
        ensures
            decodable == Self::is_decodable(quads@),
    {
        let field = quads[0] & Q0_ACTIVE_CLK_SRC_MASK;
        field == Q0_ACTIVE_CLK_SRC_ADAT_FLAG || field == Q0_ACTIVE_CLK_SRC_SPDIF_FLAG || field
            == Q0_ACTIVE_CLK_SRC_WORD_CLK_FLAG || field == Q0_ACTIVE_CLK_SRC_LTC_FLAG || field
            == Q0_ACTIVE_CLK_SRC_INTERNAL_FLAG
    }

    pub fn parse(&mut self, quads: &[u32])
        requires
            quads@.len() == Self::QUADLET_COUNT,
            Self::is_decodable(quads@),
        ensures
            *final(self) == old(self).spec_parsed(quads@),
    {
        self.lock.parse(quads);
        self.sync.parse(quads);

        self.spdif_rate = parse_spdif_rate(quads[0] & Q0_SPDIF_RATE_MASK);

        let field = quads[0] & Q0_ACTIVE_CLK_SRC_MASK;
        self.active_clk_src = if field == Q0_ACTIVE_CLK_SRC_ADAT_FLAG {
            Ff400ClkSrc::Adat
        } else if field == Q0_ACTIVE_CLK_SRC_SPDIF_FLAG {
            Ff400ClkSrc::Spdif
        } else if field == Q0_ACTIVE_CLK_SRC_WORD_CLK_FLAG {
            Ff400ClkSrc::WordClock
        } else if field == Q0_ACTIVE_CLK_SRC_LTC_FLAG {
            Ff400ClkSrc::Ltc
        } else {
            Ff400ClkSrc::Internal
        };

        self.external_clk_rate = parse_external_clk_rate(quads[0] & Q0_EXT_CLK_RATE_MASK);

        self.spdif_in.iface = if quads[1] & Q1_SPDIF_IN_IFACE_MASK > 0 {
            SpdifIface::Optical
        } else {
            SpdifIface::Coaxial
        };

        self.spdif_out.format = if quads[1] & Q1_SPDIF_OUT_FMT_MASK > 0 {
            SpdifFormat::Professional
        } else {
            SpdifFormat::Consumer
        };

        self.spdif_out.emphasis = quads[1] & Q1_SPDIF_OUT_EMPHASIS_MASK > 0;

        self.opt_out_signal = if quads[1] & Q1_OPT_OUT_SIGNAL_MASK > 0 {
            OpticalOutputSignal::Spdif
        } else {
            OpticalOutputSignal::Adat
        };

        self.word_out_single = quads[1] & Q1_WORD_OUT_SINGLE_MASK > 0;

        self.configured_clk_src = parse_configured_clk_src(quads[1] & Q1_CONF_CLK_SRC_MASK);
        self.configured_clk_rate = parse_configured_clk_rate(quads[1] & Q1_CONF_CLK_RATE_MASK);
    }
}

/// The bits of `mask`, if `on`, and none else.
pub open spec fn spec_flag(mask: u32, on: bool) -> u32 {
    if on {
        mask
    } else {
        0
    }
}

/// The quadlet `quad` with the bits of `mask`, if `on`.
pub open spec fn spec_flagged(quad: u32, mask: u32, on: bool) -> u32 {
    quad | spec_flag(mask, on)
}

fn flagged(quad: u32, mask: u32, on: bool) -> (bits: u32)
    ensures
        bits == spec_flagged(quad, mask, on),
{
    quad | (if on {
        mask
    } else {
        0
    })
}

/// The structure to represent configurations of sampling clock.
#[derive(Debug, Copy, Clone, Eq, PartialEq, Structural)]
pub struct Ff400ClkConfig {
    pub primary_src: Ff400ClkSrc,
    pub avail_rate_44100: bool,
    pub avail_rate_48000: bool,
    pub avail_rate_double: bool,
    pub avail_rate_quadruple: bool,
}

impl Default for Ff400ClkConfig {
    fn default() -> (cfg: Self)
        ensures
            cfg == (Ff400ClkConfig {
                primary_src: Ff400ClkSrc::Internal,
                avail_rate_44100: true,
                avail_rate_48000: true,
                avail_rate_double: true,
                avail_rate_quadruple: true,
            }),
    {
        Ff400ClkConfig {
            primary_src: Ff400ClkSrc::Internal,
            avail_rate_44100: true,
            avail_rate_48000: true,
            avail_rate_double: true,
            avail_rate_quadruple: true,
        }
    }
}

impl Ff400ClkConfig {
    /// The bits of the configuration of the clock in the third quadlet.
    pub open spec fn spec_bits(self) -> u32 {
        spec_flagged(
            spec_flagged(
                spec_flagged(
                    spec_flagged(
                        spec_clk_src_flag(self.primary_src),
                        Q2_CLK_AVAIL_RATE_BASE_44100_MASK,
                        self.avail_rate_44100,
                    ),
                    Q2_CLK_AVAIL_RATE_BASE_48000_MASK,
                    self.avail_rate_48000,
                ),
                Q2_CLK_AVAIL_RATE_DOUBLE_MASK,
                self.avail_rate_double,
            ),
            Q2_CLK_AVAIL_RATE_QUADRUPLE_MASK,
            self.avail_rate_quadruple,
        )
    }

    /// The configuration of the clock in the third quadlet.
    pub open spec fn spec_parse(quad: u32) -> Self {
        Ff400ClkConfig {
            primary_src: spec_configured_clk_src(quad & Q2_CLK_SRC_MASK),
            avail_rate_44100: quad & Q2_CLK_AVAIL_RATE_BASE_44100_MASK > 0,
            avail_rate_48000: quad & Q2_CLK_AVAIL_RATE_BASE_48000_MASK > 0,
            avail_rate_double: quad & Q2_CLK_AVAIL_RATE_DOUBLE_MASK > 0,
            avail_rate_quadruple: quad & Q2_CLK_AVAIL_RATE_QUADRUPLE_MASK > 0,
        }
    }

    fn bits(&self) -> (bits: u32)
        ensures
            bits == self.spec_bits(),
    {
        let mut bits = clk_src_flag(self.primary_src);
        bits = flagged(bits, Q2_CLK_AVAIL_RATE_BASE_44100_MASK, self.avail_rate_44100);
        bits = flagged(bits, Q2_CLK_AVAIL_RATE_BASE_48000_MASK, self.avail_rate_48000);
        bits = flagged(bits, Q2_CLK_AVAIL_RATE_DOUBLE_MASK, self.avail_rate_double);
        bits = flagged(bits, Q2_CLK_AVAIL_RATE_QUADRUPLE_MASK, self.avail_rate_quadruple);
        bits
    }

    pub fn build(&self, quads: &mut [u32; 3])
        ensures
            final(quads)@ == old(quads)@.update(2, old(quads)@[2] | self.spec_bits()),
    {
        let bits = self.bits();
        quads[2] = quads[2] | bits;
    }

    pub fn parse(&mut self, quads: &[u32; 3])
        ensures
            *final(self) == Self::spec_parse(quads@[2]),
    {
        self.primary_src = parse_configured_clk_src(quads[2] & Q2_CLK_SRC_MASK);
        self.avail_rate_44100 = quads[2] & Q2_CLK_AVAIL_RATE_BASE_44100_MASK > 0;
        self.avail_rate_48000 = quads[2] & Q2_CLK_AVAIL_RATE_BASE_48000_MASK > 0;
        self.avail_rate_double = quads[2] & Q2_CLK_AVAIL_RATE_DOUBLE_MASK > 0;
        self.avail_rate_quadruple = quads[2] & Q2_CLK_AVAIL_RATE_QUADRUPLE_MASK > 0;
    }
}

/// The structure to represent configuration for analog inputs.
#[derive(Debug, Copy, Clone)]
pub struct Ff400AnalogInConfig {
    /// The nominal level of audio signal for input 5, 6, 7 and 8.
    pub line_level: FormerLineInNominalLevel,
    /// Whether to deliver +48 V powering for input 1 and 2.
    pub phantom_powering: [bool; 2],
    /// Whether to use input 3 and 4 for instrument.
    pub insts: [bool; 2],
    /// Whether to attenuate signal level from input 3 and 4.
    pub pad: [bool; 2],
}

impl Default for Ff400AnalogInConfig {
    fn default() -> (cfg: Self)
        ensures
            cfg.line_level == FormerLineInNominalLevel::Low,
            cfg.phantom_powering@ == seq![false, false],
            cfg.insts@ == seq![false, false],
            cfg.pad@ == seq![false, false],
    {
        let cfg = Ff400AnalogInConfig {
            line_level: FormerLineInNominalLevel::Low,
            phantom_powering: [false, false],
            insts: [false, false],
            pad: [false, false],
        };
        assert(cfg.phantom_powering@ =~= seq![false, false]);
        assert(cfg.insts@ =~= seq![false, false]);
        assert(cfg.pad@ =~= seq![false, false]);
        cfg
    }
}

impl Ff400AnalogInConfig {
    /// The flag of the level of line inputs in the first quadlet.
    pub open spec fn spec_level_flag_0(level: FormerLineInNominalLevel) -> u32 {
        match level {
            FormerLineInNominalLevel::Low => Q0_LINE_IN_LEVEL_LOW_FLAG,
            FormerLineInNominalLevel::Consumer => Q0_LINE_IN_LEVEL_CON_FLAG,
            FormerLineInNominalLevel::Professional => Q0_LINE_IN_LEVEL_PRO_FLAG,
        }
    }

    /// The flag of the level of line inputs in the second quadlet.
    pub open spec fn spec_level_flag_1(level: FormerLineInNominalLevel) -> u32 {
        match level {
            FormerLineInNominalLevel::Low => Q1_LINE_IN_LEVEL_LOW_FLAG,
            FormerLineInNominalLevel::Consumer => Q1_LINE_IN_LEVEL_CON_FLAG,
            FormerLineInNominalLevel::Professional => Q1_LINE_IN_LEVEL_PRO_FLAG,
        }
    }

    /// The bits of the configuration of analog inputs in the first quadlet.
    pub open spec fn spec_bits_0(self) -> u32 {
        spec_flagged(
            spec_flagged(
                spec_flagged(
                    spec_flagged(
                        spec_flagged(
                            spec_flagged(
                                Self::spec_level_flag_0(self.line_level),
                                Q0_INPUT_0_POWERING_MASK,
                                self.phantom_powering@[0],
                            ),
                            Q0_INPUT_1_POWERING_MASK,
                            self.phantom_powering@[1],
                        ),
                        Q0_INPUT_2_INST_MASK,
                        self.insts@[0],
                    ),
                    Q0_INPUT_3_INST_MASK,
                    self.insts@[1],
                ),
                Q0_INPUT_2_PAD_MASK,
                self.pad@[0],
            ),
            Q0_INPUT_3_PAD_MASK,
            self.pad@[1],
        )
    }

    /// Whether the fields of the level of line inputs in the first two
    /// quadlets hold the two flags of one level.
    pub open spec fn is_decodable(quads: Seq<u32>) -> bool {
        let first = quads[0] & Q0_LINE_IN_LEVEL_MASK;
        let second = quads[1] & Q1_LINE_IN_LEVEL_MASK;
        ||| first == Q0_LINE_IN_LEVEL_LOW_FLAG && second == Q1_LINE_IN_LEVEL_LOW_FLAG
        ||| first == Q0_LINE_IN_LEVEL_CON_FLAG && second == Q1_LINE_IN_LEVEL_CON_FLAG
        ||| first == Q0_LINE_IN_LEVEL_PRO_FLAG && second == Q1_LINE_IN_LEVEL_PRO_FLAG
    }

    /// The level of line inputs that the first quadlet holds.
    pub open spec fn spec_line_level(quad: u32) -> FormerLineInNominalLevel {
        if quad & Q0_LINE_IN_LEVEL_MASK == Q0_LINE_IN_LEVEL_LOW_FLAG {
            FormerLineInNominalLevel::Low
        } else if quad & Q0_LINE_IN_LEVEL_MASK == Q0_LINE_IN_LEVEL_CON_FLAG {
            FormerLineInNominalLevel::Consumer
        } else {
            FormerLineInNominalLevel::Professional
        }
    }

    fn bits_0(&self) -> (bits: u32)
        ensures
            bits == self.spec_bits_0(),
    {
        let mut bits = match self.line_level {
            FormerLineInNominalLevel::Low => Q0_LINE_IN_LEVEL_LOW_FLAG,
            FormerLineInNominalLevel::Consumer => Q0_LINE_IN_LEVEL_CON_FLAG,
            FormerLineInNominalLevel::Professional => Q0_LINE_IN_LEVEL_PRO_FLAG,
        };
        bits = flagged(bits, Q0_INPUT_0_POWERING_MASK, self.phantom_powering[0]);
        bits = flagged(bits, Q0_INPUT_1_POWERING_MASK, self.phantom_powering[1]);
        bits = flagged(bits, Q0_INPUT_2_INST_MASK, self.insts[0]);
        bits = flagged(bits, Q0_INPUT_3_INST_MASK, self.insts[1]);
        bits = flagged(bits, Q0_INPUT_2_PAD_MASK, self.pad[0]);
        bits = flagged(bits, Q0_INPUT_3_PAD_MASK, self.pad[1]);
        bits
    }

    pub fn build(&self, quads: &mut [u32; 3])
        ensures
            final(quads)@ == old(quads)@.update(0, old(quads)@[0] | self.spec_bits_0()).update(
                1,
                old(quads)@[1] | Self::spec_level_flag_1(self.line_level),
            ),
    {
        let bits = self.bits_0();
        let flag = match self.line_level {
            FormerLineInNominalLevel::Low => Q1_LINE_IN_LEVEL_LOW_FLAG,
            FormerLineInNominalLevel::Consumer => Q1_LINE_IN_LEVEL_CON_FLAG,
            FormerLineInNominalLevel::Professional => Q1_LINE_IN_LEVEL_PRO_FLAG,
        };
        quads[0] = quads[0] | bits;
        quads[1] = quads[1] | flag;
    }

    pub fn parse(&mut self, quads: &[u32; 3])
        requires
            Self::is_decodable(quads@),
        ensures
            final(self).line_level == Self::spec_line_level(quads@[0]),
            final(self).phantom_powering@ == seq![
                quads@[0] & Q0_INPUT_0_POWERING_MASK > 0,
                quads@[0] & Q0_INPUT_1_POWERING_MASK > 0,
            ],
            final(self).insts@ == seq![
                quads@[0] & Q0_INPUT_2_INST_MASK > 0,
                quads@[0] & Q0_INPUT_3_INST_MASK > 0,
            ],
            final(self).pad@ == seq![
                quads@[0] & Q0_INPUT_2_PAD_MASK > 0,
                quads@[0] & Q0_INPUT_3_PAD_MASK > 0,
            ],
    {
        let first = quads[0] & Q0_LINE_IN_LEVEL_MASK;
        self.line_level = if first == Q0_LINE_IN_LEVEL_LOW_FLAG {
            FormerLineInNominalLevel::Low
        } else if first == Q0_LINE_IN_LEVEL_CON_FLAG {
            FormerLineInNominalLevel::Consumer
        } else {
            FormerLineInNominalLevel::Professional
        };

        self.phantom_powering[0] = quads[0] & Q0_INPUT_0_POWERING_MASK > 0;
        self.phantom_powering[1] = quads[0] & Q0_INPUT_1_POWERING_MASK > 0;

        self.insts[0] = quads[0] & Q0_INPUT_2_INST_MASK > 0;
        self.insts[1] = quads[0] & Q0_INPUT_3_INST_MASK > 0;

        self.pad[0] = quads[0] & Q0_INPUT_2_PAD_MASK > 0;
        self.pad[1] = quads[0] & Q0_INPUT_3_PAD_MASK > 0;

        assert(self.phantom_powering@ =~= seq![
            quads@[0] & Q0_INPUT_0_POWERING_MASK > 0,
            quads@[0] & Q0_INPUT_1_POWERING_MASK > 0,
        ]);
        assert(self.insts@ =~= seq![
            quads@[0] & Q0_INPUT_2_INST_MASK > 0,
            quads@[0] & Q0_INPUT_3_INST_MASK > 0,
        ]);
        assert(self.pad@ =~= seq![
            quads@[0] & Q0_INPUT_2_PAD_MASK > 0,
            quads@[0] & Q0_INPUT_3_PAD_MASK > 0,
        ]);
    }
}

/// The enumeration to represent low offset of destination address for MIDI messages.
#[derive(Debug, Copy, Clone, Eq, PartialEq, Structural)]
pub enum Ff400MidiTxLowOffset {
    /// Between 0x0000 to 0x007c.
    A0000,
    /// Between 0x0080 to 0x00fc.
    A0080,
    /// Between 0x0100 to 0x017c.
    A0100,
    /// Between 0x0180 to 0x01fc.
    A0180,
}

impl Default for Ff400MidiTxLowOffset {
    fn default() -> (offset: Self)
        ensures
            offset == Ff400MidiTxLowOffset::A0000,
    {
        Self::A0000
    }
}

impl Ff400MidiTxLowOffset {
    /// The flag of the offset in the third quadlet.
    pub open spec fn spec_flag(self) -> u32 {
        match self {
            Self::A0000 => Q2_MIDI_TX_LOW_OFFSET_0000_FLAG,
            Self::A0080 => Q2_MIDI_TX_LOW_OFFSET_0080_FLAG,
            Self::A0100 => Q2_MIDI_TX_LOW_OFFSET_0100_FLAG,
            Self::A0180 => Q2_MIDI_TX_LOW_OFFSET_0180_FLAG,
        }
    }

    /// Whether the field of the offset in the third quadlet holds the flag
    /// of an offset.
    pub open spec fn is_decodable(quad: u32) -> bool {
        let field = quad & Q2_MIDI_TX_LOW_OFFSET_MASK;
        ||| field == Q2_MIDI_TX_LOW_OFFSET_0180_FLAG
        ||| field == Q2_MIDI_TX_LOW_OFFSET_0100_FLAG
        ||| field == Q2_MIDI_TX_LOW_OFFSET_0080_FLAG
        ||| field == Q2_MIDI_TX_LOW_OFFSET_0000_FLAG
    }

    /// The offset that the third quadlet holds.
    pub open spec fn spec_parse(quad: u32) -> Self {
        let field = quad & Q2_MIDI_TX_LOW_OFFSET_MASK;
        if field == Q2_MIDI_TX_LOW_OFFSET_0180_FLAG {
            Self::A0180
        } else if field == Q2_MIDI_TX_LOW_OFFSET_0100_FLAG {
            Self::A0100
        } else if field == Q2_MIDI_TX_LOW_OFFSET_0080_FLAG {
            Self::A0080
        } else {
            Self::A0000
        }
    }

    fn flag(&self) -> (flag: u32)
        ensures
            flag == self.spec_flag(),
    {
        match self {
            Self::A0000 => Q2_MIDI_TX_LOW_OFFSET_0000_FLAG,
            Self::A0080 => Q2_MIDI_TX_LOW_OFFSET_0080_FLAG,
            Self::A0100 => Q2_MIDI_TX_LOW_OFFSET_0100_FLAG,
            Self::A0180 => Q2_MIDI_TX_LOW_OFFSET_0180_FLAG,
        }
    }

    pub fn build(&self, quads: &mut [u32; 3])
        ensures
            final(quads)@ == old(quads)@.update(2, old(quads)@[2] | self.spec_flag()),
    {
        let flag = self.flag();
        quads[2] = quads[2] | flag;
    }

    pub fn parse(&mut self, quads: &[u32; 3])
        requires
            Self::is_decodable(quads@[2]),
        ensures
            *final(self) == Self::spec_parse(quads@[2]),
    {
        let field = quads[2] & Q2_MIDI_TX_LOW_OFFSET_MASK;
        *self = if field == Q2_MIDI_TX_LOW_OFFSET_0180_FLAG {
            Self::A0180
        } else if field == Q2_MIDI_TX_LOW_OFFSET_0100_FLAG {
            Self::A0100
        } else if field == Q2_MIDI_TX_LOW_OFFSET_0080_FLAG {
            Self::A0080
        } else {
            Self::A0000
        };
    }
}

/// The structure to represent configurations.
#[derive(Debug, Copy, Clone)]
pub struct Ff400Config {
    /// The low offset of destination address for MIDI messages.
    pub midi_tx_low_offset: Ff400MidiTxLowOffset,
    /// Whether to enable transaction for MIDI messages.
    pub midi_tx_enable: bool,
    /// For sampling clock.
    pub clk: Ff400ClkConfig,
    /// For analog inputs.
    pub analog_in: Ff400AnalogInConfig,
    /// The nominal level of audio signal for output 1, 2, 3, 4, 5, and 6.
    pub line_out_level: LineOutNominalLevel,
    /// The nominal level of audio signal for headphone output.
    pub hp_out_level: LineOutNominalLevel,
    /// For S/PDIF input.
    pub spdif_in: SpdifInput,
    /// For S/PDIF output.
    pub spdif_out: FormerSpdifOutput,
    /// The type of signal to optical output interface.
    pub opt_out_signal: OpticalOutputSignal,
    /// Whether to fix speed to single even if at double/quadruple rate.
    pub word_out_single: bool,
    /// Whether to continue audio processing against any synchronization corruption.
    pub continue_at_errors: bool,
}

impl Default for Ff400Config {
    fn default() -> (cfg: Self)
        ensures
            cfg.midi_tx_low_offset == Ff400MidiTxLowOffset::A0000,
            cfg.midi_tx_enable,
            cfg.clk == (Ff400ClkConfig {
                primary_src: Ff400ClkSrc::Internal,
                avail_rate_44100: true,
                avail_rate_48000: true,
                avail_rate_double: true,
                avail_rate_quadruple: true,
            }),
            cfg.analog_in.line_level == FormerLineInNominalLevel::Low,
            cfg.analog_in.phantom_powering@ == seq![false, false],
            cfg.analog_in.insts@ == seq![false, false],
            cfg.analog_in.pad@ == seq![false, false],
            cfg.line_out_level == LineOutNominalLevel::High,
            cfg.hp_out_level == LineOutNominalLevel::High,
            cfg.spdif_in == (SpdifInput { iface: SpdifIface::Coaxial, use_preemble: false }),
            cfg.spdif_out == (FormerSpdifOutput {
                format: SpdifFormat::Consumer,
                emphasis: false,
                non_audio: false,
            }),
            cfg.opt_out_signal == OpticalOutputSignal::Adat,
            !cfg.word_out_single,
            cfg.continue_at_errors,
    {
        Ff400Config {
            midi_tx_low_offset: Ff400MidiTxLowOffset::default(),
            midi_tx_enable: true,
            clk: Ff400ClkConfig::default(),
            analog_in: Ff400AnalogInConfig::default(),
            line_out_level: LineOutNominalLevel::default(),
            hp_out_level: LineOutNominalLevel::default(),
            spdif_in: SpdifInput::default(),
            spdif_out: FormerSpdifOutput::default(),
            opt_out_signal: OpticalOutputSignal::default(),
            word_out_single: false,
            continue_at_errors: true,
        }
    }
}

impl Ff400Config {
    /// The count of quadlets of configuration.
    pub const QUADLET_COUNT: usize = 3;

    /// The flag of the level of line outputs in the first quadlet.
    pub open spec fn spec_line_out_flag_0(level: LineOutNominalLevel) -> u32 {
        match level {
            LineOutNominalLevel::High => Q0_LINE_OUT_LEVEL_HIGH_FLAG,
            LineOutNominalLevel::Consumer => Q0_LINE_OUT_LEVEL_CON_FLAG,
            LineOutNominalLevel::Professional => Q0_LINE_OUT_LEVEL_PRO_FLAG,
        }
    }

    /// The flag of the level of line outputs in the second quadlet.
    pub open spec fn spec_line_out_flag_1(level: LineOutNominalLevel) -> u32 {
        match level {
            LineOutNominalLevel::High => Q1_LINE_OUT_LEVEL_HIGH_FLAG,
            LineOutNominalLevel::Consumer => Q1_LINE_OUT_LEVEL_CON_FLAG,
            LineOutNominalLevel::Professional => Q1_LINE_OUT_LEVEL_PRO_FLAG,
        }
    }

    /// The flag of the level of the headphone output in the first quadlet.
    pub open spec fn spec_hp_out_flag(level: LineOutNominalLevel) -> u32 {
        match level {
            LineOutNominalLevel::High => Q0_HP_OUT_LEVEL_HIGH_FLAG,
            LineOutNominalLevel::Consumer => Q0_HP_OUT_LEVEL_CON_FLAG,
            LineOutNominalLevel::Professional => Q0_HP_OUT_LEVEL_PRO_FLAG,
        }
    }

    /// The bits of the configuration in the first quadlet.
    pub open spec fn spec_quad_0(self) -> u32 {
        self.analog_in.spec_bits_0() | Self::spec_line_out_flag_0(self.line_out_level)
            | Self::spec_hp_out_flag(self.hp_out_level)
    }

    /// The bits of the configuration in the second quadlet.
    pub open spec fn spec_quad_1(self) -> u32 {
        Ff400AnalogInConfig::spec_level_flag_1(self.analog_in.line_level)
            | Self::spec_line_out_flag_1(self.line_out_level)
    }

    /// The bits of the configuration in the third quadlet.
    pub open spec fn spec_quad_2(self) -> u32 {
        spec_flagged(
            spec_flagged(
                spec_flagged(
                    spec_flagged(
                        spec_flagged(
                            spec_flagged(
                                spec_flagged(
                                    spec_flagged(
                                        spec_flagged(
                                            self.midi_tx_low_offset.spec_flag(),
                                            Q2_MIDI_TX_SUPPRESS_MASK,
                                            !self.midi_tx_enable,
                                        ) | self.clk.spec_bits(),
                                        Q2_SPDIF_IN_IFACE_OPT_MASK,
                                        self.spdif_in.iface == SpdifIface::Optical,
                                    ),
                                    Q2_SPDIF_IN_USE_PREEMBLE,
                                    self.spdif_in.use_preemble,
                                ),
                                Q2_OPT_OUT_SIGNAL_MASK,
                                self.opt_out_signal == OpticalOutputSignal::Spdif,
                            ),
                            Q2_SPDIF_OUT_FMT_PRO_MASK,
                            self.spdif_out.format == SpdifFormat::Professional,
                        ),
                        Q2_SPDIF_OUT_EMPHASIS_MASK,
                        self.spdif_out.emphasis,
                    ),
                    Q2_SPDIF_OUT_NON_AUDIO_MASK,
                    self.spdif_out.non_audio,
                ),
                Q2_WORD_OUT_SINGLE_SPEED_MASK,
                self.word_out_single,
            ),
            Q2_CONTINUE_AT_ERRORS,
            self.continue_at_errors,
        )
    }

    fn quad_0(&self) -> (bits: u32)
        ensures
            bits == self.spec_quad_0(),
    {
        let analog = self.analog_in.bits_0();
        let line = match self.line_out_level {
            LineOutNominalLevel::High => Q0_LINE_OUT_LEVEL_HIGH_FLAG,
            LineOutNominalLevel::Consumer => Q0_LINE_OUT_LEVEL_CON_FLAG,
            LineOutNominalLevel::Professional => Q0_LINE_OUT_LEVEL_PRO_FLAG,
        };
        let hp = match self.hp_out_level {
            LineOutNominalLevel::High => Q0_HP_OUT_LEVEL_HIGH_FLAG,
            LineOutNominalLevel::Consumer => Q0_HP_OUT_LEVEL_CON_FLAG,
            LineOutNominalLevel::Professional => Q0_HP_OUT_LEVEL_PRO_FLAG,
        };
        analog | line | hp
    }

    fn quad_1(&self) -> (bits: u32)
        ensures
            bits == self.spec_quad_1(),
    {
        let analog = match self.analog_in.line_level {
            FormerLineInNominalLevel::Low => Q1_LINE_IN_LEVEL_LOW_FLAG,
            FormerLineInNominalLevel::Consumer => Q1_LINE_IN_LEVEL_CON_FLAG,
            FormerLineInNominalLevel::Professional => Q1_LINE_IN_LEVEL_PRO_FLAG,
        };
        let line = match self.line_out_level {
            LineOutNominalLevel::High => Q1_LINE_OUT_LEVEL_HIGH_FLAG,
            LineOutNominalLevel::Consumer => Q1_LINE_OUT_LEVEL_CON_FLAG,
            LineOutNominalLevel::Professional => Q1_LINE_OUT_LEVEL_PRO_FLAG,
        };
        analog | line
    }

    fn quad_2(&self) -> (bits: u32)
        ensures
            bits == self.spec_quad_2(),
    {
        let mut bits = self.midi_tx_low_offset.flag();
        bits = flagged(bits, Q2_MIDI_TX_SUPPRESS_MASK, !self.midi_tx_enable);
        bits = bits | self.clk.bits();
        bits = flagged(bits, Q2_SPDIF_IN_IFACE_OPT_MASK, self.spdif_in.iface == SpdifIface::Optical);
        bits = flagged(bits, Q2_SPDIF_IN_USE_PREEMBLE, self.spdif_in.use_preemble);
        bits = flagged(bits, Q2_OPT_OUT_SIGNAL_MASK, self.opt_out_signal == OpticalOutputSignal::Spdif);
        bits = flagged(bits, Q2_SPDIF_OUT_FMT_PRO_MASK, self.spdif_out.format == SpdifFormat::Professional);
        bits = flagged(bits, Q2_SPDIF_OUT_EMPHASIS_MASK, self.spdif_out.emphasis);
        bits = flagged(bits, Q2_SPDIF_OUT_NON_AUDIO_MASK, self.spdif_out.non_audio);
        bits = flagged(bits, Q2_WORD_OUT_SINGLE_SPEED_MASK, self.word_out_single);
        bits = flagged(bits, Q2_CONTINUE_AT_ERRORS, self.continue_at_errors);
        bits
    }

    /// Sets the bits of the configuration in the three quadlets.
    pub fn build(&self, quads: &mut [u32; 3])
        ensures
            final(quads)@ == seq![
                old(quads)@[0] | self.spec_quad_0(),
                old(quads)@[1] | self.spec_quad_1(),
                old(quads)@[2] | self.spec_quad_2(),
            ],
    {
        let q0 = self.quad_0();
        let q1 = self.quad_1();
        let q2 = self.quad_2();
        quads[0] = quads[0] | q0;
        quads[1] = quads[1] | q1;
        quads[2] = quads[2] | q2;
        assert(quads@ =~= seq![
            old(quads)@[0] | self.spec_quad_0(),
            old(quads)@[1] | self.spec_quad_1(),
            old(quads)@[2] | self.spec_quad_2(),
        ]);
    }

    /// Whether the three quadlets hold a configuration: the flag of an
    /// offset for MIDI messages, the two flags of one level of line inputs,
    /// the two flags of one level of line outputs, and the flag of a level of
    /// the headphone output.
    pub open spec fn is_decodable(quads: Seq<u32>) -> bool {
        let line_0 = quads[0] & Q0_LINE_OUT_LEVEL_MASK;
        let line_1 = quads[1] & Q1_LINE_OUT_LEVEL_MASK;
        let hp = quads[0] & Q0_HP_OUT_LEVEL_MASK;
        &&& Ff400MidiTxLowOffset::is_decodable(quads[2])
        &&& Ff400AnalogInConfig::is_decodable(quads)
        &&& {
            ||| line_0 == Q0_LINE_OUT_LEVEL_HIGH_FLAG && line_1 == Q1_LINE_OUT_LEVEL_HIGH_FLAG
            ||| line_0 == Q0_LINE_OUT_LEVEL_CON_FLAG && line_1 == Q1_LINE_OUT_LEVEL_CON_FLAG
            ||| line_0 == Q0_LINE_OUT_LEVEL_PRO_FLAG && line_1 == Q1_LINE_OUT_LEVEL_PRO_FLAG
        }
        &&& {
            ||| hp == Q0_HP_OUT_LEVEL_HIGH_FLAG
            ||| hp == Q0_HP_OUT_LEVEL_CON_FLAG
            ||| hp == Q0_HP_OUT_LEVEL_PRO_FLAG
        }
    }

    /// The level of line outputs that the first quadlet holds.
    pub open spec fn spec_line_out_level(quad: u32) -> LineOutNominalLevel {
        if quad & Q0_LINE_OUT_LEVEL_MASK == Q0_LINE_OUT_LEVEL_HIGH_FLAG {
            LineOutNominalLevel::High
        } else if quad & Q0_LINE_OUT_LEVEL_MASK == Q0_LINE_OUT_LEVEL_CON_FLAG {
            LineOutNominalLevel::Consumer
        } else {
            LineOutNominalLevel::Professional
        }
    }

    /// The level of the headphone output that the first quadlet holds.
    pub open spec fn spec_hp_out_level(quad: u32) -> LineOutNominalLevel {
        if quad & Q0_HP_OUT_LEVEL_MASK == Q0_HP_OUT_LEVEL_HIGH_FLAG {
            LineOutNominalLevel::High
        } else if quad & Q0_HP_OUT_LEVEL_MASK == Q0_HP_OUT_LEVEL_CON_FLAG {
            LineOutNominalLevel::Consumer
        } else {
            LineOutNominalLevel::Professional
        }
    }

    /// Takes over the configuration that the three quadlets hold.
    pub fn parse(&mut self, quads: &[u32; 3])
        requires
            Self::is_decodable(quads@),
        ensures
            final(self).midi_tx_low_offset == Ff400MidiTxLowOffset::spec_parse(quads@[2]),
            final(self).midi_tx_enable == (quads@[2] & Q2_MIDI_TX_SUPPRESS_MASK == 0),
            final(self).clk == Ff400ClkConfig::spec_parse(quads@[2]),
            final(self).analog_in.line_level == Ff400AnalogInConfig::spec_line_level(quads@[0]),
            final(self).analog_in.phantom_powering@ == seq![
                quads@[0] & Q0_INPUT_0_POWERING_MASK > 0,
                quads@[0] & Q0_INPUT_1_POWERING_MASK > 0,
            ],
            final(self).analog_in.insts@ == seq![
                quads@[0] & Q0_INPUT_2_INST_MASK > 0,
                quads@[0] & Q0_INPUT_3_INST_MASK > 0,
            ],
            final(self).analog_in.pad@ == seq![
                quads@[0] & Q0_INPUT_2_PAD_MASK > 0,
                quads@[0] & Q0_INPUT_3_PAD_MASK > 0,
            ],
            final(self).line_out_level == Self::spec_line_out_level(quads@[0]),
            final(self).hp_out_level == Self::spec_hp_out_level(quads@[0]),
            final(self).spdif_in == (SpdifInput {
                iface: if quads@[2] & Q2_SPDIF_IN_IFACE_OPT_MASK > 0 {
                    SpdifIface::Optical
                } else {
                    SpdifIface::Coaxial
                },
                use_preemble: quads@[2] & Q2_SPDIF_IN_USE_PREEMBLE > 0,
            }),
            final(self).spdif_out == (FormerSpdifOutput {
                format: if quads@[2] & Q2_SPDIF_OUT_FMT_PRO_MASK > 0 {
                    SpdifFormat::Professional
                } else {
                    SpdifFormat::Consumer
                },
                emphasis: quads@[2] & Q2_SPDIF_OUT_EMPHASIS_MASK > 0,
                non_audio: quads@[2] & Q2_SPDIF_OUT_NON_AUDIO_MASK > 0,
            }),
            final(self).opt_out_signal == (if quads@[2] & Q2_OPT_OUT_SIGNAL_MASK > 0 {
                OpticalOutputSignal::Spdif
            } else {
                OpticalOutputSignal::Adat
            }),
            final(self).word_out_single == (quads@[2] & Q2_WORD_OUT_SINGLE_SPEED_MASK > 0),
            final(self).continue_at_errors == (quads@[2] & Q2_CONTINUE_AT_ERRORS > 0),
    {
        self.midi_tx_low_offset.parse(quads);
        self.midi_tx_enable = quads[2] & Q2_MIDI_TX_SUPPRESS_MASK == 0;

        self.clk.parse(quads);
        self.analog_in.parse(quads);

        let line = quads[0] & Q0_LINE_OUT_LEVEL_MASK;
        self.line_out_level = if line == Q0_LINE_OUT_LEVEL_HIGH_FLAG {
            LineOutNominalLevel::High
        } else if line == Q0_LINE_OUT_LEVEL_CON_FLAG {
            LineOutNominalLevel::Consumer
        } else {
            LineOutNominalLevel::Professional
        };

        let hp = quads[0] & Q0_HP_OUT_LEVEL_MASK;
        self.hp_out_level = if hp == Q0_HP_OUT_LEVEL_HIGH_FLAG {
            LineOutNominalLevel::High
        } else if hp == Q0_HP_OUT_LEVEL_CON_FLAG {
            LineOutNominalLevel::Consumer
        } else {
            LineOutNominalLevel::Professional
        };

        self.spdif_in.iface = if quads[2] & Q2_SPDIF_IN_IFACE_OPT_MASK > 0 {
            SpdifIface::Optical
        } else {
            SpdifIface::Coaxial
        };
        self.spdif_in.use_preemble = quads[2] & Q2_SPDIF_IN_USE_PREEMBLE > 0;

        self.spdif_out.format = if quads[2] & Q2_SPDIF_OUT_FMT_PRO_MASK > 0 {
            SpdifFormat::Professional
        } else {
            SpdifFormat::Consumer
        };
        self.spdif_out.emphasis = quads[2] & Q2_SPDIF_OUT_EMPHASIS_MASK > 0;
        self.spdif_out.non_audio = quads[2] & Q2_SPDIF_OUT_NON_AUDIO_MASK > 0;

        self.opt_out_signal = if quads[2] & Q2_OPT_OUT_SIGNAL_MASK > 0 {
            OpticalOutputSignal::Spdif
        } else {
            OpticalOutputSignal::Adat
        };

        self.word_out_single = quads[2] & Q2_WORD_OUT_SINGLE_SPEED_MASK > 0;
        self.continue_at_errors = quads[2] & Q2_CONTINUE_AT_ERRORS > 0;
    }

    /// Although the configuration registers are write-only, some of them are available in status
    /// registers.
    pub fn init(&mut self, status: &Ff400Status)
        ensures
            *final(self) == (Ff400Config {
                clk: Ff400ClkConfig { primary_src: status.configured_clk_src, ..old(self).clk },
                spdif_in: status.spdif_in,
                spdif_out: status.spdif_out,
                opt_out_signal: status.opt_out_signal,
                word_out_single: status.word_out_single,
                ..*old(self)
            }),
    {
        self.clk.primary_src = status.configured_clk_src;
        self.spdif_in = status.spdif_in;
        self.spdif_out = status.spdif_out;
        self.opt_out_signal = status.opt_out_signal;
        self.word_out_single = status.word_out_single;
    }
}

/// What the fields of the first quadlet of a configuration hold.
proof fn lemma_quad_0_fields(cfg: Ff400Config)
    ensures
        cfg.spec_quad_0() & Q0_LINE_IN_LEVEL_MASK == Ff400AnalogInConfig::spec_level_flag_0(
            cfg.analog_in.line_level,
        ),
        cfg.spec_quad_0() & Q0_LINE_OUT_LEVEL_MASK == Ff400Config::spec_line_out_flag_0(
            cfg.line_out_level,
        ),
        cfg.spec_quad_0() & Q0_HP_OUT_LEVEL_MASK == Ff400Config::spec_hp_out_flag(
            cfg.hp_out_level,
        ),
        (cfg.spec_quad_0() & Q0_INPUT_0_POWERING_MASK > 0) == cfg.analog_in.phantom_powering@[0],
        (cfg.spec_quad_0() & Q0_INPUT_1_POWERING_MASK > 0) == cfg.analog_in.phantom_powering@[1],
        (cfg.spec_quad_0() & Q0_INPUT_2_INST_MASK > 0) == cfg.analog_in.insts@[0],
        (cfg.spec_quad_0() & Q0_INPUT_3_INST_MASK > 0) == cfg.analog_in.insts@[1],
        (cfg.spec_quad_0() & Q0_INPUT_2_PAD_MASK > 0) == cfg.analog_in.pad@[0],
        (cfg.spec_quad_0() & Q0_INPUT_3_PAD_MASK > 0) == cfg.analog_in.pad@[1],
{
    let l0 = Ff400AnalogInConfig::spec_level_flag_0(cfg.analog_in.line_level);
    let p0 = spec_flag(Q0_INPUT_0_POWERING_MASK, cfg.analog_in.phantom_powering@[0]);
    let p1 = spec_flag(Q0_INPUT_1_POWERING_MASK, cfg.analog_in.phantom_powering@[1]);
    let i0 = spec_flag(Q0_INPUT_2_INST_MASK, cfg.analog_in.insts@[0]);
    let i1 = spec_flag(Q0_INPUT_3_INST_MASK, cfg.analog_in.insts@[1]);
    let d0 = spec_flag(Q0_INPUT_2_PAD_MASK, cfg.analog_in.pad@[0]);
    let d1 = spec_flag(Q0_INPUT_3_PAD_MASK, cfg.analog_in.pad@[1]);
    let lo = Ff400Config::spec_line_out_flag_0(cfg.line_out_level);
    let hp = Ff400Config::spec_hp_out_flag(cfg.hp_out_level);
    let q0 = cfg.spec_quad_0();
    assert(q0 == ((((((l0 | p0) | p1) | i0) | i1) | d0) | d1) | lo | hp);
    assert(q0 & 0x38 == l0 && q0 & 0x1c00 == lo && q0 & 0x60000 == hp && (q0 & 0x01 > 0) == (p0
        != 0) && (q0 & 0x80 > 0) == (p1 != 0) && (q0 & 0x200 > 0) == (i0 != 0) && (q0 & 0x04 > 0)
        == (i1 != 0) && (q0 & 0x100 > 0) == (d0 != 0) && (q0 & 0x02 > 0) == (d1 != 0))
        by (bit_vector)
        requires
            q0 == ((((((l0 | p0) | p1) | i0) | i1) | d0) | d1) | lo | hp,
            l0 == 0x10 || l0 == 0x20 || l0 == 0x08,
            p0 == 0 || p0 == 0x01,
            p1 == 0 || p1 == 0x80,
            i0 == 0 || i0 == 0x200,
            i1 == 0 || i1 == 0x04,
            d0 == 0 || d0 == 0x100,
            d1 == 0 || d1 == 0x02,
            lo == 0x400 || lo == 0x1000 || lo == 0x800,
            hp == 0x40000 || hp == 0x20000 || hp == 0,
    ;
}

/// What the fields of the second quadlet of a configuration hold.
proof fn lemma_quad_1_fields(cfg: Ff400Config)
    ensures
        cfg.spec_quad_1() & Q1_LINE_IN_LEVEL_MASK == Ff400AnalogInConfig::spec_level_flag_1(
            cfg.analog_in.line_level,
        ),
        cfg.spec_quad_1() & Q1_LINE_OUT_LEVEL_MASK == Ff400Config::spec_line_out_flag_1(
            cfg.line_out_level,
        ),
{
    let l1 = Ff400AnalogInConfig::spec_level_flag_1(cfg.analog_in.line_level);
    let lo1 = Ff400Config::spec_line_out_flag_1(cfg.line_out_level);
    let q1 = cfg.spec_quad_1();
    assert(q1 & 0x03 == l1 && q1 & 0x18 == lo1) by (bit_vector)
        requires
            q1 == l1 | lo1,
            l1 == 0 || l1 == 0x03 || l1 == 0x02,
            lo1 == 0x10 || lo1 == 0x08 || lo1 == 0x18,
    ;
}

/// What the fields of the third quadlet of a configuration hold.
proof fn lemma_quad_2_fields(cfg: Ff400Config)
    ensures
        cfg.spec_quad_2() & Q2_MIDI_TX_LOW_OFFSET_MASK == cfg.midi_tx_low_offset.spec_flag(),
        (cfg.spec_quad_2() & Q2_MIDI_TX_SUPPRESS_MASK == 0) == cfg.midi_tx_enable,
        cfg.spec_quad_2() & Q2_CLK_SRC_MASK == spec_clk_src_flag(cfg.clk.primary_src),
        (cfg.spec_quad_2() & Q2_CLK_AVAIL_RATE_BASE_44100_MASK > 0) == cfg.clk.avail_rate_44100,
        (cfg.spec_quad_2() & Q2_CLK_AVAIL_RATE_BASE_48000_MASK > 0) == cfg.clk.avail_rate_48000,
        (cfg.spec_quad_2() & Q2_CLK_AVAIL_RATE_DOUBLE_MASK > 0) == cfg.clk.avail_rate_double,
        (cfg.spec_quad_2() & Q2_CLK_AVAIL_RATE_QUADRUPLE_MASK > 0)
            == cfg.clk.avail_rate_quadruple,
        (cfg.spec_quad_2() & Q2_SPDIF_IN_IFACE_OPT_MASK > 0) == (cfg.spdif_in.iface
            == SpdifIface::Optical),
        (cfg.spec_quad_2() & Q2_SPDIF_IN_USE_PREEMBLE > 0) == cfg.spdif_in.use_preemble,
        (cfg.spec_quad_2() & Q2_SPDIF_OUT_FMT_PRO_MASK > 0) == (cfg.spdif_out.format
            == SpdifFormat::Professional),
        (cfg.spec_quad_2() & Q2_SPDIF_OUT_EMPHASIS_MASK > 0) == cfg.spdif_out.emphasis,
        (cfg.spec_quad_2() & Q2_SPDIF_OUT_NON_AUDIO_MASK > 0) == cfg.spdif_out.non_audio,
        (cfg.spec_quad_2() & Q2_OPT_OUT_SIGNAL_MASK > 0) == (cfg.opt_out_signal
            == OpticalOutputSignal::Spdif),
        (cfg.spec_quad_2() & Q2_WORD_OUT_SINGLE_SPEED_MASK > 0) == cfg.word_out_single,
        (cfg.spec_quad_2() & Q2_CONTINUE_AT_ERRORS > 0) == cfg.continue_at_errors,
{
    let m = cfg.midi_tx_low_offset.spec_flag();
    let s = spec_flag(Q2_MIDI_TX_SUPPRESS_MASK, !cfg.midi_tx_enable);
    let c = spec_clk_src_flag(cfg.clk.primary_src);
    let r1 = spec_flag(Q2_CLK_AVAIL_RATE_BASE_44100_MASK, cfg.clk.avail_rate_44100);
    let r2 = spec_flag(Q2_CLK_AVAIL_RATE_BASE_48000_MASK, cfg.clk.avail_rate_48000);
    let r3 = spec_flag(Q2_CLK_AVAIL_RATE_DOUBLE_MASK, cfg.clk.avail_rate_double);
    let r4 = spec_flag(Q2_CLK_AVAIL_RATE_QUADRUPLE_MASK, cfg.clk.avail_rate_quadruple);
    let ii = spec_flag(Q2_SPDIF_IN_IFACE_OPT_MASK, cfg.spdif_in.iface == SpdifIface::Optical);
    let pp = spec_flag(Q2_SPDIF_IN_USE_PREEMBLE, cfg.spdif_in.use_preemble);
    let oo = spec_flag(Q2_OPT_OUT_SIGNAL_MASK, cfg.opt_out_signal == OpticalOutputSignal::Spdif);
    let ff = spec_flag(
        Q2_SPDIF_OUT_FMT_PRO_MASK,
        cfg.spdif_out.format == SpdifFormat::Professional,
    );
    let ee = spec_flag(Q2_SPDIF_OUT_EMPHASIS_MASK, cfg.spdif_out.emphasis);
    let nn = spec_flag(Q2_SPDIF_OUT_NON_AUDIO_MASK, cfg.spdif_out.non_audio);
    let ww = spec_flag(Q2_WORD_OUT_SINGLE_SPEED_MASK, cfg.word_out_single);
    let xx = spec_flag(Q2_CONTINUE_AT_ERRORS, cfg.continue_at_errors);
    let q2 = cfg.spec_quad_2();
    assert(q2 == ((((((((m | s) | ((((c | r1) | r2) | r3) | r4)) | ii) | pp) | oo) | ff) | ee)
        | nn) | ww | xx);
    assert(q2 & 0x3c000000 == m && (q2 & 0x03000000 == 0) == (s == 0) && q2 & 0x1c01 == c && (q2
        & 0x02 > 0) == (r1 != 0) && (q2 & 0x04 > 0) == (r2 != 0) && (q2 & 0x08 > 0) == (r3 != 0)
        && (q2 & 0x10 > 0) == (r4 != 0) && (q2 & 0x200 > 0) == (ii != 0) && (q2 & 0x40000000 > 0)
        == (pp != 0) && (q2 & 0x100 > 0) == (oo != 0) && (q2 & 0x20 > 0) == (ff != 0) && (q2
        & 0x40 > 0) == (ee != 0) && (q2 & 0x80 > 0) == (nn != 0) && (q2 & 0x2000 > 0) == (ww
        != 0) && (q2 & 0x80000000 > 0) == (xx != 0)) by (bit_vector)
        requires
            q2 == ((((((((m | s) | ((((c | r1) | r2) | r3) | r4)) | ii) | pp) | oo) | ff) | ee)
                | nn) | ww | xx,
            m == 0x04000000 || m == 0x08000000 || m == 0x10000000 || m == 0x20000000,
            s == 0 || s == 0x03000000,
            c == 0x01 || c == 0x1400 || c == 0x1000 || c == 0 || c == 0xc00,
            r1 == 0 || r1 == 0x02,
            r2 == 0 || r2 == 0x04,
            r3 == 0 || r3 == 0x08,
            r4 == 0 || r4 == 0x10,
            ii == 0 || ii == 0x200,
            pp == 0 || pp == 0x40000000,
            oo == 0 || oo == 0x100,
            ff == 0 || ff == 0x20,
            ee == 0 || ee == 0x40,
            nn == 0 || nn == 0x80,
            ww == 0 || ww == 0x2000,
            xx == 0 || xx == 0x80000000,
    ;
}

/// The bits of a configuration are read back as the configuration: the
/// three quadlets hold a configuration, and every field of it is the field
/// that was written.
pub proof fn lemma_config_round_trip(cfg: Ff400Config)
    ensures
        Ff400Config::is_decodable(seq![cfg.spec_quad_0(), cfg.spec_quad_1(), cfg.spec_quad_2()]),
        Ff400MidiTxLowOffset::spec_parse(cfg.spec_quad_2()) == cfg.midi_tx_low_offset,
        (cfg.spec_quad_2() & Q2_MIDI_TX_SUPPRESS_MASK == 0) == cfg.midi_tx_enable,
        Ff400ClkConfig::spec_parse(cfg.spec_quad_2()) == cfg.clk,
        Ff400AnalogInConfig::spec_line_level(cfg.spec_quad_0()) == cfg.analog_in.line_level,
        (cfg.spec_quad_0() & Q0_INPUT_0_POWERING_MASK > 0) == cfg.analog_in.phantom_powering@[0],
        (cfg.spec_quad_0() & Q0_INPUT_1_POWERING_MASK > 0) == cfg.analog_in.phantom_powering@[1],
        (cfg.spec_quad_0() & Q0_INPUT_2_INST_MASK > 0) == cfg.analog_in.insts@[0],
        (cfg.spec_quad_0() & Q0_INPUT_3_INST_MASK > 0) == cfg.analog_in.insts@[1],
        (cfg.spec_quad_0() & Q0_INPUT_2_PAD_MASK > 0) == cfg.analog_in.pad@[0],
        (cfg.spec_quad_0() & Q0_INPUT_3_PAD_MASK > 0) == cfg.analog_in.pad@[1],
        Ff400Config::spec_line_out_level(cfg.spec_quad_0()) == cfg.line_out_level,
        Ff400Config::spec_hp_out_level(cfg.spec_quad_0()) == cfg.hp_out_level,
        (cfg.spec_quad_2() & Q2_SPDIF_IN_IFACE_OPT_MASK > 0) == (cfg.spdif_in.iface
            == SpdifIface::Optical),
        (cfg.spec_quad_2() & Q2_SPDIF_IN_USE_PREEMBLE > 0) == cfg.spdif_in.use_preemble,
        (cfg.spec_quad_2() & Q2_SPDIF_OUT_FMT_PRO_MASK > 0) == (cfg.spdif_out.format
            == SpdifFormat::Professional),
        (cfg.spec_quad_2() & Q2_SPDIF_OUT_EMPHASIS_MASK > 0) == cfg.spdif_out.emphasis,
        (cfg.spec_quad_2() & Q2_SPDIF_OUT_NON_AUDIO_MASK > 0) == cfg.spdif_out.non_audio,
        (cfg.spec_quad_2() & Q2_OPT_OUT_SIGNAL_MASK > 0) == (cfg.opt_out_signal
            == OpticalOutputSignal::Spdif),
        (cfg.spec_quad_2() & Q2_WORD_OUT_SINGLE_SPEED_MASK > 0) == cfg.word_out_single,
        (cfg.spec_quad_2() & Q2_CONTINUE_AT_ERRORS > 0) == cfg.continue_at_errors,
{
    lemma_quad_0_fields(cfg);
    lemma_quad_1_fields(cfg);
    lemma_quad_2_fields(cfg);
}

} // verus!
