//! Protocols of Mark of the Unicorn FireWire series.

pub mod command_dsp;

use vstd::prelude::*;

verus! {

/// The enumeration to express rate of sampling clock.
#[derive(Debug, Copy, Clone, Eq, PartialEq, Structural)]
pub enum ClkRate {
    /// 44.1 kHz.
    R44100,
    /// 48.0 kHz.
    R48000,
    /// 88.2 kHz.
    R88200,
    /// 96.0 kHz.
    R96000,
    /// 176.4 kHz.
    R176400,
    /// 192.0 kHz.
    R192000,
}

/// The enumeration to express mode of speed for output signal of word clock on BNC interface.
#[derive(Debug, Copy, Clone, Eq, PartialEq, Structural)]
pub enum WordClkSpeedMode {
    /// The speed is forced to be 44.1/48.0 kHz.
    ForceLowRate,
    /// The speed is following to system clock.
    FollowSystemClk,
}

impl Default for WordClkSpeedMode {
    fn default() -> (mode: Self)
        ensures
            mode == WordClkSpeedMode::FollowSystemClk,
    {
        Self::FollowSystemClk
    }
}

/// The enumeration to express the mode of rate convert for AES/EBU input/output signals.
#[derive(Debug, Copy, Clone, Eq, PartialEq, Structural)]
pub enum AesebuRateConvertMode {
    /// Not available.
    NotAvailable,
    /// The rate of input signal is converted to system rate.
    InputToSystem,
    /// The rate of output signal is slave to input, ignoring system rate.
    OutputDependsInput,
    /// The rate of output signal is double rate than system rate.
    OutputDoubleSystem,
}

/// The enumeration to express the mode of hold time for clip and peak LEDs.
#[derive(Debug, Copy, Clone, Eq, PartialEq, Structural)]
pub enum LevelMetersHoldTimeMode {
    /// off.
    Off,
    /// 2 seconds.
    Sec2,
    /// 4 seconds.
    Sec4,
    /// 10 seconds.
    Sec10,
    /// 1 minute.
    Sec60,
    /// 5 minutes.
    Sec300,
    /// 8 minutes.
    Sec480,
    /// Infinite.
    Infinite,
}

impl Default for LevelMetersHoldTimeMode {
    fn default() -> (mode: Self)
        ensures
            mode == LevelMetersHoldTimeMode::Off,
    {
        Self::Off
    }
}

/// The enumeration to express the mode of programmable meter display.
#[derive(Debug, Copy, Clone, Eq, PartialEq, Structural)]
pub enum LevelMetersProgrammableMode {
    AnalogOutput,
    AdatInput,
    AdatOutput,
}

impl Default for LevelMetersProgrammableMode {
    fn default() -> (mode: Self)
        ensures
            mode == LevelMetersProgrammableMode::AnalogOutput,
    {
        Self::AnalogOutput
    }
}

/// The enumeration to express the mode of AES/EBU meter display.
#[derive(Debug, Copy, Clone, Eq, PartialEq, Structural)]
pub enum LevelMetersAesebuMode {
    Input,
    Output,
}

impl Default for LevelMetersAesebuMode {
    fn default() -> (mode: Self)
        ensures
            mode == LevelMetersAesebuMode::Input,
    {
        Self::Input
    }
}

/// The enumeration for port to assign.
#[derive(Debug, Copy, Clone, Eq, PartialEq, Structural)]
pub enum TargetPort {
    Disabled,
    AnalogPair0,
    AnalogPair1,
    AnalogPair2,
    AnalogPair3,
    AesEbuPair0,
    PhonePair0,
    MainPair0,
    SpdifPair0,
    AdatPair0,
    AdatPair1,
    AdatPair2,
    AdatPair3,
    Analog6Pairs,
    Analog8Pairs,
    OpticalAPair0,
    OpticalAPair1,
    OpticalAPair2,
    OpticalAPair3,
    OpticalBPair0,
    OpticalBPair1,
    OpticalBPair2,
    OpticalBPair3,
    Analog0,
    Analog1,
    Analog2,
    Analog3,
    Analog4,
    Analog5,
    Analog6,
    Analog7,
    AesEbu0,
    AesEbu1,
    Mic0,
    Mic1,
    Spdif0,
    Spdif1,
    Adat0,
    Adat1,
    Adat2,
    Adat3,
    Adat4,
    Adat5,
    Adat6,
    Adat7,
    OpticalA0,
    OpticalA1,
    OpticalA2,
    OpticalA3,
    OpticalA4,
    OpticalA5,
    OpticalA6,
    OpticalA7,
    OpticalB0,
    OpticalB1,
    OpticalB2,
    OpticalB3,
    OpticalB4,
    OpticalB5,
    OpticalB6,
    OpticalB7,
}

impl Default for TargetPort {
    fn default() -> (port: Self)
        ensures
            port == TargetPort::Disabled,
    {
        Self::Disabled
    }
}

/// The enumeration to express nominal level of audio signal.
#[derive(Debug, Copy, Clone, Eq, PartialEq, Structural)]
pub enum NominalSignalLevel {
    /// -10 dBV.
    Consumer,
    /// +4 dBu.
    Professional,
}

impl Default for NominalSignalLevel {
    fn default() -> (level: Self)
        ensures
            level == NominalSignalLevel::Consumer,
    {
        Self::Consumer
    }
}

/// The first place of `target` in `ports`, or zero where it has none.
pub open spec fn spec_target_position(ports: Seq<TargetPort>, target: TargetPort) -> nat
    decreases ports.len(),
{
    if ports.len() == 0 {
        0
    } else if ports.drop_last().contains(target) {
        spec_target_position(ports.drop_last(), target)
    } else if ports.last() == target {
        (ports.len() - 1) as nat
    } else {
        0
    }
}

/// The first place of `target` in `ports`, or zero where it has none.
pub fn target_position(ports: &[TargetPort], target: TargetPort) -> (pos: usize)
    ensures
        pos == spec_target_position(ports@, target),
        ports@.contains(target) ==> pos < ports@.len() && ports@[pos as int] == target,
{
    let mut i: usize = 0;
    while i < ports.len()
        invariant
            i <= ports@.len(),
            !ports@.take(i as int).contains(target),
        decreases ports@.len() - i,
    {
        if ports[i] == target {
            proof {
                lemma_target_position(ports@, target, i as int);
            }
            return i;
        }
        proof {
            let front = ports@.take(i as int);
            let next = ports@.take(i + 1);
            assert(next.drop_last() =~= front);
            assert forall|k: int| 0 <= k < next.len() implies next[k] != target by {
                if k < i {
                    assert(front[k] == next[k]);
                }
            }
        }
        i += 1;
    }
    proof {
        assert(ports@.take(i as int) =~= ports@);
        lemma_target_absent(ports@, target);
    }
    0
}

proof fn lemma_target_absent(ports: Seq<TargetPort>, target: TargetPort)
    requires
        !ports.contains(target),
    ensures
        spec_target_position(ports, target) == 0,
    decreases ports.len(),
{
    if ports.len() > 0 {
        assert(ports.last() == ports[ports.len() - 1]);
        assert forall|k: int| 0 <= k < ports.drop_last().len() implies ports.drop_last()[k]
            != target by {
            assert(ports.drop_last()[k] == ports[k]);
        }
        lemma_target_absent(ports.drop_last(), target);
    }
}

proof fn lemma_target_position(ports: Seq<TargetPort>, target: TargetPort, pos: int)
    requires
        0 <= pos < ports.len(),
        ports[pos] == target,
        !ports.take(pos).contains(target),
    ensures
        spec_target_position(ports, target) == pos,
        ports.contains(target),
    decreases ports.len(),
{
    let front = ports.drop_last();
    if pos == ports.len() - 1 {
        assert(front =~= ports.take(pos));
    } else {
        assert(front[pos] == target);
        assert(front.take(pos) =~= ports.take(pos));
        lemma_target_position(front, target, pos);
    }
}

/// Offset of the register of the clock.
pub const OFFSET_CLK: u32 = 0x0b14;

/// Offset of the register of the ports.
pub const OFFSET_PORT: u32 = 0x0c04;

/// Offset of the first register of the display of the clock.
pub const OFFSET_CLK_DISPLAY: u32 = 0x0c60;

/// Offset of the register of the level meters.
pub const LEVEL_METERS_OFFSET: u32 = 0x0b24;

pub const PORT_PHONE_MASK: u32 = 0x0000000f;

pub const PORT_PHONE_SHIFT: usize = 0;

pub const WORD_OUT_MASK: u32 = 0x08000000;

pub const WORD_OUT_SHIFT: usize = 27;

pub const LEVEL_METERS_PEAK_HOLD_TIME_MASK: u32 = 0x00003800;

pub const LEVEL_METERS_PEAK_HOLD_TIME_SHIFT: usize = 11;

pub const LEVEL_METERS_CLIP_HOLD_TIME_MASK: u32 = 0x00000700;

pub const LEVEL_METERS_CLIP_HOLD_TIME_SHIFT: usize = 8;

pub const LEVEL_METERS_AESEBU_MASK: u32 = 0x00000004;

pub const LEVEL_METERS_AESEBU_SHIFT: usize = 2;

pub const LEVEL_METERS_PROGRAMMABLE_MASK: u32 = 0x00000003;

pub const LEVEL_METERS_PROGRAMMABLE_SHIFT: usize = 0;

/// The count of characters on the display of the clock.
pub const DISPLAY_CHARS: usize = 16;

/// Why a field of a register is not read or written.
#[derive(Debug, Copy, Clone, Eq, PartialEq, Structural)]
pub enum RegisterFieldError {
    /// The field holds a value that stands for no index.
    InvalidValue(u8),
    /// There is no value for the index.
    InvalidIndex,
}

/// The lowest byte of the field of `quad` under `mask`, moved down by `shift` bits.
pub open spec fn spec_field_value(quad: u32, mask: u32, shift: usize) -> u8 {
    (((quad & mask) >> (shift as u32)) & 0xff) as u8
}

/// The first place of the value `val` among `vals`, if it has one.
pub open spec fn spec_value_position(vals: Seq<u8>, val: u8) -> Option<int>
    decreases vals.len(),
{
    if vals.len() == 0 {
        None
    } else if vals.drop_last().contains(val) {
        spec_value_position(vals.drop_last(), val)
    } else if vals.last() == val {
        Some(vals.len() - 1)
    } else {
        None
    }
}

/// The index that the field of `quad` under `mask` stands for: the first
/// place among `vals` of the value that the field holds.
pub fn get_idx_from_val(quad: u32, mask: u32, shift: usize, vals: &[u8]) -> (result: Result<
    usize,
    RegisterFieldError,
>)
    requires
        shift < 32,
    ensures
        match spec_value_position(vals@, spec_field_value(quad, mask, shift)) {
            Some(pos) => result == Ok::<usize, RegisterFieldError>(pos as usize),
            None => result == Err::<usize, RegisterFieldError>(
                RegisterFieldError::InvalidValue(spec_field_value(quad, mask, shift)),
            ),
        },
        result is Ok ==> result->Ok_0 < vals@.len() && vals@[result->Ok_0 as int]
            == spec_field_value(quad, mask, shift),
{
    let field: u32 = ((quad & mask) >> (shift as u32)) & 0xff;
    assert(field <= 0xff) by (bit_vector)
        requires
            field == ((quad & mask) >> (shift as u32)) & 0xff,
    ;
    let val = field as u8;
    let mut i: usize = 0;
    while i < vals.len()
        invariant
            i <= vals@.len(),
            val == spec_field_value(quad, mask, shift),
            !vals@.take(i as int).contains(val),
        decreases vals@.len() - i,
    {
        if vals[i] == val {
            proof {
                lemma_value_position(vals@, val, i as int);
            }
            return Ok(i);
        }
        proof {
            let front = vals@.take(i as int);
            let next = vals@.take(i + 1);
            assert forall|k: int| 0 <= k < next.len() implies next[k] != val by {
                if k < i {
                    assert(front[k] == next[k]);
                }
            }
        }
        i += 1;
    }
    proof {
        assert(vals@.take(i as int) =~= vals@);
        lemma_value_absent(vals@, val);
    }
    Err(RegisterFieldError::InvalidValue(val))
}

/// The quadlet `quad` with the value for the index `idx` in the field under
/// `mask`.
pub fn set_idx_to_val(quad: u32, mask: u32, shift: usize, vals: &[u8], idx: usize) -> (result: Result<
    u32,
    RegisterFieldError,
>)
    requires
        shift < 32,
    ensures
        idx >= vals@.len() <==> result == Err::<u32, RegisterFieldError>(
            RegisterFieldError::InvalidIndex,
        ),
        idx < vals@.len() ==> result == Ok::<u32, RegisterFieldError>(
            (quad & !mask) | ((vals@[idx as int] as u32) << (shift as u32)),
        ),
{
    if idx >= vals.len() {
        return Err(RegisterFieldError::InvalidIndex);
    }
    Ok((quad & !mask) | ((vals[idx] as u32) << (shift as u32)))
}

/// A value that is written to a field which has room for it is read back
/// from the field, and the rest of the quadlet stays as it is.
pub proof fn lemma_field_round_trip(quad: u32, mask: u32, shift: u32, val: u8)
    requires
        shift < 32,
        ((val as u32) << shift) & !mask == 0,
        ((val as u32) << shift) >> shift == val as u32,
    ensures
        ((((quad & !mask) | ((val as u32) << shift)) & mask) >> shift) & 0xff == val as u32,
        ((quad & !mask) | ((val as u32) << shift)) & !mask == quad & !mask,
{
    let v = val as u32;
    assert(((((quad & !mask) | (v << shift)) & mask) >> shift) & 0xff == v) by (bit_vector)
        requires
            shift < 32,
            (v << shift) & !mask == 0,
            (v << shift) >> shift == v,
            v <= 0xff,
    ;
    assert(((quad & !mask) | (v << shift)) & !mask == quad & !mask) by (bit_vector)
        requires
            (v << shift) & !mask == 0,
    ;
}

proof fn lemma_value_absent(vals: Seq<u8>, val: u8)
    requires
        !vals.contains(val),
    ensures
        spec_value_position(vals, val) is None,
    decreases vals.len(),
{
    if vals.len() > 0 {
        assert(vals.last() == vals[vals.len() - 1]);
        assert forall|k: int| 0 <= k < vals.drop_last().len() implies vals.drop_last()[k]
            != val by {
            assert(vals.drop_last()[k] == vals[k]);
        }
        lemma_value_absent(vals.drop_last(), val);
    }
}

proof fn lemma_value_position(vals: Seq<u8>, val: u8, pos: int)
    requires
        0 <= pos < vals.len(),
        vals[pos] == val,
        !vals.take(pos).contains(val),
    ensures
        spec_value_position(vals, val) == Some(pos),
    decreases vals.len(),
{
    let front = vals.drop_last();
    if pos == vals.len() - 1 {
        assert(front =~= vals.take(pos));
    } else {
        assert(front[pos] == val);
        assert(front.take(pos) =~= vals.take(pos));
        lemma_value_position(front, val, pos);
    }
}

/// The mode of speed of the word clock output for an index of the field.
pub fn word_out_mode(idx: usize) -> (mode: WordClkSpeedMode)
    ensures
        mode == (if idx == 0 {
            WordClkSpeedMode::ForceLowRate
        } else {
            WordClkSpeedMode::FollowSystemClk
        }),
{
    if idx == 0 {
        WordClkSpeedMode::ForceLowRate
    } else {
        WordClkSpeedMode::FollowSystemClk
    }
}

/// The index of the field for a mode of speed of the word clock output.
pub fn word_out_idx(mode: WordClkSpeedMode) -> (idx: usize)
    ensures
        idx == (match mode {
            WordClkSpeedMode::ForceLowRate => 0usize,
            WordClkSpeedMode::FollowSystemClk => 1usize,
        }),
{
    match mode {
        WordClkSpeedMode::ForceLowRate => 0,
        WordClkSpeedMode::FollowSystemClk => 1,
    }
}

/// The character at place `i` of the display for the label `label`: the
/// character of the label, or a space behind its end.
pub open spec fn spec_display_char(label: Seq<u8>, i: int) -> u8 {
    if i < label.len() {
        label[i]
    } else {
        0x20
    }
}

/// The four quadlets that show `label` on the display of the clock: its
/// first sixteen characters, filled up with spaces, four in each quadlet
/// with the first in the most significant byte.
pub fn build_clk_display(label: &[u8]) -> (quads: [u32; 4])
    ensures
        forall|i: int|
            0 <= i < 4 ==> quads@[i] == spec_display_char(label@, 4 * i) * 0x100_0000
                + spec_display_char(label@, 4 * i + 1) * 0x1_0000 + spec_display_char(
                label@,
                4 * i + 2,
            ) * 0x100 + spec_display_char(label@, 4 * i + 3),
{
    let mut quads: [u32; 4] = [0; 4];
    let mut i: usize = 0;
    while i < 4
        invariant
            i <= 4,
            forall|k: int|
                0 <= k < i ==> quads@[k] == spec_display_char(label@, 4 * k) * 0x100_0000
                    + spec_display_char(label@, 4 * k + 1) * 0x1_0000 + spec_display_char(
                    label@,
                    4 * k + 2,
                ) * 0x100 + spec_display_char(label@, 4 * k + 3),
        decreases 4 - i,
    {
        let c0 = display_char(label, 4 * i);
        let c1 = display_char(label, 4 * i + 1);
        let c2 = display_char(label, 4 * i + 2);
        let c3 = display_char(label, 4 * i + 3);
        quads[i] = (c0 as u32) * 0x100_0000 + (c1 as u32) * 0x1_0000 + (c2 as u32) * 0x100 + (
        c3 as u32);
        i += 1;
    }
    quads
}

fn display_char(label: &[u8], i: usize) -> (c: u8)
    ensures
        c == spec_display_char(label@, i as int),
{
    if i < label.len() {
        label[i]
    } else {
        0x20
    }
}

} // verus!
