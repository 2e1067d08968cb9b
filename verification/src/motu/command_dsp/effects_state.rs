//! State of the equalizer and of the dynamics effect of every channel.

use vstd::prelude::*;
use crate::float32::Float32;
use super::effects::{DynamicsParameter, EqualizerParameter};
use super::params::{FilterType4, FilterType5, LevelDetectMode, LevelerMode, RollOffLevel};

verus! {

/// The sequence `s` with `v` at place `i`, or `s` itself where it has no such
/// place.
pub open spec fn set_at<T>(s: Seq<T>, i: int, v: T) -> Seq<T> {
    if 0 <= i < s.len() {
        s.update(i, v)
    } else {
        s
    }
}

/// The structure for state of equalizer.
#[derive(Debug)]
pub struct CommandDspEqualizerState {
    pub enable: Vec<bool>,
    pub hpf_enable: Vec<bool>,
    pub hpf_slope: Vec<RollOffLevel>,
    pub hpf_freq: Vec<u32>,
    pub lpf_enable: Vec<bool>,
    pub lpf_slope: Vec<RollOffLevel>,
    pub lpf_freq: Vec<u32>,
    pub lf_enable: Vec<bool>,
    pub lf_type: Vec<FilterType5>,
    pub lf_freq: Vec<u32>,
    pub lf_gain: Vec<Float32>,
    pub lf_width: Vec<Float32>,
    pub lmf_enable: Vec<bool>,
    pub lmf_type: Vec<FilterType4>,
    pub lmf_freq: Vec<u32>,
    pub lmf_gain: Vec<Float32>,
    pub lmf_width: Vec<Float32>,
    pub mf_enable: Vec<bool>,
    pub mf_type: Vec<FilterType4>,
    pub mf_freq: Vec<u32>,
    pub mf_gain: Vec<Float32>,
    pub mf_width: Vec<Float32>,
    pub hmf_enable: Vec<bool>,
    pub hmf_type: Vec<FilterType4>,
    pub hmf_freq: Vec<u32>,
    pub hmf_gain: Vec<Float32>,
    pub hmf_width: Vec<Float32>,
    pub hf_enable: Vec<bool>,
    pub hf_type: Vec<FilterType5>,
    pub hf_freq: Vec<u32>,
    pub hf_gain: Vec<Float32>,
    pub hf_width: Vec<Float32>,
}

impl CommandDspEqualizerState {
    /// Whether the state has room for `count` channels exactly.
    pub open spec fn wf(self, count: nat) -> bool {
        &&& self.enable@.len() == count
        &&& self.hpf_enable@.len() == count
        &&& self.hpf_slope@.len() == count
        &&& self.hpf_freq@.len() == count
        &&& self.lpf_enable@.len() == count
        &&& self.lpf_slope@.len() == count
        &&& self.lpf_freq@.len() == count
        &&& self.lf_enable@.len() == count
        &&& self.lf_type@.len() == count
        &&& self.lf_freq@.len() == count
        &&& self.lf_gain@.len() == count
        &&& self.lf_width@.len() == count
        &&& self.lmf_enable@.len() == count
        &&& self.lmf_type@.len() == count
        &&& self.lmf_freq@.len() == count
        &&& self.lmf_gain@.len() == count
        &&& self.lmf_width@.len() == count
        &&& self.mf_enable@.len() == count
        &&& self.mf_type@.len() == count
        &&& self.mf_freq@.len() == count
        &&& self.mf_gain@.len() == count
        &&& self.mf_width@.len() == count
        &&& self.hmf_enable@.len() == count
        &&& self.hmf_type@.len() == count
        &&& self.hmf_freq@.len() == count
        &&& self.hmf_gain@.len() == count
        &&& self.hmf_width@.len() == count
        &&& self.hf_enable@.len() == count
        &&& self.hf_type@.len() == count
        &&& self.hf_freq@.len() == count
        &&& self.hf_gain@.len() == count
        &&& self.hf_width@.len() == count
    }

    /// Whether every parameter of every channel has its initial value.
    pub open spec fn is_initial(self) -> bool {
        &&& forall|i: int| 0 <= i < self.enable@.len() ==> self.enable@[i] == false
        &&& forall|i: int| 0 <= i < self.hpf_enable@.len() ==> self.hpf_enable@[i] == false
        &&& forall|i: int| 0 <= i < self.hpf_slope@.len() ==> self.hpf_slope@[i] == RollOffLevel::L6
        &&& forall|i: int| 0 <= i < self.hpf_freq@.len() ==> self.hpf_freq@[i] == 0u32
        &&& forall|i: int| 0 <= i < self.lpf_enable@.len() ==> self.lpf_enable@[i] == false
        &&& forall|i: int| 0 <= i < self.lpf_slope@.len() ==> self.lpf_slope@[i] == RollOffLevel::L6
        &&& forall|i: int| 0 <= i < self.lpf_freq@.len() ==> self.lpf_freq@[i] == 0u32
        &&& forall|i: int| 0 <= i < self.lf_enable@.len() ==> self.lf_enable@[i] == false
        &&& forall|i: int| 0 <= i < self.lf_type@.len() ==> self.lf_type@[i] == FilterType5::T1
        &&& forall|i: int| 0 <= i < self.lf_freq@.len() ==> self.lf_freq@[i] == 0u32
        &&& forall|i: int| 0 <= i < self.lf_gain@.len() ==> self.lf_gain@[i] == Float32 { bits: 0 }
        &&& forall|i: int| 0 <= i < self.lf_width@.len() ==> self.lf_width@[i] == Float32 { bits: 0 }
        &&& forall|i: int| 0 <= i < self.lmf_enable@.len() ==> self.lmf_enable@[i] == false
        &&& forall|i: int| 0 <= i < self.lmf_type@.len() ==> self.lmf_type@[i] == FilterType4::T1
        &&& forall|i: int| 0 <= i < self.lmf_freq@.len() ==> self.lmf_freq@[i] == 0u32
        &&& forall|i: int| 0 <= i < self.lmf_gain@.len() ==> self.lmf_gain@[i] == Float32 { bits: 0 }
        &&& forall|i: int| 0 <= i < self.lmf_width@.len() ==> self.lmf_width@[i] == Float32 { bits: 0 }
        &&& forall|i: int| 0 <= i < self.mf_enable@.len() ==> self.mf_enable@[i] == false
        &&& forall|i: int| 0 <= i < self.mf_type@.len() ==> self.mf_type@[i] == FilterType4::T1
        &&& forall|i: int| 0 <= i < self.mf_freq@.len() ==> self.mf_freq@[i] == 0u32
        &&& forall|i: int| 0 <= i < self.mf_gain@.len() ==> self.mf_gain@[i] == Float32 { bits: 0 }
        &&& forall|i: int| 0 <= i < self.mf_width@.len() ==> self.mf_width@[i] == Float32 { bits: 0 }
        &&& forall|i: int| 0 <= i < self.hmf_enable@.len() ==> self.hmf_enable@[i] == false
        &&& forall|i: int| 0 <= i < self.hmf_type@.len() ==> self.hmf_type@[i] == FilterType4::T1
        &&& forall|i: int| 0 <= i < self.hmf_freq@.len() ==> self.hmf_freq@[i] == 0u32
        &&& forall|i: int| 0 <= i < self.hmf_gain@.len() ==> self.hmf_gain@[i] == Float32 { bits: 0 }
        &&& forall|i: int| 0 <= i < self.hmf_width@.len() ==> self.hmf_width@[i] == Float32 { bits: 0 }
        &&& forall|i: int| 0 <= i < self.hf_enable@.len() ==> self.hf_enable@[i] == false
        &&& forall|i: int| 0 <= i < self.hf_type@.len() ==> self.hf_type@[i] == FilterType5::T1
        &&& forall|i: int| 0 <= i < self.hf_freq@.len() ==> self.hf_freq@[i] == 0u32
        &&& forall|i: int| 0 <= i < self.hf_gain@.len() ==> self.hf_gain@[i] == Float32 { bits: 0 }
        &&& forall|i: int| 0 <= i < self.hf_width@.len() ==> self.hf_width@[i] == Float32 { bits: 0 }
    }

    /// The parameters of the equalizer of channel `ch`, in the order in which they are written.
    pub open spec fn spec_parameters(self, ch: int) -> Seq<EqualizerParameter> {
        seq![
            EqualizerParameter::Enable(self.enable@[ch]),
            EqualizerParameter::HpfEnable(self.hpf_enable@[ch]),
            EqualizerParameter::HpfSlope(self.hpf_slope@[ch]),
            EqualizerParameter::HpfFreq(self.hpf_freq@[ch]),
            EqualizerParameter::LpfEnable(self.lpf_enable@[ch]),
            EqualizerParameter::LpfSlope(self.lpf_slope@[ch]),
            EqualizerParameter::LpfFreq(self.lpf_freq@[ch]),
            EqualizerParameter::LfEnable(self.lf_enable@[ch]),
            EqualizerParameter::LfType(self.lf_type@[ch]),
            EqualizerParameter::LfFreq(self.lf_freq@[ch]),
            EqualizerParameter::LfGain(self.lf_gain@[ch]),
            EqualizerParameter::LfWidth(self.lf_width@[ch]),
            EqualizerParameter::LmfEnable(self.lmf_enable@[ch]),
            EqualizerParameter::LmfType(self.lmf_type@[ch]),
            EqualizerParameter::LmfFreq(self.lmf_freq@[ch]),
            EqualizerParameter::LmfGain(self.lmf_gain@[ch]),
            EqualizerParameter::LmfWidth(self.lmf_width@[ch]),
            EqualizerParameter::MfEnable(self.mf_enable@[ch]),
            EqualizerParameter::MfType(self.mf_type@[ch]),
            EqualizerParameter::MfFreq(self.mf_freq@[ch]),
            EqualizerParameter::MfGain(self.mf_gain@[ch]),
            EqualizerParameter::MfWidth(self.mf_width@[ch]),
            EqualizerParameter::HmfEnable(self.hmf_enable@[ch]),
            EqualizerParameter::HmfType(self.hmf_type@[ch]),
            EqualizerParameter::HmfFreq(self.hmf_freq@[ch]),
            EqualizerParameter::HmfGain(self.hmf_gain@[ch]),
            EqualizerParameter::HmfWidth(self.hmf_width@[ch]),
            EqualizerParameter::HfEnable(self.hf_enable@[ch]),
            EqualizerParameter::HfType(self.hf_type@[ch]),
            EqualizerParameter::HfFreq(self.hf_freq@[ch]),
            EqualizerParameter::HfGain(self.hf_gain@[ch]),
            EqualizerParameter::HfWidth(self.hf_width@[ch]),
        ]
    }

    /// The state for `count` channels with every parameter at its initial value.
    pub fn new(count: usize) -> (state: Self)
        ensures
            state.wf(count as nat),
            state.is_initial(),
    {
        CommandDspEqualizerState {
            enable: vec![false; count],
            hpf_enable: vec![false; count],
            hpf_slope: vec![RollOffLevel::default(); count],
            hpf_freq: vec![0u32; count],
            lpf_enable: vec![false; count],
            lpf_slope: vec![RollOffLevel::default(); count],
            lpf_freq: vec![0u32; count],
            lf_enable: vec![false; count],
            lf_type: vec![FilterType5::default(); count],
            lf_freq: vec![0u32; count],
            lf_gain: vec![Float32::from_bits(0); count],
            lf_width: vec![Float32::from_bits(0); count],
            lmf_enable: vec![false; count],
            lmf_type: vec![FilterType4::default(); count],
            lmf_freq: vec![0u32; count],
            lmf_gain: vec![Float32::from_bits(0); count],
            lmf_width: vec![Float32::from_bits(0); count],
            mf_enable: vec![false; count],
            mf_type: vec![FilterType4::default(); count],
            mf_freq: vec![0u32; count],
            mf_gain: vec![Float32::from_bits(0); count],
            mf_width: vec![Float32::from_bits(0); count],
            hmf_enable: vec![false; count],
            hmf_type: vec![FilterType4::default(); count],
            hmf_freq: vec![0u32; count],
            hmf_gain: vec![Float32::from_bits(0); count],
            hmf_width: vec![Float32::from_bits(0); count],
            hf_enable: vec![false; count],
            hf_type: vec![FilterType5::default(); count],
            hf_freq: vec![0u32; count],
            hf_gain: vec![Float32::from_bits(0); count],
            hf_width: vec![Float32::from_bits(0); count],
        }
    }
}

/// Whether `new_state` is `old_state` with the parameter `param` taken over for
/// channel `ch`. A channel that the state has no room for changes nothing.
pub open spec fn parse_equalizer_parameter_applied(
    old_state: CommandDspEqualizerState,
    param: EqualizerParameter,
    ch: usize,
    new_state: CommandDspEqualizerState,
) -> bool {
    match param {
        EqualizerParameter::Enable(val) => {
            &&& new_state == (CommandDspEqualizerState { enable: new_state.enable, ..old_state })
            &&& new_state.enable@ == set_at(old_state.enable@, ch as int, val)
        },
        EqualizerParameter::HpfEnable(val) => {
            &&& new_state == (CommandDspEqualizerState { hpf_enable: new_state.hpf_enable, ..old_state })
            &&& new_state.hpf_enable@ == set_at(old_state.hpf_enable@, ch as int, val)
        },
        EqualizerParameter::HpfSlope(val) => {
            &&& new_state == (CommandDspEqualizerState { hpf_slope: new_state.hpf_slope, ..old_state })
            &&& new_state.hpf_slope@ == set_at(old_state.hpf_slope@, ch as int, val)
        },
        EqualizerParameter::HpfFreq(val) => {
            &&& new_state == (CommandDspEqualizerState { hpf_freq: new_state.hpf_freq, ..old_state })
            &&& new_state.hpf_freq@ == set_at(old_state.hpf_freq@, ch as int, val)
        },
        EqualizerParameter::LpfEnable(val) => {
            &&& new_state == (CommandDspEqualizerState { lpf_enable: new_state.lpf_enable, ..old_state })
            &&& new_state.lpf_enable@ == set_at(old_state.lpf_enable@, ch as int, val)
        },
        EqualizerParameter::LpfSlope(val) => {
            &&& new_state == (CommandDspEqualizerState { lpf_slope: new_state.lpf_slope, ..old_state })
            &&& new_state.lpf_slope@ == set_at(old_state.lpf_slope@, ch as int, val)
        },
        EqualizerParameter::LpfFreq(val) => {
            &&& new_state == (CommandDspEqualizerState { lpf_freq: new_state.lpf_freq, ..old_state })
            &&& new_state.lpf_freq@ == set_at(old_state.lpf_freq@, ch as int, val)
        },
        EqualizerParameter::LfEnable(val) => {
            &&& new_state == (CommandDspEqualizerState { lf_enable: new_state.lf_enable, ..old_state })
            &&& new_state.lf_enable@ == set_at(old_state.lf_enable@, ch as int, val)
        },
        EqualizerParameter::LfType(val) => {
            &&& new_state == (CommandDspEqualizerState { lf_type: new_state.lf_type, ..old_state })
            &&& new_state.lf_type@ == set_at(old_state.lf_type@, ch as int, val)
        },
        EqualizerParameter::LfFreq(val) => {
            &&& new_state == (CommandDspEqualizerState { lf_freq: new_state.lf_freq, ..old_state })
            &&& new_state.lf_freq@ == set_at(old_state.lf_freq@, ch as int, val)
        },
        EqualizerParameter::LfGain(val) => {
            &&& new_state == (CommandDspEqualizerState { lf_gain: new_state.lf_gain, ..old_state })
            &&& new_state.lf_gain@ == set_at(old_state.lf_gain@, ch as int, val)
        },
        EqualizerParameter::LfWidth(val) => {
            &&& new_state == (CommandDspEqualizerState { lf_width: new_state.lf_width, ..old_state })
            &&& new_state.lf_width@ == set_at(old_state.lf_width@, ch as int, val)
        },
        EqualizerParameter::LmfEnable(val) => {
            &&& new_state == (CommandDspEqualizerState { lmf_enable: new_state.lmf_enable, ..old_state })
            &&& new_state.lmf_enable@ == set_at(old_state.lmf_enable@, ch as int, val)
        },
        EqualizerParameter::LmfType(val) => {
            &&& new_state == (CommandDspEqualizerState { lmf_type: new_state.lmf_type, ..old_state })
            &&& new_state.lmf_type@ == set_at(old_state.lmf_type@, ch as int, val)
        },
        EqualizerParameter::LmfFreq(val) => {
            &&& new_state == (CommandDspEqualizerState { lmf_freq: new_state.lmf_freq, ..old_state })
            &&& new_state.lmf_freq@ == set_at(old_state.lmf_freq@, ch as int, val)
        },
        EqualizerParameter::LmfGain(val) => {
            &&& new_state == (CommandDspEqualizerState { lmf_gain: new_state.lmf_gain, ..old_state })
            &&& new_state.lmf_gain@ == set_at(old_state.lmf_gain@, ch as int, val)
        },
        EqualizerParameter::LmfWidth(val) => {
            &&& new_state == (CommandDspEqualizerState { lmf_width: new_state.lmf_width, ..old_state })
            &&& new_state.lmf_width@ == set_at(old_state.lmf_width@, ch as int, val)
        },
        EqualizerParameter::MfEnable(val) => {
            &&& new_state == (CommandDspEqualizerState { mf_enable: new_state.mf_enable, ..old_state })
            &&& new_state.mf_enable@ == set_at(old_state.mf_enable@, ch as int, val)
        },
        EqualizerParameter::MfType(val) => {
            &&& new_state == (CommandDspEqualizerState { mf_type: new_state.mf_type, ..old_state })
            &&& new_state.mf_type@ == set_at(old_state.mf_type@, ch as int, val)
        },
        EqualizerParameter::MfFreq(val) => {
            &&& new_state == (CommandDspEqualizerState { mf_freq: new_state.mf_freq, ..old_state })
            &&& new_state.mf_freq@ == set_at(old_state.mf_freq@, ch as int, val)
        },
        EqualizerParameter::MfGain(val) => {
            &&& new_state == (CommandDspEqualizerState { mf_gain: new_state.mf_gain, ..old_state })
            &&& new_state.mf_gain@ == set_at(old_state.mf_gain@, ch as int, val)
        },
        EqualizerParameter::MfWidth(val) => {
            &&& new_state == (CommandDspEqualizerState { mf_width: new_state.mf_width, ..old_state })
            &&& new_state.mf_width@ == set_at(old_state.mf_width@, ch as int, val)
        },
        EqualizerParameter::HmfEnable(val) => {
            &&& new_state == (CommandDspEqualizerState { hmf_enable: new_state.hmf_enable, ..old_state })
            &&& new_state.hmf_enable@ == set_at(old_state.hmf_enable@, ch as int, val)
        },
        EqualizerParameter::HmfType(val) => {
            &&& new_state == (CommandDspEqualizerState { hmf_type: new_state.hmf_type, ..old_state })
            &&& new_state.hmf_type@ == set_at(old_state.hmf_type@, ch as int, val)
        },
        EqualizerParameter::HmfFreq(val) => {
            &&& new_state == (CommandDspEqualizerState { hmf_freq: new_state.hmf_freq, ..old_state })
            &&& new_state.hmf_freq@ == set_at(old_state.hmf_freq@, ch as int, val)
        },
        EqualizerParameter::HmfGain(val) => {
            &&& new_state == (CommandDspEqualizerState { hmf_gain: new_state.hmf_gain, ..old_state })
            &&& new_state.hmf_gain@ == set_at(old_state.hmf_gain@, ch as int, val)
        },
        EqualizerParameter::HmfWidth(val) => {
            &&& new_state == (CommandDspEqualizerState { hmf_width: new_state.hmf_width, ..old_state })
            &&& new_state.hmf_width@ == set_at(old_state.hmf_width@, ch as int, val)
        },
        EqualizerParameter::HfEnable(val) => {
            &&& new_state == (CommandDspEqualizerState { hf_enable: new_state.hf_enable, ..old_state })
            &&& new_state.hf_enable@ == set_at(old_state.hf_enable@, ch as int, val)
        },
        EqualizerParameter::HfType(val) => {
            &&& new_state == (CommandDspEqualizerState { hf_type: new_state.hf_type, ..old_state })
            &&& new_state.hf_type@ == set_at(old_state.hf_type@, ch as int, val)
        },
        EqualizerParameter::HfFreq(val) => {
            &&& new_state == (CommandDspEqualizerState { hf_freq: new_state.hf_freq, ..old_state })
            &&& new_state.hf_freq@ == set_at(old_state.hf_freq@, ch as int, val)
        },
        EqualizerParameter::HfGain(val) => {
            &&& new_state == (CommandDspEqualizerState { hf_gain: new_state.hf_gain, ..old_state })
            &&& new_state.hf_gain@ == set_at(old_state.hf_gain@, ch as int, val)
        },
        EqualizerParameter::HfWidth(val) => {
            &&& new_state == (CommandDspEqualizerState { hf_width: new_state.hf_width, ..old_state })
            &&& new_state.hf_width@ == set_at(old_state.hf_width@, ch as int, val)
        },
    }
}

pub fn create_equalizer_parameters(state: &CommandDspEqualizerState, ch: usize) -> (params: Vec<EqualizerParameter>)
    requires
        exists|count: nat| state.wf(count) && ch < count,
    ensures
        params@ == state.spec_parameters(ch as int),
{
    let mut params = Vec::new();
    params.push(EqualizerParameter::Enable(state.enable[ch]));
    params.push(EqualizerParameter::HpfEnable(state.hpf_enable[ch]));
    params.push(EqualizerParameter::HpfSlope(state.hpf_slope[ch]));
    params.push(EqualizerParameter::HpfFreq(state.hpf_freq[ch]));
    params.push(EqualizerParameter::LpfEnable(state.lpf_enable[ch]));
    params.push(EqualizerParameter::LpfSlope(state.lpf_slope[ch]));
    params.push(EqualizerParameter::LpfFreq(state.lpf_freq[ch]));
    params.push(EqualizerParameter::LfEnable(state.lf_enable[ch]));
    params.push(EqualizerParameter::LfType(state.lf_type[ch]));
    params.push(EqualizerParameter::LfFreq(state.lf_freq[ch]));
    params.push(EqualizerParameter::LfGain(state.lf_gain[ch]));
    params.push(EqualizerParameter::LfWidth(state.lf_width[ch]));
    params.push(EqualizerParameter::LmfEnable(state.lmf_enable[ch]));
    params.push(EqualizerParameter::LmfType(state.lmf_type[ch]));
    params.push(EqualizerParameter::LmfFreq(state.lmf_freq[ch]));
    params.push(EqualizerParameter::LmfGain(state.lmf_gain[ch]));
    params.push(EqualizerParameter::LmfWidth(state.lmf_width[ch]));
    params.push(EqualizerParameter::MfEnable(state.mf_enable[ch]));
    params.push(EqualizerParameter::MfType(state.mf_type[ch]));
    params.push(EqualizerParameter::MfFreq(state.mf_freq[ch]));
    params.push(EqualizerParameter::MfGain(state.mf_gain[ch]));
    params.push(EqualizerParameter::MfWidth(state.mf_width[ch]));
    params.push(EqualizerParameter::HmfEnable(state.hmf_enable[ch]));
    params.push(EqualizerParameter::HmfType(state.hmf_type[ch]));
    params.push(EqualizerParameter::HmfFreq(state.hmf_freq[ch]));
    params.push(EqualizerParameter::HmfGain(state.hmf_gain[ch]));
    params.push(EqualizerParameter::HmfWidth(state.hmf_width[ch]));
    params.push(EqualizerParameter::HfEnable(state.hf_enable[ch]));
    params.push(EqualizerParameter::HfType(state.hf_type[ch]));
    params.push(EqualizerParameter::HfFreq(state.hf_freq[ch]));
    params.push(EqualizerParameter::HfGain(state.hf_gain[ch]));
    params.push(EqualizerParameter::HfWidth(state.hf_width[ch]));
    assert(params@ =~= state.spec_parameters(ch as int));
    params
}

pub fn parse_equalizer_parameter(state: &mut CommandDspEqualizerState, param: &EqualizerParameter, ch: usize)
    ensures
        parse_equalizer_parameter_applied(*old(state), *param, ch, *final(state)),
{
    match param {
        EqualizerParameter::Enable(val) => {
            if ch < state.enable.len() {
                state.enable.set(ch, *val);
            }
        },
        EqualizerParameter::HpfEnable(val) => {
            if ch < state.hpf_enable.len() {
                state.hpf_enable.set(ch, *val);
            }
        },
        EqualizerParameter::HpfSlope(val) => {
            if ch < state.hpf_slope.len() {
                state.hpf_slope.set(ch, *val);
            }
        },
        EqualizerParameter::HpfFreq(val) => {
            if ch < state.hpf_freq.len() {
                state.hpf_freq.set(ch, *val);
            }
        },
        EqualizerParameter::LpfEnable(val) => {
            if ch < state.lpf_enable.len() {
                state.lpf_enable.set(ch, *val);
            }
        },
        EqualizerParameter::LpfSlope(val) => {
            if ch < state.lpf_slope.len() {
                state.lpf_slope.set(ch, *val);
            }
        },
        EqualizerParameter::LpfFreq(val) => {
            if ch < state.lpf_freq.len() {
                state.lpf_freq.set(ch, *val);
            }
        },
        EqualizerParameter::LfEnable(val) => {
            if ch < state.lf_enable.len() {
                state.lf_enable.set(ch, *val);
            }
        },
        EqualizerParameter::LfType(val) => {
            if ch < state.lf_type.len() {
                state.lf_type.set(ch, *val);
            }
        },
        EqualizerParameter::LfFreq(val) => {
            if ch < state.lf_freq.len() {
                state.lf_freq.set(ch, *val);
            }
        },
        EqualizerParameter::LfGain(val) => {
            if ch < state.lf_gain.len() {
                state.lf_gain.set(ch, *val);
            }
        },
        EqualizerParameter::LfWidth(val) => {
            if ch < state.lf_width.len() {
                state.lf_width.set(ch, *val);
            }
        },
        EqualizerParameter::LmfEnable(val) => {
            if ch < state.lmf_enable.len() {
                state.lmf_enable.set(ch, *val);
            }
        },
        EqualizerParameter::LmfType(val) => {
            if ch < state.lmf_type.len() {
                state.lmf_type.set(ch, *val);
            }
        },
        EqualizerParameter::LmfFreq(val) => {
            if ch < state.lmf_freq.len() {
                state.lmf_freq.set(ch, *val);
            }
        },
        EqualizerParameter::LmfGain(val) => {
            if ch < state.lmf_gain.len() {
                state.lmf_gain.set(ch, *val);
            }
        },
        EqualizerParameter::LmfWidth(val) => {
            if ch < state.lmf_width.len() {
                state.lmf_width.set(ch, *val);
            }
        },
        EqualizerParameter::MfEnable(val) => {
            if ch < state.mf_enable.len() {
                state.mf_enable.set(ch, *val);
            }
        },
        EqualizerParameter::MfType(val) => {
            if ch < state.mf_type.len() {
                state.mf_type.set(ch, *val);
            }
        },
        EqualizerParameter::MfFreq(val) => {
            if ch < state.mf_freq.len() {
                state.mf_freq.set(ch, *val);
            }
        },
        EqualizerParameter::MfGain(val) => {
            if ch < state.mf_gain.len() {
                state.mf_gain.set(ch, *val);
            }
        },
        EqualizerParameter::MfWidth(val) => {
            if ch < state.mf_width.len() {
                state.mf_width.set(ch, *val);
            }
        },
        EqualizerParameter::HmfEnable(val) => {
            if ch < state.hmf_enable.len() {
                state.hmf_enable.set(ch, *val);
            }
        },
        EqualizerParameter::HmfType(val) => {
            if ch < state.hmf_type.len() {
                state.hmf_type.set(ch, *val);
            }
        },
        EqualizerParameter::HmfFreq(val) => {
            if ch < state.hmf_freq.len() {
                state.hmf_freq.set(ch, *val);
            }
        },
        EqualizerParameter::HmfGain(val) => {
            if ch < state.hmf_gain.len() {
                state.hmf_gain.set(ch, *val);
            }
        },
        EqualizerParameter::HmfWidth(val) => {
            if ch < state.hmf_width.len() {
                state.hmf_width.set(ch, *val);
            }
        },
        EqualizerParameter::HfEnable(val) => {
            if ch < state.hf_enable.len() {
                state.hf_enable.set(ch, *val);
            }
        },
        EqualizerParameter::HfType(val) => {
            if ch < state.hf_type.len() {
                state.hf_type.set(ch, *val);
            }
        },
        EqualizerParameter::HfFreq(val) => {
            if ch < state.hf_freq.len() {
                state.hf_freq.set(ch, *val);
            }
        },
        EqualizerParameter::HfGain(val) => {
            if ch < state.hf_gain.len() {
                state.hf_gain.set(ch, *val);
            }
        },
        EqualizerParameter::HfWidth(val) => {
            if ch < state.hf_width.len() {
                state.hf_width.set(ch, *val);
            }
        },
    }
}

/// Taking a parameter over keeps the room of the state.
pub proof fn lemma_parse_equalizer_parameter_keeps_room(
    old_state: CommandDspEqualizerState,
    param: EqualizerParameter,
    ch: usize,
    new_state: CommandDspEqualizerState,
    count: nat,
)
    requires
        parse_equalizer_parameter_applied(old_state, param, ch, new_state),
        old_state.wf(count),
    ensures
        new_state.wf(count),
{
}

/// The structure for state of dynamics.
#[derive(Debug)]
pub struct CommandDspDynamicsState {
    pub enable: Vec<bool>,
    pub comp_enable: Vec<bool>,
    pub comp_detect_mode: Vec<LevelDetectMode>,
    pub comp_threshold: Vec<i32>,
    pub comp_ratio: Vec<Float32>,
    pub comp_attack: Vec<u32>,
    pub comp_release: Vec<u32>,
    pub comp_gain: Vec<Float32>,
    pub leveler_enable: Vec<bool>,
    pub leveler_mode: Vec<LevelerMode>,
    pub leveler_makeup: Vec<u32>,
    pub leveler_reduce: Vec<u32>,
}

impl CommandDspDynamicsState {
    /// Whether the state has room for `count` channels exactly.
    pub open spec fn wf(self, count: nat) -> bool {
        &&& self.enable@.len() == count
        &&& self.comp_enable@.len() == count
        &&& self.comp_detect_mode@.len() == count
        &&& self.comp_threshold@.len() == count
        &&& self.comp_ratio@.len() == count
        &&& self.comp_attack@.len() == count
        &&& self.comp_release@.len() == count
        &&& self.comp_gain@.len() == count
        &&& self.leveler_enable@.len() == count
        &&& self.leveler_mode@.len() == count
        &&& self.leveler_makeup@.len() == count
        &&& self.leveler_reduce@.len() == count
    }

    /// Whether every parameter of every channel has its initial value.
    pub open spec fn is_initial(self) -> bool {
        &&& forall|i: int| 0 <= i < self.enable@.len() ==> self.enable@[i] == false
        &&& forall|i: int| 0 <= i < self.comp_enable@.len() ==> self.comp_enable@[i] == false
        &&& forall|i: int| 0 <= i < self.comp_detect_mode@.len() ==> self.comp_detect_mode@[i] == LevelDetectMode::Peak
        &&& forall|i: int| 0 <= i < self.comp_threshold@.len() ==> self.comp_threshold@[i] == 0i32
        &&& forall|i: int| 0 <= i < self.comp_ratio@.len() ==> self.comp_ratio@[i] == Float32 { bits: 0 }
        &&& forall|i: int| 0 <= i < self.comp_attack@.len() ==> self.comp_attack@[i] == 0u32
        &&& forall|i: int| 0 <= i < self.comp_release@.len() ==> self.comp_release@[i] == 0u32
        &&& forall|i: int| 0 <= i < self.comp_gain@.len() ==> self.comp_gain@[i] == Float32 { bits: 0 }
        &&& forall|i: int| 0 <= i < self.leveler_enable@.len() ==> self.leveler_enable@[i] == false
        &&& forall|i: int| 0 <= i < self.leveler_mode@.len() ==> self.leveler_mode@[i] == LevelerMode::Compress
        &&& forall|i: int| 0 <= i < self.leveler_makeup@.len() ==> self.leveler_makeup@[i] == 0u32
        &&& forall|i: int| 0 <= i < self.leveler_reduce@.len() ==> self.leveler_reduce@[i] == 0u32
    }

    /// The parameters of the dynamics effect of channel `ch`, in the order in which they are written.
    pub open spec fn spec_parameters(self, ch: int) -> Seq<DynamicsParameter> {
        seq![
            DynamicsParameter::Enable(self.enable@[ch]),
            DynamicsParameter::CompEnable(self.comp_enable@[ch]),
            DynamicsParameter::CompDetectMode(self.comp_detect_mode@[ch]),
            DynamicsParameter::CompThreshold(self.comp_threshold@[ch]),
            DynamicsParameter::CompRatio(self.comp_ratio@[ch]),
            DynamicsParameter::CompAttack(self.comp_attack@[ch]),
            DynamicsParameter::CompRelease(self.comp_release@[ch]),
            DynamicsParameter::CompGain(self.comp_gain@[ch]),
            DynamicsParameter::LevelerEnable(self.leveler_enable@[ch]),
            DynamicsParameter::LevelerMode(self.leveler_mode@[ch]),
            DynamicsParameter::LevelerMakeup(self.leveler_makeup@[ch]),
            DynamicsParameter::LevelerReduce(self.leveler_reduce@[ch]),
        ]
    }

    /// The state for `count` channels with every parameter at its initial value.
    pub fn new(count: usize) -> (state: Self)
        ensures
            state.wf(count as nat),
            state.is_initial(),
    {
        CommandDspDynamicsState {
            enable: vec![false; count],
            comp_enable: vec![false; count],
            comp_detect_mode: vec![LevelDetectMode::default(); count],
            comp_threshold: vec![0i32; count],
            comp_ratio: vec![Float32::from_bits(0); count],
            comp_attack: vec![0u32; count],
            comp_release: vec![0u32; count],
            comp_gain: vec![Float32::from_bits(0); count],
            leveler_enable: vec![false; count],
            leveler_mode: vec![LevelerMode::default(); count],
            leveler_makeup: vec![0u32; count],
            leveler_reduce: vec![0u32; count],
        }
    }
}

/// Whether `new_state` is `old_state` with the parameter `param` taken over for
/// channel `ch`. A channel that the state has no room for changes nothing.
pub open spec fn parse_dynamics_parameter_applied(
    old_state: CommandDspDynamicsState,
    param: DynamicsParameter,
    ch: usize,
    new_state: CommandDspDynamicsState,
) -> bool {
    match param {
        DynamicsParameter::Enable(val) => {
            &&& new_state == (CommandDspDynamicsState { enable: new_state.enable, ..old_state })
            &&& new_state.enable@ == set_at(old_state.enable@, ch as int, val)
        },
        DynamicsParameter::CompEnable(val) => {
            &&& new_state == (CommandDspDynamicsState { comp_enable: new_state.comp_enable, ..old_state })
            &&& new_state.comp_enable@ == set_at(old_state.comp_enable@, ch as int, val)
        },
        DynamicsParameter::CompDetectMode(val) => {
            &&& new_state == (CommandDspDynamicsState { comp_detect_mode: new_state.comp_detect_mode, ..old_state })
            &&& new_state.comp_detect_mode@ == set_at(old_state.comp_detect_mode@, ch as int, val)
        },
        DynamicsParameter::CompThreshold(val) => {
            &&& new_state == (CommandDspDynamicsState { comp_threshold: new_state.comp_threshold, ..old_state })
            &&& new_state.comp_threshold@ == set_at(old_state.comp_threshold@, ch as int, val)
        },
        DynamicsParameter::CompRatio(val) => {
            &&& new_state == (CommandDspDynamicsState { comp_ratio: new_state.comp_ratio, ..old_state })
            &&& new_state.comp_ratio@ == set_at(old_state.comp_ratio@, ch as int, val)
        },
        DynamicsParameter::CompAttack(val) => {
            &&& new_state == (CommandDspDynamicsState { comp_attack: new_state.comp_attack, ..old_state })
            &&& new_state.comp_attack@ == set_at(old_state.comp_attack@, ch as int, val)
        },
        DynamicsParameter::CompRelease(val) => {
            &&& new_state == (CommandDspDynamicsState { comp_release: new_state.comp_release, ..old_state })
            &&& new_state.comp_release@ == set_at(old_state.comp_release@, ch as int, val)
        },
        DynamicsParameter::CompGain(val) => {
            &&& new_state == (CommandDspDynamicsState { comp_gain: new_state.comp_gain, ..old_state })
            &&& new_state.comp_gain@ == set_at(old_state.comp_gain@, ch as int, val)
        },
        DynamicsParameter::LevelerEnable(val) => {
            &&& new_state == (CommandDspDynamicsState { leveler_enable: new_state.leveler_enable, ..old_state })
            &&& new_state.leveler_enable@ == set_at(old_state.leveler_enable@, ch as int, val)
        },
        DynamicsParameter::LevelerMode(val) => {
            &&& new_state == (CommandDspDynamicsState { leveler_mode: new_state.leveler_mode, ..old_state })
            &&& new_state.leveler_mode@ == set_at(old_state.leveler_mode@, ch as int, val)
        },
        DynamicsParameter::LevelerMakeup(val) => {
            &&& new_state == (CommandDspDynamicsState { leveler_makeup: new_state.leveler_makeup, ..old_state })
            &&& new_state.leveler_makeup@ == set_at(old_state.leveler_makeup@, ch as int, val)
        },
        DynamicsParameter::LevelerReduce(val) => {
            &&& new_state == (CommandDspDynamicsState { leveler_reduce: new_state.leveler_reduce, ..old_state })
            &&& new_state.leveler_reduce@ == set_at(old_state.leveler_reduce@, ch as int, val)
        },
    }
}

pub fn create_dynamics_parameters(state: &CommandDspDynamicsState, ch: usize) -> (params: Vec<DynamicsParameter>)
    requires
        exists|count: nat| state.wf(count) && ch < count,
    ensures
        params@ == state.spec_parameters(ch as int),
{
    let mut params = Vec::new();
    params.push(DynamicsParameter::Enable(state.enable[ch]));
    params.push(DynamicsParameter::CompEnable(state.comp_enable[ch]));
    params.push(DynamicsParameter::CompDetectMode(state.comp_detect_mode[ch]));
    params.push(DynamicsParameter::CompThreshold(state.comp_threshold[ch]));
    params.push(DynamicsParameter::CompRatio(state.comp_ratio[ch]));
    params.push(DynamicsParameter::CompAttack(state.comp_attack[ch]));
    params.push(DynamicsParameter::CompRelease(state.comp_release[ch]));
    params.push(DynamicsParameter::CompGain(state.comp_gain[ch]));
    params.push(DynamicsParameter::LevelerEnable(state.leveler_enable[ch]));
    params.push(DynamicsParameter::LevelerMode(state.leveler_mode[ch]));
    params.push(DynamicsParameter::LevelerMakeup(state.leveler_makeup[ch]));
    params.push(DynamicsParameter::LevelerReduce(state.leveler_reduce[ch]));
    assert(params@ =~= state.spec_parameters(ch as int));
    params
}

pub fn parse_dynamics_parameter(state: &mut CommandDspDynamicsState, param: &DynamicsParameter, ch: usize)
    ensures
        parse_dynamics_parameter_applied(*old(state), *param, ch, *final(state)),
{
    match param {
        DynamicsParameter::Enable(val) => {
            if ch < state.enable.len() {
                state.enable.set(ch, *val);
            }
        },
        DynamicsParameter::CompEnable(val) => {
            if ch < state.comp_enable.len() {
                state.comp_enable.set(ch, *val);
            }
        },
        DynamicsParameter::CompDetectMode(val) => {
            if ch < state.comp_detect_mode.len() {
                state.comp_detect_mode.set(ch, *val);
            }
        },
        DynamicsParameter::CompThreshold(val) => {
            if ch < state.comp_threshold.len() {
                state.comp_threshold.set(ch, *val);
            }
        },
        DynamicsParameter::CompRatio(val) => {
            if ch < state.comp_ratio.len() {
                state.comp_ratio.set(ch, *val);
            }
        },
        DynamicsParameter::CompAttack(val) => {
            if ch < state.comp_attack.len() {
                state.comp_attack.set(ch, *val);
            }
        },
        DynamicsParameter::CompRelease(val) => {
            if ch < state.comp_release.len() {
                state.comp_release.set(ch, *val);
            }
        },
        DynamicsParameter::CompGain(val) => {
            if ch < state.comp_gain.len() {
                state.comp_gain.set(ch, *val);
            }
        },
        DynamicsParameter::LevelerEnable(val) => {
            if ch < state.leveler_enable.len() {
                state.leveler_enable.set(ch, *val);
            }
        },
        DynamicsParameter::LevelerMode(val) => {
            if ch < state.leveler_mode.len() {
                state.leveler_mode.set(ch, *val);
            }
        },
        DynamicsParameter::LevelerMakeup(val) => {
            if ch < state.leveler_makeup.len() {
                state.leveler_makeup.set(ch, *val);
            }
        },
        DynamicsParameter::LevelerReduce(val) => {
            if ch < state.leveler_reduce.len() {
                state.leveler_reduce.set(ch, *val);
            }
        },
    }
}

/// Taking a parameter over keeps the room of the state.
pub proof fn lemma_parse_dynamics_parameter_keeps_room(
    old_state: CommandDspDynamicsState,
    param: DynamicsParameter,
    ch: usize,
    new_state: CommandDspDynamicsState,
    count: nat,
)
    requires
        parse_dynamics_parameter_applied(old_state, param, ch, new_state),
        old_state.wf(count),
    ensures
        new_state.wf(count),
{
}
/// The place of a parameter in the list of the parameters of a channel.
pub open spec fn equalizer_slot(param: EqualizerParameter) -> int {
    match param {
        EqualizerParameter::Enable(_) => 0,
        EqualizerParameter::HpfEnable(_) => 1,
        EqualizerParameter::HpfSlope(_) => 2,
        EqualizerParameter::HpfFreq(_) => 3,
        EqualizerParameter::LpfEnable(_) => 4,
        EqualizerParameter::LpfSlope(_) => 5,
        EqualizerParameter::LpfFreq(_) => 6,
        EqualizerParameter::LfEnable(_) => 7,
        EqualizerParameter::LfType(_) => 8,
        EqualizerParameter::LfFreq(_) => 9,
        EqualizerParameter::LfGain(_) => 10,
        EqualizerParameter::LfWidth(_) => 11,
        EqualizerParameter::LmfEnable(_) => 12,
        EqualizerParameter::LmfType(_) => 13,
        EqualizerParameter::LmfFreq(_) => 14,
        EqualizerParameter::LmfGain(_) => 15,
        EqualizerParameter::LmfWidth(_) => 16,
        EqualizerParameter::MfEnable(_) => 17,
        EqualizerParameter::MfType(_) => 18,
        EqualizerParameter::MfFreq(_) => 19,
        EqualizerParameter::MfGain(_) => 20,
        EqualizerParameter::MfWidth(_) => 21,
        EqualizerParameter::HmfEnable(_) => 22,
        EqualizerParameter::HmfType(_) => 23,
        EqualizerParameter::HmfFreq(_) => 24,
        EqualizerParameter::HmfGain(_) => 25,
        EqualizerParameter::HmfWidth(_) => 26,
        EqualizerParameter::HfEnable(_) => 27,
        EqualizerParameter::HfType(_) => 28,
        EqualizerParameter::HfFreq(_) => 29,
        EqualizerParameter::HfGain(_) => 30,
        EqualizerParameter::HfWidth(_) => 31,
    }
}

/// The list of the parameters of a channel holds each parameter at its place.
pub proof fn lemma_equalizer_slots(state: CommandDspEqualizerState, ch: int, k: int)
    requires
        0 <= k < 32,
    ensures
        state.spec_parameters(ch).len() == 32,
        equalizer_slot(state.spec_parameters(ch)[k]) == k,
{
}

/// The place of a parameter in the list of the parameters of a channel.
pub open spec fn dynamics_slot(param: DynamicsParameter) -> int {
    match param {
        DynamicsParameter::Enable(_) => 0,
        DynamicsParameter::CompEnable(_) => 1,
        DynamicsParameter::CompDetectMode(_) => 2,
        DynamicsParameter::CompThreshold(_) => 3,
        DynamicsParameter::CompRatio(_) => 4,
        DynamicsParameter::CompAttack(_) => 5,
        DynamicsParameter::CompRelease(_) => 6,
        DynamicsParameter::CompGain(_) => 7,
        DynamicsParameter::LevelerEnable(_) => 8,
        DynamicsParameter::LevelerMode(_) => 9,
        DynamicsParameter::LevelerMakeup(_) => 10,
        DynamicsParameter::LevelerReduce(_) => 11,
    }
}

/// The list of the parameters of a channel holds each parameter at its place.
pub proof fn lemma_dynamics_slots(state: CommandDspDynamicsState, ch: int, k: int)
    requires
        0 <= k < 12,
    ensures
        state.spec_parameters(ch).len() == 12,
        dynamics_slot(state.spec_parameters(ch)[k]) == k,
{
}

} // verus!
