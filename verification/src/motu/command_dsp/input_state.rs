//! State of the inputs.

use vstd::prelude::*;
use crate::float32::Float32;
use super::cmd::{cmds_view, DspCmd};
use super::diff::{
    changed_cmds, changed_places, lemma_changed_cmds_by_place, places_differ, retain_changed,
};
use super::effects::{DynamicsParameter, EqualizerParameter};
use super::effects_state::{
    create_dynamics_parameters, create_equalizer_parameters, dynamics_slot, equalizer_slot,
    lemma_dynamics_slots, lemma_equalizer_slots, parse_dynamics_parameter,
    parse_dynamics_parameter_applied, parse_equalizer_parameter,
    parse_equalizer_parameter_applied, set_at, CommandDspDynamicsState,
    CommandDspEqualizerState,
};
use super::input::InputCmd;
use super::params::InputStereoPairMode;

verus! {

/// The structure for state of input function.
#[derive(Debug)]
pub struct CommandDspInputState {
    pub phase: Vec<bool>,
    pub pair: Vec<bool>,
    pub gain: Vec<i32>,
    pub swap: Vec<bool>,
    pub stereo_mode: Vec<InputStereoPairMode>,
    pub width: Vec<Float32>,
    pub reverb_send: Vec<Float32>,
    pub reverb_balance: Vec<Float32>,
    pub equalizer: CommandDspEqualizerState,
    pub dynamics: CommandDspDynamicsState,
    pub pad: Vec<bool>,
    pub phantom: Vec<bool>,
    pub limitter: Vec<bool>,
    pub lookahead: Vec<bool>,
    pub soft_clip: Vec<bool>,
}

impl CommandDspInputState {
    /// Whether the state has room for `count` inputs and `mic_count` microphones exactly.
    pub open spec fn wf(self, count: nat, mic_count: nat) -> bool {
        &&& self.phase@.len() == count
        &&& self.pair@.len() == count
        &&& self.gain@.len() == count
        &&& self.swap@.len() == count
        &&& self.stereo_mode@.len() == count
        &&& self.width@.len() == count
        &&& self.reverb_send@.len() == count
        &&& self.reverb_balance@.len() == count
        &&& self.equalizer.wf(count)
        &&& self.dynamics.wf(count)
        &&& self.pad@.len() == mic_count
        &&& self.phantom@.len() == mic_count
        &&& self.limitter@.len() == mic_count
        &&& self.lookahead@.len() == mic_count
        &&& self.soft_clip@.len() == mic_count
    }

    /// Whether every parameter has its initial value.
    pub open spec fn is_initial(self) -> bool {
        &&& forall|i: int| 0 <= i < self.phase@.len() ==> self.phase@[i] == false
        &&& forall|i: int| 0 <= i < self.pair@.len() ==> self.pair@[i] == false
        &&& forall|i: int| 0 <= i < self.gain@.len() ==> self.gain@[i] == 0i32
        &&& forall|i: int| 0 <= i < self.swap@.len() ==> self.swap@[i] == false
        &&& forall|i: int| 0 <= i < self.stereo_mode@.len() ==> self.stereo_mode@[i] == InputStereoPairMode::LeftRight
        &&& forall|i: int| 0 <= i < self.width@.len() ==> self.width@[i] == Float32 { bits: 0 }
        &&& forall|i: int| 0 <= i < self.reverb_send@.len() ==> self.reverb_send@[i] == Float32 { bits: 0 }
        &&& forall|i: int| 0 <= i < self.reverb_balance@.len() ==> self.reverb_balance@[i] == Float32 { bits: 0 }
        &&& forall|i: int| 0 <= i < self.pad@.len() ==> self.pad@[i] == false
        &&& forall|i: int| 0 <= i < self.phantom@.len() ==> self.phantom@[i] == false
        &&& forall|i: int| 0 <= i < self.limitter@.len() ==> self.limitter@[i] == false
        &&& forall|i: int| 0 <= i < self.lookahead@.len() ==> self.lookahead@[i] == false
        &&& forall|i: int| 0 <= i < self.soft_clip@.len() ==> self.soft_clip@[i] == false
        &&& self.equalizer.is_initial()
        &&& self.dynamics.is_initial()
    }

    /// The commands for the parameters of the input `ch`, in the order in
    /// which they are written.
    pub open spec fn spec_channel_commands(self, ch: int) -> Seq<DspCmd> {
        seq![
            DspCmd::Input(InputCmd::Phase(ch as usize, self.phase@[ch])),
            DspCmd::Input(InputCmd::Pair(ch as usize, self.pair@[ch])),
            DspCmd::Input(InputCmd::Gain(ch as usize, self.gain@[ch])),
            DspCmd::Input(InputCmd::Swap(ch as usize, self.swap@[ch])),
            DspCmd::Input(InputCmd::StereoMode(ch as usize, self.stereo_mode@[ch])),
            DspCmd::Input(InputCmd::Width(ch as usize, self.width@[ch])),
        ] + self.equalizer.spec_parameters(ch).map_values(
            |param: EqualizerParameter| DspCmd::Input(InputCmd::Equalizer(ch as usize, param)),
        ) + self.dynamics.spec_parameters(ch).map_values(
            |param: DynamicsParameter| DspCmd::Input(InputCmd::Dynamics(ch as usize, param)),
        ) + seq![
            DspCmd::Input(InputCmd::ReverbSend(ch as usize, self.reverb_send@[ch])),
            DspCmd::Input(InputCmd::ReverbLrBalance(ch as usize, self.reverb_balance@[ch])),
        ]
    }

    /// The commands of the first `count` inputs.
    pub open spec fn spec_channels_commands(self, count: nat) -> Seq<DspCmd>
        decreases count,
    {
        if count == 0 {
            Seq::empty()
        } else {
            self.spec_channels_commands((count - 1) as nat) + self.spec_channel_commands(count - 1)
        }
    }

    /// The commands for the parameters of the microphone `ch`.
    pub open spec fn spec_mic_commands(self, ch: int) -> Seq<DspCmd> {
        seq![
            DspCmd::Input(InputCmd::Pad(ch as usize, self.pad@[ch])),
            DspCmd::Input(InputCmd::Phantom(ch as usize, self.phantom@[ch])),
            DspCmd::Input(InputCmd::Limitter(ch as usize, self.limitter@[ch])),
            DspCmd::Input(InputCmd::Lookahead(ch as usize, self.lookahead@[ch])),
            DspCmd::Input(InputCmd::Softclip(ch as usize, self.soft_clip@[ch])),
        ]
    }

    /// The commands of the first `count` microphones.
    pub open spec fn spec_mics_commands(self, count: nat) -> Seq<DspCmd>
        decreases count,
    {
        if count == 0 {
            Seq::empty()
        } else {
            self.spec_mics_commands((count - 1) as nat) + self.spec_mic_commands(count - 1)
        }
    }

    /// The commands for all parameters of the state.
    pub open spec fn spec_commands(self, count: nat, mic_count: nat) -> Seq<DspCmd> {
        self.spec_channels_commands(count) + self.spec_mics_commands(mic_count)
    }
}

/// Whether `new_state` is `old_state` with the value of the command `cmd`
/// taken over. A channel that the state has no room for, and a command of
/// no documented parameter, change nothing.
pub open spec fn input_command_applied(old_state: CommandDspInputState, cmd: InputCmd, new_state: CommandDspInputState) -> bool {
    match cmd {
        InputCmd::Phase(ch, val) => {
            &&& new_state == (CommandDspInputState { phase: new_state.phase, ..old_state })
            &&& new_state.phase@ == set_at(old_state.phase@, ch as int, val)
        },
        InputCmd::Pair(ch, val) => {
            &&& new_state == (CommandDspInputState { pair: new_state.pair, ..old_state })
            &&& new_state.pair@ == set_at(old_state.pair@, ch as int, val)
        },
        InputCmd::Gain(ch, val) => {
            &&& new_state == (CommandDspInputState { gain: new_state.gain, ..old_state })
            &&& new_state.gain@ == set_at(old_state.gain@, ch as int, val)
        },
        InputCmd::Swap(ch, val) => {
            &&& new_state == (CommandDspInputState { swap: new_state.swap, ..old_state })
            &&& new_state.swap@ == set_at(old_state.swap@, ch as int, val)
        },
        InputCmd::StereoMode(ch, val) => {
            &&& new_state == (CommandDspInputState { stereo_mode: new_state.stereo_mode, ..old_state })
            &&& new_state.stereo_mode@ == set_at(old_state.stereo_mode@, ch as int, val)
        },
        InputCmd::Width(ch, val) => {
            &&& new_state == (CommandDspInputState { width: new_state.width, ..old_state })
            &&& new_state.width@ == set_at(old_state.width@, ch as int, val)
        },
        InputCmd::ReverbSend(ch, val) => {
            &&& new_state == (CommandDspInputState { reverb_send: new_state.reverb_send, ..old_state })
            &&& new_state.reverb_send@ == set_at(old_state.reverb_send@, ch as int, val)
        },
        InputCmd::ReverbLrBalance(ch, val) => {
            &&& new_state == (CommandDspInputState { reverb_balance: new_state.reverb_balance, ..old_state })
            &&& new_state.reverb_balance@ == set_at(old_state.reverb_balance@, ch as int, val)
        },
        InputCmd::Pad(ch, val) => {
            &&& new_state == (CommandDspInputState { pad: new_state.pad, ..old_state })
            &&& new_state.pad@ == set_at(old_state.pad@, ch as int, val)
        },
        InputCmd::Phantom(ch, val) => {
            &&& new_state == (CommandDspInputState { phantom: new_state.phantom, ..old_state })
            &&& new_state.phantom@ == set_at(old_state.phantom@, ch as int, val)
        },
        InputCmd::Limitter(ch, val) => {
            &&& new_state == (CommandDspInputState { limitter: new_state.limitter, ..old_state })
            &&& new_state.limitter@ == set_at(old_state.limitter@, ch as int, val)
        },
        InputCmd::Lookahead(ch, val) => {
            &&& new_state == (CommandDspInputState { lookahead: new_state.lookahead, ..old_state })
            &&& new_state.lookahead@ == set_at(old_state.lookahead@, ch as int, val)
        },
        InputCmd::Softclip(ch, val) => {
            &&& new_state == (CommandDspInputState { soft_clip: new_state.soft_clip, ..old_state })
            &&& new_state.soft_clip@ == set_at(old_state.soft_clip@, ch as int, val)
        },
        InputCmd::Equalizer(ch, param) => {
            &&& new_state == (CommandDspInputState { equalizer: new_state.equalizer, ..old_state })
            &&& parse_equalizer_parameter_applied(old_state.equalizer, param, ch, new_state.equalizer)
        },
        InputCmd::Dynamics(ch, param) => {
            &&& new_state == (CommandDspInputState { dynamics: new_state.dynamics, ..old_state })
            &&& parse_dynamics_parameter_applied(old_state.dynamics, param, ch, new_state.dynamics)
        },
        InputCmd::Reserved(_, _) => new_state == old_state,
    }
}

/// Whether `new_state` is `old_state` with the command `cmd` taken over, if
/// it is a command of the inputs, and `old_state` itself else.
pub open spec fn input_dsp_command_applied(old_state: CommandDspInputState, cmd: DspCmd, new_state: CommandDspInputState) -> bool {
    match cmd {
        DspCmd::Input(c) => input_command_applied(old_state, c, new_state),
        _ => new_state == old_state,
    }
}

/// Whether `new_state` is `old_state` with the commands of `cmds` taken over
/// one after the other.
pub open spec fn input_commands_applied(old_state: CommandDspInputState, cmds: Seq<DspCmd>, new_state: CommandDspInputState) -> bool
    decreases cmds.len(),
{
    if cmds.len() == 0 {
        new_state == old_state
    } else {
        exists|mid: CommandDspInputState|
            input_commands_applied(old_state, cmds.drop_last(), mid) && input_dsp_command_applied(
                mid,
                cmds.last(),
                new_state,
            )
    }
}

/// The state for the given count of inputs and microphones with every parameter at
/// its initial value.
pub fn create_input_state(input_count: usize, mic_count: usize) -> (state: CommandDspInputState)
    ensures
        state.wf(input_count as nat, mic_count as nat),
        state.is_initial(),
{
    CommandDspInputState {
        phase: vec![false; input_count],
        pair: vec![false; input_count],
        gain: vec![0i32; input_count],
        swap: vec![false; input_count],
        stereo_mode: vec![InputStereoPairMode::default(); input_count],
        width: vec![Float32::from_bits(0); input_count],
        reverb_send: vec![Float32::from_bits(0); input_count],
        reverb_balance: vec![Float32::from_bits(0); input_count],
        equalizer: CommandDspEqualizerState::new(input_count),
        dynamics: CommandDspDynamicsState::new(input_count),
        pad: vec![false; mic_count],
        phantom: vec![false; mic_count],
        limitter: vec![false; mic_count],
        lookahead: vec![false; mic_count],
        soft_clip: vec![false; mic_count],
    }
}

fn push_channel_commands(state: &CommandDspInputState, ch: usize, cmds: &mut Vec<DspCmd>)
    requires
        exists|count: nat| state.equalizer.wf(count) && state.dynamics.wf(count) && ch < count,
        ch < state.phase@.len(),
        ch < state.pair@.len(),
        ch < state.gain@.len(),
        ch < state.swap@.len(),
        ch < state.stereo_mode@.len(),
        ch < state.width@.len(),
        ch < state.reverb_send@.len(),
        ch < state.reverb_balance@.len(),
    ensures
        final(cmds)@ == old(cmds)@ + state.spec_channel_commands(ch as int),
{
    let ghost mut expected: Seq<DspCmd> = Seq::empty();
    assert(cmds@ =~= old(cmds)@ + expected);
    cmds.push(DspCmd::Input(InputCmd::Phase(ch, state.phase[ch])));
    cmds.push(DspCmd::Input(InputCmd::Pair(ch, state.pair[ch])));
    cmds.push(DspCmd::Input(InputCmd::Gain(ch, state.gain[ch])));
    cmds.push(DspCmd::Input(InputCmd::Swap(ch, state.swap[ch])));
    cmds.push(DspCmd::Input(InputCmd::StereoMode(ch, state.stereo_mode[ch])));
    cmds.push(DspCmd::Input(InputCmd::Width(ch, state.width[ch])));
    proof {
        expected = seq![
            DspCmd::Input(InputCmd::Phase(ch, state.phase@[ch as int])),
            DspCmd::Input(InputCmd::Pair(ch, state.pair@[ch as int])),
            DspCmd::Input(InputCmd::Gain(ch, state.gain@[ch as int])),
            DspCmd::Input(InputCmd::Swap(ch, state.swap@[ch as int])),
            DspCmd::Input(InputCmd::StereoMode(ch, state.stereo_mode@[ch as int])),
            DspCmd::Input(InputCmd::Width(ch, state.width@[ch as int])),
        ];
        assert(cmds@ =~= old(cmds)@ + expected);
    }
    let params = create_equalizer_parameters(&state.equalizer, ch);
    let ghost mapped = params@.map_values(
        |param: EqualizerParameter| DspCmd::Input(InputCmd::Equalizer(ch, param)),
    );
    let ghost base = cmds@;
    let mut i: usize = 0;
    while i < params.len()
        invariant
            i <= params@.len(),
            mapped == params@.map_values(|param: EqualizerParameter| DspCmd::Input(InputCmd::Equalizer(ch, param))),
            cmds@ == base + mapped.take(i as int),
        decreases params@.len() - i,
    {
        cmds.push(DspCmd::Input(InputCmd::Equalizer(ch, params[i])));
        assert(cmds@ =~= base + mapped.take(i + 1));
        i += 1;
    }
    proof {
        assert(mapped.take(i as int) =~= mapped);
        expected = expected + mapped;
        assert(cmds@ =~= old(cmds)@ + expected);
    }
    let params = create_dynamics_parameters(&state.dynamics, ch);
    let ghost mapped = params@.map_values(
        |param: DynamicsParameter| DspCmd::Input(InputCmd::Dynamics(ch, param)),
    );
    let ghost base = cmds@;
    let mut i: usize = 0;
    while i < params.len()
        invariant
            i <= params@.len(),
            mapped == params@.map_values(|param: DynamicsParameter| DspCmd::Input(InputCmd::Dynamics(ch, param))),
            cmds@ == base + mapped.take(i as int),
        decreases params@.len() - i,
    {
        cmds.push(DspCmd::Input(InputCmd::Dynamics(ch, params[i])));
        assert(cmds@ =~= base + mapped.take(i + 1));
        i += 1;
    }
    proof {
        assert(mapped.take(i as int) =~= mapped);
        expected = expected + mapped;
        assert(cmds@ =~= old(cmds)@ + expected);
    }
    cmds.push(DspCmd::Input(InputCmd::ReverbSend(ch, state.reverb_send[ch])));
    cmds.push(DspCmd::Input(InputCmd::ReverbLrBalance(ch, state.reverb_balance[ch])));
    assert(cmds@ =~= old(cmds)@ + state.spec_channel_commands(ch as int));
}

pub fn create_input_commands(state: &CommandDspInputState, input_count: usize, mic_count: usize) -> (cmds: Vec<DspCmd>)
    requires
        state.wf(input_count as nat, mic_count as nat),
    ensures
        cmds@ == state.spec_commands(input_count as nat, mic_count as nat),
{
    let mut cmds: Vec<DspCmd> = Vec::new();
    let mut ch: usize = 0;
    while ch < input_count
        invariant
            ch <= input_count,
            state.wf(input_count as nat, mic_count as nat),
            cmds@ == state.spec_channels_commands(ch as nat),
        decreases input_count - ch,
    {
        push_channel_commands(state, ch, &mut cmds);
        ch += 1;
    }
    let ghost base = cmds@;
    let mut ch: usize = 0;
    assert(cmds@ =~= base + state.spec_mics_commands(0));
    while ch < mic_count
        invariant
            ch <= mic_count,
            state.wf(input_count as nat, mic_count as nat),
            cmds@ == base + state.spec_mics_commands(ch as nat),
        decreases mic_count - ch,
    {
        cmds.push(DspCmd::Input(InputCmd::Pad(ch, state.pad[ch])));
        cmds.push(DspCmd::Input(InputCmd::Phantom(ch, state.phantom[ch])));
        cmds.push(DspCmd::Input(InputCmd::Limitter(ch, state.limitter[ch])));
        cmds.push(DspCmd::Input(InputCmd::Lookahead(ch, state.lookahead[ch])));
        cmds.push(DspCmd::Input(InputCmd::Softclip(ch, state.soft_clip[ch])));
        assert(cmds@ =~= base + state.spec_mics_commands((ch + 1) as nat));
        ch += 1;
    }
    cmds
}

pub fn parse_input_command(state: &mut CommandDspInputState, cmd: &InputCmd)
    ensures
        input_command_applied(*old(state), *cmd, *final(state)),
{
    match cmd {
        InputCmd::Phase(ch, val) => {
            if *ch < state.phase.len() {
                state.phase.set(*ch, *val);
            }
        },
        InputCmd::Pair(ch, val) => {
            if *ch < state.pair.len() {
                state.pair.set(*ch, *val);
            }
        },
        InputCmd::Gain(ch, val) => {
            if *ch < state.gain.len() {
                state.gain.set(*ch, *val);
            }
        },
        InputCmd::Swap(ch, val) => {
            if *ch < state.swap.len() {
                state.swap.set(*ch, *val);
            }
        },
        InputCmd::StereoMode(ch, val) => {
            if *ch < state.stereo_mode.len() {
                state.stereo_mode.set(*ch, *val);
            }
        },
        InputCmd::Width(ch, val) => {
            if *ch < state.width.len() {
                state.width.set(*ch, *val);
            }
        },
        InputCmd::ReverbSend(ch, val) => {
            if *ch < state.reverb_send.len() {
                state.reverb_send.set(*ch, *val);
            }
        },
        InputCmd::ReverbLrBalance(ch, val) => {
            if *ch < state.reverb_balance.len() {
                state.reverb_balance.set(*ch, *val);
            }
        },
        InputCmd::Pad(ch, val) => {
            if *ch < state.pad.len() {
                state.pad.set(*ch, *val);
            }
        },
        InputCmd::Phantom(ch, val) => {
            if *ch < state.phantom.len() {
                state.phantom.set(*ch, *val);
            }
        },
        InputCmd::Limitter(ch, val) => {
            if *ch < state.limitter.len() {
                state.limitter.set(*ch, *val);
            }
        },
        InputCmd::Lookahead(ch, val) => {
            if *ch < state.lookahead.len() {
                state.lookahead.set(*ch, *val);
            }
        },
        InputCmd::Softclip(ch, val) => {
            if *ch < state.soft_clip.len() {
                state.soft_clip.set(*ch, *val);
            }
        },
        InputCmd::Equalizer(ch, param) => parse_equalizer_parameter(&mut state.equalizer, param, *ch),
        InputCmd::Dynamics(ch, param) => parse_dynamics_parameter(&mut state.dynamics, param, *ch),
        InputCmd::Reserved(_, _) => {
        },
    }
}

/// Takes the commands of the inputs among `cmds` over into the state, one
/// after the other, and passes over the commands of other sections.
pub fn parse_input_commands(state: &mut CommandDspInputState, cmds: &[DspCmd])
    ensures
        input_commands_applied(*old(state), cmds@, *final(state)),
{
    let mut i: usize = 0;
    assert(cmds@.take(0).len() == 0);
    while i < cmds.len()
        invariant
            i <= cmds@.len(),
            input_commands_applied(*old(state), cmds@.take(i as int), *state),
        decreases cmds@.len() - i,
    {
        let ghost mid = *state;
        if let DspCmd::Input(c) = &cmds[i] {
            parse_input_command(state, c);
        }
        proof {
            let next = cmds@.take(i + 1);
            assert(next.drop_last() =~= cmds@.take(i as int));
            assert(next.last() == cmds@[i as int]);
            assert(input_dsp_command_applied(mid, next.last(), *state));
        }
        i += 1;
    }
    assert(cmds@.take(i as int) =~= cmds@);
}

/// The commands that bring the device from the state `old` to the state
/// `state`: those for `state` that are not among those for `old`.
pub fn changed_input_commands(state: &CommandDspInputState, old: &CommandDspInputState, input_count: usize, mic_count: usize) -> (cmds: Vec<DspCmd>)
    requires
        state.wf(input_count as nat, mic_count as nat),
        old.wf(input_count as nat, mic_count as nat),
    ensures
        cmds_view(cmds@) == changed_cmds(
            cmds_view(state.spec_commands(input_count as nat, mic_count as nat)),
            cmds_view(old.spec_commands(input_count as nat, mic_count as nat)),
        ),
{
    let new_cmds = create_input_commands(state, input_count, mic_count);
    let old_cmds = create_input_commands(old, input_count, mic_count);
    retain_changed(new_cmds.as_slice(), old_cmds.as_slice())
}

/// The place of a command in the list of the commands of its channel; the
/// commands of a microphone follow those of an input.
pub open spec fn input_slot(cmd: DspCmd) -> int {
    match cmd {
        DspCmd::Input(InputCmd::Phase(_, _)) => 0,
        DspCmd::Input(InputCmd::Pair(_, _)) => 1,
        DspCmd::Input(InputCmd::Gain(_, _)) => 2,
        DspCmd::Input(InputCmd::Swap(_, _)) => 3,
        DspCmd::Input(InputCmd::StereoMode(_, _)) => 4,
        DspCmd::Input(InputCmd::Width(_, _)) => 5,
        DspCmd::Input(InputCmd::Equalizer(_, param)) => 6 + equalizer_slot(param),
        DspCmd::Input(InputCmd::Dynamics(_, param)) => 38 + dynamics_slot(param),
        DspCmd::Input(InputCmd::ReverbSend(_, _)) => 50,
        DspCmd::Input(InputCmd::ReverbLrBalance(_, _)) => 51,
        DspCmd::Input(InputCmd::Pad(_, _)) => 52,
        DspCmd::Input(InputCmd::Phantom(_, _)) => 53,
        DspCmd::Input(InputCmd::Limitter(_, _)) => 54,
        DspCmd::Input(InputCmd::Lookahead(_, _)) => 55,
        DspCmd::Input(InputCmd::Softclip(_, _)) => 56,
        _ => -1,
    }
}

/// The channel of a command of the inputs.
pub open spec fn input_channel(cmd: DspCmd) -> int {
    match cmd {
        DspCmd::Input(c) => c.spec_channel() as int,
        _ => -1,
    }
}

proof fn lemma_channel_places(state: CommandDspInputState, ch: int, k: int)
    requires
        0 <= ch <= usize::MAX,
        0 <= k < 52,
    ensures
        state.spec_channel_commands(ch).len() == 52,
        input_slot(state.spec_channel_commands(ch)[k]) == k,
        input_channel(state.spec_channel_commands(ch)[k]) == ch,
{
    if 6 <= k < 38 {
        lemma_equalizer_slots(state.equalizer, ch, k - 6);
    } else if 38 <= k < 50 {
        lemma_dynamics_slots(state.dynamics, ch, k - 38);
    }
    lemma_equalizer_slots(state.equalizer, ch, 0);
    lemma_dynamics_slots(state.dynamics, ch, 0);
}

proof fn lemma_channels_places(state: CommandDspInputState, count: nat, i: int)
    requires
        count <= usize::MAX,
        0 <= i < 52 * count,
    ensures
        state.spec_channels_commands(count).len() == 52 * count,
        input_slot(state.spec_channels_commands(count)[i]) == i % 52,
        input_channel(state.spec_channels_commands(count)[i]) == i / 52,
    decreases count,
{
    lemma_channels_len(state, count);
    lemma_channels_len(state, (count - 1) as nat);
    if i < 52 * (count - 1) {
        lemma_channels_places(state, (count - 1) as nat, i);
    } else {
        lemma_channel_places(state, count - 1, i - 52 * (count - 1));
    }
}

proof fn lemma_channels_len(state: CommandDspInputState, count: nat)
    ensures
        state.spec_channels_commands(count).len() == 52 * count,
    decreases count,
{
    if count > 0 {
        lemma_channels_len(state, (count - 1) as nat);
        lemma_channel_places(state, 0, 0);
        assert(state.spec_channel_commands(count - 1).len() == 52) by {
            lemma_equalizer_slots(state.equalizer, count - 1, 0);
            lemma_dynamics_slots(state.dynamics, count - 1, 0);
        }
    }
}

proof fn lemma_mics_places(state: CommandDspInputState, count: nat, i: int)
    requires
        count <= usize::MAX,
        0 <= i < 5 * count,
    ensures
        state.spec_mics_commands(count).len() == 5 * count,
        input_slot(state.spec_mics_commands(count)[i]) == 52 + i % 5,
        input_channel(state.spec_mics_commands(count)[i]) == i / 5,
    decreases count,
{
    lemma_mics_len(state, count);
    lemma_mics_len(state, (count - 1) as nat);
    if i < 5 * (count - 1) {
        lemma_mics_places(state, (count - 1) as nat, i);
    }
}

proof fn lemma_mics_len(state: CommandDspInputState, count: nat)
    ensures
        state.spec_mics_commands(count).len() == 5 * count,
    decreases count,
{
    if count > 0 {
        lemma_mics_len(state, (count - 1) as nat);
    }
}

/// The lists of commands of two states of the inputs hold different
/// commands at different places.
pub proof fn lemma_input_places_differ(a: CommandDspInputState, b: CommandDspInputState, count: nat, mic_count: nat)
    requires
        count <= usize::MAX,
        mic_count <= usize::MAX,
    ensures
        a.spec_commands(count, mic_count).len() == b.spec_commands(count, mic_count).len(),
        places_differ(
            cmds_view(a.spec_commands(count, mic_count)),
            cmds_view(b.spec_commands(count, mic_count)),
        ),
{
    let x = a.spec_commands(count, mic_count);
    let y = b.spec_commands(count, mic_count);
    lemma_channels_len(a, count);
    lemma_channels_len(b, count);
    lemma_mics_len(a, mic_count);
    lemma_mics_len(b, mic_count);
    assert forall|i: int, j: int|
        0 <= i < x.len() && 0 <= j < y.len() && i != j implies cmds_view(x)[i] != cmds_view(
        y,
    )[j] by {
        lemma_input_place(a, count, mic_count, i);
        lemma_input_place(b, count, mic_count, j);
        if cmds_view(x)[i] == cmds_view(y)[j] {
            assert(x[i]@ == y[j]@);
            assert(x[i] == y[j]);
        }
    }
}

/// The command at a place of the list of a state is the command of a
/// documented parameter, and its channel and its place among the commands
/// of the channel are given by the place in the list.
proof fn lemma_input_place(state: CommandDspInputState, count: nat, mic_count: nat, i: int)
    requires
        count <= usize::MAX,
        mic_count <= usize::MAX,
        0 <= i < state.spec_commands(count, mic_count).len(),
    ensures
        state.spec_commands(count, mic_count)[i] is Input,
        !(state.spec_commands(count, mic_count)[i]->Input_0 is Reserved),
        i < 52 * count ==> input_slot(state.spec_commands(count, mic_count)[i]) == i % 52
            && input_channel(state.spec_commands(count, mic_count)[i]) == i / 52,
        i >= 52 * count ==> input_slot(state.spec_commands(count, mic_count)[i]) == 52 + (i
            - 52 * count) % 5 && input_channel(state.spec_commands(count, mic_count)[i]) == (i
            - 52 * count) / 5,
{
    lemma_channels_len(state, count);
    lemma_mics_len(state, mic_count);
    if i < 52 * count {
        lemma_channels_places(state, count, i);
    } else {
        lemma_mics_places(state, mic_count, i - 52 * count);
    }
}

/// The commands that bring the device from one state of the inputs to
/// another are the commands for the parameters in which the two states
/// differ, in their order, and no others.
pub proof fn lemma_changed_input_commands_by_place(state: CommandDspInputState, old: CommandDspInputState, count: nat, mic_count: nat)
    requires
        count <= usize::MAX,
        mic_count <= usize::MAX,
    ensures
        changed_cmds(
            cmds_view(state.spec_commands(count, mic_count)),
            cmds_view(old.spec_commands(count, mic_count)),
        ) == changed_places(
            cmds_view(state.spec_commands(count, mic_count)),
            cmds_view(old.spec_commands(count, mic_count)),
        ),
{
    lemma_input_places_differ(state, old, count, mic_count);
    lemma_changed_cmds_by_place(
        cmds_view(state.spec_commands(count, mic_count)),
        cmds_view(old.spec_commands(count, mic_count)),
    );
}

} // verus!
