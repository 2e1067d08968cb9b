//! State of the outputs.

use vstd::prelude::*;
use crate::float32::Float32;
use super::cmd::{cmds_view, DspCmd};
use super::diff::{
    changed_cmds, changed_places, lemma_changed_cmds_by_place, places_differ, retain_changed,
};
use super::effects::{DynamicsParameter, EqualizerParameter};
use super::effects_state::{
    create_dynamics_parameters, create_equalizer_parameters, dynamics_slot, equalizer_slot,
    lemma_dynamics_slots, lemma_equalizer_slots, parse_dynamics_parameter,
    parse_dynamics_parameter_applied, parse_equalizer_parameter,
    parse_equalizer_parameter_applied, set_at, CommandDspDynamicsState,
    CommandDspEqualizerState,
};
use super::output::OutputCmd;

verus! {

/// The structure for state of output function.
#[derive(Debug)]
pub struct CommandDspOutputState {
    pub reverb_send: Vec<Float32>,
    pub reverb_return: Vec<Float32>,
    pub master_monitor: Vec<bool>,
    pub master_talkback: Vec<bool>,
    pub master_listenback: Vec<bool>,
    pub equalizer: CommandDspEqualizerState,
    pub dynamics: CommandDspDynamicsState,
}

impl CommandDspOutputState {
    /// Whether the state has room for `count` outputs exactly.
    pub open spec fn wf(self, count: nat) -> bool {
        &&& self.reverb_send@.len() == count
        &&& self.reverb_return@.len() == count
        &&& self.master_monitor@.len() == count
        &&& self.master_talkback@.len() == count
        &&& self.master_listenback@.len() == count
        &&& self.equalizer.wf(count)
        &&& self.dynamics.wf(count)
    }

    /// Whether every parameter has its initial value.
    pub open spec fn is_initial(self) -> bool {
        &&& forall|i: int| 0 <= i < self.reverb_send@.len() ==> self.reverb_send@[i] == Float32 { bits: 0 }
        &&& forall|i: int| 0 <= i < self.reverb_return@.len() ==> self.reverb_return@[i] == Float32 { bits: 0 }
        &&& forall|i: int| 0 <= i < self.master_monitor@.len() ==> self.master_monitor@[i] == false
        &&& forall|i: int| 0 <= i < self.master_talkback@.len() ==> self.master_talkback@[i] == false
        &&& forall|i: int| 0 <= i < self.master_listenback@.len() ==> self.master_listenback@[i] == false
        &&& self.equalizer.is_initial()
        &&& self.dynamics.is_initial()
    }

    /// The commands for the parameters of the output `ch`, in the order in
    /// which they are written.
    pub open spec fn spec_channel_commands(self, ch: int) -> Seq<DspCmd> {
        self.equalizer.spec_parameters(ch).map_values(
            |param: EqualizerParameter| DspCmd::Output(OutputCmd::Equalizer(ch as usize, param)),
        ) + self.dynamics.spec_parameters(ch).map_values(
            |param: DynamicsParameter| DspCmd::Output(OutputCmd::Dynamics(ch as usize, param)),
        ) + seq![
            DspCmd::Output(OutputCmd::ReverbSend(ch as usize, self.reverb_send@[ch])),
            DspCmd::Output(OutputCmd::ReverbReturn(ch as usize, self.reverb_return@[ch])),
            DspCmd::Output(OutputCmd::MasterMonitor(ch as usize, self.master_monitor@[ch])),
            DspCmd::Output(OutputCmd::MasterTalkback(ch as usize, self.master_talkback@[ch])),
            DspCmd::Output(OutputCmd::MasterListenback(ch as usize, self.master_listenback@[ch])),
        ]
    }

    /// The commands of the first `count` outputs.
    pub open spec fn spec_channels_commands(self, count: nat) -> Seq<DspCmd>
        decreases count,
    {
        if count == 0 {
            Seq::empty()
        } else {
            self.spec_channels_commands((count - 1) as nat) + self.spec_channel_commands(count - 1)
        }
    }

    /// The commands for all parameters of the state.
    pub open spec fn spec_commands(self, count: nat) -> Seq<DspCmd> {
        self.spec_channels_commands(count)
    }
}

/// Whether `new_state` is `old_state` with the value of the command `cmd`
/// taken over. A channel that the state has no room for, and a command of
/// no documented parameter, change nothing.
pub open spec fn output_command_applied(old_state: CommandDspOutputState, cmd: OutputCmd, new_state: CommandDspOutputState) -> bool {
    match cmd {
        OutputCmd::ReverbSend(ch, val) => {
            &&& new_state == (CommandDspOutputState { reverb_send: new_state.reverb_send, ..old_state })
            &&& new_state.reverb_send@ == set_at(old_state.reverb_send@, ch as int, val)
        },
        OutputCmd::ReverbReturn(ch, val) => {
            &&& new_state == (CommandDspOutputState { reverb_return: new_state.reverb_return, ..old_state })
            &&& new_state.reverb_return@ == set_at(old_state.reverb_return@, ch as int, val)
        },
        OutputCmd::MasterMonitor(ch, val) => {
            &&& new_state == (CommandDspOutputState { master_monitor: new_state.master_monitor, ..old_state })
            &&& new_state.master_monitor@ == set_at(old_state.master_monitor@, ch as int, val)
        },
        OutputCmd::MasterTalkback(ch, val) => {
            &&& new_state == (CommandDspOutputState { master_talkback: new_state.master_talkback, ..old_state })
            &&& new_state.master_talkback@ == set_at(old_state.master_talkback@, ch as int, val)
        },
        OutputCmd::MasterListenback(ch, val) => {
            &&& new_state == (CommandDspOutputState { master_listenback: new_state.master_listenback, ..old_state })
            &&& new_state.master_listenback@ == set_at(old_state.master_listenback@, ch as int, val)
        },
        OutputCmd::Equalizer(ch, param) => {
            &&& new_state == (CommandDspOutputState { equalizer: new_state.equalizer, ..old_state })
            &&& parse_equalizer_parameter_applied(old_state.equalizer, param, ch, new_state.equalizer)
        },
        OutputCmd::Dynamics(ch, param) => {
            &&& new_state == (CommandDspOutputState { dynamics: new_state.dynamics, ..old_state })
            &&& parse_dynamics_parameter_applied(old_state.dynamics, param, ch, new_state.dynamics)
        },
        OutputCmd::Reserved(_, _) => new_state == old_state,
    }
}

/// Whether `new_state` is `old_state` with the command `cmd` taken over, if
/// it is a command of the outputs, and `old_state` itself else.
pub open spec fn output_dsp_command_applied(old_state: CommandDspOutputState, cmd: DspCmd, new_state: CommandDspOutputState) -> bool {
    match cmd {
        DspCmd::Output(c) => output_command_applied(old_state, c, new_state),
        _ => new_state == old_state,
    }
}

/// Whether `new_state` is `old_state` with the commands of `cmds` taken over
/// one after the other.
pub open spec fn output_commands_applied(old_state: CommandDspOutputState, cmds: Seq<DspCmd>, new_state: CommandDspOutputState) -> bool
    decreases cmds.len(),
{
    if cmds.len() == 0 {
        new_state == old_state
    } else {
        exists|mid: CommandDspOutputState|
            output_commands_applied(old_state, cmds.drop_last(), mid) && output_dsp_command_applied(
                mid,
                cmds.last(),
                new_state,
            )
    }
}

/// The state for the given count of outputs with every parameter at
/// its initial value.
pub fn create_output_state(output_count: usize) -> (state: CommandDspOutputState)
    ensures
        state.wf(output_count as nat),
        state.is_initial(),
{
    CommandDspOutputState {
        reverb_send: vec![Float32::from_bits(0); output_count],
        reverb_return: vec![Float32::from_bits(0); output_count],
        master_monitor: vec![false; output_count],
        master_talkback: vec![false; output_count],
        master_listenback: vec![false; output_count],
        equalizer: CommandDspEqualizerState::new(output_count),
        dynamics: CommandDspDynamicsState::new(output_count),
    }
}

fn push_channel_commands(state: &CommandDspOutputState, ch: usize, cmds: &mut Vec<DspCmd>)
    requires
        exists|count: nat| state.equalizer.wf(count) && state.dynamics.wf(count) && ch < count,
        ch < state.reverb_send@.len(),
        ch < state.reverb_return@.len(),
        ch < state.master_monitor@.len(),
        ch < state.master_talkback@.len(),
        ch < state.master_listenback@.len(),
    ensures
        final(cmds)@ == old(cmds)@ + state.spec_channel_commands(ch as int),
{
    let ghost mut expected: Seq<DspCmd> = Seq::empty();
    assert(cmds@ =~= old(cmds)@ + expected);
    let params = create_equalizer_parameters(&state.equalizer, ch);
    let ghost mapped = params@.map_values(
        |param: EqualizerParameter| DspCmd::Output(OutputCmd::Equalizer(ch, param)),
    );
    let ghost base = cmds@;
    let mut i: usize = 0;
    while i < params.len()
        invariant
            i <= params@.len(),
            mapped == params@.map_values(|param: EqualizerParameter| DspCmd::Output(OutputCmd::Equalizer(ch, param))),
            cmds@ == base + mapped.take(i as int),
        decreases params@.len() - i,
    {
        cmds.push(DspCmd::Output(OutputCmd::Equalizer(ch, params[i])));
        assert(cmds@ =~= base + mapped.take(i + 1));
        i += 1;
    }
    proof {
        assert(mapped.take(i as int) =~= mapped);
        expected = expected + mapped;
        assert(cmds@ =~= old(cmds)@ + expected);
    }
    let params = create_dynamics_parameters(&state.dynamics, ch);
    let ghost mapped = params@.map_values(
        |param: DynamicsParameter| DspCmd::Output(OutputCmd::Dynamics(ch, param)),
    );
    let ghost base = cmds@;
    let mut i: usize = 0;
    while i < params.len()
        invariant
            i <= params@.len(),
            mapped == params@.map_values(|param: DynamicsParameter| DspCmd::Output(OutputCmd::Dynamics(ch, param))),
            cmds@ == base + mapped.take(i as int),
        decreases params@.len() - i,
    {
        cmds.push(DspCmd::Output(OutputCmd::Dynamics(ch, params[i])));
        assert(cmds@ =~= base + mapped.take(i + 1));
        i += 1;
    }
    proof {
        assert(mapped.take(i as int) =~= mapped);
        expected = expected + mapped;
        assert(cmds@ =~= old(cmds)@ + expected);
    }
    cmds.push(DspCmd::Output(OutputCmd::ReverbSend(ch, state.reverb_send[ch])));
    cmds.push(DspCmd::Output(OutputCmd::ReverbReturn(ch, state.reverb_return[ch])));
    cmds.push(DspCmd::Output(OutputCmd::MasterMonitor(ch, state.master_monitor[ch])));
    cmds.push(DspCmd::Output(OutputCmd::MasterTalkback(ch, state.master_talkback[ch])));
    cmds.push(DspCmd::Output(OutputCmd::MasterListenback(ch, state.master_listenback[ch])));
    assert(cmds@ =~= old(cmds)@ + state.spec_channel_commands(ch as int));
}

pub fn create_output_commands(state: &CommandDspOutputState, output_count: usize) -> (cmds: Vec<DspCmd>)
    requires
        state.wf(output_count as nat),
    ensures
        cmds@ == state.spec_commands(output_count as nat),
{
    let mut cmds: Vec<DspCmd> = Vec::new();
    let mut ch: usize = 0;
    while ch < output_count
        invariant
            ch <= output_count,
            state.wf(output_count as nat),
            cmds@ == state.spec_channels_commands(ch as nat),
        decreases output_count - ch,
    {
        push_channel_commands(state, ch, &mut cmds);
        ch += 1;
    }
    cmds
}

pub fn parse_output_command(state: &mut CommandDspOutputState, cmd: &OutputCmd)
    ensures
        output_command_applied(*old(state), *cmd, *final(state)),
{
    match cmd {
        OutputCmd::ReverbSend(ch, val) => {
            if *ch < state.reverb_send.len() {
                state.reverb_send.set(*ch, *val);
            }
        },
        OutputCmd::ReverbReturn(ch, val) => {
            if *ch < state.reverb_return.len() {
                state.reverb_return.set(*ch, *val);
            }
        },
        OutputCmd::MasterMonitor(ch, val) => {
            if *ch < state.master_monitor.len() {
                state.master_monitor.set(*ch, *val);
            }
        },
        OutputCmd::MasterTalkback(ch, val) => {
            if *ch < state.master_talkback.len() {
                state.master_talkback.set(*ch, *val);
            }
        },
        OutputCmd::MasterListenback(ch, val) => {
            if *ch < state.master_listenback.len() {
                state.master_listenback.set(*ch, *val);
            }
        },
        OutputCmd::Equalizer(ch, param) => parse_equalizer_parameter(&mut state.equalizer, param, *ch),
        OutputCmd::Dynamics(ch, param) => parse_dynamics_parameter(&mut state.dynamics, param, *ch),
        OutputCmd::Reserved(_, _) => {
        },
    }
}

/// Takes the commands of the outputs among `cmds` over into the state, one
/// after the other, and passes over the commands of other sections.
pub fn parse_output_commands(state: &mut CommandDspOutputState, cmds: &[DspCmd])
    ensures
        output_commands_applied(*old(state), cmds@, *final(state)),
{
    let mut i: usize = 0;
    assert(cmds@.take(0).len() == 0);
    while i < cmds.len()
        invariant
            i <= cmds@.len(),
            output_commands_applied(*old(state), cmds@.take(i as int), *state),
        decreases cmds@.len() - i,
    {
        let ghost mid = *state;
        if let DspCmd::Output(c) = &cmds[i] {
            parse_output_command(state, c);
        }
        proof {
            let next = cmds@.take(i + 1);
            assert(next.drop_last() =~= cmds@.take(i as int));
            assert(next.last() == cmds@[i as int]);
            assert(output_dsp_command_applied(mid, next.last(), *state));
        }
        i += 1;
    }
    assert(cmds@.take(i as int) =~= cmds@);
}

/// The commands that bring the device from the state `old` to the state
/// `state`: those for `state` that are not among those for `old`.
pub fn changed_output_commands(state: &CommandDspOutputState, old: &CommandDspOutputState, output_count: usize) -> (cmds: Vec<DspCmd>)
    requires
        state.wf(output_count as nat),
        old.wf(output_count as nat),
    ensures
        cmds_view(cmds@) == changed_cmds(
            cmds_view(state.spec_commands(output_count as nat)),
            cmds_view(old.spec_commands(output_count as nat)),
        ),
{
    let new_cmds = create_output_commands(state, output_count);
    let old_cmds = create_output_commands(old, output_count);
    retain_changed(new_cmds.as_slice(), old_cmds.as_slice())
}

/// The place of a command in the list of the commands of its channel; the
/// commands of a microphone follow those of an output.
pub open spec fn output_slot(cmd: DspCmd) -> int {
    match cmd {
        DspCmd::Output(OutputCmd::Equalizer(_, param)) => 0 + equalizer_slot(param),
        DspCmd::Output(OutputCmd::Dynamics(_, param)) => 32 + dynamics_slot(param),
        DspCmd::Output(OutputCmd::ReverbSend(_, _)) => 44,
        DspCmd::Output(OutputCmd::ReverbReturn(_, _)) => 45,
        DspCmd::Output(OutputCmd::MasterMonitor(_, _)) => 46,
        DspCmd::Output(OutputCmd::MasterTalkback(_, _)) => 47,
        DspCmd::Output(OutputCmd::MasterListenback(_, _)) => 48,
        _ => -1,
    }
}

/// The channel of a command of the outputs.
pub open spec fn output_channel(cmd: DspCmd) -> int {
    match cmd {
        DspCmd::Output(c) => c.spec_channel() as int,
        _ => -1,
    }
}

proof fn lemma_channel_places(state: CommandDspOutputState, ch: int, k: int)
    requires
        0 <= ch <= usize::MAX,
        0 <= k < 49,
    ensures
        state.spec_channel_commands(ch).len() == 49,
        output_slot(state.spec_channel_commands(ch)[k]) == k,
        output_channel(state.spec_channel_commands(ch)[k]) == ch,
{
    if 0 <= k < 32 {
        lemma_equalizer_slots(state.equalizer, ch, k - 0);
    } else if 32 <= k < 44 {
        lemma_dynamics_slots(state.dynamics, ch, k - 32);
    }
    lemma_equalizer_slots(state.equalizer, ch, 0);
    lemma_dynamics_slots(state.dynamics, ch, 0);
}

proof fn lemma_channels_places(state: CommandDspOutputState, count: nat, i: int)
    requires
        count <= usize::MAX,
        0 <= i < 49 * count,
    ensures
        state.spec_channels_commands(count).len() == 49 * count,
        output_slot(state.spec_channels_commands(count)[i]) == i % 49,
        output_channel(state.spec_channels_commands(count)[i]) == i / 49,
    decreases count,
{
    lemma_channels_len(state, count);
    lemma_channels_len(state, (count - 1) as nat);
    if i < 49 * (count - 1) {
        lemma_channels_places(state, (count - 1) as nat, i);
    } else {
        lemma_channel_places(state, count - 1, i - 49 * (count - 1));
    }
}

proof fn lemma_channels_len(state: CommandDspOutputState, count: nat)
    ensures
        state.spec_channels_commands(count).len() == 49 * count,
    decreases count,
{
    if count > 0 {
        lemma_channels_len(state, (count - 1) as nat);
        lemma_channel_places(state, 0, 0);
        assert(state.spec_channel_commands(count - 1).len() == 49) by {
            lemma_equalizer_slots(state.equalizer, count - 1, 0);
            lemma_dynamics_slots(state.dynamics, count - 1, 0);
        }
    }
}

/// The lists of commands of two states of the outputs hold different
/// commands at different places.
pub proof fn lemma_output_places_differ(a: CommandDspOutputState, b: CommandDspOutputState, count: nat)
    requires
        count <= usize::MAX,
    ensures
        a.spec_commands(count).len() == b.spec_commands(count).len(),
        places_differ(
            cmds_view(a.spec_commands(count)),
            cmds_view(b.spec_commands(count)),
        ),
{
    let x = a.spec_commands(count);
    let y = b.spec_commands(count);
    lemma_channels_len(a, count);
    lemma_channels_len(b, count);
    assert forall|i: int, j: int|
        0 <= i < x.len() && 0 <= j < y.len() && i != j implies cmds_view(x)[i] != cmds_view(
        y,
    )[j] by {
        lemma_output_place(a, count, i);
        lemma_output_place(b, count, j);
        if cmds_view(x)[i] == cmds_view(y)[j] {
            assert(x[i]@ == y[j]@);
            assert(x[i] == y[j]);
        }
    }
}

/// The command at a place of the list of a state is the command of a
/// documented parameter, and its channel and its place among the commands
/// of the channel are given by the place in the list.
proof fn lemma_output_place(state: CommandDspOutputState, count: nat, i: int)
    requires
        count <= usize::MAX,
        0 <= i < state.spec_commands(count).len(),
    ensures
        state.spec_commands(count)[i] is Output,
        !(state.spec_commands(count)[i]->Output_0 is Reserved),
        output_slot(state.spec_commands(count)[i]) == i % 49,
        output_channel(state.spec_commands(count)[i]) == i / 49,
{
    lemma_channels_len(state, count);
    lemma_channels_places(state, count, i);
}

/// The commands that bring the device from one state of the outputs to
/// another are the commands for the parameters in which the two states
/// differ, in their order, and no others.
pub proof fn lemma_changed_output_commands_by_place(state: CommandDspOutputState, old: CommandDspOutputState, count: nat)
    requires
        count <= usize::MAX,
    ensures
        changed_cmds(
            cmds_view(state.spec_commands(count)),
            cmds_view(old.spec_commands(count)),
        ) == changed_places(
            cmds_view(state.spec_commands(count)),
            cmds_view(old.spec_commands(count)),
        ),
{
    lemma_output_places_differ(state, old, count);
    lemma_changed_cmds_by_place(
        cmds_view(state.spec_commands(count)),
        cmds_view(old.spec_commands(count)),
    );
}

} // verus!
