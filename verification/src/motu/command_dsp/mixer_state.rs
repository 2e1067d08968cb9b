//! State of the mixers.

use vstd::prelude::*;
use crate::float32::Float32;
use crate::motu::{spec_target_position, target_position, TargetPort};
use super::cmd::{cmds_view, DspCmd};
use super::diff::{
    changed_cmds, changed_places, lemma_changed_cmds_by_place, places_differ, retain_changed,
};
use super::effects_state::set_at;
use super::mixer::MixerCmd;
use super::params::SourceStereoPairMode;

verus! {

/// The count of mixers.
pub const MIXER_COUNT: usize = 8;

/// The structure for state of entry of mixer function.
#[derive(Debug)]
pub struct CommandDspMixerSourceState {
    pub mute: Vec<bool>,
    pub solo: Vec<bool>,
    pub gain: Vec<Float32>,
    pub pan: Vec<Float32>,
    pub stereo_mode: Vec<SourceStereoPairMode>,
    pub stereo_balance: Vec<Float32>,
    pub stereo_width: Vec<Float32>,
}

/// The structure for state of mixer function.
#[derive(Debug)]
pub struct CommandDspMixerState {
    pub output_assign: [TargetPort; MIXER_COUNT],
    pub output_mute: [bool; MIXER_COUNT],
    pub output_volume: [Float32; MIXER_COUNT],
    pub reverb_send: [Float32; MIXER_COUNT],
    pub reverb_return: [Float32; MIXER_COUNT],
    pub source: [CommandDspMixerSourceState; MIXER_COUNT],
}

impl CommandDspMixerSourceState {
    /// Whether the state has room for `count` sources exactly.
    pub open spec fn wf(self, count: nat) -> bool {
        &&& self.mute@.len() == count
        &&& self.solo@.len() == count
        &&& self.gain@.len() == count
        &&& self.pan@.len() == count
        &&& self.stereo_mode@.len() == count
        &&& self.stereo_balance@.len() == count
        &&& self.stereo_width@.len() == count
    }

    /// Whether every parameter of every source has its initial value.
    pub open spec fn is_initial(self) -> bool {
        &&& forall|i: int| 0 <= i < self.mute@.len() ==> self.mute@[i] == false
        &&& forall|i: int| 0 <= i < self.solo@.len() ==> self.solo@[i] == false
        &&& forall|i: int| 0 <= i < self.gain@.len() ==> self.gain@[i] == Float32 { bits: 0 }
        &&& forall|i: int| 0 <= i < self.pan@.len() ==> self.pan@[i] == Float32 { bits: 0 }
        &&& forall|i: int|
            0 <= i < self.stereo_mode@.len() ==> self.stereo_mode@[i]
                == SourceStereoPairMode::Width
        &&& forall|i: int|
            0 <= i < self.stereo_balance@.len() ==> self.stereo_balance@[i] == Float32 { bits: 0 }
        &&& forall|i: int|
            0 <= i < self.stereo_width@.len() ==> self.stereo_width@[i] == Float32 { bits: 0 }
    }

    /// The commands for the parameters of the source `src` of the mixer
    /// `mixer`, in the order in which they are written.
    pub open spec fn spec_source_commands(self, mixer: int, src: int) -> Seq<DspCmd> {
        seq![
            DspCmd::Mixer(MixerCmd::SourceMute(mixer as usize, src as usize, self.mute@[src])),
            DspCmd::Mixer(MixerCmd::SourceSolo(mixer as usize, src as usize, self.solo@[src])),
            DspCmd::Mixer(MixerCmd::SourceGain(mixer as usize, src as usize, self.gain@[src])),
            DspCmd::Mixer(
                MixerCmd::SourceMonauralLrBalance(mixer as usize, src as usize, self.pan@[src]),
            ),
            DspCmd::Mixer(
                MixerCmd::SourceStereoMode(mixer as usize, src as usize, self.stereo_mode@[src]),
            ),
            DspCmd::Mixer(
                MixerCmd::SourceStereoLrBalance(
                    mixer as usize,
                    src as usize,
                    self.stereo_balance@[src],
                ),
            ),
            DspCmd::Mixer(
                MixerCmd::SourceStereoWidth(mixer as usize, src as usize, self.stereo_width@[src]),
            ),
        ]
    }

    /// The commands of the first `count` sources of the mixer `mixer`.
    pub open spec fn spec_sources_commands(self, mixer: int, count: nat) -> Seq<DspCmd>
        decreases count,
    {
        if count == 0 {
            Seq::empty()
        } else {
            self.spec_sources_commands(mixer, (count - 1) as nat) + self.spec_source_commands(
                mixer,
                count - 1,
            )
        }
    }

    /// The state for `count` sources with every parameter at its initial value.
    pub fn new(count: usize) -> (state: Self)
        ensures
            state.wf(count as nat),
            state.is_initial(),
    {
        CommandDspMixerSourceState {
            mute: vec![false; count],
            solo: vec![false; count],
            gain: vec![Float32::from_bits(0); count],
            pan: vec![Float32::from_bits(0); count],
            stereo_mode: vec![SourceStereoPairMode::Width; count],
            stereo_balance: vec![Float32::from_bits(0); count],
            stereo_width: vec![Float32::from_bits(0); count],
        }
    }
}

/// The port at place `pos` of `ports`, which are not empty, or the first
/// port where there is no such place.
pub open spec fn spec_output_at(ports: Seq<TargetPort>, pos: usize) -> TargetPort {
    if pos < ports.len() {
        ports[pos as int]
    } else {
        ports[0]
    }
}

impl CommandDspMixerState {
    /// Whether every mixer has room for `count` sources exactly.
    pub open spec fn wf(self, count: nat) -> bool {
        forall|mixer: int| 0 <= mixer < MIXER_COUNT ==> (#[trigger] self.source@[mixer]).wf(count)
    }

    /// The commands for the parameters of the mixer `mixer` itself, in the
    /// order in which they are written. The port to which the output is
    /// assigned is written as its place among `output_ports`.
    pub open spec fn spec_output_commands(self, mixer: int, output_ports: Seq<TargetPort>) -> Seq<
        DspCmd,
    > {
        seq![
            DspCmd::Mixer(
                MixerCmd::OutputAssign(
                    mixer as usize,
                    spec_target_position(output_ports, self.output_assign@[mixer]) as usize,
                ),
            ),
            DspCmd::Mixer(MixerCmd::OutputMute(mixer as usize, self.output_mute@[mixer])),
            DspCmd::Mixer(MixerCmd::OutputVolume(mixer as usize, self.output_volume@[mixer])),
            DspCmd::Mixer(MixerCmd::ReverbSend(mixer as usize, self.reverb_send@[mixer])),
            DspCmd::Mixer(MixerCmd::ReverbReturn(mixer as usize, self.reverb_return@[mixer])),
        ]
    }

    /// The commands of the mixer `mixer` and of its first `source_count` sources.
    pub open spec fn spec_mixer_commands(
        self,
        mixer: int,
        source_count: nat,
        output_ports: Seq<TargetPort>,
    ) -> Seq<DspCmd> {
        self.spec_output_commands(mixer, output_ports) + self.source@[mixer].spec_sources_commands(
            mixer,
            source_count,
        )
    }

    /// The commands of the first `count` mixers.
    pub open spec fn spec_mixers_commands(
        self,
        count: nat,
        source_count: nat,
        output_ports: Seq<TargetPort>,
    ) -> Seq<DspCmd>
        decreases count,
    {
        if count == 0 {
            Seq::empty()
        } else {
            self.spec_mixers_commands((count - 1) as nat, source_count, output_ports)
                + self.spec_mixer_commands(count - 1, source_count, output_ports)
        }
    }

    /// The commands for all parameters of the state.
    pub open spec fn spec_commands(self, source_count: nat, output_ports: Seq<TargetPort>) -> Seq<
        DspCmd,
    > {
        self.spec_mixers_commands(MIXER_COUNT as nat, source_count, output_ports)
    }
}

/// Whether `new_state` is `old_state` but for the sources of the mixer
/// `mixer`, which is one of the mixers.
pub open spec fn other_sources_kept(
    old_state: CommandDspMixerState,
    mixer: usize,
    new_state: CommandDspMixerState,
) -> bool {
    &&& new_state == (CommandDspMixerState { source: new_state.source, ..old_state })
    &&& forall|k: int|
        0 <= k < MIXER_COUNT && k != mixer ==> new_state.source@[k] == old_state.source@[k]
}

/// Whether `new_state` is `old_state` with the value of the command `cmd`
/// taken over. A mixer or a source that the state has no room for, and a
/// command of no documented parameter, change nothing. An assignment to no
/// place of `output_ports` is one to the first of them.
pub open spec fn mixer_command_applied(
    old_state: CommandDspMixerState,
    cmd: MixerCmd,
    output_ports: Seq<TargetPort>,
    new_state: CommandDspMixerState,
) -> bool {
    match cmd {
        MixerCmd::OutputAssign(mixer, val) => {
            &&& new_state == (CommandDspMixerState {
                output_assign: new_state.output_assign,
                ..old_state
            })
            &&& new_state.output_assign@ == set_at(
                old_state.output_assign@,
                mixer as int,
                spec_output_at(output_ports, val),
            )
        },
        MixerCmd::OutputMute(mixer, val) => {
            &&& new_state == (CommandDspMixerState {
                output_mute: new_state.output_mute,
                ..old_state
            })
            &&& new_state.output_mute@ == set_at(old_state.output_mute@, mixer as int, val)
        },
        MixerCmd::OutputVolume(mixer, val) => {
            &&& new_state == (CommandDspMixerState {
                output_volume: new_state.output_volume,
                ..old_state
            })
            &&& new_state.output_volume@ == set_at(old_state.output_volume@, mixer as int, val)
        },
        MixerCmd::ReverbSend(mixer, val) => {
            &&& new_state == (CommandDspMixerState {
                reverb_send: new_state.reverb_send,
                ..old_state
            })
            &&& new_state.reverb_send@ == set_at(old_state.reverb_send@, mixer as int, val)
        },
        MixerCmd::ReverbReturn(mixer, val) => {
            &&& new_state == (CommandDspMixerState {
                reverb_return: new_state.reverb_return,
                ..old_state
            })
            &&& new_state.reverb_return@ == set_at(old_state.reverb_return@, mixer as int, val)
        },
        MixerCmd::SourceMute(mixer, src, val) => if mixer < MIXER_COUNT {
            &&& other_sources_kept(old_state, mixer, new_state)
            &&& new_state.source@[mixer as int] == (CommandDspMixerSourceState {
                mute: new_state.source@[mixer as int].mute,
                ..old_state.source@[mixer as int]
            })
            &&& new_state.source@[mixer as int].mute@ == set_at(
                old_state.source@[mixer as int].mute@,
                src as int,
                val,
            )
        } else {
            new_state == old_state
        },
        MixerCmd::SourceSolo(mixer, src, val) => if mixer < MIXER_COUNT {
            &&& other_sources_kept(old_state, mixer, new_state)
            &&& new_state.source@[mixer as int] == (CommandDspMixerSourceState {
                solo: new_state.source@[mixer as int].solo,
                ..old_state.source@[mixer as int]
            })
            &&& new_state.source@[mixer as int].solo@ == set_at(
                old_state.source@[mixer as int].solo@,
                src as int,
                val,
            )
        } else {
            new_state == old_state
        },
        MixerCmd::SourceMonauralLrBalance(mixer, src, val) => if mixer < MIXER_COUNT {
            &&& other_sources_kept(old_state, mixer, new_state)
            &&& new_state.source@[mixer as int] == (CommandDspMixerSourceState {
                pan: new_state.source@[mixer as int].pan,
                ..old_state.source@[mixer as int]
            })
            &&& new_state.source@[mixer as int].pan@ == set_at(
                old_state.source@[mixer as int].pan@,
                src as int,
                val,
            )
        } else {
            new_state == old_state
        },
        MixerCmd::SourceGain(mixer, src, val) => if mixer < MIXER_COUNT {
            &&& other_sources_kept(old_state, mixer, new_state)
            &&& new_state.source@[mixer as int] == (CommandDspMixerSourceState {
                gain: new_state.source@[mixer as int].gain,
                ..old_state.source@[mixer as int]
            })
            &&& new_state.source@[mixer as int].gain@ == set_at(
                old_state.source@[mixer as int].gain@,
                src as int,
                val,
            )
        } else {
            new_state == old_state
        },
        MixerCmd::SourceStereoMode(mixer, src, val) => if mixer < MIXER_COUNT {
            &&& other_sources_kept(old_state, mixer, new_state)
            &&& new_state.source@[mixer as int] == (CommandDspMixerSourceState {
                stereo_mode: new_state.source@[mixer as int].stereo_mode,
                ..old_state.source@[mixer as int]
            })
            &&& new_state.source@[mixer as int].stereo_mode@ == set_at(
                old_state.source@[mixer as int].stereo_mode@,
                src as int,
                val,
            )
        } else {
            new_state == old_state
        },
        MixerCmd::SourceStereoLrBalance(mixer, src, val) => if mixer < MIXER_COUNT {
            &&& other_sources_kept(old_state, mixer, new_state)
            &&& new_state.source@[mixer as int] == (CommandDspMixerSourceState {
                stereo_balance: new_state.source@[mixer as int].stereo_balance,
                ..old_state.source@[mixer as int]
            })
            &&& new_state.source@[mixer as int].stereo_balance@ == set_at(
                old_state.source@[mixer as int].stereo_balance@,
                src as int,
                val,
            )
        } else {
            new_state == old_state
        },
        MixerCmd::SourceStereoWidth(mixer, src, val) => if mixer < MIXER_COUNT {
            &&& other_sources_kept(old_state, mixer, new_state)
            &&& new_state.source@[mixer as int] == (CommandDspMixerSourceState {
                stereo_width: new_state.source@[mixer as int].stereo_width,
                ..old_state.source@[mixer as int]
            })
            &&& new_state.source@[mixer as int].stereo_width@ == set_at(
                old_state.source@[mixer as int].stereo_width@,
                src as int,
                val,
            )
        } else {
            new_state == old_state
        },
        MixerCmd::Reserved(_, _) => new_state == old_state,
    }
}

/// Whether `new_state` is `old_state` with the command `cmd` taken over, if
/// it is a command of the mixers, and `old_state` itself else.
pub open spec fn mixer_dsp_command_applied(
    old_state: CommandDspMixerState,
    cmd: DspCmd,
    output_ports: Seq<TargetPort>,
    new_state: CommandDspMixerState,
) -> bool {
    match cmd {
        DspCmd::Mixer(c) => mixer_command_applied(old_state, c, output_ports, new_state),
        _ => new_state == old_state,
    }
}

/// Whether `new_state` is `old_state` with the commands of `cmds` taken over
/// one after the other.
pub open spec fn mixer_commands_applied(
    old_state: CommandDspMixerState,
    cmds: Seq<DspCmd>,
    output_ports: Seq<TargetPort>,
    new_state: CommandDspMixerState,
) -> bool
    decreases cmds.len(),
{
    if cmds.len() == 0 {
        new_state == old_state
    } else {
        exists|mid: CommandDspMixerState|
            mixer_commands_applied(old_state, cmds.drop_last(), output_ports, mid)
                && mixer_dsp_command_applied(mid, cmds.last(), output_ports, new_state)
    }
}

/// The state of the mixers, each with room for `source_count` sources, with
/// every output disabled and every other parameter at its initial value.
pub fn create_mixer_state(source_count: usize) -> (state: CommandDspMixerState)
    ensures
        state.wf(source_count as nat),
        forall|mixer: int| 0 <= mixer < MIXER_COUNT ==> (#[trigger] state.source@[mixer]).is_initial(),
        forall|mixer: int|
            0 <= mixer < MIXER_COUNT ==> {
                &&& #[trigger] state.output_assign@[mixer] == TargetPort::Disabled
                &&& state.output_mute@[mixer] == false
                &&& state.output_volume@[mixer] == Float32 { bits: 0 }
                &&& state.reverb_send@[mixer] == Float32 { bits: 0 }
                &&& state.reverb_return@[mixer] == Float32 { bits: 0 }
            },
{
    let zero = Float32::from_bits(0);
    CommandDspMixerState {
        output_assign: [TargetPort::Disabled; MIXER_COUNT],
        output_mute: [false; MIXER_COUNT],
        output_volume: [zero; MIXER_COUNT],
        reverb_send: [zero; MIXER_COUNT],
        reverb_return: [zero; MIXER_COUNT],
        source: [
            CommandDspMixerSourceState::new(source_count),
            CommandDspMixerSourceState::new(source_count),
            CommandDspMixerSourceState::new(source_count),
            CommandDspMixerSourceState::new(source_count),
            CommandDspMixerSourceState::new(source_count),
            CommandDspMixerSourceState::new(source_count),
            CommandDspMixerSourceState::new(source_count),
            CommandDspMixerSourceState::new(source_count),
        ],
    }
}

fn push_mixer_commands(
    state: &CommandDspMixerState,
    mixer: usize,
    source_count: usize,
    output_ports: &[TargetPort],
    cmds: &mut Vec<DspCmd>,
)
    requires
        mixer < MIXER_COUNT,
        state.wf(source_count as nat),
    ensures
        final(cmds)@ == old(cmds)@ + state.spec_mixer_commands(
            mixer as int,
            source_count as nat,
            output_ports@,
        ),
{
    let pos = target_position(output_ports, state.output_assign[mixer]);
    cmds.push(DspCmd::Mixer(MixerCmd::OutputAssign(mixer, pos)));
    cmds.push(DspCmd::Mixer(MixerCmd::OutputMute(mixer, state.output_mute[mixer])));
    cmds.push(DspCmd::Mixer(MixerCmd::OutputVolume(mixer, state.output_volume[mixer])));
    cmds.push(DspCmd::Mixer(MixerCmd::ReverbSend(mixer, state.reverb_send[mixer])));
    cmds.push(DspCmd::Mixer(MixerCmd::ReverbReturn(mixer, state.reverb_return[mixer])));
    let ghost base = cmds@;
    assert(base =~= old(cmds)@ + state.spec_output_commands(mixer as int, output_ports@));
    let src = &state.source[mixer];
    assert(src.wf(source_count as nat));
    let mut ch: usize = 0;
    assert(cmds@ =~= base + src.spec_sources_commands(mixer as int, 0));
    while ch < source_count
        invariant
            ch <= source_count,
            src.wf(source_count as nat),
            cmds@ == base + src.spec_sources_commands(mixer as int, ch as nat),
        decreases source_count - ch,
    {
        cmds.push(DspCmd::Mixer(MixerCmd::SourceMute(mixer, ch, src.mute[ch])));
        cmds.push(DspCmd::Mixer(MixerCmd::SourceSolo(mixer, ch, src.solo[ch])));
        cmds.push(DspCmd::Mixer(MixerCmd::SourceGain(mixer, ch, src.gain[ch])));
        cmds.push(DspCmd::Mixer(MixerCmd::SourceMonauralLrBalance(mixer, ch, src.pan[ch])));
        cmds.push(DspCmd::Mixer(MixerCmd::SourceStereoMode(mixer, ch, src.stereo_mode[ch])));
        cmds.push(DspCmd::Mixer(MixerCmd::SourceStereoLrBalance(mixer, ch, src.stereo_balance[ch])));
        cmds.push(DspCmd::Mixer(MixerCmd::SourceStereoWidth(mixer, ch, src.stereo_width[ch])));
        assert(cmds@ =~= base + src.spec_sources_commands(mixer as int, (ch + 1) as nat));
        ch += 1;
    }
    assert(cmds@ =~= old(cmds)@ + state.spec_mixer_commands(
        mixer as int,
        source_count as nat,
        output_ports@,
    ));
}

pub fn create_mixer_commands(
    state: &CommandDspMixerState,
    source_count: usize,
    output_ports: &[TargetPort],
) -> (cmds: Vec<DspCmd>)
    requires
        state.wf(source_count as nat),
    ensures
        cmds@ == state.spec_commands(source_count as nat, output_ports@),
{
    let mut cmds: Vec<DspCmd> = Vec::new();
    let mut mixer: usize = 0;
    while mixer < MIXER_COUNT
        invariant
            mixer <= MIXER_COUNT,
            state.wf(source_count as nat),
            cmds@ == state.spec_mixers_commands(mixer as nat, source_count as nat, output_ports@),
        decreases MIXER_COUNT - mixer,
    {
        push_mixer_commands(state, mixer, source_count, output_ports, &mut cmds);
        mixer += 1;
    }
    cmds
}

pub fn parse_mixer_command(
    state: &mut CommandDspMixerState,
    cmd: &MixerCmd,
    output_ports: &[TargetPort],
)
    requires
        output_ports@.len() > 0,
    ensures
        mixer_command_applied(*old(state), *cmd, output_ports@, *final(state)),
{
    match cmd {
        MixerCmd::OutputAssign(mixer, val) => {
            if *mixer < MIXER_COUNT {
                state.output_assign[*mixer] = if *val < output_ports.len() {
                    output_ports[*val]
                } else {
                    output_ports[0]
                };
            }
        },
        MixerCmd::OutputMute(mixer, val) => {
            if *mixer < MIXER_COUNT {
                state.output_mute[*mixer] = *val;
            }
        },
        MixerCmd::OutputVolume(mixer, val) => {
            if *mixer < MIXER_COUNT {
                state.output_volume[*mixer] = *val;
            }
        },
        MixerCmd::ReverbSend(mixer, val) => {
            if *mixer < MIXER_COUNT {
                state.reverb_send[*mixer] = *val;
            }
        },
        MixerCmd::ReverbReturn(mixer, val) => {
            if *mixer < MIXER_COUNT {
                state.reverb_return[*mixer] = *val;
            }
        },
        MixerCmd::SourceMute(mixer, src, val) => {
            if *mixer < MIXER_COUNT {
                if *src < state.source[*mixer].mute.len() {
                    state.source[*mixer].mute.set(*src, *val);
                }
            }
        },
        MixerCmd::SourceSolo(mixer, src, val) => {
            if *mixer < MIXER_COUNT {
                if *src < state.source[*mixer].solo.len() {
                    state.source[*mixer].solo.set(*src, *val);
                }
            }
        },
        MixerCmd::SourceMonauralLrBalance(mixer, src, val) => {
            if *mixer < MIXER_COUNT {
                if *src < state.source[*mixer].pan.len() {
                    state.source[*mixer].pan.set(*src, *val);
                }
            }
        },
        MixerCmd::SourceGain(mixer, src, val) => {
            if *mixer < MIXER_COUNT {
                if *src < state.source[*mixer].gain.len() {
                    state.source[*mixer].gain.set(*src, *val);
                }
            }
        },
        MixerCmd::SourceStereoMode(mixer, src, val) => {
            if *mixer < MIXER_COUNT {
                if *src < state.source[*mixer].stereo_mode.len() {
                    state.source[*mixer].stereo_mode.set(*src, *val);
                }
            }
        },
        MixerCmd::SourceStereoLrBalance(mixer, src, val) => {
            if *mixer < MIXER_COUNT {
                if *src < state.source[*mixer].stereo_balance.len() {
                    state.source[*mixer].stereo_balance.set(*src, *val);
                }
            }
        },
        MixerCmd::SourceStereoWidth(mixer, src, val) => {
            if *mixer < MIXER_COUNT {
                if *src < state.source[*mixer].stereo_width.len() {
                    state.source[*mixer].stereo_width.set(*src, *val);
                }
            }
        },
        MixerCmd::Reserved(_, _) => {
        },
    }
}

/// Takes the commands of the mixers among `cmds` over into the state, one
/// after the other, and passes over the commands of other sections.
pub fn parse_mixer_commands(
    state: &mut CommandDspMixerState,
    cmds: &[DspCmd],
    output_ports: &[TargetPort],
)
    requires
        output_ports@.len() > 0,
    ensures
        mixer_commands_applied(*old(state), cmds@, output_ports@, *final(state)),
{
    let mut i: usize = 0;
    assert(cmds@.take(0).len() == 0);
    while i < cmds.len()
        invariant
            i <= cmds@.len(),
            output_ports@.len() > 0,
            mixer_commands_applied(*old(state), cmds@.take(i as int), output_ports@, *state),
        decreases cmds@.len() - i,
    {
        let ghost mid = *state;
        if let DspCmd::Mixer(c) = &cmds[i] {
            parse_mixer_command(state, c, output_ports);
        }
        proof {
            let next = cmds@.take(i + 1);
            assert(next.drop_last() =~= cmds@.take(i as int));
            assert(next.last() == cmds@[i as int]);
            assert(mixer_dsp_command_applied(mid, next.last(), output_ports@, *state));
        }
        i += 1;
    }
    assert(cmds@.take(i as int) =~= cmds@);
}

/// The commands that bring the device from the state `old` to the state
/// `state`: those for `state` that are not among those for `old`.
pub fn changed_mixer_commands(
    state: &CommandDspMixerState,
    old: &CommandDspMixerState,
    source_count: usize,
    output_ports: &[TargetPort],
) -> (cmds: Vec<DspCmd>)
    requires
        state.wf(source_count as nat),
        old.wf(source_count as nat),
    ensures
        cmds_view(cmds@) == changed_cmds(
            cmds_view(state.spec_commands(source_count as nat, output_ports@)),
            cmds_view(old.spec_commands(source_count as nat, output_ports@)),
        ),
{
    let new_cmds = create_mixer_commands(state, source_count, output_ports);
    let old_cmds = create_mixer_commands(old, source_count, output_ports);
    retain_changed(new_cmds.as_slice(), old_cmds.as_slice())
}

/// What tells a command of a documented parameter of the mixers from the
/// others: its mixer, its source or -1 for a parameter of the mixer itself,
/// and its place among the parameters of the mixer or of the source.
pub open spec fn mixer_key(cmd: DspCmd) -> (int, int, int) {
    match cmd {
        DspCmd::Mixer(MixerCmd::OutputAssign(mixer, _)) => (mixer as int, -1, 0),
        DspCmd::Mixer(MixerCmd::OutputMute(mixer, _)) => (mixer as int, -1, 1),
        DspCmd::Mixer(MixerCmd::OutputVolume(mixer, _)) => (mixer as int, -1, 2),
        DspCmd::Mixer(MixerCmd::ReverbSend(mixer, _)) => (mixer as int, -1, 3),
        DspCmd::Mixer(MixerCmd::ReverbReturn(mixer, _)) => (mixer as int, -1, 4),
        DspCmd::Mixer(MixerCmd::SourceMute(mixer, src, _)) => (mixer as int, src as int, 0),
        DspCmd::Mixer(MixerCmd::SourceSolo(mixer, src, _)) => (mixer as int, src as int, 1),
        DspCmd::Mixer(MixerCmd::SourceGain(mixer, src, _)) => (mixer as int, src as int, 2),
        DspCmd::Mixer(MixerCmd::SourceMonauralLrBalance(mixer, src, _)) => (
            mixer as int,
            src as int,
            3,
        ),
        DspCmd::Mixer(MixerCmd::SourceStereoMode(mixer, src, _)) => (mixer as int, src as int, 4),
        DspCmd::Mixer(MixerCmd::SourceStereoLrBalance(mixer, src, _)) => (
            mixer as int,
            src as int,
            5,
        ),
        DspCmd::Mixer(MixerCmd::SourceStereoWidth(mixer, src, _)) => (mixer as int, src as int, 6),
        _ => (-1, -1, -1),
    }
}

/// The keys of the commands of the first `count` sources of a mixer.
pub open spec fn source_keys(mixer: int, count: nat) -> Seq<(int, int, int)>
    decreases count,
{
    if count == 0 {
        Seq::empty()
    } else {
        source_keys(mixer, (count - 1) as nat) + Seq::new(7, |k: int| (mixer, count - 1, k))
    }
}

/// The keys of the commands of the first `count` mixers.
pub open spec fn mixer_keys(count: nat, source_count: nat) -> Seq<(int, int, int)>
    decreases count,
{
    if count == 0 {
        Seq::empty()
    } else {
        mixer_keys((count - 1) as nat, source_count) + Seq::new(5, |k: int| (count - 1, -1, k))
            + source_keys(count - 1, source_count)
    }
}

proof fn lemma_source_keys(state: CommandDspMixerSourceState, mixer: int, count: nat, i: int)
    requires
        0 <= mixer <= usize::MAX,
        count <= usize::MAX,
        0 <= i < source_keys(mixer, count).len(),
    ensures
        state.spec_sources_commands(mixer, count).len() == source_keys(mixer, count).len(),
        mixer_key(state.spec_sources_commands(mixer, count)[i]) == source_keys(mixer, count)[i],
        source_keys(mixer, count)[i].0 == mixer,
        0 <= source_keys(mixer, count)[i].1 < count,
        state.spec_sources_commands(mixer, count)[i] is Mixer,
        !(state.spec_sources_commands(mixer, count)[i]->Mixer_0 is Reserved),
    decreases count,
{
    lemma_source_keys_len(state, mixer, count);
    lemma_source_keys_len(state, mixer, (count - 1) as nat);
    if i < source_keys(mixer, (count - 1) as nat).len() {
        lemma_source_keys(state, mixer, (count - 1) as nat, i);
    }
}

proof fn lemma_source_keys_len(state: CommandDspMixerSourceState, mixer: int, count: nat)
    ensures
        state.spec_sources_commands(mixer, count).len() == source_keys(mixer, count).len(),
    decreases count,
{
    if count > 0 {
        lemma_source_keys_len(state, mixer, (count - 1) as nat);
    }
}

proof fn lemma_mixer_keys_len(
    state: CommandDspMixerState,
    count: nat,
    source_count: nat,
    output_ports: Seq<TargetPort>,
)
    ensures
        state.spec_mixers_commands(count, source_count, output_ports).len() == mixer_keys(
            count,
            source_count,
        ).len(),
    decreases count,
{
    if count > 0 {
        lemma_mixer_keys_len(state, (count - 1) as nat, source_count, output_ports);
        lemma_source_keys_len(state.source@[count - 1], count - 1, source_count);
    }
}

proof fn lemma_mixer_keys(
    state: CommandDspMixerState,
    count: nat,
    source_count: nat,
    output_ports: Seq<TargetPort>,
    i: int,
)
    requires
        count <= usize::MAX,
        source_count <= usize::MAX,
        0 <= i < mixer_keys(count, source_count).len(),
    ensures
        state.spec_mixers_commands(count, source_count, output_ports).len() == mixer_keys(
            count,
            source_count,
        ).len(),
        mixer_key(state.spec_mixers_commands(count, source_count, output_ports)[i]) == mixer_keys(
            count,
            source_count,
        )[i],
        0 <= mixer_keys(count, source_count)[i].0 < count,
        state.spec_mixers_commands(count, source_count, output_ports)[i] is Mixer,
        !(state.spec_mixers_commands(count, source_count, output_ports)[i]->Mixer_0
            is Reserved),
    decreases count,
{
    lemma_mixer_keys_len(state, count, source_count, output_ports);
    lemma_mixer_keys_len(state, (count - 1) as nat, source_count, output_ports);
    let front = mixer_keys((count - 1) as nat, source_count).len();
    lemma_source_keys_len(state.source@[count - 1], count - 1, source_count);
    if i < front {
        lemma_mixer_keys(state, (count - 1) as nat, source_count, output_ports, i);
    } else if i >= front + 5 {
        lemma_source_keys(state.source@[count - 1], count - 1, source_count, i - front - 5);
    }
}

proof fn lemma_source_keys_distinct(mixer: int, count: nat, i: int, j: int)
    requires
        0 <= i < source_keys(mixer, count).len(),
        0 <= j < source_keys(mixer, count).len(),
        i != j,
    ensures
        source_keys(mixer, count)[i] != source_keys(mixer, count)[j],
        source_keys(mixer, count)[i].0 == mixer,
        0 <= source_keys(mixer, count)[i].1 < count,
    decreases count,
{
    let front = source_keys(mixer, (count - 1) as nat).len();
    if i < front && j < front {
        lemma_source_keys_distinct(mixer, (count - 1) as nat, i, j);
    } else if i < front {
        lemma_source_key_bound(mixer, (count - 1) as nat, i);
    } else if j < front {
        lemma_source_key_bound(mixer, (count - 1) as nat, j);
    }
    lemma_source_key_bound(mixer, count, i);
}

proof fn lemma_source_key_bound(mixer: int, count: nat, i: int)
    requires
        0 <= i < source_keys(mixer, count).len(),
    ensures
        source_keys(mixer, count)[i].0 == mixer,
        0 <= source_keys(mixer, count)[i].1 < count,
        0 <= source_keys(mixer, count)[i].2 < 7,
    decreases count,
{
    let front = source_keys(mixer, (count - 1) as nat).len();
    if i < front {
        lemma_source_key_bound(mixer, (count - 1) as nat, i);
    }
}

proof fn lemma_mixer_key_bound(count: nat, source_count: nat, i: int)
    requires
        0 <= i < mixer_keys(count, source_count).len(),
    ensures
        0 <= mixer_keys(count, source_count)[i].0 < count,
    decreases count,
{
    let front = mixer_keys((count - 1) as nat, source_count).len();
    if i < front {
        lemma_mixer_key_bound((count - 1) as nat, source_count, i);
    } else if i >= front + 5 {
        lemma_source_key_bound(count - 1, source_count, i - front - 5);
    }
}

proof fn lemma_mixer_keys_distinct(count: nat, source_count: nat, i: int, j: int)
    requires
        0 <= i < j < mixer_keys(count, source_count).len(),
    ensures
        mixer_keys(count, source_count)[i] != mixer_keys(count, source_count)[j],
    decreases count,
{
    let front = mixer_keys((count - 1) as nat, source_count).len();
    if j < front {
        lemma_mixer_keys_distinct((count - 1) as nat, source_count, i, j);
    } else if i < front {
        lemma_mixer_key_bound((count - 1) as nat, source_count, i);
        if j >= front + 5 {
            lemma_source_key_bound(count - 1, source_count, j - front - 5);
        }
    } else if i < front + 5 {
        if j >= front + 5 {
            lemma_source_key_bound(count - 1, source_count, j - front - 5);
        }
    } else {
        lemma_source_keys_distinct(count - 1, source_count, i - front - 5, j - front - 5);
    }
}

/// The lists of commands of two states of the mixers hold different
/// commands at different places.
pub proof fn lemma_mixer_places_differ(
    a: CommandDspMixerState,
    b: CommandDspMixerState,
    source_count: nat,
    output_ports: Seq<TargetPort>,
)
    requires
        source_count <= usize::MAX,
    ensures
        a.spec_commands(source_count, output_ports).len() == b.spec_commands(
            source_count,
            output_ports,
        ).len(),
        places_differ(
            cmds_view(a.spec_commands(source_count, output_ports)),
            cmds_view(b.spec_commands(source_count, output_ports)),
        ),
{
    let x = a.spec_commands(source_count, output_ports);
    let y = b.spec_commands(source_count, output_ports);
    let count = MIXER_COUNT as nat;
    lemma_mixer_keys_len(a, count, source_count, output_ports);
    lemma_mixer_keys_len(b, count, source_count, output_ports);
    assert forall|i: int, j: int|
        0 <= i < x.len() && 0 <= j < y.len() && i != j implies cmds_view(x)[i] != cmds_view(
        y,
    )[j] by {
        lemma_mixer_keys(a, count, source_count, output_ports, i);
        lemma_mixer_keys(b, count, source_count, output_ports, j);
        if i < j {
            lemma_mixer_keys_distinct(count, source_count, i, j);
        } else {
            lemma_mixer_keys_distinct(count, source_count, j, i);
        }
        if cmds_view(x)[i] == cmds_view(y)[j] {
            assert(x[i]@ == y[j]@);
            assert(x[i] == y[j]);
        }
    }
}

/// The commands that bring the device from one state of the mixers to
/// another are the commands for the parameters in which the two states
/// differ, in their order, and no others.
pub proof fn lemma_changed_mixer_commands_by_place(
    state: CommandDspMixerState,
    old: CommandDspMixerState,
    source_count: nat,
    output_ports: Seq<TargetPort>,
)
    requires
        source_count <= usize::MAX,
    ensures
        changed_cmds(
            cmds_view(state.spec_commands(source_count, output_ports)),
            cmds_view(old.spec_commands(source_count, output_ports)),
        ) == changed_places(
            cmds_view(state.spec_commands(source_count, output_ports)),
            cmds_view(old.spec_commands(source_count, output_ports)),
        ),
{
    lemma_mixer_places_differ(state, old, source_count, output_ports);
    lemma_changed_cmds_by_place(
        cmds_view(state.spec_commands(source_count, output_ports)),
        cmds_view(old.spec_commands(source_count, output_ports)),
    );
}

} // verus!
