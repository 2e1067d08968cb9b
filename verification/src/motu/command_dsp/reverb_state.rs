//! State of the reverb effect.

use vstd::prelude::*;
use crate::float32::Float32;
use super::cmd::{cmds_view, DspCmd};
use super::diff::{
    changed_cmds, changed_places, lemma_changed_cmds_by_place, places_differ, retain_changed,
};
use super::params::{RoomShape, SplitPoint};
use super::reverb::ReverbCmd;

verus! {

/// The structure for state of reverb function.
#[derive(Debug, Copy, Clone)]
pub struct CommandDspReverbState {
    pub enable: bool,
    pub split_point: SplitPoint,
    pub pre_delay: u32,
    pub shelf_filter_freq: u32,
    pub shelf_filter_attenuation: i32,
    pub decay_time: u32,
    /// For low, middle and high frequencies.
    pub freq_time: [u32; 3],
    /// Between low and middle, and between middle and high frequencies.
    pub freq_crossover: [u32; 2],
    pub width: Float32,
    pub reflection_mode: RoomShape,
    pub reflection_size: u32,
    pub reflection_level: Float32,
}

impl Default for CommandDspReverbState {
    fn default() -> (state: Self)
        ensures
            state.enable == false,
            state.split_point == SplitPoint::Output,
            state.pre_delay == 0,
            state.shelf_filter_freq == 0,
            state.shelf_filter_attenuation == 0,
            state.decay_time == 0,
            state.freq_time@ == seq![0u32, 0u32, 0u32],
            state.freq_crossover@ == seq![0u32, 0u32],
            state.width.bits == 0,
            state.reflection_mode == RoomShape::A,
            state.reflection_size == 0,
            state.reflection_level.bits == 0,
    {
        let state = CommandDspReverbState {
            enable: false,
            split_point: SplitPoint::Output,
            pre_delay: 0,
            shelf_filter_freq: 0,
            shelf_filter_attenuation: 0,
            decay_time: 0,
            freq_time: [0, 0, 0],
            freq_crossover: [0, 0],
            width: Float32::from_bits(0),
            reflection_mode: RoomShape::A,
            reflection_size: 0,
            reflection_level: Float32::from_bits(0),
        };
        assert(state.freq_time@ =~= seq![0u32, 0u32, 0u32]);
        assert(state.freq_crossover@ =~= seq![0u32, 0u32]);
        state
    }
}

impl CommandDspReverbState {
    /// The commands for all parameters of the state, in the order in which
    /// they are written.
    pub open spec fn spec_commands(self) -> Seq<DspCmd> {
        seq![
            DspCmd::Reverb(ReverbCmd::Enable(self.enable)),
            DspCmd::Reverb(ReverbCmd::Split(self.split_point)),
            DspCmd::Reverb(ReverbCmd::PreDelay(self.pre_delay)),
            DspCmd::Reverb(ReverbCmd::ShelfFilterFreq(self.shelf_filter_freq)),
            DspCmd::Reverb(ReverbCmd::ShelfFilterAttenuation(self.shelf_filter_attenuation)),
            DspCmd::Reverb(ReverbCmd::DecayTime(self.decay_time)),
            DspCmd::Reverb(ReverbCmd::LowFreqTime(self.freq_time@[0])),
            DspCmd::Reverb(ReverbCmd::MiddleFreqTime(self.freq_time@[1])),
            DspCmd::Reverb(ReverbCmd::HighFreqTime(self.freq_time@[2])),
            DspCmd::Reverb(ReverbCmd::LowFreqCrossover(self.freq_crossover@[0])),
            DspCmd::Reverb(ReverbCmd::HighFreqCrossover(self.freq_crossover@[1])),
            DspCmd::Reverb(ReverbCmd::Width(self.width)),
            DspCmd::Reverb(ReverbCmd::ReflectionMode(self.reflection_mode)),
            DspCmd::Reverb(ReverbCmd::ReflectionSize(self.reflection_size)),
            DspCmd::Reverb(ReverbCmd::ReflectionLevel(self.reflection_level)),
        ]
    }
}

/// Whether `new_state` is `old_state` with the value of the command `cmd`
/// taken over. A command of no documented parameter changes nothing.
pub open spec fn reverb_command_applied(
    old_state: CommandDspReverbState,
    cmd: ReverbCmd,
    new_state: CommandDspReverbState,
) -> bool {
    match cmd {
        ReverbCmd::Enable(val) => new_state == (CommandDspReverbState { enable: val, ..old_state }),
        ReverbCmd::Split(val) => new_state == (CommandDspReverbState {
            split_point: val,
            ..old_state
        }),
        ReverbCmd::PreDelay(val) => new_state == (CommandDspReverbState {
            pre_delay: val,
            ..old_state
        }),
        ReverbCmd::ShelfFilterFreq(val) => new_state == (CommandDspReverbState {
            shelf_filter_freq: val,
            ..old_state
        }),
        ReverbCmd::ShelfFilterAttenuation(val) => new_state == (CommandDspReverbState {
            shelf_filter_attenuation: val,
            ..old_state
        }),
        ReverbCmd::DecayTime(val) => new_state == (CommandDspReverbState {
            decay_time: val,
            ..old_state
        }),
        ReverbCmd::LowFreqTime(val) => freq_time_applied(old_state, 0, val, new_state),
        ReverbCmd::MiddleFreqTime(val) => freq_time_applied(old_state, 1, val, new_state),
        ReverbCmd::HighFreqTime(val) => freq_time_applied(old_state, 2, val, new_state),
        ReverbCmd::LowFreqCrossover(val) => freq_crossover_applied(old_state, 0, val, new_state),
        ReverbCmd::HighFreqCrossover(val) => freq_crossover_applied(
            old_state,
            1,
            val,
            new_state,
        ),
        ReverbCmd::Width(val) => new_state == (CommandDspReverbState { width: val, ..old_state }),
        ReverbCmd::ReflectionMode(val) => new_state == (CommandDspReverbState {
            reflection_mode: val,
            ..old_state
        }),
        ReverbCmd::ReflectionSize(val) => new_state == (CommandDspReverbState {
            reflection_size: val,
            ..old_state
        }),
        ReverbCmd::ReflectionLevel(val) => new_state == (CommandDspReverbState {
            reflection_level: val,
            ..old_state
        }),
        ReverbCmd::Reserved(_, _) => new_state == old_state,
    }
}

/// Whether `new_state` is `old_state` with `val` as the time of the band
/// `band`.
pub open spec fn freq_time_applied(
    old_state: CommandDspReverbState,
    band: int,
    val: u32,
    new_state: CommandDspReverbState,
) -> bool {
    &&& new_state == (CommandDspReverbState { freq_time: new_state.freq_time, ..old_state })
    &&& new_state.freq_time@ == old_state.freq_time@.update(band, val)
}

/// Whether `new_state` is `old_state` with `val` as the crossover `place`.
pub open spec fn freq_crossover_applied(
    old_state: CommandDspReverbState,
    place: int,
    val: u32,
    new_state: CommandDspReverbState,
) -> bool {
    &&& new_state == (CommandDspReverbState {
        freq_crossover: new_state.freq_crossover,
        ..old_state
    })
    &&& new_state.freq_crossover@ == old_state.freq_crossover@.update(place, val)
}

/// Whether `new_state` is `old_state` with the command `cmd` taken over, if
/// it is a command of the reverb effect, and `old_state` itself else.
pub open spec fn reverb_dsp_command_applied(
    old_state: CommandDspReverbState,
    cmd: DspCmd,
    new_state: CommandDspReverbState,
) -> bool {
    match cmd {
        DspCmd::Reverb(c) => reverb_command_applied(old_state, c, new_state),
        _ => new_state == old_state,
    }
}

/// Whether `new_state` is `old_state` with the commands of `cmds` taken over
/// one after the other.
pub open spec fn reverb_commands_applied(
    old_state: CommandDspReverbState,
    cmds: Seq<DspCmd>,
    new_state: CommandDspReverbState,
) -> bool
    decreases cmds.len(),
{
    if cmds.len() == 0 {
        new_state == old_state
    } else {
        exists|mid: CommandDspReverbState|
            reverb_commands_applied(old_state, cmds.drop_last(), mid)
                && reverb_dsp_command_applied(mid, cmds.last(), new_state)
    }
}

pub fn create_reverb_command(state: &CommandDspReverbState) -> (cmds: Vec<DspCmd>)
    ensures
        cmds@ == state.spec_commands(),
{
    let mut cmds: Vec<DspCmd> = Vec::new();
    cmds.push(DspCmd::Reverb(ReverbCmd::Enable(state.enable)));
    cmds.push(DspCmd::Reverb(ReverbCmd::Split(state.split_point)));
    cmds.push(DspCmd::Reverb(ReverbCmd::PreDelay(state.pre_delay)));
    cmds.push(DspCmd::Reverb(ReverbCmd::ShelfFilterFreq(state.shelf_filter_freq)));
    cmds.push(DspCmd::Reverb(ReverbCmd::ShelfFilterAttenuation(state.shelf_filter_attenuation)));
    cmds.push(DspCmd::Reverb(ReverbCmd::DecayTime(state.decay_time)));
    cmds.push(DspCmd::Reverb(ReverbCmd::LowFreqTime(state.freq_time[0])));
    cmds.push(DspCmd::Reverb(ReverbCmd::MiddleFreqTime(state.freq_time[1])));
    cmds.push(DspCmd::Reverb(ReverbCmd::HighFreqTime(state.freq_time[2])));
    cmds.push(DspCmd::Reverb(ReverbCmd::LowFreqCrossover(state.freq_crossover[0])));
    cmds.push(DspCmd::Reverb(ReverbCmd::HighFreqCrossover(state.freq_crossover[1])));
    cmds.push(DspCmd::Reverb(ReverbCmd::Width(state.width)));
    cmds.push(DspCmd::Reverb(ReverbCmd::ReflectionMode(state.reflection_mode)));
    cmds.push(DspCmd::Reverb(ReverbCmd::ReflectionSize(state.reflection_size)));
    cmds.push(DspCmd::Reverb(ReverbCmd::ReflectionLevel(state.reflection_level)));
    assert(cmds@ =~= state.spec_commands());
    cmds
}

pub fn parse_reverb_command(state: &mut CommandDspReverbState, cmd: &ReverbCmd)
    ensures
        reverb_command_applied(*old(state), *cmd, *final(state)),
{
    match cmd {
        ReverbCmd::Enable(val) => state.enable = *val,
        ReverbCmd::Split(val) => state.split_point = *val,
        ReverbCmd::PreDelay(val) => state.pre_delay = *val,
        ReverbCmd::ShelfFilterFreq(val) => state.shelf_filter_freq = *val,
        ReverbCmd::ShelfFilterAttenuation(val) => state.shelf_filter_attenuation = *val,
        ReverbCmd::DecayTime(val) => state.decay_time = *val,
        ReverbCmd::LowFreqTime(val) => state.freq_time[0] = *val,
        ReverbCmd::MiddleFreqTime(val) => state.freq_time[1] = *val,
        ReverbCmd::HighFreqTime(val) => state.freq_time[2] = *val,
        ReverbCmd::LowFreqCrossover(val) => state.freq_crossover[0] = *val,
        ReverbCmd::HighFreqCrossover(val) => state.freq_crossover[1] = *val,
        ReverbCmd::Width(val) => state.width = *val,
        ReverbCmd::ReflectionMode(val) => state.reflection_mode = *val,
        ReverbCmd::ReflectionSize(val) => state.reflection_size = *val,
        ReverbCmd::ReflectionLevel(val) => state.reflection_level = *val,
        ReverbCmd::Reserved(_, _) => {
        },
    }
}

/// Takes the commands of the reverb effect among `cmds` over into the state,
/// one after the other, and passes over the commands of other sections.
pub fn parse_reverb_commands(state: &mut CommandDspReverbState, cmds: &[DspCmd])
    ensures
        reverb_commands_applied(*old(state), cmds@, *final(state)),
{
    let mut i: usize = 0;
    assert(cmds@.take(0).len() == 0);
    while i < cmds.len()
        invariant
            i <= cmds@.len(),
            reverb_commands_applied(*old(state), cmds@.take(i as int), *state),
        decreases cmds@.len() - i,
    {
        let ghost mid = *state;
        if let DspCmd::Reverb(c) = &cmds[i] {
            parse_reverb_command(state, c);
        }
        proof {
            let next = cmds@.take(i + 1);
            assert(next.drop_last() =~= cmds@.take(i as int));
            assert(next.last() == cmds@[i as int]);
            assert(reverb_dsp_command_applied(mid, next.last(), *state));
        }
        i += 1;
    }
    assert(cmds@.take(i as int) =~= cmds@);
}

/// The commands that bring the device from the state `old` to the state
/// `state`: those for `state` that are not among those for `old`.
pub fn changed_reverb_commands(state: &CommandDspReverbState, old: &CommandDspReverbState) -> (cmds:
    Vec<DspCmd>)
    ensures
        cmds_view(cmds@) == changed_cmds(
            cmds_view(state.spec_commands()),
            cmds_view(old.spec_commands()),
        ),
{
    let new_cmds = create_reverb_command(state);
    let old_cmds = create_reverb_command(old);
    retain_changed(new_cmds.as_slice(), old_cmds.as_slice())
}

/// The lists of commands of two states of the reverb effect hold different
/// commands at different places, so that the commands to send are those of
/// the parameters in which the states differ.
pub proof fn lemma_reverb_places_differ(a: CommandDspReverbState, b: CommandDspReverbState)
    ensures
        a.spec_commands().len() == b.spec_commands().len(),
        places_differ(cmds_view(a.spec_commands()), cmds_view(b.spec_commands())),
{
    let x = cmds_view(a.spec_commands());
    let y = cmds_view(b.spec_commands());
    assert forall|i: int, j: int| 0 <= i < x.len() && 0 <= j < y.len() && i != j implies x[i]
        != y[j] by {
        assert(x[i] == a.spec_commands()[i]@);
        assert(y[j] == b.spec_commands()[j]@);
    }
}

/// The commands that bring the device from one state of the reverb effect to
/// another are the commands for the parameters in which the two states
/// differ, in their order, and no others.
pub proof fn lemma_changed_reverb_commands_by_place(
    state: CommandDspReverbState,
    old: CommandDspReverbState,
)
    ensures
        changed_cmds(
            cmds_view(state.spec_commands()),
            cmds_view(old.spec_commands()),
        ) == changed_places(
            cmds_view(state.spec_commands()),
            cmds_view(old.spec_commands()),
        ),
{
    lemma_reverb_places_differ(state, old);
    lemma_changed_cmds_by_place(
        cmds_view(state.spec_commands()),
        cmds_view(old.spec_commands()),
    );
}

} // verus!
