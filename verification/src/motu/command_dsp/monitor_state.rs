//! State of the monitor section.

use vstd::prelude::*;
use crate::float32::Float32;
use crate::motu::{spec_target_position, target_position, TargetPort};
use super::cmd::{cmds_view, DspCmd};
use super::diff::{
    changed_cmds, changed_places, lemma_changed_cmds_by_place, places_differ, retain_changed,
};
use super::monitor::{FocusTarget, MonitorCmd};

verus! {

/// The structure for state of monitor function.
#[derive(Debug, Copy, Clone)]
pub struct CommandDspMonitorState {
    /// The volume adjusted by main (master) knob.
    pub main_volume: Float32,
    pub talkback_enable: bool,
    pub listenback_enable: bool,
    pub talkback_volume: Float32,
    pub listenback_volume: Float32,
    pub focus: FocusTarget,
    pub assign_target: TargetPort,
}

impl Default for CommandDspMonitorState {
    fn default() -> (state: Self)
        ensures
            state == (CommandDspMonitorState {
                main_volume: Float32 { bits: 0 },
                talkback_enable: false,
                listenback_enable: false,
                talkback_volume: Float32 { bits: 0 },
                listenback_volume: Float32 { bits: 0 },
                focus: FocusTarget::Output(0),
                assign_target: TargetPort::Disabled,
            }),
    {
        CommandDspMonitorState {
            main_volume: Float32::from_bits(0),
            talkback_enable: false,
            listenback_enable: false,
            talkback_volume: Float32::from_bits(0),
            listenback_volume: Float32::from_bits(0),
            focus: FocusTarget::Output(0),
            assign_target: TargetPort::Disabled,
        }
    }
}

/// The port at place `pos` of `ports`, or the disabled port where there is
/// no such place.
pub open spec fn spec_target_at(ports: Seq<TargetPort>, pos: usize) -> TargetPort {
    if pos < ports.len() {
        ports[pos as int]
    } else {
        TargetPort::Disabled
    }
}

impl CommandDspMonitorState {
    /// The commands for all parameters of the state, in the order in which
    /// they are written. The port to which the return is assigned is written
    /// as its place among `target_ports`.
    pub open spec fn spec_commands(self, target_ports: Seq<TargetPort>) -> Seq<DspCmd> {
        seq![
            DspCmd::Monitor(MonitorCmd::Volume(self.main_volume)),
            DspCmd::Monitor(MonitorCmd::TalkbackEnable(self.talkback_enable)),
            DspCmd::Monitor(MonitorCmd::ListenbackEnable(self.listenback_enable)),
            DspCmd::Monitor(MonitorCmd::TalkbackVolume(self.talkback_volume)),
            DspCmd::Monitor(MonitorCmd::ListenbackVolume(self.listenback_volume)),
            DspCmd::Monitor(MonitorCmd::Focus(self.focus)),
            DspCmd::Monitor(
                MonitorCmd::ReturnAssign(
                    spec_target_position(target_ports, self.assign_target) as usize,
                ),
            ),
        ]
    }

    /// The state with the value of the command `cmd` taken over. A command
    /// of no documented parameter changes nothing.
    pub open spec fn spec_applied(self, cmd: MonitorCmd, target_ports: Seq<TargetPort>) -> Self {
        match cmd {
            MonitorCmd::Volume(val) => CommandDspMonitorState { main_volume: val, ..self },
            MonitorCmd::TalkbackEnable(val) => CommandDspMonitorState {
                talkback_enable: val,
                ..self
            },
            MonitorCmd::ListenbackEnable(val) => CommandDspMonitorState {
                listenback_enable: val,
                ..self
            },
            MonitorCmd::TalkbackVolume(val) => CommandDspMonitorState {
                talkback_volume: val,
                ..self
            },
            MonitorCmd::ListenbackVolume(val) => CommandDspMonitorState {
                listenback_volume: val,
                ..self
            },
            MonitorCmd::Focus(val) => CommandDspMonitorState { focus: val, ..self },
            MonitorCmd::ReturnAssign(val) => CommandDspMonitorState {
                assign_target: spec_target_at(target_ports, val),
                ..self
            },
            MonitorCmd::Reserved(_, _) => self,
        }
    }

    /// The state with the command `cmd` taken over, if it is a command of
    /// the monitor section, and the state itself else.
    pub open spec fn spec_dsp_applied(self, cmd: DspCmd, target_ports: Seq<TargetPort>) -> Self {
        match cmd {
            DspCmd::Monitor(c) => self.spec_applied(c, target_ports),
            _ => self,
        }
    }

    /// The state with the commands of `cmds` taken over one after the other.
    pub open spec fn spec_all_applied(self, cmds: Seq<DspCmd>, target_ports: Seq<TargetPort>) -> Self
        decreases cmds.len(),
    {
        if cmds.len() == 0 {
            self
        } else {
            self.spec_all_applied(cmds.drop_last(), target_ports).spec_dsp_applied(
                cmds.last(),
                target_ports,
            )
        }
    }
}

pub fn create_monitor_commands(state: &CommandDspMonitorState, target_ports: &[TargetPort]) -> (cmds:
    Vec<DspCmd>)
    ensures
        cmds@ == state.spec_commands(target_ports@),
{
    let pos = target_position(target_ports, state.assign_target);
    let mut cmds: Vec<DspCmd> = Vec::new();
    cmds.push(DspCmd::Monitor(MonitorCmd::Volume(state.main_volume)));
    cmds.push(DspCmd::Monitor(MonitorCmd::TalkbackEnable(state.talkback_enable)));
    cmds.push(DspCmd::Monitor(MonitorCmd::ListenbackEnable(state.listenback_enable)));
    cmds.push(DspCmd::Monitor(MonitorCmd::TalkbackVolume(state.talkback_volume)));
    cmds.push(DspCmd::Monitor(MonitorCmd::ListenbackVolume(state.listenback_volume)));
    cmds.push(DspCmd::Monitor(MonitorCmd::Focus(state.focus)));
    cmds.push(DspCmd::Monitor(MonitorCmd::ReturnAssign(pos)));
    assert(cmds@ =~= state.spec_commands(target_ports@));
    cmds
}

pub fn parse_monitor_command(
    state: &mut CommandDspMonitorState,
    cmd: &MonitorCmd,
    target_ports: &[TargetPort],
)
    ensures
        *final(state) == old(state).spec_applied(*cmd, target_ports@),
{
    match cmd {
        MonitorCmd::Volume(val) => state.main_volume = *val,
        MonitorCmd::TalkbackEnable(val) => state.talkback_enable = *val,
        MonitorCmd::ListenbackEnable(val) => state.listenback_enable = *val,
        MonitorCmd::TalkbackVolume(val) => state.talkback_volume = *val,
        MonitorCmd::ListenbackVolume(val) => state.listenback_volume = *val,
        MonitorCmd::Focus(val) => state.focus = *val,
        MonitorCmd::ReturnAssign(val) => {
            state.assign_target = if *val < target_ports.len() {
                target_ports[*val]
            } else {
                TargetPort::Disabled
            };
        },
        MonitorCmd::Reserved(_, _) => {
        },
    }
}

/// Takes the commands of the monitor section among `cmds` over into the
/// state, one after the other, and passes over the commands of other sections.
pub fn parse_monitor_commands(
    state: &mut CommandDspMonitorState,
    cmds: &[DspCmd],
    target_ports: &[TargetPort],
)
    ensures
        *final(state) == old(state).spec_all_applied(cmds@, target_ports@),
{
    let mut i: usize = 0;
    while i < cmds.len()
        invariant
            i <= cmds@.len(),
            *state == old(state).spec_all_applied(cmds@.take(i as int), target_ports@),
        decreases cmds@.len() - i,
    {
        if let DspCmd::Monitor(c) = &cmds[i] {
            parse_monitor_command(state, c, target_ports);
        }
        proof {
            let next = cmds@.take(i + 1);
            assert(next.drop_last() =~= cmds@.take(i as int));
            assert(next.last() == cmds@[i as int]);
        }
        i += 1;
    }
    assert(cmds@.take(i as int) =~= cmds@);
}

/// The commands that bring the device from the state `old` to the state
/// `state`: those for `state` that are not among those for `old`.
pub fn changed_monitor_commands(
    state: &CommandDspMonitorState,
    old: &CommandDspMonitorState,
    target_ports: &[TargetPort],
) -> (cmds: Vec<DspCmd>)
    ensures
        cmds_view(cmds@) == changed_cmds(
            cmds_view(state.spec_commands(target_ports@)),
            cmds_view(old.spec_commands(target_ports@)),
        ),
{
    let new_cmds = create_monitor_commands(state, target_ports);
    let old_cmds = create_monitor_commands(old, target_ports);
    retain_changed(new_cmds.as_slice(), old_cmds.as_slice())
}

/// The lists of commands of two states of the monitor section hold
/// different commands at different places, so that the commands to send are
/// those of the parameters in which the states differ.
pub proof fn lemma_monitor_places_differ(
    a: CommandDspMonitorState,
    b: CommandDspMonitorState,
    target_ports: Seq<TargetPort>,
)
    ensures
        a.spec_commands(target_ports).len() == b.spec_commands(target_ports).len(),
        places_differ(
            cmds_view(a.spec_commands(target_ports)),
            cmds_view(b.spec_commands(target_ports)),
        ),
{
    let x = cmds_view(a.spec_commands(target_ports));
    let y = cmds_view(b.spec_commands(target_ports));
    assert forall|i: int, j: int| 0 <= i < x.len() && 0 <= j < y.len() && i != j implies x[i]
        != y[j] by {
        assert(x[i] == a.spec_commands(target_ports)[i]@);
        assert(y[j] == b.spec_commands(target_ports)[j]@);
    }
}

/// The commands that bring the device from one state of the monitor section to
/// another are the commands for the parameters in which the two states
/// differ, in their order, and no others.
pub proof fn lemma_changed_monitor_commands_by_place(
    state: CommandDspMonitorState,
    old: CommandDspMonitorState,
    target_ports: Seq<TargetPort>,
)
    ensures
        changed_cmds(
            cmds_view(state.spec_commands(target_ports)),
            cmds_view(old.spec_commands(target_ports)),
        ) == changed_places(
            cmds_view(state.spec_commands(target_ports)),
            cmds_view(old.spec_commands(target_ports)),
        ),
{
    lemma_monitor_places_differ(state, old, target_ports);
    lemma_changed_cmds_by_place(
        cmds_view(state.spec_commands(target_ports)),
        cmds_view(old.spec_commands(target_ports)),
    );
}

} // verus!
