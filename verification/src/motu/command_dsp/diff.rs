//! The commands that bring the device from one state to another.
//!
//! A state is written as the list of the commands for all of its
//! parameters. To go from an old state to a new one, only those commands of
//! the new state's list are sent that the old state's list does not hold.

use vstd::prelude::*;
use super::cmd::{cmds_view, DspCmd, DspCmdView};

verus! {

/// The commands of `new_cmds` that `old_cmds` does not hold, in their order.
pub open spec fn changed_cmds(
    new_cmds: Seq<DspCmdView>,
    old_cmds: Seq<DspCmdView>,
) -> Seq<DspCmdView>
    decreases new_cmds.len(),
{
    if new_cmds.len() == 0 {
        Seq::empty()
    } else if old_cmds.contains(new_cmds.last()) {
        changed_cmds(new_cmds.drop_last(), old_cmds)
    } else {
        changed_cmds(new_cmds.drop_last(), old_cmds).push(new_cmds.last())
    }
}

/// The commands of `new_cmds` that differ from the command at the same
/// place of `old_cmds`, in their order.
pub open spec fn changed_places(
    new_cmds: Seq<DspCmdView>,
    old_cmds: Seq<DspCmdView>,
) -> Seq<DspCmdView>
    decreases new_cmds.len(),
{
    if new_cmds.len() == 0 {
        Seq::empty()
    } else if new_cmds.len() <= old_cmds.len() && old_cmds[new_cmds.len() - 1]
        == new_cmds.last() {
        changed_places(new_cmds.drop_last(), old_cmds)
    } else {
        changed_places(new_cmds.drop_last(), old_cmds).push(new_cmds.last())
    }
}

/// Whether commands at different places of the two lists are different
/// commands.
pub open spec fn places_differ(a: Seq<DspCmdView>, b: Seq<DspCmdView>) -> bool {
    forall|i: int, j: int| 0 <= i < a.len() && 0 <= j < b.len() && i != j ==> a[i] != b[j]
}

/// Whether `cmds` holds the command `cmd`.
pub fn holds_command(cmds: &[DspCmd], cmd: &DspCmd) -> (holds: bool)
    ensures
        holds == cmds_view(cmds@).contains(cmd@),
{
    let mut i: usize = 0;
    while i < cmds.len()
        invariant
            i <= cmds@.len(),
            forall|k: int| 0 <= k < i ==> cmds_view(cmds@)[k] != cmd@,
        decreases cmds@.len() - i,
    {
        if cmds[i] == *cmd {
            assert(cmds_view(cmds@)[i as int] == cmd@);
            return true;
        }
        i += 1;
    }
    false
}

/// The commands of `new_cmds` that `old_cmds` does not hold, in their order.
pub fn retain_changed(new_cmds: &[DspCmd], old_cmds: &[DspCmd]) -> (kept: Vec<DspCmd>)
    ensures
        cmds_view(kept@) == changed_cmds(cmds_view(new_cmds@), cmds_view(old_cmds@)),
{
    let mut kept: Vec<DspCmd> = Vec::new();
    let mut i: usize = 0;
    assert(cmds_view(new_cmds@).take(0) =~= Seq::<DspCmdView>::empty());
    assert(cmds_view(kept@) =~= Seq::<DspCmdView>::empty());
    while i < new_cmds.len()
        invariant
            i <= new_cmds@.len(),
            cmds_view(kept@) == changed_cmds(
                cmds_view(new_cmds@).take(i as int),
                cmds_view(old_cmds@),
            ),
        decreases new_cmds@.len() - i,
    {
        let ghost before = cmds_view(kept@);
        proof {
            let next = cmds_view(new_cmds@).take(i + 1);
            assert(next.drop_last() =~= cmds_view(new_cmds@).take(i as int));
            assert(next.last() == new_cmds@[i as int]@);
        }
        if !holds_command(old_cmds, &new_cmds[i]) {
            kept.push(new_cmds[i].clone());
            assert(cmds_view(kept@) =~= before.push(new_cmds@[i as int]@));
        }
        i += 1;
    }
    assert(cmds_view(new_cmds@).take(i as int) =~= cmds_view(new_cmds@));
    kept
}

/// No command of a list is left when the list itself is taken away: to go
/// from a state to the same state, nothing is sent.
pub proof fn lemma_nothing_changed(cmds: Seq<DspCmdView>)
    ensures
        changed_cmds(cmds, cmds).len() == 0,
{
    lemma_all_held(cmds, cmds);
}

proof fn lemma_all_held(new_cmds: Seq<DspCmdView>, old_cmds: Seq<DspCmdView>)
    requires
        forall|i: int| 0 <= i < new_cmds.len() ==> old_cmds.contains(#[trigger] new_cmds[i]),
    ensures
        changed_cmds(new_cmds, old_cmds).len() == 0,
    decreases new_cmds.len(),
{
    if new_cmds.len() > 0 {
        assert(old_cmds.contains(new_cmds[new_cmds.len() - 1]));
        assert forall|i: int| 0 <= i < new_cmds.drop_last().len() implies old_cmds.contains(
            #[trigger] new_cmds.drop_last()[i],
        ) by {
            assert(new_cmds.drop_last()[i] == new_cmds[i]);
        }
        lemma_all_held(new_cmds.drop_last(), old_cmds);
    }
}

/// A command is among those to send exactly if the new list holds it and the
/// old list does not.
pub proof fn lemma_changed_cmds_membership(
    new_cmds: Seq<DspCmdView>,
    old_cmds: Seq<DspCmdView>,
    cmd: DspCmdView,
)
    ensures
        changed_cmds(new_cmds, old_cmds).contains(cmd) <==> new_cmds.contains(cmd)
            && !old_cmds.contains(cmd),
    decreases new_cmds.len(),
{
    let changed = changed_cmds(new_cmds, old_cmds);
    if new_cmds.len() > 0 {
        let front = new_cmds.drop_last();
        let last = new_cmds.last();
        lemma_changed_cmds_membership(front, old_cmds, cmd);
        let front_changed = changed_cmds(front, old_cmds);
        if new_cmds.contains(cmd) {
            let i = choose|i: int| 0 <= i < new_cmds.len() && new_cmds[i] == cmd;
            if i < front.len() {
                assert(front[i] == cmd);
            }
        }
        if front.contains(cmd) {
            let i = choose|i: int| 0 <= i < front.len() && front[i] == cmd;
            assert(new_cmds[i] == cmd);
        }
        if changed.contains(cmd) {
            let i = choose|i: int| 0 <= i < changed.len() && changed[i] == cmd;
            if i < front_changed.len() {
                assert(front_changed[i] == cmd);
            } else {
                assert(cmd == last);
                assert(new_cmds[new_cmds.len() - 1] == cmd);
            }
        }
        if front_changed.contains(cmd) {
            let i = choose|i: int| 0 <= i < front_changed.len() && front_changed[i] == cmd;
            assert(changed[i] == cmd);
        }
        if cmd == last && !old_cmds.contains(cmd) {
            assert(changed[changed.len() - 1] == cmd);
            assert(new_cmds[new_cmds.len() - 1] == cmd);
        }
    }
}

/// Where commands at different places are different commands, as with the
/// lists of two states of one kind, the commands to send are those at
/// the places where the two lists differ, and no others.
pub proof fn lemma_changed_cmds_by_place(new_cmds: Seq<DspCmdView>, old_cmds: Seq<DspCmdView>)
    requires
        new_cmds.len() <= old_cmds.len(),
        places_differ(new_cmds, old_cmds),
    ensures
        changed_cmds(new_cmds, old_cmds) == changed_places(new_cmds, old_cmds),
    decreases new_cmds.len(),
{
    if new_cmds.len() > 0 {
        let front = new_cmds.drop_last();
        let last = new_cmds.last();
        let place = new_cmds.len() - 1;
        assert forall|i: int, j: int|
            0 <= i < front.len() && 0 <= j < old_cmds.len() && i != j implies front[i]
            != old_cmds[j] by {
            assert(front[i] == new_cmds[i]);
        }
        lemma_changed_cmds_by_place(front, old_cmds);
        if old_cmds.contains(last) {
            let j = choose|j: int| 0 <= j < old_cmds.len() && old_cmds[j] == last;
            assert(new_cmds[place] == old_cmds[j]);
            assert(j == place);
        } else {
            assert(old_cmds[place] != last);
        }
    }
}

/// A list that differs from the old one at one place alone, by a command
/// that the old list does not hold, has this one command to send.
pub proof fn lemma_one_changed_command(old_cmds: Seq<DspCmdView>, place: int, cmd: DspCmdView)
    requires
        0 <= place < old_cmds.len(),
        !old_cmds.contains(cmd),
    ensures
        changed_cmds(old_cmds.update(place, cmd), old_cmds) == seq![cmd],
{
    lemma_one_changed_prefix(old_cmds, place, cmd, old_cmds.len() as int);
    assert(old_cmds.update(place, cmd).take(old_cmds.len() as int) =~= old_cmds.update(
        place,
        cmd,
    ));
}

proof fn lemma_one_changed_prefix(
    old_cmds: Seq<DspCmdView>,
    place: int,
    cmd: DspCmdView,
    n: int,
)
    requires
        0 <= place < old_cmds.len(),
        0 <= n <= old_cmds.len(),
        !old_cmds.contains(cmd),
    ensures
        changed_cmds(old_cmds.update(place, cmd).take(n), old_cmds) == (if n <= place {
            Seq::<DspCmdView>::empty()
        } else {
            seq![cmd]
        }),
    decreases n,
{
    let new_cmds = old_cmds.update(place, cmd).take(n);
    if n > 0 {
        lemma_one_changed_prefix(old_cmds, place, cmd, n - 1);
        assert(new_cmds.drop_last() =~= old_cmds.update(place, cmd).take(n - 1));
        if n - 1 == place {
            assert(new_cmds.last() == cmd);
            assert(Seq::<DspCmdView>::empty().push(cmd) =~= seq![cmd]);
        } else {
            assert(new_cmds.last() == old_cmds[n - 1]);
            assert(old_cmds.contains(old_cmds[n - 1]));
        }
    }
}

} // verus!
