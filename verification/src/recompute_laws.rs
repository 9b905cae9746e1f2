//! What holds of every recomputation of the source breakpoints.

use vstd::prelude::*;
use crate::breakpoint::{
    distinct_addresses, first_at, lemma_without_first_at, selects, unselected, without_first,
    ActiveBreakpoint, BreakpointType,
};
use crate::error::DebuggerError;
use crate::manager::Effect;
use crate::recompute::{
    failed_at, recompute_step, resolve_again, source_targets, RecomputeView, SourceTarget,
};
use crate::source::{ResolveError, VerifiedBreakpoint};
use crate::transaction::{Reply, Step};
use crate::verify_set::{unresolved, verify_step, VerifyAndSet};

verus! {

/// The run of a recomputation: the calls of the operation, each given the
/// next reply of `script` in answer to the transaction that the call before
/// asked for, until the operation has ended or the script is used up.
pub open spec fn recompute_run(
    breakpoints: Seq<ActiveBreakpoint>,
    progress: RecomputeView,
    reply: Option<Reply>,
    script: Seq<Reply>,
) -> Effect<RecomputeView, Result<(), DebuggerError>>
    decreases script.len(),
{
    let effect = recompute_step(breakpoints, progress, reply);
    match effect.step {
        Step::Finished(_) => effect,
        Step::Perform(next, _) => if script.len() == 0 {
            effect
        } else {
            recompute_run(effect.breakpoints, next, Some(script[0]), script.skip(1))
        },
    }
}

/// Whether none of the targets from `next` on shares its address with a
/// recorded breakpoint that was not set for a place in the source.
pub open spec fn apart_from_others(
    breakpoints: Seq<ActiveBreakpoint>,
    targets: Seq<SourceTarget>,
    next: nat,
) -> bool {
    forall|i: int, k: int|
        0 <= i < breakpoints.len() && next <= k < targets.len() && !(
        #[trigger] breakpoints[i].breakpoint_type is SourceBreakpoint)
            ==> breakpoints[i].address != (#[trigger] targets[k]).address
}

/// Taking a breakpoint that a filter selects out of a record leaves what
/// the filter leaves.
pub proof fn lemma_remove_selected(
    breakpoints: Seq<ActiveBreakpoint>,
    filter: Option<BreakpointType>,
    i: int,
)
    requires
        0 <= i < breakpoints.len(),
        selects(filter, breakpoints[i].breakpoint_type),
    ensures
        unselected(breakpoints.remove(i), filter) == unselected(breakpoints, filter),
    decreases breakpoints.len(),
{
    let before = breakpoints.drop_last();
    if i == breakpoints.len() - 1 {
        assert(breakpoints.remove(i) =~= before);
    } else {
        assert(before[i] == breakpoints[i]);
        lemma_remove_selected(before, filter, i);
        let removed = breakpoints.remove(i);
        assert(removed.drop_last() =~= before.remove(i));
        assert(removed.last() == breakpoints.last());
    }
}

/// Every target of a recomputation is a recorded source breakpoint.
pub proof fn lemma_target_is_recorded(breakpoints: Seq<ActiveBreakpoint>, k: int) -> (j: int)
    requires
        0 <= k < source_targets(breakpoints).len(),
    ensures
        0 <= j < breakpoints.len(),
        breakpoints[j].address == source_targets(breakpoints)[k].address,
        breakpoints[j].breakpoint_type == BreakpointType::SourceBreakpoint(
            source_targets(breakpoints)[k].source,
            source_targets(breakpoints)[k].location,
        ),
    decreases breakpoints.len(),
{
    let before = breakpoints.drop_last();
    if k < source_targets(before).len() {
        let j = lemma_target_is_recorded(before, k);
        assert(breakpoints[j] == before[j]);
        j
    } else {
        breakpoints.len() - 1
    }
}

/// Clearing the target at `next` takes no breakpoint of another kind.
proof fn lemma_cleared_apart(
    breakpoints: Seq<ActiveBreakpoint>,
    targets: Seq<SourceTarget>,
    next: nat,
)
    requires
        next < targets.len(),
        apart_from_others(breakpoints, targets, next),
    ensures
        ({
            let cleared = without_first(breakpoints, targets[next as int].address);
            &&& unselected(cleared, None) == unselected(breakpoints, None)
            &&& apart_from_others(cleared, targets, next)
        }),
{
    let address = targets[next as int].address;
    if exists|i: int| first_at(breakpoints, address, i) {
        let i = choose|i: int| first_at(breakpoints, address, i);
        lemma_without_first_at(breakpoints, address, i);
        if !(breakpoints[i].breakpoint_type is SourceBreakpoint) {
            assert(breakpoints[i].address != targets[next as int].address);
        }
        lemma_remove_selected(breakpoints, None, i);
        let cleared = breakpoints.remove(i);
        assert forall|a: int, k: int|
            0 <= a < cleared.len() && next <= k < targets.len() && !(
            #[trigger] cleared[a].breakpoint_type is SourceBreakpoint) implies cleared[a].address
            != (#[trigger] targets[k]).address by {
            let a0 = if a < i { a } else { a + 1 };
            assert(cleared[a] == breakpoints[a0]);
        }
    }
}

/// Setting a source breakpoint adds no breakpoint of another kind.
proof fn lemma_setting_apart(
    breakpoints: Seq<ActiveBreakpoint>,
    targets: Seq<SourceTarget>,
    next: nat,
    setting: VerifyAndSet,
    reply: Option<Reply>,
)
    requires
        apart_from_others(breakpoints, targets, next),
    ensures
        ({
            let inner = verify_step(breakpoints, setting, reply);
            &&& unselected(inner.breakpoints, None) == unselected(breakpoints, None)
            &&& apart_from_others(inner.breakpoints, targets, next)
        }),
{
    let inner = verify_step(breakpoints, setting, reply);
    if inner.breakpoints != breakpoints {
        let added = inner.breakpoints;
        assert(added.drop_last() =~= breakpoints);
        assert(added.last().breakpoint_type is SourceBreakpoint);
        assert forall|a: int, k: int|
            0 <= a < added.len() && next <= k < targets.len() && !(
            #[trigger] added[a].breakpoint_type is SourceBreakpoint) implies added[a].address != (
        #[trigger] targets[k]).address by {
            assert(added[a] == breakpoints[a]);
        }
    }
}

/// A run that has begun spares the breakpoints of other kinds.
proof fn lemma_recompute_run(
    breakpoints: Seq<ActiveBreakpoint>,
    progress: RecomputeView,
    reply: Option<Reply>,
    script: Seq<Reply>,
)
    requires
        match progress {
            RecomputeView::Begin => false,
            RecomputeView::Clear { targets, next } => apart_from_others(
                breakpoints,
                targets,
                next,
            ),
            RecomputeView::Install { targets, next, setting } => apart_from_others(
                breakpoints,
                targets,
                next,
            ),
        },
    ensures
        unselected(recompute_run(breakpoints, progress, reply, script).breakpoints, None)
            == unselected(breakpoints, None),
    decreases script.len(),
{
    let effect = recompute_step(breakpoints, progress, reply);
    match progress {
        RecomputeView::Begin => {},
        RecomputeView::Clear { targets, next } => {
            if next < targets.len() {
                lemma_cleared_apart(breakpoints, targets, next);
                let cleared = without_first(breakpoints, targets[next as int].address);
                match resolve_again(targets[next as int]) {
                    Some(setting) => {
                        lemma_setting_apart(cleared, targets, next, setting, None);
                    },
                    None => {},
                }
            }
        },
        RecomputeView::Install { targets, next, setting } => {
            lemma_setting_apart(breakpoints, targets, next, setting, reply);
        },
    }
    assert(unselected(effect.breakpoints, None) == unselected(breakpoints, None));
    match effect.step {
        Step::Finished(_) => {},
        Step::Perform(onward, _) => {
            match onward {
                RecomputeView::Begin => {},
                RecomputeView::Clear { targets, next } => {
                    assert(apart_from_others(effect.breakpoints, targets, next));
                },
                RecomputeView::Install { targets, next, setting } => {
                    assert(apart_from_others(effect.breakpoints, targets, next));
                },
            }
            if script.len() > 0 {
                lemma_recompute_run(effect.breakpoints, onward, Some(script[0]), script.skip(1));
            }
        },
    }
}

/// A recomputation, on a record without an address twice, leaves the
/// breakpoints that were not set for a place in the source as they are:
/// however the probe and the resolver answer and wherever the run stands,
/// the record holds them as it held them before.
pub proof fn lemma_recompute_spares_other_breakpoints(
    breakpoints: Seq<ActiveBreakpoint>,
    script: Seq<Reply>,
)
    requires
        distinct_addresses(breakpoints),
    ensures
        unselected(
            recompute_run(breakpoints, RecomputeView::Begin, None, script).breakpoints,
            None,
        ) == unselected(breakpoints, None),
{
    let targets = source_targets(breakpoints);
    assert forall|i: int, k: int|
        0 <= i < breakpoints.len() && 0 <= k < targets.len() && !(
        #[trigger] breakpoints[i].breakpoint_type is SourceBreakpoint) implies breakpoints[i].address
        != (#[trigger] targets[k]).address by {
        let j = lemma_target_is_recorded(breakpoints, k);
        if i < j {
            assert(breakpoints[i].address != breakpoints[j].address);
        } else if j < i {
            assert(breakpoints[j].address != breakpoints[i].address);
        }
    }
    assert(apart_from_others(breakpoints, targets, 0));
    let effect = recompute_step(breakpoints, RecomputeView::Begin, None);
    match effect.step {
        Step::Finished(_) => {},
        Step::Perform(onward, _) => {
            if script.len() > 0 {
                lemma_recompute_run(breakpoints, onward, Some(script[0]), script.skip(1));
            }
        },
    }
}

/// A source breakpoint as the record holds it.
pub open spec fn recorded(target: SourceTarget) -> ActiveBreakpoint {
    ActiveBreakpoint {
        breakpoint_type: BreakpointType::SourceBreakpoint(target.source, target.location),
        address: target.address,
    }
}

/// Of two source breakpoints, of which the resolver finds the first again
/// and the second not, the first is cleared and set again at the address
/// found, the recomputation stops at the second, which stays cleared, and
/// ends with one error, which names the place of the second and the
/// resolver's reason.
pub proof fn lemma_recompute_stops_at_unresolvable(
    first: SourceTarget,
    second: SourceTarget,
    found: VerifiedBreakpoint,
    reason: ResolveError,
)
    requires
        resolve_again(first) is Some,
        resolve_again(second) is Some,
    ensures
        ({
            let end = recompute_run(
                seq![recorded(first), recorded(second)],
                RecomputeView::Begin,
                None,
                seq![
                    Reply::HwBreakpointCleared(Ok(())),
                    Reply::LocationResolved(Ok(found)),
                    Reply::HwBreakpointSet(Ok(())),
                    Reply::HwBreakpointCleared(Ok(())),
                    Reply::LocationResolved(Err(reason)),
                ],
            );
            &&& end.step == Step::<RecomputeView, Result<(), DebuggerError>>::Finished(
                Err(failed_at(second, unresolved(reason))),
            )
            &&& end.breakpoints == seq![
                ActiveBreakpoint {
                    breakpoint_type: BreakpointType::SourceBreakpoint(
                        first.source,
                        found.source_location,
                    ),
                    address: found.address,
                },
            ]
        }),
{
    let record = seq![recorded(first), recorded(second)];
    let script = seq![
        Reply::HwBreakpointCleared(Ok(())),
        Reply::LocationResolved(Ok(found)),
        Reply::HwBreakpointSet(Ok(())),
        Reply::HwBreakpointCleared(Ok(())),
        Reply::LocationResolved(Err(reason)),
    ];
    let moved = ActiveBreakpoint {
        breakpoint_type: BreakpointType::SourceBreakpoint(first.source, found.source_location),
        address: found.address,
    };
    let targets = seq![first, second];
    assert(source_targets(record) =~= targets) by {
        assert(record.drop_last() =~= seq![recorded(first)]);
        assert(record.drop_last().drop_last() =~= Seq::<ActiveBreakpoint>::empty());
        reveal_with_fuel(source_targets, 3);
    }
    let begun = recompute_step(record, RecomputeView::Begin, None);
    assert(begun.step->Perform_0 == RecomputeView::Clear { targets, next: 0 });

    let first_cleared = recompute_step(record, begun.step->Perform_0, Some(script[0]));
    let without_one = seq![recorded(second)];
    assert(first_cleared.breakpoints == without_one) by {
        assert(first_at(record, first.address, 0));
        lemma_without_first_at(record, first.address, 0);
        assert(record.remove(0) =~= without_one);
    }
    let first_found = recompute_step(
        without_one,
        first_cleared.step->Perform_0,
        Some(script[1]),
    );
    assert(first_found.breakpoints == without_one);
    let first_set = recompute_step(without_one, first_found.step->Perform_0, Some(script[2]));
    let with_moved = seq![recorded(second), moved];
    assert(first_set.breakpoints =~= with_moved);
    assert(first_set.step->Perform_0 == RecomputeView::Clear { targets, next: 1 });

    let second_cleared = recompute_step(with_moved, first_set.step->Perform_0, Some(script[3]));
    let only_moved = seq![moved];
    assert(second_cleared.breakpoints == only_moved) by {
        assert(first_at(with_moved, second.address, 0));
        lemma_without_first_at(with_moved, second.address, 0);
        assert(with_moved.remove(0) =~= only_moved);
    }
    let stopped = recompute_step(only_moved, second_cleared.step->Perform_0, Some(script[4]));
    assert(stopped.breakpoints == only_moved);
    assert(stopped.step == Step::<RecomputeView, Result<(), DebuggerError>>::Finished(
        Err(failed_at(second, unresolved(reason))),
    ));

    let after1 = script.skip(1);
    let after2 = after1.skip(1);
    let after3 = after2.skip(1);
    let after4 = after3.skip(1);
    assert(after1[0] == script[1] && after2[0] == script[2] && after3[0] == script[3]
        && after4[0] == script[4]);
    assert(after1.len() == 4 && after2.len() == 3 && after3.len() == 2 && after4.len() == 1);
    reveal_with_fuel(recompute_run, 7);
}

} // verus!
